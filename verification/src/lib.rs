//! Brute: the decision core of a service that records authentication
//! attempts, enriches them with IP details and keeps running statistics.

pub mod buckets;
pub mod ids;
pub mod records;
pub mod enrich;
pub mod stats;
pub mod error;
pub mod report;
pub mod admission;
pub mod listing;
pub mod reporter;
