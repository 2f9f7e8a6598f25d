use vstd::prelude::*;
use crate::buckets::{spec_next_write, next_write_defined, BucketPeriod, BucketWrite, TimeBucket};
use crate::enrich::{
    cache_use_defined, ip_source, opt_processed_view, processed_row, record_from_lookup,
    spec_ip_source, spec_processed_row, spec_record_from_lookup, IpSourceOf,
};
use crate::error::{internal_failure, internal_failure_text, BruteResponeError, BruteResponeErrorOf};
use crate::ids::{is_simple_v4_uuid, new_row_id};
use crate::records::{
    Individual, IndividualOf, IndividualView, IpLookupOf, IpLookupView,
    ProcessedIndividual, ProcessedIndividualOf, ProcessedIndividualView,
};
use crate::stats::{spec_stat_plan, stat_plan, upserts_view, StatUpsertOf, StatUpsertView};

verus! {

/// What the outside world reports back to a running report.
pub enum ReportEventOf<S, L> {
    /// The report starts; `now` is the current time (ms since the epoch).
    Started { now: i64 },
    /// The attempt was stored; this is the stored row.
    AttemptStored(IndividualOf<S>),
    /// The latest row recorded for the attempt's address, if any, and the current time.
    CacheChecked { cached: Option<ProcessedIndividualOf<S, L>>, now: i64 },
    /// The IP information service answered.
    IpLooked(IpLookupOf<S, L>),
    /// The attempt with its address details was stored; this is the stored row.
    DetailsStored(ProcessedIndividualOf<S, L>),
    /// The last increment was applied.
    CounterStored,
    /// The latest row of the periodic counter being written, and the current time.
    LatestBucket { latest: Option<TimeBucket>, now: i64 },
    /// The periodic counter row was written.
    BucketStored,
    /// The last requested action failed.
    Failed,
}

/// What a running report asks the outside world to do next.
pub enum ReportActionOf<S, L> {
    /// Store the attempt.
    StoreAttempt(IndividualOf<S>),
    /// Fetch the latest row recorded for this address.
    FetchCached { ip: S },
    /// Ask the IP information service about this address.
    LookupIp { ip: S },
    /// Store the attempt with its address details.
    StoreDetails(ProcessedIndividualOf<S, L>),
    /// Apply one increment to the running statistics.
    Count(StatUpsertOf<S>),
    /// Fetch the latest row of this periodic counter.
    FetchLatestBucket(BucketPeriod),
    /// Write this row of this periodic counter.
    WriteBucket(BucketPeriod, BucketWrite),
    /// The report is complete; this is its result.
    Finish(ProcessedIndividualOf<S, L>),
    /// The report failed; nothing more is written.
    Abort,
    /// The report is over; there is nothing to do.
    Idle,
}

/// The state of one report of an attempt.
pub enum ReportRunOf<S, L> {
    /// Not started; holds the attempt as received.
    Begin(IndividualOf<S>),
    /// Waiting for the attempt to be stored.
    StoringAttempt,
    /// Waiting for the latest row recorded for the stored attempt's address.
    CheckingCache(IndividualOf<S>),
    /// Waiting for the IP information service.
    LookingUp(IndividualOf<S>),
    /// Waiting for the processed row to be stored; `reply` is the result
    /// already decided when recent details were reused.
    StoringDetails { attempt: IndividualOf<S>, reply: Option<ProcessedIndividualOf<S, L>> },
    /// Applying the increments; `next` is the position of the increment in flight.
    Counting { attempt: IndividualOf<S>, processed: ProcessedIndividualOf<S, L>, combo_id: S, next: usize },
    /// Waiting for the latest row of the periodic counter `period`.
    FetchingBucket { processed: ProcessedIndividualOf<S, L>, period: BucketPeriod },
    /// Waiting for the row of the periodic counter `period` to be written.
    WritingBucket { processed: ProcessedIndividualOf<S, L>, period: BucketPeriod },
    /// Complete.
    Done(ProcessedIndividualOf<S, L>),
    /// Failed.
    Aborted,
}

pub type ReportEvent = ReportEventOf<String, Vec<String>>;

pub type ReportAction = ReportActionOf<String, Vec<String>>;

pub type ReportRun = ReportRunOf<String, Vec<String>>;

pub type ReportEventView = ReportEventOf<Seq<char>, Seq<Seq<char>>>;

pub type ReportActionView = ReportActionOf<Seq<char>, Seq<Seq<char>>>;

pub type ReportRunView = ReportRunOf<Seq<char>, Seq<Seq<char>>>;

impl View for ReportEventOf<String, Vec<String>> {
    type V = ReportEventView;

    open spec fn view(&self) -> ReportEventView {
        match self {
            ReportEventOf::Started { now } => ReportEventOf::Started { now: *now },
            ReportEventOf::AttemptStored(a) => ReportEventOf::AttemptStored(a@),
            ReportEventOf::CacheChecked { cached, now } => ReportEventOf::CacheChecked {
                cached: opt_processed_view(*cached),
                now: *now,
            },
            ReportEventOf::IpLooked(l) => ReportEventOf::IpLooked(l@),
            ReportEventOf::DetailsStored(p) => ReportEventOf::DetailsStored(p@),
            ReportEventOf::CounterStored => ReportEventOf::CounterStored,
            ReportEventOf::LatestBucket { latest, now } => ReportEventOf::LatestBucket {
                latest: *latest,
                now: *now,
            },
            ReportEventOf::BucketStored => ReportEventOf::BucketStored,
            ReportEventOf::Failed => ReportEventOf::Failed,
        }
    }
}

impl View for ReportActionOf<String, Vec<String>> {
    type V = ReportActionView;

    open spec fn view(&self) -> ReportActionView {
        match self {
            ReportActionOf::StoreAttempt(a) => ReportActionOf::StoreAttempt(a@),
            ReportActionOf::FetchCached { ip } => ReportActionOf::FetchCached { ip: ip@ },
            ReportActionOf::LookupIp { ip } => ReportActionOf::LookupIp { ip: ip@ },
            ReportActionOf::StoreDetails(p) => ReportActionOf::StoreDetails(p@),
            ReportActionOf::Count(u) => ReportActionOf::Count(u@),
            ReportActionOf::FetchLatestBucket(p) => ReportActionOf::FetchLatestBucket(*p),
            ReportActionOf::WriteBucket(p, w) => ReportActionOf::WriteBucket(*p, *w),
            ReportActionOf::Finish(p) => ReportActionOf::Finish(p@),
            ReportActionOf::Abort => ReportActionOf::Abort,
            ReportActionOf::Idle => ReportActionOf::Idle,
        }
    }
}

impl View for ReportRunOf<String, Vec<String>> {
    type V = ReportRunView;

    open spec fn view(&self) -> ReportRunView {
        match self {
            ReportRunOf::Begin(a) => ReportRunOf::Begin(a@),
            ReportRunOf::StoringAttempt => ReportRunOf::StoringAttempt,
            ReportRunOf::CheckingCache(a) => ReportRunOf::CheckingCache(a@),
            ReportRunOf::LookingUp(a) => ReportRunOf::LookingUp(a@),
            ReportRunOf::StoringDetails { attempt, reply } => ReportRunOf::StoringDetails {
                attempt: attempt@,
                reply: opt_processed_view(*reply),
            },
            ReportRunOf::Counting { attempt, processed, combo_id, next } => ReportRunOf::Counting {
                attempt: attempt@,
                processed: processed@,
                combo_id: combo_id@,
                next: *next,
            },
            ReportRunOf::FetchingBucket { processed, period } => ReportRunOf::FetchingBucket {
                processed: processed@,
                period: *period,
            },
            ReportRunOf::WritingBucket { processed, period } => ReportRunOf::WritingBucket {
                processed: processed@,
                period: *period,
            },
            ReportRunOf::Done(p) => ReportRunOf::Done(p@),
            ReportRunOf::Aborted => ReportRunOf::Aborted,
        }
    }
}

/// The periodic counters are written hourly, daily, weekly, then yearly.
pub open spec fn spec_next_period(p: BucketPeriod) -> Option<BucketPeriod> {
    match p {
        BucketPeriod::Hourly => Some(BucketPeriod::Daily),
        BucketPeriod::Daily => Some(BucketPeriod::Weekly),
        BucketPeriod::Weekly => Some(BucketPeriod::Yearly),
        BucketPeriod::Yearly => None,
    }
}

/// Whether a report is over.
pub open spec fn is_over(s: ReportRunView) -> bool {
    s is Done || s is Aborted
}

/// A report that fails: it stops, and nothing more is written.
pub open spec fn aborted() -> (ReportRunView, ReportActionView) {
    (ReportRunOf::Aborted, ReportActionOf::Abort)
}

/// Starting: the attempt is stored under the new identifier `fresh`, stamped `now`.
#[verifier::opaque]
pub open spec fn step_begin(payload: IndividualView, e: ReportEventView, fresh: Seq<char>) -> (ReportRunView, ReportActionView) {
    match e {
        ReportEventOf::Started { now } => (
            ReportRunOf::StoringAttempt,
            ReportActionOf::StoreAttempt(IndividualOf { id: fresh, timestamp: now, ..payload }),
        ),
        _ => aborted(),
    }
}

/// The attempt is stored: the latest row for its address is fetched.
#[verifier::opaque]
pub open spec fn step_storing_attempt(e: ReportEventView) -> (ReportRunView, ReportActionView) {
    match e {
        ReportEventOf::AttemptStored(a) => (ReportRunOf::CheckingCache(a), ReportActionOf::FetchCached { ip: a.ip }),
        _ => aborted(),
    }
}

/// The latest row for the address is known: its details are reused when
/// recent, else the IP information service is asked.
#[verifier::opaque]
pub open spec fn step_checking_cache(a: IndividualView, e: ReportEventView) -> (ReportRunView, ReportActionView) {
    match e {
        ReportEventOf::CacheChecked { cached, now } => match spec_ip_source(a, cached, now) {
            IpSourceOf::Reuse { row, reply } => (
                ReportRunOf::StoringDetails { attempt: a, reply: Some(reply) },
                ReportActionOf::StoreDetails(row),
            ),
            IpSourceOf::Lookup => (ReportRunOf::LookingUp(a), ReportActionOf::LookupIp { ip: a.ip }),
        },
        _ => aborted(),
    }
}

/// The service answered: the attempt is stored with the details built from the answer.
#[verifier::opaque]
pub open spec fn step_looking_up(a: IndividualView, e: ReportEventView) -> (ReportRunView, ReportActionView) {
    match e {
        ReportEventOf::IpLooked(l) => (
            ReportRunOf::StoringDetails { attempt: a, reply: None },
            ReportActionOf::StoreDetails(spec_processed_row(a, spec_record_from_lookup(l))),
        ),
        _ => aborted(),
    }
}

/// The processed row is stored: the report's result is the reused row when
/// details were reused, else the stored row; the first increment follows,
/// with `fresh` as the identifier of a new username/password pair.
#[verifier::opaque]
pub open spec fn step_storing_details(
    attempt: IndividualView,
    reply: Option<ProcessedIndividualView>,
    e: ReportEventView,
    fresh: Seq<char>,
) -> (ReportRunView, ReportActionView) {
    match e {
        ReportEventOf::DetailsStored(row) => {
            let p = match reply {
                Some(r) => r,
                None => row,
            };
            (
                ReportRunOf::Counting { attempt, processed: p, combo_id: fresh, next: 0 },
                ReportActionOf::Count(spec_stat_plan(attempt, p, fresh)[0]),
            )
        },
        _ => aborted(),
    }
}

/// An increment is applied: the next one follows, or after the last one the
/// hourly counter is fetched.
#[verifier::opaque]
pub open spec fn step_counting(
    attempt: IndividualView,
    processed: ProcessedIndividualView,
    combo_id: Seq<char>,
    next: usize,
    e: ReportEventView,
) -> (ReportRunView, ReportActionView) {
    match e {
        ReportEventOf::CounterStored => {
            let plan = spec_stat_plan(attempt, processed, combo_id);
            if next + 1 < plan.len() {
                (
                    ReportRunOf::Counting { attempt, processed, combo_id, next: (next + 1) as usize },
                    ReportActionOf::Count(plan[next + 1]),
                )
            } else {
                (
                    ReportRunOf::FetchingBucket { processed, period: BucketPeriod::Hourly },
                    ReportActionOf::FetchLatestBucket(BucketPeriod::Hourly),
                )
            }
        },
        _ => aborted(),
    }
}

/// The latest row of a periodic counter is known: the attempt is recorded in it.
#[verifier::opaque]
pub open spec fn step_fetching_bucket(
    processed: ProcessedIndividualView,
    period: BucketPeriod,
    e: ReportEventView,
) -> (ReportRunView, ReportActionView) {
    match e {
        ReportEventOf::LatestBucket { latest, now } => (
            ReportRunOf::WritingBucket { processed, period },
            ReportActionOf::WriteBucket(period, spec_next_write(period, latest, now)),
        ),
        _ => aborted(),
    }
}

/// A periodic counter is written: the next period follows, and after the
/// yearly one the report is complete.
#[verifier::opaque]
pub open spec fn step_writing_bucket(
    processed: ProcessedIndividualView,
    period: BucketPeriod,
    e: ReportEventView,
) -> (ReportRunView, ReportActionView) {
    match e {
        ReportEventOf::BucketStored => match spec_next_period(period) {
            Some(q) => (ReportRunOf::FetchingBucket { processed, period: q }, ReportActionOf::FetchLatestBucket(q)),
            None => (ReportRunOf::Done(processed), ReportActionOf::Finish(processed)),
        },
        _ => aborted(),
    }
}

/// One step of a report: its next state and the action it asks for, given
/// the event just reported. `fresh` is the new row identifier drawn when the
/// step stores a new row (the attempt, or a new username/password pair). Any
/// event other than the one awaited (a failure in particular) ends the
/// report, and an ended report does nothing more.
pub open spec fn spec_step(s: ReportRunView, e: ReportEventView, fresh: Seq<char>) -> (ReportRunView, ReportActionView) {
    match s {
        ReportRunOf::Begin(payload) => step_begin(payload, e, fresh),
        ReportRunOf::StoringAttempt => step_storing_attempt(e),
        ReportRunOf::CheckingCache(a) => step_checking_cache(a, e),
        ReportRunOf::LookingUp(a) => step_looking_up(a, e),
        ReportRunOf::StoringDetails { attempt, reply } => step_storing_details(attempt, reply, e, fresh),
        ReportRunOf::Counting { attempt, processed, combo_id, next } => step_counting(
            attempt,
            processed,
            combo_id,
            next,
            e,
        ),
        ReportRunOf::FetchingBucket { processed, period } => step_fetching_bucket(processed, period, e),
        ReportRunOf::WritingBucket { processed, period } => step_writing_bucket(processed, period, e),
        ReportRunOf::Done(_) => (s, ReportActionOf::Idle),
        ReportRunOf::Aborted => (s, ReportActionOf::Idle),
    }
}

/// The event data the step computes with is in range: a reused cached row has
/// a computable age and a domain total, and a periodic counter row has a
/// computable age and room for one more attempt when it is reused.
pub open spec fn event_defined(s: ReportRunView, e: ReportEventView) -> bool {
    match (s, e) {
        (ReportRunOf::CheckingCache(_), ReportEventOf::CacheChecked { cached, now }) => cache_use_defined(cached, now),
        (ReportRunOf::FetchingBucket { period, .. }, ReportEventOf::LatestBucket { latest, now }) => next_write_defined(
            period,
            latest,
            now,
        ),
        _ => true,
    }
}

fn next_period(p: BucketPeriod) -> (r: Option<BucketPeriod>)
    ensures
        r == spec_next_period(p),
{
    match p {
        BucketPeriod::Hourly => Some(BucketPeriod::Daily),
        BucketPeriod::Daily => Some(BucketPeriod::Weekly),
        BucketPeriod::Weekly => Some(BucketPeriod::Yearly),
        BucketPeriod::Yearly => None,
    }
}

fn stop() -> (res: (ReportRun, ReportAction))
    ensures
        (res.0@, res.1@) == aborted(),
{
    (ReportRunOf::Aborted, ReportActionOf::Abort)
}

fn on_begin(payload: Individual, e: ReportEvent, fresh: String) -> (res: (ReportRun, ReportAction))
    ensures
        step_begin(payload@, e@, fresh@) == (res.0@, res.1@),
{
    reveal(step_begin);
    match e {
        ReportEventOf::Started { now } => {
            let row = IndividualOf { id: fresh, timestamp: now, ..payload };
            (ReportRunOf::StoringAttempt, ReportActionOf::StoreAttempt(row))
        },
        _ => stop(),
    }
}

fn on_storing_attempt(e: ReportEvent) -> (res: (ReportRun, ReportAction))
    ensures
        step_storing_attempt(e@) == (res.0@, res.1@),
{
    reveal(step_storing_attempt);
    match e {
        ReportEventOf::AttemptStored(a) => {
            let ip = a.ip.clone();
            (ReportRunOf::CheckingCache(a), ReportActionOf::FetchCached { ip })
        },
        _ => stop(),
    }
}

fn on_checking_cache(a: Individual, e: ReportEvent) -> (res: (ReportRun, ReportAction))
    requires
        e@ matches ReportEventOf::CacheChecked { cached, now } ==> cache_use_defined(cached, now),
    ensures
        step_checking_cache(a@, e@) == (res.0@, res.1@),
{
    reveal(step_checking_cache);
    match e {
        ReportEventOf::CacheChecked { cached, now } => {
            let source = ip_source(&a, cached, now);
            match source {
                IpSourceOf::Reuse { row, reply } => (
                    ReportRunOf::StoringDetails { attempt: a, reply: Some(reply) },
                    ReportActionOf::StoreDetails(row),
                ),
                IpSourceOf::Lookup => {
                    let ip = a.ip.clone();
                    (ReportRunOf::LookingUp(a), ReportActionOf::LookupIp { ip })
                },
            }
        },
        _ => stop(),
    }
}

fn on_looking_up(a: Individual, e: ReportEvent) -> (res: (ReportRun, ReportAction))
    ensures
        step_looking_up(a@, e@) == (res.0@, res.1@),
{
    reveal(step_looking_up);
    match e {
        ReportEventOf::IpLooked(l) => {
            let details = record_from_lookup(l);
            let row = processed_row(&a, details);
            (ReportRunOf::StoringDetails { attempt: a, reply: None }, ReportActionOf::StoreDetails(row))
        },
        _ => stop(),
    }
}

fn on_storing_details(attempt: Individual, reply: Option<ProcessedIndividual>, e: ReportEvent, fresh: String) -> (res: (
    ReportRun,
    ReportAction,
))
    ensures
        step_storing_details(attempt@, opt_processed_view(reply), e@, fresh@) == (res.0@, res.1@),
{
    reveal(step_storing_details);
    let ghost av = attempt@;
    let ghost rv = opt_processed_view(reply);
    let ghost ev = e@;
    match e {
        ReportEventOf::DetailsStored(row) => {
            let processed = match reply {
                Some(r) => r,
                None => row,
            };
            let combo_id = fresh;
            let mut plan = stat_plan(&attempt, &processed, combo_id.clone());
            assert(upserts_view(plan@).len() == plan@.len());
            let first = plan.remove(0);
            (ReportRunOf::Counting { attempt, processed, combo_id, next: 0 }, ReportActionOf::Count(first))
        },
        _ => stop(),
    }
}

fn on_counting(attempt: Individual, processed: ProcessedIndividual, combo_id: String, next: usize, e: ReportEvent) -> (res: (
    ReportRun,
    ReportAction,
))
    ensures
        step_counting(attempt@, processed@, combo_id@, next, e@) == (res.0@, res.1@),
{
    reveal(step_counting);
    match e {
        ReportEventOf::CounterStored => {
            let mut plan = stat_plan(&attempt, &processed, combo_id.clone());
            assert(upserts_view(plan@).len() == plan@.len());
            if next < plan.len() - 1 {
                let u = plan.remove(next + 1);
                (ReportRunOf::Counting { attempt, processed, combo_id, next: next + 1 }, ReportActionOf::Count(u))
            } else {
                (
                    ReportRunOf::FetchingBucket { processed, period: BucketPeriod::Hourly },
                    ReportActionOf::FetchLatestBucket(BucketPeriod::Hourly),
                )
            }
        },
        _ => stop(),
    }
}

fn on_fetching_bucket(processed: ProcessedIndividual, period: BucketPeriod, e: ReportEvent) -> (res: (
    ReportRun,
    ReportAction,
))
    requires
        e@ matches ReportEventOf::LatestBucket { latest, now } ==> next_write_defined(period, latest, now),
    ensures
        step_fetching_bucket(processed@, period, e@) == (res.0@, res.1@),
{
    reveal(step_fetching_bucket);
    match e {
        ReportEventOf::LatestBucket { latest, now } => {
            let w = period.next_write(latest, now);
            (ReportRunOf::WritingBucket { processed, period }, ReportActionOf::WriteBucket(period, w))
        },
        _ => stop(),
    }
}

fn copy_processed(p: &ProcessedIndividual) -> (r: ProcessedIndividual)
    ensures
        r@ == p@,
{
    ProcessedIndividualOf {
        id: p.id.clone(),
        username: p.username.clone(),
        password: p.password.clone(),
        ip: p.ip.clone(),
        protocol: p.protocol.clone(),
        details: p.details.copy(),
        timestamp: p.timestamp,
    }
}

fn on_writing_bucket(processed: ProcessedIndividual, period: BucketPeriod, e: ReportEvent) -> (res: (
    ReportRun,
    ReportAction,
))
    ensures
        step_writing_bucket(processed@, period, e@) == (res.0@, res.1@),
{
    reveal(step_writing_bucket);
    match e {
        ReportEventOf::BucketStored => match next_period(period) {
            Some(q) => (ReportRunOf::FetchingBucket { processed, period: q }, ReportActionOf::FetchLatestBucket(q)),
            None => {
                let reply = copy_processed(&processed);
                (ReportRunOf::Done(processed), ReportActionOf::Finish(reply))
            },
        },
        _ => stop(),
    }
}

impl ReportRunOf<String, Vec<String>> {
    /// A report of the attempt `payload`, not yet started.
    pub fn new(payload: Individual) -> (r: ReportRun)
        ensures
            r@ == ReportRunView::Begin(payload@),
    {
        ReportRunOf::Begin(payload)
    }

    /// Whether the report is over.
    pub fn is_finished(&self) -> (b: bool)
        ensures
            b == is_over(self@),
    {
        match self {
            ReportRunOf::Done(_) => true,
            ReportRunOf::Aborted => true,
            _ => false,
        }
    }

    /// Advances the report by one event; see `spec_step`. It draws a fresh
    /// row identifier, used where the step stores a new row.
    pub fn step(self, e: ReportEvent) -> (res: (ReportRun, ReportAction))
        requires
            event_defined(self@, e@),
        ensures
            exists|fresh: Seq<char>|
                is_simple_v4_uuid(fresh) && #[trigger] spec_step(self@, e@, fresh) == (res.0@, res.1@),
    {
        let fresh = new_row_id();
        let ghost f = fresh@;
        let res = self.step_with_id(e, fresh);
        assert(spec_step(self@, e@, f) == (res.0@, res.1@));
        res
    }

    /// Advances the report by one event, with `fresh` as the identifier of a
    /// row that the step stores (the attempt, or a new username/password pair).
    pub fn step_with_id(self, e: ReportEvent, fresh: String) -> (res: (ReportRun, ReportAction))
        requires
            event_defined(self@, e@),
            is_simple_v4_uuid(fresh@),
        ensures
            spec_step(self@, e@, fresh@) == (res.0@, res.1@),
    {
        let ghost pre = self@;
        let ghost ev = e@;
        let ghost f = fresh@;
        let res = match self {
            ReportRunOf::Begin(payload) => on_begin(payload, e, fresh),
            ReportRunOf::StoringAttempt => on_storing_attempt(e),
            ReportRunOf::CheckingCache(a) => on_checking_cache(a, e),
            ReportRunOf::LookingUp(a) => on_looking_up(a, e),
            ReportRunOf::StoringDetails { attempt, reply } => on_storing_details(attempt, reply, e, fresh),
            ReportRunOf::Counting { attempt, processed, combo_id, next } => on_counting(
                attempt,
                processed,
                combo_id,
                next,
                e,
            ),
            ReportRunOf::FetchingBucket { processed, period } => on_fetching_bucket(processed, period, e),
            ReportRunOf::WritingBucket { processed, period } => on_writing_bucket(processed, period, e),
            ReportRunOf::Done(p) => (ReportRunOf::Done(p), ReportActionOf::Idle),
            ReportRunOf::Aborted => (ReportRunOf::Aborted, ReportActionOf::Idle),
        };
        assert(spec_step(pre, ev, f) == (res.0@, res.1@));
        res
    }

    /// The answer to the client that asked for this report: the result of a
    /// completed report, else a failure on the service's side.
    pub fn reply(self) -> (r: Result<ProcessedIndividual, BruteResponeError>)
        ensures
            match self@ {
                ReportRunOf::Done(p) => r matches Ok(q) && q@ == p,
                _ => r matches Err(e) && e@ == BruteResponeErrorOf::InternalError(internal_failure_text()),
            },
    {
        match self {
            ReportRunOf::Done(p) => Ok(p),
            _ => Err(internal_failure()),
        }
    }
}

/// The state reached and the actions asked for when the events `evs` are
/// reported one after another, the `i`-th step drawing `fresh[i]` as its new
/// row identifier.
pub open spec fn spec_run(
    s: ReportRunView,
    evs: Seq<ReportEventView>,
    fresh: Seq<Seq<char>>,
) -> (ReportRunView, Seq<ReportActionView>)
    decreases evs.len(),
{
    if evs.len() == 0 {
        (s, Seq::empty())
    } else {
        let (mid, acts) = spec_run(s, evs.drop_last(), fresh.drop_last());
        let (last, act) = spec_step(mid, evs.last(), fresh.last());
        (last, acts.push(act))
    }
}

/// A failure ends a report that is still running: nothing more is written.
pub proof fn lemma_failure_aborts(s: ReportRunView, fresh: Seq<char>)
    requires
        !is_over(s),
    ensures
        spec_step(s, ReportEventOf::Failed, fresh) == aborted(),
{
    reveal(step_begin);
    reveal(step_storing_attempt);
    reveal(step_checking_cache);
    reveal(step_looking_up);
    reveal(step_storing_details);
    reveal(step_counting);
    reveal(step_fetching_bucket);
    reveal(step_writing_bucket);
}

/// A report that is over stays over and asks for nothing, whatever happens.
pub proof fn lemma_over_is_final(s: ReportRunView, e: ReportEventView, fresh: Seq<char>)
    requires
        is_over(s),
    ensures
        spec_step(s, e, fresh) == (s, ReportActionView::Idle),
{
}

/// `n` reports of an applied increment.
pub open spec fn counters_stored(n: nat) -> Seq<ReportEventView> {
    Seq::new(n, |i: int| ReportEventView::CounterStored)
}

/// The increments `plan[1..=k]`, as actions.
pub open spec fn counts_after_first(plan: Seq<StatUpsertView>, k: nat) -> Seq<ReportActionView> {
    Seq::new(k, |i: int| ReportActionView::Count(plan[i + 1]))
}

proof fn lemma_counting_prefix(
    a: IndividualView,
    p: ProcessedIndividualView,
    c: Seq<char>,
    k: nat,
    fresh: Seq<Seq<char>>,
)
    requires
        k < spec_stat_plan(a, p, c).len(),
        fresh.len() == k,
    ensures
        spec_run(ReportRunView::Counting { attempt: a, processed: p, combo_id: c, next: 0 }, counters_stored(k), fresh)
            == (ReportRunView::Counting { attempt: a, processed: p, combo_id: c, next: k as usize }, counts_after_first(
            spec_stat_plan(a, p, c),
            k,
        )),
    decreases k,
{
    let s0 = ReportRunView::Counting { attempt: a, processed: p, combo_id: c, next: 0 };
    let plan = spec_stat_plan(a, p, c);
    if k == 0 {
        assert(counts_after_first(plan, 0) =~= Seq::empty());
    } else {
        lemma_counting_prefix(a, p, c, (k - 1) as nat, fresh.drop_last());
        assert(counters_stored(k).drop_last() =~= counters_stored((k - 1) as nat));
        reveal(step_counting);
        assert(counts_after_first(plan, (k - 1) as nat).push(ReportActionView::Count(plan[k as int]))
            =~= counts_after_first(plan, k));
    }
}

/// Once its details are stored, a report that meets no failure applies every
/// increment of its plan exactly once and in order (the plan built with the
/// pair identifier drawn at that step), and then turns to the hourly counter.
/// The plan is built from the reused row when details were reused, else from
/// the stored row.
pub proof fn lemma_counters_in_plan_order(
    a: IndividualView,
    reply: Option<ProcessedIndividualView>,
    row: ProcessedIndividualView,
    fresh: Seq<Seq<char>>,
)
    requires
        fresh.len() == spec_stat_plan(
            a,
            match reply {
                Some(r) => r,
                None => row,
            },
            fresh[0],
        ).len() + 1,
    ensures
        ({
            let p = match reply {
                Some(r) => r,
                None => row,
            };
            let plan = spec_stat_plan(a, p, fresh[0]);
            let evs = seq![ReportEventView::DetailsStored(row)] + counters_stored(plan.len());
            spec_run(ReportRunView::StoringDetails { attempt: a, reply }, evs, fresh) == (
                ReportRunView::FetchingBucket { processed: p, period: BucketPeriod::Hourly },
                plan.map_values(|u: StatUpsertView| ReportActionView::Count(u)).push(
                    ReportActionView::FetchLatestBucket(BucketPeriod::Hourly),
                ),
            )
        }),
{
    let p = match reply {
        Some(r) => r,
        None => row,
    };
    let c = fresh[0];
    let plan = spec_stat_plan(a, p, c);
    let n = plan.len();
    let s0 = ReportRunView::StoringDetails { attempt: a, reply };
    let evs = seq![ReportEventView::DetailsStored(row)] + counters_stored(n);
    reveal(step_storing_details);
    reveal(step_counting);
    let s1 = ReportRunView::Counting { attempt: a, processed: p, combo_id: c, next: 0 };
    // After the first event.
    assert(evs.subrange(0, 1) =~= seq![ReportEventView::DetailsStored(row)]);
    assert(fresh.subrange(0, 1) =~= seq![c]);
    lemma_run_one(s0, ReportEventView::DetailsStored(row), c);
    // A run splits at any point into its parts.
    lemma_run_split(s0, evs, fresh, 1);
    let rest = evs.subrange(1, evs.len() as int);
    assert(rest =~= counters_stored(n));
    let k = (n - 1) as nat;
    lemma_run_split(s1, rest, fresh.subrange(1, fresh.len() as int), k as int);
    assert(rest.subrange(0, k as int) =~= counters_stored(k));
    lemma_counting_prefix(a, p, c, k, fresh.subrange(1, fresh.len() as int).subrange(0, k as int));
    let sk = ReportRunView::Counting { attempt: a, processed: p, combo_id: c, next: k as usize };
    let tail = rest.subrange(k as int, rest.len() as int);
    assert(tail =~= seq![ReportEventView::CounterStored]);
    let ftail = fresh.subrange(1, fresh.len() as int).subrange(k as int, n as int);
    assert(ftail =~= seq![ftail[0]]);
    lemma_run_one(sk, ReportEventView::CounterStored, ftail[0]);
    assert(seq![ReportActionView::Count(plan[0])] + (counts_after_first(plan, k) + seq![
        ReportActionView::FetchLatestBucket(BucketPeriod::Hourly),
    ]) =~= plan.map_values(|u: StatUpsertView| ReportActionView::Count(u)).push(
        ReportActionView::FetchLatestBucket(BucketPeriod::Hourly),
    ));
}

/// Reporting one event is taking one step.
pub proof fn lemma_run_one(s: ReportRunView, e: ReportEventView, f: Seq<char>)
    ensures
        spec_run(s, seq![e], seq![f]) == (spec_step(s, e, f).0, seq![spec_step(s, e, f).1]),
{
    assert(seq![e].drop_last() =~= Seq::<ReportEventView>::empty());
    assert(seq![f].drop_last() =~= Seq::<Seq<char>>::empty());
    assert(spec_run(s, Seq::<ReportEventView>::empty(), Seq::<Seq<char>>::empty()) == (s, Seq::<ReportActionView>::empty()));
    assert(seq![e].last() == e);
    assert(seq![f].last() == f);
    assert(Seq::<ReportActionView>::empty().push(spec_step(s, e, f).1) =~= seq![spec_step(s, e, f).1]);
}

/// Reporting `evs` is reporting its first `k` events and then the rest.
pub proof fn lemma_run_split(s: ReportRunView, evs: Seq<ReportEventView>, fresh: Seq<Seq<char>>, k: int)
    requires
        0 <= k <= evs.len(),
        fresh.len() == evs.len(),
    ensures
        ({
            let (mid, first) = spec_run(s, evs.subrange(0, k), fresh.subrange(0, k));
            let (end, second) = spec_run(mid, evs.subrange(k, evs.len() as int), fresh.subrange(k, fresh.len() as int));
            spec_run(s, evs, fresh) == (end, first + second)
        }),
    decreases evs.len(),
{
    if k == evs.len() {
        assert(evs.subrange(0, k) =~= evs);
        assert(fresh.subrange(0, k) =~= fresh);
        let (mid, first) = spec_run(s, evs, fresh);
        assert(evs.subrange(k, evs.len() as int) =~= Seq::<ReportEventView>::empty());
        assert(first + Seq::<ReportActionView>::empty() =~= first);
    } else {
        lemma_run_split(s, evs.drop_last(), fresh.drop_last(), k);
        assert(evs.drop_last().subrange(0, k) =~= evs.subrange(0, k));
        assert(fresh.drop_last().subrange(0, k) =~= fresh.subrange(0, k));
        let (mid, first) = spec_run(s, evs.subrange(0, k), fresh.subrange(0, k));
        let tail = evs.subrange(k, evs.len() as int);
        let ftail = fresh.subrange(k, fresh.len() as int);
        assert(tail.drop_last() =~= evs.drop_last().subrange(k, evs.len() - 1));
        assert(ftail.drop_last() =~= fresh.drop_last().subrange(k, fresh.len() - 1));
        assert(tail.last() == evs.last());
        assert(ftail.last() == fresh.last());
        let (e1, s1) = spec_run(mid, tail.drop_last(), ftail.drop_last());
        let (e2, a2) = spec_step(e1, evs.last(), fresh.last());
        assert(first + s1.push(a2) =~= (first + s1).push(a2));
    }
}

/// The events of the four periodic counters when nothing fails: for each
/// period its latest row and the time, then the report that it was written.
pub open spec fn bucket_events(latest: Seq<Option<TimeBucket>>, now: Seq<i64>) -> Seq<ReportEventView> {
    Seq::new(
        8,
        |i: int|
            if i % 2 == 0 {
                ReportEventView::LatestBucket { latest: latest[i / 2], now: now[i / 2] }
            } else {
                ReportEventView::BucketStored
            },
    )
}

/// The actions of the four periodic counters: each period's write, the fetch
/// of the next period's latest row, and last the report's result `p`.
pub open spec fn bucket_actions(p: ProcessedIndividualView, latest: Seq<Option<TimeBucket>>, now: Seq<i64>) -> Seq<ReportActionView> {
    seq![
        ReportActionView::WriteBucket(BucketPeriod::Hourly, spec_next_write(BucketPeriod::Hourly, latest[0], now[0])),
        ReportActionView::FetchLatestBucket(BucketPeriod::Daily),
        ReportActionView::WriteBucket(BucketPeriod::Daily, spec_next_write(BucketPeriod::Daily, latest[1], now[1])),
        ReportActionView::FetchLatestBucket(BucketPeriod::Weekly),
        ReportActionView::WriteBucket(BucketPeriod::Weekly, spec_next_write(BucketPeriod::Weekly, latest[2], now[2])),
        ReportActionView::FetchLatestBucket(BucketPeriod::Yearly),
        ReportActionView::WriteBucket(BucketPeriod::Yearly, spec_next_write(BucketPeriod::Yearly, latest[3], now[3])),
        ReportActionView::Finish(p),
    ]
}

/// Once the hourly counter is fetched, a report that meets no failure writes
/// the hourly, daily, weekly and yearly counters in this order, each from the
/// latest row reported for it, and completes with its result.
pub proof fn lemma_counters_by_period(
    p: ProcessedIndividualView,
    latest: Seq<Option<TimeBucket>>,
    now: Seq<i64>,
    fresh: Seq<Seq<char>>,
)
    requires
        latest.len() == 4,
        now.len() == 4,
        fresh.len() == 8,
    ensures
        spec_run(
            ReportRunView::FetchingBucket { processed: p, period: BucketPeriod::Hourly },
            bucket_events(latest, now),
            fresh,
        ) == (ReportRunView::Done(p), bucket_actions(p, latest, now)),
{
    reveal(step_fetching_bucket);
    reveal(step_writing_bucket);
    let evs = bucket_events(latest, now);
    let s0 = ReportRunView::FetchingBucket { processed: p, period: BucketPeriod::Hourly };
    assert(evs.drop_last().drop_last().drop_last().drop_last().drop_last().drop_last().drop_last().drop_last()
        =~= Seq::<ReportEventView>::empty());
    reveal_with_fuel(spec_run, 9);
    assert(evs[0] == ReportEventView::LatestBucket { latest: latest[0], now: now[0] });
    assert(evs[2] == ReportEventView::LatestBucket { latest: latest[1], now: now[1] });
    assert(evs[4] == ReportEventView::LatestBucket { latest: latest[2], now: now[2] });
    assert(evs[6] == ReportEventView::LatestBucket { latest: latest[3], now: now[3] });
    assert(spec_run(s0, evs, fresh).1 =~= bucket_actions(p, latest, now));
}

/// Reporting one more event takes one more step.
pub proof fn lemma_run_snoc(s: ReportRunView, evs: Seq<ReportEventView>, fresh: Seq<Seq<char>>, e: ReportEventView, f: Seq<char>)
    ensures
        ({
            let (mid, acts) = spec_run(s, evs, fresh);
            spec_run(s, evs.push(e), fresh.push(f)) == (spec_step(mid, e, f).0, acts.push(spec_step(mid, e, f).1))
        }),
{
    assert(evs.push(e).drop_last() =~= evs);
    assert(fresh.push(f).drop_last() =~= fresh);
}

/// What a report of `payload` does when nothing fails and the address has no
/// recent row: it stores the attempt under the first drawn identifier and
/// the start time, fetches the latest row for the stored attempt's address,
/// asks the IP information service, stores the attempt with the details built
/// from the answer, applies every increment of its plan once and in order,
/// writes the four periodic counters, and completes with the stored row.
pub proof fn lemma_report_with_lookup(
    payload: IndividualView,
    started: i64,
    a: IndividualView,
    cached: Option<ProcessedIndividualView>,
    checked: i64,
    l: IpLookupView,
    row: ProcessedIndividualView,
    latest: Seq<Option<TimeBucket>>,
    now: Seq<i64>,
    fresh: Seq<Seq<char>>,
)
    requires
        spec_ip_source(a, cached, checked) is Lookup,
        latest.len() == 4,
        now.len() == 4,
        fresh.len() == 4 + spec_stat_plan(a, row, fresh[4]).len() + 1 + 8,
    ensures
        ({
            let plan = spec_stat_plan(a, row, fresh[4]);
            let evs = seq![
                ReportEventView::Started { now: started },
                ReportEventView::AttemptStored(a),
                ReportEventView::CacheChecked { cached, now: checked },
                ReportEventView::IpLooked(l),
            ] + (seq![ReportEventView::DetailsStored(row)] + counters_stored(plan.len())) + bucket_events(latest, now);
            let acts = seq![
                ReportActionView::StoreAttempt(IndividualOf { id: fresh[0], timestamp: started, ..payload }),
                ReportActionView::FetchCached { ip: a.ip },
                ReportActionView::LookupIp { ip: a.ip },
                ReportActionView::StoreDetails(spec_processed_row(a, spec_record_from_lookup(l))),
            ] + plan.map_values(|u: StatUpsertView| ReportActionView::Count(u)).push(
                ReportActionView::FetchLatestBucket(BucketPeriod::Hourly),
            ) + bucket_actions(row, latest, now);
            spec_run(ReportRunView::Begin(payload), evs, fresh) == (ReportRunView::Done(row), acts)
        }),
{
    reveal(step_begin);
    reveal(step_storing_attempt);
    reveal(step_checking_cache);
    reveal(step_looking_up);
    let plan = spec_stat_plan(a, row, fresh[4]);
    let n = plan.len();
    let head = seq![
        ReportEventView::Started { now: started },
        ReportEventView::AttemptStored(a),
        ReportEventView::CacheChecked { cached, now: checked },
        ReportEventView::IpLooked(l),
    ];
    let middle = seq![ReportEventView::DetailsStored(row)] + counters_stored(n);
    let tail = bucket_events(latest, now);
    let evs = head + middle + tail;
    let s0 = ReportRunView::Begin(payload);
    // The first four steps.
    let e = Seq::<ReportEventView>::empty();
    let ef = Seq::<Seq<char>>::empty();
    lemma_run_snoc(s0, e, ef, head[0], fresh[0]);
    lemma_run_snoc(s0, e.push(head[0]), ef.push(fresh[0]), head[1], fresh[1]);
    lemma_run_snoc(s0, e.push(head[0]).push(head[1]), ef.push(fresh[0]).push(fresh[1]), head[2], fresh[2]);
    lemma_run_snoc(
        s0,
        e.push(head[0]).push(head[1]).push(head[2]),
        ef.push(fresh[0]).push(fresh[1]).push(fresh[2]),
        head[3],
        fresh[3],
    );
    assert(e.push(head[0]).push(head[1]).push(head[2]).push(head[3]) =~= head);
    assert(ef.push(fresh[0]).push(fresh[1]).push(fresh[2]).push(fresh[3]) =~= fresh.subrange(0, 4));
    let s4 = ReportRunView::StoringDetails { attempt: a, reply: None };
    let acts4 = seq![
        ReportActionView::StoreAttempt(IndividualOf { id: fresh[0], timestamp: started, ..payload }),
        ReportActionView::FetchCached { ip: a.ip },
        ReportActionView::LookupIp { ip: a.ip },
        ReportActionView::StoreDetails(spec_processed_row(a, spec_record_from_lookup(l))),
    ];
    assert(spec_run(s0, head, fresh.subrange(0, 4)) == (s4, acts4)) by {
        assert(Seq::<ReportActionView>::empty().push(acts4[0]).push(acts4[1]).push(acts4[2]).push(acts4[3]) =~= acts4);
    }
    // Split after the first four events.
    lemma_run_split(s0, evs, fresh, 4);
    assert(evs.subrange(0, 4) =~= head);
    let rest = evs.subrange(4, evs.len() as int);
    let frest = fresh.subrange(4, fresh.len() as int);
    assert(rest =~= middle + tail);
    // Split the rest after the details and the increments.
    let m = (n + 1) as int;
    lemma_run_split(s4, rest, frest, m);
    assert(rest.subrange(0, m) =~= middle);
    assert(rest.subrange(m, rest.len() as int) =~= tail);
    let fmid = frest.subrange(0, m);
    assert(fmid[0] == fresh[4]);
    lemma_counters_in_plan_order(a, None, row, fmid);
    lemma_counters_by_period(row, latest, now, frest.subrange(m, frest.len() as int));
    let count_acts = plan.map_values(|u: StatUpsertView| ReportActionView::Count(u)).push(
        ReportActionView::FetchLatestBucket(BucketPeriod::Hourly),
    );
    assert(acts4 + (count_acts + bucket_actions(row, latest, now)) =~= acts4 + count_acts + bucket_actions(row, latest, now));
}

/// What a report of `payload` does when nothing fails and the address has a
/// recent row: it stores the attempt, fetches that row, stores the attempt
/// with that row's details (the service is not asked), applies every
/// increment once and in order, writes the four periodic counters, and
/// completes with the recent row itself (postal code filled in), whatever
/// row the store answered with.
pub proof fn lemma_report_with_reuse(
    payload: IndividualView,
    started: i64,
    a: IndividualView,
    cached: Option<ProcessedIndividualView>,
    checked: i64,
    row: ProcessedIndividualView,
    latest: Seq<Option<TimeBucket>>,
    now: Seq<i64>,
    fresh: Seq<Seq<char>>,
)
    requires
        spec_ip_source(a, cached, checked) is Reuse,
        latest.len() == 4,
        now.len() == 4,
        fresh.len() == 3 + spec_stat_plan(a, spec_ip_source(a, cached, checked)->reply, fresh[3]).len() + 1 + 8,
    ensures
        ({
            let stored = spec_ip_source(a, cached, checked)->row;
            let reply = spec_ip_source(a, cached, checked)->reply;
            let plan = spec_stat_plan(a, reply, fresh[3]);
            let evs = seq![
                ReportEventView::Started { now: started },
                ReportEventView::AttemptStored(a),
                ReportEventView::CacheChecked { cached, now: checked },
            ] + (seq![ReportEventView::DetailsStored(row)] + counters_stored(plan.len())) + bucket_events(latest, now);
            let acts = seq![
                ReportActionView::StoreAttempt(IndividualOf { id: fresh[0], timestamp: started, ..payload }),
                ReportActionView::FetchCached { ip: a.ip },
                ReportActionView::StoreDetails(stored),
            ] + plan.map_values(|u: StatUpsertView| ReportActionView::Count(u)).push(
                ReportActionView::FetchLatestBucket(BucketPeriod::Hourly),
            ) + bucket_actions(reply, latest, now);
            &&& spec_run(ReportRunView::Begin(payload), evs, fresh) == (ReportRunView::Done(reply), acts)
            &&& reply == (ProcessedIndividualOf { details: crate::enrich::spec_with_postal(cached->0.details), ..cached->0 })
        }),
{
    reveal(step_begin);
    reveal(step_storing_attempt);
    reveal(step_checking_cache);
    let stored = spec_ip_source(a, cached, checked)->row;
    let reply = spec_ip_source(a, cached, checked)->reply;
    let plan = spec_stat_plan(a, reply, fresh[3]);
    let n = plan.len();
    let head = seq![
        ReportEventView::Started { now: started },
        ReportEventView::AttemptStored(a),
        ReportEventView::CacheChecked { cached, now: checked },
    ];
    let middle = seq![ReportEventView::DetailsStored(row)] + counters_stored(n);
    let tail = bucket_events(latest, now);
    let evs = head + middle + tail;
    let s0 = ReportRunView::Begin(payload);
    let e = Seq::<ReportEventView>::empty();
    let ef = Seq::<Seq<char>>::empty();
    lemma_run_snoc(s0, e, ef, head[0], fresh[0]);
    lemma_run_snoc(s0, e.push(head[0]), ef.push(fresh[0]), head[1], fresh[1]);
    lemma_run_snoc(s0, e.push(head[0]).push(head[1]), ef.push(fresh[0]).push(fresh[1]), head[2], fresh[2]);
    assert(e.push(head[0]).push(head[1]).push(head[2]) =~= head);
    assert(ef.push(fresh[0]).push(fresh[1]).push(fresh[2]) =~= fresh.subrange(0, 3));
    let s3 = ReportRunView::StoringDetails { attempt: a, reply: Some(reply) };
    let acts3 = seq![
        ReportActionView::StoreAttempt(IndividualOf { id: fresh[0], timestamp: started, ..payload }),
        ReportActionView::FetchCached { ip: a.ip },
        ReportActionView::StoreDetails(stored),
    ];
    assert(spec_run(s0, head, fresh.subrange(0, 3)) == (s3, acts3)) by {
        assert(Seq::<ReportActionView>::empty().push(acts3[0]).push(acts3[1]).push(acts3[2]) =~= acts3);
    }
    lemma_run_split(s0, evs, fresh, 3);
    assert(evs.subrange(0, 3) =~= head);
    let rest = evs.subrange(3, evs.len() as int);
    let frest = fresh.subrange(3, fresh.len() as int);
    assert(rest =~= middle + tail);
    let m = (n + 1) as int;
    lemma_run_split(s3, rest, frest, m);
    assert(rest.subrange(0, m) =~= middle);
    assert(rest.subrange(m, rest.len() as int) =~= tail);
    let fmid = frest.subrange(0, m);
    assert(fmid[0] == fresh[3]);
    lemma_counters_in_plan_order(a, Some(reply), row, fmid);
    lemma_counters_by_period(reply, latest, now, frest.subrange(m, frest.len() as int));
    let count_acts = plan.map_values(|u: StatUpsertView| ReportActionView::Count(u)).push(
        ReportActionView::FetchLatestBucket(BucketPeriod::Hourly),
    );
    assert(acts3 + (count_acts + bucket_actions(reply, latest, now)) =~= acts3 + count_acts + bucket_actions(reply, latest, now));
}

/// Every processed row a report stores has a postal code and a domain total,
/// on both paths: from a recent cached row (its postal code filled in when
/// absent, its domain total carried over) and from a lookup (a missing postal
/// code stored as the empty text). When details are reused, the report's
/// result, decided at that step, has a postal code as well.
pub proof fn lemma_stored_details_complete(s: ReportRunView, e: ReportEventView, fresh: Seq<char>)
    requires
        event_defined(s, e),
    ensures
        spec_step(s, e, fresh).1 matches ReportActionOf::StoreDetails(row) ==> (row.details.postal is Some
            && row.details.domain_total is Some),
        spec_step(s, e, fresh).0 matches ReportRunOf::StoringDetails { reply: Some(r), .. } ==> (
        r.details.postal is Some && r.details.domain_total is Some),
{
    reveal(step_begin);
    reveal(step_storing_attempt);
    reveal(step_checking_cache);
    reveal(step_looking_up);
    reveal(step_storing_details);
    reveal(step_counting);
    reveal(step_fetching_bucket);
    reveal(step_writing_bucket);
}

/// A report that completes after reusing details answers a row with a postal code.
pub proof fn lemma_reused_reply_has_postal(
    payload: IndividualView,
    started: i64,
    a: IndividualView,
    cached: Option<ProcessedIndividualView>,
    checked: i64,
    row: ProcessedIndividualView,
    latest: Seq<Option<TimeBucket>>,
    now: Seq<i64>,
    fresh: Seq<Seq<char>>,
)
    requires
        spec_ip_source(a, cached, checked) is Reuse,
        cache_use_defined(cached, checked),
        latest.len() == 4,
        now.len() == 4,
        fresh.len() == 3 + spec_stat_plan(a, spec_ip_source(a, cached, checked)->reply, fresh[3]).len() + 1 + 8,
    ensures
        ({
            let reply = spec_ip_source(a, cached, checked)->reply;
            let plan = spec_stat_plan(a, reply, fresh[3]);
            let evs = seq![
                ReportEventView::Started { now: started },
                ReportEventView::AttemptStored(a),
                ReportEventView::CacheChecked { cached, now: checked },
            ] + (seq![ReportEventView::DetailsStored(row)] + counters_stored(plan.len())) + bucket_events(latest, now);
            spec_run(ReportRunView::Begin(payload), evs, fresh).0 matches ReportRunOf::Done(p) && p.details.postal is Some
                && p.details.domain_total is Some
        }),
{
    lemma_report_with_reuse(payload, started, a, cached, checked, row, latest, now, fresh);
}

} // verus!
