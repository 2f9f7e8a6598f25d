use vstd::prelude::*;
use vstd::string::StringExecFns;
use crate::error::{internal_failure, internal_failure_text, BruteResponeError, BruteResponeErrorOf, BruteResponeErrorView};

verus! {

/// The tables whose top rows can be listed.
#[derive(Clone, Copy, Debug, PartialEq, Eq)]
pub enum ListingKind {
    ProcessedIndividual,
    Username,
    Password,
    Ip,
    UsrPassCombo,
    Protocol,
    Country,
    City,
    Region,
    Timezone,
    Org,
    Postal,
    Location,
    Hourly,
}

/// The statement that lists a table's top rows, the row limit bound as its
/// one parameter: statistics by count (a password made only of `X`s, two or
/// more, is never listed, nor a blank postal code), attempts and hourly
/// counts by time, newest first.
pub open spec fn spec_listing_query(kind: ListingKind) -> Seq<char> {
    match kind {
        ListingKind::ProcessedIndividual => "SELECT * FROM processed_individual ORDER BY timestamp DESC LIMIT $1"@,
        ListingKind::Username => "SELECT * FROM top_username ORDER BY amount DESC LIMIT $1;"@,
        ListingKind::Password => "SELECT * FROM top_password WHERE password !~ '^X{2,}$' ORDER BY amount DESC LIMIT $1;"@,
        ListingKind::Ip => "SELECT * FROM top_ip ORDER BY amount DESC LIMIT $1;"@,
        ListingKind::UsrPassCombo => "SELECT * FROM top_usr_pass_combo WHERE password !~ '^X{2,}$' ORDER BY amount DESC LIMIT $1;"@,
        ListingKind::Protocol => "SELECT * FROM top_protocol ORDER BY amount DESC LIMIT $1;"@,
        ListingKind::Country => "SELECT * FROM top_country ORDER BY amount DESC LIMIT $1;"@,
        ListingKind::City => "SELECT * FROM top_city ORDER BY amount DESC LIMIT $1;"@,
        ListingKind::Region => "SELECT * FROM top_region ORDER BY amount DESC LIMIT $1;"@,
        ListingKind::Timezone => "SELECT * FROM top_timezone ORDER BY amount DESC LIMIT $1;"@,
        ListingKind::Org => "SELECT * FROM top_org ORDER BY amount DESC LIMIT $1;"@,
        ListingKind::Postal => "SELECT * FROM top_postal WHERE postal !~ '^\\s*$' ORDER BY amount DESC LIMIT $1;"@,
        ListingKind::Location => "SELECT * FROM top_loc ORDER BY amount DESC LIMIT $1;"@,
        ListingKind::Hourly => "SELECT * FROM top_hourly ORDER BY timestamp DESC LIMIT $1;"@,
    }
}

/// The statement that lists a table's top rows.
pub fn listing_query(kind: ListingKind) -> (q: &'static str)
    ensures
        q@ == spec_listing_query(kind),
{
    match kind {
        ListingKind::ProcessedIndividual => "SELECT * FROM processed_individual ORDER BY timestamp DESC LIMIT $1",
        ListingKind::Username => "SELECT * FROM top_username ORDER BY amount DESC LIMIT $1;",
        ListingKind::Password => "SELECT * FROM top_password WHERE password !~ '^X{2,}$' ORDER BY amount DESC LIMIT $1;",
        ListingKind::Ip => "SELECT * FROM top_ip ORDER BY amount DESC LIMIT $1;",
        ListingKind::UsrPassCombo => "SELECT * FROM top_usr_pass_combo WHERE password !~ '^X{2,}$' ORDER BY amount DESC LIMIT $1;",
        ListingKind::Protocol => "SELECT * FROM top_protocol ORDER BY amount DESC LIMIT $1;",
        ListingKind::Country => "SELECT * FROM top_country ORDER BY amount DESC LIMIT $1;",
        ListingKind::City => "SELECT * FROM top_city ORDER BY amount DESC LIMIT $1;",
        ListingKind::Region => "SELECT * FROM top_region ORDER BY amount DESC LIMIT $1;",
        ListingKind::Timezone => "SELECT * FROM top_timezone ORDER BY amount DESC LIMIT $1;",
        ListingKind::Org => "SELECT * FROM top_org ORDER BY amount DESC LIMIT $1;",
        ListingKind::Postal => "SELECT * FROM top_postal WHERE postal !~ '^\\s*$' ORDER BY amount DESC LIMIT $1;",
        ListingKind::Location => "SELECT * FROM top_loc ORDER BY amount DESC LIMIT $1;",
        ListingKind::Hourly => "SELECT * FROM top_hourly ORDER BY timestamp DESC LIMIT $1;",
    }
}

/// The table each listing reads.
pub open spec fn listing_table(kind: ListingKind) -> Seq<char> {
    match kind {
        ListingKind::ProcessedIndividual => "processed_individual"@,
        ListingKind::Username => "top_username"@,
        ListingKind::Password => "top_password"@,
        ListingKind::Ip => "top_ip"@,
        ListingKind::UsrPassCombo => "top_usr_pass_combo"@,
        ListingKind::Protocol => "top_protocol"@,
        ListingKind::Country => "top_country"@,
        ListingKind::City => "top_city"@,
        ListingKind::Region => "top_region"@,
        ListingKind::Timezone => "top_timezone"@,
        ListingKind::Org => "top_org"@,
        ListingKind::Postal => "top_postal"@,
        ListingKind::Location => "top_loc"@,
        ListingKind::Hourly => "top_hourly"@,
    }
}

/// The rows a listing leaves out: passwords made only of two or more `X`s,
/// and blank postal codes.
pub open spec fn listing_filter(kind: ListingKind) -> Seq<char> {
    match kind {
        ListingKind::Password => " WHERE password !~ '^X{2,}$'"@,
        ListingKind::UsrPassCombo => " WHERE password !~ '^X{2,}$'"@,
        ListingKind::Postal => " WHERE postal !~ '^\\s*$'"@,
        _ => Seq::empty(),
    }
}

/// Whether a listing is of recorded attempts or hourly counts, newest first.
pub open spec fn listed_by_time(kind: ListingKind) -> bool {
    kind == ListingKind::ProcessedIndividual || kind == ListingKind::Hourly
}

/// Every listing reads its own table and returns at most the requested
/// number of rows (the one parameter), the largest first: statistics by
/// count, recorded attempts and hourly counts by time.
pub proof fn lemma_listing_largest_first(kind: ListingKind)
    ensures
        spec_listing_query(kind) == "SELECT * FROM "@ + listing_table(kind) + listing_filter(kind) + " ORDER BY "@ + (if listed_by_time(
            kind,
        ) {
            "timestamp"@
        } else {
            "amount"@
        }) + " DESC LIMIT $1"@ + (if kind == ListingKind::ProcessedIndividual {
            Seq::<char>::empty()
        } else {
            ";"@
        }),
{
    reveal_strlit("SELECT * FROM ");
    reveal_strlit(" ORDER BY ");
    reveal_strlit("timestamp");
    reveal_strlit("amount");
    reveal_strlit(" DESC LIMIT $1");
    reveal_strlit(";");
    match kind {
        ListingKind::ProcessedIndividual => {
            reveal_strlit("processed_individual");
            reveal_strlit("SELECT * FROM processed_individual ORDER BY timestamp DESC LIMIT $1");
        },
        ListingKind::Username => {
            reveal_strlit("top_username");
            reveal_strlit("SELECT * FROM top_username ORDER BY amount DESC LIMIT $1;");
        },
        ListingKind::Password => {
            reveal_strlit("top_password");
            reveal_strlit("SELECT * FROM top_password WHERE password !~ '^X{2,}$' ORDER BY amount DESC LIMIT $1;");
            reveal_strlit(" WHERE password !~ '^X{2,}$'");
        },
        ListingKind::Ip => {
            reveal_strlit("top_ip");
            reveal_strlit("SELECT * FROM top_ip ORDER BY amount DESC LIMIT $1;");
        },
        ListingKind::UsrPassCombo => {
            reveal_strlit("top_usr_pass_combo");
            reveal_strlit("SELECT * FROM top_usr_pass_combo WHERE password !~ '^X{2,}$' ORDER BY amount DESC LIMIT $1;");
            reveal_strlit(" WHERE password !~ '^X{2,}$'");
        },
        ListingKind::Protocol => {
            reveal_strlit("top_protocol");
            reveal_strlit("SELECT * FROM top_protocol ORDER BY amount DESC LIMIT $1;");
        },
        ListingKind::Country => {
            reveal_strlit("top_country");
            reveal_strlit("SELECT * FROM top_country ORDER BY amount DESC LIMIT $1;");
        },
        ListingKind::City => {
            reveal_strlit("top_city");
            reveal_strlit("SELECT * FROM top_city ORDER BY amount DESC LIMIT $1;");
        },
        ListingKind::Region => {
            reveal_strlit("top_region");
            reveal_strlit("SELECT * FROM top_region ORDER BY amount DESC LIMIT $1;");
        },
        ListingKind::Timezone => {
            reveal_strlit("top_timezone");
            reveal_strlit("SELECT * FROM top_timezone ORDER BY amount DESC LIMIT $1;");
        },
        ListingKind::Org => {
            reveal_strlit("top_org");
            reveal_strlit("SELECT * FROM top_org ORDER BY amount DESC LIMIT $1;");
        },
        ListingKind::Postal => {
            reveal_strlit("top_postal");
            reveal_strlit("SELECT * FROM top_postal WHERE postal !~ '^\\s*$' ORDER BY amount DESC LIMIT $1;");
            reveal_strlit(" WHERE postal !~ '^\\s*$'");
        },
        ListingKind::Location => {
            reveal_strlit("top_loc");
            reveal_strlit("SELECT * FROM top_loc ORDER BY amount DESC LIMIT $1;");
        },
        ListingKind::Hourly => {
            reveal_strlit("top_hourly");
            reveal_strlit("SELECT * FROM top_hourly ORDER BY timestamp DESC LIMIT $1;");
        },
    }
    assert(spec_listing_query(kind) =~= "SELECT * FROM "@ + listing_table(kind) + listing_filter(kind) + " ORDER BY "@ + (if listed_by_time(
        kind,
    ) {
        "timestamp"@
    } else {
        "amount"@
    }) + " DESC LIMIT $1"@ + (if kind == ListingKind::ProcessedIndividual {
        Seq::<char>::empty()
    } else {
        ";"@
    }));
}

/// The row limit passed to the database: the requested limit as a signed
/// 64-bit integer (two's complement wrap-around above `i64::MAX`).
pub fn listing_limit(limit: usize) -> (r: i64)
    ensures
        r == limit as i64,
{
    limit as i64
}

/// The message answered when listing a table fails. Some tables name the
/// value `label` of the row that the request was made with.
pub open spec fn spec_listing_failure_text(kind: ListingKind, label: Seq<char>) -> Seq<char> {
    match kind {
        ListingKind::Country => "a country broke the server."@,
        ListingKind::City => "some city in "@ + label + " broke the server"@,
        ListingKind::Region => "how did some region named "@ + label + " break the server"@,
        ListingKind::Timezone => "this timezone? really. "@ + label + " break the server"@,
        ListingKind::Org => "how did some org named "@ + label + " break the server"@,
        ListingKind::Postal => "how did some postal code with this code "@ + label + " break the server"@,
        _ => internal_failure_text(),
    }
}

fn around(prefix: &str, label: &String, suffix: &str) -> (s: String)
    ensures
        s@ == prefix@ + label@ + suffix@,
{
    let mut s = String::from_str(prefix);
    s.append(label.as_str());
    s.append(suffix);
    s
}

/// The error answered when listing a table fails: always a failure on the
/// service's side, with the table's message.
pub fn listing_failure(kind: ListingKind, label: &String) -> (e: BruteResponeError)
    ensures
        e@ == BruteResponeErrorView::InternalError(spec_listing_failure_text(kind, label@)),
{
    match kind {
        ListingKind::Country => BruteResponeErrorOf::InternalError(String::from_str("a country broke the server.")),
        ListingKind::City => BruteResponeErrorOf::InternalError(around("some city in ", label, " broke the server")),
        ListingKind::Region => BruteResponeErrorOf::InternalError(
            around("how did some region named ", label, " break the server"),
        ),
        ListingKind::Timezone => BruteResponeErrorOf::InternalError(
            around("this timezone? really. ", label, " break the server"),
        ),
        ListingKind::Org => BruteResponeErrorOf::InternalError(
            around("how did some org named ", label, " break the server"),
        ),
        ListingKind::Postal => BruteResponeErrorOf::InternalError(
            around("how did some postal code with this code ", label, " break the server"),
        ),
        _ => internal_failure(),
    }
}

} // verus!
