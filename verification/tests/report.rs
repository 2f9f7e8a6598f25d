use brute_http::buckets::{BucketPeriod, BucketWrite, TimeBucket};
use brute_http::enrich::record_from_lookup;
use brute_http::error::BruteResponeErrorOf;
use brute_http::records::{IndividualOf, IpLookup, IpLookupOf, ProcessedIndividual, ProcessedIndividualOf};
use brute_http::report::{ReportActionOf, ReportEventOf, ReportRun, ReportRunOf};
use brute_http::stats::StatUpsertOf;

fn s(x: &str) -> String {
    x.to_string()
}

fn lookup() -> IpLookup {
    IpLookupOf {
        hostname: None,
        city: s("Lima"),
        region: s("Lima"),
        country: s("PE"),
        loc: s("-12,-77"),
        org: Some(s("AS2")),
        postal: None,
        timezone: Some(s("America/Lima")),
        asn: None,
        company: None,
        privacy: None,
        abuse: None,
        domains: None,
    }
}

fn is_simple_uuid(id: &str) -> bool {
    id.len() == 32
        && id.chars().all(|c| c.is_ascii_digit() || ('a'..='f').contains(&c))
        && id.as_bytes()[12] == b'4'
        && matches!(id.as_bytes()[16], b'8' | b'9' | b'a' | b'b')
}

fn payload() -> brute_http::records::Individual {
    IndividualOf::new_short(s("root"), s("hunter2"), s("9.9.9.9"), s("SSH"))
}

fn stored_attempt() -> brute_http::records::Individual {
    IndividualOf {
        id: s("0123456789abcdef0123456789abcdef"),
        username: s("root"),
        password: s("hunter2"),
        ip: s("9.9.9.9"),
        protocol: s("SSH"),
        timestamp: 1_000,
    }
}

fn stored_processed(row_of: &brute_http::records::Individual) -> ProcessedIndividual {
    ProcessedIndividualOf {
        id: row_of.id.clone(),
        username: row_of.username.clone(),
        password: row_of.password.clone(),
        ip: row_of.ip.clone(),
        protocol: row_of.protocol.clone(),
        details: record_from_lookup(lookup()),
        timestamp: row_of.timestamp,
    }
}

#[test]
fn new_short_has_no_identity_yet() {
    let p = payload();
    assert_eq!(p.id, "");
    assert_eq!(p.timestamp, 0);
    assert_eq!(p.username, "root");
}

#[test]
fn full_report_with_lookup() {
    let run: ReportRun = ReportRunOf::new(payload());
    let (run, act) = run.step(ReportEventOf::Started { now: 1_000 });
    match act {
        ReportActionOf::StoreAttempt(a) => {
            assert!(is_simple_uuid(&a.id), "id {}", a.id);
            assert_eq!(a.username, "root");
            assert_eq!(a.password, "hunter2");
            assert_eq!(a.ip, "9.9.9.9");
            assert_eq!(a.protocol, "SSH");
            assert_eq!(a.timestamp, 1_000);
        }
        _ => panic!("expected StoreAttempt"),
    }
    let (run, act) = run.step(ReportEventOf::AttemptStored(stored_attempt()));
    assert!(matches!(act, ReportActionOf::FetchCached { ref ip } if ip == "9.9.9.9"));
    let (run, act) = run.step(ReportEventOf::CacheChecked { cached: None, now: 1_001 });
    assert!(matches!(act, ReportActionOf::LookupIp { ref ip } if ip == "9.9.9.9"));
    let (run, act) = run.step(ReportEventOf::IpLooked(lookup()));
    match act {
        ReportActionOf::StoreDetails(p) => {
            assert_eq!(p.id, "0123456789abcdef0123456789abcdef");
            assert_eq!(p.timestamp, 1_000);
            assert_eq!(p.details.city, Some(s("Lima")));
            assert_eq!(p.details.postal, Some(s("")));
        }
        _ => panic!("expected StoreDetails"),
    }
    let (mut run, act) = run.step(ReportEventOf::DetailsStored(stored_processed(&stored_attempt())));
    let mut counted = vec![act];
    loop {
        let (next, act) = run.step(ReportEventOf::CounterStored);
        run = next;
        if let ReportActionOf::FetchLatestBucket(p) = act {
            assert_eq!(p, BucketPeriod::Hourly);
            break;
        }
        counted.push(act);
        assert!(counted.len() <= 12);
    }
    assert_eq!(counted.len(), 12);
    assert!(matches!(&counted[0], ReportActionOf::Count(StatUpsertOf::Username(u)) if u == "root"));
    assert!(matches!(&counted[9], ReportActionOf::Count(StatUpsertOf::Postal(c)) if c.is_empty()));
    match &counted[11] {
        ReportActionOf::Count(StatUpsertOf::UsrPassCombo { id, username, password }) => {
            assert!(is_simple_uuid(id));
            assert_eq!(username, "root");
            assert_eq!(password, "hunter2");
        }
        _ => panic!("expected the pair last"),
    }
    let periods = [BucketPeriod::Hourly, BucketPeriod::Daily, BucketPeriod::Weekly, BucketPeriod::Yearly];
    for (i, period) in periods.iter().enumerate() {
        let latest = if i == 0 { None } else { Some(TimeBucket { timestamp: 500, amount: 9 }) };
        let (next, act) = run.step(ReportEventOf::LatestBucket { latest, now: 2_000 });
        run = next;
        match act {
            ReportActionOf::WriteBucket(p, w) => {
                assert_eq!(p, *period);
                if i == 0 {
                    assert_eq!(w, BucketWrite::Insert(TimeBucket { timestamp: 2_000, amount: 1 }));
                } else {
                    assert_eq!(w, BucketWrite::Update(TimeBucket { timestamp: 500, amount: 10 }));
                }
            }
            _ => panic!("expected WriteBucket"),
        }
        let (next, act) = run.step(ReportEventOf::BucketStored);
        run = next;
        if i < 3 {
            assert!(matches!(act, ReportActionOf::FetchLatestBucket(p) if p == periods[i + 1]));
        } else {
            assert!(matches!(act, ReportActionOf::Finish(ref p) if p.id == "0123456789abcdef0123456789abcdef"));
        }
    }
    assert!(run.is_finished());
    let (run, act) = run.step(ReportEventOf::CounterStored);
    assert!(matches!(act, ReportActionOf::Idle));
    let reply = run.reply().expect("a completed report answers its result");
    assert_eq!(reply.details.city, Some(s("Lima")));
}

#[test]
fn recent_details_are_reused_and_answered() {
    let run: ReportRun = ReportRunOf::new(payload());
    let (run, _) = run.step(ReportEventOf::Started { now: 10 });
    let (run, _) = run.step(ReportEventOf::AttemptStored(stored_attempt()));
    let mut old = stored_processed(&stored_attempt());
    old.id = s("older");
    old.timestamp = 700_000;
    let (run, act) = run.step(ReportEventOf::CacheChecked { cached: Some(old), now: 1_000_000 });
    match act {
        ReportActionOf::StoreDetails(p) => {
            assert_eq!(p.id, "0123456789abcdef0123456789abcdef");
            assert_eq!(p.timestamp, 1_000);
        }
        _ => panic!("expected StoreDetails"),
    }
    let (run, act) = run.step(ReportEventOf::DetailsStored(stored_processed(&stored_attempt())));
    assert!(matches!(act, ReportActionOf::Count(StatUpsertOf::Username(_))));
    match run {
        ReportRunOf::Counting { ref processed, .. } => {
            assert_eq!(processed.id, "older");
            assert_eq!(processed.timestamp, 700_000);
        }
        _ => panic!("expected counting"),
    }
}

#[test]
fn a_failure_aborts_and_answers_an_internal_error() {
    let run: ReportRun = ReportRunOf::new(payload());
    let (run, _) = run.step(ReportEventOf::Started { now: 10 });
    let (run, act) = run.step(ReportEventOf::Failed);
    assert!(matches!(act, ReportActionOf::Abort));
    assert!(run.is_finished());
    let (run, act) = run.step(ReportEventOf::AttemptStored(stored_attempt()));
    assert!(matches!(act, ReportActionOf::Idle));
    match run.reply() {
        Err(BruteResponeErrorOf::InternalError(m)) => assert_eq!(m, "something definitely broke on our side"),
        _ => panic!("expected an internal error"),
    }
}

#[test]
fn an_unexpected_event_aborts() {
    let run: ReportRun = ReportRunOf::new(payload());
    let (run, act) = run.step(ReportEventOf::CounterStored);
    assert!(matches!(act, ReportActionOf::Abort));
    assert!(matches!(run, ReportRunOf::Aborted));
}

#[test]
fn step_with_a_given_identifier() {
    let run: ReportRun = ReportRunOf::new(payload());
    let id = s("0123456789ab4def8123456789abcdef");
    let (_, act) = run.step_with_id(ReportEventOf::Started { now: 77 }, id.clone());
    match act {
        ReportActionOf::StoreAttempt(a) => {
            assert_eq!(a.id, id);
            assert_eq!(a.timestamp, 77);
        }
        _ => panic!("expected StoreAttempt"),
    }
}
