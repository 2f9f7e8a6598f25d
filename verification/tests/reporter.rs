use brute_http::enrich::record_from_lookup;
use brute_http::records::{copy_text, copy_texts, IpLookupOf};
use brute_http::reporter::{Brute, BruteReporter, Reporter, RequestWithLimit};

#[derive(Clone, Debug, PartialEq)]
struct Store(u32);

impl Brute for Store {}

fn is_reporter<T: Reporter>(_: &T) -> bool {
    true
}

#[test]
fn reporter_holds_its_system() {
    let r = BruteReporter::new(Store(7));
    assert_eq!(r.brute(), &Store(7));
    assert!(is_reporter(&r));
    let copy = r.clone();
    assert_eq!(copy.brute(), &Store(7));
}

#[test]
fn request_with_limit_carries_its_fields() {
    let req = RequestWithLimit { table: Store(1), limit: 10, max_limit: 100 };
    assert_eq!((req.table, req.limit, req.max_limit), (Store(1), 10, 100));
}

#[test]
fn copies_are_equal() {
    assert_eq!(copy_text(&Some("x".to_string())), Some("x".to_string()));
    assert_eq!(copy_text(&None), None);
    let v = vec!["a".to_string(), "b".to_string()];
    assert_eq!(copy_texts(&v), v);
    let l = IpLookupOf {
        hostname: Some("h".to_string()),
        city: "c".to_string(),
        region: "r".to_string(),
        country: "k".to_string(),
        loc: "l".to_string(),
        org: None,
        postal: None,
        timezone: None,
        asn: None,
        company: None,
        privacy: None,
        abuse: None,
        domains: None,
    };
    let rec = record_from_lookup(l);
    let copy = rec.copy();
    assert_eq!(copy.hostname, rec.hostname);
    assert_eq!(copy.city, rec.city);
    assert_eq!(copy.postal, rec.postal);
    assert_eq!(copy.domains, rec.domains);
    assert_eq!(copy.domain_total, rec.domain_total);
    assert_eq!(copy.vpn, rec.vpn);
}
