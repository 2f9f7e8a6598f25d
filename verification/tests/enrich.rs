use brute_http::enrich::{ip_source, record_from_lookup, with_postal, IpSourceOf, REUSE_WINDOW_MILLIS};
use brute_http::records::{
    AbuseInfoOf, AsnInfoOf, CompanyInfoOf, DomainsInfoOf, Individual, IndividualOf, IpLookup,
    IpLookupOf, IpRecord, IpRecordOf, PrivacyInfoOf, ProcessedIndividual, ProcessedIndividualOf,
};
use brute_http::stats::{stat_plan, StatUpsertOf};

fn s(x: &str) -> String {
    x.to_string()
}

fn bare_lookup() -> IpLookup {
    IpLookupOf {
        hostname: None,
        city: s("Oslo"),
        region: s("Oslo County"),
        country: s("NO"),
        loc: s("59.9,10.7"),
        org: None,
        postal: None,
        timezone: None,
        asn: None,
        company: None,
        privacy: None,
        abuse: None,
        domains: None,
    }
}

fn full_lookup() -> IpLookup {
    IpLookupOf {
        hostname: Some(s("host.example")),
        city: s("Paris"),
        region: s("Ile-de-France"),
        country: s("FR"),
        loc: s("48.8,2.3"),
        org: Some(s("AS1 Example")),
        postal: Some(s("75001")),
        timezone: Some(s("Europe/Paris")),
        asn: Some(AsnInfoOf {
            asn: s("AS1"),
            name: s("Example"),
            domain: s("example.net"),
            route: s("1.0.0.0/24"),
            asn_type: s("isp"),
        }),
        company: Some(CompanyInfoOf { name: s("Example SA"), domain: s("example.fr"), company_type: s("business") }),
        privacy: Some(PrivacyInfoOf {
            vpn: true,
            proxy: false,
            tor: true,
            relay: false,
            hosting: true,
            service: s("ExampleVPN"),
        }),
        abuse: Some(AbuseInfoOf {
            address: s("1 rue"),
            country: s("FR"),
            email: s("abuse@example.fr"),
            name: s("Abuse"),
            network: s("1.0.0.0/24"),
            phone: s("+33"),
        }),
        domains: Some(DomainsInfoOf { ip: Some(s("1.0.0.1")), total: 42, domains: vec![s("a.fr"), s("b.fr")] }),
    }
}

fn attempt(id: &str, ts: i64) -> Individual {
    IndividualOf {
        id: s(id),
        username: s("root"),
        password: s("toor"),
        ip: s("1.0.0.1"),
        protocol: s("SSH"),
        timestamp: ts,
    }
}

fn processed(id: &str, ts: i64, details: IpRecord) -> ProcessedIndividual {
    ProcessedIndividualOf {
        id: s(id),
        username: s("admin"),
        password: s("admin"),
        ip: s("1.0.0.1"),
        protocol: s("SSH"),
        details,
        timestamp: ts,
    }
}

#[test]
fn lookup_without_groups_gets_defaults() {
    let r = record_from_lookup(bare_lookup());
    assert_eq!(r.hostname, None);
    assert_eq!(r.city, Some(s("Oslo")));
    assert_eq!(r.region, Some(s("Oslo County")));
    assert_eq!(r.country, Some(s("NO")));
    assert_eq!(r.loc, Some(s("59.9,10.7")));
    assert_eq!(r.org, None);
    assert_eq!(r.postal, Some(s("")));
    assert_eq!(r.asn, Some(s("")));
    assert_eq!(r.asn_type, Some(s("")));
    assert_eq!(r.company_name, Some(s("")));
    assert_eq!(r.vpn, Some(false));
    assert_eq!(r.hosting, Some(false));
    assert_eq!(r.service, Some(s("")));
    assert_eq!(r.abuse_email, Some(s("")));
    assert_eq!(r.domain_ip, Some(s("")));
    assert_eq!(r.domain_total, Some(0));
    assert_eq!(r.domains, Some(vec![]));
    assert_eq!(r.timezone, None);
}

#[test]
fn lookup_values_are_kept() {
    let r = record_from_lookup(full_lookup());
    assert_eq!(r.hostname, Some(s("host.example")));
    assert_eq!(r.org, Some(s("AS1 Example")));
    assert_eq!(r.postal, Some(s("75001")));
    assert_eq!(r.asn, Some(s("AS1")));
    assert_eq!(r.asn_name, Some(s("Example")));
    assert_eq!(r.asn_domain, Some(s("example.net")));
    assert_eq!(r.asn_route, Some(s("1.0.0.0/24")));
    assert_eq!(r.asn_type, Some(s("isp")));
    assert_eq!(r.company_name, Some(s("Example SA")));
    assert_eq!(r.company_domain, Some(s("example.fr")));
    assert_eq!(r.company_type, Some(s("business")));
    assert_eq!((r.vpn, r.proxy, r.tor, r.relay, r.hosting), (Some(true), Some(false), Some(true), Some(false), Some(true)));
    assert_eq!(r.service, Some(s("ExampleVPN")));
    assert_eq!(r.abuse_address, Some(s("1 rue")));
    assert_eq!(r.abuse_phone, Some(s("+33")));
    assert_eq!(r.domain_ip, Some(s("1.0.0.1")));
    assert_eq!(r.domain_total, Some(42));
    assert_eq!(r.domains, Some(vec![s("a.fr"), s("b.fr")]));
    assert_eq!(r.timezone, Some(s("Europe/Paris")));
}

#[test]
fn huge_domain_total_wraps_like_a_cast() {
    let mut l = bare_lookup();
    l.domains = Some(DomainsInfoOf { ip: None, total: u64::MAX, domains: vec![] });
    let r = record_from_lookup(l);
    assert_eq!(r.domain_total, Some(-1));
    assert_eq!(r.domain_ip, None);
}

#[test]
fn postal_is_filled_only_when_absent() {
    let mut r = record_from_lookup(bare_lookup());
    r.postal = None;
    assert_eq!(with_postal(r).postal, Some(s("")));
    let r = record_from_lookup(full_lookup());
    assert_eq!(with_postal(r).postal, Some(s("75001")));
}

#[test]
fn recent_row_is_reused() {
    assert_eq!(REUSE_WINDOW_MILLIS, 300_000);
    let mut details = record_from_lookup(full_lookup());
    details.postal = None;
    let cached = processed("old", 1_000_000, details);
    let a = attempt("new", 1_000_000 + 299_999);
    match ip_source(&a, Some(cached), 1_000_000 + 300_000) {
        IpSourceOf::Reuse { row, reply } => {
            assert_eq!(row.id, s("new"));
            assert_eq!(row.username, s("root"));
            assert_eq!(row.timestamp, 1_299_999);
            assert_eq!(row.details.city, Some(s("Paris")));
            assert_eq!(row.details.postal, Some(s("")));
            assert_eq!(reply.id, s("old"));
            assert_eq!(reply.username, s("admin"));
            assert_eq!(reply.timestamp, 1_000_000);
            assert_eq!(reply.details.postal, Some(s("")));
            assert_eq!(reply.details.domain_total, Some(42));
        }
        IpSourceOf::Lookup => panic!("expected reuse"),
    }
}

#[test]
fn stale_row_is_looked_up_again() {
    let cached = processed("old", 1_000_000, record_from_lookup(full_lookup()));
    let a = attempt("new", 0);
    assert!(matches!(ip_source(&a, Some(cached), 1_000_000 + 300_001), IpSourceOf::Lookup));
    assert!(matches!(ip_source(&a, None, 5), IpSourceOf::Lookup));
}

#[test]
fn plan_lists_each_statistic_once() {
    let a = attempt("id", 3);
    let p = processed("id", 3, record_from_lookup(full_lookup()));
    let plan = stat_plan(&a, &p, s("combo"));
    assert_eq!(plan.len(), 12);
    assert!(matches!(&plan[0], StatUpsertOf::Username(u) if u == "root"));
    assert!(matches!(&plan[1], StatUpsertOf::Password(u) if u == "toor"));
    assert!(matches!(&plan[2], StatUpsertOf::Ip(u) if u == "1.0.0.1"));
    assert!(matches!(&plan[3], StatUpsertOf::Protocol(u) if u == "SSH"));
    assert!(matches!(&plan[4], StatUpsertOf::City { city: Some(c), country: Some(k) } if c == "Paris" && k == "FR"));
    assert!(matches!(&plan[5], StatUpsertOf::Region { region: Some(c), country: Some(k) } if c == "Ile-de-France" && k == "FR"));
    assert!(matches!(&plan[6], StatUpsertOf::Country(Some(c)) if c == "FR"));
    assert!(matches!(&plan[7], StatUpsertOf::Timezone(Some(c)) if c == "Europe/Paris"));
    assert!(matches!(&plan[8], StatUpsertOf::Org(Some(c)) if c == "AS1 Example"));
    assert!(matches!(&plan[9], StatUpsertOf::Postal(c) if c == "75001"));
    assert!(matches!(&plan[10], StatUpsertOf::Location(Some(c)) if c == "48.8,2.3"));
    assert!(matches!(&plan[11], StatUpsertOf::UsrPassCombo { id, username, password } if id == "combo" && username == "root" && password == "toor"));
}

#[test]
fn plan_skips_unknown_postal_code() {
    let a = attempt("id", 3);
    let mut details = record_from_lookup(bare_lookup());
    details.postal = None;
    let p = processed("id", 3, details);
    let plan = stat_plan(&a, &p, s("combo"));
    assert_eq!(plan.len(), 11);
    assert!(!plan.iter().any(|u| matches!(u, StatUpsertOf::Postal(_))));
    assert!(matches!(&plan[9], StatUpsertOf::Location(Some(c)) if c == "59.9,10.7"));
    assert!(matches!(&plan[8], StatUpsertOf::Org(None)));
}

#[test]
fn increment_statements() {
    let u: brute_http::stats::StatUpsert = StatUpsertOf::Username(s("root"));
    assert_eq!(
        u.statement(),
        "INSERT INTO top_username (username, amount) VALUES ($1, 1) ON CONFLICT (username) DO UPDATE SET amount = top_username.amount + EXCLUDED.amount RETURNING *;"
    );
    let c: brute_http::stats::StatUpsert = StatUpsertOf::City { city: None, country: Some(s("FR")) };
    assert_eq!(
        c.statement(),
        "INSERT INTO top_city (city, country, amount) VALUES ($1, $2, 1) ON CONFLICT (city, country) DO UPDATE SET amount = top_city.amount + EXCLUDED.amount RETURNING *;"
    );
    let p: brute_http::stats::StatUpsert = StatUpsertOf::UsrPassCombo { id: s("i"), username: s("u"), password: s("p") };
    assert_eq!(
        p.statement(),
        "INSERT INTO top_usr_pass_combo (id, username, password, amount) VALUES ($1, $2, $3, 1) ON CONFLICT (username, password) DO UPDATE SET amount = top_usr_pass_combo.amount + EXCLUDED.amount RETURNING *;"
    );
    let l: brute_http::stats::StatUpsert = StatUpsertOf::Location(None);
    assert!(l.statement().starts_with("INSERT INTO top_loc (loc, amount)"));
}
