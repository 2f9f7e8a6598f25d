use brute_http::admission::{
    admit_attack, admit_fake_login, admit_protocol_increment, AdmissionOf, IndividualPayload,
    LoginProtocol, TopProtocol,
};
use brute_http::error::BruteResponeErrorOf;
use brute_http::listing::{listing_failure, listing_limit, listing_query, ListingKind};
use brute_http::stats::StatUpsertOf;

fn s(x: &str) -> String {
    x.to_string()
}

fn payload(ip: &str) -> IndividualPayload {
    IndividualPayload { username: s("root"), password: s("pw"), ip_address: s(ip), protocol: s("SSH") }
}

#[test]
fn attack_with_wrong_token_is_unauthorized() {
    assert!(matches!(admit_attack(&s("nope"), &s("secret"), payload("127.0.0.1")), AdmissionOf::Unauthorized));
}

#[test]
fn attack_from_local_address_is_refused() {
    match admit_attack(&s("secret"), &s("secret"), payload("127.0.0.1")) {
        AdmissionOf::Rejected(BruteResponeErrorOf::ValidationError(m)) => assert_eq!(m, "empty ip or local ip"),
        _ => panic!("expected a validation error"),
    }
}

#[test]
fn attack_is_accepted_as_received() {
    match admit_attack(&s("secret"), &s("secret"), payload("8.8.8.8")) {
        AdmissionOf::Accepted(a) => {
            assert_eq!((a.username.as_str(), a.password.as_str(), a.ip.as_str(), a.protocol.as_str()), ("root", "pw", "8.8.8.8", "SSH"));
            assert_eq!(a.id, "");
            assert_eq!(a.timestamp, 0);
        }
        _ => panic!("expected acceptance"),
    }
}

fn bad_ip() -> Result<(), brute_http::error::BruteResponeError> {
    Err(BruteResponeErrorOf::ValidationError(s("bad ip")))
}

#[test]
fn login_without_address_is_refused_first() {
    for p in [LoginProtocol::Http, LoginProtocol::Https] {
        match admit_fake_login(p, None, s("u"), s(""), bad_ip()) {
            AdmissionOf::Rejected(BruteResponeErrorOf::ValidationError(m)) => {
                assert_eq!(m, "input validation error: ip_address is empty.")
            }
            _ => panic!("expected the missing address"),
        }
    }
}

#[test]
fn https_login_checks_the_address_before_the_password() {
    match admit_fake_login(LoginProtocol::Https, Some(s("1.2.3.4")), s("u"), s(""), bad_ip()) {
        AdmissionOf::Rejected(BruteResponeErrorOf::ValidationError(m)) => assert_eq!(m, "bad ip"),
        _ => panic!("expected the address error"),
    }
}

#[test]
fn http_login_checks_the_password_before_the_address() {
    match admit_fake_login(LoginProtocol::Http, Some(s("1.2.3.4")), s("u"), s(""), bad_ip()) {
        AdmissionOf::Rejected(BruteResponeErrorOf::BadRequest(m)) => {
            assert_eq!(m, "input validation error: password is empty.")
        }
        _ => panic!("expected the password error"),
    }
    match admit_fake_login(LoginProtocol::Http, Some(s("1.2.3.4")), s("u"), s("pw"), bad_ip()) {
        AdmissionOf::Rejected(BruteResponeErrorOf::ValidationError(m)) => assert_eq!(m, "bad ip"),
        _ => panic!("expected the address error"),
    }
}

#[test]
fn accepted_logins_record_their_protocol() {
    for (p, name) in [(LoginProtocol::Http, "HTTP"), (LoginProtocol::Https, "HTTPS")] {
        match admit_fake_login(p, Some(s("1.2.3.4")), s("u"), s("pw"), Ok(())) {
            AdmissionOf::Accepted(a) => {
                assert_eq!(a.protocol, name);
                assert_eq!(a.ip, "1.2.3.4");
                assert_eq!(a.username, "u");
                assert_eq!(a.password, "pw");
            }
            _ => panic!("expected acceptance"),
        }
    }
}

#[test]
fn protocol_increment_needs_the_token_and_counts_one() {
    assert!(admit_protocol_increment(&s("x"), &s("secret"), s("FTP"), 7).is_none());
    let m = admit_protocol_increment(&s("secret"), &s("secret"), s("FTP"), 7).unwrap();
    assert_eq!(m.amount, 7);
    assert!(matches!(m.increment(), StatUpsertOf::Protocol(p) if p == "FTP"));
    assert!(matches!(TopProtocol::new(s("SSH"), -3).increment(), StatUpsertOf::Protocol(p) if p == "SSH"));
}

#[test]
fn listing_messages() {
    let label = s("Berlin");
    let msg = |k| match listing_failure(k, &label) {
        BruteResponeErrorOf::InternalError(m) => m,
        _ => panic!("listing failures are internal errors"),
    };
    assert_eq!(msg(ListingKind::City), "some city in Berlin broke the server");
    assert_eq!(msg(ListingKind::Region), "how did some region named Berlin break the server");
    assert_eq!(msg(ListingKind::Timezone), "this timezone? really. Berlin break the server");
    assert_eq!(msg(ListingKind::Org), "how did some org named Berlin break the server");
    assert_eq!(msg(ListingKind::Postal), "how did some postal code with this code Berlin break the server");
    assert_eq!(msg(ListingKind::Country), "a country broke the server.");
    assert_eq!(msg(ListingKind::Hourly), "something definitely broke on our side");
    assert_eq!(msg(ListingKind::Password), "something definitely broke on our side");
}

#[test]
fn listing_limit_is_cast() {
    assert_eq!(listing_limit(25), 25);
    assert_eq!(listing_limit(usize::MAX), -1);
}

#[test]
fn error_message_accessor() {
    let e: brute_http::error::BruteResponeError = BruteResponeErrorOf::BadRequest(s("m"));
    assert_eq!(e.message(), "m");
}

#[test]
fn listing_queries() {
    assert_eq!(listing_query(ListingKind::Username), "SELECT * FROM top_username ORDER BY amount DESC LIMIT $1;");
    assert_eq!(
        listing_query(ListingKind::Password),
        "SELECT * FROM top_password WHERE password !~ '^X{2,}$' ORDER BY amount DESC LIMIT $1;"
    );
    assert_eq!(
        listing_query(ListingKind::Postal),
        "SELECT * FROM top_postal WHERE postal !~ '^\\s*$' ORDER BY amount DESC LIMIT $1;"
    );
    assert_eq!(
        listing_query(ListingKind::ProcessedIndividual),
        "SELECT * FROM processed_individual ORDER BY timestamp DESC LIMIT $1"
    );
    assert_eq!(listing_query(ListingKind::Hourly), "SELECT * FROM top_hourly ORDER BY timestamp DESC LIMIT $1;");
}

#[test]
fn address_check_is_needed_only_where_it_decides() {
    let ip = Some(s("1.2.3.4"));
    assert!(brute_http::admission::address_check_needed(LoginProtocol::Https, &ip, &s("")));
    assert!(brute_http::admission::address_check_needed(LoginProtocol::Https, &ip, &s("pw")));
    assert!(!brute_http::admission::address_check_needed(LoginProtocol::Http, &ip, &s("")));
    assert!(brute_http::admission::address_check_needed(LoginProtocol::Http, &ip, &s("pw")));
    assert!(!brute_http::admission::address_check_needed(LoginProtocol::Https, &None, &s("pw")));
}
