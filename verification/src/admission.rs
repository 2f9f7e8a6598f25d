use vstd::prelude::*;
use vstd::string::StringExecFns;
use crate::error::{BruteResponeError, BruteResponeErrorOf, BruteResponeErrorView};
use crate::records::{IndividualOf, IndividualView};
use crate::stats::{StatUpsert, StatUpsertOf, StatUpsertView};

verus! {

/// The outcome of checking a request that reports an attempt.
pub enum AdmissionOf<S> {
    /// The caller's bearer token is not the service's: the request is
    /// answered as unauthorized and nothing is recorded.
    Unauthorized,
    /// The request is refused with this error.
    Rejected(BruteResponeErrorOf<S>),
    /// The attempt is to be recorded.
    Accepted(IndividualOf<S>),
}

pub type Admission = AdmissionOf<String>;

pub type AdmissionView = AdmissionOf<Seq<char>>;

impl View for AdmissionOf<String> {
    type V = AdmissionView;

    open spec fn view(&self) -> AdmissionView {
        match self {
            AdmissionOf::Unauthorized => AdmissionOf::Unauthorized,
            AdmissionOf::Rejected(e) => AdmissionOf::Rejected(e@),
            AdmissionOf::Accepted(a) => AdmissionOf::Accepted(a@),
        }
    }
}

/// An attempt as received, before it is stored (no identifier, no time yet).
pub open spec fn arriving(username: Seq<char>, password: Seq<char>, ip: Seq<char>, protocol: Seq<char>) -> IndividualView {
    IndividualOf { id: Seq::empty(), username, password, ip, protocol, timestamp: 0 }
}

/// The address that the attack endpoint refuses: the local host.
pub open spec fn local_address() -> Seq<char> {
    "127.0.0.1"@
}

/// The message refusing the local address.
pub open spec fn local_address_text() -> Seq<char> {
    "empty ip or local ip"@
}

/// The message refusing a login without a client address.
pub open spec fn missing_ip_text() -> Seq<char> {
    "input validation error: ip_address is empty."@
}

/// The message refusing a login with an empty password.
pub open spec fn empty_password_text() -> Seq<char> {
    "input validation error: password is empty."@
}

/// An attempt reported to the attack endpoint.
pub struct IndividualPayload {
    pub username: String,
    pub password: String,
    pub ip_address: String,
    pub protocol: String,
}

/// The attack endpoint's decision: a wrong bearer token is unauthorized; then
/// the local address is refused; any other attempt is accepted as received
/// (its own validation follows).
pub open spec fn spec_admit_attack(
    token: Seq<char>,
    expected: Seq<char>,
    username: Seq<char>,
    password: Seq<char>,
    ip: Seq<char>,
    protocol: Seq<char>,
) -> AdmissionView {
    if token != expected {
        AdmissionOf::Unauthorized
    } else if ip == local_address() {
        AdmissionOf::Rejected(BruteResponeErrorOf::ValidationError(local_address_text()))
    } else {
        AdmissionOf::Accepted(arriving(username, password, ip, protocol))
    }
}

/// Checks a request to the attack endpoint.
pub fn admit_attack(token: &String, expected: &String, payload: IndividualPayload) -> (r: Admission)
    ensures
        r@ == spec_admit_attack(
            token@,
            expected@,
            payload.username@,
            payload.password@,
            payload.ip_address@,
            payload.protocol@,
        ),
{
    if !(*token == *expected) {
        return AdmissionOf::Unauthorized;
    }
    let local = String::from_str("127.0.0.1");
    if payload.ip_address == local {
        return AdmissionOf::Rejected(
            BruteResponeErrorOf::ValidationError(String::from_str("empty ip or local ip")),
        );
    }
    AdmissionOf::Accepted(
        IndividualOf::new_short(payload.username, payload.password, payload.ip_address, payload.protocol),
    )
}

/// The protocol a fake login endpoint poses as.
#[derive(Clone, Copy, Debug, PartialEq, Eq)]
pub enum LoginProtocol {
    Http,
    Https,
}

/// The protocol name recorded for a fake login.
pub open spec fn protocol_name(p: LoginProtocol) -> Seq<char> {
    match p {
        LoginProtocol::Http => "HTTP"@,
        LoginProtocol::Https => "HTTPS"@,
    }
}

/// The view of an address check's outcome.
pub open spec fn check_view(c: Result<(), BruteResponeError>) -> Result<(), BruteResponeErrorView> {
    match c {
        Ok(()) => Ok(()),
        Err(e) => Err(e@),
    }
}

/// A fake login endpoint's decision. A request without a client address is
/// refused first. Over HTTPS the address check (`ip_check`, the outcome of
/// validating the address) comes before the password; over HTTP the empty
/// password is refused before the address check. An accepted attempt is
/// recorded with the endpoint's protocol.
pub open spec fn spec_admit_fake_login(
    protocol: LoginProtocol,
    ip: Option<Seq<char>>,
    username: Seq<char>,
    password: Seq<char>,
    ip_check: Result<(), BruteResponeErrorView>,
) -> AdmissionView {
    match ip {
        None => AdmissionOf::Rejected(BruteResponeErrorOf::ValidationError(missing_ip_text())),
        Some(addr) => {
            let empty_password = AdmissionOf::Rejected(BruteResponeErrorOf::BadRequest(empty_password_text()));
            let accepted = AdmissionOf::Accepted(arriving(username, password, addr, protocol_name(protocol)));
            match protocol {
                LoginProtocol::Https => match ip_check {
                    Err(e) => AdmissionOf::Rejected(e),
                    Ok(()) => if password.len() == 0 {
                        empty_password
                    } else {
                        accepted
                    },
                },
                LoginProtocol::Http => if password.len() == 0 {
                    empty_password
                } else {
                    match ip_check {
                        Err(e) => AdmissionOf::Rejected(e),
                        Ok(()) => accepted,
                    }
                },
            }
        },
    }
}

fn empty_password_error() -> (e: BruteResponeError)
    ensures
        e@ == BruteResponeErrorOf::BadRequest(empty_password_text()),
{
    BruteResponeErrorOf::BadRequest(String::from_str("input validation error: password is empty."))
}

/// Checks a request to a fake login endpoint; `ip_check` is the outcome of
/// validating the client address (it matters only when there is one).
pub fn admit_fake_login(
    protocol: LoginProtocol,
    ip: Option<String>,
    username: String,
    password: String,
    ip_check: Result<(), BruteResponeError>,
) -> (r: Admission)
    ensures
        r@ == spec_admit_fake_login(
            protocol,
            crate::records::text_view(ip),
            username@,
            password@,
            check_view(ip_check),
        ),
{
    let addr = match ip {
        None => {
            return AdmissionOf::Rejected(
                BruteResponeErrorOf::ValidationError(
                    String::from_str("input validation error: ip_address is empty."),
                ),
            );
        },
        Some(a) => a,
    };
    let empty_password = password.as_str().is_empty();
    match protocol {
        LoginProtocol::Https => {
            if let Err(e) = ip_check {
                return AdmissionOf::Rejected(e);
            }
            if empty_password {
                return AdmissionOf::Rejected(empty_password_error());
            }
            AdmissionOf::Accepted(IndividualOf::new_short(username, password, addr, String::from_str("HTTPS")))
        },
        LoginProtocol::Http => {
            if empty_password {
                return AdmissionOf::Rejected(empty_password_error());
            }
            if let Err(e) = ip_check {
                return AdmissionOf::Rejected(e);
            }
            AdmissionOf::Accepted(IndividualOf::new_short(username, password, addr, String::from_str("HTTP")))
        },
    }
}

/// Whether a fake login endpoint looks at the address check: only when there
/// is a client address, and over HTTP only when the password is not empty.
pub open spec fn spec_address_check_needed(protocol: LoginProtocol, ip: Option<Seq<char>>, password: Seq<char>) -> bool {
    ip is Some && !(protocol == LoginProtocol::Http && password.len() == 0)
}

/// Whether the address has to be validated before deciding a fake login.
pub fn address_check_needed(protocol: LoginProtocol, ip: &Option<String>, password: &String) -> (b: bool)
    ensures
        b == spec_address_check_needed(protocol, crate::records::text_view(*ip), password@),
{
    match ip {
        None => false,
        Some(_) => match protocol {
            LoginProtocol::Https => true,
            LoginProtocol::Http => !password.as_str().is_empty(),
        },
    }
}

/// Where the address check is not needed, its outcome does not change the decision.
pub proof fn lemma_unneeded_check_is_ignored(
    protocol: LoginProtocol,
    ip: Option<Seq<char>>,
    username: Seq<char>,
    password: Seq<char>,
    c1: Result<(), BruteResponeErrorView>,
    c2: Result<(), BruteResponeErrorView>,
)
    requires
        !spec_address_check_needed(protocol, ip, password),
    ensures
        spec_admit_fake_login(protocol, ip, username, password, c1) == spec_admit_fake_login(
            protocol,
            ip,
            username,
            password,
            c2,
        ),
{
}

/// A request to count attempts over a protocol.
pub struct TopProtocol {
    pub protocol: String,
    pub amount: i32,
}

impl TopProtocol {
    pub fn new(protocol: String, amount: i32) -> (r: TopProtocol)
        ensures
            r.protocol == protocol,
            r.amount == amount,
    {
        TopProtocol { protocol, amount }
    }

    /// The increment the request makes: the protocol's count goes up by one,
    /// whatever amount the request carries.
    pub fn increment(self) -> (u: StatUpsert)
        ensures
            u@ == StatUpsertView::Protocol(self.protocol@),
    {
        StatUpsertOf::Protocol(self.protocol)
    }
}

/// The protocol endpoint's decision: with the service's bearer token the
/// request is passed on, else it is unauthorized (`None`).
pub fn admit_protocol_increment(token: &String, expected: &String, protocol: String, amount: i32) -> (r: Option<
    TopProtocol,
>)
    ensures
        token@ == expected@ <==> r is Some,
        r matches Some(m) ==> m.protocol == protocol && m.amount == amount,
{
    if *token == *expected {
        Some(TopProtocol::new(protocol, amount))
    } else {
        None
    }
}

/// A request with a wrong bearer token is answered as unauthorized, whatever
/// else it holds; with the right token only the local address is refused.
pub proof fn lemma_attack_token_first(
    token: Seq<char>,
    expected: Seq<char>,
    username: Seq<char>,
    password: Seq<char>,
    ip: Seq<char>,
    protocol: Seq<char>,
)
    ensures
        token != expected ==> spec_admit_attack(token, expected, username, password, ip, protocol) is Unauthorized,
        token == expected ==> (spec_admit_attack(token, expected, username, password, ip, protocol) is Rejected
            <==> ip == local_address()),
        spec_admit_attack(token, expected, username, password, ip, protocol) matches AdmissionOf::Accepted(a)
            ==> a == arriving(username, password, ip, protocol),
{
}

/// The two fake login endpoints differ only in the order of their checks and
/// in the protocol they record: when both the address check and the password
/// fail, HTTPS reports the address and HTTP reports the empty password; when
/// at most one fails, both answer the same, up to the recorded protocol.
pub proof fn lemma_login_check_order(
    ip: Seq<char>,
    username: Seq<char>,
    password: Seq<char>,
    ip_check: Result<(), BruteResponeErrorView>,
)
    ensures
        password.len() == 0 ==> match ip_check {
            Err(e) => spec_admit_fake_login(LoginProtocol::Https, Some(ip), username, password, ip_check)
                == AdmissionView::Rejected(e) && spec_admit_fake_login(
                LoginProtocol::Http,
                Some(ip),
                username,
                password,
                ip_check,
            ) == AdmissionView::Rejected(BruteResponeErrorOf::BadRequest(empty_password_text())),
            Ok(()) => true,
        },
        !(ip_check is Err && password.len() == 0) ==> match (
            spec_admit_fake_login(LoginProtocol::Https, Some(ip), username, password, ip_check),
            spec_admit_fake_login(LoginProtocol::Http, Some(ip), username, password, ip_check),
        ) {
            (AdmissionOf::Accepted(s), AdmissionOf::Accepted(p)) => s == arriving(username, password, ip, "HTTPS"@)
                && p == arriving(username, password, ip, "HTTP"@),
            (AdmissionOf::Rejected(x), AdmissionOf::Rejected(y)) => x == y,
            _ => false,
        },
{
}
} // verus!
