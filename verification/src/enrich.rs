use vstd::prelude::*;
use crate::records::{
    text_view, texts_view, AbuseInfoOf, AsnInfoOf, CompanyInfoOf, DomainsInfoOf, Individual,
    IndividualView, IpLookup, IpLookupView, IpRecord, IpRecordOf, IpRecordView, PrivacyInfoOf,
    ProcessedIndividual, ProcessedIndividualOf, ProcessedIndividualView,
};

verus! {

/// How long (milliseconds) the details last recorded for an address are
/// reused instead of asking the IP information service again.
pub const REUSE_WINDOW_MILLIS: i64 = 300_000;

/// An optional text, with the empty text in place of an absent one.
pub open spec fn or_empty(o: Option<Seq<char>>) -> Seq<char> {
    match o {
        Some(s) => s,
        None => Seq::empty(),
    }
}

/// Network details used when the service reports none: all texts empty.
pub open spec fn default_asn() -> AsnInfoOf<Seq<char>> {
    AsnInfoOf {
        asn: Seq::empty(),
        name: Seq::empty(),
        domain: Seq::empty(),
        route: Seq::empty(),
        asn_type: Seq::empty(),
    }
}

/// Company details used when the service reports none: all texts empty.
pub open spec fn default_company() -> CompanyInfoOf<Seq<char>> {
    CompanyInfoOf { name: Seq::empty(), domain: Seq::empty(), company_type: Seq::empty() }
}

/// Privacy details used when the service reports none: no flag set, no service.
pub open spec fn default_privacy() -> PrivacyInfoOf<Seq<char>> {
    PrivacyInfoOf { vpn: false, proxy: false, tor: false, relay: false, hosting: false, service: Seq::empty() }
}

/// Abuse contact used when the service reports none: all texts empty.
pub open spec fn default_abuse() -> AbuseInfoOf<Seq<char>> {
    AbuseInfoOf {
        address: Seq::empty(),
        country: Seq::empty(),
        email: Seq::empty(),
        name: Seq::empty(),
        network: Seq::empty(),
        phone: Seq::empty(),
    }
}

/// Hosted domains used when the service reports none: an empty address text,
/// a total of zero and no domains.
pub open spec fn default_domains() -> DomainsInfoOf<Seq<char>, Seq<Seq<char>>> {
    DomainsInfoOf { ip: Some(Seq::empty()), total: 0, domains: Seq::empty() }
}

/// The record kept of an address from the service's answer: every group the
/// answer lacks is replaced by its default, and a missing postal code by the
/// empty text; hostname, organisation and timezone stay absent when absent.
pub open spec fn spec_record_from_lookup(l: IpLookupView) -> IpRecordView {
    let asn = match l.asn {
        Some(a) => a,
        None => default_asn(),
    };
    let company = match l.company {
        Some(c) => c,
        None => default_company(),
    };
    let privacy = match l.privacy {
        Some(p) => p,
        None => default_privacy(),
    };
    let abuse = match l.abuse {
        Some(a) => a,
        None => default_abuse(),
    };
    let domains = match l.domains {
        Some(d) => d,
        None => default_domains(),
    };
    IpRecordOf {
        hostname: l.hostname,
        city: Some(l.city),
        region: Some(l.region),
        country: Some(l.country),
        loc: Some(l.loc),
        org: l.org,
        postal: Some(or_empty(l.postal)),
        asn: Some(asn.asn),
        asn_name: Some(asn.name),
        asn_domain: Some(asn.domain),
        asn_route: Some(asn.route),
        asn_type: Some(asn.asn_type),
        company_name: Some(company.name),
        company_domain: Some(company.domain),
        company_type: Some(company.company_type),
        vpn: Some(privacy.vpn),
        proxy: Some(privacy.proxy),
        tor: Some(privacy.tor),
        relay: Some(privacy.relay),
        hosting: Some(privacy.hosting),
        service: Some(privacy.service),
        abuse_address: Some(abuse.address),
        abuse_country: Some(abuse.country),
        abuse_email: Some(abuse.email),
        abuse_name: Some(abuse.name),
        abuse_network: Some(abuse.network),
        abuse_phone: Some(abuse.phone),
        domain_ip: domains.ip,
        domain_total: Some(domains.total as i64),
        domains: Some(domains.domains),
        timezone: l.timezone,
    }
}

/// A record with an absent postal code replaced by the empty text.
pub open spec fn spec_with_postal(r: IpRecordView) -> IpRecordView {
    IpRecordOf { postal: Some(or_empty(r.postal)), ..r }
}

/// The row stored for an attempt whose address details come from `details`.
pub open spec fn spec_processed_row(a: IndividualView, details: IpRecordView) -> ProcessedIndividualView {
    ProcessedIndividualOf {
        id: a.id,
        username: a.username,
        password: a.password,
        ip: a.ip,
        protocol: a.protocol,
        details: details,
        timestamp: a.timestamp,
    }
}

/// Whether details recorded at `recorded` may still be reused at `now`.
pub open spec fn still_fresh(recorded: i64, now: i64) -> bool {
    now - recorded <= REUSE_WINDOW_MILLIS
}

/// The cached row is reused: the elapsed time is computed, and the reused
/// details carry a domain total, which is stored again.
pub open spec fn cache_use_defined(cached: Option<ProcessedIndividualView>, now: i64) -> bool {
    match cached {
        Some(c) => {
            &&& i64::MIN <= now - c.timestamp <= i64::MAX
            &&& still_fresh(c.timestamp, now) ==> c.details.domain_total is Some
        },
        None => true,
    }
}

/// The view of an optional row.
pub open spec fn opt_processed_view(o: Option<ProcessedIndividual>) -> Option<ProcessedIndividualView> {
    match o {
        Some(p) => Some(p@),
        None => None,
    }
}

/// Where the details of an attempt's address come from.
pub enum IpSourceOf<S, L> {
    /// The latest row for the address is recent: `row` is stored for the new
    /// attempt with that row's details, and `reply` (the latest row itself,
    /// postal code filled in) is what the report answers.
    Reuse { row: ProcessedIndividualOf<S, L>, reply: ProcessedIndividualOf<S, L> },
    /// The IP information service is asked.
    Lookup,
}

pub type IpSource = IpSourceOf<String, Vec<String>>;

pub type IpSourceView = IpSourceOf<Seq<char>, Seq<Seq<char>>>;

impl View for IpSourceOf<String, Vec<String>> {
    type V = IpSourceView;

    open spec fn view(&self) -> IpSourceView {
        match self {
            IpSourceOf::Reuse { row, reply } => IpSourceOf::Reuse { row: row@, reply: reply@ },
            IpSourceOf::Lookup => IpSourceOf::Lookup,
        }
    }
}

/// The decision between reusing the latest row for the address and asking
/// the service: reuse exactly when there is such a row and it was recorded at
/// most five minutes before `now`.
pub open spec fn spec_ip_source(a: IndividualView, cached: Option<ProcessedIndividualView>, now: i64) -> IpSourceView {
    match cached {
        Some(c) => if still_fresh(c.timestamp, now) {
            IpSourceOf::Reuse {
                row: spec_processed_row(a, spec_with_postal(c.details)),
                reply: ProcessedIndividualOf { details: spec_with_postal(c.details), ..c },
            }
        } else {
            IpSourceOf::Lookup
        },
        None => IpSourceOf::Lookup,
    }
}

fn text_or_empty(o: Option<String>) -> (r: String)
    ensures
        r@ == or_empty(text_view(o)),
{
    match o {
        Some(s) => s,
        None => String::new(),
    }
}

/// Builds the record kept of an address from the service's answer.
pub fn record_from_lookup(l: IpLookup) -> (r: IpRecord)
    ensures
        r@ == spec_record_from_lookup(l@),
{
    let asn = match l.asn {
        Some(a) => a,
        None => AsnInfoOf {
            asn: String::new(),
            name: String::new(),
            domain: String::new(),
            route: String::new(),
            asn_type: String::new(),
        },
    };
    let company = match l.company {
        Some(c) => c,
        None => CompanyInfoOf { name: String::new(), domain: String::new(), company_type: String::new() },
    };
    let privacy = match l.privacy {
        Some(p) => p,
        None => PrivacyInfoOf {
            vpn: false,
            proxy: false,
            tor: false,
            relay: false,
            hosting: false,
            service: String::new(),
        },
    };
    let abuse = match l.abuse {
        Some(a) => a,
        None => AbuseInfoOf {
            address: String::new(),
            country: String::new(),
            email: String::new(),
            name: String::new(),
            network: String::new(),
            phone: String::new(),
        },
    };
    let domains = match l.domains {
        Some(d) => d,
        None => DomainsInfoOf { ip: Some(String::new()), total: 0, domains: Vec::new() },
    };
    let r = IpRecordOf {
        hostname: l.hostname,
        city: Some(l.city),
        region: Some(l.region),
        country: Some(l.country),
        loc: Some(l.loc),
        org: l.org,
        postal: Some(text_or_empty(l.postal)),
        asn: Some(asn.asn),
        asn_name: Some(asn.name),
        asn_domain: Some(asn.domain),
        asn_route: Some(asn.route),
        asn_type: Some(asn.asn_type),
        company_name: Some(company.name),
        company_domain: Some(company.domain),
        company_type: Some(company.company_type),
        vpn: Some(privacy.vpn),
        proxy: Some(privacy.proxy),
        tor: Some(privacy.tor),
        relay: Some(privacy.relay),
        hosting: Some(privacy.hosting),
        service: Some(privacy.service),
        abuse_address: Some(abuse.address),
        abuse_country: Some(abuse.country),
        abuse_email: Some(abuse.email),
        abuse_name: Some(abuse.name),
        abuse_network: Some(abuse.network),
        abuse_phone: Some(abuse.phone),
        domain_ip: domains.ip,
        domain_total: Some(domains.total as i64),
        domains: Some(domains.domains),
        timezone: l.timezone,
    };
    assert(r@.domains == spec_record_from_lookup(l@).domains);
    r
}

/// The record with an absent postal code replaced by the empty text.
pub fn with_postal(r: IpRecord) -> (out: IpRecord)
    ensures
        out@ == spec_with_postal(r@),
{
    let postal = text_or_empty(r.postal);
    IpRecordOf { postal: Some(postal), ..r }
}

/// The row stored for attempt `a` with the given address details.
pub fn processed_row(a: &Individual, details: IpRecord) -> (r: ProcessedIndividual)
    ensures
        r@ == spec_processed_row(a@, details@),
{
    ProcessedIndividualOf {
        id: a.id.clone(),
        username: a.username.clone(),
        password: a.password.clone(),
        ip: a.ip.clone(),
        protocol: a.protocol.clone(),
        details,
        timestamp: a.timestamp,
    }
}

/// Decides where the details of attempt `a` come from, given the latest row
/// recorded for its address (if any) and the current time.
pub fn ip_source(a: &Individual, cached: Option<ProcessedIndividual>, now: i64) -> (s: IpSource)
    requires
        cache_use_defined(opt_processed_view(cached), now),
    ensures
        s@ == spec_ip_source(a@, opt_processed_view(cached), now),
{
    match cached {
        Some(c) => {
            if now - c.timestamp <= REUSE_WINDOW_MILLIS {
                let details = with_postal(c.details);
                let row = processed_row(a, details.copy());
                let reply = ProcessedIndividualOf { details, ..c };
                IpSourceOf::Reuse { row, reply }
            } else {
                IpSourceOf::Lookup
            }
        },
        None => IpSourceOf::Lookup,
    }
}

/// Recent details are reused and stale or missing ones are looked up:
/// details are reused exactly when the address has a row recorded at most
/// five minutes before `now`. The reused row carries the new attempt's
/// identity and time with the recorded details, and the report answers the
/// recorded row itself; in both the postal code is filled in.
pub proof fn lemma_reuse_exactly_when_recent(a: IndividualView, cached: Option<ProcessedIndividualView>, now: i64)
    ensures
        (spec_ip_source(a, cached, now) is Reuse) <==> (cached matches Some(c) && now - c.timestamp <= 300_000),
        spec_ip_source(a, cached, now) matches IpSourceOf::Reuse { row, reply } ==> ({
            let c = cached->0;
            &&& row.id == a.id && row.username == a.username && row.password == a.password
            &&& row.ip == a.ip && row.protocol == a.protocol && row.timestamp == a.timestamp
            &&& row.details == reply.details
            &&& reply.details == spec_with_postal(c.details)
            &&& reply.id == c.id && reply.timestamp == c.timestamp
            &&& reply.details.postal is Some
        }),
{
}

/// A record built from a lookup always holds a postal code and a domain
/// total, so the row stored from it can later be reused as it stands; its
/// location texts, network, company, privacy and abuse columns are all present.
pub proof fn lemma_lookup_record_is_reusable(l: IpLookupView)
    ensures
        ({
            let r = spec_record_from_lookup(l);
            &&& r.postal is Some && r.domain_total is Some && r.domains is Some
            &&& r.city is Some && r.region is Some && r.country is Some && r.loc is Some
            &&& r.asn is Some && r.asn_name is Some && r.asn_domain is Some && r.asn_route is Some
            &&& r.asn_type is Some
            &&& r.company_name is Some && r.company_domain is Some && r.company_type is Some
            &&& r.vpn is Some && r.proxy is Some && r.tor is Some && r.relay is Some && r.hosting is Some
            &&& r.service is Some
            &&& r.abuse_address is Some && r.abuse_country is Some && r.abuse_email is Some
            &&& r.abuse_name is Some && r.abuse_network is Some && r.abuse_phone is Some
        }),
        forall|a: IndividualView, now: i64|
            #![trigger spec_processed_row(a, spec_record_from_lookup(l)), cache_use_defined(Some(spec_processed_row(a, spec_record_from_lookup(l))), now)]
            i64::MIN <= now - a.timestamp <= i64::MAX ==> cache_use_defined(
                Some(spec_processed_row(a, spec_record_from_lookup(l))),
                now,
            ),
{
}

/// Every column of the record built from an answer is the answer's
/// same-named field, or that field's default when the answer lacks it: the
/// location texts are stored as given (the postal code, when absent, as the
/// empty text); each network, company, privacy, abuse and hosted-domains
/// column holds the same-named field of its group when the group is present,
/// and the empty text, `false` or zero when it is absent.
pub proof fn lemma_record_columns_from_answer(l: IpLookupView)
    ensures
        ({
            let r = spec_record_from_lookup(l);
            let e = Seq::<char>::empty();
            &&& r.hostname == l.hostname && r.org == l.org && r.timezone == l.timezone
            &&& r.city == Some(l.city) && r.region == Some(l.region)
            &&& r.country == Some(l.country) && r.loc == Some(l.loc)
            &&& r.postal == Some(match l.postal { Some(c) => c, None => e })
            &&& match l.asn {
                Some(a) => r.asn == Some(a.asn) && r.asn_name == Some(a.name) && r.asn_domain == Some(a.domain)
                    && r.asn_route == Some(a.route) && r.asn_type == Some(a.asn_type),
                None => r.asn == Some(e) && r.asn_name == Some(e) && r.asn_domain == Some(e) && r.asn_route == Some(e)
                    && r.asn_type == Some(e),
            }
            &&& match l.company {
                Some(c) => r.company_name == Some(c.name) && r.company_domain == Some(c.domain)
                    && r.company_type == Some(c.company_type),
                None => r.company_name == Some(e) && r.company_domain == Some(e) && r.company_type == Some(e),
            }
            &&& match l.privacy {
                Some(v) => r.vpn == Some(v.vpn) && r.proxy == Some(v.proxy) && r.tor == Some(v.tor)
                    && r.relay == Some(v.relay) && r.hosting == Some(v.hosting) && r.service == Some(v.service),
                None => r.vpn == Some(false) && r.proxy == Some(false) && r.tor == Some(false)
                    && r.relay == Some(false) && r.hosting == Some(false) && r.service == Some(e),
            }
            &&& match l.abuse {
                Some(a) => r.abuse_address == Some(a.address) && r.abuse_country == Some(a.country)
                    && r.abuse_email == Some(a.email) && r.abuse_name == Some(a.name)
                    && r.abuse_network == Some(a.network) && r.abuse_phone == Some(a.phone),
                None => r.abuse_address == Some(e) && r.abuse_country == Some(e) && r.abuse_email == Some(e)
                    && r.abuse_name == Some(e) && r.abuse_network == Some(e) && r.abuse_phone == Some(e),
            }
            &&& match l.domains {
                Some(d) => r.domain_ip == d.ip && r.domain_total == Some(d.total as i64)
                    && r.domains == Some(d.domains),
                None => r.domain_ip == Some(e) && r.domain_total == Some(0i64)
                    && r.domains == Some(Seq::<Seq<char>>::empty()),
            }
        }),
{
}

/// Filling in the postal code twice is filling it in once, and keeps a known code.
pub proof fn lemma_postal_fill_idempotent(r: IpRecordView)
    ensures
        spec_with_postal(spec_with_postal(r)) == spec_with_postal(r),
        r.postal is Some ==> spec_with_postal(r) == r,
{
}
} // verus!
