use vstd::prelude::*;

verus! {

/// The view of an optional text.
pub open spec fn text_view(o: Option<String>) -> Option<Seq<char>> {
    match o {
        Some(s) => Some(s@),
        None => None,
    }
}

/// The view of a list of texts.
pub open spec fn texts_view(v: Vec<String>) -> Seq<Seq<char>> {
    v@.map_values(|s: String| s@)
}

/// The view of an optional list of texts.
pub open spec fn opt_texts_view(o: Option<Vec<String>>) -> Option<Seq<Seq<char>>> {
    match o {
        Some(v) => Some(texts_view(v)),
        None => None,
    }
}

/// One recorded authentication attempt: who tried which credentials from
/// which address over which protocol, and when (milliseconds since the epoch).
#[derive(Clone, Debug)]
pub struct IndividualOf<S> {
    pub id: S,
    pub username: S,
    pub password: S,
    pub ip: S,
    pub protocol: S,
    pub timestamp: i64,
}

pub type Individual = IndividualOf<String>;

pub type IndividualView = IndividualOf<Seq<char>>;

impl View for IndividualOf<String> {
    type V = IndividualView;

    open spec fn view(&self) -> IndividualView {
        IndividualOf {
            id: self.id@,
            username: self.username@,
            password: self.password@,
            ip: self.ip@,
            protocol: self.protocol@,
            timestamp: self.timestamp,
        }
    }
}

impl IndividualOf<String> {
    /// An attempt as it arrives, before it is stored: it has no identifier
    /// yet (empty) and no timestamp yet (zero); storing it assigns both.
    pub fn new_short(username: String, password: String, ip: String, protocol: String) -> (r: Individual)
        ensures
            r@ == (IndividualOf {
                id: Seq::<char>::empty(),
                username: username@,
                password: password@,
                ip: ip@,
                protocol: protocol@,
                timestamp: 0i64,
            }),
    {
        IndividualOf { id: String::new(), username, password, ip, protocol, timestamp: 0 }
    }
}

/// What is recorded about an address: location, network owner (AS), company,
/// privacy flags, abuse contact and hosted domains. Every column may be absent.
#[derive(Clone, Debug)]
pub struct IpRecordOf<S, L> {
    pub hostname: Option<S>,
    pub city: Option<S>,
    pub region: Option<S>,
    pub country: Option<S>,
    pub loc: Option<S>,
    pub org: Option<S>,
    pub postal: Option<S>,
    pub asn: Option<S>,
    pub asn_name: Option<S>,
    pub asn_domain: Option<S>,
    pub asn_route: Option<S>,
    pub asn_type: Option<S>,
    pub company_name: Option<S>,
    pub company_domain: Option<S>,
    pub company_type: Option<S>,
    pub vpn: Option<bool>,
    pub proxy: Option<bool>,
    pub tor: Option<bool>,
    pub relay: Option<bool>,
    pub hosting: Option<bool>,
    pub service: Option<S>,
    pub abuse_address: Option<S>,
    pub abuse_country: Option<S>,
    pub abuse_email: Option<S>,
    pub abuse_name: Option<S>,
    pub abuse_network: Option<S>,
    pub abuse_phone: Option<S>,
    pub domain_ip: Option<S>,
    pub domain_total: Option<i64>,
    pub domains: Option<L>,
    pub timezone: Option<S>,
}

pub type IpRecord = IpRecordOf<String, Vec<String>>;

pub type IpRecordView = IpRecordOf<Seq<char>, Seq<Seq<char>>>;

impl View for IpRecordOf<String, Vec<String>> {
    type V = IpRecordView;

    open spec fn view(&self) -> IpRecordView {
        IpRecordOf {
            hostname: text_view(self.hostname),
            city: text_view(self.city),
            region: text_view(self.region),
            country: text_view(self.country),
            loc: text_view(self.loc),
            org: text_view(self.org),
            postal: text_view(self.postal),
            asn: text_view(self.asn),
            asn_name: text_view(self.asn_name),
            asn_domain: text_view(self.asn_domain),
            asn_route: text_view(self.asn_route),
            asn_type: text_view(self.asn_type),
            company_name: text_view(self.company_name),
            company_domain: text_view(self.company_domain),
            company_type: text_view(self.company_type),
            vpn: self.vpn,
            proxy: self.proxy,
            tor: self.tor,
            relay: self.relay,
            hosting: self.hosting,
            service: text_view(self.service),
            abuse_address: text_view(self.abuse_address),
            abuse_country: text_view(self.abuse_country),
            abuse_email: text_view(self.abuse_email),
            abuse_name: text_view(self.abuse_name),
            abuse_network: text_view(self.abuse_network),
            abuse_phone: text_view(self.abuse_phone),
            domain_ip: text_view(self.domain_ip),
            domain_total: self.domain_total,
            domains: opt_texts_view(self.domains),
            timezone: text_view(self.timezone),
        }
    }
}

/// An attempt together with what is known about its address.
#[derive(Clone, Debug)]
pub struct ProcessedIndividualOf<S, L> {
    pub id: S,
    pub username: S,
    pub password: S,
    pub ip: S,
    pub protocol: S,
    pub details: IpRecordOf<S, L>,
    pub timestamp: i64,
}

pub type ProcessedIndividual = ProcessedIndividualOf<String, Vec<String>>;

pub type ProcessedIndividualView = ProcessedIndividualOf<Seq<char>, Seq<Seq<char>>>;

impl View for ProcessedIndividualOf<String, Vec<String>> {
    type V = ProcessedIndividualView;

    open spec fn view(&self) -> ProcessedIndividualView {
        ProcessedIndividualOf {
            id: self.id@,
            username: self.username@,
            password: self.password@,
            ip: self.ip@,
            protocol: self.protocol@,
            details: self.details@,
            timestamp: self.timestamp,
        }
    }
}

/// The network (AS) that announces an address.
#[derive(Clone, Debug)]
pub struct AsnInfoOf<S> {
    pub asn: S,
    pub name: S,
    pub domain: S,
    pub route: S,
    pub asn_type: S,
}

/// The company that holds an address.
#[derive(Clone, Debug)]
pub struct CompanyInfoOf<S> {
    pub name: S,
    pub domain: S,
    pub company_type: S,
}

/// Whether an address is a VPN, proxy, Tor node, relay or hosting provider.
#[derive(Clone, Debug)]
pub struct PrivacyInfoOf<S> {
    pub vpn: bool,
    pub proxy: bool,
    pub tor: bool,
    pub relay: bool,
    pub hosting: bool,
    pub service: S,
}

/// The abuse contact for an address.
#[derive(Clone, Debug)]
pub struct AbuseInfoOf<S> {
    pub address: S,
    pub country: S,
    pub email: S,
    pub name: S,
    pub network: S,
    pub phone: S,
}

/// The domains hosted on an address.
#[derive(Clone, Debug)]
pub struct DomainsInfoOf<S, L> {
    pub ip: Option<S>,
    pub total: u64,
    pub domains: L,
}

/// The answer of an IP information service for one address, as far as the
/// service reads it.
#[derive(Clone, Debug)]
pub struct IpLookupOf<S, L> {
    pub hostname: Option<S>,
    pub city: S,
    pub region: S,
    pub country: S,
    pub loc: S,
    pub org: Option<S>,
    pub postal: Option<S>,
    pub timezone: Option<S>,
    pub asn: Option<AsnInfoOf<S>>,
    pub company: Option<CompanyInfoOf<S>>,
    pub privacy: Option<PrivacyInfoOf<S>>,
    pub abuse: Option<AbuseInfoOf<S>>,
    pub domains: Option<DomainsInfoOf<S, L>>,
}

pub type AsnInfo = AsnInfoOf<String>;

pub type CompanyInfo = CompanyInfoOf<String>;

pub type PrivacyInfo = PrivacyInfoOf<String>;

pub type AbuseInfo = AbuseInfoOf<String>;

pub type DomainsInfo = DomainsInfoOf<String, Vec<String>>;

pub type IpLookup = IpLookupOf<String, Vec<String>>;

pub type IpLookupView = IpLookupOf<Seq<char>, Seq<Seq<char>>>;

pub open spec fn asn_view(a: AsnInfo) -> AsnInfoOf<Seq<char>> {
    AsnInfoOf { asn: a.asn@, name: a.name@, domain: a.domain@, route: a.route@, asn_type: a.asn_type@ }
}

pub open spec fn company_view(c: CompanyInfo) -> CompanyInfoOf<Seq<char>> {
    CompanyInfoOf { name: c.name@, domain: c.domain@, company_type: c.company_type@ }
}

pub open spec fn privacy_view(p: PrivacyInfo) -> PrivacyInfoOf<Seq<char>> {
    PrivacyInfoOf {
        vpn: p.vpn,
        proxy: p.proxy,
        tor: p.tor,
        relay: p.relay,
        hosting: p.hosting,
        service: p.service@,
    }
}

pub open spec fn abuse_view(a: AbuseInfo) -> AbuseInfoOf<Seq<char>> {
    AbuseInfoOf {
        address: a.address@,
        country: a.country@,
        email: a.email@,
        name: a.name@,
        network: a.network@,
        phone: a.phone@,
    }
}

pub open spec fn domains_view(d: DomainsInfo) -> DomainsInfoOf<Seq<char>, Seq<Seq<char>>> {
    DomainsInfoOf { ip: text_view(d.ip), total: d.total, domains: texts_view(d.domains) }
}

impl View for IpLookupOf<String, Vec<String>> {
    type V = IpLookupView;

    open spec fn view(&self) -> IpLookupView {
        IpLookupOf {
            hostname: text_view(self.hostname),
            city: self.city@,
            region: self.region@,
            country: self.country@,
            loc: self.loc@,
            org: text_view(self.org),
            postal: text_view(self.postal),
            timezone: text_view(self.timezone),
            asn: match self.asn {
                Some(a) => Some(asn_view(a)),
                None => None,
            },
            company: match self.company {
                Some(c) => Some(company_view(c)),
                None => None,
            },
            privacy: match self.privacy {
                Some(p) => Some(privacy_view(p)),
                None => None,
            },
            abuse: match self.abuse {
                Some(a) => Some(abuse_view(a)),
                None => None,
            },
            domains: match self.domains {
                Some(d) => Some(domains_view(d)),
                None => None,
            },
        }
    }
}

/// A copy of an optional text.
pub fn copy_text(o: &Option<String>) -> (r: Option<String>)
    ensures
        r == *o,
{
    match o {
        Some(s) => Some(s.clone()),
        None => None,
    }
}

/// A copy of a list of texts.
pub fn copy_texts(v: &Vec<String>) -> (r: Vec<String>)
    ensures
        r@ == v@,
{
    let mut r: Vec<String> = Vec::new();
    let n = v.len();
    for i in 0..n
        invariant
            n == v@.len(),
            r@ == v@.subrange(0, i as int),
    {
        r.push(v[i].clone());
        assert(r@ =~= v@.subrange(0, i + 1));
    }
    assert(v@.subrange(0, n as int) =~= v@);
    r
}

impl IpRecordOf<String, Vec<String>> {
    /// A copy of the record, column for column.
    pub fn copy(&self) -> (r: IpRecord)
        ensures
            r@ == self@,
    {
        IpRecordOf {
            hostname: copy_text(&self.hostname),
            city: copy_text(&self.city),
            region: copy_text(&self.region),
            country: copy_text(&self.country),
            loc: copy_text(&self.loc),
            org: copy_text(&self.org),
            postal: copy_text(&self.postal),
            asn: copy_text(&self.asn),
            asn_name: copy_text(&self.asn_name),
            asn_domain: copy_text(&self.asn_domain),
            asn_route: copy_text(&self.asn_route),
            asn_type: copy_text(&self.asn_type),
            company_name: copy_text(&self.company_name),
            company_domain: copy_text(&self.company_domain),
            company_type: copy_text(&self.company_type),
            vpn: self.vpn,
            proxy: self.proxy,
            tor: self.tor,
            relay: self.relay,
            hosting: self.hosting,
            service: copy_text(&self.service),
            abuse_address: copy_text(&self.abuse_address),
            abuse_country: copy_text(&self.abuse_country),
            abuse_email: copy_text(&self.abuse_email),
            abuse_name: copy_text(&self.abuse_name),
            abuse_network: copy_text(&self.abuse_network),
            abuse_phone: copy_text(&self.abuse_phone),
            domain_ip: copy_text(&self.domain_ip),
            domain_total: self.domain_total,
            domains: match &self.domains {
                Some(v) => Some(copy_texts(v)),
                None => None,
            },
            timezone: copy_text(&self.timezone),
        }
    }
}

} // verus!
