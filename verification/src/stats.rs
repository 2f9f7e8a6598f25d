use vstd::prelude::*;
use crate::records::{
    text_view, Individual, IndividualView, ProcessedIndividual, ProcessedIndividualView,
};

verus! {

/// One increment of a running statistic: the table it counts in and the key
/// whose count goes up by one (a key absent from the table enters with one).
#[derive(Clone, Debug)]
pub enum StatUpsertOf<S> {
    Username(S),
    Password(S),
    Ip(S),
    Protocol(S),
    City { city: Option<S>, country: Option<S> },
    Region { region: Option<S>, country: Option<S> },
    Country(Option<S>),
    Timezone(Option<S>),
    Org(Option<S>),
    Postal(S),
    Location(Option<S>),
    /// A username/password pair; `id` identifies the row if the pair is new.
    UsrPassCombo { id: S, username: S, password: S },
}

pub type StatUpsert = StatUpsertOf<String>;

pub type StatUpsertView = StatUpsertOf<Seq<char>>;

impl View for StatUpsertOf<String> {
    type V = StatUpsertView;

    open spec fn view(&self) -> StatUpsertView {
        match self {
            StatUpsertOf::Username(s) => StatUpsertOf::Username(s@),
            StatUpsertOf::Password(s) => StatUpsertOf::Password(s@),
            StatUpsertOf::Ip(s) => StatUpsertOf::Ip(s@),
            StatUpsertOf::Protocol(s) => StatUpsertOf::Protocol(s@),
            StatUpsertOf::City { city, country } => StatUpsertOf::City {
                city: text_view(*city),
                country: text_view(*country),
            },
            StatUpsertOf::Region { region, country } => StatUpsertOf::Region {
                region: text_view(*region),
                country: text_view(*country),
            },
            StatUpsertOf::Country(s) => StatUpsertOf::Country(text_view(*s)),
            StatUpsertOf::Timezone(s) => StatUpsertOf::Timezone(text_view(*s)),
            StatUpsertOf::Org(s) => StatUpsertOf::Org(text_view(*s)),
            StatUpsertOf::Postal(s) => StatUpsertOf::Postal(s@),
            StatUpsertOf::Location(s) => StatUpsertOf::Location(text_view(*s)),
            StatUpsertOf::UsrPassCombo { id, username, password } => StatUpsertOf::UsrPassCombo {
                id: id@,
                username: username@,
                password: password@,
            },
        }
    }
}

/// The statement that applies an increment, its key values bound in order as
/// its parameters (for a pair: identifier, username, password): a key not yet
/// in the table enters with a count of one, else its count goes up by one.
pub open spec fn spec_statement<S>(u: StatUpsertOf<S>) -> Seq<char> {
    match u {
        StatUpsertOf::Username(_) => "INSERT INTO top_username (username, amount) VALUES ($1, 1) ON CONFLICT (username) DO UPDATE SET amount = top_username.amount + EXCLUDED.amount RETURNING *;"@,
        StatUpsertOf::Password(_) => "INSERT INTO top_password (password, amount) VALUES ($1, 1) ON CONFLICT (password) DO UPDATE SET amount = top_password.amount + EXCLUDED.amount RETURNING *;"@,
        StatUpsertOf::Ip(_) => "INSERT INTO top_ip (ip, amount) VALUES ($1, 1) ON CONFLICT (ip) DO UPDATE SET amount = top_ip.amount + EXCLUDED.amount RETURNING *;"@,
        StatUpsertOf::Protocol(_) => "INSERT INTO top_protocol (protocol, amount) VALUES ($1, 1) ON CONFLICT (protocol) DO UPDATE SET amount = top_protocol.amount + EXCLUDED.amount RETURNING *;"@,
        StatUpsertOf::City { .. } => "INSERT INTO top_city (city, country, amount) VALUES ($1, $2, 1) ON CONFLICT (city, country) DO UPDATE SET amount = top_city.amount + EXCLUDED.amount RETURNING *;"@,
        StatUpsertOf::Region { .. } => "INSERT INTO top_region (region, country, amount) VALUES ($1, $2, 1) ON CONFLICT (region, country) DO UPDATE SET amount = top_region.amount + EXCLUDED.amount RETURNING *;"@,
        StatUpsertOf::Country(_) => "INSERT INTO top_country (country, amount) VALUES ($1, 1) ON CONFLICT (country) DO UPDATE SET amount = top_country.amount + EXCLUDED.amount RETURNING *;"@,
        StatUpsertOf::Timezone(_) => "INSERT INTO top_timezone (timezone, amount) VALUES ($1, 1) ON CONFLICT (timezone) DO UPDATE SET amount = top_timezone.amount + EXCLUDED.amount RETURNING *;"@,
        StatUpsertOf::Org(_) => "INSERT INTO top_org (org, amount) VALUES ($1, 1) ON CONFLICT (org) DO UPDATE SET amount = top_org.amount + EXCLUDED.amount RETURNING *;"@,
        StatUpsertOf::Postal(_) => "INSERT INTO top_postal (postal, amount) VALUES ($1, 1) ON CONFLICT (postal) DO UPDATE SET amount = top_postal.amount + EXCLUDED.amount RETURNING *;"@,
        StatUpsertOf::Location(_) => "INSERT INTO top_loc (loc, amount) VALUES ($1, 1) ON CONFLICT (loc) DO UPDATE SET amount = top_loc.amount + EXCLUDED.amount RETURNING *;"@,
        StatUpsertOf::UsrPassCombo { .. } => "INSERT INTO top_usr_pass_combo (id, username, password, amount) VALUES ($1, $2, $3, 1) ON CONFLICT (username, password) DO UPDATE SET amount = top_usr_pass_combo.amount + EXCLUDED.amount RETURNING *;"@,
    }
}

/// The table a statistic is counted in.
pub open spec fn stat_table<S>(u: StatUpsertOf<S>) -> Seq<char> {
    match u {
        StatUpsertOf::Username(_) => "top_username"@,
        StatUpsertOf::Password(_) => "top_password"@,
        StatUpsertOf::Ip(_) => "top_ip"@,
        StatUpsertOf::Protocol(_) => "top_protocol"@,
        StatUpsertOf::City { .. } => "top_city"@,
        StatUpsertOf::Region { .. } => "top_region"@,
        StatUpsertOf::Country(_) => "top_country"@,
        StatUpsertOf::Timezone(_) => "top_timezone"@,
        StatUpsertOf::Org(_) => "top_org"@,
        StatUpsertOf::Postal(_) => "top_postal"@,
        StatUpsertOf::Location(_) => "top_loc"@,
        StatUpsertOf::UsrPassCombo { .. } => "top_usr_pass_combo"@,
    }
}

/// The columns an increment fills when its key is new (besides the count).
pub open spec fn stat_columns<S>(u: StatUpsertOf<S>) -> Seq<char> {
    match u {
        StatUpsertOf::Username(_) => "username"@,
        StatUpsertOf::Password(_) => "password"@,
        StatUpsertOf::Ip(_) => "ip"@,
        StatUpsertOf::Protocol(_) => "protocol"@,
        StatUpsertOf::City { .. } => "city, country"@,
        StatUpsertOf::Region { .. } => "region, country"@,
        StatUpsertOf::Country(_) => "country"@,
        StatUpsertOf::Timezone(_) => "timezone"@,
        StatUpsertOf::Org(_) => "org"@,
        StatUpsertOf::Postal(_) => "postal"@,
        StatUpsertOf::Location(_) => "loc"@,
        StatUpsertOf::UsrPassCombo { .. } => "id, username, password"@,
    }
}

/// The columns that identify a key of a statistic.
pub open spec fn stat_key_columns<S>(u: StatUpsertOf<S>) -> Seq<char> {
    match u {
        StatUpsertOf::Username(_) => "username"@,
        StatUpsertOf::Password(_) => "password"@,
        StatUpsertOf::Ip(_) => "ip"@,
        StatUpsertOf::Protocol(_) => "protocol"@,
        StatUpsertOf::City { .. } => "city, country"@,
        StatUpsertOf::Region { .. } => "region, country"@,
        StatUpsertOf::Country(_) => "country"@,
        StatUpsertOf::Timezone(_) => "timezone"@,
        StatUpsertOf::Org(_) => "org"@,
        StatUpsertOf::Postal(_) => "postal"@,
        StatUpsertOf::Location(_) => "loc"@,
        StatUpsertOf::UsrPassCombo { .. } => "username, password"@,
    }
}

/// The parameters that carry an increment's values.
pub open spec fn stat_parameters<S>(u: StatUpsertOf<S>) -> Seq<char> {
    match u {
        StatUpsertOf::Username(_) => "$1"@,
        StatUpsertOf::Password(_) => "$1"@,
        StatUpsertOf::Ip(_) => "$1"@,
        StatUpsertOf::Protocol(_) => "$1"@,
        StatUpsertOf::City { .. } => "$1, $2"@,
        StatUpsertOf::Region { .. } => "$1, $2"@,
        StatUpsertOf::Country(_) => "$1"@,
        StatUpsertOf::Timezone(_) => "$1"@,
        StatUpsertOf::Org(_) => "$1"@,
        StatUpsertOf::Postal(_) => "$1"@,
        StatUpsertOf::Location(_) => "$1"@,
        StatUpsertOf::UsrPassCombo { .. } => "$1, $2, $3"@,
    }
}

/// A statement that adds one to the count of a key: the key is inserted
/// into `table` with a count of one, and when the key columns already hold
/// it, its count becomes the stored count plus that one.
pub open spec fn add_one_statement(table: Seq<char>, columns: Seq<char>, params: Seq<char>, key: Seq<char>) -> Seq<char> {
    "INSERT INTO "@ + table + " ("@ + columns + ", amount) VALUES ("@ + params + ", 1) ON CONFLICT ("@ + key
        + ") DO UPDATE SET amount = "@ + table + ".amount + EXCLUDED.amount RETURNING *;"@
}

/// Every increment adds one to the count of its own key in its own table:
/// a new key enters with a count of one, an existing key's count goes up by
/// one, and no other key is touched; this holds for each statistic.
pub proof fn lemma_every_increment_adds_one<S>(u: StatUpsertOf<S>)
    ensures
        spec_statement(u) == add_one_statement(stat_table(u), stat_columns(u), stat_parameters(u), stat_key_columns(u)),
{
    reveal_strlit("INSERT INTO ");
    reveal_strlit(" (");
    reveal_strlit(", amount) VALUES (");
    reveal_strlit(", 1) ON CONFLICT (");
    reveal_strlit(") DO UPDATE SET amount = ");
    reveal_strlit(".amount + EXCLUDED.amount RETURNING *;");
    match u {
        StatUpsertOf::Username(_) => {
            reveal_strlit("INSERT INTO top_username (username, amount) VALUES ($1, 1) ON CONFLICT (username) DO UPDATE SET amount = top_username.amount + EXCLUDED.amount RETURNING *;");
            reveal_strlit("$1");
            reveal_strlit("top_username");
            reveal_strlit("username");
        },
        StatUpsertOf::Password(_) => {
            reveal_strlit("INSERT INTO top_password (password, amount) VALUES ($1, 1) ON CONFLICT (password) DO UPDATE SET amount = top_password.amount + EXCLUDED.amount RETURNING *;");
            reveal_strlit("$1");
            reveal_strlit("password");
            reveal_strlit("top_password");
        },
        StatUpsertOf::Ip(_) => {
            reveal_strlit("INSERT INTO top_ip (ip, amount) VALUES ($1, 1) ON CONFLICT (ip) DO UPDATE SET amount = top_ip.amount + EXCLUDED.amount RETURNING *;");
            reveal_strlit("$1");
            reveal_strlit("ip");
            reveal_strlit("top_ip");
        },
        StatUpsertOf::Protocol(_) => {
            reveal_strlit("INSERT INTO top_protocol (protocol, amount) VALUES ($1, 1) ON CONFLICT (protocol) DO UPDATE SET amount = top_protocol.amount + EXCLUDED.amount RETURNING *;");
            reveal_strlit("$1");
            reveal_strlit("protocol");
            reveal_strlit("top_protocol");
        },
        StatUpsertOf::City { .. } => {
            reveal_strlit("INSERT INTO top_city (city, country, amount) VALUES ($1, $2, 1) ON CONFLICT (city, country) DO UPDATE SET amount = top_city.amount + EXCLUDED.amount RETURNING *;");
            reveal_strlit("$1, $2");
            reveal_strlit("city, country");
            reveal_strlit("top_city");
        },
        StatUpsertOf::Region { .. } => {
            reveal_strlit("INSERT INTO top_region (region, country, amount) VALUES ($1, $2, 1) ON CONFLICT (region, country) DO UPDATE SET amount = top_region.amount + EXCLUDED.amount RETURNING *;");
            reveal_strlit("$1, $2");
            reveal_strlit("region, country");
            reveal_strlit("top_region");
        },
        StatUpsertOf::Country(_) => {
            reveal_strlit("INSERT INTO top_country (country, amount) VALUES ($1, 1) ON CONFLICT (country) DO UPDATE SET amount = top_country.amount + EXCLUDED.amount RETURNING *;");
            reveal_strlit("$1");
            reveal_strlit("country");
            reveal_strlit("top_country");
        },
        StatUpsertOf::Timezone(_) => {
            reveal_strlit("INSERT INTO top_timezone (timezone, amount) VALUES ($1, 1) ON CONFLICT (timezone) DO UPDATE SET amount = top_timezone.amount + EXCLUDED.amount RETURNING *;");
            reveal_strlit("$1");
            reveal_strlit("timezone");
            reveal_strlit("top_timezone");
        },
        StatUpsertOf::Org(_) => {
            reveal_strlit("INSERT INTO top_org (org, amount) VALUES ($1, 1) ON CONFLICT (org) DO UPDATE SET amount = top_org.amount + EXCLUDED.amount RETURNING *;");
            reveal_strlit("$1");
            reveal_strlit("org");
            reveal_strlit("top_org");
        },
        StatUpsertOf::Postal(_) => {
            reveal_strlit("INSERT INTO top_postal (postal, amount) VALUES ($1, 1) ON CONFLICT (postal) DO UPDATE SET amount = top_postal.amount + EXCLUDED.amount RETURNING *;");
            reveal_strlit("$1");
            reveal_strlit("postal");
            reveal_strlit("top_postal");
        },
        StatUpsertOf::Location(_) => {
            reveal_strlit("INSERT INTO top_loc (loc, amount) VALUES ($1, 1) ON CONFLICT (loc) DO UPDATE SET amount = top_loc.amount + EXCLUDED.amount RETURNING *;");
            reveal_strlit("$1");
            reveal_strlit("loc");
            reveal_strlit("top_loc");
        },
        StatUpsertOf::UsrPassCombo { .. } => {
            reveal_strlit("INSERT INTO top_usr_pass_combo (id, username, password, amount) VALUES ($1, $2, $3, 1) ON CONFLICT (username, password) DO UPDATE SET amount = top_usr_pass_combo.amount + EXCLUDED.amount RETURNING *;");
            reveal_strlit("$1, $2, $3");
            reveal_strlit("id, username, password");
            reveal_strlit("top_usr_pass_combo");
            reveal_strlit("username, password");
        },
    }
    assert(spec_statement(u) =~= add_one_statement(stat_table(u), stat_columns(u), stat_parameters(u), stat_key_columns(u)));
}

impl StatUpsertOf<String> {
    /// The statement that applies this increment.
    pub fn statement(&self) -> (q: &'static str)
        ensures
            q@ == spec_statement(self@),
    {
        match self {
            StatUpsertOf::Username(_) => "INSERT INTO top_username (username, amount) VALUES ($1, 1) ON CONFLICT (username) DO UPDATE SET amount = top_username.amount + EXCLUDED.amount RETURNING *;",
            StatUpsertOf::Password(_) => "INSERT INTO top_password (password, amount) VALUES ($1, 1) ON CONFLICT (password) DO UPDATE SET amount = top_password.amount + EXCLUDED.amount RETURNING *;",
            StatUpsertOf::Ip(_) => "INSERT INTO top_ip (ip, amount) VALUES ($1, 1) ON CONFLICT (ip) DO UPDATE SET amount = top_ip.amount + EXCLUDED.amount RETURNING *;",
            StatUpsertOf::Protocol(_) => "INSERT INTO top_protocol (protocol, amount) VALUES ($1, 1) ON CONFLICT (protocol) DO UPDATE SET amount = top_protocol.amount + EXCLUDED.amount RETURNING *;",
            StatUpsertOf::City { .. } => "INSERT INTO top_city (city, country, amount) VALUES ($1, $2, 1) ON CONFLICT (city, country) DO UPDATE SET amount = top_city.amount + EXCLUDED.amount RETURNING *;",
            StatUpsertOf::Region { .. } => "INSERT INTO top_region (region, country, amount) VALUES ($1, $2, 1) ON CONFLICT (region, country) DO UPDATE SET amount = top_region.amount + EXCLUDED.amount RETURNING *;",
            StatUpsertOf::Country(_) => "INSERT INTO top_country (country, amount) VALUES ($1, 1) ON CONFLICT (country) DO UPDATE SET amount = top_country.amount + EXCLUDED.amount RETURNING *;",
            StatUpsertOf::Timezone(_) => "INSERT INTO top_timezone (timezone, amount) VALUES ($1, 1) ON CONFLICT (timezone) DO UPDATE SET amount = top_timezone.amount + EXCLUDED.amount RETURNING *;",
            StatUpsertOf::Org(_) => "INSERT INTO top_org (org, amount) VALUES ($1, 1) ON CONFLICT (org) DO UPDATE SET amount = top_org.amount + EXCLUDED.amount RETURNING *;",
            StatUpsertOf::Postal(_) => "INSERT INTO top_postal (postal, amount) VALUES ($1, 1) ON CONFLICT (postal) DO UPDATE SET amount = top_postal.amount + EXCLUDED.amount RETURNING *;",
            StatUpsertOf::Location(_) => "INSERT INTO top_loc (loc, amount) VALUES ($1, 1) ON CONFLICT (loc) DO UPDATE SET amount = top_loc.amount + EXCLUDED.amount RETURNING *;",
            StatUpsertOf::UsrPassCombo { .. } => "INSERT INTO top_usr_pass_combo (id, username, password, amount) VALUES ($1, $2, $3, 1) ON CONFLICT (username, password) DO UPDATE SET amount = top_usr_pass_combo.amount + EXCLUDED.amount RETURNING *;",
        }
    }
}

/// The views of a list of increments.
pub open spec fn upserts_view(v: Seq<StatUpsert>) -> Seq<StatUpsertView> {
    v.map_values(|u: StatUpsert| u@)
}

/// The increments one report makes, in order: username, password, address,
/// protocol of the stored attempt; city, region, country, timezone,
/// organisation, postal code (only when one is known) and location of its
/// address details; and last the username/password pair, under the row
/// identifier `combo_id`.
pub open spec fn spec_stat_plan(
    a: IndividualView,
    p: ProcessedIndividualView,
    combo_id: Seq<char>,
) -> Seq<StatUpsertView> {
    let d = p.details;
    seq![
        StatUpsertOf::Username(a.username),
        StatUpsertOf::Password(a.password),
        StatUpsertOf::Ip(a.ip),
        StatUpsertOf::Protocol(a.protocol),
        StatUpsertOf::City { city: d.city, country: d.country },
        StatUpsertOf::Region { region: d.region, country: d.country },
        StatUpsertOf::Country(d.country),
        StatUpsertOf::Timezone(d.timezone),
        StatUpsertOf::Org(d.org),
    ] + match d.postal {
        Some(code) => seq![StatUpsertOf::Postal(code)],
        None => Seq::<StatUpsertView>::empty(),
    } + seq![
        StatUpsertOf::Location(d.loc),
        StatUpsertOf::UsrPassCombo { id: combo_id, username: a.username, password: a.password },
    ]
}

fn copy_opt(o: &Option<String>) -> (r: Option<String>)
    ensures
        text_view(r) == text_view(*o),
{
    match o {
        Some(s) => Some(s.clone()),
        None => None,
    }
}

/// Lists the increments that reporting attempt `a`, with address details `p`,
/// makes to the running statistics.
pub fn stat_plan(a: &Individual, p: &ProcessedIndividual, combo_id: String) -> (plan: Vec<StatUpsert>)
    ensures
        upserts_view(plan@) == spec_stat_plan(a@, p@, combo_id@),
{
    let d = &p.details;
    let mut plan: Vec<StatUpsert> = Vec::new();
    plan.push(StatUpsertOf::Username(a.username.clone()));
    plan.push(StatUpsertOf::Password(a.password.clone()));
    plan.push(StatUpsertOf::Ip(a.ip.clone()));
    plan.push(StatUpsertOf::Protocol(a.protocol.clone()));
    plan.push(StatUpsertOf::City { city: copy_opt(&d.city), country: copy_opt(&d.country) });
    plan.push(StatUpsertOf::Region { region: copy_opt(&d.region), country: copy_opt(&d.country) });
    plan.push(StatUpsertOf::Country(copy_opt(&d.country)));
    plan.push(StatUpsertOf::Timezone(copy_opt(&d.timezone)));
    plan.push(StatUpsertOf::Org(copy_opt(&d.org)));
    match &d.postal {
        Some(code) => plan.push(StatUpsertOf::Postal(code.clone())),
        None => {},
    }
    plan.push(StatUpsertOf::Location(copy_opt(&d.loc)));
    plan.push(
        StatUpsertOf::UsrPassCombo {
            id: combo_id,
            username: a.username.clone(),
            password: a.password.clone(),
        },
    );
    assert(upserts_view(plan@) =~= spec_stat_plan(a@, p@, combo_id@));
    plan
}

/// Each report counts every statistic exactly once, each with the stored
/// row's own value: the plan holds the four attempt statistics first (the
/// attempt's username, password, address and protocol), then the address
/// statistics, each the processed row's same-named column (city and region
/// together with the row's country), a postal code
/// increment exactly when the postal code is known, and last the
/// username/password pair under the drawn identifier.
pub proof fn lemma_plan_counts_each_once(a: IndividualView, p: ProcessedIndividualView, combo_id: Seq<char>)
    ensures
        ({
            let plan = spec_stat_plan(a, p, combo_id);
            &&& plan.len() == if p.details.postal is Some { 12nat } else { 11nat }
            &&& plan[0] == StatUpsertView::Username(a.username)
            &&& plan[1] == StatUpsertView::Password(a.password)
            &&& plan[2] == StatUpsertView::Ip(a.ip)
            &&& plan[3] == StatUpsertView::Protocol(a.protocol)
            &&& plan[plan.len() - 1] == (StatUpsertView::UsrPassCombo {
                id: combo_id,
                username: a.username,
                password: a.password,
            })
            &&& (exists|i: int| 0 <= i < plan.len() && #[trigger] plan[i] is Postal) <==> p.details.postal is Some
            &&& p.details.postal matches Some(code) ==> plan[9] == StatUpsertView::Postal(code)
            &&& plan[4] == (StatUpsertView::City { city: p.details.city, country: p.details.country })
            &&& plan[5] == (StatUpsertView::Region { region: p.details.region, country: p.details.country })
            &&& plan[6] == StatUpsertView::Country(p.details.country)
            &&& plan[7] == StatUpsertView::Timezone(p.details.timezone)
            &&& plan[8] == StatUpsertView::Org(p.details.org)
            &&& plan[plan.len() - 2] == StatUpsertView::Location(p.details.loc)
        }),
{
    let plan = spec_stat_plan(a, p, combo_id);
    if p.details.postal is Some {
        assert(plan[9] is Postal);
    } else {
        assert forall|i: int| 0 <= i < plan.len() implies !(#[trigger] plan[i] is Postal) by {}
    }
}
} // verus!
