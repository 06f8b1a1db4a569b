//! The start page: an inventory of the tenant and its health at a glance. Every
//! number leads to the list it counts.

use crate::audit::{AuditItem, CredentialStatus, IssueMarkers, RiskLevel};
use crate::audit_view::filter::{has_finding, in_severity, the_dimensions_share_no_key};
use crate::audit_view::posture::{
    counts, counts_agree_with_findings, posture_counts, PostureCounts,
};
use crate::lists::enterprise_application_list::{
    facet_of, passes, EnterpriseApplicationList, EnterpriseApplicationRow, EnterpriseFacet,
    LoadedEnterpriseApps,
};
use crate::rows::{count_rows, tally, RowTest};
use crate::session::{is_text, UiError};
use crate::text::blank;
use vstd::prelude::*;
use vstd::string::*;

verus! {

/// A number with its caption. Where `facet` is set it is a link, with a title,
/// to the list under that facet.
#[derive(Debug)]
pub struct Metric {
    pub n: usize,
    pub label: &'static str,
    pub class: String,
    pub title: Option<String>,
    pub facet: Option<&'static str>,
}

/// The class of a number: a zero is muted.
pub open spec fn number_class(n: nat, tone: Seq<char>) -> Seq<char> {
    if n == 0 {
        "dash-metric__num"@
    } else {
        "dash-metric__num dash-metric__num--"@ + tone
    }
}

impl Metric {
    /// A number that leads nowhere.
    pub open spec fn shows(self, n: nat, label: Seq<char>, tone: Seq<char>) -> bool {
        &&& self.n == n
        &&& self.label@ == label
        &&& self.class@ == number_class(n, tone)
        &&& self.title is None
        &&& self.facet is None
    }

    /// A number that leads to the list under `facet`; a zero leads nowhere.
    pub open spec fn links(
        self,
        n: nat,
        label: Seq<char>,
        tone: Seq<char>,
        facet: Seq<char>,
    ) -> bool {
        &&& self.n == n
        &&& self.label@ == label
        &&& self.class@ == number_class(n, tone)
        &&& if n == 0 {
            self.title is None && self.facet is None
        } else {
            is_text(self.title, "Show "@ + label) && self.facet is Some && self.facet->0@ == facet
        }
    }
}

fn class_of(n: usize, tone: &str) -> (r: String)
    ensures
        r@ == number_class(n as nat, tone@),
{
    if n == 0 {
        "dash-metric__num".to_owned()
    } else {
        let mut s = "dash-metric__num dash-metric__num--".to_owned();
        s.append(tone);
        s
    }
}

/// A number that leads nowhere.
pub fn metric(n: usize, label: &'static str, tone: &'static str) -> (r: Metric)
    ensures
        r.shows(n as nat, label@, tone@),
        r.n == n && r.label@ == label@ && r.title is None && r.facet is None,
        n == 0 ==> r.class@ == "dash-metric__num"@,
        n > 0 ==> r.class@ == "dash-metric__num dash-metric__num--"@ + tone@,
{
    Metric { n, label, class: class_of(n, tone), title: None, facet: None }
}

/// A number that leads to the list under `facet`; a zero leads nowhere, for
/// there is nothing to see.
pub fn metric_link(
    n: usize,
    label: &'static str,
    tone: &'static str,
    facet: &'static str,
) -> (r: Metric)
    ensures
        r.links(n as nat, label@, tone@, facet@),
        r.n == n && r.label@ == label@,
        n == 0 ==> r.class@ == "dash-metric__num"@ && r.title is None && r.facet is None,
        n > 0 ==> r.class@ == "dash-metric__num dash-metric__num--"@ + tone@ && r.title is Some
            && r.title->0@ == "Show "@ + label@ && r.facet is Some && r.facet->0@ == facet@,
{
    if n == 0 {
        return Metric { n, label, class: class_of(n, tone), title: None, facet: None };
    }
    let mut title = "Show ".to_owned();
    title.append(label);
    Metric { n, label, class: class_of(n, tone), title: Some(title), facet: Some(facet) }
}

/// What a card shows of the outcome of its load.
#[derive(Clone, Copy, Debug, PartialEq, Eq, Structural)]
pub enum CardState {
    Loaded,
    /// The load failed: the card says why, and offers another try.
    Failed,
    /// There is no tenant to load from.
    NoTenant,
}

/// What a card shows of the outcome of its load; there is none without a tenant.
pub fn card_state<T>(outcome: &Option<Result<T, UiError>>) -> (r: CardState)
    ensures
        r == match *outcome {
            Some(Ok(_)) => CardState::Loaded,
            Some(Err(_)) => CardState::Failed,
            None => CardState::NoTenant,
        },
{
    match outcome {
        Some(Ok(_)) => CardState::Loaded,
        Some(Err(_)) => CardState::Failed,
        None => CardState::NoTenant,
    }
}

/// An app registration, as the inventory counts it.
#[derive(Clone, Copy, Debug, PartialEq, Eq, Structural)]
pub struct AppInventory {
    pub password_credential_count: u64,
    pub key_credential_count: u64,
}

/// Who manages a managed identity.
#[derive(Clone, Copy, Debug, PartialEq, Eq, Structural)]
pub enum MiSubtype {
    SystemAssigned,
    UserAssigned,
    Unknown,
}

/// A credential, as its expiry is counted.
#[derive(Clone, Copy, Debug, PartialEq, Eq, Structural)]
pub struct CredentialExpiry {
    pub status: CredentialStatus,
    pub days_to_expiry: Option<i64>,
}

/// It ends within `days` days from now, and has not ended yet.
pub open spec fn ends_within(c: CredentialExpiry, days: int) -> bool {
    c.days_to_expiry matches Some(d) && 0 <= d <= days
}

struct HasSecrets;

impl RowTest<AppInventory> for HasSecrets {
    closed spec fn holds(&self, row: AppInventory) -> bool {
        row.password_credential_count > 0
    }

    fn test(&self, row: &AppInventory) -> (r: bool) {
        row.password_credential_count > 0
    }
}

struct HasCerts;

impl RowTest<AppInventory> for HasCerts {
    closed spec fn holds(&self, row: AppInventory) -> bool {
        row.key_credential_count > 0
    }

    fn test(&self, row: &AppInventory) -> (r: bool) {
        row.key_credential_count > 0
    }
}

struct SignInOff;

impl RowTest<EnterpriseApplicationRow> for SignInOff {
    closed spec fn holds(&self, row: EnterpriseApplicationRow) -> bool {
        row.account_enabled == Some(false)
    }

    fn test(&self, row: &EnterpriseApplicationRow) -> (r: bool) {
        match row.account_enabled {
            Some(b) => !b,
            None => false,
        }
    }
}

struct FromElsewhere;

impl RowTest<EnterpriseApplicationRow> for FromElsewhere {
    closed spec fn holds(&self, row: EnterpriseApplicationRow) -> bool {
        row.is_foreign_tenant
    }

    fn test(&self, row: &EnterpriseApplicationRow) -> (r: bool) {
        row.is_foreign_tenant
    }
}

struct OfSubtype {
    subtype: MiSubtype,
}

impl RowTest<MiSubtype> for OfSubtype {
    closed spec fn holds(&self, row: MiSubtype) -> bool {
        row == self.subtype
    }

    fn test(&self, row: &MiSubtype) -> (r: bool) {
        *row == self.subtype
    }
}

struct Ended;

impl RowTest<CredentialExpiry> for Ended {
    closed spec fn holds(&self, row: CredentialExpiry) -> bool {
        row.status is Expired
    }

    fn test(&self, row: &CredentialExpiry) -> (r: bool) {
        matches!(row.status, CredentialStatus::Expired)
    }
}

struct EndsWithin {
    days: i64,
}

impl RowTest<CredentialExpiry> for EndsWithin {
    closed spec fn holds(&self, row: CredentialExpiry) -> bool {
        ends_within(row, self.days as int)
    }

    fn test(&self, row: &CredentialExpiry) -> (r: bool) {
        match row.days_to_expiry {
            Some(d) => 0 <= d && d <= self.days,
            None => false,
        }
    }
}

/// The start page.
#[derive(Debug)]
pub struct HomeDashboard {}

impl HomeDashboard {
    /// The card of the app registrations: how many there are, and how many of
    /// them have secrets or certificates.
    pub fn apps_card(rows: &[AppInventory]) -> (r: (usize, Metric, Metric))
        ensures
            r.0 == rows@.len(),
            r.1.shows(
                tally(rows@, |a: AppInventory| a.password_credential_count > 0),
                "With secrets"@,
                "warning"@,
            ),
            r.2.shows(
                tally(rows@, |a: AppInventory| a.key_credential_count > 0),
                "With certs"@,
                "warning"@,
            ),
    {
        proof {
            assert((|a: AppInventory| HasSecrets.holds(a)) =~= (|a: AppInventory|
                a.password_credential_count > 0));
            assert((|a: AppInventory| HasCerts.holds(a)) =~= (|a: AppInventory|
                a.key_credential_count > 0));
        }
        (
            rows.len(),
            metric(count_rows(rows, &HasSecrets), "With secrets", "warning"),
            metric(count_rows(rows, &HasCerts), "With certs", "warning"),
        )
    }

    /// The card of the enterprise applications: how many there are, and how many
    /// of them are disabled or come from another tenant.
    pub fn enterprise_card(items: &[EnterpriseApplicationRow]) -> (r: (usize, Metric, Metric))
        ensures
            r.0 == items@.len(),
            r.1.links(
                tally(items@, |i: EnterpriseApplicationRow| i.account_enabled == Some(false)),
                "Disabled"@,
                "warning"@,
                "disabled"@,
            ),
            r.2.links(
                tally(items@, |i: EnterpriseApplicationRow| i.is_foreign_tenant),
                "Foreign tenant"@,
                "warning"@,
                "foreign"@,
            ),
    {
        proof {
            assert((|i: EnterpriseApplicationRow| SignInOff.holds(i)) =~= (|
                i: EnterpriseApplicationRow,
            | i.account_enabled == Some(false)));
            assert((|i: EnterpriseApplicationRow| FromElsewhere.holds(i)) =~= (|
                i: EnterpriseApplicationRow,
            | i.is_foreign_tenant));
        }
        (
            items.len(),
            metric_link(count_rows(items, &SignInOff), "Disabled", "warning", "disabled"),
            metric_link(count_rows(items, &FromElsewhere), "Foreign tenant", "warning", "foreign"),
        )
    }

    /// The card of the managed identities: how many there are, and how many of
    /// either kind.
    pub fn managed_card(items: &[MiSubtype]) -> (r: (usize, Metric, Metric))
        ensures
            r.0 == items@.len(),
            r.1.links(
                tally(items@, |i: MiSubtype| i is SystemAssigned),
                "System-assigned"@,
                "neutral"@,
                "system"@,
            ),
            r.2.links(
                tally(items@, |i: MiSubtype| i is UserAssigned),
                "User-assigned"@,
                "neutral"@,
                "user"@,
            ),
    {
        let system = OfSubtype { subtype: MiSubtype::SystemAssigned };
        let user = OfSubtype { subtype: MiSubtype::UserAssigned };
        proof {
            assert((|i: MiSubtype| system.holds(i)) =~= (|i: MiSubtype| i is SystemAssigned));
            assert((|i: MiSubtype| user.holds(i)) =~= (|i: MiSubtype| i is UserAssigned));
        }
        (
            items.len(),
            metric_link(count_rows(items, &system), "System-assigned", "neutral", "system"),
            metric_link(count_rows(items, &user), "User-assigned", "neutral", "user"),
        )
    }

    /// The card of the credentials: how many have ended, and how many end within
    /// a week or a month.
    pub fn credentials_card(rows: &[CredentialExpiry]) -> (r: (Metric, Metric, Metric))
        ensures
            r.0.links(
                tally(rows@, |c: CredentialExpiry| c.status is Expired),
                "Expired"@,
                "danger"@,
                "expired"@,
            ),
            r.1.links(
                tally(rows@, |c: CredentialExpiry| ends_within(c, 7)),
                "≤ 7 days"@,
                "danger"@,
                "7"@,
            ),
            r.2.links(
                tally(rows@, |c: CredentialExpiry| ends_within(c, 30)),
                "≤ 30 days"@,
                "warning"@,
                "30"@,
            ),
            r.1.n == tally(
                rows@,
                |c: CredentialExpiry| c.days_to_expiry matches Some(d) && 0 <= d <= 7,
            ),
            r.2.n == tally(
                rows@,
                |c: CredentialExpiry| c.days_to_expiry matches Some(d) && 0 <= d <= 30,
            ),
    {
        let week = EndsWithin { days: 7 };
        let month = EndsWithin { days: 30 };
        proof {
            assert((|c: CredentialExpiry| Ended.holds(c)) =~= (|c: CredentialExpiry|
                c.status is Expired));
            assert((|c: CredentialExpiry| week.holds(c)) =~= (|c: CredentialExpiry|
                ends_within(c, 7)));
            assert((|c: CredentialExpiry| month.holds(c)) =~= (|c: CredentialExpiry|
                ends_within(c, 30)));
            assert((|c: CredentialExpiry| week.holds(c)) =~= (|c: CredentialExpiry|
                c.days_to_expiry matches Some(d) && 0 <= d <= 7));
            assert((|c: CredentialExpiry| month.holds(c)) =~= (|c: CredentialExpiry|
                c.days_to_expiry matches Some(d) && 0 <= d <= 30));
        }
        (
            metric_link(count_rows(rows, &Ended), "Expired", "danger", "expired"),
            metric_link(count_rows(rows, &week), "≤ 7 days", "danger", "7"),
            metric_link(count_rows(rows, &month), "≤ 30 days", "warning", "30"),
        )
    }

    /// The card of the security audit: the numbers of the last run, and nothing
    /// before there was one.
    pub fn posture_card(m: &IssueMarkers, cached: &Option<Vec<AuditItem>>) -> (r: Option<
        Vec<Metric>,
    >)
        ensures
            r is Some <==> cached is Some,
            cached matches Some(items) ==> exists|c: PostureCounts| #[trigger]
                counts(*m, items@, c) && are_posture_metrics(c, r->0@),
    {
        match cached {
            None => None,
            Some(items) => {
                let c = posture_counts(m, items.as_slice());
                let r = HomeDashboard::posture_metrics(&c);
                proof {
                    assert(counts(*m, items@, c) && are_posture_metrics(c, r@));
                }
                Some(r)
            },
        }
    }

    /// The metrics of the audit card, each with the facet that it opens.
    pub fn posture_metrics(c: &PostureCounts) -> (r: Vec<Metric>)
        ensures
            are_posture_metrics(*c, r@),
    {
        vec![
            metric_link(c.critical, "Critical", "danger", "critical"),
            metric_link(c.high, "High", "danger", "high"),
            metric_link(c.medium, "Medium", "warning", "medium"),
            metric_link(c.expired, "Expired", "warning", "expired"),
            metric_link(c.over_privileged, "Over-privileged", "danger", "high_risk_perms"),
            metric_link(c.orgwide_mailbox, "Org-wide mailbox", "warning", "orgwide_mailbox"),
            metric_link(
                c.orgwide_sharepoint,
                "Org-wide SharePoint",
                "warning",
                "orgwide_sharepoint",
            ),
            metric_link(c.unowned, "Unowned", "warning", "ownership"),
            metric_link(c.unused, "Unused", "warning", "unused"),
        ]
    }
}

/// The metrics of the audit card, in order.
pub open spec fn are_posture_metrics(c: PostureCounts, r: Seq<Metric>) -> bool {
    &&& r.len() == 9
    &&& r[0].links(c.critical as nat, "Critical"@, "danger"@, "critical"@)
    &&& r[1].links(c.high as nat, "High"@, "danger"@, "high"@)
    &&& r[2].links(c.medium as nat, "Medium"@, "warning"@, "medium"@)
    &&& r[3].links(c.expired as nat, "Expired"@, "warning"@, "expired"@)
    &&& r[4].links(c.over_privileged as nat, "Over-privileged"@, "danger"@, "high_risk_perms"@)
    &&& r[5].links(c.orgwide_mailbox as nat, "Org-wide mailbox"@, "warning"@, "orgwide_mailbox"@)
    &&& r[6].links(
        c.orgwide_sharepoint as nat,
        "Org-wide SharePoint"@,
        "warning"@,
        "orgwide_sharepoint"@,
    )
    &&& r[7].links(c.unowned as nat, "Unowned"@, "warning"@, "ownership"@)
    &&& r[8].links(c.unused as nat, "Unused"@, "warning"@, "unused"@)
}

/// The metrics of the audit card count what the audit view counts: whatever its
/// strip shows for the same run, the numbers are the same.
pub proof fn the_card_agrees_with_the_audit_view(
    m: IssueMarkers,
    items: Seq<AuditItem>,
    strip: PostureCounts,
    c: PostureCounts,
    card: Seq<Metric>,
)
    requires
        counts(m, items, strip),
        counts(m, items, c),
        are_posture_metrics(c, card),
    ensures
        are_posture_metrics(strip, card),
{
}

/// A number of the audit card counts the items that its link opens on: those in
/// the risk bucket, or with the finding, that the facet names.
pub proof fn a_posture_number_counts_its_facet(
    m: IssueMarkers,
    items: Seq<AuditItem>,
    c: PostureCounts,
    card: Seq<Metric>,
    k: int,
)
    requires
        counts(m, items, c),
        are_posture_metrics(c, card),
        0 <= k < card.len(),
        card[k].facet is Some,
    ensures
        card[k].n == tally(
            items,
            |i: AuditItem|
                in_severity(i, card[k].facet->0@) && has_finding(m, i, card[k].facet->0@),
        ),
{
    counts_agree_with_findings(m, items, c);
    reveal_strlit("critical");
    assert("critical"@.len() == 8);
    reveal_strlit("high");
    assert("high"@.len() == 4);
    reveal_strlit("medium");
    assert("medium"@.len() == 6);
    let key = card[k].facet->0@;
    let p = |i: AuditItem| in_severity(i, key) && has_finding(m, i, key);
    let q = if k == 0 {
        |i: AuditItem| i.risk_level == RiskLevel::Critical
    } else if k == 1 {
        |i: AuditItem| i.risk_level == RiskLevel::High
    } else if k == 2 {
        |i: AuditItem| i.risk_level == RiskLevel::Medium
    } else {
        |i: AuditItem| has_finding(m, i, key)
    };
    assert forall|i: AuditItem| #[trigger] p(i) == q(i) by {
        the_dimensions_share_no_key(m, i);
    }
    assert(p =~= q);
}

/// A link of the enterprise card leads to a list of as many rows as the number
/// says.
pub proof fn a_link_keeps_its_word(
    items: Seq<EnterpriseApplicationRow>,
    list: EnterpriseApplicationList,
    search: Seq<char>,
    key: Seq<char>,
    l: LoadedEnterpriseApps,
)
    requires
        items.len() <= usize::MAX,
        search.len() == 0,
        list.created_after is None,
        list.created_before is None,
        l.describes(items, list, search, key),
    ensures
        key == "disabled"@ ==> l.shown@.len() == tally(
            items,
            |i: EnterpriseApplicationRow| i.account_enabled == Some(false),
        ),
        key == "foreign"@ ==> l.shown@.len() == tally(
            items,
            |i: EnterpriseApplicationRow| i.is_foreign_tenant,
        ),
{
    assert(blank(search));
    reveal_strlit("enabled");
    reveal_strlit("disabled");
    reveal_strlit("foreign");
    assert("enabled"@.len() == 7);
    assert("disabled"@.len() == 8);
    assert("foreign"@.len() == 7);
    assert("foreign"@[0] == 'f');
    assert("enabled"@[0] == 'e');
    let p = |r: EnterpriseApplicationRow|
        passes(r, search, facet_of(key), list.created_after, list.created_before);
    crate::rows::selection_size(items, p, l.shown@);
    if key == "disabled"@ {
        assert(facet_of(key) == Some(EnterpriseFacet::Disabled));
        assert(p =~= (|i: EnterpriseApplicationRow| i.account_enabled == Some(false)));
    }
    if key == "foreign"@ {
        assert(facet_of(key) == Some(EnterpriseFacet::Foreign));
        assert(p =~= (|i: EnterpriseApplicationRow| i.is_foreign_tenant));
    }
}

/// The numbers of the audit card stand in this order, under these captions, and lead
/// to these facets; a number leads nowhere exactly if it is zero.
pub proof fn each_posture_number_has_its_caption(c: PostureCounts, r: Seq<Metric>, k: int)
    requires
        are_posture_metrics(c, r),
        0 <= k < 9,
    ensures
        r.len() == 9,
        r[0].n == c.critical && r[0].label@ == "Critical"@ && (r[0].facet matches Some(f) ==> f@
            == "critical"@) && (c.critical > 0 ==> r[0].class@
            == "dash-metric__num dash-metric__num--"@
            + "danger"@),
        r[1].n == c.high && r[1].label@ == "High"@ && (r[1].facet matches Some(f) ==> f@
            == "high"@) && (c.high > 0 ==> r[1].class@ == "dash-metric__num dash-metric__num--"@
            + "danger"@),
        r[2].n == c.medium && r[2].label@ == "Medium"@ && (r[2].facet matches Some(f) ==> f@
            == "medium"@) && (c.medium > 0 ==> r[2].class@ == "dash-metric__num dash-metric__num--"@
            + "warning"@),
        r[3].n == c.expired && r[3].label@ == "Expired"@ && (r[3].facet matches Some(f) ==> f@
            == "expired"@) && (c.expired > 0 ==> r[3].class@ == "dash-metric__num dash-metric__num--"@
            + "warning"@),
        r[4].n == c.over_privileged && r[4].label@ == "Over-privileged"@
            && (r[4].facet matches Some(f) ==> f@
            == "high_risk_perms"@) && (c.over_privileged > 0 ==> r[4].class@
            == "dash-metric__num dash-metric__num--"@
            + "danger"@),
        r[5].n == c.orgwide_mailbox && r[5].label@ == "Org-wide mailbox"@
            && (r[5].facet matches Some(f) ==> f@
            == "orgwide_mailbox"@) && (c.orgwide_mailbox > 0 ==> r[5].class@
            == "dash-metric__num dash-metric__num--"@
            + "warning"@),
        r[6].n == c.orgwide_sharepoint && r[6].label@ == "Org-wide SharePoint"@
            && (r[6].facet matches Some(f) ==> f@
            == "orgwide_sharepoint"@) && (c.orgwide_sharepoint > 0 ==> r[6].class@
            == "dash-metric__num dash-metric__num--"@
            + "warning"@),
        r[7].n == c.unowned && r[7].label@ == "Unowned"@ && (r[7].facet matches Some(f) ==> f@
            == "ownership"@) && (c.unowned > 0 ==> r[7].class@
            == "dash-metric__num dash-metric__num--"@
            + "warning"@),
        r[8].n == c.unused && r[8].label@ == "Unused"@ && (r[8].facet matches Some(f) ==> f@
            == "unused"@) && (c.unused > 0 ==> r[8].class@ == "dash-metric__num dash-metric__num--"@
            + "warning"@),
        r[k].facet is None <==> r[k].n == 0,
        r[k].title is None <==> r[k].n == 0,
        r[k].n == 0 ==> r[k].class@ == "dash-metric__num"@,
{
}

/// A number of a card is shown as it is, muted at zero and otherwise in its colour.
/// One that links leads to its facet, and is titled by what it shows, exactly if it
/// is above zero; one that only shows leads nowhere.
pub proof fn a_number_is_shown_as_it_is(
    m: Metric,
    n: nat,
    label: Seq<char>,
    tone: Seq<char>,
    facet: Seq<char>,
)
    ensures
        m.shows(n, label, tone) || m.links(n, label, tone, facet) ==> m.n == n && m.label@ == label
            && (n == 0 ==> m.class@ == "dash-metric__num"@) && (n > 0 ==> m.class@
            == "dash-metric__num dash-metric__num--"@ + tone),
        m.shows(n, label, tone) ==> m.title is None && m.facet is None,
        m.links(n, label, tone, facet) && n == 0 ==> m.title is None && m.facet is None,
        m.links(n, label, tone, facet) && n > 0 ==> m.title is Some && m.title->0@ == "Show "@
            + label && m.facet is Some && m.facet->0@ == facet,
{
}

} // verus!
