//! Who has access to an enterprise application, and which groups its service
//! principal belongs to.

use crate::enterprise::app_roles::AppRole;
use crate::rows::{positions, selects, RowTest};
use crate::session::{
    error_line, error_text, holds_text, is_consent_error, is_text, needs_consent, UiError,
};
use crate::text::{any_same, characters, same, texts};
use vstd::prelude::*;
use vstd::string::*;

verus! {

/// What a group is, before membership is considered.
pub open spec fn group_base(security_enabled: Option<bool>, group_types: Seq<Seq<char>>) -> Seq<
    char,
> {
    if group_types.contains("Unified"@) {
        "Microsoft 365"@
    } else if security_enabled == Some(true) {
        "Security"@
    } else {
        "Distribution"@
    }
}

/// The label of a group row; groups whose members follow a rule are flagged.
pub open spec fn group_label(security_enabled: Option<bool>, group_types: Seq<Seq<char>>) -> Seq<
    char,
> {
    if group_types.contains("DynamicMembership"@) {
        group_base(security_enabled, group_types) + " · Dynamic"@
    } else {
        group_base(security_enabled, group_types)
    }
}

/// The label of a group row. `Unified` is a Microsoft 365 group; otherwise
/// `security_enabled` tells security groups from distribution groups. Direct
/// member changes are rejected on groups with dynamic membership, so the label
/// says so.
pub fn group_type_label(security_enabled: Option<bool>, group_types: &Vec<String>) -> (r: String)
    ensures
        r@ == group_label(security_enabled, texts(group_types@)),
        ({
            let unified = texts(group_types@).contains("Unified"@);
            let dynamic = texts(group_types@).contains("DynamicMembership"@);
            let security = security_enabled == Some(true);
            &&& unified && !dynamic ==> r@ == "Microsoft 365"@
            &&& unified && dynamic ==> r@ == "Microsoft 365"@ + " · Dynamic"@
            &&& !unified && security && !dynamic ==> r@ == "Security"@
            &&& !unified && security && dynamic ==> r@ == "Security"@ + " · Dynamic"@
            &&& !unified && !security && !dynamic ==> r@ == "Distribution"@
            &&& !unified && !security && dynamic ==> r@ == "Distribution"@ + " · Dynamic"@
        }),
{
    let base = if any_same(group_types, "Unified") {
        "Microsoft 365"
    } else {
        match security_enabled {
            Some(true) => "Security",
            _ => "Distribution",
        }
    };
    let mut s = base.to_owned();
    if any_same(group_types, "DynamicMembership") {
        s.append(" · Dynamic");
    }
    s
}

/// Whether members of the group can be changed here: not where they follow a
/// rule.
pub fn can_leave(group_types: &Vec<String>) -> (r: bool)
    ensures
        r == !texts(group_types@).contains("DynamicMembership"@),
{
    !any_same(group_types, "DynamicMembership")
}

/// The id that stands for access without a role.
pub fn default_access_role() -> (r: &'static str)
    ensures
        r@ == "00000000-0000-0000-0000-000000000000"@,
{
    "00000000-0000-0000-0000-000000000000"
}

/// The id of access without a role: zeros and hyphens.
pub open spec fn no_role(id: Seq<char>) -> bool {
    forall|k: int| 0 <= k < id.len() ==> id[k] == '0' || id[k] == '-'
}

/// The name of a role: its value where it has no display name.
pub open spec fn role_label(role: AppRole) -> Seq<char> {
    if role.display_name@.len() == 0 {
        role.value@
    } else {
        role.display_name@
    }
}

/// The first role with the id.
pub open spec fn role_with_id(roles: Seq<AppRole>, id: Seq<char>) -> Option<AppRole>
    decreases roles.len(),
{
    if roles.len() == 0 {
        None
    } else if roles[0].id@ == id {
        Some(roles[0])
    } else {
        role_with_id(roles.drop_first(), id)
    }
}

/// The name of the role with the id; the id itself where there is no such role.
pub open spec fn role_name(roles: Seq<AppRole>, id: Seq<char>) -> Seq<char> {
    if no_role(id) {
        "Default access"@
    } else {
        match role_with_id(roles, id) {
            Some(r) => role_label(r),
            None => id,
        }
    }
}

/// The name of a role.
pub fn role_text(role: &AppRole) -> (r: String)
    ensures
        r@ == role_label(*role),
        role.display_name@.len() == 0 ==> r@ == role.value@,
        role.display_name@.len() > 0 ==> r@ == role.display_name@,
{
    if role.display_name.as_str().is_empty() {
        role.value.clone()
    } else {
        role.display_name.clone()
    }
}

fn is_no_role(id: &str) -> (r: bool)
    ensures
        r == no_role(id@),
{
    let cs = characters(id);
    for k in 0..cs.len()
        invariant
            cs@ == id@,
            forall|j: int| 0 <= j < k ==> id@[j] == '0' || id@[j] == '-',
    {
        if cs[k] != '0' && cs[k] != '-' {
            assert(id@[k as int] == cs@[k as int]);
            return false;
        }
    }
    true
}

/// The name of the role of an assignment.
pub fn resolve_role(roles: &Vec<AppRole>, id: &str) -> (r: String)
    ensures
        r@ == role_name(roles@, id@),
{
    if is_no_role(id) {
        return "Default access".to_owned();
    }
    proof {
        assert(roles@.skip(0) =~= roles@);
    }
    for k in 0..roles.len()
        invariant
            !no_role(id@),
            role_with_id(roles@, id@) == role_with_id(roles@.skip(k as int), id@),
    {
        proof {
            assert(roles@.skip(k as int)[0] == roles@[k as int]);
            assert(roles@.skip(k as int).drop_first() =~= roles@.skip(k + 1));
        }
        if same(roles[k].id.as_str(), id) {
            return role_text(&roles[k]);
        }
    }
    id.to_owned()
}

struct Enabled {}

impl RowTest<AppRole> for Enabled {
    closed spec fn holds(&self, row: AppRole) -> bool {
        row.enabled()
    }

    fn test(&self, row: &AppRole) -> (r: bool) {
        row.is_on()
    }
}

/// The roles that can be picked, in order: the enabled ones.
pub fn role_options(roles: &Vec<AppRole>) -> (r: Vec<usize>)
    ensures
        selects(roles@, |x: AppRole| x.enabled(), r@),
{
    let t = Enabled {  };
    let r = positions(roles.as_slice(), &t);
    proof {
        assert((|x: AppRole| t.holds(x)) =~= (|x: AppRole| x.enabled()));
    }
    r
}

/// Access to grant.
#[derive(Debug)]
pub struct Assignment {
    pub principal_id: String,
    pub role: String,
}

/// The tab.
#[derive(Debug)]
pub struct AccessContent {
    /// The principal or the assignment that is being worked on.
    pub busy: Option<String>,
    pub error: Option<String>,
    pub selected_role: String,
    pub raw_query: String,
    pub pending_remove: Option<String>,
    pub pending_assign: Option<String>,
    pub principal_kind: String,
}

impl AccessContent {
    /// Nothing under way; users are searched, and default access is granted.
    pub fn new() -> (r: AccessContent)
        ensures
            r.busy is None,
            r.error is None,
            no_role(r.selected_role@),
            r.selected_role@ == "00000000-0000-0000-0000-000000000000"@,
            r.raw_query@.len() == 0,
            r.pending_remove is None,
            r.pending_assign is None,
            r.principal_kind@ == "users"@,
    {
        proof {
            reveal_strlit("00000000-0000-0000-0000-000000000000");
        }
        AccessContent {
            busy: None,
            error: None,
            selected_role: default_access_role().to_owned(),
            raw_query: String::new(),
            pending_remove: None,
            pending_assign: None,
            principal_kind: "users".to_owned(),
        }
    }

    /// What is searched for is chosen. A change empties the query; the same
    /// choice again does not.
    pub fn set_kind(&mut self, kind: &str)
        ensures
            final(self).principal_kind@ == kind@,
            old(self).principal_kind@ == kind@ ==> final(self).raw_query == old(self).raw_query,
            old(self).principal_kind@ != kind@ ==> final(self).raw_query@.len() == 0,
            *final(self) == (AccessContent {
                principal_kind: final(self).principal_kind,
                raw_query: final(self).raw_query,
                ..*old(self)
            }),
    {
        if !same(self.principal_kind.as_str(), kind) {
            self.raw_query = String::new();
        }
        self.principal_kind = kind.to_owned();
    }

    /// Whether groups are searched; otherwise users are.
    pub fn searches_groups(&self) -> (r: bool)
        ensures
            r == (self.principal_kind@ == "groups"@),
    {
        same(self.principal_kind.as_str(), "groups")
    }

    /// Whether the button of a row is off: that row is being worked on.
    pub fn row_busy(&self, id: &str) -> (r: bool)
        ensures
            r == is_text(self.busy, id@),
    {
        holds_text(&self.busy, id)
    }

    /// What a confirmed question leaves behind where nothing is sent: the
    /// question is gone, and so is the last error unless something is under way.
    pub open spec fn unsent(self) -> AccessContent {
        AccessContent {
            error: if self.busy is Some {
                self.error
            } else {
                None
            },
            ..self
        }
    }

    /// "Grant" is confirmed: what to grant. The question is gone in any case.
    pub fn confirm_assign(&mut self, tenant: &Option<String>) -> (r: Option<Assignment>)
        ensures
            r is Some <==> old(self).pending_assign is Some && old(self).busy is None
                && tenant is Some,
            r matches Some(a) ==> Some(a.principal_id) == old(self).pending_assign && a.role
                == old(self).selected_role && *final(self) == (AccessContent {
                pending_assign: None,
                busy: old(self).pending_assign,
                error: None,
                ..*old(self)
            }),
            r is None ==> *final(self) == if old(self).pending_assign is Some {
                (AccessContent { pending_assign: None, ..*old(self) }).unsent()
            } else {
                *old(self)
            },
            final(self).pending_assign is None,
            final(self).pending_remove == old(self).pending_remove,
            r is None ==> final(self).busy == old(self).busy,
            r is None ==> final(self).error == if old(self).pending_assign is Some && old(
                self).busy is None {
                None
            } else {
                old(self).error
            },
    {
        let asked = self.pending_assign.take();
        match asked {
            None => None,
            Some(id) => {
                if self.busy.is_some() {
                    return None;
                }
                self.error = None;
                if tenant.is_none() {
                    return None;
                }
                self.busy = Some(id.clone());
                Some(Assignment { principal_id: id, role: self.selected_role.clone() })
            },
        }
    }

    /// "Remove" is confirmed: the assignment to remove. The question is gone in
    /// any case.
    pub fn confirm_remove(&mut self, tenant: &Option<String>) -> (r: Option<String>)
        ensures
            r == if old(self).busy is None && tenant is Some {
                old(self).pending_remove
            } else {
                None
            },
            r is Some ==> *final(self) == (AccessContent {
                pending_remove: None,
                busy: r,
                error: None,
                ..*old(self)
            }),
            r is None ==> *final(self) == if old(self).pending_remove is Some {
                (AccessContent { pending_remove: None, ..*old(self) }).unsent()
            } else {
                *old(self)
            },
            final(self).pending_remove is None,
            final(self).pending_assign == old(self).pending_assign,
            r is None ==> final(self).busy == old(self).busy,
            r is None ==> final(self).error == if old(self).pending_remove is Some && old(
                self).busy is None {
                None
            } else {
                old(self).error
            },
    {
        let asked = self.pending_remove.take();
        match asked {
            None => None,
            Some(id) => {
                if self.busy.is_some() {
                    return None;
                }
                self.error = None;
                if tenant.is_none() {
                    return None;
                }
                self.busy = Some(id.clone());
                Some(id)
            },
        }
    }

    /// Access has been granted, or could not be. Success empties the query, and
    /// the list is read again. Returns what to say then.
    pub fn assigned(&mut self, outcome: Result<(), UiError>) -> (r: Option<&'static str>)
        ensures
            r is Some <==> outcome is Ok,
            r matches Some(t) ==> t@ == "Access granted."@,
            outcome is Ok ==> final(self).raw_query@.len() == 0 && *final(self) == (
            AccessContent { busy: None, raw_query: final(self).raw_query, ..*old(self) }),
            outcome matches Err(e) ==> *final(self) == (AccessContent {
                busy: None,
                error: Some(e.message),
                ..*old(self)
            }),
    {
        self.busy = None;
        match outcome {
            Ok(()) => {
                self.raw_query = String::new();
                Some("Access granted.")
            },
            Err(e) => {
                self.error = Some(e.message);
                None
            },
        }
    }

    /// Access has been removed, or could not be. On success the list is read
    /// again. Returns what to say then.
    pub fn removed(&mut self, outcome: Result<(), UiError>) -> (r: Option<&'static str>)
        ensures
            r is Some <==> outcome is Ok,
            r matches Some(t) ==> t@ == "Access removed."@,
            outcome is Ok ==> *final(self) == (AccessContent { busy: None, ..*old(self) }),
            outcome matches Err(e) ==> *final(self) == (AccessContent {
                busy: None,
                error: Some(e.message),
                ..*old(self)
            }),
    {
        self.busy = None;
        match outcome {
            Ok(()) => Some("Access removed."),
            Err(e) => {
                self.error = Some(e.message);
                None
            },
        }
    }
}

/// A change of the service principal's memberships.
#[derive(Debug)]
pub struct GroupChange {
    pub add: bool,
    pub group_id: String,
}

/// The groups that the service principal belongs to.
#[derive(Debug)]
pub struct GroupMembershipSection {
    pub busy: bool,
    pub error: Option<UiError>,
    /// The change that a missing consent kept from being made.
    pub retry_op: Option<GroupChange>,
    pub consenting: bool,
    pub pending_add: Option<String>,
    pub pending_remove: Option<String>,
    pub raw_query: String,
}

/// The error below the list.
#[derive(Debug)]
pub enum GroupError {
    /// Granting consent is offered.
    Consent(String),
    Other(String),
}

impl GroupMembershipSection {
    /// Nothing under way.
    pub fn new() -> (r: GroupMembershipSection)
        ensures
            !r.busy,
            r.error is None,
            r.retry_op is None,
            !r.consenting,
            r.pending_add is None,
            r.pending_remove is None,
            r.raw_query@.len() == 0,
    {
        GroupMembershipSection {
            busy: false,
            error: None,
            retry_op: None,
            consenting: false,
            pending_add: None,
            pending_remove: None,
            raw_query: String::new(),
        }
    }

    /// The state once a change has been asked for: nothing happens while one is
    /// under way; without a tenant only the last error goes.
    pub open spec fn asked(self, tenant: Option<String>) -> GroupMembershipSection {
        if self.busy {
            self
        } else {
            GroupMembershipSection { busy: tenant is Some, error: None, ..self }
        }
    }

    /// A change is asked for. Returns whether to send it.
    pub fn mutate(&mut self, tenant: &Option<String>) -> (r: bool)
        ensures
            r == (!old(self).busy && tenant is Some),
            *final(self) == old(self).asked(*tenant),
            old(self).busy ==> *final(self) == *old(self),
            !old(self).busy ==> *final(self) == (GroupMembershipSection {
                busy: tenant is Some,
                error: None,
                ..*old(self)
            }),
    {
        if self.busy {
            return false;
        }
        self.error = None;
        if tenant.is_none() {
            return false;
        }
        self.busy = true;
        true
    }

    /// `after` is the state once `change` has been made, or could not be. One
    /// that only a missing consent held up is kept for another try.
    pub open spec fn settled(
        self,
        change: GroupChange,
        outcome: Result<(), UiError>,
        after: GroupMembershipSection,
    ) -> bool {
        match outcome {
            Ok(_) => after.raw_query@.len() == 0 && after == (GroupMembershipSection {
                busy: false,
                retry_op: None,
                raw_query: after.raw_query,
                ..self
            }),
            Err(e) => after == (GroupMembershipSection {
                busy: false,
                error: Some(e),
                retry_op: if needs_consent(e) {
                    Some(change)
                } else {
                    self.retry_op
                },
                ..self
            }),
        }
    }

    /// The change has been made, or could not be. On success the list is read
    /// again. Returns what to say then.
    pub fn mutated(&mut self, change: GroupChange, outcome: Result<(), UiError>) -> (r: Option<
        &'static str,
    >)
        ensures
            old(self).settled(change, outcome, *final(self)),
            !final(self).busy,
            outcome is Ok ==> final(self).retry_op is None && final(self).raw_query@.len() == 0
                && final(self).error == old(self).error,
            outcome matches Err(e) ==> final(self).error == Some(e) && final(self).raw_query
                == old(self).raw_query,
            outcome matches Err(e) ==> final(self).retry_op == if e.code@ == "consent_required"@ {
                Some(change)
            } else {
                old(self).retry_op
            },
            r is Some <==> outcome is Ok,
            r matches Some(t) ==> t@ == (if change.add {
                "Added to group."@
            } else {
                "Removed from group."@
            }),
    {
        self.busy = false;
        match outcome {
            Ok(()) => {
                self.retry_op = None;
                self.raw_query = String::new();
                if change.add {
                    Some("Added to group.")
                } else {
                    Some("Removed from group.")
                }
            },
            Err(e) => {
                if is_consent_error(&e) {
                    self.retry_op = Some(change);
                }
                self.error = Some(e);
                None
            },
        }
    }

    /// "Add" is confirmed: the change to send. The question is gone in any case.
    pub fn confirm_add(&mut self, tenant: &Option<String>) -> (r: Option<GroupChange>)
        ensures
            r is Some <==> old(self).pending_add is Some && !old(self).busy && tenant is Some,
            r matches Some(c) ==> c.add && Some(c.group_id) == old(self).pending_add,
            final(self).pending_add is None,
            final(self).pending_remove == old(self).pending_remove,
            final(self).retry_op == old(self).retry_op,
            old(self).pending_add is Some ==> final(self).busy == (old(self).busy || tenant is Some),
            old(self).pending_add is Some && !old(self).busy ==> final(self).error is None,
            old(self).pending_add is Some && old(self).busy ==> final(self).error == old(self).error,
            *final(self) == if old(self).pending_add is Some {
                (GroupMembershipSection { pending_add: None, ..*old(self) }).asked(*tenant)
            } else {
                *old(self)
            },
    {
        let asked = self.pending_add.take();
        match asked {
            None => None,
            Some(id) => {
                if self.mutate(tenant) {
                    Some(GroupChange { add: true, group_id: id })
                } else {
                    None
                }
            },
        }
    }

    /// "Remove" is confirmed: the change to send. The question is gone in any
    /// case.
    pub fn confirm_remove(&mut self, tenant: &Option<String>) -> (r: Option<GroupChange>)
        ensures
            r is Some <==> old(self).pending_remove is Some && !old(self).busy && tenant is Some,
            r matches Some(c) ==> !c.add && Some(c.group_id) == old(self).pending_remove,
            final(self).pending_remove is None,
            final(self).pending_add == old(self).pending_add,
            final(self).retry_op == old(self).retry_op,
            old(self).pending_remove is Some ==> final(self).busy == (old(self).busy
                || tenant is Some),
            old(self).pending_remove is Some && !old(self).busy ==> final(self).error is None,
            old(self).pending_remove is Some && old(self).busy ==> final(self).error
                == old(self).error,
            *final(self) == if old(self).pending_remove is Some {
                (GroupMembershipSection { pending_remove: None, ..*old(self) }).asked(*tenant)
            } else {
                *old(self)
            },
    {
        let asked = self.pending_remove.take();
        match asked {
            None => None,
            Some(id) => {
                if self.mutate(tenant) {
                    Some(GroupChange { add: false, group_id: id })
                } else {
                    None
                }
            },
        }
    }

    /// "Grant consent & retry". Returns whether to ask for it.
    pub fn on_consent(&mut self, tenant: &Option<String>) -> (r: bool)
        ensures
            r == (!old(self).consenting && tenant is Some),
            r ==> *final(self) == (GroupMembershipSection { consenting: true, ..*old(self) }),
            !r ==> *final(self) == *old(self),
    {
        if self.consenting || tenant.is_none() {
            return false;
        }
        self.consenting = true;
        true
    }

    /// The state once consent has been given, or not.
    pub open spec fn answered(
        self,
        outcome: Result<(), UiError>,
        tenant: Option<String>,
    ) -> GroupMembershipSection {
        match outcome {
            Ok(_) => if self.retry_op is Some {
                (GroupMembershipSection { consenting: false, error: None, retry_op: None, ..self }).asked(
                    tenant,
                )
            } else {
                GroupMembershipSection { consenting: false, error: None, ..self }
            },
            Err(e) => GroupMembershipSection { consenting: false, error: Some(e), ..self },
        }
    }

    /// Consent has been given: the change that was held up is sent again. Or it
    /// has not.
    pub fn consented(&mut self, outcome: Result<(), UiError>, tenant: &Option<String>) -> (r:
        Option<GroupChange>)
        ensures
            r == if outcome is Ok && !old(self).busy && tenant is Some {
                old(self).retry_op
            } else {
                None
            },
            *final(self) == old(self).answered(outcome, *tenant),
            !final(self).consenting,
            outcome matches Err(e) ==> final(self).error == Some(e) && final(self).retry_op == old(
                self).retry_op && final(self).busy == old(self).busy,
            outcome is Ok ==> final(self).error is None && final(self).retry_op is None,
            outcome is Ok ==> final(self).busy == (old(self).busy || (old(self).retry_op is Some
                && tenant is Some)),
    {
        self.consenting = false;
        match outcome {
            Ok(()) => {
                self.error = None;
                let held = self.retry_op.take();
                match held {
                    None => None,
                    Some(change) => {
                        if self.mutate(tenant) {
                            Some(change)
                        } else {
                            None
                        }
                    },
                }
            },
            Err(e) => {
                self.error = Some(e);
                None
            },
        }
    }

    /// The error below the list, if there is one.
    pub fn error_view(&self) -> (r: Option<GroupError>)
        ensures
            r is Some <==> self.error is Some,
            self.error matches Some(e) ==> if needs_consent(e) {
                r->0 is Consent && r->0->Consent_0@
                    == "Group membership changes need consent — "@ + e.message@
            } else {
                r->0 is Other && r->0->Other_0@ == error_line(e)
            },
            self.error matches Some(e) ==> (r->0 is Consent <==> e.code@ == "consent_required"@),
    {
        match &self.error {
            None => None,
            Some(e) => {
                if is_consent_error(e) {
                    let mut s = "Group membership changes need consent — ".to_owned();
                    s.append(e.message.as_str());
                    Some(GroupError::Consent(s))
                } else {
                    Some(GroupError::Other(error_text(e)))
                }
            },
        }
    }
}

/// A change that a missing consent held up is the one that is sent again once
/// consent is given: the group need not be picked again.
pub proof fn consent_replays_the_change(
    before: GroupMembershipSection,
    change: GroupChange,
    e: UiError,
    held: GroupMembershipSection,
    asking: GroupMembershipSection,
    tenant: Option<String>,
)
    requires
        before.settled(change, Err(e), held),
        needs_consent(e),
        asking == (GroupMembershipSection { consenting: true, ..held }),
        tenant is Some,
    ensures
        asking.retry_op == Some(change),
        !asking.busy,
        asking.answered(Ok(()), tenant) == (GroupMembershipSection {
            consenting: false,
            busy: true,
            error: None,
            retry_op: None,
            ..asking
        }),
{
}

/// The name of a role that was given: "Default access" for an id of zeros and
/// hyphens, the name of the first role with the id for any other, its value where
/// it has no name, and the id itself where no role has it.
pub proof fn a_role_is_named_by_its_id(roles: Seq<AppRole>, id: Seq<char>, k: int)
    ensures
        (forall|j: int| 0 <= j < id.len() ==> id[j] == '0' || id[j] == '-') ==> role_name(roles, id)
            == "Default access"@,
        (exists|j: int| 0 <= j < id.len() && id[j] != '0' && id[j] != '-') && 0 <= k < roles.len()
            && roles[k].id@ == id && (forall|j: int|
            0 <= j < k ==> (#[trigger] roles[j]).id@ != id) ==> role_name(roles, id) == (
        if roles[k].display_name@.len() == 0 {
            roles[k].value@
        } else {
            roles[k].display_name@
        }),
        (exists|j: int| 0 <= j < id.len() && id[j] != '0' && id[j] != '-') && (forall|j: int|
            0 <= j < roles.len() ==> (#[trigger] roles[j]).id@ != id) ==> role_name(roles, id) == id,
{
    if 0 <= k < roles.len() && roles[k].id@ == id && (forall|j: int|
        0 <= j < k ==> (#[trigger] roles[j]).id@ != id) {
        lemma_first_role(roles, id, k);
    }
    if forall|j: int| 0 <= j < roles.len() ==> (#[trigger] roles[j]).id@ != id {
        lemma_first_role(roles, id, roles.len() as int);
    }
}

proof fn lemma_first_role(roles: Seq<AppRole>, id: Seq<char>, k: int)
    requires
        0 <= k <= roles.len(),
        forall|j: int| 0 <= j < k ==> (#[trigger] roles[j]).id@ != id,
        k < roles.len() ==> roles[k].id@ == id,
    ensures
        k < roles.len() ==> role_with_id(roles, id) == Some(roles[k]),
        k == roles.len() ==> role_with_id(roles, id) is None,
    decreases k,
{
    if k > 0 {
        assert(roles[0].id@ != id);
        assert forall|j: int| 0 <= j < k - 1 implies (
        #[trigger] roles.drop_first()[j]).id@ != id by {
            assert(roles[j + 1].id@ != id);
        }
        lemma_first_role(roles.drop_first(), id, k - 1);
    }
}

} // verus!
