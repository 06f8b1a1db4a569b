//! The app roles that an enterprise application publishes: add, edit, switch on
//! and off, delete.

use crate::session::{copy_text, is_text, tell, told, Command, Toast, UiError};
use crate::text::{
    any_same, blank, copy_strings, is_blank, join, joined, same, texts, trim, trimmed,
    trimmed_or_none,
};
use vstd::prelude::*;
use vstd::string::*;

verus! {

/// A published role.
#[derive(Debug)]
pub struct AppRole {
    pub id: String,
    pub display_name: String,
    pub value: String,
    pub description: Option<String>,
    pub allowed_member_types: Vec<String>,
    pub is_enabled: Option<bool>,
}

impl AppRole {
    /// A role is enabled unless it says otherwise.
    pub open spec fn enabled(self) -> bool {
        self.is_enabled != Some(false)
    }

    /// The default role of SAML: it has no value, and cannot be changed.
    pub open spec fn builtin(self) -> bool {
        blank(self.value@)
    }

    /// Whether the role is enabled.
    pub fn is_on(&self) -> (r: bool)
        ensures
            r == self.enabled(),
            r == !(self.is_enabled == Some(false)),
    {
        match self.is_enabled {
            Some(b) => b,
            None => true,
        }
    }
}

/// The word for a member type.
pub open spec fn member_word(t: Seq<char>) -> Seq<char> {
    if t == "User"@ {
        "Users/Groups"@
    } else if t == "Application"@ {
        "Applications"@
    } else {
        t
    }
}

/// The words for the member types of a role; a dash if it has none.
pub open spec fn member_line(types: Seq<Seq<char>>) -> Seq<char> {
    if types.len() == 0 {
        "—"@
    } else {
        joined(types.map_values(|t: Seq<char>| member_word(t)), ", "@)
    }
}

/// The words for the member types of a role.
pub fn member_types_label(types: &Vec<String>) -> (r: String)
    ensures
        r@ == member_line(texts(types@)),
        types@.len() == 0 ==> r@ == "—"@,
        types@.len() > 0 ==> forall|words: Seq<Seq<char>>|
            words.len() == types@.len() && (forall|k: int|
                0 <= k < words.len() ==> #[trigger] words[k] == (if types@[k]@ == "User"@ {
                    "Users/Groups"@
                } else if types@[k]@ == "Application"@ {
                    "Applications"@
                } else {
                    types@[k]@
                })) ==> r@ == #[trigger] joined(words, ", "@),
{
    let ghost wanted = texts(types@).map_values(|t: Seq<char>| member_word(t));
    let mut labels: Vec<String> = Vec::new();
    for i in 0..types.len()
        invariant
            labels@.len() == i,
            wanted == texts(types@).map_values(|t: Seq<char>| member_word(t)),
            forall|k: int| 0 <= k < i ==> (#[trigger] labels@[k])@ == wanted[k],
    {
        let t = types[i].as_str();
        let word = if same(t, "User") {
            "Users/Groups"
        } else if same(t, "Application") {
            "Applications"
        } else {
            t
        };
        labels.push(word.to_owned());
    }
    if labels.len() == 0 {
        "—".to_owned()
    } else {
        proof {
            assert(texts(labels@) =~= wanted);
            assert forall|words: Seq<Seq<char>>|
                words.len() == types@.len() && (forall|k: int|
                    0 <= k < words.len() ==> #[trigger] words[k] == (if types@[k]@ == "User"@ {
                        "Users/Groups"@
                    } else if types@[k]@ == "Application"@ {
                        "Applications"@
                    } else {
                        types@[k]@
                    })) implies joined(wanted, ", "@) == #[trigger] joined(words, ", "@) by {
                assert(words =~= wanted);
            }
        }
        join(&labels, ", ")
    }
}

/// What a row of the table shows.
#[derive(Debug)]
pub struct RoleRow {
    pub members: String,
    pub state: &'static str,
    pub badge: &'static str,
    /// The text of the switch; a built-in role has no buttons.
    pub switch: Option<&'static str>,
}

/// What the row of a role shows.
pub fn role_row(role: &AppRole) -> (r: RoleRow)
    ensures
        r.members@ == member_line(texts(role.allowed_member_types@)),
        r.state@ == if role.enabled() {
            "Enabled"@
        } else {
            "Disabled"@
        },
        r.badge@ == if role.enabled() {
            "badge--ok"@
        } else {
            "badge--unknown"@
        },
        r.switch is None <==> role.builtin(),
        r.switch is None <==> blank(role.value@),
        role.is_enabled == Some(false) ==> r.state@ == "Disabled"@ && r.badge@ == "badge--unknown"@
            && (r.switch matches Some(t) ==> t@ == "Enable"@),
        role.is_enabled != Some(false) ==> r.state@ == "Enabled"@ && r.badge@ == "badge--ok"@ && (
        r.switch matches Some(t) ==> t@ == "Disable"@),
        r.switch matches Some(t) ==> t@ == if role.enabled() {
            "Disable"@
        } else {
            "Enable"@
        },
{
    let enabled = role.is_on();
    RoleRow {
        members: member_types_label(&role.allowed_member_types),
        state: if enabled {
            "Enabled"
        } else {
            "Disabled"
        },
        badge: if enabled {
            "badge--ok"
        } else {
            "badge--unknown"
        },
        switch: if is_blank(role.value.as_str()) {
            None
        } else if enabled {
            Some("Disable")
        } else {
            Some("Enable")
        },
    }
}

/// The line under the heading. `target_kind` is where the roles are defined, once
/// that is known.
pub fn intro(target_kind: &Option<String>) -> (r: &'static str)
    ensures
        r@ == if is_text(*target_kind, "application"@) {
            "Roles are defined on the linked app registration and apply to this enterprise application."@
        } else {
            "Roles this app exposes for users and apps to be assigned to."@
        },
{
    match target_kind {
        Some(k) if same(k.as_str(), "application") =>
            "Roles are defined on the linked app registration and apply to this enterprise application.",
        _ => "Roles this app exposes for users and apps to be assigned to.",
    }
}

/// A role to add or to change.
#[derive(Debug)]
pub struct AppRoleInput {
    pub id: Option<String>,
    pub display_name: String,
    pub value: String,
    pub description: Option<String>,
    pub allowed_member_types: Vec<String>,
    pub is_enabled: bool,
}

/// What is entered in the add or edit dialog.
#[derive(Debug)]
pub struct RoleForm {
    pub editing_id: Option<String>,
    pub display: String,
    pub value: String,
    pub desc: String,
    pub member_user: bool,
    pub member_app: bool,
    pub enabled: bool,
}

/// The member types that are ticked.
pub open spec fn ticked(f: RoleForm) -> Seq<Seq<char>> {
    (if f.member_user {
        seq!["User"@]
    } else {
        Seq::empty()
    }) + (if f.member_app {
        seq!["Application"@]
    } else {
        Seq::empty()
    })
}

proof fn lemma_ticked(f: RoleForm)
    ensures
        ticked(f).contains("User"@) <==> f.member_user,
        ticked(f).contains("Application"@) <==> f.member_app,
        ticked(f).len() == (if f.member_user {
            1int
        } else {
            0
        }) + (if f.member_app {
            1int
        } else {
            0
        }),
{
    reveal_strlit("User");
    reveal_strlit("Application");
    assert("User"@.len() == 4);
    assert("Application"@.len() == 11);
    if f.member_user {
        assert(ticked(f)[0] == "User"@);
    }
    if f.member_app {
        assert(ticked(f)[ticked(f).len() - 1] == "Application"@);
    }
}

impl RoleForm {
    /// The form of a new role: for users, and enabled.
    pub open spec fn fresh(self) -> bool {
        &&& self.editing_id is None
        &&& self.display@.len() == 0
        &&& self.value@.len() == 0
        &&& self.desc@.len() == 0
        &&& self.member_user
        &&& !self.member_app
        &&& self.enabled
    }

    /// The form shows this role.
    pub open spec fn shows(self, role: AppRole) -> bool {
        &&& self.editing_id == Some(role.id)
        &&& self.display == role.display_name
        &&& self.value == role.value
        &&& match role.description {
            Some(d) => self.desc == d,
            None => self.desc@.len() == 0,
        }
        &&& self.member_user == texts(role.allowed_member_types@).contains("User"@)
        &&& self.member_app == texts(role.allowed_member_types@).contains("Application"@)
        &&& self.enabled == role.enabled()
    }

    /// The form of a new role.
    pub fn new() -> (r: RoleForm)
        ensures
            r.fresh(),
            r.editing_id is None && r.display@.len() == 0 && r.value@.len() == 0
                && r.desc@.len() == 0 && r.member_user && !r.member_app && r.enabled,
    {
        RoleForm {
            editing_id: None,
            display: String::new(),
            value: String::new(),
            desc: String::new(),
            member_user: true,
            member_app: false,
            enabled: true,
        }
    }

    /// What is wrong with the form, if anything is.
    pub open spec fn complaint(self) -> Option<Seq<char>> {
        if blank(self.display@) || blank(self.value@) {
            Some("Display name and value are required."@)
        } else if !self.member_user && !self.member_app {
            Some("Select at least one allowed member type."@)
        } else {
            None
        }
    }

    /// `i` is the role that was entered.
    pub open spec fn entered(self, i: AppRoleInput) -> bool {
        &&& i.id == self.editing_id
        &&& i.display_name@ == trimmed(self.display@)
        &&& i.value@ == trimmed(self.value@)
        &&& i.description is None <==> blank(self.desc@)
        &&& i.description matches Some(d) ==> d@ == trimmed(self.desc@)
        &&& texts(i.allowed_member_types@) == ticked(self)
        &&& i.is_enabled == self.enabled
    }

    /// The title of the dialog.
    pub fn title(&self) -> (r: &'static str)
        ensures
            r@ == if self.editing_id is Some {
                "Edit app role"@
            } else {
                "Add an app role"@
            },
    {
        if self.editing_id.is_some() {
            "Edit app role"
        } else {
            "Add an app role"
        }
    }

    /// The role that was entered, or what is wrong with it.
    pub fn check(&self) -> (r: Result<AppRoleInput, &'static str>)
        ensures
            r is Err <==> self.complaint() is Some,
            r matches Err(t) ==> self.complaint() == Some(t@),
            r matches Ok(i) ==> self.entered(i),
            blank(self.display@) || blank(self.value@) ==> (r matches Err(t) && t@
                == "Display name and value are required."@),
            !blank(self.display@) && !blank(self.value@) && !self.member_user && !self.member_app
                ==> (r matches Err(t) && t@ == "Select at least one allowed member type."@),
            !blank(self.display@) && !blank(self.value@) && (self.member_user || self.member_app)
                ==> r is Ok,
            r matches Ok(i) ==> i.id == self.editing_id && i.display_name@ == trimmed(self.display@)
                && i.value@ == trimmed(self.value@) && (i.description is None <==> blank(self.desc@))
                && (i.description matches Some(d) ==> d@ == trimmed(self.desc@))
                && i.is_enabled == self.enabled && (texts(i.allowed_member_types@).contains("User"@)
                <==> self.member_user) && (texts(i.allowed_member_types@).contains("Application"@)
                <==> self.member_app) && i.allowed_member_types@.len() == (if self.member_user {
                1int
            } else {
                0
            }) + (if self.member_app {
                1int
            } else {
                0
            }),
    {
        let display = trim(self.display.as_str());
        let value = trim(self.value.as_str());
        let mut types: Vec<String> = Vec::new();
        if self.member_user {
            types.push("User".to_owned());
        }
        if self.member_app {
            types.push("Application".to_owned());
        }
        proof {
            assert(texts(types@) =~= ticked(*self));
        }
        if display.as_str().is_empty() || value.as_str().is_empty() {
            return Err("Display name and value are required.");
        }
        if types.len() == 0 {
            return Err("Select at least one allowed member type.");
        }
        proof {
            lemma_ticked(*self);
        }
        Ok(
            AppRoleInput {
                id: copy_text(&self.editing_id),
                display_name: display,
                value,
                description: trimmed_or_none(self.desc.as_str()),
                allowed_member_types: types,
                is_enabled: self.enabled,
            },
        )
    }
}

/// The tab.
#[derive(Debug)]
pub struct AppRolesContent {
    pub dialog_open: bool,
    pub form: RoleForm,
    pub upsert: Command,
    pub toggle: Command,
    pub delete: Command,
    pub pending_delete: Option<String>,
}

/// `i` is the role with its switch turned, and nothing else changed.
pub open spec fn switched(role: AppRole, i: AppRoleInput) -> bool {
    &&& i.id == Some(role.id)
    &&& i.display_name == role.display_name
    &&& i.value == role.value
    &&& i.description == role.description
    &&& i.allowed_member_types@ == role.allowed_member_types@
    &&& i.is_enabled == !role.enabled()
}

impl AppRolesContent {
    /// Nothing open, nothing under way.
    pub fn new() -> (r: AppRolesContent)
        ensures
            !r.dialog_open,
            r.form.fresh(),
            r.form.editing_id is None && r.form.display@.len() == 0 && r.form.value@.len() == 0
                && r.form.desc@.len() == 0 && r.form.member_user && !r.form.member_app
                && r.form.enabled,
            !r.upsert.busy && !r.toggle.busy && !r.delete.busy,
            r.upsert.error is None,
            r.toggle.error is None,
            r.delete.error is None,
            r.pending_delete is None,
    {
        AppRolesContent {
            dialog_open: false,
            form: RoleForm::new(),
            upsert: Command::new(),
            toggle: Command::new(),
            delete: Command::new(),
            pending_delete: None,
        }
    }

    /// Whether the buttons of the rows are off: something is under way.
    pub fn busy_any(&self) -> (r: bool)
        ensures
            r == (self.upsert.busy || self.toggle.busy || self.delete.busy),
    {
        self.upsert.busy || self.toggle.busy || self.delete.busy
    }

    /// "Add role": an empty form.
    pub fn open_add(&mut self)
        ensures
            final(self).form.fresh(),
            final(self).form.editing_id is None && final(self).form.display@.len() == 0
                && final(self).form.value@.len() == 0
                && final(self).form.desc@.len() == 0 && final(self).form.member_user
                && !final(self).form.member_app && final(self).form.enabled,
            *final(self) == (AppRolesContent {
                dialog_open: true,
                form: final(self).form,
                upsert: Command { error: None, ..old(self).upsert },
                ..*old(self)
            }),
    {
        self.form = RoleForm::new();
        self.upsert.error = None;
        self.dialog_open = true;
    }

    /// "Edit": the form shows the role.
    pub fn open_edit(&mut self, role: &AppRole)
        ensures
            final(self).form.shows(*role),
            final(self).form.editing_id == Some(role.id),
            final(self).form.display == role.display_name,
            final(self).form.value == role.value,
            role.description matches Some(d) ==> final(self).form.desc == d,
            role.description is None ==> final(self).form.desc@.len() == 0,
            final(self).form.member_user == texts(role.allowed_member_types@).contains("User"@),
            final(self).form.member_app == texts(role.allowed_member_types@).contains(
                "Application"@,
            ),
            final(self).form.enabled == !(role.is_enabled == Some(false)),
            *final(self) == (AppRolesContent {
                dialog_open: true,
                form: final(self).form,
                upsert: Command { error: None, ..old(self).upsert },
                ..*old(self)
            }),
    {
        self.form = RoleForm {
            editing_id: Some(role.id.clone()),
            display: role.display_name.clone(),
            value: role.value.clone(),
            desc: match &role.description {
                Some(d) => d.clone(),
                None => String::new(),
            },
            member_user: any_same(&role.allowed_member_types, "User"),
            member_app: any_same(&role.allowed_member_types, "Application"),
            enabled: role.is_on(),
        };
        self.upsert.error = None;
        self.dialog_open = true;
    }

    /// "Save": the role to send, if the form is complete. Otherwise the form says
    /// what is missing.
    pub fn save(&mut self, tenant: &Option<String>) -> (r: Option<AppRoleInput>)
        ensures
            r is Some <==> old(self).form.complaint() is None && old(self).upsert.ready(*tenant),
            r matches Some(i) ==> old(self).form.entered(i) && final(self).upsert == (Command {
                busy: true,
                error: None,
            }),
            old(self).form.complaint() matches Some(c) ==> is_text(final(self).upsert.error, c)
                && final(self).upsert.busy == old(self).upsert.busy,
            r is None && old(self).form.complaint() is None ==> final(self).upsert == old(
                self,
            ).upsert,
            *final(self) == (AppRolesContent { upsert: final(self).upsert, ..*old(self) }),
            r is Some <==> !blank(old(self).form.display@) && !blank(old(self).form.value@) && (old(
                self).form.member_user || old(self).form.member_app) && !old(self).upsert.busy
                && tenant is Some,
            r matches Some(i) ==> i.id == old(self).form.editing_id && i.display_name@
                == trimmed(old(self).form.display@)
                && i.value@ == trimmed(old(self).form.value@) && (i.description is None
                <==> blank(old(self).form.desc@))
                && (i.description matches Some(d) ==> d@ == trimmed(old(self).form.desc@))
                && i.is_enabled == old(self).form.enabled
                && (texts(i.allowed_member_types@).contains("User"@)
                <==> old(self).form.member_user)
                && (texts(i.allowed_member_types@).contains("Application"@)
                <==> old(self).form.member_app) && i.allowed_member_types@.len()
                == (if old(self).form.member_user {
                1int
            } else {
                0
            }) + (if old(self).form.member_app {
                1int
            } else {
                0
            }),
    {
        match self.form.check() {
            Err(t) => {
                self.upsert.error = Some(t.to_owned());
                None
            },
            Ok(input) => {
                if self.upsert.start(tenant) {
                    Some(input)
                } else {
                    None
                }
            },
        }
    }

    /// The role has been saved, or could not be. A failure is shown in the dialog,
    /// which stays open. Returns what to say on success; the list is then read
    /// again.
    pub fn saved(&mut self, created: bool, outcome: Result<(), UiError>) -> (r: Option<
        &'static str,
    >)
        ensures
            r is Some <==> outcome is Ok,
            r matches Some(t) ==> t@ == (if created {
                "App role added."@
            } else {
                "App role updated."@
            }),
            outcome is Ok ==> *final(self) == (AppRolesContent {
                dialog_open: false,
                upsert: Command { busy: false, ..old(self).upsert },
                ..*old(self)
            }),
            outcome matches Err(e) ==> *final(self) == (AppRolesContent {
                upsert: Command { busy: false, error: Some(e.message) },
                ..*old(self)
            }),
    {
        match outcome {
            Ok(()) => {
                self.upsert.finish(None);
                self.dialog_open = false;
                if created {
                    Some("App role added.")
                } else {
                    Some("App role updated.")
                }
            },
            Err(e) => {
                self.upsert.finish(Some(e.message));
                None
            },
        }
    }

    /// The switch of a role: what to send.
    pub fn switch(&mut self, role: &AppRole, tenant: &Option<String>) -> (r: Option<AppRoleInput>)
        ensures
            r is Some <==> old(self).toggle.ready(*tenant),
            r matches Some(i) ==> switched(*role, i) && final(self).toggle == (Command {
                busy: true,
                error: None,
            }),
            r is None ==> *final(self) == *old(self),
            *final(self) == (AppRolesContent { toggle: final(self).toggle, ..*old(self) }),
            r matches Some(i) ==> i.id == Some(role.id) && i.display_name == role.display_name
                && i.value == role.value && i.description == role.description
                && i.allowed_member_types@ == role.allowed_member_types@ && i.is_enabled == (
            role.is_enabled == Some(false)),
    {
        if !self.toggle.start(tenant) {
            return None;
        }
        Some(
            AppRoleInput {
                id: Some(role.id.clone()),
                display_name: role.display_name.clone(),
                value: role.value.clone(),
                description: copy_text(&role.description),
                allowed_member_types: copy_strings(&role.allowed_member_types),
                is_enabled: !role.is_on(),
            },
        )
    }

    /// The switch has been turned, or could not be. On success the list is read
    /// again.
    pub fn was_switched(&mut self, now_enabled: bool, outcome: Result<(), UiError>) -> (r: Toast)
        ensures
            told(
                r,
                outcome,
                if now_enabled {
                    "App role enabled."@
                } else {
                    "App role disabled."@
                },
            ),
            *final(self) == (AppRolesContent {
                toggle: Command { busy: false, ..old(self).toggle },
                ..*old(self)
            }),
    {
        self.toggle.finish(None);
        tell(
            outcome,
            if now_enabled {
                "App role enabled."
            } else {
                "App role disabled."
            },
        )
    }

    /// "Delete": asks first.
    pub fn ask_delete(&mut self, id: String)
        ensures
            *final(self) == (AppRolesContent { pending_delete: Some(id), ..*old(self) }),
    {
        self.pending_delete = Some(id);
    }

    /// The question is withdrawn.
    pub fn keep(&mut self)
        ensures
            *final(self) == (AppRolesContent { pending_delete: None, ..*old(self) }),
    {
        self.pending_delete = None;
    }

    /// The question is answered: which role to delete.
    pub fn do_delete(&mut self, tenant: &Option<String>) -> (r: Option<String>)
        ensures
            r == if old(self).delete.ready(*tenant) {
                old(self).pending_delete
            } else {
                None
            },
            r is Some ==> final(self).delete == (Command { busy: true, error: None }),
            r is None ==> *final(self) == *old(self),
            *final(self) == (AppRolesContent { delete: final(self).delete, ..*old(self) }),
    {
        match &self.pending_delete {
            None => None,
            Some(id) => {
                if self.delete.start(tenant) {
                    Some(id.clone())
                } else {
                    None
                }
            },
        }
    }

    /// The role has been deleted, or could not be. Either way the question is
    /// gone; on success the list is read again.
    pub fn deleted(&mut self, outcome: Result<(), UiError>) -> (r: Toast)
        ensures
            told(r, outcome, "App role deleted."@),
            *final(self) == (AppRolesContent {
                pending_delete: None,
                delete: Command { busy: false, ..old(self).delete },
                ..*old(self)
            }),
    {
        self.delete.finish(None);
        self.pending_delete = None;
        tell(outcome, "App role deleted.")
    }
}

/// A role that is opened for editing and saved unchanged stays as it is: name,
/// value and description without outer white space, and its switch. Of the
/// member types the two that the form knows are kept.
pub proof fn an_unchanged_edit_keeps_the_role(role: AppRole, f: RoleForm, i: AppRoleInput)
    requires
        f.shows(role),
        f.entered(i),
    ensures
        i.id == Some(role.id),
        i.display_name@ == trimmed(role.display_name@),
        i.value@ == trimmed(role.value@),
        i.is_enabled == role.enabled(),
        role.description matches Some(d) ==> !blank(d@) ==> is_text(i.description, trimmed(d@)),
        role.description is None ==> i.description is None,
        forall|t: Seq<char>| #[trigger]
            texts(i.allowed_member_types@).contains(t) <==> (t == "User"@ || t == "Application"@)
                && texts(role.allowed_member_types@).contains(t),
{
    let got = texts(i.allowed_member_types@);
    let had = texts(role.allowed_member_types@);
    assert forall|t: Seq<char>| #[trigger] got.contains(t) <==> (t == "User"@ || t
        == "Application"@) && had.contains(t) by {
        let users = if f.member_user {
            seq!["User"@]
        } else {
            Seq::empty()
        };
        if f.member_user {
            assert(got[0] == "User"@);
        }
        if f.member_app {
            assert(got[users.len() as int] == "Application"@);
        }
    }
}

/// The switch turned twice is where it was.
pub proof fn switching_twice_restores(
    role: AppRole,
    once: AppRoleInput,
    between: AppRole,
    twice: AppRoleInput,
)
    requires
        switched(role, once),
        between.is_enabled == Some(once.is_enabled),
        switched(between, twice),
    ensures
        twice.is_enabled == role.enabled(),
{
}

/// What is sent of a role is what was entered, each field in its own place.
pub proof fn each_field_of_a_role_is_sent_in_its_own_place(f: RoleForm, i: AppRoleInput)
    requires
        f.entered(i),
    ensures
        i.id == f.editing_id,
        i.display_name@ == trimmed(f.display@),
        i.value@ == trimmed(f.value@),
        i.description is None <==> blank(f.desc@),
        i.description matches Some(d) ==> d@ == trimmed(f.desc@),
        i.is_enabled == f.enabled,
        texts(i.allowed_member_types@).contains("User"@) <==> f.member_user,
        texts(i.allowed_member_types@).contains("Application"@) <==> f.member_app,
{
    lemma_ticked(f);
}

} // verus!
