//! The switches and the notes of an enterprise application. What a switch was
//! set to shows at once; the detail is not loaded again for it.

use crate::session::{tell, told, Command, Toast, UiError};
use crate::text::{any_same, texts};
use vstd::prelude::*;
use vstd::string::*;

verus! {

/// What was set here goes before what was loaded.
pub open spec fn effective(set: Option<bool>, loaded: Option<bool>) -> Option<bool> {
    if set is Some {
        set
    } else {
        loaded
    }
}

fn in_effect(set: Option<bool>, loaded: Option<bool>) -> (r: Option<bool>)
    ensures
        r == effective(set, loaded),
{
    if set.is_some() {
        set
    } else {
        loaded
    }
}

/// The value, or `otherwise` where there is none.
pub open spec fn value_or(b: Option<bool>, otherwise: bool) -> bool {
    match b {
        Some(x) => x,
        None => otherwise,
    }
}

/// A switch: what was loaded, what was set since, and the command that sets it.
#[derive(Debug)]
pub struct Switch {
    pub loaded: Option<bool>,
    pub set: Option<bool>,
    pub cmd: Command,
}

impl Switch {
    /// The switch as it was loaded.
    pub fn new(loaded: Option<bool>) -> (r: Switch)
        ensures
            r.loaded == loaded,
            r.set is None,
            !r.cmd.busy,
            r.cmd.error is None,
    {
        Switch { loaded, set: None, cmd: Command::new() }
    }

    /// The value that shows.
    pub open spec fn value(self) -> Option<bool> {
        effective(self.set, self.loaded)
    }

    /// The value that shows.
    pub fn get(&self) -> (r: Option<bool>)
        ensures
            r == self.value(),
            self.set is Some ==> r == self.set,
            self.set is None ==> r == self.loaded,
    {
        in_effect(self.set, self.loaded)
    }

    /// The switch is used: the value to set, the opposite of the one that shows.
    pub fn flip(&mut self, otherwise: bool, tenant: &Option<String>) -> (r: Option<bool>)
        ensures
            r == if old(self).cmd.ready(*tenant) {
                Some(!value_or(old(self).value(), otherwise))
            } else {
                None
            },
            r is Some ==> *final(self) == (Switch {
                cmd: Command { busy: true, error: None },
                ..*old(self)
            }),
            r is None ==> *final(self) == *old(self),
            r is Some <==> !old(self).cmd.busy && tenant is Some,
            r matches Some(next) ==> next == !(match old(self).set {
                Some(x) => x,
                None => match old(self).loaded {
                    Some(x) => x,
                    None => otherwise,
                },
            }),
    {
        if !self.cmd.start(tenant) {
            return None;
        }
        Some(
            match self.get() {
                Some(x) => !x,
                None => !otherwise,
            },
        )
    }

    /// The state once the value has been set, or could not be.
    pub open spec fn settled(self, next: bool, ok: bool) -> Switch {
        Switch {
            set: if ok {
                Some(next)
            } else {
                self.set
            },
            cmd: Command { busy: false, ..self.cmd },
            ..self
        }
    }

    /// The value has been set, or could not be: then it shows as before.
    pub fn settle(&mut self, next: bool, ok: bool)
        ensures
            *final(self) == old(self).settled(next, ok),
            ok ==> final(self).set == Some(next),
            !ok ==> final(self).set == old(self).set,
            final(self).loaded == old(self).loaded,
            !final(self).cmd.busy,
    {
        self.cmd.finish(None);
        if ok {
            self.set = Some(next);
        }
    }
}

/// What a row with a switch shows.
#[derive(Debug)]
pub struct SwitchRow {
    pub label: &'static str,
    pub badge: &'static str,
    pub button: &'static str,
}

/// The tab.
#[derive(Debug)]
pub struct OverviewContent {
    pub hidden: Switch,
    pub enabled: Switch,
    pub assignment: Switch,
    pub notes_text: String,
    pub notes_cmd: Command,
}

impl OverviewContent {
    /// The tab of a service principal.
    pub fn new(
        tags: &Vec<String>,
        account_enabled: Option<bool>,
        assignment_required: Option<bool>,
        notes: &Option<String>,
    ) -> (r: OverviewContent)
        ensures
            r.hidden.value() == Some(texts(tags@).contains("HideApp"@)),
            r.enabled.value() == account_enabled,
            r.assignment.value() == assignment_required,
            !r.hidden.cmd.busy && !r.enabled.cmd.busy && !r.assignment.cmd.busy
                && !r.notes_cmd.busy,
            match *notes {
                Some(n) => r.notes_text == n,
                None => r.notes_text@.len() == 0,
            },
    {
        OverviewContent {
            hidden: Switch::new(Some(any_same(tags, "HideApp"))),
            enabled: Switch::new(account_enabled),
            assignment: Switch::new(assignment_required),
            notes_text: match notes {
                Some(n) => n.clone(),
                None => String::new(),
            },
            notes_cmd: Command::new(),
        }
    }

    /// Whether users can sign in: unless it says otherwise they can.
    pub fn enabled_row(&self) -> (r: SwitchRow)
        ensures
            r.label@ == match self.enabled.value() {
                Some(true) => "Enabled"@,
                Some(false) => "Disabled"@,
                None => "Unknown"@,
            },
            r.badge@ == match self.enabled.value() {
                Some(true) => "badge badge--ok"@,
                Some(false) => "badge badge--danger"@,
                None => "badge"@,
            },
            r.button@ == if value_or(self.enabled.value(), true) {
                "Disable sign-in"@
            } else {
                "Enable sign-in"@
            },
            ({
                let shown = if self.enabled.set is Some {
                    self.enabled.set
                } else {
                    self.enabled.loaded
                };
                &&& shown == Some(true) ==> r.label@ == "Enabled"@ && r.badge@ == "badge badge--ok"@
                    && r.button@
                    == "Disable sign-in"@
                &&& shown == Some(false) ==> r.label@ == "Disabled"@ && r.badge@
                    == "badge badge--danger"@ && r.button@
                    == "Enable sign-in"@
                &&& shown is None ==> r.label@ == "Unknown"@ && r.badge@ == "badge"@ && r.button@
                    == "Disable sign-in"@
            }),
    {
        match self.enabled.get() {
            Some(true) => SwitchRow {
                label: "Enabled",
                badge: "badge badge--ok",
                button: "Disable sign-in",
            },
            Some(false) => SwitchRow {
                label: "Disabled",
                badge: "badge badge--danger",
                button: "Enable sign-in",
            },
            None => SwitchRow { label: "Unknown", badge: "badge", button: "Disable sign-in" },
        }
    }

    /// Whether only those who were assigned get a token: unless it says otherwise
    /// everyone does.
    pub fn assignment_row(&self) -> (r: SwitchRow)
        ensures
            r.label@ == match self.assignment.value() {
                Some(true) => "Required"@,
                Some(false) => "Not required"@,
                None => "Unknown"@,
            },
            r.badge@ == match self.assignment.value() {
                Some(true) => "badge badge--ok"@,
                Some(false) => "badge badge--warning"@,
                None => "badge"@,
            },
            r.button@ == if value_or(self.assignment.value(), false) {
                "Make optional"@
            } else {
                "Require assignment"@
            },
            ({
                let shown = if self.assignment.set is Some {
                    self.assignment.set
                } else {
                    self.assignment.loaded
                };
                &&& shown == Some(true) ==> r.label@ == "Required"@ && r.badge@
                    == "badge badge--ok"@ && r.button@
                    == "Make optional"@
                &&& shown == Some(false) ==> r.label@ == "Not required"@ && r.badge@
                    == "badge badge--warning"@ && r.button@
                    == "Require assignment"@
                &&& shown is None ==> r.label@ == "Unknown"@ && r.badge@ == "badge"@ && r.button@
                    == "Require assignment"@
            }),
    {
        match self.assignment.get() {
            Some(true) => SwitchRow {
                label: "Required",
                badge: "badge badge--ok",
                button: "Make optional",
            },
            Some(false) => SwitchRow {
                label: "Not required",
                badge: "badge badge--warning",
                button: "Require assignment",
            },
            None => SwitchRow { label: "Unknown", badge: "badge", button: "Require assignment" },
        }
    }

    /// Whether the application is hidden from the portal.
    pub fn hidden_row(&self) -> (r: SwitchRow)
        ensures
            r.label@ == if value_or(self.hidden.value(), false) {
                "Hidden"@
            } else {
                "Visible"@
            },
            r.badge@ == if value_or(self.hidden.value(), false) {
                "badge badge--warning"@
            } else {
                "badge badge--ok"@
            },
            r.button@ == if value_or(self.hidden.value(), false) {
                "Show on My Apps"@
            } else {
                "Hide from My Apps"@
            },
            ({
                let shown = if self.hidden.set is Some {
                    self.hidden.set
                } else {
                    self.hidden.loaded
                };
                &&& shown == Some(true) ==> r.label@ == "Hidden"@ && r.badge@
                    == "badge badge--warning"@ && r.button@
                    == "Show on My Apps"@
                &&& shown == Some(false) ==> r.label@ == "Visible"@ && r.badge@
                    == "badge badge--ok"@ && r.button@
                    == "Hide from My Apps"@
                &&& shown is None ==> r.label@ == "Visible"@ && r.badge@ == "badge badge--ok"@
                    && r.button@
                    == "Hide from My Apps"@
            }),
    {
        match self.hidden.get() {
            Some(true) => SwitchRow {
                label: "Hidden",
                badge: "badge badge--warning",
                button: "Show on My Apps",
            },
            _ => SwitchRow {
                label: "Visible",
                badge: "badge badge--ok",
                button: "Hide from My Apps",
            },
        }
    }

    /// The switch of the portal is used: the value to set.
    pub fn toggle_visibility(&mut self, tenant: &Option<String>) -> (r: Option<bool>)
        ensures
            r == if old(self).hidden.cmd.ready(*tenant) {
                Some(!value_or(old(self).hidden.value(), false))
            } else {
                None
            },
            r is Some ==> *final(self) == (OverviewContent {
                hidden: Switch { cmd: Command { busy: true, error: None }, ..old(self).hidden },
                ..*old(self)
            }),
            r is None ==> *final(self) == *old(self),
            r is Some <==> !old(self).hidden.cmd.busy && tenant is Some,
            r matches Some(next) ==> next == !(match old(self).hidden.set {
                Some(x) => x,
                None => match old(self).hidden.loaded {
                    Some(x) => x,
                    None => false,
                },
            }),
    {
        self.hidden.flip(false, tenant)
    }

    /// The portal's switch has been set, or could not be.
    pub fn visibility_set(&mut self, next: bool, outcome: Result<(), UiError>) -> (r: Toast)
        ensures
            told(
                r,
                outcome,
                if next {
                    "Hidden from the My Apps portal."@
                } else {
                    "Visible on the My Apps portal."@
                },
            ),
            *final(self) == (OverviewContent {
                hidden: old(self).hidden.settled(next, outcome is Ok),
                ..*old(self)
            }),
            outcome is Ok ==> final(self).hidden.set == Some(next),
            outcome is Err ==> final(self).hidden.set == old(self).hidden.set,
            !final(self).hidden.cmd.busy,
    {
        self.hidden.settle(next, outcome.is_ok());
        tell(
            outcome,
            if next {
                "Hidden from the My Apps portal."
            } else {
                "Visible on the My Apps portal."
            },
        )
    }

    /// The switch of signing in is used: the value to set.
    pub fn toggle_enabled(&mut self, tenant: &Option<String>) -> (r: Option<bool>)
        ensures
            r == if old(self).enabled.cmd.ready(*tenant) {
                Some(!value_or(old(self).enabled.value(), true))
            } else {
                None
            },
            r is Some ==> *final(self) == (OverviewContent {
                enabled: Switch { cmd: Command { busy: true, error: None }, ..old(self).enabled },
                ..*old(self)
            }),
            r is None ==> *final(self) == *old(self),
            r is Some <==> !old(self).enabled.cmd.busy && tenant is Some,
            r matches Some(next) ==> next == !(match old(self).enabled.set {
                Some(x) => x,
                None => match old(self).enabled.loaded {
                    Some(x) => x,
                    None => true,
                },
            }),
    {
        self.enabled.flip(true, tenant)
    }

    /// Signing in has been switched, or could not be.
    pub fn enabled_set(&mut self, next: bool, outcome: Result<(), UiError>) -> (r: Toast)
        ensures
            told(
                r,
                outcome,
                if next {
                    "Users can sign in to this application."@
                } else {
                    "Sign-in disabled — no tokens will be issued for this application."@
                },
            ),
            *final(self) == (OverviewContent {
                enabled: old(self).enabled.settled(next, outcome is Ok),
                ..*old(self)
            }),
            outcome is Ok ==> final(self).enabled.set == Some(next),
            outcome is Err ==> final(self).enabled.set == old(self).enabled.set,
            !final(self).enabled.cmd.busy,
    {
        self.enabled.settle(next, outcome.is_ok());
        tell(
            outcome,
            if next {
                "Users can sign in to this application."
            } else {
                "Sign-in disabled — no tokens will be issued for this application."
            },
        )
    }

    /// The switch of assignment is used: the value to set.
    pub fn toggle_assign(&mut self, tenant: &Option<String>) -> (r: Option<bool>)
        ensures
            r == if old(self).assignment.cmd.ready(*tenant) {
                Some(!value_or(old(self).assignment.value(), false))
            } else {
                None
            },
            r is Some ==> *final(self) == (OverviewContent {
                assignment: Switch {
                    cmd: Command { busy: true, error: None },
                    ..old(self).assignment
                },
                ..*old(self)
            }),
            r is None ==> *final(self) == *old(self),
            r is Some <==> !old(self).assignment.cmd.busy && tenant is Some,
            r matches Some(next) ==> next == !(match old(self).assignment.set {
                Some(x) => x,
                None => match old(self).assignment.loaded {
                    Some(x) => x,
                    None => false,
                },
            }),
    {
        self.assignment.flip(false, tenant)
    }

    /// Assignment has been switched, or could not be.
    pub fn assign_set(&mut self, next: bool, outcome: Result<(), UiError>) -> (r: Toast)
        ensures
            told(
                r,
                outcome,
                if next {
                    "Assignment now required — only assigned users/services can get a token."@
                } else {
                    "Assignment no longer required."@
                },
            ),
            *final(self) == (OverviewContent {
                assignment: old(self).assignment.settled(next, outcome is Ok),
                ..*old(self)
            }),
            outcome is Ok ==> final(self).assignment.set == Some(next),
            outcome is Err ==> final(self).assignment.set == old(self).assignment.set,
            !final(self).assignment.cmd.busy,
    {
        self.assignment.settle(next, outcome.is_ok());
        tell(
            outcome,
            if next {
                "Assignment now required — only assigned users/services can get a token."
            } else {
                "Assignment no longer required."
            },
        )
    }

    /// "Save notes": the text to save, as it was typed.
    pub fn save_notes(&mut self, tenant: &Option<String>) -> (r: Option<String>)
        ensures
            r == if old(self).notes_cmd.ready(*tenant) {
                Some(old(self).notes_text)
            } else {
                None
            },
            r is Some ==> *final(self) == (OverviewContent {
                notes_cmd: Command { busy: true, error: None },
                ..*old(self)
            }),
            r is None ==> *final(self) == *old(self),
    {
        if self.notes_cmd.start(tenant) {
            Some(self.notes_text.clone())
        } else {
            None
        }
    }

    /// The notes have been saved, or could not be.
    pub fn notes_saved(&mut self, outcome: Result<(), UiError>) -> (r: Toast)
        ensures
            told(r, outcome, "Notes saved."@),
            *final(self) == (OverviewContent {
                notes_cmd: Command { busy: false, ..old(self).notes_cmd },
                ..*old(self)
            }),
    {
        self.notes_cmd.finish(None);
        tell(outcome, "Notes saved.")
    }
}

/// A switch that is used and set shows the opposite of what it showed; one whose
/// command failed shows what it showed.
pub proof fn a_switch_shows_what_was_set(s: Switch, otherwise: bool)
    ensures
        s.settled(!value_or(s.value(), otherwise), true).value() == Some(
            !value_or(s.value(), otherwise),
        ),
        s.settled(!value_or(s.value(), otherwise), false).value() == s.value(),
{
}

} // verus!
