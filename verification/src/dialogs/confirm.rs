//! Confirmation of an action that cannot simply be undone.

use crate::session::UiError;
use crate::text::{count, decimal, join, joined, same, texts};
use crate::time::{plural, plural_text};
use vstd::prelude::*;
use vstd::string::*;

verus! {

/// A confirmation dialog. It does no work itself: it routes the choice.
#[derive(Debug)]
pub struct ConfirmDialog {
    pub open: bool,
    pub busy: bool,
    /// A word that has to be typed before the action can be confirmed; empty
    /// where a click is enough.
    pub require_keyword: &'static str,
    pub typed: String,
}

impl ConfirmDialog {
    /// The dialog can be left: by Escape, or by its cancel button.
    pub open spec fn closable(self) -> bool {
        self.open && !self.busy
    }

    /// The action can be confirmed.
    pub open spec fn confirmable(self) -> bool {
        self.closable() && (self.require_keyword@.len() == 0 || self.typed@
            == self.require_keyword@)
    }

    /// Whether Escape closes the dialog.
    pub fn can_close(&self) -> (r: bool)
        ensures
            r == self.closable(),
            r == (self.open && !self.busy),
    {
        self.open && !self.busy
    }

    /// Whether the action can be confirmed.
    pub fn can_confirm(&self) -> (r: bool)
        ensures
            r == self.confirmable(),
            r == (self.open && !self.busy && (self.require_keyword@.len() == 0 || self.typed@
                == self.require_keyword@)),
    {
        self.can_close() && (self.require_keyword.is_empty() || same(
            self.typed.as_str(),
            self.require_keyword,
        ))
    }
}

/// A fix behind a confirmation: its dialog, and the command that it starts.
#[derive(Debug)]
pub struct FixDialog {
    pub open: bool,
    pub busy: bool,
    pub error: Option<String>,
}

impl FixDialog {
    /// Closed.
    pub fn new() -> (r: FixDialog)
        ensures
            !r.open,
            !r.busy,
            r.error is None,
    {
        FixDialog { open: false, busy: false, error: None }
    }

    /// A click on the button of the fix.
    pub fn show(&mut self)
        ensures
            *final(self) == (FixDialog { open: true, ..*old(self) }),
    {
        self.open = true;
    }

    /// The dialog is left.
    pub fn close(&mut self)
        ensures
            *final(self) == (FixDialog { open: false, ..*old(self) }),
    {
        self.open = false;
    }

    /// The fix is confirmed: it starts, unless one is under way. Without a
    /// tenant only the last error goes. Returns whether the fix is to be
    /// applied.
    pub fn confirm(&mut self, tenant: &Option<String>) -> (r: bool)
        ensures
            r == (!old(self).busy && tenant is Some),
            old(self).busy ==> *final(self) == *old(self),
            !old(self).busy ==> *final(self) == (FixDialog {
                busy: tenant is Some,
                error: None,
                ..*old(self)
            }),
    {
        if self.busy {
            return false;
        }
        self.error = None;
        self.busy = tenant.is_some();
        self.busy
    }

    /// The fix has been applied: the dialog closes. If it failed, the dialog
    /// stays and says why. Returns whether the row's fix is to be taken away.
    pub fn finished(&mut self, outcome: Result<(), UiError>) -> (r: bool)
        ensures
            r == outcome is Ok,
            outcome is Ok ==> *final(self) == (FixDialog {
                open: false,
                busy: false,
                ..*old(self)
            }),
            outcome matches Err(e) ==> *final(self) == (FixDialog {
                busy: false,
                error: Some(e.message),
                ..*old(self)
            }),
    {
        self.busy = false;
        match outcome {
            Ok(()) => {
                self.open = false;
                true
            },
            Err(e) => {
                self.error = Some(e.message);
                false
            },
        }
    }
}

/// What is said after expired credentials were removed.
pub open spec fn expired_line(n: nat) -> Seq<char> {
    "Removed "@ + decimal(n) + " expired credential"@ + plural(n)
        + " — re-run the audit to refresh scores."@
}

/// What is said after expired credentials were removed.
pub fn expired_message(removed_secrets: usize, removed_certificates: usize) -> (r: String)
    requires
        removed_secrets + removed_certificates <= usize::MAX,
    ensures
        r@ == expired_line((removed_secrets + removed_certificates) as nat),
        r@ == "Removed "@ + decimal((removed_secrets + removed_certificates) as nat)
            + " expired credential"@ + (if removed_secrets + removed_certificates == 1 {
            ""@
        } else {
            "s"@
        }) + " — re-run the audit to refresh scores."@,
{
    let n: usize = removed_secrets + removed_certificates;
    let mut s = "Removed ".to_owned();
    s.append(count(n).as_str());
    s.append(" expired credential");
    s.append(plural_text(n));
    s.append(" — re-run the audit to refresh scores.");
    s
}

/// What is said after redundant permissions were removed: how many, and which
/// were left because what covers them is gone.
pub open spec fn redundant_line(removed: nat, skipped: Seq<String>) -> Seq<char> {
    "Removed "@ + decimal(removed) + " redundant permission"@ + plural(removed) + (if skipped.len()
        == 0 {
        ""@
    } else {
        "; skipped "@ + joined(texts(skipped), ", "@) + " (covering grant no longer present)"@
    }) + " — re-run the audit to refresh scores."@
}

/// What is said after redundant permissions were removed.
pub fn redundant_message(removed: usize, skipped: &Vec<String>) -> (r: String)
    ensures
        r@ == redundant_line(removed as nat, skipped@),
        r@ == "Removed "@ + decimal(removed as nat) + " redundant permission"@ + (if removed == 1 {
            ""@
        } else {
            "s"@
        }) + (if skipped@.len() == 0 {
            ""@
        } else {
            "; skipped "@ + joined(texts(skipped@), ", "@) + " (covering grant no longer present)"@
        }) + " — re-run the audit to refresh scores."@,
{
    let mut s = "Removed ".to_owned();
    s.append(count(removed).as_str());
    s.append(" redundant permission");
    s.append(plural_text(removed));
    if skipped.len() > 0 {
        let mut t = "; skipped ".to_owned();
        t.append(join(skipped, ", ").as_str());
        t.append(" (covering grant no longer present)");
        s.append(t.as_str());
    } else {
        s.append("");
    }
    s.append(" — re-run the audit to refresh scores.");
    s
}

} // verus!
