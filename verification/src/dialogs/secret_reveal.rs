//! A fresh client secret, shown once.

use vstd::prelude::*;

verus! {

/// The dialog that shows the secret.
#[derive(Clone, Copy, Debug, PartialEq, Eq, Structural)]
pub struct SecretRevealDialog {
    pub copied: bool,
}

impl SecretRevealDialog {
    /// "Copy": until the clipboard has taken the secret it does not count as
    /// copied, even if it was before.
    pub fn copying(&mut self)
        ensures
            !final(self).copied,
    {
        self.copied = false;
    }

    /// The clipboard has taken the secret.
    pub fn was_copied(&mut self)
        ensures
            final(self).copied,
    {
        self.copied = true;
    }

    /// The text of the copy button.
    pub fn button(&self) -> (r: &'static str)
        ensures
            r@ == if self.copied {
                "Copied"@
            } else {
                "Copy to clipboard"@
            },
    {
        if self.copied {
            "Copied"
        } else {
            "Copy to clipboard"
        }
    }
}

} // verus!
