//! The browser of a key vault. A revealed secret is held only while the page is
//! on screen.

use crate::session::{holds_text, is_text, UiError};
use crate::text::{trim, trimmed};
use vstd::prelude::*;
use vstd::string::*;

verus! {

/// A secret with its value.
#[derive(Debug)]
pub struct SecretValue {
    pub name: String,
    pub value: String,
}

/// The page. `I` is a secret in the list, without its value.
#[derive(Debug)]
pub struct KeyVaultView<I> {
    /// The page is the one on screen.
    pub on_screen: bool,
    pub vault_name: String,
    pub listed: Vec<I>,
    pub revealed: Option<SecretValue>,
    pub busy: bool,
    /// A list has been loaded.
    pub loaded: bool,
    /// The secret that is being revealed.
    pub revealing: Option<String>,
    pub error: Option<String>,
}

/// What to reveal.
#[derive(Debug)]
pub struct RevealRequest {
    pub vault: String,
    pub secret: String,
}

impl<I> KeyVaultView<I> {
    /// What holds at all times: no secret is held while the page is not on
    /// screen.
    pub open spec fn well_formed(self) -> bool {
        self.revealed is Some ==> self.on_screen
    }

    /// Nothing listed, nothing revealed.
    pub fn new(on_screen: bool) -> (r: KeyVaultView<I>)
        ensures
            r.well_formed(),
            r.on_screen == on_screen,
            r.vault_name@.len() == 0,
            r.listed@.len() == 0,
            r.revealed is None,
            !r.busy,
            !r.loaded,
            r.revealing is None,
            r.error is None,
    {
        KeyVaultView {
            on_screen,
            vault_name: String::new(),
            listed: Vec::new(),
            revealed: None,
            busy: false,
            loaded: false,
            revealing: None,
            error: None,
        }
    }

    /// Another page comes on screen, or this one does. Leaving it wipes the secret
    /// and the error.
    pub fn view_changed(&mut self, on_screen: bool)
        requires
            old(self).well_formed(),
        ensures
            final(self).well_formed(),
            *final(self) == if on_screen {
                KeyVaultView { on_screen: true, ..*old(self) }
            } else {
                KeyVaultView { on_screen: false, revealed: None, error: None, ..*old(self) }
            },
    {
        self.on_screen = on_screen;
        if !on_screen {
            self.revealed = None;
            self.error = None;
        }
    }

    /// "List secrets": the vault to list.
    pub fn load(&mut self, tenant: &Option<String>) -> (r: Option<String>)
        requires
            old(self).well_formed(),
        ensures
            final(self).well_formed(),
            r is Some <==> !old(self).busy && tenant is Some,
            r matches Some(v) ==> v@ == trimmed(old(self).vault_name@),
            old(self).busy ==> *final(self) == *old(self),
            !old(self).busy ==> *final(self) == (KeyVaultView {
                busy: tenant is Some,
                error: None,
                ..*old(self)
            }),
    {
        if self.busy {
            return None;
        }
        self.error = None;
        if tenant.is_none() {
            return None;
        }
        self.busy = true;
        Some(trim(self.vault_name.as_str()))
    }

    /// The vault has been listed, or could not be: then the last list stays.
    pub fn list_loaded(&mut self, outcome: Result<Vec<I>, UiError>)
        requires
            old(self).well_formed(),
        ensures
            final(self).well_formed(),
            *final(self) == match outcome {
                Ok(items) => KeyVaultView {
                    busy: false,
                    listed: items,
                    loaded: true,
                    ..*old(self)
                },
                Err(e) => KeyVaultView { busy: false, error: Some(e.message), ..*old(self) },
            },
    {
        self.busy = false;
        match outcome {
            Ok(items) => {
                self.listed = items;
                self.loaded = true;
            },
            Err(e) => {
                self.error = Some(e.message);
            },
        }
    }

    /// The line of an empty table.
    pub fn empty_message(&self) -> (r: &'static str)
        ensures
            r@ == if self.loaded {
                "No secrets in this vault."@
            } else {
                "Enter a vault name and choose List secrets."@
            },
    {
        if self.loaded {
            "No secrets in this vault."
        } else {
            "Enter a vault name and choose List secrets."
        }
    }

    /// Whether the secret is the one that is being revealed.
    pub fn is_revealing(&self, name: &str) -> (r: bool)
        ensures
            r == is_text(self.revealing, name@),
    {
        holds_text(&self.revealing, name)
    }

    /// "Reveal": what to fetch. One at a time: two would race for the same place.
    pub fn fetch_secret(&mut self, secret: &str, tenant: &Option<String>) -> (r: Option<RevealRequest>)
        requires
            old(self).well_formed(),
        ensures
            final(self).well_formed(),
            r is Some <==> old(self).revealing is None && tenant is Some,
            r matches Some(q) ==> q.vault@ == trimmed(old(self).vault_name@) && q.secret@
                == secret@ && is_text(final(self).revealing, secret@),
            old(self).revealing is Some ==> *final(self) == *old(self),
            old(self).revealing is None && tenant is None ==> *final(self) == (KeyVaultView {
                error: None,
                ..*old(self)
            }),
            r is Some ==> *final(self) == (KeyVaultView {
                revealing: final(self).revealing,
                error: None,
                ..*old(self)
            }),
    {
        if self.revealing.is_some() {
            return None;
        }
        self.error = None;
        if tenant.is_none() {
            return None;
        }
        self.revealing = Some(secret.to_owned());
        Some(
            RevealRequest { vault: trim(self.vault_name.as_str()), secret: secret.to_owned() },
        )
    }

    /// The secret has been fetched, or could not be. One that comes after the page
    /// was left is dropped.
    pub fn secret_fetched(&mut self, outcome: Result<SecretValue, UiError>)
        requires
            old(self).well_formed(),
        ensures
            final(self).well_formed(),
            *final(self) == match outcome {
                Ok(v) => KeyVaultView {
                    revealing: None,
                    revealed: if old(self).on_screen {
                        Some(v)
                    } else {
                        None
                    },
                    ..*old(self)
                },
                Err(e) => KeyVaultView { revealing: None, error: Some(e.message), ..*old(self) },
            },
    {
        self.revealing = None;
        match outcome {
            Ok(v) => {
                if self.on_screen {
                    self.revealed = Some(v);
                }
            },
            Err(e) => {
                self.error = Some(e.message);
            },
        }
    }
}

/// Whatever state the page is in, no secret is held once it has left the screen.
pub proof fn no_secret_off_screen<I>(v: KeyVaultView<I>)
    requires
        v.well_formed(),
        !v.on_screen,
    ensures
        v.revealed is None,
{
}

} // verus!
