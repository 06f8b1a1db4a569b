//! Uploading a certificate, from a file or pasted.

use crate::dialogs::cert_payload::{cert_payload_from_bytes, payload};
use crate::session::{is_text, UiError};
use crate::text::{blank, characters, is_blank, trim, trimmed};
use vstd::prelude::*;
use vstd::string::*;

verus! {

/// The part of a file name before its last dot; the whole name without one.
pub open spec fn stem(name: Seq<char>) -> Seq<char> {
    match name.index_of_last('.') {
        Some(dot) => name.take(dot),
        None => name,
    }
}

/// The part of a file name before its last dot.
pub fn file_stem(name: &str) -> (r: String)
    ensures
        r@ == stem(name@),
        !name@.contains('.') ==> r@ == name@,
        name@.contains('.') ==> r@.len() < name@.len() && r@.is_prefix_of(name@)
            && name@[r@.len() as int] == '.' && forall|k: int|
            r@.len() < k < name@.len() ==> name@[k] != '.',
{
    let cs = characters(name);
    proof {
        name@.index_of_last_ensures('.');
    }
    let mut i: usize = cs.len();
    while i > 0
        invariant
            i <= cs.len(),
            cs@ == name@,
            forall|k: int| i <= k < cs.len() ==> cs@[k] != '.',
        decreases i,
    {
        if cs[i - 1] == '.' {
            proof {
                assert(name@[i - 1] == '.');
                assert(name@.contains('.'));
                name@.index_of_last_ensures('.');
            }
            return name.substring_char(0, i - 1).to_owned();
        }
        i -= 1;
    }
    name.to_owned()
}

/// The certificate to add.
#[derive(Debug)]
pub struct AddCertificateInput {
    pub display_name: String,
    pub pem_or_base64: String,
}

/// The dialog.
#[derive(Debug)]
pub struct UploadCertificateDialog {
    pub display_name: String,
    pub pem: String,
    pub file_name: Option<String>,
    pub busy: bool,
    pub error: Option<String>,
}

impl UploadCertificateDialog {
    /// Nothing entered.
    pub fn new() -> (r: UploadCertificateDialog)
        ensures
            r.display_name@.len() == 0,
            r.pem@.len() == 0,
            r.file_name is None,
            !r.busy,
            r.error is None,
    {
        UploadCertificateDialog {
            display_name: String::new(),
            pem: String::new(),
            file_name: None,
            busy: false,
            error: None,
        }
    }

    /// A file has been read: its content goes into the paste box, and its name
    /// names the certificate unless a name was entered.
    pub fn file_read(&mut self, name: String, bytes: &[u8])
        ensures
            final(self).pem@ == payload(bytes@),
            final(self).file_name == Some(name),
            final(self).error is None,
            final(self).busy == old(self).busy,
            blank(old(self).display_name@) ==> final(self).display_name@ == stem(name@),
            !blank(old(self).display_name@) ==> final(self).display_name == old(self).display_name,
    {
        self.pem = cert_payload_from_bytes(bytes);
        if is_blank(self.display_name.as_str()) {
            self.display_name = file_stem(name.as_str());
        }
        self.file_name = Some(name);
        self.error = None;
    }

    /// The file could not be read.
    pub fn file_unreadable(&mut self)
        ensures
            is_text(final(self).error, "Could not read the selected file."@),
            *final(self) == (UploadCertificateDialog { error: final(self).error, ..*old(self) }),
    {
        self.error = Some("Could not read the selected file.".to_owned());
    }

    /// The line that names the loaded file.
    pub fn loaded_line(&self) -> (r: Option<String>)
        ensures
            r is Some <==> self.file_name is Some,
            r matches Some(t) ==> t@ == "Loaded: "@ + self.file_name->0@,
    {
        match &self.file_name {
            Some(n) => {
                let mut s = "Loaded: ".to_owned();
                s.append(n.as_str());
                Some(s)
            },
            None => None,
        }
    }

    /// "Upload": what to add, unless an upload is under way. Without a tenant
    /// only the last error goes.
    pub fn upload(&mut self, tenant: &Option<String>) -> (r: Option<AddCertificateInput>)
        ensures
            r is Some <==> !old(self).busy && tenant is Some,
            r matches Some(i) ==> i.display_name@ == trimmed(old(self).display_name@)
                && i.pem_or_base64 == old(self).pem,
            old(self).busy ==> *final(self) == *old(self),
            !old(self).busy ==> *final(self) == (UploadCertificateDialog {
                busy: tenant is Some,
                error: None,
                ..*old(self)
            }),
    {
        if self.busy {
            return None;
        }
        self.error = None;
        if tenant.is_none() {
            return None;
        }
        self.busy = true;
        Some(
            AddCertificateInput {
                display_name: trim(self.display_name.as_str()),
                pem_or_base64: self.pem.clone(),
            },
        )
    }

    /// The certificate has been added: the form is empty again. If it failed,
    /// the form stays. Returns whether to close.
    pub fn finished(&mut self, outcome: Result<(), UiError>) -> (r: bool)
        ensures
            r == outcome is Ok,
            !final(self).busy,
            outcome is Ok ==> final(self).display_name@.len() == 0 && final(self).pem@.len() == 0
                && final(self).file_name is None && final(self).error == old(self).error,
            outcome matches Err(e) ==> *final(self) == (UploadCertificateDialog {
                busy: false,
                error: Some(e.message),
                ..*old(self)
            }),
    {
        self.busy = false;
        match outcome {
            Ok(()) => {
                self.display_name = String::new();
                self.pem = String::new();
                self.file_name = None;
                true
            },
            Err(e) => {
                self.error = Some(e.message);
                false
            },
        }
    }
}

/// The stem of a name is what stands before the last dot, and the name itself where
/// there is no dot.
pub proof fn the_last_dot_ends_the_stem(front: Seq<char>, back: Seq<char>)
    requires
        !back.contains('.'),
    ensures
        stem(front + seq!['.'] + back) == front,
        stem(back) == back,
{
    let name = front + seq!['.'] + back;
    assert(name[front.len() as int] == '.');
    assert(name.contains('.'));
    name.index_of_last_ensures('.');
    back.index_of_last_ensures('.');
    let dot = name.index_of_last('.')->0;
    if dot > front.len() {
        assert(name[dot] == back[dot - front.len() - 1]);
    }
    assert(name.take(front.len() as int) =~= front);
}

} // verus!
