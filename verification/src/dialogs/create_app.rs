//! A new app registration.

use crate::session::{Command, UiError};
use crate::text::{blank, is_blank, trim, trimmed, trimmed_or_none};
use vstd::prelude::*;
use vstd::string::*;

verus! {

/// The app registration to create.
#[derive(Debug)]
pub struct CreateApplicationInput {
    pub display_name: String,
    pub sign_in_audience: Option<String>,
    pub description: Option<String>,
    pub create_service_principal: bool,
}

/// The dialog.
#[derive(Debug)]
pub struct CreateAppDialog {
    pub cmd: Command,
    pub display_name: String,
    pub audience: String,
    pub description: String,
    pub create_sp: bool,
}

impl CreateAppDialog {
    /// Nothing entered; single tenant, with a service principal.
    pub fn new() -> (r: CreateAppDialog)
        ensures
            !r.cmd.busy,
            r.cmd.error is None,
            r.display_name@.len() == 0,
            r.audience@ == "AzureADMyOrg"@,
            r.description@.len() == 0,
            r.create_sp,
    {
        CreateAppDialog {
            cmd: Command::new(),
            display_name: String::new(),
            audience: "AzureADMyOrg".to_owned(),
            description: String::new(),
            create_sp: true,
        }
    }

    /// Whether the hint that a name is missing shows.
    pub fn name_missing(&self) -> (r: bool)
        ensures
            r == blank(self.display_name@),
    {
        is_blank(self.display_name.as_str())
    }

    /// Whether "Create" can be used: nothing under way, and a name.
    pub fn can_create(&self) -> (r: bool)
        ensures
            r == (!self.cmd.busy && !blank(self.display_name@)),
    {
        !self.cmd.busy && !is_blank(self.display_name.as_str())
    }

    /// "Create": what to create, unless something is under way or there is no
    /// tenant. An empty description is left out.
    pub fn create(&mut self, tenant: &Option<String>) -> (r: Option<CreateApplicationInput>)
        ensures
            r is Some <==> old(self).cmd.ready(*tenant),
            r matches Some(i) ==> {
                &&& i.display_name@ == trimmed(old(self).display_name@)
                &&& i.sign_in_audience == Some(old(self).audience)
                &&& i.description is None <==> blank(old(self).description@)
                &&& i.description matches Some(d) ==> d@ == trimmed(old(self).description@)
                &&& i.create_service_principal == old(self).create_sp
                &&& final(self).cmd.busy
                &&& final(self).cmd.error is None
            },
            r is None ==> final(self).cmd == old(self).cmd,
            *final(self) == (CreateAppDialog { cmd: final(self).cmd, ..*old(self) }),
    {
        if !self.cmd.start(tenant) {
            return None;
        }
        Some(
            CreateApplicationInput {
                display_name: trim(self.display_name.as_str()),
                sign_in_audience: Some(self.audience.clone()),
                description: trimmed_or_none(self.description.as_str()),
                create_service_principal: self.create_sp,
            },
        )
    }

    /// The app has been created: name and description are cleared for the next
    /// one. If it failed, the form stays as it is. Returns whether to close.
    pub fn finished(&mut self, outcome: Result<(), UiError>) -> (r: bool)
        ensures
            r == outcome is Ok,
            !final(self).cmd.busy,
            outcome is Ok ==> final(self).display_name@.len() == 0
                && final(self).description@.len() == 0 && final(self).cmd.error
                == old(self).cmd.error,
            outcome matches Err(e) ==> final(self).display_name == old(self).display_name
                && final(self).description == old(self).description && final(self).cmd.error
                == Some(e.message),
            final(self).audience == old(self).audience,
            final(self).create_sp == old(self).create_sp,
    {
        match outcome {
            Ok(()) => {
                self.cmd.finish(None);
                self.display_name = String::new();
                self.description = String::new();
                true
            },
            Err(e) => {
                self.cmd.finish(Some(e.message));
                false
            },
        }
    }
}

} // verus!
