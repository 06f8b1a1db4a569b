//! Adding an application from the gallery: browse, then name it and create it.

use crate::session::{copy_text, Command, UiError};
use crate::text::{
    blank, characters, copy_strings, count, decimal, is_blank, join, joined, number, texts, trim, trimmed,
};
use vstd::prelude::*;
use vstd::string::*;

verus! {

/// How many characters a search needs. Characters, not bytes: a single ideograph
/// is one.
pub const MIN_QUERY_CHARS: usize = 2;

/// A gallery template.
#[derive(Debug)]
pub struct ApplicationTemplate {
    pub id: String,
    pub display_name: String,
    pub publisher: Option<String>,
    pub supported_single_sign_on_modes: Vec<String>,
}

impl ApplicationTemplate {
    /// The same template once more.
    fn copy(&self) -> (r: ApplicationTemplate)
        ensures
            r.id == self.id,
            r.display_name == self.display_name,
            r.publisher == self.publisher,
            r.supported_single_sign_on_modes@ == self.supported_single_sign_on_modes@,
    {
        ApplicationTemplate {
            id: self.id.clone(),
            display_name: self.display_name.clone(),
            publisher: copy_text(&self.publisher),
            supported_single_sign_on_modes: copy_strings(&self.supported_single_sign_on_modes),
        }
    }
}

/// What a search has found.
#[derive(Debug)]
pub struct GallerySearchResults {
    pub results: Vec<ApplicationTemplate>,
    pub total_matches: u64,
    pub truncated: bool,
    /// Only part of the gallery could be searched.
    pub partial_catalog: bool,
}

/// The dialog: browsing while nothing is selected, naming once a template is.
#[derive(Debug)]
pub struct GalleryDialog {
    pub cmd: Command,
    pub raw_query: String,
    pub selected: Option<ApplicationTemplate>,
    pub name: String,
}

/// The application to create.
#[derive(Debug)]
pub struct CreateGalleryApp {
    pub template_id: String,
    pub display_name: String,
}

impl GalleryDialog {
    /// Nothing searched for, nothing selected.
    pub fn new() -> (r: GalleryDialog)
        ensures
            !r.cmd.busy,
            r.cmd.error is None,
            r.raw_query@.len() == 0,
            r.selected is None,
            r.name@.len() == 0,
    {
        GalleryDialog {
            cmd: Command::new(),
            raw_query: String::new(),
            selected: None,
            name: String::new(),
        }
    }

    /// Whether the gallery is to be searched: enough characters, and a tenant.
    pub fn searches(query: &str, tenant: &Option<String>) -> (r: bool)
        ensures
            r == (trimmed(query@).len() >= MIN_QUERY_CHARS && tenant is Some),
            r == (trimmed(query@).len() > 1 && tenant is Some),
    {
        let cs = characters(trim(query).as_str());
        cs.len() >= MIN_QUERY_CHARS && tenant.is_some()
    }

    /// What the gallery is searched for: the query without its outer white space.
    /// Nothing where it is not to be searched.
    pub fn search_text(query: &str, tenant: &Option<String>) -> (r: Option<String>)
        ensures
            r is Some <==> trimmed(query@).len() >= MIN_QUERY_CHARS && tenant is Some,
            r matches Some(q) ==> q@ == trimmed(query@),
    {
        if GalleryDialog::searches(query, tenant) {
            Some(trim(query))
        } else {
            None
        }
    }

    /// A template is picked; its own name is the first suggestion.
    pub fn pick(&mut self, template: &ApplicationTemplate)
        ensures
            final(self).name == template.display_name,
            final(self).selected is Some,
            final(self).selected->0.id == template.id,
            final(self).selected->0.display_name == template.display_name,
            final(self).selected->0.publisher == template.publisher,
            final(self).selected->0.supported_single_sign_on_modes@
                == template.supported_single_sign_on_modes@,
            *final(self) == (GalleryDialog {
                name: final(self).name,
                selected: final(self).selected,
                ..*old(self)
            }),
    {
        self.name = template.display_name.clone();
        self.selected = Some(template.copy());
    }

    /// Back to browsing.
    pub fn back(&mut self)
        ensures
            *final(self) == (GalleryDialog { selected: None, ..*old(self) }),
    {
        self.selected = None;
    }

    /// Whether "Create" can be used: nothing under way, and a name.
    pub fn can_create(&self) -> (r: bool)
        ensures
            r == (!self.cmd.busy && !blank(self.name@)),
    {
        !self.cmd.busy && !is_blank(self.name.as_str())
    }

    /// "Create": what to create, if a template is selected, nothing is under
    /// way and there is a tenant.
    pub fn create(&mut self, tenant: &Option<String>) -> (r: Option<CreateGalleryApp>)
        ensures
            r is Some <==> old(self).selected is Some && old(self).cmd.ready(*tenant),
            r matches Some(c) ==> c.template_id == old(self).selected->0.id && c.display_name@
                == trimmed(old(self).name@) && final(self).cmd.busy && final(self).cmd.error is None,
            r is None ==> final(self).cmd == old(self).cmd,
            *final(self) == (GalleryDialog { cmd: final(self).cmd, ..*old(self) }),
    {
        let template_id = match &self.selected {
            Some(t) => t.id.clone(),
            None => {
                return None;
            },
        };
        if !self.cmd.start(tenant) {
            return None;
        }
        Some(CreateGalleryApp { template_id, display_name: trim(self.name.as_str()) })
    }

    /// The application has been created, or could not be. Returns whether to
    /// close.
    pub fn finished(&mut self, outcome: Result<(), UiError>) -> (r: bool)
        ensures
            r == outcome is Ok,
            !final(self).cmd.busy,
            final(self).cmd.error == match outcome {
                Ok(_) => old(self).cmd.error,
                Err(e) => Some(e.message),
            },
            *final(self) == (GalleryDialog { cmd: final(self).cmd, ..*old(self) }),
    {
        match outcome {
            Ok(()) => {
                self.cmd.finish(None);
                true
            },
            Err(e) => {
                self.cmd.finish(Some(e.message));
                false
            },
        }
    }
}

/// The sign-on modes of a template in one line; nothing if it names none.
pub fn modes_line(template: &ApplicationTemplate) -> (r: Option<String>)
    ensures
        r is None <==> joined(texts(template.supported_single_sign_on_modes@), " · "@).len() == 0,
        r matches Some(t) ==> t@ == joined(texts(template.supported_single_sign_on_modes@), " · "@),
{
    let t = join(&template.supported_single_sign_on_modes, " · ");
    if t.as_str().is_empty() {
        None
    } else {
        Some(t)
    }
}

/// What the browse stage shows.
#[derive(Debug)]
pub enum GalleryListing {
    /// The search failed.
    Failed(String),
    /// Nothing has been searched for yet.
    Prompt,
    /// The search matched nothing.
    Nothing(String),
    /// There are matches; the line says so where some were left out.
    Matches(Option<String>),
}

/// What is said where a search matched nothing. Where only part of the gallery
/// was searched, it does not claim that the application is not there.
pub open spec fn no_match_line(asked: Seq<char>, partial_catalog: bool) -> Seq<char> {
    if partial_catalog {
        "No gallery apps match that search, but the gallery was only partly loaded — try a narrower name."@
    } else {
        "No gallery apps match “"@ + asked + "”."@
    }
}

/// What is said where matches were left out.
pub open spec fn narrowed_line(shown: nat, total: nat) -> Seq<char> {
    "Showing the closest "@ + decimal(shown) + " of "@ + decimal(total)
        + " matches — refine the search to narrow it."@
}

/// What the browse stage shows of the outcome of a search. `found` is empty
/// where nothing was searched for: only that asks the reader to type.
pub fn listing(found: &Result<Option<GallerySearchResults>, String>, query: &str) -> (r:
    GalleryListing)
    ensures
        found matches Err(m) ==> r is Failed && r->Failed_0@ == "Search failed: "@ + m@,
        found matches Ok(None) ==> r is Prompt,
        found matches Ok(Some(f)) ==> if f.results@.len() == 0 {
            r is Nothing && r->Nothing_0@ == no_match_line(trimmed(query@), f.partial_catalog)
        } else {
            &&& r is Matches
            &&& r->Matches_0 is Some <==> f.truncated
            &&& r->Matches_0 matches Some(t) ==> t@ == narrowed_line(
                f.results@.len(),
                f.total_matches as nat,
            )
        },
        found matches Ok(Some(f)) ==> (f.results@.len() == 0 && f.partial_catalog ==> r->Nothing_0@
            == "No gallery apps match that search, but the gallery was only partly loaded — try a narrower name."@),
        found matches Ok(Some(f)) ==> (f.results@.len() == 0 && !f.partial_catalog
            ==> r->Nothing_0@ == "No gallery apps match “"@ + trimmed(query@) + "”."@),
        found matches Ok(Some(f)) ==> (f.results@.len() > 0 ==> (r->Matches_0 matches Some(t)
            ==> t@ == "Showing the closest "@ + decimal(f.results@.len()) + " of "@ + decimal(
            f.total_matches as nat,
        ) + " matches — refine the search to narrow it."@)),
{
    match found {
        Err(m) => {
            let mut s = "Search failed: ".to_owned();
            s.append(m.as_str());
            GalleryListing::Failed(s)
        },
        Ok(None) => GalleryListing::Prompt,
        Ok(Some(f)) => {
            if f.results.len() == 0 {
                if f.partial_catalog {
                    GalleryListing::Nothing(
                        "No gallery apps match that search, but the gallery was only partly loaded — try a narrower name.".to_owned(),
                    )
                } else {
                    let mut s = "No gallery apps match “".to_owned();
                    s.append(trim(query).as_str());
                    s.append("”.");
                    GalleryListing::Nothing(s)
                }
            } else if f.truncated {
                let mut s = "Showing the closest ".to_owned();
                s.append(count(f.results.len()).as_str());
                s.append(" of ");
                s.append(number(f.total_matches).as_str());
                s.append(" matches — refine the search to narrow it.");
                GalleryListing::Matches(Some(s))
            } else {
                GalleryListing::Matches(None)
            }
        },
    }
}

} // verus!
