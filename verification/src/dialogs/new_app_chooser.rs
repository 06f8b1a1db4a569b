//! How to make a new application.

use vstd::prelude::*;

verus! {

/// The ways to make a new application.
#[derive(Clone, Copy, Debug, PartialEq, Eq, Structural)]
pub enum NewAppChoice {
    Gallery,
    Custom,
}

/// Which of the dialogs are open.
#[derive(Clone, Copy, Debug, PartialEq, Eq, Structural)]
pub struct NewAppChooserDialog {
    pub chooser: bool,
    pub gallery: bool,
    pub sso_wizard: bool,
}

impl NewAppChooserDialog {
    /// A choice closes the chooser and opens what was chosen.
    pub fn pick(&mut self, choice: NewAppChoice)
        ensures
            *final(self) == match choice {
                NewAppChoice::Gallery => NewAppChooserDialog {
                    chooser: false,
                    gallery: true,
                    ..*old(self)
                },
                NewAppChoice::Custom => NewAppChooserDialog {
                    chooser: false,
                    sso_wizard: true,
                    ..*old(self)
                },
            },
    {
        self.chooser = false;
        match choice {
            NewAppChoice::Gallery => {
                self.gallery = true;
            },
            NewAppChoice::Custom => {
                self.sso_wizard = true;
            },
        }
    }
}

} // verus!
