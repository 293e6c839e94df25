//! What a run knows of the account it runs under.

use vstd::prelude::*;

verus! {

/// The account of the run: entries that name no owner, group or home of
/// their own fall back to these.
#[derive(Debug)]
pub struct Defaults {
    /// The name of the current user.
    pub user: String,
    /// The name of the current user's group.
    pub group: String,
    /// The home directory of the current user, where it is known.
    pub home: Option<String>,
}

/// The mathematical value of [`Defaults`].
pub struct DefaultsView {
    pub user: Seq<char>,
    pub group: Seq<char>,
    pub home: Option<Seq<char>>,
}

impl View for Defaults {
    type V = DefaultsView;

    open spec fn view(&self) -> DefaultsView {
        DefaultsView {
            user: self.user@,
            group: self.group@,
            home: crate::text::text_of(self.home),
        }
    }
}

impl Clone for Defaults {
    fn clone(&self) -> (copy: Defaults)
        ensures
            copy@ == self@,
    {
        Defaults {
            user: self.user.clone(),
            group: self.group.clone(),
            home: crate::text::clone_text(&self.home),
        }
    }
}

} // verus!
