//! The settings of a directory, as the `bois.yml` inside it gives them.

use vstd::prelude::*;

use crate::constants::{Defaults, DefaultsView};
use crate::helper::{expand_home, home_expanded};
use crate::text::{clone_text, text_of};

verus! {

/// The permission mode of a directory that names none.
pub const DEFAULT_DIRECTORY_MODE: u32 = 0o755;

/// The settings of one directory. A path set here also holds for
/// everything below the directory that sets none of its own.
#[derive(Debug)]
pub struct DirectoryConfig {
    /// Where the directory goes. A relative path is taken from the target
    /// directory, an absolute one as it is.
    pub path: Option<String>,
    pub owner: Option<String>,
    pub group: Option<String>,
    /// The permission mode at the destination.
    pub mode: Option<u32>,
}

/// The mathematical value of a [`DirectoryConfig`].
pub struct DirectoryConfigView {
    pub path: Option<Seq<char>>,
    pub owner: Option<Seq<char>>,
    pub group: Option<Seq<char>>,
    pub mode: Option<u32>,
}

impl View for DirectoryConfig {
    type V = DirectoryConfigView;

    open spec fn view(&self) -> DirectoryConfigView {
        DirectoryConfigView {
            path: text_of(self.path),
            owner: text_of(self.owner),
            group: text_of(self.group),
            mode: self.mode,
        }
    }
}

impl DirectoryConfigView {
    /// The settings of a directory without a `bois.yml`.
    pub open spec fn empty() -> DirectoryConfigView {
        DirectoryConfigView { path: None, owner: None, group: None, mode: None }
    }

    /// The destination override with its `~` expanded.
    pub open spec fn path(self, defaults: DefaultsView) -> Option<Seq<char>> {
        match self.path {
            Some(path) => Some(home_expanded(path, defaults.home)),
            None => None,
        }
    }

    /// The permission mode: the one given, or `0o755`.
    pub open spec fn mode(self) -> u32 {
        match self.mode {
            Some(mode) => mode,
            None => DEFAULT_DIRECTORY_MODE,
        }
    }

    /// The owner of the directory: the one given, or the current user.
    pub open spec fn owner(self, defaults: DefaultsView) -> Seq<char> {
        match self.owner {
            Some(owner) => owner,
            None => defaults.user,
        }
    }

    /// The group of the directory: the one given, or the current user's group.
    pub open spec fn group(self, defaults: DefaultsView) -> Seq<char> {
        match self.group {
            Some(group) => group,
            None => defaults.group,
        }
    }
}

impl Clone for DirectoryConfig {
    fn clone(&self) -> (copy: DirectoryConfig)
        ensures
            copy@ == self@,
    {
        DirectoryConfig {
            path: clone_text(&self.path),
            owner: clone_text(&self.owner),
            group: clone_text(&self.group),
            mode: self.mode,
        }
    }
}

impl Default for DirectoryConfig {
    fn default() -> (config: DirectoryConfig)
        ensures
            config@ == DirectoryConfigView::empty(),
    {
        DirectoryConfig { path: None, owner: None, group: None, mode: None }
    }
}

impl DirectoryConfig {
    /// The destination override, with a leading `~` expanded.
    pub fn path(&self, defaults: &Defaults) -> (path: Option<String>)
        ensures
            text_of(path) == self@.path(defaults@),
    {
        match &self.path {
            Some(path) => Some(expand_home(path.as_str(), &defaults.home)),
            None => None,
        }
    }

    /// Sets the destination override; everything else stays.
    pub fn override_path(&mut self, path: String)
        ensures
            final(self)@ == (DirectoryConfigView { path: Some(path@), ..old(self)@ }),
    {
        self.path = Some(path)
    }

    /// The permission mode: the one given, or `0o755`.
    pub fn mode(&self) -> (mode: u32)
        ensures
            mode == self@.mode(),
    {
        match self.mode {
            Some(mode) => mode,
            None => DEFAULT_DIRECTORY_MODE,
        }
    }

    /// The owner of the directory: the one given, or the current user.
    pub fn owner(&self, defaults: &Defaults) -> (owner: String)
        ensures
            owner@ == self@.owner(defaults@),
    {
        match &self.owner {
            Some(owner) => owner.clone(),
            None => defaults.user.clone(),
        }
    }

    /// The group of the directory: the one given, or the current user's group.
    pub fn group(&self, defaults: &Defaults) -> (group: String)
        ensures
            group@ == self@.group(defaults@),
    {
        match &self.group {
            Some(group) => group.clone(),
            None => defaults.group.clone(),
        }
    }
}

} // verus!
