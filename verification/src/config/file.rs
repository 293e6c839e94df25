//! The settings of a single file, as its embedded configuration block gives them.

use vstd::prelude::*;

use crate::constants::{Defaults, DefaultsView};
use crate::helper::{expand_home, home_expanded};
use crate::text::{clone_text, text_of};

verus! {

/// The settings of one file. Every optional field that is left out falls
/// back to a default of the run.
#[derive(Debug)]
pub struct FileConfig {
    /// Where the file goes. A relative path is taken from the target
    /// directory, an absolute one as it is.
    pub path: Option<String>,
    /// The file name at the destination, where it differs from the source.
    pub rename: Option<String>,
    pub owner: Option<String>,
    pub group: Option<String>,
    /// The permission mode at the destination.
    pub mode: Option<u32>,
    /// The delimiters of template expressions, where the usual ones clash
    /// with the syntax of the file.
    pub delimiters: Option<Delimiters>,
    /// Whether the content is a template.
    pub template: bool,
}

/// The mathematical value of a [`FileConfig`].
pub struct FileConfigView {
    pub path: Option<Seq<char>>,
    pub rename: Option<Seq<char>>,
    pub owner: Option<Seq<char>>,
    pub group: Option<Seq<char>>,
    pub mode: Option<u32>,
    pub delimiters: Option<DelimitersView>,
    pub template: bool,
}

impl View for FileConfig {
    type V = FileConfigView;

    open spec fn view(&self) -> FileConfigView {
        FileConfigView {
            path: text_of(self.path),
            rename: text_of(self.rename),
            owner: text_of(self.owner),
            group: text_of(self.group),
            mode: self.mode,
            delimiters: match self.delimiters {
                Some(delimiters) => Some(delimiters@),
                None => None,
            },
            template: self.template,
        }
    }
}

impl FileConfigView {
    /// The settings of a file without a configuration block.
    pub open spec fn empty() -> FileConfigView {
        FileConfigView {
            path: None,
            rename: None,
            owner: None,
            group: None,
            mode: None,
            delimiters: None,
            template: false,
        }
    }

    /// The destination override with its `~` expanded.
    pub open spec fn path(self, defaults: DefaultsView) -> Option<Seq<char>> {
        match self.path {
            Some(path) => Some(home_expanded(path, defaults.home)),
            None => None,
        }
    }

    /// The owner of the file: the one given, or the current user.
    pub open spec fn owner(self, defaults: DefaultsView) -> Seq<char> {
        match self.owner {
            Some(owner) => owner,
            None => defaults.user,
        }
    }

    /// The group of the file: the one given, or the current user's group.
    pub open spec fn group(self, defaults: DefaultsView) -> Seq<char> {
        match self.group {
            Some(group) => group,
            None => defaults.group,
        }
    }
}

impl Clone for FileConfig {
    fn clone(&self) -> (copy: FileConfig)
        ensures
            copy@ == self@,
    {
        FileConfig {
            path: clone_text(&self.path),
            rename: clone_text(&self.rename),
            owner: clone_text(&self.owner),
            group: clone_text(&self.group),
            mode: self.mode,
            delimiters: match &self.delimiters {
                Some(delimiters) => Some(delimiters.clone()),
                None => None,
            },
            template: self.template,
        }
    }
}

impl Default for FileConfig {
    fn default() -> (config: FileConfig)
        ensures
            config@ == FileConfigView::empty(),
    {
        FileConfig {
            path: None,
            rename: None,
            owner: None,
            group: None,
            mode: None,
            delimiters: None,
            template: false,
        }
    }
}

impl FileConfig {
    /// The destination override, with a leading `~` expanded.
    pub fn path(&self, defaults: &Defaults) -> (path: Option<String>)
        ensures
            text_of(path) == self@.path(defaults@),
    {
        match &self.path {
            Some(path) => Some(expand_home(path.as_str(), &defaults.home)),
            None => None,
        }
    }

    /// Sets the destination override; everything else stays.
    pub fn override_path(&mut self, path: String)
        ensures
            final(self)@ == (FileConfigView { path: Some(path@), ..old(self)@ }),
    {
        self.path = Some(path)
    }

    /// The owner of the file: the one given, or the current user.
    pub fn owner(&self, defaults: &Defaults) -> (owner: String)
        ensures
            owner@ == self@.owner(defaults@),
    {
        match &self.owner {
            Some(owner) => owner.clone(),
            None => defaults.user.clone(),
        }
    }

    /// The group of the file: the one given, or the current user's group.
    pub fn group(&self, defaults: &Defaults) -> (group: String)
        ensures
            group@ == self@.group(defaults@),
    {
        match &self.group {
            Some(group) => group.clone(),
            None => defaults.group.clone(),
        }
    }
}

/// The delimiters of template expressions.
///
/// A prefix, where one is set, goes before the opening delimiter of each
/// kind, so that `#{% if .. %}` reads as a comment to tools that know nothing
/// of templates.
#[derive(Debug)]
pub struct Delimiters {
    pub prefix: Option<String>,
    /// The delimiters of a logical block, such as `{%` and `%}`.
    pub block: (String, String),
    /// The delimiters of a variable, such as `{{` and `}}`.
    pub variable: (String, String),
    /// The delimiters of a comment, such as `{#` and `#}`.
    pub comment: (String, String),
}

/// The mathematical value of [`Delimiters`].
pub struct DelimitersView {
    pub prefix: Option<Seq<char>>,
    pub block: (Seq<char>, Seq<char>),
    pub variable: (Seq<char>, Seq<char>),
    pub comment: (Seq<char>, Seq<char>),
}

impl View for Delimiters {
    type V = DelimitersView;

    open spec fn view(&self) -> DelimitersView {
        DelimitersView {
            prefix: text_of(self.prefix),
            block: (self.block.0@, self.block.1@),
            variable: (self.variable.0@, self.variable.1@),
            comment: (self.comment.0@, self.comment.1@),
        }
    }
}

impl DelimitersView {
    /// A pair of delimiters with the prefix before the opening one.
    pub open spec fn prefixed(self, pair: (Seq<char>, Seq<char>)) -> (Seq<char>, Seq<char>) {
        match self.prefix {
            Some(prefix) => (prefix + pair.0, pair.1),
            None => pair,
        }
    }
}

impl Clone for Delimiters {
    fn clone(&self) -> (copy: Delimiters)
        ensures
            copy@ == self@,
    {
        Delimiters {
            prefix: clone_text(&self.prefix),
            block: (self.block.0.clone(), self.block.1.clone()),
            variable: (self.variable.0.clone(), self.variable.1.clone()),
            comment: (self.comment.0.clone(), self.comment.1.clone()),
        }
    }
}

impl Default for Delimiters {
    fn default() -> (delimiters: Delimiters)
        ensures
            delimiters@ == (DelimitersView {
                prefix: None,
                block: (Seq::empty(), Seq::empty()),
                variable: (Seq::empty(), Seq::empty()),
                comment: (Seq::empty(), Seq::empty()),
            }),
    {
        Delimiters {
            prefix: None,
            block: (String::new(), String::new()),
            variable: (String::new(), String::new()),
            comment: (String::new(), String::new()),
        }
    }
}

impl Delimiters {
    /// The delimiters of a block when none are given: `{%` and `%}`.
    pub fn default_block_delimiter() -> (pair: (String, String))
        ensures
            pair.0@ == seq!['{', '%'],
            pair.1@ == seq!['%', '}'],
    {
        proof {
            reveal_strlit("{%");
            reveal_strlit("%}");
            assert("{%"@ =~= seq!['{', '%']);
            assert("%}"@ =~= seq!['%', '}']);
        }
        (String::from_str("{%"), String::from_str("%}"))
    }

    /// The delimiters of a variable when none are given: `{{` and `}}`.
    pub fn default_variable_delimiter() -> (pair: (String, String))
        ensures
            pair.0@ == seq!['{', '{'],
            pair.1@ == seq!['}', '}'],
    {
        proof {
            reveal_strlit("{{");
            reveal_strlit("}}");
            assert("{{"@ =~= seq!['{', '{']);
            assert("}}"@ =~= seq!['}', '}']);
        }
        (String::from_str("{{"), String::from_str("}}"))
    }

    /// The delimiters of a comment when none are given: `{#` and `#}`.
    pub fn default_comment_delimiter() -> (pair: (String, String))
        ensures
            pair.0@ == seq!['{', '#'],
            pair.1@ == seq!['#', '}'],
    {
        proof {
            reveal_strlit("{#");
            reveal_strlit("#}");
            assert("{#"@ =~= seq!['{', '#']);
            assert("#}"@ =~= seq!['#', '}']);
        }
        (String::from_str("{#"), String::from_str("#}"))
    }

    /// A pair of delimiters with the prefix before the opening one.
    fn with_prefix(&self, pair: &(String, String)) -> (prefixed: (String, String))
        ensures
            (prefixed.0@, prefixed.1@) == self@.prefixed((pair.0@, pair.1@)),
    {
        match &self.prefix {
            Some(prefix) => {
                let mut opening = prefix.clone();
                opening.append(pair.0.as_str());
                (opening, pair.1.clone())
            },
            None => (pair.0.clone(), pair.1.clone()),
        }
    }

    /// The delimiters of a block, the opening one after the prefix.
    pub fn block(&self) -> (pair: (String, String))
        ensures
            (pair.0@, pair.1@) == self@.prefixed(self@.block),
    {
        self.with_prefix(&self.block)
    }

    /// The delimiters of a variable, the opening one after the prefix.
    pub fn variable(&self) -> (pair: (String, String))
        ensures
            (pair.0@, pair.1@) == self@.prefixed(self@.variable),
    {
        self.with_prefix(&self.variable)
    }

    /// The delimiters of a comment, the opening one after the prefix.
    pub fn comment(&self) -> (pair: (String, String))
        ensures
            (pair.0@, pair.1@) == self@.prefixed(self@.comment),
    {
        self.with_prefix(&self.comment)
    }
}

} // verus!
