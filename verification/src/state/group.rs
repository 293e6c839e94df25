//! Groups: bundles of entries and packages that hosts share.

use vstd::prelude::*;

use crate::config::directory::DirectoryConfigView;
use crate::constants::Defaults;
use crate::handlers::packages::{PackageSets, PackageSetsView};
use crate::state::directory::{entries_of, read_entries, Directory, DirectoryView};
use crate::state::source::SourceDirectory;
use crate::text::{clone_text, text_of, texts};

verus! {

/// A named bundle of entries and packages.
#[derive(Debug)]
pub struct Group {
    pub name: String,
    /// The settings from the `group.yml` of the group.
    pub config: GroupConfig,
    /// What the directory of the group holds.
    pub directory: Directory,
}

/// The mathematical value of a [`Group`].
pub struct GroupView {
    pub name: Seq<char>,
    pub config: GroupConfigView,
    pub directory: DirectoryView,
}

impl View for Group {
    type V = GroupView;

    open spec fn view(&self) -> GroupView {
        GroupView { name: self.name@, config: self.config@, directory: self.directory@ }
    }
}

/// The settings of a group.
#[derive(Debug)]
pub struct GroupConfig {
    /// The directory that the files of this group are deployed to, in place
    /// of the target directory of the run.
    pub target_directory: Option<String>,
    pub defaults: GroupDefaults,
    /// The packages that this group wants installed.
    pub packages: PackageSets,
}

/// The mathematical value of a [`GroupConfig`].
pub struct GroupConfigView {
    pub target_directory: Option<Seq<char>>,
    pub defaults: GroupDefaultsView,
    pub packages: PackageSetsView,
}

impl View for GroupConfig {
    type V = GroupConfigView;

    open spec fn view(&self) -> GroupConfigView {
        GroupConfigView {
            target_directory: text_of(self.target_directory),
            defaults: self.defaults@,
            packages: self.packages@,
        }
    }
}

impl Default for GroupConfig {
    fn default() -> (config: GroupConfig)
        ensures
            config@ == (GroupConfigView {
                target_directory: None,
                defaults: GroupDefaultsView::empty(),
                packages: PackageSetsView::empty(),
            }),
    {
        GroupConfig {
            target_directory: None,
            defaults: GroupDefaults::default(),
            packages: PackageSets::new(),
        }
    }
}

/// What the entries of a group fall back to.
#[derive(Debug)]
pub struct GroupDefaults {
    pub owner: Option<String>,
    pub group: Option<String>,
    pub file_permissions: Option<u32>,
    pub directory_permissions: Option<u32>,
}

/// The mathematical value of [`GroupDefaults`].
pub struct GroupDefaultsView {
    pub owner: Option<Seq<char>>,
    pub group: Option<Seq<char>>,
    pub file_permissions: Option<u32>,
    pub directory_permissions: Option<u32>,
}

impl GroupDefaultsView {
    /// No default at all.
    pub open spec fn empty() -> GroupDefaultsView {
        GroupDefaultsView {
            owner: None,
            group: None,
            file_permissions: None,
            directory_permissions: None,
        }
    }
}

impl View for GroupDefaults {
    type V = GroupDefaultsView;

    open spec fn view(&self) -> GroupDefaultsView {
        GroupDefaultsView {
            owner: text_of(self.owner),
            group: text_of(self.group),
            file_permissions: self.file_permissions,
            directory_permissions: self.directory_permissions,
        }
    }
}

impl Default for GroupDefaults {
    fn default() -> (defaults: GroupDefaults)
        ensures
            defaults@ == GroupDefaultsView::empty(),
    {
        GroupDefaults {
            owner: None,
            group: None,
            file_permissions: None,
            directory_permissions: None,
        }
    }
}


/// The file of a group directory that holds its settings and is no entry.
pub open spec fn group_files() -> Seq<Seq<char>> {
    seq!["group.yml"@]
}

/// The group that a group directory stands for: its settings, and the
/// entries of the directory. The target directory that the settings name is
/// the destination override of every entry.
pub fn read_group(
    group_dir: &str,
    name: &str,
    source: &SourceDirectory,
    config: GroupConfig,
    defaults: &Defaults,
) -> (group: Group)
    ensures
        group@ == (GroupView {
            name: name@,
            config: config@,
            directory: DirectoryView {
                relative_path: group_dir@,
                entries: entries_of(
                    source.entries@,
                    Seq::empty(),
                    config@.target_directory,
                    defaults@,
                    group_files(),
                ),
                config: DirectoryConfigView::empty(),
            },
        }),
{
    let mut directory = Directory::new(group_dir);
    let mut skipped: Vec<String> = Vec::new();
    skipped.push(String::from_str("group.yml"));
    let path_override = clone_text(&config.target_directory);
    proof {
        reveal_strlit("");
        assert(""@ =~= Seq::<char>::empty());
        assert(texts(skipped@) =~= group_files());
    }
    read_entries("", &source.entries, &mut directory, &path_override, defaults, &skipped);
    proof {
        let found = entries_of(
            source.entries@,
            Seq::empty(),
            config@.target_directory,
            defaults@,
            group_files(),
        );
        assert(Seq::<crate::state::file::EntryView>::empty() + found =~= found);
    }
    Group { name: String::from_str(name), config, directory }
}

} // verus!
