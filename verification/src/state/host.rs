//! Hosts: the entries and packages of one machine, and the groups it takes part in.

use vstd::prelude::*;

use crate::config::directory::DirectoryConfigView;
use crate::constants::Defaults;
use crate::handlers::packages::{PackageSets, PackageSetsView};
use crate::state::directory::{entries_of, read_entries, Directory, DirectoryView};
use crate::state::group::{Group, GroupView};
use crate::state::source::SourceDirectory;
use crate::text::{clone_text, text_of, texts};

verus! {

/// Declares `serde_yaml::Value`. The variables of a host are such a value;
/// this library never looks into one, it hands it on.
#[verifier::external_type_specification]
#[verifier::external_body]
pub struct ExValue(serde_yaml::Value);

/// The scope of one machine.
#[derive(Debug)]
pub struct Host {
    /// The settings from the `host.yml` of the host.
    pub config: HostConfig,
    /// The variables that the templates of the host and of its groups see.
    pub variables: serde_yaml::Value,
    /// What the directory of the host holds.
    pub directory: Directory,
    /// The groups that the host names, in the order in which it names them.
    pub groups: Vec<Group>,
}

/// The mathematical value of a [`Host`].
pub struct HostView {
    pub config: HostConfigView,
    pub directory: DirectoryView,
    pub groups: Seq<GroupView>,
}

impl View for Host {
    type V = HostView;

    open spec fn view(&self) -> HostView {
        HostView {
            config: self.config@,
            directory: self.directory@,
            groups: crate::changeset::views(self.groups@),
        }
    }
}

/// The settings of a host.
#[derive(Debug)]
pub struct HostConfig {
    /// The directory that the files of this host are deployed to, in place
    /// of the target directory of the run.
    pub target_directory: Option<String>,
    pub file_defaults: HostDefaults,
    /// The names of the groups that this host takes part in.
    pub groups: Vec<String>,
    /// The packages that this host wants installed.
    pub packages: PackageSets,
}

/// The mathematical value of a [`HostConfig`].
pub struct HostConfigView {
    pub target_directory: Option<Seq<char>>,
    pub file_defaults: HostDefaultsView,
    pub groups: Seq<Seq<char>>,
    pub packages: PackageSetsView,
}

impl View for HostConfig {
    type V = HostConfigView;

    open spec fn view(&self) -> HostConfigView {
        HostConfigView {
            target_directory: text_of(self.target_directory),
            file_defaults: self.file_defaults@,
            groups: texts(self.groups@),
            packages: self.packages@,
        }
    }
}

/// What the entries of a host fall back to.
#[derive(Debug)]
pub struct HostDefaults {
    pub owner: Option<String>,
    pub group: Option<String>,
    pub file_mode: Option<u32>,
    pub directory_mode: Option<u32>,
}

/// The mathematical value of [`HostDefaults`].
pub struct HostDefaultsView {
    pub owner: Option<Seq<char>>,
    pub group: Option<Seq<char>>,
    pub file_mode: Option<u32>,
    pub directory_mode: Option<u32>,
}

impl View for HostDefaults {
    type V = HostDefaultsView;

    open spec fn view(&self) -> HostDefaultsView {
        HostDefaultsView {
            owner: text_of(self.owner),
            group: text_of(self.group),
            file_mode: self.file_mode,
            directory_mode: self.directory_mode,
        }
    }
}

impl Default for HostDefaults {
    fn default() -> (defaults: HostDefaults)
        ensures
            defaults@ == (HostDefaultsView {
                owner: None,
                group: None,
                file_mode: None,
                directory_mode: None,
            }),
    {
        HostDefaults { owner: None, group: None, file_mode: None, directory_mode: None }
    }
}


/// The files of a host directory that hold its settings and template
/// variables, and are no entries.
pub open spec fn host_files() -> Seq<Seq<char>> {
    seq!["host.yml"@, "host.yaml"@, "vars.yml"@, "vars.yaml"@]
}

/// The host that a host directory stands for, before its groups are
/// resolved: its settings, and the entries of the directory. The target
/// directory that the settings name is the destination override of every
/// entry.
pub fn read_host(
    host_dir: &str,
    source: &SourceDirectory,
    config: HostConfig,
    variables: serde_yaml::Value,
    defaults: &Defaults,
) -> (host: Host)
    ensures
        host@ == (HostView {
            config: config@,
            directory: DirectoryView {
                relative_path: host_dir@,
                entries: entries_of(
                    source.entries@,
                    Seq::empty(),
                    config@.target_directory,
                    defaults@,
                    host_files(),
                ),
                config: DirectoryConfigView::empty(),
            },
            groups: Seq::empty(),
        }),
        host.variables == variables,
{
    let mut files = Directory::new(host_dir);
    let mut skipped: Vec<String> = Vec::new();
    skipped.push(String::from_str("host.yml"));
    skipped.push(String::from_str("host.yaml"));
    skipped.push(String::from_str("vars.yml"));
    skipped.push(String::from_str("vars.yaml"));
    let path_override = clone_text(&config.target_directory);
    proof {
        reveal_strlit("");
        assert(""@ =~= Seq::<char>::empty());
        assert(texts(skipped@) =~= host_files());
    }
    read_entries("", &source.entries, &mut files, &path_override, defaults, &skipped);
    proof {
        let found = entries_of(
            source.entries@,
            Seq::empty(),
            config@.target_directory,
            defaults@,
            host_files(),
        );
        assert(Seq::<crate::state::file::EntryView>::empty() + found =~= found);
    }
    let host = Host { config, variables, directory: files, groups: Vec::new() };
    assert(host@.groups =~= Seq::empty());
    host
}

} // verus!
