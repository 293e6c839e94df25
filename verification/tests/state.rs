use bois::config::bois::{Configuration, Mode};
use bois::config::directory::DirectoryConfig;
use bois::config::file::FileConfig;
use bois::constants::Defaults;
use bois::error::Error;
use bois::handlers::packages::{PackageManager, PackageSets};
use bois::state::directory::{read_directory, read_entry, Directory};
use bois::state::file::{read_file, Entry, File};
use bois::state::group::{read_group, Group, GroupConfig};
use bois::state::host::{read_host, Host, HostConfig, HostDefaults};
use bois::state::source::{SourceDirectory, SourceEntry, SourceFile};
use bois::state::State;
use bois::system_state::SystemState;

fn names(list: &[&str]) -> Vec<String> {
    list.iter().map(|name| name.to_string()).collect()
}

fn defaults() -> Defaults {
    Defaults {
        user: "user".to_string(),
        group: "users".to_string(),
        home: Some("/home/user".to_string()),
    }
}

fn configuration() -> Configuration {
    Configuration {
        name: "myhost".to_string(),
        bois_dir: "/home/user/.dotfiles".to_string(),
        target_dir: "/home/user".to_string(),
        cache_dir: "/home/user/.cache/bois".to_string(),
        runtime_dir: "/run/user/1000/bois".to_string(),
        envs: Vec::new(),
        mode: Mode::User,
    }
}

fn source_file(name: &str) -> SourceEntry {
    SourceEntry::File(SourceFile {
        name: name.to_string(),
        mode: 0o100644,
        config: FileConfig::default(),
        content: format!("content of {name}\n"),
    })
}

fn source_directory(name: &str, path: Option<&str>, entries: Vec<SourceEntry>) -> SourceDirectory {
    SourceDirectory {
        name: name.to_string(),
        config: path.map(|path| DirectoryConfig {
            path: Some(path.to_string()),
            ..DirectoryConfig::default()
        }),
        entries,
    }
}

fn files(directory: &Directory) -> Vec<&File> {
    let mut found = Vec::new();
    for entry in &directory.entries {
        match entry {
            Entry::File(file) => found.push(file),
            Entry::Directory(directory) => found.extend(files(directory)),
        }
    }
    found
}

fn host_config(groups: &[&str], packages: PackageSets) -> HostConfig {
    HostConfig {
        target_directory: None,
        file_defaults: HostDefaults::default(),
        groups: names(groups),
        packages,
    }
}

fn host(groups: &[&str], packages: PackageSets) -> Host {
    Host {
        variables: serde_yaml::Value::Null,
        config: host_config(groups, packages),
        directory: Directory::new("/home/user/.dotfiles/hosts/myhost"),
        groups: Vec::new(),
    }
}

fn group(name: &str, packages: PackageSets) -> Group {
    Group {
        name: name.to_string(),
        config: GroupConfig { packages, ..GroupConfig::default() },
        directory: Directory::new("/home/user/.dotfiles/groups"),
    }
}

fn pacman(list: &[&str]) -> PackageSets {
    let mut sets = PackageSets::new();
    sets.insert(PackageManager::Pacman, names(list));
    sets
}

fn system_without_groups() -> SystemState {
    let mut system = SystemState::new();
    system.update_package_groups(PackageManager::Pacman, Vec::new());
    system.update_package_groups(PackageManager::Paru, Vec::new());
    system
}

// --- the tree ---------------------------------------------------------------

#[test]
fn new_directory_is_empty() {
    let directory = Directory::new("some/where");
    assert_eq!(directory.relative_path, "some/where");
    assert!(directory.entries.is_empty());
    assert_eq!(directory.config.path, None);
    assert_eq!(directory.config.mode, None);
    assert_eq!(directory.config.owner, None);
    assert_eq!(directory.config.group, None);
}

#[test]
fn children_of_a_directory_with_a_path_go_below_that_path() {
    let source =
        source_directory("custom", Some("/etc/custom"), vec![source_file("a.conf"), source_file("b.conf")]);
    let directory = read_directory(&source, "custom", None, &defaults());
    assert_eq!(directory.file_path("/home/user", &defaults()), "/etc/custom");
    let destinations: Vec<String> = files(&directory)
        .iter()
        .map(|file| file.file_path("/home/user", &defaults()))
        .collect();
    assert_eq!(destinations, vec!["/etc/custom/a.conf", "/etc/custom/b.conf"]);
}

#[test]
fn path_of_a_directory_reaches_everything_below() {
    let source = source_directory(
        "custom",
        Some("~/.config/custom"),
        vec![source_directory("deep", None, vec![source_file("x")]).into_entry(), source_file("y")],
    );
    let directory = read_directory(&source, "custom", None, &defaults());
    let destinations: Vec<String> = files(&directory)
        .iter()
        .map(|file| file.file_path("/target", &defaults()))
        .collect();
    assert_eq!(
        destinations,
        vec!["/home/user/.config/custom/deep/x", "/home/user/.config/custom/y"]
    );
    match &directory.entries[0] {
        Entry::Directory(deep) => {
            assert_eq!(deep.relative_path, "custom/deep");
            assert_eq!(deep.config.path.as_deref(), Some("/home/user/.config/custom/deep"));
            assert_eq!(deep.file_path("/target", &defaults()), "/home/user/.config/custom/deep");
        }
        other => panic!("unexpected entry {other:?}"),
    }
}

trait IntoEntry {
    fn into_entry(self) -> SourceEntry;
}

impl IntoEntry for SourceDirectory {
    fn into_entry(self) -> SourceEntry {
        SourceEntry::Directory(self)
    }
}

#[test]
fn path_of_a_file_wins_over_the_path_of_its_directory() {
    let mut own = SourceFile {
        name: "own".to_string(),
        mode: 0o100600,
        config: FileConfig::default(),
        content: String::new(),
    };
    own.config.path = Some("elsewhere/own".to_string());
    let source = source_directory(
        "custom",
        Some("/etc/custom"),
        vec![SourceEntry::File(own), source_file("other")],
    );
    let directory = read_directory(&source, "custom", None, &defaults());
    let destinations: Vec<String> = files(&directory)
        .iter()
        .map(|file| file.file_path("/target", &defaults()))
        .collect();
    assert_eq!(destinations, vec!["/target/elsewhere/own", "/etc/custom/other"]);
}

#[test]
fn path_of_an_inner_directory_replaces_the_one_from_above() {
    let source = source_directory(
        "outer",
        Some("/etc/outer"),
        vec![source_directory("inner", Some("/opt/inner"), vec![source_file("x")]).into_entry()],
    );
    let directory = read_directory(&source, "outer", None, &defaults());
    let destinations: Vec<String> = files(&directory)
        .iter()
        .map(|file| file.file_path("/target", &defaults()))
        .collect();
    assert_eq!(destinations, vec!["/opt/inner/x"]);
}

#[test]
fn without_a_path_entries_go_below_the_target_directory() {
    let source = source_directory(
        "nvim",
        None,
        vec![source_file("init.lua"), source_directory("lua", None, vec![source_file("x.lua")]).into_entry()],
    );
    let directory = read_directory(&source, "nvim", None, &defaults());
    assert_eq!(directory.config.path, None);
    assert_eq!(directory.file_path("/home/user/.config", &defaults()), "/home/user/.config/nvim");
    let relative: Vec<&str> = files(&directory).iter().map(|file| file.relative_path.as_str()).collect();
    assert_eq!(relative, vec!["nvim/init.lua", "nvim/lua/x.lua"]);
    let destinations: Vec<String> = files(&directory)
        .iter()
        .map(|file| file.file_path("/home/user/.config", &defaults()))
        .collect();
    assert_eq!(
        destinations,
        vec!["/home/user/.config/nvim/init.lua", "/home/user/.config/nvim/lua/x.lua"]
    );
}

#[test]
fn settings_file_of_a_directory_is_no_entry() {
    let source = source_directory(
        "d",
        None,
        vec![source_file("bois.yml"), source_file("kept"), source_file("bois.yaml")],
    );
    let directory = read_directory(&source, "d", None, &defaults());
    let relative: Vec<&str> = files(&directory).iter().map(|file| file.relative_path.as_str()).collect();
    assert_eq!(relative, vec!["d/kept", "d/bois.yaml"]);
}

#[test]
fn entry_is_added_to_its_directory() {
    let mut directory = Directory::new("");
    read_entry("", &source_file("a"), &mut directory, None, &defaults());
    read_entry("", &source_file("b"), &mut directory, Some("/etc".to_string()), &defaults());
    let found = files(&directory);
    assert_eq!(found.len(), 2);
    assert_eq!(found[0].relative_path, "a");
    assert_eq!(found[0].config.path, None);
    assert_eq!(found[0].content, "content of a\n");
    assert_eq!(found[0].mode, 0o100644);
    assert_eq!(found[1].relative_path, "b");
    assert_eq!(found[1].config.path.as_deref(), Some("/etc/b"));
}

#[test]
fn renamed_file_keeps_its_directory() {
    let mut bashrc = File {
        relative_path: "shell/bashrc".to_string(),
        config: FileConfig::default(),
        content: String::new(),
        mode: 0o644,
    };
    bashrc.config.rename = Some(".bashrc".to_string());
    assert_eq!(bashrc.file_path("/home/user", &defaults()), "/home/user/shell/.bashrc");
    bashrc.config.path = Some("~/bashrc".to_string());
    assert_eq!(bashrc.file_path("/target", &defaults()), "/home/user/.bashrc");
}

#[test]
fn mode_of_a_file_falls_back_to_the_mode_of_its_source() {
    let mut file = File {
        relative_path: "x".to_string(),
        config: FileConfig::default(),
        content: String::new(),
        mode: 0o100755,
    };
    assert_eq!(file.mode(), 0o100755);
    file.config.mode = Some(0o600);
    assert_eq!(file.mode(), 0o600);
}

#[test]
fn parse_error_names_the_file() {
    let text = "# bois_config\n# mode: 0o755\necho hi\n";
    match read_file("bin/hi", text) {
        Err(Error::InvalidConfigBlock(path, error)) => {
            assert_eq!(path, "bin/hi");
            assert_eq!(error.offset, 28);
        }
        other => panic!("unexpected result {other:?}"),
    }
    let parsed = read_file("bin/hi", "#!/bin/sh\n# bois_config\n# mode: 0o755\n# bois_config\necho hi\n")
        .unwrap();
    assert_eq!(parsed.config_block.as_deref(), Some("mode: 0o755"));
    assert_eq!(parsed.content(), "#!/bin/shecho hi\n");
}

// --- hosts and groups -------------------------------------------------------

#[test]
fn host_directory_without_its_settings_files() {
    let source = source_directory(
        "myhost",
        None,
        vec![
            source_file("host.yml"),
            source_file("vars.yaml"),
            source_file("zshrc"),
            source_file("host.yaml"),
            source_file("vars.yml"),
            source_file("group.yml"),
        ],
    );
    let mut variables = serde_yaml::Mapping::new();
    variables.insert(serde_yaml::Value::from("editor"), serde_yaml::Value::from("vim"));
    let variables = serde_yaml::Value::Mapping(variables);
    let host = read_host(
        "/dots/hosts/myhost",
        &source,
        host_config(&["base"], PackageSets::new()),
        variables.clone(),
        &defaults(),
    );
    assert_eq!(host.variables, variables);
    assert_eq!(host.directory.relative_path, "/dots/hosts/myhost");
    let relative: Vec<&str> =
        files(&host.directory).iter().map(|file| file.relative_path.as_str()).collect();
    assert_eq!(relative, vec!["zshrc", "group.yml"]);
    assert!(host.groups.is_empty());
    assert_eq!(host.config.groups, vec!["base"]);
}

#[test]
fn target_directory_of_a_host_is_the_path_of_its_entries() {
    let source = source_directory("myhost", None, vec![source_file("zshrc")]);
    let mut config = host_config(&[], PackageSets::new());
    config.target_directory = Some("/etc".to_string());
    let host =
        read_host("/dots/hosts/myhost", &source, config, serde_yaml::Value::Null, &defaults());
    let found = files(&host.directory);
    assert_eq!(found[0].config.path.as_deref(), Some("/etc/zshrc"));
    assert_eq!(found[0].file_path("/home/user", &defaults()), "/etc/zshrc");
}

#[test]
fn group_directory_without_its_settings_file() {
    let source = source_directory(
        "base",
        None,
        vec![source_file("group.yml"), source_file("gitconfig"), source_file("host.yml")],
    );
    let group = read_group("/dots/groups/base", "base", &source, GroupConfig::default(), &defaults());
    assert_eq!(group.name, "base");
    assert_eq!(group.directory.relative_path, "/dots/groups/base");
    let relative: Vec<&str> =
        files(&group.directory).iter().map(|file| file.relative_path.as_str()).collect();
    assert_eq!(relative, vec!["gitconfig", "host.yml"]);
}

#[test]
fn groups_of_a_host_are_resolved() {
    let state = State::new(
        &configuration(),
        host(&["base", "desktop"], PackageSets::new()),
        vec![group("base", PackageSets::new()), group("desktop", PackageSets::new())],
        &SystemState::new(),
    )
    .unwrap();
    let resolved: Vec<&str> = state.host.groups.iter().map(|group| group.name.as_str()).collect();
    assert_eq!(resolved, vec!["base", "desktop"]);
    assert_eq!(state.configuration.name, "myhost");
    assert_eq!(state.packages.pacman, None);
}

#[test]
fn assembled_state_has_no_packages_yet() {
    let mut state = State::assemble(
        &configuration(),
        host(&["base"], pacman(&["vim"])),
        vec![group("base", pacman(&["git"]))],
    )
    .unwrap();
    assert_eq!(state.host.groups.len(), 1);
    assert_eq!(state.packages.pacman, None);
    assert!(matches!(
        state.load_packages(&SystemState::new()),
        Err(Error::GroupsNotLoaded(PackageManager::Pacman))
    ));
    assert_eq!(state.packages.pacman, None);
    state.load_packages(&system_without_groups()).unwrap();
    assert_eq!(state.packages.pacman, Some(names(&["vim", "git"])));
    assert!(matches!(
        State::assemble(&configuration(), host(&["base"], PackageSets::new()), Vec::new()),
        Err(Error::UnknownGroup(_))
    ));
}

#[test]
fn packages_that_are_declared_again_are_found() {
    let mut desktop = pacman(&["sway", "vim", "htop"]);
    desktop.insert(PackageManager::Paru, names(&["yay-bin"]));
    let state = State::assemble(
        &configuration(),
        host(&["base", "desktop"], pacman(&["vim", "git"])),
        vec![group("base", pacman(&["git", "htop"])), group("desktop", desktop)],
    )
    .unwrap();
    let found: Vec<(PackageManager, String, String)> = state
        .duplicate_packages()
        .into_iter()
        .map(|duplicate| (duplicate.manager, duplicate.name, duplicate.group))
        .collect();
    assert_eq!(
        found,
        vec![
            (PackageManager::Pacman, "git".to_string(), "base".to_string()),
            (PackageManager::Pacman, "vim".to_string(), "desktop".to_string()),
            (PackageManager::Pacman, "htop".to_string(), "desktop".to_string()),
        ]
    );
}

#[test]
fn group_that_is_not_there_is_an_error() {
    let result = State::new(
        &configuration(),
        host(&["base", "desktop"], PackageSets::new()),
        vec![group("base", PackageSets::new())],
        &SystemState::new(),
    );
    match result {
        Err(Error::UnknownGroup(name)) => assert_eq!(name, "desktop"),
        other => panic!("unexpected result {other:?}"),
    }
    let result = State::new(
        &configuration(),
        host(&["base", "desktop"], PackageSets::new()),
        vec![group("desktop", PackageSets::new()), group("base", PackageSets::new())],
        &SystemState::new(),
    );
    match result {
        Err(Error::UnknownGroup(name)) => assert_eq!(name, "base"),
        other => panic!("unexpected result {other:?}"),
    }
}

#[test]
fn group_that_was_not_asked_for_is_an_error() {
    let result = State::new(
        &configuration(),
        host(&["base"], PackageSets::new()),
        vec![group("base", PackageSets::new()), group("extra", PackageSets::new())],
        &SystemState::new(),
    );
    match result {
        Err(Error::UnknownGroup(name)) => assert_eq!(name, "extra"),
        other => panic!("unexpected result {other:?}"),
    }
}

// --- packages ---------------------------------------------------------------

#[test]
fn packages_of_host_and_groups_are_put_together() {
    let mut desktop = pacman(&["sway", "vim"]);
    desktop.insert(PackageManager::Paru, names(&["yay-bin"]));
    let state = State::new(
        &configuration(),
        host(&["base", "desktop"], pacman(&["vim", "git"])),
        vec![group("base", pacman(&["git", "htop"])), group("desktop", desktop)],
        &system_without_groups(),
    )
    .unwrap();
    assert_eq!(state.packages.pacman, Some(names(&["vim", "git", "htop", "sway"])));
    assert_eq!(state.packages.paru, Some(names(&["yay-bin"])));
    assert_eq!(state.packages.apt, None);
}

#[test]
fn package_group_is_replaced_by_its_packages() {
    let mut system = SystemState::new();
    system.update_package_groups(PackageManager::Pacman, names(&["xorg-apps", "base-devel"]));
    system.update_group_packages(
        PackageManager::Pacman,
        "xorg-apps".to_string(),
        names(&["xorg-xrandr", "vim", "xorg-xset"]),
    );
    let state = State::new(
        &configuration(),
        host(&[], pacman(&["vim", "xorg-apps", "git"])),
        Vec::new(),
        &system,
    )
    .unwrap();
    assert_eq!(state.packages.pacman, Some(names(&["vim", "git", "xorg-xrandr", "xorg-xset"])));
}

#[test]
fn name_of_a_package_group_never_stays() {
    let mut system = SystemState::new();
    system.update_package_groups(PackageManager::Pacman, names(&["outer", "inner"]));
    system.update_group_packages(PackageManager::Pacman, "outer".to_string(), names(&["inner", "a"]));
    let state =
        State::new(&configuration(), host(&[], pacman(&["outer"])), Vec::new(), &system).unwrap();
    assert_eq!(state.packages.pacman, Some(names(&["a"])));
}

#[test]
fn packages_ask_for_the_installed_groups() {
    let result =
        State::new(&configuration(), host(&[], pacman(&["vim"])), Vec::new(), &SystemState::new());
    assert!(matches!(result, Err(Error::GroupsNotLoaded(PackageManager::Pacman))));
}

#[test]
fn packages_ask_for_the_packages_of_a_group() {
    let mut system = SystemState::new();
    system.update_package_groups(PackageManager::Pacman, names(&["xorg-apps"]));
    let result =
        State::new(&configuration(), host(&[], pacman(&["vim", "xorg-apps"])), Vec::new(), &system);
    match result {
        Err(Error::GroupMembersNotLoaded(manager, name)) => {
            assert_eq!(manager, PackageManager::Pacman);
            assert_eq!(name, "xorg-apps");
        }
        other => panic!("unexpected result {other:?}"),
    }
}

#[test]
fn loading_packages_again_gives_the_same_packages() {
    let mut state = State::new(
        &configuration(),
        host(&["base"], pacman(&["vim"])),
        vec![group("base", pacman(&["git"]))],
        &system_without_groups(),
    )
    .unwrap();
    state.load_packages(&system_without_groups()).unwrap();
    assert_eq!(state.packages.pacman, Some(names(&["vim", "git"])));
    assert!(state.load_packages(&SystemState::new()).is_err());
    assert_eq!(state.packages.pacman, Some(names(&["vim", "git"])));
}
