use bois::changeset::{
    host_to_state, state_to_host, state_to_state, Changeset, DirectoryOperation, FileOperation,
    PathOperation,
};
use bois::commands::deploy;
use bois::config::bois::{Configuration, Mode};
use bois::config::directory::DirectoryConfig;
use bois::config::file::FileConfig;
use bois::constants::Defaults;
use bois::error::Error;
use bois::handlers::packages::{PackageManager, PackageSets};
use bois::state::directory::Directory;
use bois::state::file::{Entry, File};
use bois::state::group::{Group, GroupConfig};
use bois::state::host::{Host, HostConfig, HostDefaults};
use bois::state::State;
use bois::system_state::{LiveEntry, SystemState};

fn names(list: &[&str]) -> Vec<String> {
    list.iter().map(|name| name.to_string()).collect()
}

fn defaults() -> Defaults {
    Defaults {
        user: "user".to_string(),
        group: "users".to_string(),
        home: Some("/home/user".to_string()),
    }
}

fn configuration() -> Configuration {
    Configuration {
        name: "myhost".to_string(),
        bois_dir: "/home/user/.dotfiles".to_string(),
        target_dir: "/home/user".to_string(),
        cache_dir: "/home/user/.cache/bois".to_string(),
        runtime_dir: "/run/user/1000/bois".to_string(),
        envs: Vec::new(),
        mode: Mode::User,
    }
}

fn state(entries: Vec<Entry>, groups: Vec<Group>, packages: PackageSets) -> State {
    State {
        host: Host {
            variables: serde_yaml::Value::Null,
            config: HostConfig {
                target_directory: None,
                file_defaults: HostDefaults::default(),
                groups: groups.iter().map(|group| group.name.clone()).collect(),
                packages: PackageSets::new(),
            },
            directory: Directory {
                relative_path: "/home/user/.dotfiles/hosts/myhost".to_string(),
                entries,
                config: DirectoryConfig::default(),
            },
            groups,
        },
        configuration: configuration(),
        packages,
    }
}

fn group(name: &str, entries: Vec<Entry>) -> Group {
    Group {
        name: name.to_string(),
        config: GroupConfig::default(),
        directory: Directory {
            relative_path: format!("/home/user/.dotfiles/groups/{name}"),
            entries,
            config: DirectoryConfig::default(),
        },
    }
}

fn pacman(list: &[&str]) -> PackageSets {
    let mut sets = PackageSets::new();
    sets.insert(PackageManager::Pacman, names(list));
    sets
}

fn file(relative_path: &str, content: &str) -> File {
    File {
        relative_path: relative_path.to_string(),
        config: FileConfig::default(),
        content: content.to_string(),
        mode: 0o644,
    }
}

fn directory(relative_path: &str, entries: Vec<Entry>) -> Directory {
    Directory { relative_path: relative_path.to_string(), entries, config: DirectoryConfig::default() }
}

fn live_file(content: &str, mode: u32) -> Option<LiveEntry> {
    Some(LiveEntry {
        content: Some(content.to_string()),
        mode,
        owner: "user".to_string(),
        group: "users".to_string(),
    })
}

fn live_directory(mode: u32) -> Option<LiveEntry> {
    Some(LiveEntry { content: None, mode, owner: "user".to_string(), group: "users".to_string() })
}

fn plan(state: &State, system: &SystemState) -> Result<Changeset, Error> {
    state_to_host::create_changeset(&configuration(), state, system, &defaults())
}

fn drift(old: &State, new: &State, system: &SystemState) -> Result<Changeset, Error> {
    host_to_state::create_changeset(&configuration(), system, old, new, &defaults())
}

fn show(operations: &[PathOperation]) -> Vec<String> {
    operations.iter().map(|operation| format!("{operation:?}")).collect()
}

// --- packages ---------------------------------------------------------------

#[test]
fn missing_package_is_installed() {
    let desired = state(Vec::new(), Vec::new(), pacman(&["vim"]));
    let mut system = SystemState::new();
    system.update_packages(PackageManager::Pacman, Vec::new(), Vec::new());
    let changes = plan(&desired, &system).unwrap();
    assert_eq!(changes.package_installs.len(), 1);
    assert_eq!(changes.package_installs[0].manager, PackageManager::Pacman);
    assert_eq!(changes.package_installs[0].name, "vim");
    assert!(changes.package_uninstalls.is_empty());
    assert!(changes.path_operations.is_empty());
}

#[test]
fn package_installed_as_dependency_is_not_installed_again() {
    let desired = state(Vec::new(), Vec::new(), pacman(&["vim", "git", "htop"]));
    let mut system = SystemState::new();
    system.update_packages(PackageManager::Pacman, names(&["git", "glibc"]), names(&["glibc"]));
    let changes = plan(&desired, &system).unwrap();
    let installed: Vec<&str> =
        changes.package_installs.iter().map(|install| install.name.as_str()).collect();
    assert_eq!(installed, vec!["vim", "htop"]);
}

#[test]
fn packages_are_planned_manager_by_manager() {
    let mut packages = PackageSets::new();
    packages.insert(PackageManager::Paru, names(&["yay-bin"]));
    packages.insert(PackageManager::Pacman, names(&["vim"]));
    let desired = state(Vec::new(), Vec::new(), packages);
    let mut system = SystemState::new();
    system.update_packages(PackageManager::Paru, Vec::new(), Vec::new());
    system.update_packages(PackageManager::Pacman, Vec::new(), Vec::new());
    let changes = plan(&desired, &system).unwrap();
    let installed: Vec<(PackageManager, &str)> = changes
        .package_installs
        .iter()
        .map(|install| (install.manager, install.name.as_str()))
        .collect();
    assert_eq!(installed, vec![(PackageManager::Pacman, "vim"), (PackageManager::Paru, "yay-bin")]);
}

#[test]
fn plan_asks_for_the_installed_packages() {
    let desired = state(Vec::new(), Vec::new(), pacman(&["vim"]));
    let system = SystemState::new();
    assert!(matches!(
        plan(&desired, &system),
        Err(Error::PackagesNotLoaded(PackageManager::Pacman))
    ));
}

#[test]
fn package_that_is_no_longer_desired_is_removed() {
    let previous = state(Vec::new(), Vec::new(), pacman(&["htop", "vim"]));
    let desired = state(Vec::new(), Vec::new(), pacman(&["vim"]));
    let mut system = SystemState::new();
    system.update_packages(PackageManager::Pacman, names(&["htop", "vim"]), names(&["htop", "vim"]));
    let changes = state_to_state::create_changeset(&system, &previous, &desired).unwrap();
    assert_eq!(changes.package_uninstalls.len(), 1);
    assert_eq!(changes.package_uninstalls[0].manager, PackageManager::Pacman);
    assert_eq!(changes.package_uninstalls[0].name, "htop");
    assert!(changes.package_installs.is_empty());
    assert!(changes.path_operations.is_empty());
}

#[test]
fn package_that_is_gone_already_is_not_removed() {
    let previous = state(Vec::new(), Vec::new(), pacman(&["htop", "vim"]));
    let desired = state(Vec::new(), Vec::new(), pacman(&["vim"]));
    let mut system = SystemState::new();
    system.update_packages(PackageManager::Pacman, names(&["htop", "vim"]), names(&["vim"]));
    let changes = state_to_state::create_changeset(&system, &previous, &desired).unwrap();
    assert!(changes.is_empty());
}

#[test]
fn packages_of_a_manager_that_is_no_longer_named_are_removed() {
    let previous = state(Vec::new(), Vec::new(), pacman(&["htop", "vim", "git"]));
    let desired = state(Vec::new(), Vec::new(), PackageSets::new());
    let mut system = SystemState::new();
    system.update_packages(
        PackageManager::Pacman,
        names(&["htop", "vim", "git"]),
        names(&["htop", "git"]),
    );
    let changes = state_to_state::create_changeset(&system, &previous, &desired).unwrap();
    let removed: Vec<&str> =
        changes.package_uninstalls.iter().map(|uninstall| uninstall.name.as_str()).collect();
    assert_eq!(removed, vec!["htop", "git"]);
}

#[test]
fn cleanup_asks_for_the_installed_packages() {
    let previous = state(Vec::new(), Vec::new(), pacman(&["htop"]));
    let desired = state(Vec::new(), Vec::new(), pacman(&[]));
    let system = SystemState::new();
    assert!(matches!(
        state_to_state::create_changeset(&system, &previous, &desired),
        Err(Error::PackagesNotLoaded(PackageManager::Pacman))
    ));
}

#[test]
fn nothing_is_cleaned_up_between_a_state_and_itself() {
    let previous = state(Vec::new(), Vec::new(), pacman(&["htop", "vim"]));
    let desired = state(Vec::new(), Vec::new(), pacman(&["htop", "vim"]));
    let mut system = SystemState::new();
    system.update_packages(PackageManager::Pacman, names(&["htop", "vim"]), names(&["htop", "vim"]));
    assert!(state_to_state::create_changeset(&system, &previous, &desired).unwrap().is_empty());
}

#[test]
fn vanished_package_is_drift_while_it_is_desired() {
    let previous = state(Vec::new(), Vec::new(), pacman(&["htop", "vim", "git"]));
    let desired = state(Vec::new(), Vec::new(), pacman(&["vim", "git"]));
    let mut system = SystemState::new();
    system.update_packages(PackageManager::Pacman, names(&["git"]), names(&["git"]));
    let changes = drift(&previous, &desired, &system).unwrap();
    let gone: Vec<&str> =
        changes.package_uninstalls.iter().map(|uninstall| uninstall.name.as_str()).collect();
    assert_eq!(gone, vec!["vim"]);
}

#[test]
fn vanished_package_of_a_manager_that_is_given_up_is_no_drift() {
    let previous = state(Vec::new(), Vec::new(), pacman(&["htop"]));
    let desired = state(Vec::new(), Vec::new(), PackageSets::new());
    let mut system = SystemState::new();
    system.update_packages(PackageManager::Pacman, Vec::new(), Vec::new());
    assert!(drift(&previous, &desired, &system).unwrap().is_empty());
}

// --- paths: the plan --------------------------------------------------------

#[test]
fn missing_file_is_created_in_full() {
    let desired = state(vec![Entry::File(file("vimrc", "set nu\n"))], Vec::new(), PackageSets::new());
    let mut system = SystemState::new();
    system.observe("/home/user/vimrc".to_string(), None);
    let changes = plan(&desired, &system).unwrap();
    assert_eq!(changes.path_operations.len(), 1);
    match &changes.path_operations[0] {
        PathOperation::File(FileOperation::Create { path, content, mode, owner, group }) => {
            assert_eq!(path, "/home/user/vimrc");
            assert_eq!(content, b"set nu\n");
            assert_eq!(*mode, 0o644);
            assert_eq!(owner, "user");
            assert_eq!(group, "users");
        }
        other => panic!("unexpected operation {other:?}"),
    }
}

#[test]
fn content_is_created_as_its_bytes() {
    let desired = state(vec![Entry::File(file("motd", "grüß\n"))], Vec::new(), PackageSets::new());
    let mut system = SystemState::new();
    system.observe("/home/user/motd".to_string(), None);
    let changes = plan(&desired, &system).unwrap();
    match &changes.path_operations[0] {
        PathOperation::File(FileOperation::Create { content, .. }) => {
            assert_eq!(content.as_slice(), "grüß\n".as_bytes());
        }
        other => panic!("unexpected operation {other:?}"),
    }
}

#[test]
fn file_in_place_needs_nothing() {
    let desired = state(vec![Entry::File(file("vimrc", "set nu\n"))], Vec::new(), PackageSets::new());
    let mut system = SystemState::new();
    system.observe("/home/user/vimrc".to_string(), live_file("set nu", 0o100644));
    assert!(plan(&desired, &system).unwrap().is_empty());
}

#[test]
fn file_is_modified_in_what_differs_only() {
    let mut wanted = file("vimrc", "set nu\n");
    wanted.config.mode = Some(0o600);
    wanted.config.owner = Some("root".to_string());
    let desired = state(vec![Entry::File(wanted)], Vec::new(), PackageSets::new());
    let mut system = SystemState::new();
    system.observe("/home/user/vimrc".to_string(), live_file("set nu\n", 0o100644));
    let changes = plan(&desired, &system).unwrap();
    assert_eq!(changes.path_operations.len(), 1);
    match &changes.path_operations[0] {
        PathOperation::File(FileOperation::Modify { path, content, mode, owner, group }) => {
            assert_eq!(path, "/home/user/vimrc");
            assert_eq!(*content, None);
            assert_eq!(*mode, Some(0o600));
            assert_eq!(owner.as_deref(), Some("root"));
            assert_eq!(*group, None);
        }
        other => panic!("unexpected operation {other:?}"),
    }
}

#[test]
fn changed_content_is_replaced_by_the_desired_content() {
    let desired = state(vec![Entry::File(file("vimrc", "set nu\n"))], Vec::new(), PackageSets::new());
    let mut system = SystemState::new();
    system.observe(
        "/home/user/vimrc".to_string(),
        Some(LiveEntry {
            content: Some("set nonu\n".to_string()),
            mode: 0o100644,
            owner: "user".to_string(),
            group: "wheel".to_string(),
        }),
    );
    let changes = plan(&desired, &system).unwrap();
    match &changes.path_operations[0] {
        PathOperation::File(FileOperation::Modify { content, mode, owner, group, .. }) => {
            assert_eq!(content.as_deref(), Some(b"set nu\n".as_slice()));
            assert_eq!(*mode, None);
            assert_eq!(*owner, None);
            assert_eq!(group.as_deref(), Some("users"));
        }
        other => panic!("unexpected operation {other:?}"),
    }
}

#[test]
fn directory_is_created_before_what_it_holds() {
    let tree = directory(
        "nvim",
        vec![
            Entry::File(file("nvim/init.lua", "-- init\n")),
            Entry::Directory(directory("nvim/lua", vec![Entry::File(file("nvim/lua/x.lua", "x\n"))])),
        ],
    );
    let desired = state(
        vec![Entry::Directory(tree), Entry::File(file("zshrc", "z\n"))],
        Vec::new(),
        PackageSets::new(),
    );
    let mut system = SystemState::new();
    for path in ["nvim", "nvim/init.lua", "nvim/lua", "nvim/lua/x.lua", "zshrc"] {
        system.observe(format!("/home/user/{path}"), None);
    }
    let changes = plan(&desired, &system).unwrap();
    let created: Vec<String> = changes
        .path_operations
        .iter()
        .map(|operation| match operation {
            PathOperation::File(FileOperation::Create { path, .. }) => format!("file {path}"),
            PathOperation::Directory(DirectoryOperation::Create { path, mode, .. }) => {
                format!("directory {path} {mode:o}")
            }
            other => panic!("unexpected operation {other:?}"),
        })
        .collect();
    assert_eq!(
        created,
        vec![
            "directory /home/user/nvim 755",
            "file /home/user/nvim/init.lua",
            "directory /home/user/nvim/lua 755",
            "file /home/user/nvim/lua/x.lua",
            "file /home/user/zshrc",
        ]
    );
}

#[test]
fn directory_is_modified_in_what_differs_only() {
    let mut wanted = directory("secrets", Vec::new());
    wanted.config.mode = Some(0o700);
    let desired = state(vec![Entry::Directory(wanted)], Vec::new(), PackageSets::new());
    let mut system = SystemState::new();
    system.observe("/home/user/secrets".to_string(), live_directory(0o040755));
    let changes = plan(&desired, &system).unwrap();
    assert_eq!(changes.path_operations.len(), 1);
    match &changes.path_operations[0] {
        PathOperation::Directory(DirectoryOperation::Modify { path, mode, owner, group }) => {
            assert_eq!(path, "/home/user/secrets");
            assert_eq!(*mode, Some(0o700));
            assert_eq!(*owner, None);
            assert_eq!(*group, None);
        }
        other => panic!("unexpected operation {other:?}"),
    }
}

#[test]
fn host_comes_before_groups_and_groups_in_their_order() {
    let desired = state(
        vec![Entry::File(file("host.conf", "h\n"))],
        vec![
            group("base", vec![Entry::File(file("base.conf", "b\n"))]),
            group("desktop", vec![Entry::File(file("desktop.conf", "d\n"))]),
        ],
        PackageSets::new(),
    );
    let mut system = SystemState::new();
    for path in ["host.conf", "base.conf", "desktop.conf"] {
        system.observe(format!("/home/user/{path}"), None);
    }
    let changes = plan(&desired, &system).unwrap();
    let created: Vec<&str> = changes
        .path_operations
        .iter()
        .map(|operation| match operation {
            PathOperation::File(FileOperation::Create { path, .. }) => path.as_str(),
            other => panic!("unexpected operation {other:?}"),
        })
        .collect();
    assert_eq!(
        created,
        vec!["/home/user/host.conf", "/home/user/base.conf", "/home/user/desktop.conf"]
    );
}

#[test]
fn plan_asks_for_the_first_path_that_was_not_looked_at() {
    let desired = state(
        vec![Entry::File(file("a", "a\n")), Entry::File(file("b", "b\n"))],
        Vec::new(),
        PackageSets::new(),
    );
    let mut system = SystemState::new();
    match plan(&desired, &system) {
        Err(Error::PathNotObserved(path)) => assert_eq!(path, "/home/user/a"),
        other => panic!("unexpected result {other:?}"),
    }
    system.observe("/home/user/a".to_string(), None);
    match plan(&desired, &system) {
        Err(Error::PathNotObserved(path)) => assert_eq!(path, "/home/user/b"),
        other => panic!("unexpected result {other:?}"),
    }
    system.observe("/home/user/b".to_string(), None);
    assert_eq!(plan(&desired, &system).unwrap().path_operations.len(), 2);
}

#[test]
fn later_observation_of_a_path_counts() {
    let desired = state(vec![Entry::File(file("a", "a\n"))], Vec::new(), PackageSets::new());
    let mut system = SystemState::new();
    system.observe("/home/user/a".to_string(), None);
    system.observe("/home/user/a".to_string(), live_file("a\n", 0o100644));
    assert!(plan(&desired, &system).unwrap().is_empty());
}

#[test]
fn file_whose_place_cannot_be_read_is_an_error() {
    let desired = state(vec![Entry::File(file("a", "a\n"))], Vec::new(), PackageSets::new());
    let mut system = SystemState::new();
    system.observe("/home/user/a".to_string(), live_directory(0o040755));
    match plan(&desired, &system) {
        Err(Error::UnreadableFile(path)) => assert_eq!(path, "/home/user/a"),
        other => panic!("unexpected result {other:?}"),
    }
    match drift(&desired, &desired, &system) {
        Err(Error::UnreadableFile(path)) => assert_eq!(path, "/home/user/a"),
        other => panic!("unexpected result {other:?}"),
    }
}

#[test]
fn plan_is_empty_where_the_system_is_as_desired() {
    let tree = directory("nvim", vec![Entry::File(file("nvim/init.lua", "-- init\n"))]);
    let desired = state(
        vec![Entry::Directory(tree)],
        vec![group("base", vec![Entry::File(file("base.conf", "b\n"))])],
        pacman(&["vim"]),
    );
    let mut system = SystemState::new();
    system.update_packages(PackageManager::Pacman, names(&["vim", "glibc"]), names(&["vim"]));
    system.observe("/home/user/nvim".to_string(), live_directory(0o040755));
    system.observe("/home/user/nvim/init.lua".to_string(), live_file("-- init\n", 0o100644));
    system.observe("/home/user/base.conf".to_string(), live_file("b\n", 0o100644));
    assert!(plan(&desired, &system).unwrap().is_empty());
    assert!(drift(&desired, &desired, &system).unwrap().is_empty());
    assert!(state_to_state::create_changeset(&system, &desired, &desired).unwrap().is_empty());
}

// --- paths: drift -----------------------------------------------------------

#[test]
fn changed_mode_is_drift() {
    let mut deployed = file(".bashrc", "alias ll='ls -l'\n");
    deployed.config.path = Some("~/.bashrc".to_string());
    deployed.config.mode = Some(0o644);
    let previous = state(vec![Entry::File(deployed)], Vec::new(), PackageSets::new());
    let mut system = SystemState::new();
    system.observe("/home/user/.bashrc".to_string(), live_file("alias ll='ls -l'\n", 0o100600));
    let changes = drift(&previous, &previous, &system).unwrap();
    assert_eq!(changes.path_operations.len(), 1);
    match &changes.path_operations[0] {
        PathOperation::File(FileOperation::Modify { path, content, mode, owner, group }) => {
            assert_eq!(path, "/home/user/.bashrc");
            assert_eq!(*mode, Some(0o600));
            assert_eq!(*content, None);
            assert_eq!(*owner, None);
            assert_eq!(*group, None);
        }
        other => panic!("unexpected operation {other:?}"),
    }
}

#[test]
fn drift_carries_the_live_values() {
    let previous = state(vec![Entry::File(file("vimrc", "set nu\n"))], Vec::new(), PackageSets::new());
    let mut system = SystemState::new();
    system.observe(
        "/home/user/vimrc".to_string(),
        Some(LiveEntry {
            content: Some("set nonu\n".to_string()),
            mode: 0o100640,
            owner: "root".to_string(),
            group: "wheel".to_string(),
        }),
    );
    let changes = drift(&previous, &previous, &system).unwrap();
    match &changes.path_operations[0] {
        PathOperation::File(FileOperation::Modify { content, mode, owner, group, .. }) => {
            assert_eq!(content.as_deref(), Some(b"set nonu\n".as_slice()));
            assert_eq!(*mode, Some(0o640));
            assert_eq!(owner.as_deref(), Some("root"));
            assert_eq!(group.as_deref(), Some("wheel"));
        }
        other => panic!("unexpected operation {other:?}"),
    }
}

#[test]
fn vanished_entries_are_reported_from_the_bottom_up() {
    let tree = directory(
        "nvim",
        vec![
            Entry::File(file("nvim/init.lua", "-- init\n")),
            Entry::Directory(directory("nvim/lua", vec![Entry::File(file("nvim/lua/x.lua", "x\n"))])),
        ],
    );
    let previous = state(
        vec![Entry::Directory(tree), Entry::File(file("zshrc", "z\n"))],
        vec![group("base", vec![Entry::File(file("base.conf", "b\n"))])],
        PackageSets::new(),
    );
    let mut system = SystemState::new();
    for path in ["nvim", "nvim/init.lua", "nvim/lua", "nvim/lua/x.lua", "zshrc", "base.conf"] {
        system.observe(format!("/home/user/{path}"), None);
    }
    let changes = drift(&previous, &previous, &system).unwrap();
    let deleted: Vec<String> = changes
        .path_operations
        .iter()
        .map(|operation| match operation {
            PathOperation::File(FileOperation::Delete { path }) => format!("file {path}"),
            PathOperation::Directory(DirectoryOperation::Delete { path }) => {
                format!("directory {path}")
            }
            other => panic!("unexpected operation {other:?}"),
        })
        .collect();
    assert_eq!(
        deleted,
        vec![
            "file /home/user/zshrc",
            "file /home/user/nvim/lua/x.lua",
            "directory /home/user/nvim/lua",
            "file /home/user/nvim/init.lua",
            "directory /home/user/nvim",
            "file /home/user/base.conf",
        ]
    );
}

#[test]
fn changed_directory_is_drift() {
    let previous =
        state(vec![Entry::Directory(directory("d", Vec::new()))], Vec::new(), PackageSets::new());
    let mut system = SystemState::new();
    system.observe(
        "/home/user/d".to_string(),
        Some(LiveEntry {
            content: None,
            mode: 0o040700,
            owner: "user".to_string(),
            group: "wheel".to_string(),
        }),
    );
    let changes = drift(&previous, &previous, &system).unwrap();
    assert_eq!(
        show(&changes.path_operations),
        vec![format!(
            "{:?}",
            PathOperation::Directory(DirectoryOperation::Modify {
                path: "/home/user/d".to_string(),
                mode: Some(0o700),
                owner: None,
                group: Some("wheel".to_string()),
            })
        )]
    );
}

#[test]
fn drift_asks_for_paths_that_were_not_looked_at() {
    let previous = state(vec![Entry::File(file("a", "a\n"))], Vec::new(), PackageSets::new());
    let system = SystemState::new();
    match drift(&previous, &previous, &system) {
        Err(Error::PathNotObserved(path)) => assert_eq!(path, "/home/user/a"),
        other => panic!("unexpected result {other:?}"),
    }
}

// --- the whole deployment ---------------------------------------------------

#[test]
fn deployment_cleans_up_and_then_plans() {
    let previous = state(Vec::new(), Vec::new(), pacman(&["htop", "vim"]));
    let desired = state(vec![Entry::File(file("a", "a\n"))], Vec::new(), pacman(&["vim", "git"]));
    let mut system = SystemState::new();
    system.update_packages(PackageManager::Pacman, names(&["htop", "vim"]), names(&["htop", "vim"]));
    system.observe("/home/user/a".to_string(), None);
    let changes = deploy::create_changeset(
        &configuration(),
        &system,
        &Some(previous),
        &desired,
        &defaults(),
    )
    .unwrap();
    assert_eq!(changes.package_uninstalls.len(), 1);
    assert_eq!(changes.package_uninstalls[0].name, "htop");
    assert_eq!(changes.package_installs.len(), 1);
    assert_eq!(changes.package_installs[0].name, "git");
    assert_eq!(changes.path_operations.len(), 1);
}

#[test]
fn first_deployment_cleans_up_nothing() {
    let desired = state(Vec::new(), Vec::new(), pacman(&["vim"]));
    let mut system = SystemState::new();
    system.update_packages(PackageManager::Pacman, names(&["htop"]), names(&["htop"]));
    let changes =
        deploy::create_changeset(&configuration(), &system, &None, &desired, &defaults()).unwrap();
    assert!(changes.package_uninstalls.is_empty());
    assert_eq!(changes.package_installs.len(), 1);
}
