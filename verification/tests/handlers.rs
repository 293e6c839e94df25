use bois::changeset::{PackageInstall, PackageUninstall};
use bois::commands::diff::diff_packages;
use bois::config::bois::{Configuration, Mode};
use bois::config::directory::DirectoryConfig;
use bois::error::Error;
use bois::handlers::packages::pacman::{
    self, detect_installed_groups, explicit_packages, get_packages_for_group, packages,
};
use bois::handlers::packages::{
    add_names, get_detected_groups, groups_query, install_command, install_packages,
    installed_packages, package_queries, paru, select_names, uninstall_command,
    uninstall_packages, PackageBatch, PackageManager, PackageSets,
};
use bois::changeset::{Changeset, FileOperation, PathOperation};
use bois::handlers::services::ServiceManager;
use bois::handlers::{handle_changeset, Step};
use bois::state::directory::Directory;
use bois::state::host::{Host, HostConfig, HostDefaults};
use bois::state::State;
use bois::system_state::SystemState;

fn names(list: &[&str]) -> Vec<String> {
    list.iter().map(|name| name.to_string()).collect()
}

fn install(manager: PackageManager, name: &str) -> PackageInstall {
    PackageInstall { manager, name: name.to_string() }
}

fn uninstall(manager: PackageManager, name: &str) -> PackageUninstall {
    PackageUninstall { manager, name: name.to_string() }
}

fn batches(found: &[PackageBatch]) -> Vec<(PackageManager, Vec<String>)> {
    found.iter().map(|batch| (batch.manager, batch.names.clone())).collect()
}

fn state(packages: PackageSets) -> State {
    State {
        host: Host {
            variables: serde_yaml::Value::Null,
            config: HostConfig {
                target_directory: None,
                file_defaults: HostDefaults::default(),
                groups: Vec::new(),
                packages: PackageSets::new(),
            },
            directory: Directory {
                relative_path: String::new(),
                entries: Vec::new(),
                config: DirectoryConfig::default(),
            },
            groups: Vec::new(),
        },
        configuration: Configuration {
            name: "myhost".to_string(),
            bois_dir: "/etc/bois".to_string(),
            target_dir: "/etc".to_string(),
            cache_dir: "/var/lib/bois".to_string(),
            runtime_dir: "/var/lib/bois".to_string(),
            envs: Vec::new(),
            mode: Mode::System,
        },
        packages,
    }
}

#[test]
fn managers_have_names_and_an_order() {
    assert_eq!(PackageManager::Pacman.name(), "Pacman");
    assert_eq!(PackageManager::Paru.name(), "Paru");
    assert_eq!(PackageManager::Apt.name(), "Apt");
    assert!(PackageManager::Pacman < PackageManager::Paru);
    assert!(PackageManager::Paru < PackageManager::Apt);
    assert_eq!(ServiceManager::Systemd, ServiceManager::Systemd);
}

#[test]
fn packages_are_installed_manager_by_manager() {
    let wanted = vec![
        install(PackageManager::Paru, "yay-bin"),
        install(PackageManager::Pacman, "vim"),
        install(PackageManager::Paru, "spotify"),
        install(PackageManager::Pacman, "git"),
    ];
    let found = install_packages(&wanted).unwrap();
    assert_eq!(
        batches(&found),
        vec![
            (PackageManager::Pacman, names(&["vim", "git"])),
            (PackageManager::Paru, names(&["yay-bin", "spotify"])),
        ]
    );
}

#[test]
fn manager_without_packages_has_no_batch() {
    let wanted = vec![install(PackageManager::Paru, "yay-bin")];
    assert_eq!(
        batches(&install_packages(&wanted).unwrap()),
        vec![(PackageManager::Paru, names(&["yay-bin"]))]
    );
    assert!(install_packages(&Vec::new()).unwrap().is_empty());
}

#[test]
fn nothing_is_installed_with_a_manager_that_is_not_supported() {
    let wanted = vec![install(PackageManager::Pacman, "vim"), install(PackageManager::Apt, "vim")];
    assert!(matches!(
        install_packages(&wanted),
        Err(Error::UnsupportedManager(PackageManager::Apt))
    ));
    let unwanted = vec![uninstall(PackageManager::Apt, "vim")];
    assert!(matches!(
        uninstall_packages(&SystemState::new(), &unwanted),
        Err(Error::UnsupportedManager(PackageManager::Apt))
    ));
}

#[test]
fn only_packages_installed_on_request_are_removed() {
    let mut system = SystemState::new();
    system.update_packages(
        PackageManager::Pacman,
        names(&["vim", "git", "glibc"]),
        names(&["vim", "git"]),
    );
    system.update_packages(PackageManager::Paru, names(&["yay-bin"]), names(&["yay-bin"]));
    let unwanted = vec![
        uninstall(PackageManager::Pacman, "glibc"),
        uninstall(PackageManager::Paru, "yay-bin"),
        uninstall(PackageManager::Pacman, "git"),
        uninstall(PackageManager::Pacman, "htop"),
        uninstall(PackageManager::Pacman, "vim"),
    ];
    let found = uninstall_packages(&system, &unwanted).unwrap();
    assert_eq!(
        batches(&found),
        vec![
            (PackageManager::Pacman, names(&["git", "vim"])),
            (PackageManager::Paru, names(&["yay-bin"])),
        ]
    );
}

#[test]
fn batch_of_packages_that_are_all_gone_is_left_out() {
    let mut system = SystemState::new();
    system.update_packages(PackageManager::Pacman, names(&["glibc"]), Vec::new());
    let unwanted = vec![uninstall(PackageManager::Pacman, "vim")];
    assert!(uninstall_packages(&system, &unwanted).unwrap().is_empty());
}

#[test]
fn removal_asks_for_the_installed_packages() {
    let unwanted = vec![uninstall(PackageManager::Paru, "yay-bin")];
    assert!(matches!(
        uninstall_packages(&SystemState::new(), &unwanted),
        Err(Error::PackagesNotLoaded(PackageManager::Paru))
    ));
    assert!(uninstall_packages(&SystemState::new(), &Vec::new()).unwrap().is_empty());
}

#[test]
fn packages_are_removed_before_packages_are_installed_before_paths() {
    let mut system = SystemState::new();
    system.update_packages(PackageManager::Pacman, names(&["htop"]), names(&["htop"]));
    let changeset = Changeset {
        package_installs: vec![
            install(PackageManager::Paru, "yay-bin"),
            install(PackageManager::Pacman, "vim"),
        ],
        package_uninstalls: vec![uninstall(PackageManager::Pacman, "htop")],
        path_operations: vec![
            PathOperation::File(FileOperation::Delete { path: "/1".to_string() }),
            PathOperation::File(FileOperation::Delete { path: "/2".to_string() }),
        ],
    };
    let steps: Vec<String> = handle_changeset(&system, changeset)
        .unwrap()
        .iter()
        .map(|step| match step {
            Step::Uninstall(batch) => format!("remove {:?} {:?}", batch.manager, batch.names),
            Step::Install(batch) => format!("install {:?} {:?}", batch.manager, batch.names),
            Step::Path(PathOperation::File(FileOperation::Delete { path })) => {
                format!("delete {path}")
            }
            other => panic!("unexpected step {other:?}"),
        })
        .collect();
    assert_eq!(
        steps,
        vec![
            "remove Pacman [\"htop\"]",
            "install Pacman [\"vim\"]",
            "install Paru [\"yay-bin\"]",
            "delete /1",
            "delete /2",
        ]
    );
}

#[test]
fn steps_ask_for_what_is_installed() {
    let changeset = Changeset {
        package_installs: Vec::new(),
        package_uninstalls: vec![uninstall(PackageManager::Pacman, "htop")],
        path_operations: Vec::new(),
    };
    assert!(matches!(
        handle_changeset(&SystemState::new(), changeset),
        Err(Error::PackagesNotLoaded(PackageManager::Pacman))
    ));
    assert!(handle_changeset(&SystemState::new(), Changeset::new()).unwrap().is_empty());
}

#[test]
fn listing_of_packages_is_a_set_of_lines() {
    assert_eq!(packages("vim\ngit\nvim\nhtop\n"), names(&["vim", "git", "htop"]));
    assert_eq!(explicit_packages("vim\r\ngit"), names(&["vim", "git"]));
    assert!(packages("").is_empty());
}

#[test]
fn groups_are_the_first_fields_of_a_listing() {
    let listing = "xorg-apps xorg-xrandr\nxorg-apps xorg-xset\nbase-devel gcc\nlonely\n";
    assert_eq!(detect_installed_groups(listing), names(&["xorg-apps", "base-devel", "lonely"]));
    assert_eq!(
        get_detected_groups(PackageManager::Pacman, listing).unwrap(),
        names(&["xorg-apps", "base-devel", "lonely"])
    );
    assert!(get_detected_groups(PackageManager::Paru, listing).unwrap().is_empty());
    assert!(matches!(
        get_detected_groups(PackageManager::Apt, listing),
        Err(Error::UnsupportedManager(PackageManager::Apt))
    ));
}

#[test]
fn packages_of_a_group_are_the_second_fields_of_a_listing() {
    let listing = "xorg-apps xorg-xrandr\nxorg-apps xorg-xset extra\nxorg-apps xorg-xrandr\nxorg-apps \n";
    assert_eq!(
        get_packages_for_group(listing).unwrap(),
        names(&["xorg-xrandr", "xorg-xset", ""])
    );
    assert!(get_packages_for_group("").unwrap().is_empty());
}

#[test]
fn line_without_a_package_is_an_error() {
    match get_packages_for_group("xorg-apps xorg-xrandr\nlonely\nxorg-apps xorg-xset\n") {
        Err(Error::InvalidListing(line)) => assert_eq!(line, "lonely"),
        other => panic!("unexpected result {other:?}"),
    }
}

#[test]
fn names_are_selected_in_their_order() {
    let all = names(&["a", "b", "c", "d", "b"]);
    assert_eq!(select_names(&all, &names(&["b"]), None), names(&["a", "c", "d"]));
    assert_eq!(select_names(&all, &Vec::new(), Some(&names(&["d", "b"]))), names(&["b", "d", "b"]));
    assert_eq!(select_names(&all, &names(&["d"]), Some(&names(&["d", "a"]))), names(&["a"]));
    assert!(select_names(&Vec::new(), &Vec::new(), None).is_empty());
}

#[test]
fn names_are_added_once() {
    let mut set = names(&["a", "b"]);
    add_names(&mut set, &names(&["b", "c", "a", "c", "d"]));
    assert_eq!(set, names(&["a", "b", "c", "d"]));
}

#[test]
fn untracked_packages_are_those_the_state_does_not_name() {
    let mut desired = PackageSets::new();
    desired.insert(PackageManager::Pacman, names(&["vim", "git"]));
    desired.insert(PackageManager::Paru, names(&["yay-bin"]));
    let mut system = SystemState::new();
    system.update_packages(
        PackageManager::Pacman,
        names(&["vim", "htop", "glibc", "zsh"]),
        names(&["zsh", "vim", "htop"]),
    );
    system.update_packages(PackageManager::Paru, names(&["yay-bin"]), names(&["yay-bin"]));
    let found = diff_packages(&state(desired), &system).unwrap();
    assert_eq!(batches(&found), vec![(PackageManager::Pacman, names(&["zsh", "htop"]))]);
}

#[test]
fn diff_asks_for_the_installed_packages() {
    let mut desired = PackageSets::new();
    desired.insert(PackageManager::Paru, Vec::new());
    assert!(matches!(
        diff_packages(&state(desired), &SystemState::new()),
        Err(Error::PackagesNotLoaded(PackageManager::Paru))
    ));
    assert!(diff_packages(&state(PackageSets::new()), &SystemState::new()).unwrap().is_empty());
}

#[test]
fn listings_are_asked_of_pacman() {
    let queries = package_queries(PackageManager::Pacman).unwrap();
    assert_eq!(queries.all, Some(names(&["pacman", "--query", "--quiet", "--native"])));
    assert_eq!(queries.explicit, names(&["pacman", "--query", "--quiet", "--explicit", "--native"]));
    let queries = package_queries(PackageManager::Paru).unwrap();
    assert_eq!(queries.all, None);
    assert_eq!(queries.explicit, names(&["pacman", "--query", "--quiet", "--explicit", "--foreign"]));
    assert!(matches!(
        package_queries(PackageManager::Apt),
        Err(Error::UnsupportedManager(PackageManager::Apt))
    ));
    assert_eq!(
        groups_query(PackageManager::Pacman).unwrap(),
        Some(names(&["pacman", "--query", "--groups", "--quiet"]))
    );
    assert_eq!(groups_query(PackageManager::Paru).unwrap(), None);
    assert!(groups_query(PackageManager::Apt).is_err());
    assert_eq!(
        pacman::group_packages_command("xorg-apps"),
        names(&["pacman", "--sync", "--groups", "xorg-apps"])
    );
    assert_eq!(paru::explicit_packages_command(), queries.explicit);
}

#[test]
fn packages_installed_on_request_are_all_where_nothing_else_is_listed() {
    assert_eq!(
        installed_packages(Some("vim\nglibc\n"), "vim\n"),
        (names(&["vim", "glibc"]), names(&["vim"]))
    );
    assert_eq!(installed_packages(None, "yay-bin\nyay-bin\n"), (names(&["yay-bin"]), names(&["yay-bin"])));
}

#[test]
fn batches_are_installed_and_removed_by_their_manager() {
    let batch = |manager| PackageBatch { manager, names: names(&["a", "b"]) };
    assert_eq!(
        install_command(&batch(PackageManager::Pacman)).unwrap(),
        names(&["pacman", "--sync", "--refresh", "--noconfirm", "a", "b"])
    );
    assert_eq!(
        install_command(&batch(PackageManager::Paru)).unwrap(),
        names(&["sudo", "-u", "aur", "paru", "--sync", "--refresh", "--aur", "--noconfirm", "a", "b"])
    );
    assert_eq!(
        uninstall_command(&batch(PackageManager::Pacman)).unwrap(),
        names(&["pacman", "--remove", "--nosave", "--noconfirm", "a", "b"])
    );
    assert_eq!(
        uninstall_command(&batch(PackageManager::Paru)).unwrap(),
        names(&["pacman", "--remove", "--nosave", "--noconfirm", "a", "b"])
    );
    assert!(matches!(
        install_command(&batch(PackageManager::Apt)),
        Err(Error::UnsupportedManager(PackageManager::Apt))
    ));
    assert!(matches!(
        uninstall_command(&batch(PackageManager::Apt)),
        Err(Error::UnsupportedManager(PackageManager::Apt))
    ));
}
