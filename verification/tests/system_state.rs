use bois::handlers::packages::{PackageManager, PackageSets};
use bois::system_state::{LiveEntry, SystemState};

fn names(list: &[&str]) -> Vec<String> {
    list.iter().map(|name| name.to_string()).collect()
}

#[test]
fn new_system_state_knows_nothing() {
    let system = SystemState::new();
    for manager in [PackageManager::Pacman, PackageManager::Paru, PackageManager::Apt] {
        assert_eq!(system.packages(manager), None);
        assert_eq!(system.explicit_packages(manager), None);
        assert_eq!(system.detected_package_groups(manager), None);
    }
    assert_eq!(system.group_packages(PackageManager::Pacman, &"xorg".to_string()), None);
    assert!(system.observed(&"/etc".to_string()).is_none());
}

#[test]
fn packages_are_kept_for_their_manager() {
    let mut system = SystemState::new();
    system.update_packages(PackageManager::Pacman, names(&["vim", "glibc"]), names(&["vim"]));
    assert_eq!(system.packages(PackageManager::Pacman), Some(names(&["vim", "glibc"])));
    assert_eq!(system.explicit_packages(PackageManager::Pacman), Some(names(&["vim"])));
    assert_eq!(system.packages(PackageManager::Paru), None);
    assert_eq!(system.explicit_packages(PackageManager::Paru), None);
    assert_eq!(system.detected_package_groups(PackageManager::Pacman), None);
}

#[test]
fn update_replaces_what_was_recorded() {
    let mut system = SystemState::new();
    system.update_packages(PackageManager::Pacman, names(&["vim", "glibc"]), names(&["vim"]));
    system.update_packages(PackageManager::Paru, names(&["yay"]), names(&["yay"]));
    system.update_packages(PackageManager::Pacman, names(&["glibc"]), Vec::new());
    assert_eq!(system.packages(PackageManager::Pacman), Some(names(&["glibc"])));
    assert_eq!(system.explicit_packages(PackageManager::Pacman), Some(Vec::new()));
    assert_eq!(system.packages(PackageManager::Paru), Some(names(&["yay"])));
}

#[test]
fn groups_are_kept_for_their_manager() {
    let mut system = SystemState::new();
    system.update_package_groups(PackageManager::Pacman, names(&["xorg", "base-devel"]));
    assert_eq!(
        system.detected_package_groups(PackageManager::Pacman),
        Some(names(&["xorg", "base-devel"]))
    );
    assert_eq!(system.detected_package_groups(PackageManager::Paru), None);
    assert_eq!(system.packages(PackageManager::Pacman), None);
}

#[test]
fn packages_of_a_group_are_kept_for_manager_and_group() {
    let mut system = SystemState::new();
    system.update_group_packages(PackageManager::Pacman, "xorg".to_string(), names(&["a", "b"]));
    system.update_group_packages(PackageManager::Paru, "xorg".to_string(), names(&["c"]));
    system.update_group_packages(PackageManager::Pacman, "gnome".to_string(), names(&["d"]));
    assert_eq!(system.group_packages(PackageManager::Pacman, &"xorg".to_string()), Some(names(&["a", "b"])));
    assert_eq!(system.group_packages(PackageManager::Paru, &"xorg".to_string()), Some(names(&["c"])));
    assert_eq!(system.group_packages(PackageManager::Pacman, &"gnome".to_string()), Some(names(&["d"])));
    assert_eq!(system.group_packages(PackageManager::Paru, &"gnome".to_string()), None);
    system.update_group_packages(PackageManager::Pacman, "xorg".to_string(), names(&["e"]));
    assert_eq!(system.group_packages(PackageManager::Pacman, &"xorg".to_string()), Some(names(&["e"])));
}

#[test]
fn observations_are_kept_for_their_path() {
    let mut system = SystemState::new();
    system.observe("/etc/a".to_string(), None);
    system.observe(
        "/etc/b".to_string(),
        Some(LiveEntry {
            content: Some("b".to_string()),
            mode: 0o100644,
            owner: "root".to_string(),
            group: "root".to_string(),
        }),
    );
    assert!(matches!(system.observed(&"/etc/a".to_string()), Some(None)));
    match system.observed(&"/etc/b".to_string()) {
        Some(Some(entry)) => {
            assert_eq!(entry.content.as_deref(), Some("b"));
            assert_eq!(entry.mode, 0o100644);
            assert_eq!(entry.owner, "root");
            assert_eq!(entry.group, "root");
        }
        other => panic!("unexpected observation {other:?}"),
    }
    assert!(system.observed(&"/etc/c".to_string()).is_none());
}

#[test]
fn package_sets_hold_what_was_put_in() {
    let mut sets = PackageSets::new();
    assert_eq!(*sets.get(PackageManager::Pacman), None);
    assert!(!sets.holds(PackageManager::Pacman, &"vim".to_string()));
    sets.insert(PackageManager::Pacman, names(&["vim", "git"]));
    sets.insert(PackageManager::Apt, Vec::new());
    assert!(sets.holds(PackageManager::Pacman, &"vim".to_string()));
    assert!(sets.holds(PackageManager::Pacman, &"git".to_string()));
    assert!(!sets.holds(PackageManager::Pacman, &"htop".to_string()));
    assert!(!sets.holds(PackageManager::Paru, &"vim".to_string()));
    assert_eq!(*sets.get(PackageManager::Apt), Some(Vec::new()));
    assert_eq!(*sets.get(PackageManager::Paru), None);
    let copy = sets.clone();
    assert_eq!(copy.pacman, Some(names(&["vim", "git"])));
    assert_eq!(copy.paru, None);
    assert_eq!(copy.apt, Some(Vec::new()));
}
