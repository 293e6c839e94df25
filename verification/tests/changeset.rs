use bois::changeset::{
    Changeset, DirectoryOperation, FileOperation, PackageInstall, PackageUninstall, PathOperation,
};
use bois::handlers::packages::PackageManager;

fn install(manager: PackageManager, name: &str) -> PackageInstall {
    PackageInstall { manager, name: name.to_string() }
}

fn uninstall(manager: PackageManager, name: &str) -> PackageUninstall {
    PackageUninstall { manager, name: name.to_string() }
}

fn delete(path: &str) -> PathOperation {
    PathOperation::File(FileOperation::Delete { path: path.to_string() })
}

fn install_names(changeset: &Changeset) -> Vec<String> {
    changeset.package_installs.iter().map(|install| install.name.clone()).collect()
}

fn uninstall_names(changeset: &Changeset) -> Vec<String> {
    changeset.package_uninstalls.iter().map(|uninstall| uninstall.name.clone()).collect()
}

fn paths(changeset: &Changeset) -> Vec<String> {
    changeset
        .path_operations
        .iter()
        .map(|operation| match operation {
            PathOperation::File(FileOperation::Delete { path }) => path.clone(),
            PathOperation::Directory(DirectoryOperation::Delete { path }) => path.clone(),
            other => panic!("unexpected operation {other:?}"),
        })
        .collect()
}

#[test]
fn new_changeset_is_empty() {
    let changeset = Changeset::new();
    assert!(changeset.is_empty());
    assert!(changeset.package_installs.is_empty());
    assert!(changeset.package_uninstalls.is_empty());
    assert!(changeset.path_operations.is_empty());
    assert!(Changeset::default().is_empty());
}

#[test]
fn changeset_with_one_operation_is_not_empty() {
    let mut changeset = Changeset::new();
    changeset.package_installs.push(install(PackageManager::Pacman, "vim"));
    assert!(!changeset.is_empty());
    let mut changeset = Changeset::new();
    changeset.package_uninstalls.push(uninstall(PackageManager::Pacman, "vim"));
    assert!(!changeset.is_empty());
    let mut changeset = Changeset::new();
    changeset.path_operations.push(delete("/x"));
    assert!(!changeset.is_empty());
}

#[test]
fn merge_appends_each_list_in_its_order() {
    let mut one = Changeset::new();
    one.package_installs.push(install(PackageManager::Pacman, "a"));
    one.package_installs.push(install(PackageManager::Paru, "b"));
    one.package_uninstalls.push(uninstall(PackageManager::Pacman, "c"));
    one.path_operations.push(delete("/1"));
    one.path_operations.push(delete("/2"));
    let mut two = Changeset::new();
    two.package_installs.push(install(PackageManager::Pacman, "d"));
    two.package_uninstalls.push(uninstall(PackageManager::Paru, "e"));
    two.package_uninstalls.push(uninstall(PackageManager::Pacman, "f"));
    two.path_operations.push(delete("/3"));
    one.merge(two);
    assert_eq!(install_names(&one), vec!["a", "b", "d"]);
    assert_eq!(uninstall_names(&one), vec!["c", "e", "f"]);
    assert_eq!(paths(&one), vec!["/1", "/2", "/3"]);
}

#[test]
fn merge_keeps_operations_on_the_same_package_and_path() {
    let mut one = Changeset::new();
    one.package_installs.push(install(PackageManager::Pacman, "vim"));
    one.path_operations.push(delete("/x"));
    let mut two = Changeset::new();
    two.package_installs.push(install(PackageManager::Pacman, "vim"));
    two.path_operations.push(delete("/x"));
    one.merge(two);
    assert_eq!(install_names(&one), vec!["vim", "vim"]);
    assert_eq!(paths(&one), vec!["/x", "/x"]);
}

#[test]
fn merge_with_an_empty_changeset_changes_nothing() {
    let mut one = Changeset::new();
    one.package_uninstalls.push(uninstall(PackageManager::Pacman, "c"));
    one.merge(Changeset::new());
    assert_eq!(uninstall_names(&one), vec!["c"]);
    let mut empty = Changeset::new();
    empty.merge(one);
    assert_eq!(uninstall_names(&empty), vec!["c"]);
}
