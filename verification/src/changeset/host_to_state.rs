//! Drift: what has changed on the live system since the last deployment,
//! behind the back of this program.
//!
//! Every entry that the last deployment put on the system is compared with
//! what is there now. What is gone is reported as deleted, what differs as
//! modified, with the values that the live system holds. The result is for
//! the user to look at before the deployment overwrites it.

use vstd::prelude::*;

use crate::changeset::helper::{equal_permissions, remove_filetype, permission_bits};
use crate::changeset::state_to_host::{bytes_of, same_permissions};
use crate::changeset::{
    chain, lemma_views_add, lemma_views_push, reversed, uninstalls, uninstalls_of, views,
    Changeset, ChangesetView, DirectoryOperation, DirectoryOperationView, FileOperation,
    FileOperationView, PackageUninstall, PackageUninstallView, PathOperation, PathOperationView,
};
use crate::config::bois::Configuration;
use crate::constants::{Defaults, DefaultsView};
use crate::error::{Error, ErrorView};
use crate::handlers::packages::{
    names_or_none, select_names, selected, PackageManager, PackageSetsView,
};
use crate::state::directory::{entry_views, lemma_directory_entry_view, Directory, DirectoryView};
use crate::state::file::{Entry, EntryView, File, FileView};
use crate::state::group::{Group, GroupView};
use crate::state::host::Host;
use crate::state::{State, StateView};
use crate::system_state::{LiveEntry, SystemState, SystemStateView};
use crate::text::{equal_trimmed, texts, trim};

verus! {

// ---------------------------------------------------------------------------
// Packages
// ---------------------------------------------------------------------------

/// The packages of one manager that have gone missing: those that the old
/// state deployed, that are no longer installed, not even as a dependency,
/// and that the new state still asks for. A package that the new state has
/// given up is expected to be gone. Without a record of what is installed
/// there is no answer.
pub open spec fn manager_drift(
    manager: PackageManager,
    old: PackageSetsView,
    new: PackageSetsView,
    system: SystemStateView,
) -> Result<Seq<PackageUninstallView>, ErrorView> {
    match old.get(manager) {
        None => Ok(Seq::empty()),
        Some(names) => match system.packages.get(manager) {
            None => Err(ErrorView::PackagesNotLoaded(manager)),
            Some(installed) => Ok(
                uninstalls_of(
                    manager,
                    selected(names, installed, Some(names_or_none(new.get(manager)))),
                ),
            ),
        },
    }
}

/// The packages that have gone missing, manager by manager.
pub open spec fn package_drift(
    old: PackageSetsView,
    new: PackageSetsView,
    system: SystemStateView,
) -> Result<Seq<PackageUninstallView>, ErrorView> {
    chain(
        chain(
            manager_drift(PackageManager::Pacman, old, new, system),
            manager_drift(PackageManager::Paru, old, new, system),
        ),
        manager_drift(PackageManager::Apt, old, new, system),
    )
}

/// The packages of one manager that have gone missing.
fn handle_manager(
    manager: PackageManager,
    system_state: &SystemState,
    old_state: &State,
    new_state: &State,
) -> (result: Result<Vec<PackageUninstall>, Error>)
    ensures
        match manager_drift(manager, old_state@.packages, new_state@.packages, system_state@) {
            Ok(operations) => result matches Ok(found) && views(found@) == operations,
            Err(error) => result matches Err(found) && found@ == error,
        },
{
    let names = match old_state.packages.get(manager) {
        Some(names) => names,
        None => {
            let none: Vec<PackageUninstall> = Vec::new();
            assert(views(none@) =~= Seq::empty());
            return Ok(none);
        },
    };
    let installed = match system_state.packages.get(manager) {
        Some(installed) => installed,
        None => {
            return Err(Error::PackagesNotLoaded(manager));
        },
    };
    let none: Vec<String> = Vec::new();
    let desired = match new_state.packages.get(manager) {
        Some(desired) => desired,
        None => {
            assert(texts(none@) =~= Seq::empty());
            &none
        },
    };
    Ok(uninstalls(manager, &select_names(names, installed, Some(desired))))
}

/// The packages that the last deployment installed, that are gone from the
/// system, and that the desired state still asks for.
pub fn handle_packages(system_state: &SystemState, old_state: &State, new_state: &State) -> (result:
    Result<Vec<PackageUninstall>, Error>)
    ensures
        match package_drift(old_state@.packages, new_state@.packages, system_state@) {
            Ok(operations) => result matches Ok(found) && views(found@) == operations,
            Err(error) => result matches Err(found) && found@ == error,
        },
{
    let mut changeset = match handle_manager(
        PackageManager::Pacman,
        system_state,
        old_state,
        new_state,
    ) {
        Ok(found) => found,
        Err(error) => {
            return Err(error);
        },
    };
    let mut paru = match handle_manager(PackageManager::Paru, system_state, old_state, new_state) {
        Ok(found) => found,
        Err(error) => {
            return Err(error);
        },
    };
    let mut apt = match handle_manager(PackageManager::Apt, system_state, old_state, new_state) {
        Ok(found) => found,
        Err(error) => {
            return Err(error);
        },
    };
    proof {
        lemma_views_add(changeset@, paru@);
        lemma_views_add(changeset@ + paru@, apt@);
    }
    changeset.append(&mut paru);
    changeset.append(&mut apt);
    Ok(changeset)
}

// ---------------------------------------------------------------------------
// Paths
// ---------------------------------------------------------------------------

/// What has happened to a file.
///
/// A file that is gone is reported as deleted. A file that is there is
/// reported as modified in what differs from the file that was deployed,
/// with the values of the live file, and not at all where nothing differs.
pub open spec fn file_drift(
    root: Seq<char>,
    file: FileView,
    system: SystemStateView,
    defaults: DefaultsView,
) -> Result<Seq<PathOperationView>, ErrorView> {
    let path = file.file_path(root, defaults);
    let owner = file.config.owner(defaults);
    let group = file.config.group(defaults);
    match system.observed(path) {
        None => Err(ErrorView::PathNotObserved(path)),
        Some(None) => Ok(seq![PathOperationView::File(FileOperationView::Delete { path })]),
        Some(Some(live)) => match live.content {
            None => Err(ErrorView::UnreadableFile(path)),
            Some(content) => {
                let same = trim(content) == trim(file.content) && same_permissions(
                    live.mode,
                    file.mode(),
                ) && live.owner == owner && live.group == group;
                if same {
                    Ok(Seq::empty())
                } else {
                    Ok(
                        seq![
                            PathOperationView::File(
                                FileOperationView::Modify {
                                    path,
                                    content: if trim(content) == trim(file.content) {
                                        None
                                    } else {
                                        Some(bytes_of(content))
                                    },
                                    mode: if same_permissions(live.mode, file.mode()) {
                                        None
                                    } else {
                                        Some(permission_bits(live.mode))
                                    },
                                    owner: if live.owner == owner {
                                        None
                                    } else {
                                        Some(live.owner)
                                    },
                                    group: if live.group == group {
                                        None
                                    } else {
                                        Some(live.group)
                                    },
                                },
                            ),
                        ],
                    )
                }
            },
        },
    }
}

/// What has happened to a directory itself, whatever it holds.
pub open spec fn directory_drift(
    root: Seq<char>,
    directory: DirectoryView,
    system: SystemStateView,
    defaults: DefaultsView,
) -> Result<Seq<PathOperationView>, ErrorView> {
    let path = directory.file_path(root, defaults);
    let mode = directory.config.mode();
    let owner = directory.config.owner(defaults);
    let group = directory.config.group(defaults);
    match system.observed(path) {
        None => Err(ErrorView::PathNotObserved(path)),
        Some(None) => Ok(
            seq![PathOperationView::Directory(DirectoryOperationView::Delete { path })],
        ),
        Some(Some(live)) => {
            let same = same_permissions(live.mode, mode) && live.owner == owner && live.group
                == group;
            if same {
                Ok(Seq::empty())
            } else {
                Ok(
                    seq![
                        PathOperationView::Directory(
                            DirectoryOperationView::Modify {
                                path,
                                mode: if same_permissions(live.mode, mode) {
                                    None
                                } else {
                                    Some(permission_bits(live.mode))
                                },
                                owner: if live.owner == owner {
                                    None
                                } else {
                                    Some(live.owner)
                                },
                                group: if live.group == group {
                                    None
                                } else {
                                    Some(live.group)
                                },
                            },
                        ),
                    ],
                )
            }
        },
    }
}

/// What has happened to an entry: for a directory, to the directory itself
/// and then to each entry in it, in their order.
pub open spec fn entry_drift(
    root: Seq<char>,
    entry: EntryView,
    system: SystemStateView,
    defaults: DefaultsView,
) -> Result<Seq<PathOperationView>, ErrorView>
    decreases entry,
{
    match entry {
        EntryView::File(file) => file_drift(root, file, system, defaults),
        EntryView::Directory(directory) => chain(
            directory_drift(root, directory, system, defaults),
            entries_drift(root, directory.entries, system, defaults),
        ),
    }
}

/// What has happened to the entries of a list, one after the other.
pub open spec fn entries_drift(
    root: Seq<char>,
    entries: Seq<EntryView>,
    system: SystemStateView,
    defaults: DefaultsView,
) -> Result<Seq<PathOperationView>, ErrorView>
    decreases entries,
{
    if entries.len() == 0 {
        Ok(Seq::empty())
    } else {
        chain(
            entries_drift(root, entries.drop_last(), system, defaults),
            entry_drift(root, entries.last(), system, defaults),
        )
    }
}

/// What keeps the first entries of a list from being compared keeps the
/// whole list from being compared.
pub proof fn lemma_entries_drift_error(
    root: Seq<char>,
    entries: Seq<EntryView>,
    system: SystemStateView,
    defaults: DefaultsView,
    count: int,
)
    requires
        0 <= count <= entries.len(),
        entries_drift(root, entries.take(count), system, defaults) is Err,
    ensures
        entries_drift(root, entries, system, defaults) == entries_drift(
            root,
            entries.take(count),
            system,
            defaults,
        ),
    decreases entries.len() - count,
{
    if count < entries.len() {
        assert(entries.take(count + 1).drop_last() =~= entries.take(count));
        lemma_entries_drift_error(root, entries, system, defaults, count + 1);
    } else {
        assert(entries.take(count) =~= entries);
    }
}

/// The report on a file that is there, `None` where nothing differs.
fn file_patch(path: String, file: &File, live: &LiveEntry, content: &String, defaults: &Defaults) -> (patch:
    Option<PathOperation>)
    requires
        live@.content == Some(content@),
    ensures
        ({
            let owner = file@.config.owner(defaults@);
            let group = file@.config.group(defaults@);
            let same = trim(content@) == trim(file@.content) && same_permissions(
                live.mode,
                file@.mode(),
            ) && live@.owner == owner && live@.group == group;
            match patch {
                None => same,
                Some(operation) => !same && operation@ == PathOperationView::File(
                    FileOperationView::Modify {
                        path: path@,
                        content: if trim(content@) == trim(file@.content) {
                            None
                        } else {
                            Some(bytes_of(content@))
                        },
                        mode: if same_permissions(live.mode, file@.mode()) {
                            None
                        } else {
                            Some(permission_bits(live.mode))
                        },
                        owner: if live@.owner == owner {
                            None
                        } else {
                            Some(live@.owner)
                        },
                        group: if live@.group == group {
                            None
                        } else {
                            Some(live@.group)
                        },
                    },
                ),
            }
        }),
{
    let mut modified_content: Option<Vec<u8>> = None;
    let mut modified_mode: Option<u32> = None;
    let mut modified_owner: Option<String> = None;
    let mut modified_group: Option<String> = None;
    if !equal_trimmed(content.as_str(), file.content.as_str()) {
        modified_content = Some(content.as_str().as_bytes_vec());
    }
    if !equal_permissions(live.mode, file.mode()) {
        modified_mode = Some(remove_filetype(live.mode));
    }
    if live.owner != file.config.owner(defaults) {
        modified_owner = Some(live.owner.clone());
    }
    if live.group != file.config.group(defaults) {
        modified_group = Some(live.group.clone());
    }
    if modified_content.is_some() || modified_owner.is_some() || modified_group.is_some()
        || modified_mode.is_some() {
        Some(
            PathOperation::File(
                FileOperation::Modify {
                    path,
                    content: modified_content,
                    mode: modified_mode,
                    owner: modified_owner,
                    group: modified_group,
                },
            ),
        )
    } else {
        None
    }
}

/// The report on a directory that is there, `None` where nothing differs.
fn directory_patch(path: String, directory: &Directory, live: &LiveEntry, defaults: &Defaults) -> (patch:
    Option<PathOperation>)
    ensures
        ({
            let mode = directory@.config.mode();
            let owner = directory@.config.owner(defaults@);
            let group = directory@.config.group(defaults@);
            let same = same_permissions(live.mode, mode) && live@.owner == owner && live@.group
                == group;
            match patch {
                None => same,
                Some(operation) => !same && operation@ == PathOperationView::Directory(
                    DirectoryOperationView::Modify {
                        path: path@,
                        mode: if same_permissions(live.mode, mode) {
                            None
                        } else {
                            Some(permission_bits(live.mode))
                        },
                        owner: if live@.owner == owner {
                            None
                        } else {
                            Some(live@.owner)
                        },
                        group: if live@.group == group {
                            None
                        } else {
                            Some(live@.group)
                        },
                    },
                ),
            }
        }),
{
    let mut modified_mode: Option<u32> = None;
    let mut modified_owner: Option<String> = None;
    let mut modified_group: Option<String> = None;
    if !equal_permissions(live.mode, directory.config.mode()) {
        modified_mode = Some(remove_filetype(live.mode));
    }
    if live.owner != directory.config.owner(defaults) {
        modified_owner = Some(live.owner.clone());
    }
    if live.group != directory.config.group(defaults) {
        modified_group = Some(live.group.clone());
    }
    if modified_owner.is_some() || modified_group.is_some() || modified_mode.is_some() {
        Some(
            PathOperation::Directory(
                DirectoryOperation::Modify {
                    path,
                    mode: modified_mode,
                    owner: modified_owner,
                    group: modified_group,
                },
            ),
        )
    } else {
        None
    }
}

/// Appends to `changeset` what has happened to an entry and, where it is a
/// directory, to everything in it, from the top of the tree down.
///
/// What the live system holds at a destination is read from `system_state`.
/// A destination that nobody has looked at is asked for by
/// `Error::PathNotObserved`.
pub fn handle_entry(
    root: &str,
    entry: &Entry,
    system_state: &SystemState,
    defaults: &Defaults,
    changeset: &mut Vec<PathOperation>,
) -> (result: Result<(), Error>)
    ensures
        match entry_drift(root@, entry@, system_state@, defaults@) {
            Ok(operations) => result is Ok && views(final(changeset)@) == views(old(changeset)@)
                + operations,
            Err(error) => result matches Err(found) && found@ == error,
        },
    decreases entry,
{
    let ghost start = views(changeset@);
    match entry {
        Entry::File(file) => {
            let path = file.file_path(root, defaults);
            match system_state.observed(&path) {
                None => Err(Error::PathNotObserved(path)),
                Some(None) => {
                    let change = FileOperation::Delete { path };
                    proof {
                        lemma_views_push(changeset@, PathOperation::File(change));
                        assert(start.push(PathOperation::File(change)@) =~= start
                            + seq![PathOperation::File(change)@]);
                    }
                    changeset.push(PathOperation::File(change));
                    Ok(())
                },
                Some(Some(live)) => {
                    let content = match &live.content {
                        Some(content) => content,
                        None => {
                            return Err(Error::UnreadableFile(path));
                        },
                    };
                    match file_patch(path, file, live, content, defaults) {
                        Some(change) => {
                            proof {
                                lemma_views_push(changeset@, change);
                                assert(start.push(change@) =~= start + seq![change@]);
                            }
                            changeset.push(change);
                        },
                        None => {
                            assert(start + Seq::<PathOperationView>::empty() =~= start);
                        },
                    }
                    Ok(())
                },
            }
        },
        Entry::Directory(directory) => {
            proof {
                lemma_directory_entry_view(*directory);
            }
            let path = directory.file_path(root, defaults);
            match system_state.observed(&path) {
                None => {
                    return Err(Error::PathNotObserved(path));
                },
                Some(None) => {
                    let change = DirectoryOperation::Delete { path };
                    proof {
                        lemma_views_push(changeset@, PathOperation::Directory(change));
                        assert(start.push(PathOperation::Directory(change)@) =~= start
                            + seq![PathOperation::Directory(change)@]);
                    }
                    changeset.push(PathOperation::Directory(change));
                },
                Some(Some(live)) => {
                    match directory_patch(path, directory, live, defaults) {
                        Some(change) => {
                            proof {
                                lemma_views_push(changeset@, change);
                                assert(start.push(change@) =~= start + seq![change@]);
                            }
                            changeset.push(change);
                        },
                        None => {
                            assert(start + Seq::<PathOperationView>::empty() =~= start);
                        },
                    }
                },
            }
            handle_entries(root, &directory.entries, system_state, defaults, changeset, Ghost(
                directory_drift(root@, directory@, system_state@, defaults@)->Ok_0,
            ), Ghost(start))
        },
    }
}

/// Appends to `changeset` what has happened to the entries of a list.
fn handle_entries(
    root: &str,
    entries: &Vec<Entry>,
    system_state: &SystemState,
    defaults: &Defaults,
    changeset: &mut Vec<PathOperation>,
    Ghost(head): Ghost<Seq<PathOperationView>>,
    Ghost(start): Ghost<Seq<PathOperationView>>,
) -> (result: Result<(), Error>)
    requires
        views(old(changeset)@) == start + head,
    ensures
        match entries_drift(root@, entry_views(entries@), system_state@, defaults@) {
            Ok(operations) => result is Ok && views(final(changeset)@) == start + (head
                + operations),
            Err(error) => result matches Err(found) && found@ == error,
        },
    decreases entries,
{
    let ghost all = entry_views(entries@);
    let mut index: usize = 0;
    proof {
        assert(all.take(0) =~= Seq::empty());
        assert(start + head =~= start + (head + Seq::<PathOperationView>::empty()));
    }
    while index < entries.len()
        invariant
            index <= entries.len(),
            all == entry_views(entries@),
            entries_drift(root@, all.take(index as int), system_state@, defaults@) is Ok,
            views(changeset@) == start + (head + entries_drift(
                root@,
                all.take(index as int),
                system_state@,
                defaults@,
            )->Ok_0),
        decreases entries.len() - index,
    {
        let ghost before = entries_drift(
            root@,
            all.take(index as int),
            system_state@,
            defaults@,
        )->Ok_0;
        proof {
            assert(all.take(index + 1).drop_last() =~= all.take(index as int));
            assert(all.take(index + 1).last() == entries@[index as int]@);
        }
        match handle_entry(root, &entries[index], system_state, defaults, changeset) {
            Ok(()) => {
                proof {
                    let more = entry_drift(
                        root@,
                        entries@[index as int]@,
                        system_state@,
                        defaults@,
                    )->Ok_0;
                    assert((start + (head + before)) + more =~= start + (head + (before + more)));
                }
            },
            Err(error) => {
                proof {
                    lemma_entries_drift_error(root@, all, system_state@, defaults@, index + 1);
                }
                return Err(error);
            },
        }
        index += 1;
    }
    proof {
        assert(all.take(index as int) =~= all);
    }
    Ok(())
}

/// What has happened to the entries of a tree, the deepest entries first:
/// whoever undoes the report deletes what a directory holds before the
/// directory.
pub open spec fn tree_drift(
    root: Seq<char>,
    entries: Seq<EntryView>,
    system: SystemStateView,
    defaults: DefaultsView,
) -> Result<Seq<PathOperationView>, ErrorView> {
    match entries_drift(root, entries, system, defaults) {
        Ok(operations) => Ok(operations.reverse()),
        Err(error) => Err(error),
    }
}

/// What has happened to the entries of the groups of a list, group after group.
pub open spec fn groups_drift(
    root: Seq<char>,
    groups: Seq<GroupView>,
    system: SystemStateView,
    defaults: DefaultsView,
) -> Result<Seq<PathOperationView>, ErrorView>
    decreases groups.len(),
{
    if groups.len() == 0 {
        Ok(Seq::empty())
    } else {
        chain(
            groups_drift(root, groups.drop_last(), system, defaults),
            tree_drift(root, groups.last().directory.entries, system, defaults),
        )
    }
}

/// What keeps the first groups of a list from being compared keeps the
/// whole list from being compared.
pub proof fn lemma_groups_drift_error(
    root: Seq<char>,
    groups: Seq<GroupView>,
    system: SystemStateView,
    defaults: DefaultsView,
    count: int,
)
    requires
        0 <= count <= groups.len(),
        groups_drift(root, groups.take(count), system, defaults) is Err,
    ensures
        groups_drift(root, groups, system, defaults) == groups_drift(
            root,
            groups.take(count),
            system,
            defaults,
        ),
    decreases groups.len() - count,
{
    if count < groups.len() {
        assert(groups.take(count + 1).drop_last() =~= groups.take(count));
        lemma_groups_drift_error(root, groups, system, defaults, count + 1);
    } else {
        assert(groups.take(count) =~= groups);
    }
}

/// The whole report: the packages that have gone missing, and what has
/// happened to the entries of the host and then of each of its groups.
pub open spec fn drift(
    target_dir: Seq<char>,
    old: StateView,
    new: StateView,
    system: SystemStateView,
    defaults: DefaultsView,
) -> Result<ChangesetView, ErrorView> {
    match package_drift(old.packages, new.packages, system) {
        Err(error) => Err(error),
        Ok(package_uninstalls) => match chain(
            tree_drift(target_dir, old.host.directory.entries, system, defaults),
            groups_drift(target_dir, old.host.groups, system, defaults),
        ) {
            Err(error) => Err(error),
            Ok(path_operations) => Ok(
                ChangesetView {
                    package_installs: Seq::empty(),
                    package_uninstalls,
                    path_operations,
                },
            ),
        },
    }
}

/// What has happened to the entries of a tree.
fn handle_tree(
    root: &str,
    entries: &Vec<Entry>,
    system_state: &SystemState,
    defaults: &Defaults,
) -> (result: Result<Vec<PathOperation>, Error>)
    ensures
        match tree_drift(root@, entry_views(entries@), system_state@, defaults@) {
            Ok(operations) => result matches Ok(found) && views(found@) == operations,
            Err(error) => result matches Err(found) && found@ == error,
        },
{
    let mut changeset: Vec<PathOperation> = Vec::new();
    let ghost none = Seq::<PathOperationView>::empty();
    assert(views(changeset@) =~= none + none);
    match handle_entries(root, entries, system_state, defaults, &mut changeset, Ghost(none), Ghost(none)) {
        Ok(()) => {
            assert(none + (none + views(changeset@)) =~= views(changeset@));
            Ok(reversed(changeset))
        },
        Err(error) => Err(error),
    }
}

/// What has happened to the entries of a host since they were deployed.
pub fn handle_host(
    config: &Configuration,
    host: &Host,
    system_state: &SystemState,
    defaults: &Defaults,
) -> (result: Result<Vec<PathOperation>, Error>)
    ensures
        match tree_drift(config@.target_dir, host@.directory.entries, system_state@, defaults@) {
            Ok(operations) => result matches Ok(found) && views(found@) == operations,
            Err(error) => result matches Err(found) && found@ == error,
        },
{
    handle_tree(config.target_dir.as_str(), &host.directory.entries, system_state, defaults)
}

/// What has happened to the entries of a group since they were deployed.
pub fn handle_group(
    config: &Configuration,
    group: &Group,
    system_state: &SystemState,
    defaults: &Defaults,
) -> (result: Result<Vec<PathOperation>, Error>)
    ensures
        match tree_drift(config@.target_dir, group@.directory.entries, system_state@, defaults@) {
            Ok(operations) => result matches Ok(found) && views(found@) == operations,
            Err(error) => result matches Err(found) && found@ == error,
        },
{
    handle_tree(config.target_dir.as_str(), &group.directory.entries, system_state, defaults)
}

/// Compares the live system with the state of the last deployment, and
/// gives the changes that somebody else has made to the system since.
///
/// Nothing in the result is meant to be carried out: it tells the user what
/// the deployment is about to overwrite.
pub fn create_changeset(
    config: &Configuration,
    system_state: &SystemState,
    old_state: &State,
    new_state: &State,
    defaults: &Defaults,
) -> (result: Result<Changeset, Error>)
    ensures
        match drift(config@.target_dir, old_state@, new_state@, system_state@, defaults@) {
            Ok(changes) => result matches Ok(found) && found@ == changes,
            Err(error) => result matches Err(found) && found@ == error,
        },
{
    let package_uninstalls = match handle_packages(system_state, old_state, new_state) {
        Ok(found) => found,
        Err(error) => {
            return Err(error);
        },
    };
    let mut path_operations = match handle_host(config, &old_state.host, system_state, defaults) {
        Ok(found) => found,
        Err(error) => {
            return Err(error);
        },
    };
    let ghost root = config@.target_dir;
    let ghost groups = old_state@.host.groups;
    let ghost host_drift = views(path_operations@);
    let mut index: usize = 0;
    proof {
        assert(groups.take(0) =~= Seq::empty());
        assert(host_drift + Seq::<PathOperationView>::empty() =~= host_drift);
    }
    while index < old_state.host.groups.len()
        invariant
            index <= old_state.host.groups.len(),
            root == config@.target_dir,
            groups == old_state@.host.groups,
            groups == views(old_state.host.groups@),
            package_drift(old_state@.packages, new_state@.packages, system_state@) == Ok::<
                Seq<PackageUninstallView>,
                ErrorView,
            >(views(package_uninstalls@)),
            tree_drift(root, old_state@.host.directory.entries, system_state@, defaults@) == Ok::<
                Seq<PathOperationView>,
                ErrorView,
            >(host_drift),
            groups_drift(root, groups.take(index as int), system_state@, defaults@) is Ok,
            views(path_operations@) == host_drift + groups_drift(
                root,
                groups.take(index as int),
                system_state@,
                defaults@,
            )->Ok_0,
        decreases old_state.host.groups.len() - index,
    {
        let ghost before = groups_drift(root, groups.take(index as int), system_state@, defaults@)->Ok_0;
        proof {
            assert(groups.take(index + 1).drop_last() =~= groups.take(index as int));
            assert(groups.take(index + 1).last() == old_state.host.groups@[index as int]@);
        }
        match handle_group(config, &old_state.host.groups[index], system_state, defaults) {
            Ok(found) => {
                let mut found = found;
                proof {
                    lemma_views_add(path_operations@, found@);
                    assert((host_drift + before) + views(found@) =~= host_drift + (before + views(
                        found@,
                    )));
                }
                path_operations.append(&mut found);
            },
            Err(error) => {
                proof {
                    lemma_groups_drift_error(root, groups, system_state@, defaults@, index + 1);
                }
                return Err(error);
            },
        }
        index += 1;
    }
    proof {
        assert(groups.take(index as int) =~= groups);
    }
    let changeset = Changeset { package_installs: Vec::new(), package_uninstalls, path_operations };
    assert(changeset@.package_installs =~= Seq::empty());
    Ok(changeset)
}

} // verus!
