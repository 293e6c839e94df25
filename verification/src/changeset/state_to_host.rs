//! The plan: what has to be done to the live system to reach the desired state.
//!
//! Packages that are desired and not installed are installed. Every entry of
//! the desired tree is compared with what the live system holds at its
//! destination: what is missing is created, what differs is modified, and
//! only in what differs.

use vstd::prelude::*;

use crate::changeset::helper::{equal_permissions, permission_bits};
use crate::changeset::{
    chain, installs, installs_of, lemma_views_add, lemma_views_push, views, Changeset,
    ChangesetView, DirectoryOperation, DirectoryOperationView, FileOperation, FileOperationView,
    PackageInstall, PackageInstallView, PathOperation, PathOperationView,
};
use crate::config::bois::Configuration;
use crate::constants::{Defaults, DefaultsView};
use crate::error::{Error, ErrorView};
use crate::handlers::packages::{select_names, selected, PackageManager, PackageSetsView};
use crate::state::directory::{entry_views, lemma_directory_entry_view, Directory, DirectoryView};
use crate::state::file::{Entry, EntryView, File, FileView};
use crate::state::group::Group;
use crate::state::host::Host;
use crate::state::{State, StateView};
use crate::system_state::{LiveEntry, SystemState, SystemStateView};
use crate::text::{equal_trimmed, trim};

verus! {

// ---------------------------------------------------------------------------
// Packages
// ---------------------------------------------------------------------------

/// The packages of one manager to install: those that are desired and not
/// installed, be it on request or as a dependency. Without a record of what
/// is installed there is no answer.
pub open spec fn manager_installs(
    manager: PackageManager,
    desired: PackageSetsView,
    system: SystemStateView,
) -> Result<Seq<PackageInstallView>, ErrorView> {
    match desired.get(manager) {
        None => Ok(Seq::empty()),
        Some(names) => match system.packages.get(manager) {
            None => Err(ErrorView::PackagesNotLoaded(manager)),
            Some(installed) => Ok(installs_of(manager, selected(names, installed, None))),
        },
    }
}

/// The packages to install, manager by manager.
pub open spec fn package_installs(desired: PackageSetsView, system: SystemStateView) -> Result<
    Seq<PackageInstallView>,
    ErrorView,
> {
    chain(
        chain(
            manager_installs(PackageManager::Pacman, desired, system),
            manager_installs(PackageManager::Paru, desired, system),
        ),
        manager_installs(PackageManager::Apt, desired, system),
    )
}

/// The packages of one manager to install.
fn handle_manager(manager: PackageManager, state: &State, system_state: &SystemState) -> (result:
    Result<Vec<PackageInstall>, Error>)
    ensures
        match manager_installs(manager, state@.packages, system_state@) {
            Ok(operations) => result matches Ok(found) && views(found@) == operations,
            Err(error) => result matches Err(found) && found@ == error,
        },
{
    let names = match state.packages.get(manager) {
        Some(names) => names,
        None => {
            let none: Vec<PackageInstall> = Vec::new();
            assert(views(none@) =~= Seq::empty());
            return Ok(none);
        },
    };
    let installed = match system_state.packages.get(manager) {
        Some(installed) => installed,
        None => {
            return Err(Error::PackagesNotLoaded(manager));
        },
    };
    Ok(installs(manager, &select_names(names, installed, None)))
}

/// The desired packages that are not installed.
///
/// A package that is installed as a dependency counts as installed. The
/// packages of a manager whose installed packages have not been recorded are
/// asked for by `Error::PackagesNotLoaded`.
pub fn handle_packages(state: &State, system_state: &SystemState) -> (result: Result<
    Vec<PackageInstall>,
    Error,
>)
    ensures
        match package_installs(state@.packages, system_state@) {
            Ok(operations) => result matches Ok(found) && views(found@) == operations,
            Err(error) => result matches Err(found) && found@ == error,
        },
{
    let mut installs = match handle_manager(PackageManager::Pacman, state, system_state) {
        Ok(found) => found,
        Err(error) => {
            return Err(error);
        },
    };
    let mut paru = match handle_manager(PackageManager::Paru, state, system_state) {
        Ok(found) => found,
        Err(error) => {
            return Err(error);
        },
    };
    let mut apt = match handle_manager(PackageManager::Apt, state, system_state) {
        Ok(found) => found,
        Err(error) => {
            return Err(error);
        },
    };
    proof {
        lemma_views_add(installs@, paru@);
        lemma_views_add(installs@ + paru@, apt@);
    }
    installs.append(&mut paru);
    installs.append(&mut apt);
    Ok(installs)
}

// ---------------------------------------------------------------------------
// Paths
// ---------------------------------------------------------------------------

/// The bytes of a text.
pub open spec fn bytes_of(text: Seq<char>) -> Seq<u8> {
    vstd::utf8::encode_utf8(text)
}

/// Whether two modes grant the same permissions.
pub open spec fn same_permissions(one: u32, two: u32) -> bool {
    permission_bits(one) == permission_bits(two)
}

/// What has to be done for a file.
///
/// A file that is not there is created in full. A file that is there is
/// modified in what differs from the desired file, and left alone where
/// nothing does. Content is compared without the whitespace at its ends,
/// modes without their file type bits.
pub open spec fn file_plan(
    root: Seq<char>,
    file: FileView,
    system: SystemStateView,
    defaults: DefaultsView,
) -> Result<Seq<PathOperationView>, ErrorView> {
    let path = file.file_path(root, defaults);
    let owner = file.config.owner(defaults);
    let group = file.config.group(defaults);
    match system.observed(path) {
        None => Err(ErrorView::PathNotObserved(path)),
        Some(None) => Ok(
            seq![
                PathOperationView::File(
                    FileOperationView::Create {
                        path,
                        content: bytes_of(file.content),
                        mode: file.mode(),
                        owner,
                        group,
                    },
                ),
            ],
        ),
        Some(Some(live)) => match live.content {
            None => Err(ErrorView::UnreadableFile(path)),
            Some(content) => {
                let same = trim(content) == trim(file.content) && same_permissions(
                    live.mode,
                    file.mode(),
                ) && live.owner == owner && live.group == group;
                if same {
                    Ok(Seq::empty())
                } else {
                    Ok(
                        seq![
                            PathOperationView::File(
                                FileOperationView::Modify {
                                    path,
                                    content: if trim(content) == trim(file.content) {
                                        None
                                    } else {
                                        Some(bytes_of(file.content))
                                    },
                                    mode: if same_permissions(live.mode, file.mode()) {
                                        None
                                    } else {
                                        Some(file.mode())
                                    },
                                    owner: if live.owner == owner {
                                        None
                                    } else {
                                        Some(owner)
                                    },
                                    group: if live.group == group {
                                        None
                                    } else {
                                        Some(group)
                                    },
                                },
                            ),
                        ],
                    )
                }
            },
        },
    }
}

/// What has to be done for a directory itself, whatever it holds.
pub open spec fn directory_plan(
    root: Seq<char>,
    directory: DirectoryView,
    system: SystemStateView,
    defaults: DefaultsView,
) -> Result<Seq<PathOperationView>, ErrorView> {
    let path = directory.file_path(root, defaults);
    let mode = directory.config.mode();
    let owner = directory.config.owner(defaults);
    let group = directory.config.group(defaults);
    match system.observed(path) {
        None => Err(ErrorView::PathNotObserved(path)),
        Some(None) => Ok(
            seq![
                PathOperationView::Directory(
                    DirectoryOperationView::Create { path, mode, owner, group },
                ),
            ],
        ),
        Some(Some(live)) => {
            let same = same_permissions(live.mode, mode) && live.owner == owner && live.group
                == group;
            if same {
                Ok(Seq::empty())
            } else {
                Ok(
                    seq![
                        PathOperationView::Directory(
                            DirectoryOperationView::Modify {
                                path,
                                mode: if same_permissions(live.mode, mode) {
                                    None
                                } else {
                                    Some(mode)
                                },
                                owner: if live.owner == owner {
                                    None
                                } else {
                                    Some(owner)
                                },
                                group: if live.group == group {
                                    None
                                } else {
                                    Some(group)
                                },
                            },
                        ),
                    ],
                )
            }
        },
    }
}

/// What has to be done for an entry: for a directory, what has to be done
/// for the directory itself and then for each entry in it, in their order.
pub open spec fn entry_plan(
    root: Seq<char>,
    entry: EntryView,
    system: SystemStateView,
    defaults: DefaultsView,
) -> Result<Seq<PathOperationView>, ErrorView>
    decreases entry,
{
    match entry {
        EntryView::File(file) => file_plan(root, file, system, defaults),
        EntryView::Directory(directory) => chain(
            directory_plan(root, directory, system, defaults),
            entries_plan(root, directory.entries, system, defaults),
        ),
    }
}

/// What has to be done for the entries of a list, one after the other.
pub open spec fn entries_plan(
    root: Seq<char>,
    entries: Seq<EntryView>,
    system: SystemStateView,
    defaults: DefaultsView,
) -> Result<Seq<PathOperationView>, ErrorView>
    decreases entries,
{
    if entries.len() == 0 {
        Ok(Seq::empty())
    } else {
        chain(
            entries_plan(root, entries.drop_last(), system, defaults),
            entry_plan(root, entries.last(), system, defaults),
        )
    }
}

/// What keeps the plan for the first entries of a list from being made
/// keeps the plan for the whole list from being made.
pub proof fn lemma_entries_plan_error(
    root: Seq<char>,
    entries: Seq<EntryView>,
    system: SystemStateView,
    defaults: DefaultsView,
    count: int,
)
    requires
        0 <= count <= entries.len(),
        entries_plan(root, entries.take(count), system, defaults) is Err,
    ensures
        entries_plan(root, entries, system, defaults) == entries_plan(
            root,
            entries.take(count),
            system,
            defaults,
        ),
    decreases entries.len() - count,
{
    if count < entries.len() {
        assert(entries.take(count + 1).drop_last() =~= entries.take(count));
        lemma_entries_plan_error(root, entries, system, defaults, count + 1);
    } else {
        assert(entries.take(count) =~= entries);
    }
}

/// The operation for a file that is there, `None` where nothing differs.
fn file_patch(path: String, file: &File, live: &LiveEntry, content: &String, defaults: &Defaults) -> (patch:
    Option<PathOperation>)
    requires
        live@.content == Some(content@),
    ensures
        ({
            let owner = file@.config.owner(defaults@);
            let group = file@.config.group(defaults@);
            let same = trim(content@) == trim(file@.content) && same_permissions(
                live.mode,
                file@.mode(),
            ) && live@.owner == owner && live@.group == group;
            match patch {
                None => same,
                Some(operation) => !same && operation@ == PathOperationView::File(
                    FileOperationView::Modify {
                        path: path@,
                        content: if trim(content@) == trim(file@.content) {
                            None
                        } else {
                            Some(bytes_of(file@.content))
                        },
                        mode: if same_permissions(live.mode, file@.mode()) {
                            None
                        } else {
                            Some(file@.mode())
                        },
                        owner: if live@.owner == owner {
                            None
                        } else {
                            Some(owner)
                        },
                        group: if live@.group == group {
                            None
                        } else {
                            Some(group)
                        },
                    },
                ),
            }
        }),
{
    let mut modified_content: Option<Vec<u8>> = None;
    let mut modified_mode: Option<u32> = None;
    let mut modified_owner: Option<String> = None;
    let mut modified_group: Option<String> = None;
    if !equal_trimmed(content.as_str(), file.content.as_str()) {
        modified_content = Some(file.content.as_str().as_bytes_vec());
    }
    if !equal_permissions(live.mode, file.mode()) {
        modified_mode = Some(file.mode());
    }
    let owner = file.config.owner(defaults);
    if live.owner != owner {
        modified_owner = Some(owner);
    }
    let group = file.config.group(defaults);
    if live.group != group {
        modified_group = Some(group);
    }
    if modified_content.is_some() || modified_owner.is_some() || modified_group.is_some()
        || modified_mode.is_some() {
        Some(
            PathOperation::File(
                FileOperation::Modify {
                    path,
                    content: modified_content,
                    mode: modified_mode,
                    owner: modified_owner,
                    group: modified_group,
                },
            ),
        )
    } else {
        None
    }
}

/// The operation for a directory that is there, `None` where nothing differs.
fn directory_patch(path: String, directory: &Directory, live: &LiveEntry, defaults: &Defaults) -> (patch:
    Option<PathOperation>)
    ensures
        ({
            let mode = directory@.config.mode();
            let owner = directory@.config.owner(defaults@);
            let group = directory@.config.group(defaults@);
            let same = same_permissions(live.mode, mode) && live@.owner == owner && live@.group
                == group;
            match patch {
                None => same,
                Some(operation) => !same && operation@ == PathOperationView::Directory(
                    DirectoryOperationView::Modify {
                        path: path@,
                        mode: if same_permissions(live.mode, mode) {
                            None
                        } else {
                            Some(mode)
                        },
                        owner: if live@.owner == owner {
                            None
                        } else {
                            Some(owner)
                        },
                        group: if live@.group == group {
                            None
                        } else {
                            Some(group)
                        },
                    },
                ),
            }
        }),
{
    let mut modified_mode: Option<u32> = None;
    let mut modified_owner: Option<String> = None;
    let mut modified_group: Option<String> = None;
    if !equal_permissions(live.mode, directory.config.mode()) {
        modified_mode = Some(directory.config.mode());
    }
    let owner = directory.config.owner(defaults);
    if live.owner != owner {
        modified_owner = Some(owner);
    }
    let group = directory.config.group(defaults);
    if live.group != group {
        modified_group = Some(group);
    }
    if modified_owner.is_some() || modified_group.is_some() || modified_mode.is_some() {
        Some(
            PathOperation::Directory(
                DirectoryOperation::Modify {
                    path,
                    mode: modified_mode,
                    owner: modified_owner,
                    group: modified_group,
                },
            ),
        )
    } else {
        None
    }
}

/// Appends to `changeset` what has to be done for an entry and, where it is
/// a directory, for everything in it: the directory first, so that it is
/// there before anything is put into it.
///
/// What the live system holds at a destination is read from `system_state`.
/// A destination that nobody has looked at is asked for by
/// `Error::PathNotObserved`.
pub fn handle_entry(
    root: &str,
    entry: &Entry,
    system_state: &SystemState,
    defaults: &Defaults,
    changeset: &mut Vec<PathOperation>,
) -> (result: Result<(), Error>)
    ensures
        match entry_plan(root@, entry@, system_state@, defaults@) {
            Ok(operations) => result is Ok && views(final(changeset)@) == views(old(changeset)@)
                + operations,
            Err(error) => result matches Err(found) && found@ == error,
        },
    decreases entry,
{
    let ghost start = views(changeset@);
    match entry {
        Entry::File(file) => {
            let path = file.file_path(root, defaults);
            match system_state.observed(&path) {
                None => Err(Error::PathNotObserved(path)),
                Some(None) => {
                    let change = FileOperation::Create {
                        path,
                        content: file.content.as_str().as_bytes_vec(),
                        mode: file.mode(),
                        owner: file.config.owner(defaults),
                        group: file.config.group(defaults),
                    };
                    proof {
                        lemma_views_push(changeset@, PathOperation::File(change));
                        assert(start.push(PathOperation::File(change)@) =~= start
                            + seq![PathOperation::File(change)@]);
                    }
                    changeset.push(PathOperation::File(change));
                    Ok(())
                },
                Some(Some(live)) => {
                    let content = match &live.content {
                        Some(content) => content,
                        None => {
                            return Err(Error::UnreadableFile(path));
                        },
                    };
                    match file_patch(path, file, live, content, defaults) {
                        Some(change) => {
                            proof {
                                lemma_views_push(changeset@, change);
                                assert(start.push(change@) =~= start + seq![change@]);
                            }
                            changeset.push(change);
                        },
                        None => {
                            assert(start + Seq::<PathOperationView>::empty() =~= start);
                        },
                    }
                    Ok(())
                },
            }
        },
        Entry::Directory(directory) => {
            proof {
                lemma_directory_entry_view(*directory);
            }
            let path = directory.file_path(root, defaults);
            match system_state.observed(&path) {
                None => {
                    return Err(Error::PathNotObserved(path));
                },
                Some(None) => {
                    let change = DirectoryOperation::Create {
                        path,
                        mode: directory.config.mode(),
                        owner: directory.config.owner(defaults),
                        group: directory.config.group(defaults),
                    };
                    proof {
                        lemma_views_push(changeset@, PathOperation::Directory(change));
                        assert(start.push(PathOperation::Directory(change)@) =~= start
                            + seq![PathOperation::Directory(change)@]);
                    }
                    changeset.push(PathOperation::Directory(change));
                },
                Some(Some(live)) => {
                    match directory_patch(path, directory, live, defaults) {
                        Some(change) => {
                            proof {
                                lemma_views_push(changeset@, change);
                                assert(start.push(change@) =~= start + seq![change@]);
                            }
                            changeset.push(change);
                        },
                        None => {
                            assert(start + Seq::<PathOperationView>::empty() =~= start);
                        },
                    }
                },
            }
            handle_entries(root, &directory.entries, system_state, defaults, changeset, Ghost(
                directory_plan(root@, directory@, system_state@, defaults@)->Ok_0,
            ), Ghost(start))
        },
    }
}

/// Appends to `changeset` what has to be done for the entries of a list.
fn handle_entries(
    root: &str,
    entries: &Vec<Entry>,
    system_state: &SystemState,
    defaults: &Defaults,
    changeset: &mut Vec<PathOperation>,
    Ghost(head): Ghost<Seq<PathOperationView>>,
    Ghost(start): Ghost<Seq<PathOperationView>>,
) -> (result: Result<(), Error>)
    requires
        views(old(changeset)@) == start + head,
    ensures
        match entries_plan(root@, entry_views(entries@), system_state@, defaults@) {
            Ok(operations) => result is Ok && views(final(changeset)@) == start + (head
                + operations),
            Err(error) => result matches Err(found) && found@ == error,
        },
    decreases entries,
{
    let ghost all = entry_views(entries@);
    let mut index: usize = 0;
    proof {
        assert(all.take(0) =~= Seq::empty());
        assert(start + head =~= start + (head + Seq::<PathOperationView>::empty()));
    }
    while index < entries.len()
        invariant
            index <= entries.len(),
            all == entry_views(entries@),
            entries_plan(root@, all.take(index as int), system_state@, defaults@) is Ok,
            views(changeset@) == start + (head + entries_plan(
                root@,
                all.take(index as int),
                system_state@,
                defaults@,
            )->Ok_0),
        decreases entries.len() - index,
    {
        let ghost before = entries_plan(
            root@,
            all.take(index as int),
            system_state@,
            defaults@,
        )->Ok_0;
        proof {
            assert(all.take(index + 1).drop_last() =~= all.take(index as int));
            assert(all.take(index + 1).last() == entries@[index as int]@);
        }
        match handle_entry(root, &entries[index], system_state, defaults, changeset) {
            Ok(()) => {
                proof {
                    let more = entry_plan(
                        root@,
                        entries@[index as int]@,
                        system_state@,
                        defaults@,
                    )->Ok_0;
                    assert((start + (head + before)) + more =~= start + (head + (before + more)));
                }
            },
            Err(error) => {
                proof {
                    lemma_entries_plan_error(root@, all, system_state@, defaults@, index + 1);
                }
                return Err(error);
            },
        }
        index += 1;
    }
    proof {
        assert(all.take(index as int) =~= all);
    }
    Ok(())
}


/// What has to be done for the entries of the groups of a list, group after group.
pub open spec fn groups_plan(
    root: Seq<char>,
    groups: Seq<crate::state::group::GroupView>,
    system: SystemStateView,
    defaults: DefaultsView,
) -> Result<Seq<PathOperationView>, ErrorView>
    decreases groups.len(),
{
    if groups.len() == 0 {
        Ok(Seq::empty())
    } else {
        chain(
            groups_plan(root, groups.drop_last(), system, defaults),
            entries_plan(root, groups.last().directory.entries, system, defaults),
        )
    }
}

/// What keeps the plan for the first groups of a list from being made keeps
/// the plan for the whole list from being made.
pub proof fn lemma_groups_plan_error(
    root: Seq<char>,
    groups: Seq<crate::state::group::GroupView>,
    system: SystemStateView,
    defaults: DefaultsView,
    count: int,
)
    requires
        0 <= count <= groups.len(),
        groups_plan(root, groups.take(count), system, defaults) is Err,
    ensures
        groups_plan(root, groups, system, defaults) == groups_plan(
            root,
            groups.take(count),
            system,
            defaults,
        ),
    decreases groups.len() - count,
{
    if count < groups.len() {
        assert(groups.take(count + 1).drop_last() =~= groups.take(count));
        lemma_groups_plan_error(root, groups, system, defaults, count + 1);
    } else {
        assert(groups.take(count) =~= groups);
    }
}

/// The whole plan: the packages to install, and what has to be done for the
/// entries of the host and then of each of its groups, all below the target
/// directory of the run.
pub open spec fn plan(
    target_dir: Seq<char>,
    state: StateView,
    system: SystemStateView,
    defaults: DefaultsView,
) -> Result<ChangesetView, ErrorView> {
    match package_installs(state.packages, system) {
        Err(error) => Err(error),
        Ok(package_installs) => match chain(
            entries_plan(target_dir, state.host.directory.entries, system, defaults),
            groups_plan(target_dir, state.host.groups, system, defaults),
        ) {
            Err(error) => Err(error),
            Ok(path_operations) => Ok(
                ChangesetView {
                    package_installs,
                    package_uninstalls: Seq::empty(),
                    path_operations,
                },
            ),
        },
    }
}

/// What has to be done for the entries of a host.
pub fn handle_host(
    config: &Configuration,
    host: &Host,
    system_state: &SystemState,
    defaults: &Defaults,
) -> (result: Result<Vec<PathOperation>, Error>)
    ensures
        match entries_plan(config@.target_dir, host@.directory.entries, system_state@, defaults@) {
            Ok(operations) => result matches Ok(found) && views(found@) == operations,
            Err(error) => result matches Err(found) && found@ == error,
        },
{
    let mut changeset: Vec<PathOperation> = Vec::new();
    let ghost none = Seq::<PathOperationView>::empty();
    assert(views(changeset@) =~= none + none);
    match handle_entries(
        config.target_dir.as_str(),
        &host.directory.entries,
        system_state,
        defaults,
        &mut changeset,
        Ghost(none),
        Ghost(none),
    ) {
        Ok(()) => {
            assert(none + (none + views(changeset@)) =~= views(changeset@));
            Ok(changeset)
        },
        Err(error) => Err(error),
    }
}

/// What has to be done for the entries of a group.
pub fn handle_group(
    config: &Configuration,
    group: &Group,
    system_state: &SystemState,
    defaults: &Defaults,
) -> (result: Result<Vec<PathOperation>, Error>)
    ensures
        match entries_plan(config@.target_dir, group@.directory.entries, system_state@, defaults@) {
            Ok(operations) => result matches Ok(found) && views(found@) == operations,
            Err(error) => result matches Err(found) && found@ == error,
        },
{
    let mut changeset: Vec<PathOperation> = Vec::new();
    let ghost none = Seq::<PathOperationView>::empty();
    assert(views(changeset@) =~= none + none);
    match handle_entries(
        config.target_dir.as_str(),
        &group.directory.entries,
        system_state,
        defaults,
        &mut changeset,
        Ghost(none),
        Ghost(none),
    ) {
        Ok(()) => {
            assert(none + (none + views(changeset@)) =~= views(changeset@));
            Ok(changeset)
        },
        Err(error) => Err(error),
    }
}

/// Compares the desired state with the live system, and gives the changes
/// that make the system what the state describes.
///
/// The facts about the live system come from `system_state`. A fact that it
/// does not hold is asked for by the error that is returned, the first one
/// in the order in which the plan needs them: packages by manager, then the
/// entries of the host, then those of each group.
pub fn create_changeset(
    config: &Configuration,
    state: &State,
    system_state: &SystemState,
    defaults: &Defaults,
) -> (result: Result<Changeset, Error>)
    ensures
        match plan(config@.target_dir, state@, system_state@, defaults@) {
            Ok(changes) => result matches Ok(found) && found@ == changes,
            Err(error) => result matches Err(found) && found@ == error,
        },
{
    let installs = match handle_packages(state, system_state) {
        Ok(found) => found,
        Err(error) => {
            return Err(error);
        },
    };
    let mut path_operations = match handle_host(config, &state.host, system_state, defaults) {
        Ok(found) => found,
        Err(error) => {
            return Err(error);
        },
    };
    let ghost root = config@.target_dir;
    let ghost groups = state@.host.groups;
    let ghost host_plan = views(path_operations@);
    let mut index: usize = 0;
    proof {
        assert(groups.take(0) =~= Seq::empty());
        assert(host_plan + Seq::<PathOperationView>::empty() =~= host_plan);
    }
    while index < state.host.groups.len()
        invariant
            index <= state.host.groups.len(),
            root == config@.target_dir,
            groups == state@.host.groups,
            groups == views(state.host.groups@),
            package_installs(state@.packages, system_state@) == Ok::<
                Seq<PackageInstallView>,
                ErrorView,
            >(views(installs@)),
            entries_plan(root, state@.host.directory.entries, system_state@, defaults@) == Ok::<
                Seq<PathOperationView>,
                ErrorView,
            >(host_plan),
            groups_plan(root, groups.take(index as int), system_state@, defaults@) is Ok,
            views(path_operations@) == host_plan + groups_plan(
                root,
                groups.take(index as int),
                system_state@,
                defaults@,
            )->Ok_0,
        decreases state.host.groups.len() - index,
    {
        let ghost before = groups_plan(root, groups.take(index as int), system_state@, defaults@)->Ok_0;
        proof {
            assert(groups.take(index + 1).drop_last() =~= groups.take(index as int));
            assert(groups.take(index + 1).last() == state.host.groups@[index as int]@);
        }
        match handle_group(config, &state.host.groups[index], system_state, defaults) {
            Ok(found) => {
                let mut found = found;
                proof {
                    lemma_views_add(path_operations@, found@);
                    assert((host_plan + before) + views(found@) =~= host_plan + (before + views(
                        found@,
                    )));
                }
                path_operations.append(&mut found);
            },
            Err(error) => {
                proof {
                    lemma_groups_plan_error(root, groups, system_state@, defaults@, index + 1);
                }
                return Err(error);
            },
        }
        index += 1;
    }
    proof {
        assert(groups.take(index as int) =~= groups);
    }
    let changeset = Changeset {
        package_installs: installs,
        package_uninstalls: Vec::new(),
        path_operations,
    };
    assert(changeset@.package_uninstalls =~= Seq::empty());
    Ok(changeset)
}

} // verus!
