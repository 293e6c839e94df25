//! What holds of the three passes, whatever state and system they are given.

use vstd::prelude::*;

use crate::changeset::host_to_state::{
    drift, entries_drift, entry_drift, groups_drift, manager_drift, tree_drift,
};
use crate::changeset::state_to_host::{
    bytes_of, entries_plan, entry_plan, file_plan, groups_plan, plan, same_permissions,
};
use crate::changeset::state_to_state::{cleanup_changes, manager_cleanup};
use crate::changeset::{
    uninstalls_of, ChangesetView, DirectoryOperationView, FileOperationView, PathOperationView,
};
use crate::constants::DefaultsView;
use crate::handlers::packages::{
    lemma_selected_contains, names_or_none, passes, selected, PackageManager, PackageSetsView,
};
use crate::state::directory::DirectoryView;
use crate::state::file::{EntryView, FileView};
use crate::state::group::GroupView;
use crate::state::StateView;
use crate::system_state::SystemStateView;
use crate::text::trim;

verus! {

// ---------------------------------------------------------------------------
// A system that is what a state describes
// ---------------------------------------------------------------------------

/// Whether the live system holds a file as the state describes it.
pub open spec fn file_in_place(
    root: Seq<char>,
    file: FileView,
    system: SystemStateView,
    defaults: DefaultsView,
) -> bool {
    match system.observed(file.file_path(root, defaults)) {
        Some(Some(live)) => {
            &&& live.content matches Some(content) && trim(content) == trim(file.content)
            &&& same_permissions(live.mode, file.mode())
            &&& live.owner == file.config.owner(defaults)
            &&& live.group == file.config.group(defaults)
        },
        _ => false,
    }
}

/// Whether the live system holds a directory as the state describes it,
/// whatever is in it.
pub open spec fn directory_in_place(
    root: Seq<char>,
    directory: DirectoryView,
    system: SystemStateView,
    defaults: DefaultsView,
) -> bool {
    match system.observed(directory.file_path(root, defaults)) {
        Some(Some(live)) => {
            &&& same_permissions(live.mode, directory.config.mode())
            &&& live.owner == directory.config.owner(defaults)
            &&& live.group == directory.config.group(defaults)
        },
        _ => false,
    }
}

/// Whether the live system holds an entry, and all that is in it, as the
/// state describes it.
pub open spec fn entry_in_place(
    root: Seq<char>,
    entry: EntryView,
    system: SystemStateView,
    defaults: DefaultsView,
) -> bool
    decreases entry,
{
    match entry {
        EntryView::File(file) => file_in_place(root, file, system, defaults),
        EntryView::Directory(directory) => directory_in_place(root, directory, system, defaults)
            && entries_in_place(root, directory.entries, system, defaults),
    }
}

/// Whether the live system holds every entry of a list as the state describes it.
pub open spec fn entries_in_place(
    root: Seq<char>,
    entries: Seq<EntryView>,
    system: SystemStateView,
    defaults: DefaultsView,
) -> bool
    decreases entries,
{
    entries.len() == 0 || (entries_in_place(root, entries.drop_last(), system, defaults)
        && entry_in_place(root, entries.last(), system, defaults))
}

/// Whether the live system holds the entries of every group of a list.
pub open spec fn groups_in_place(
    root: Seq<char>,
    groups: Seq<GroupView>,
    system: SystemStateView,
    defaults: DefaultsView,
) -> bool
    decreases groups.len(),
{
    groups.len() == 0 || (groups_in_place(root, groups.drop_last(), system, defaults)
        && entries_in_place(root, groups.last().directory.entries, system, defaults))
}

/// Whether every package of the sets is installed.
pub open spec fn packages_in_place(packages: PackageSetsView, system: SystemStateView) -> bool {
    forall|manager: PackageManager| #[trigger]
        packages.get(manager) is Some ==> {
            &&& system.packages.get(manager) is Some
            &&& forall|name: Seq<char>| #[trigger]
                packages.get(manager).unwrap().contains(name) ==> system.packages.get(
                    manager,
                ).unwrap().contains(name)
        }
}

/// Whether the live system is what a state describes: its packages are
/// installed, and every one of its entries is there with the content, mode,
/// owner and group that the state gives it.
pub open spec fn state_in_place(
    target_dir: Seq<char>,
    state: StateView,
    system: SystemStateView,
    defaults: DefaultsView,
) -> bool {
    &&& packages_in_place(state.packages, system)
    &&& entries_in_place(target_dir, state.host.directory.entries, system, defaults)
    &&& groups_in_place(target_dir, state.host.groups, system, defaults)
}

// ---------------------------------------------------------------------------
// Nothing to report, nothing to clean up
// ---------------------------------------------------------------------------

/// Nothing is selected from a list of which no name passes.
proof fn lemma_selected_nothing(
    names: Seq<Seq<char>>,
    lacking: Seq<Seq<char>>,
    holding: Option<Seq<Seq<char>>>,
)
    requires
        forall|name: Seq<char>| names.contains(name) ==> !passes(name, lacking, holding),
    ensures
        selected(names, lacking, holding) == Seq::<Seq<char>>::empty(),
{
    let chosen = selected(names, lacking, holding);
    if chosen.len() > 0 {
        assert(chosen.contains(chosen[0]));
        lemma_selected_contains(names, lacking, holding, chosen[0]);
    }
    assert(chosen =~= Seq::empty());
}

/// No package of one manager is cleaned up between a state and itself.
proof fn lemma_manager_cleanup_of_same_state(
    manager: PackageManager,
    packages: PackageSetsView,
    system: SystemStateView,
)
    requires
        packages.get(manager) is Some ==> system.explicit_packages.get(manager) is Some,
    ensures
        manager_cleanup(manager, packages, packages, system) == Ok::<
            Seq<crate::changeset::PackageUninstallView>,
            crate::error::ErrorView,
        >(Seq::empty()),
{
    if packages.get(manager) is Some {
        let names = packages.get(manager).unwrap();
        let explicit = system.explicit_packages.get(manager).unwrap();
        lemma_selected_nothing(names, names, Some(explicit));
        assert(uninstalls_of(manager, Seq::empty()) =~= Seq::empty());
    }
}

/// Where the desired state is the state of the last deployment, nothing is
/// cleaned up, whatever the live system holds. All that is asked is that
/// the installed packages of the managers that the state names are on record.
pub proof fn law_cleanup_of_same_state_is_empty(state: StateView, system: SystemStateView)
    requires
        forall|manager: PackageManager| #[trigger]
            state.packages.get(manager) is Some ==> system.explicit_packages.get(manager) is Some,
    ensures
        cleanup_changes(state, state, system) == Ok::<ChangesetView, crate::error::ErrorView>(
            ChangesetView::empty(),
        ),
{
    lemma_manager_cleanup_of_same_state(PackageManager::Pacman, state.packages, system);
    lemma_manager_cleanup_of_same_state(PackageManager::Paru, state.packages, system);
    lemma_manager_cleanup_of_same_state(PackageManager::Apt, state.packages, system);
    let none = Seq::<crate::changeset::PackageUninstallView>::empty();
    assert(none + none =~= none);
}

/// No package of one manager has gone missing while all are installed.
proof fn lemma_manager_drift_in_place(
    manager: PackageManager,
    old: PackageSetsView,
    new: PackageSetsView,
    system: SystemStateView,
)
    requires
        packages_in_place(old, system),
    ensures
        manager_drift(manager, old, new, system) == Ok::<
            Seq<crate::changeset::PackageUninstallView>,
            crate::error::ErrorView,
        >(Seq::empty()),
{
    if old.get(manager) is Some {
        let names = old.get(manager).unwrap();
        let installed = system.packages.get(manager).unwrap();
        lemma_selected_nothing(names, installed, Some(names_or_none(new.get(manager))));
        assert(uninstalls_of(manager, Seq::empty()) =~= Seq::empty());
    }
}

/// Nothing has happened to an entry that is in place.
proof fn lemma_entry_drift_in_place(
    root: Seq<char>,
    entry: EntryView,
    system: SystemStateView,
    defaults: DefaultsView,
)
    requires
        entry_in_place(root, entry, system, defaults),
    ensures
        entry_drift(root, entry, system, defaults) == Ok::<
            Seq<PathOperationView>,
            crate::error::ErrorView,
        >(Seq::empty()),
    decreases entry,
{
    match entry {
        EntryView::File(file) => {},
        EntryView::Directory(directory) => {
            lemma_entries_drift_in_place(root, directory.entries, system, defaults);
            let none = Seq::<PathOperationView>::empty();
            assert(none + none =~= none);
        },
    }
}

/// Nothing has happened to the entries of a list that are all in place.
proof fn lemma_entries_drift_in_place(
    root: Seq<char>,
    entries: Seq<EntryView>,
    system: SystemStateView,
    defaults: DefaultsView,
)
    requires
        entries_in_place(root, entries, system, defaults),
    ensures
        entries_drift(root, entries, system, defaults) == Ok::<
            Seq<PathOperationView>,
            crate::error::ErrorView,
        >(Seq::empty()),
        tree_drift(root, entries, system, defaults) == Ok::<
            Seq<PathOperationView>,
            crate::error::ErrorView,
        >(Seq::empty()),
    decreases entries,
{
    let none = Seq::<PathOperationView>::empty();
    if entries.len() > 0 {
        lemma_entries_drift_in_place(root, entries.drop_last(), system, defaults);
        lemma_entry_drift_in_place(root, entries.last(), system, defaults);
        assert(none + none =~= none);
    }
    assert(none.reverse() =~= none);
}

/// Nothing has happened to the entries of groups that are all in place.
proof fn lemma_groups_drift_in_place(
    root: Seq<char>,
    groups: Seq<GroupView>,
    system: SystemStateView,
    defaults: DefaultsView,
)
    requires
        groups_in_place(root, groups, system, defaults),
    ensures
        groups_drift(root, groups, system, defaults) == Ok::<
            Seq<PathOperationView>,
            crate::error::ErrorView,
        >(Seq::empty()),
    decreases groups.len(),
{
    if groups.len() > 0 {
        lemma_groups_drift_in_place(root, groups.drop_last(), system, defaults);
        lemma_entries_drift_in_place(root, groups.last().directory.entries, system, defaults);
        let none = Seq::<PathOperationView>::empty();
        assert(none + none =~= none);
    }
}

/// Where the live system is what the last deployment left, there is no
/// drift to report, whatever the desired state asks for.
pub proof fn law_no_drift_where_state_is_in_place(
    target_dir: Seq<char>,
    old: StateView,
    new: StateView,
    system: SystemStateView,
    defaults: DefaultsView,
)
    requires
        state_in_place(target_dir, old, system, defaults),
    ensures
        drift(target_dir, old, new, system, defaults) == Ok::<ChangesetView, crate::error::ErrorView>(
            ChangesetView::empty(),
        ),
{
    lemma_manager_drift_in_place(PackageManager::Pacman, old.packages, new.packages, system);
    lemma_manager_drift_in_place(PackageManager::Paru, old.packages, new.packages, system);
    lemma_manager_drift_in_place(PackageManager::Apt, old.packages, new.packages, system);
    let none = Seq::<crate::changeset::PackageUninstallView>::empty();
    assert(none + none =~= none);
    lemma_entries_drift_in_place(target_dir, old.host.directory.entries, system, defaults);
    lemma_groups_drift_in_place(target_dir, old.host.groups, system, defaults);
    let nothing = Seq::<PathOperationView>::empty();
    assert(nothing + nothing =~= nothing);
}

// ---------------------------------------------------------------------------
// The plan is minimal
// ---------------------------------------------------------------------------

/// Whether an operation changes something: an operation that modifies a
/// path names one field at least, and every field that it names differs
/// from what the live system holds at the path. Operations that create or
/// delete always do.
pub open spec fn changes_something(operation: PathOperationView, system: SystemStateView) -> bool {
    match operation {
        PathOperationView::File(FileOperationView::Modify { path, content, mode, owner, group }) => {
            &&& content is Some || mode is Some || owner is Some || group is Some
            &&& system.observed(path) matches Some(Some(live)) && {
                &&& content matches Some(bytes) ==> live.content matches Some(text) && bytes
                    != bytes_of(text)
                &&& mode matches Some(mode) ==> !same_permissions(live.mode, mode)
                &&& owner matches Some(owner) ==> live.owner != owner
                &&& group matches Some(group) ==> live.group != group
            }
        },
        PathOperationView::Directory(DirectoryOperationView::Modify { path, mode, owner, group }) => {
            &&& mode is Some || owner is Some || group is Some
            &&& system.observed(path) matches Some(Some(live)) && {
                &&& mode matches Some(mode) ==> !same_permissions(live.mode, mode)
                &&& owner matches Some(owner) ==> live.owner != owner
                &&& group matches Some(group) ==> live.group != group
            }
        },
        _ => true,
    }
}

/// Whether every operation of a list changes something.
pub open spec fn all_change_something(
    operations: Seq<PathOperationView>,
    system: SystemStateView,
) -> bool {
    forall|i: int| 0 <= i < operations.len() ==> changes_something(#[trigger] operations[i], system)
}

/// Every operation planned for a file changes something.
proof fn lemma_file_plan_is_minimal(
    root: Seq<char>,
    file: FileView,
    system: SystemStateView,
    defaults: DefaultsView,
)
    requires
        file_plan(root, file, system, defaults) is Ok,
    ensures
        all_change_something(file_plan(root, file, system, defaults)->Ok_0, system),
{
    let path = file.file_path(root, defaults);
    match system.observed(path) {
        Some(Some(live)) => {
            let content = live.content.unwrap();
            if trim(content) != trim(file.content) {
                vstd::utf8::encode_utf8_decode_utf8(content);
                vstd::utf8::encode_utf8_decode_utf8(file.content);
            }
        },
        _ => {},
    }
}

/// Every operation planned for an entry changes something.
proof fn lemma_entry_plan_is_minimal(
    root: Seq<char>,
    entry: EntryView,
    system: SystemStateView,
    defaults: DefaultsView,
)
    requires
        entry_plan(root, entry, system, defaults) is Ok,
    ensures
        all_change_something(entry_plan(root, entry, system, defaults)->Ok_0, system),
    decreases entry,
{
    match entry {
        EntryView::File(file) => {
            lemma_file_plan_is_minimal(root, file, system, defaults);
        },
        EntryView::Directory(directory) => {
            lemma_entries_plan_is_minimal(root, directory.entries, system, defaults);
        },
    }
}

/// Every operation planned for the entries of a list changes something.
proof fn lemma_entries_plan_is_minimal(
    root: Seq<char>,
    entries: Seq<EntryView>,
    system: SystemStateView,
    defaults: DefaultsView,
)
    requires
        entries_plan(root, entries, system, defaults) is Ok,
    ensures
        all_change_something(entries_plan(root, entries, system, defaults)->Ok_0, system),
    decreases entries,
{
    if entries.len() > 0 {
        lemma_entries_plan_is_minimal(root, entries.drop_last(), system, defaults);
        lemma_entry_plan_is_minimal(root, entries.last(), system, defaults);
    }
}

/// Every operation planned for the entries of groups changes something.
proof fn lemma_groups_plan_is_minimal(
    root: Seq<char>,
    groups: Seq<GroupView>,
    system: SystemStateView,
    defaults: DefaultsView,
)
    requires
        groups_plan(root, groups, system, defaults) is Ok,
    ensures
        all_change_something(groups_plan(root, groups, system, defaults)->Ok_0, system),
    decreases groups.len(),
{
    if groups.len() > 0 {
        lemma_groups_plan_is_minimal(root, groups.drop_last(), system, defaults);
        lemma_entries_plan_is_minimal(root, groups.last().directory.entries, system, defaults);
    }
}

/// The plan holds no operation that changes nothing: whatever it modifies,
/// it modifies in one field at least, and only in fields whose value on the
/// live system differs from the desired one.
pub proof fn law_plan_is_minimal(
    target_dir: Seq<char>,
    state: StateView,
    system: SystemStateView,
    defaults: DefaultsView,
)
    requires
        plan(target_dir, state, system, defaults) is Ok,
    ensures
        all_change_something(plan(target_dir, state, system, defaults)->Ok_0.path_operations, system),
{
    lemma_entries_plan_is_minimal(target_dir, state.host.directory.entries, system, defaults);
    lemma_groups_plan_is_minimal(target_dir, state.host.groups, system, defaults);
}

/// Where the live system is what the desired state describes, the plan is empty.
pub proof fn law_plan_is_empty_where_state_is_in_place(
    target_dir: Seq<char>,
    state: StateView,
    system: SystemStateView,
    defaults: DefaultsView,
)
    requires
        state_in_place(target_dir, state, system, defaults),
    ensures
        plan(target_dir, state, system, defaults) == Ok::<ChangesetView, crate::error::ErrorView>(
            ChangesetView::empty(),
        ),
{
    lemma_manager_installs_in_place(PackageManager::Pacman, state.packages, system);
    lemma_manager_installs_in_place(PackageManager::Paru, state.packages, system);
    lemma_manager_installs_in_place(PackageManager::Apt, state.packages, system);
    let none = Seq::<crate::changeset::PackageInstallView>::empty();
    assert(none + none =~= none);
    lemma_entries_plan_in_place(target_dir, state.host.directory.entries, system, defaults);
    lemma_groups_plan_in_place(target_dir, state.host.groups, system, defaults);
    let nothing = Seq::<PathOperationView>::empty();
    assert(nothing + nothing =~= nothing);
}

/// No package of one manager is to be installed while all are installed.
proof fn lemma_manager_installs_in_place(
    manager: PackageManager,
    packages: PackageSetsView,
    system: SystemStateView,
)
    requires
        packages_in_place(packages, system),
    ensures
        crate::changeset::state_to_host::manager_installs(manager, packages, system) == Ok::<
            Seq<crate::changeset::PackageInstallView>,
            crate::error::ErrorView,
        >(Seq::empty()),
{
    if packages.get(manager) is Some {
        let names = packages.get(manager).unwrap();
        let installed = system.packages.get(manager).unwrap();
        lemma_selected_nothing(names, installed, None);
        assert(crate::changeset::installs_of(manager, Seq::empty()) =~= Seq::empty());
    }
}

/// Nothing is to be done for an entry that is in place.
proof fn lemma_entry_plan_in_place(
    root: Seq<char>,
    entry: EntryView,
    system: SystemStateView,
    defaults: DefaultsView,
)
    requires
        entry_in_place(root, entry, system, defaults),
    ensures
        entry_plan(root, entry, system, defaults) == Ok::<
            Seq<PathOperationView>,
            crate::error::ErrorView,
        >(Seq::empty()),
    decreases entry,
{
    match entry {
        EntryView::File(file) => {},
        EntryView::Directory(directory) => {
            lemma_entries_plan_in_place(root, directory.entries, system, defaults);
            let none = Seq::<PathOperationView>::empty();
            assert(none + none =~= none);
        },
    }
}

/// Nothing is to be done for the entries of a list that are all in place.
proof fn lemma_entries_plan_in_place(
    root: Seq<char>,
    entries: Seq<EntryView>,
    system: SystemStateView,
    defaults: DefaultsView,
)
    requires
        entries_in_place(root, entries, system, defaults),
    ensures
        entries_plan(root, entries, system, defaults) == Ok::<
            Seq<PathOperationView>,
            crate::error::ErrorView,
        >(Seq::empty()),
    decreases entries,
{
    if entries.len() > 0 {
        lemma_entries_plan_in_place(root, entries.drop_last(), system, defaults);
        lemma_entry_plan_in_place(root, entries.last(), system, defaults);
        let none = Seq::<PathOperationView>::empty();
        assert(none + none =~= none);
    }
}

/// Nothing is to be done for the entries of groups that are all in place.
proof fn lemma_groups_plan_in_place(
    root: Seq<char>,
    groups: Seq<GroupView>,
    system: SystemStateView,
    defaults: DefaultsView,
)
    requires
        groups_in_place(root, groups, system, defaults),
    ensures
        groups_plan(root, groups, system, defaults) == Ok::<
            Seq<PathOperationView>,
            crate::error::ErrorView,
        >(Seq::empty()),
    decreases groups.len(),
{
    if groups.len() > 0 {
        lemma_groups_plan_in_place(root, groups.drop_last(), system, defaults);
        lemma_entries_plan_in_place(root, groups.last().directory.entries, system, defaults);
        let none = Seq::<PathOperationView>::empty();
        assert(none + none =~= none);
    }
}

} // verus!
