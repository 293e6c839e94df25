//! Cleanup: what the last deployment put on the system and the desired
//! state no longer asks for.
//!
//! Only packages are cleaned up. Files that the last deployment wrote and the
//! desired state no longer holds stay where they are.

use vstd::prelude::*;

use crate::changeset::compiled_state::CompiledState;
use crate::changeset::{
    chain, uninstalls, uninstalls_of, views, Changeset, ChangesetView, PackageUninstall,
    PackageUninstallView,
};
use crate::error::{Error, ErrorView};
use crate::handlers::packages::{
    names_or_none, select_names, selected, PackageManager, PackageSetsView,
};
use crate::state::{State, StateView};
use crate::system_state::{SystemState, SystemStateView};
use crate::text::texts;

verus! {

/// The packages of one manager to remove: those that the old state
/// deployed, that the new state does not hold, and that are still installed
/// on request. Without a record of what is installed there is no answer.
pub open spec fn manager_cleanup(
    manager: PackageManager,
    old: PackageSetsView,
    new: PackageSetsView,
    system: SystemStateView,
) -> Result<Seq<PackageUninstallView>, ErrorView> {
    match old.get(manager) {
        None => Ok(Seq::empty()),
        Some(names) => match system.explicit_packages.get(manager) {
            None => Err(ErrorView::PackagesNotLoaded(manager)),
            Some(explicit) => Ok(
                uninstalls_of(
                    manager,
                    selected(names, names_or_none(new.get(manager)), Some(explicit)),
                ),
            ),
        },
    }
}

/// The packages to remove, manager by manager.
pub open spec fn cleanup(old: PackageSetsView, new: PackageSetsView, system: SystemStateView) -> Result<
    Seq<PackageUninstallView>,
    ErrorView,
> {
    chain(
        chain(
            manager_cleanup(PackageManager::Pacman, old, new, system),
            manager_cleanup(PackageManager::Paru, old, new, system),
        ),
        manager_cleanup(PackageManager::Apt, old, new, system),
    )
}

/// The packages of one manager to remove.
fn handle_manager(
    manager: PackageManager,
    system_state: &SystemState,
    old_state: &CompiledState,
    new_state: &CompiledState,
) -> (result: Result<Vec<PackageUninstall>, Error>)
    ensures
        match manager_cleanup(manager, old_state@, new_state@, system_state@) {
            Ok(operations) => result matches Ok(found) && views(found@) == operations,
            Err(error) => result matches Err(found) && found@ == error,
        },
{
    let names = match old_state.deployed_packages.get(manager) {
        Some(names) => names,
        None => {
            let none: Vec<PackageUninstall> = Vec::new();
            assert(views(none@) =~= Seq::empty());
            return Ok(none);
        },
    };
    let explicit = match system_state.explicit_packages.get(manager) {
        Some(explicit) => explicit,
        None => {
            return Err(Error::PackagesNotLoaded(manager));
        },
    };
    let none: Vec<String> = Vec::new();
    let kept = match new_state.deployed_packages.get(manager) {
        Some(kept) => kept,
        None => {
            assert(texts(none@) =~= Seq::empty());
            &none
        },
    };
    Ok(uninstalls(manager, &select_names(names, kept, Some(explicit))))
}

/// The packages that the old state deployed and the new state no longer
/// asks for, as far as they are still installed on request.
///
/// A manager that the new state does not mention at all loses every
/// package that the old state deployed for it and that is still installed.
/// The packages of a manager whose installed packages have not been recorded
/// are asked for by `Error::PackagesNotLoaded`.
pub fn handle_packages(
    system_state: &SystemState,
    old_state: &CompiledState,
    new_state: &CompiledState,
) -> (result: Result<Vec<PackageUninstall>, Error>)
    ensures
        match cleanup(old_state@, new_state@, system_state@) {
            Ok(operations) => result matches Ok(found) && views(found@) == operations,
            Err(error) => result matches Err(found) && found@ == error,
        },
{
    let mut uninstalls = match handle_manager(
        PackageManager::Pacman,
        system_state,
        old_state,
        new_state,
    ) {
        Ok(found) => found,
        Err(error) => {
            return Err(error);
        },
    };
    let mut paru = match handle_manager(PackageManager::Paru, system_state, old_state, new_state) {
        Ok(found) => found,
        Err(error) => {
            return Err(error);
        },
    };
    let mut apt = match handle_manager(PackageManager::Apt, system_state, old_state, new_state) {
        Ok(found) => found,
        Err(error) => {
            return Err(error);
        },
    };
    proof {
        crate::changeset::lemma_views_add(uninstalls@, paru@);
        crate::changeset::lemma_views_add(uninstalls@ + paru@, apt@);
    }
    uninstalls.append(&mut paru);
    uninstalls.append(&mut apt);
    Ok(uninstalls)
}

/// What has to be cleaned up when the system moves from the state of the
/// last deployment to the desired state.
pub open spec fn cleanup_changes(old: StateView, new: StateView, system: SystemStateView) -> Result<
    ChangesetView,
    ErrorView,
> {
    match cleanup(old.packages, new.packages, system) {
        Ok(operations) => Ok(
            ChangesetView { package_uninstalls: operations, ..ChangesetView::empty() },
        ),
        Err(error) => Err(error),
    }
}

/// Compares the state of the last deployment with the desired state, and
/// gives the changes that remove what is no longer desired.
pub fn create_changeset(system_state: &SystemState, old_state: &State, new_state: &State) -> (result:
    Result<Changeset, Error>)
    ensures
        match cleanup_changes(old_state@, new_state@, system_state@) {
            Ok(changes) => result matches Ok(found) && found@ == changes,
            Err(error) => result matches Err(found) && found@ == error,
        },
{
    let old_compiled_state = CompiledState::from_state(old_state);
    let new_compiled_state = CompiledState::from_state(new_state);
    match handle_packages(system_state, &old_compiled_state, &new_compiled_state) {
        Ok(package_uninstalls) => {
            let changeset = Changeset {
                package_installs: Vec::new(),
                package_uninstalls,
                path_operations: Vec::new(),
            };
            assert(changeset@.package_installs =~= Seq::empty());
            assert(changeset@.path_operations =~= Seq::empty());
            Ok(changeset)
        },
        Err(error) => Err(error),
    }
}

} // verus!
