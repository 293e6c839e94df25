//! The packages that are installed and that the desired state knows nothing of.

use vstd::prelude::*;

use crate::changeset::{chain, views};
use crate::error::{Error, ErrorView};
use crate::handlers::packages::{
    batch_of, select_names, selected, PackageBatch, PackageBatchView, PackageManager,
    PackageSetsView,
};
use crate::state::State;
use crate::system_state::{SystemState, SystemStateView};

verus! {

/// The packages of one manager that are installed on request and that the
/// desired state does not name, in the order in which they are recorded.
/// Nothing is reported for a manager that the state does not name.
pub open spec fn untracked_by(
    manager: PackageManager,
    desired: PackageSetsView,
    system: SystemStateView,
) -> Result<Seq<PackageBatchView>, ErrorView> {
    match desired.get(manager) {
        None => Ok(Seq::empty()),
        Some(names) => match system.explicit_packages.get(manager) {
            None => Err(ErrorView::PackagesNotLoaded(manager)),
            Some(installed) => Ok(batch_of(manager, selected(installed, names, None))),
        },
    }
}

/// The untracked packages, manager by manager.
pub open spec fn untracked(desired: PackageSetsView, system: SystemStateView) -> Result<
    Seq<PackageBatchView>,
    ErrorView,
> {
    chain(
        chain(
            untracked_by(PackageManager::Pacman, desired, system),
            untracked_by(PackageManager::Paru, desired, system),
        ),
        untracked_by(PackageManager::Apt, desired, system),
    )
}

/// Adds the untracked packages of one manager.
fn add_untracked(
    batches: &mut Vec<PackageBatch>,
    manager: PackageManager,
    desired_state: &State,
    system_state: &SystemState,
) -> (result: Result<(), Error>)
    ensures
        match untracked_by(manager, desired_state@.packages, system_state@) {
            Ok(found) => result is Ok && views(final(batches)@) == views(old(batches)@) + found,
            Err(error) => result matches Err(found) && found@ == error,
        },
{
    let names = match desired_state.packages.get(manager) {
        Some(names) => names,
        None => {
            assert(views(batches@) + Seq::<PackageBatchView>::empty() =~= views(batches@));
            return Ok(());
        },
    };
    let installed = match system_state.explicit_packages.get(manager) {
        Some(installed) => installed,
        None => {
            return Err(Error::PackagesNotLoaded(manager));
        },
    };
    let found = select_names(installed, names, None);
    if found.len() > 0 {
        let batch = PackageBatch { manager, names: found };
        proof {
            crate::changeset::lemma_views_push(batches@, batch);
            assert(views(batches@).push(batch@) =~= views(batches@) + seq![batch@]);
        }
        batches.push(batch);
    } else {
        assert(views(batches@) + Seq::<PackageBatchView>::empty() =~= views(batches@));
    }
    Ok(())
}

/// Compares the desired state with the packages that are installed on
/// request, and gives those that the state does not name.
pub fn diff_packages(desired_state: &State, system_state: &SystemState) -> (result: Result<
    Vec<PackageBatch>,
    Error,
>)
    ensures
        match untracked(desired_state@.packages, system_state@) {
            Ok(batches) => result matches Ok(found) && views(found@) == batches,
            Err(error) => result matches Err(found) && found@ == error,
        },
{
    let mut batches: Vec<PackageBatch> = Vec::new();
    let ghost none = Seq::<PackageBatchView>::empty();
    proof {
        assert(views(batches@) =~= none);
    }
    match add_untracked(&mut batches, PackageManager::Pacman, desired_state, system_state) {
        Ok(()) => {},
        Err(error) => {
            return Err(error);
        },
    }
    match add_untracked(&mut batches, PackageManager::Paru, desired_state, system_state) {
        Ok(()) => {},
        Err(error) => {
            return Err(error);
        },
    }
    match add_untracked(&mut batches, PackageManager::Apt, desired_state, system_state) {
        Ok(()) => {},
        Err(error) => {
            return Err(error);
        },
    }
    proof {
        let pacman = untracked_by(PackageManager::Pacman, desired_state@.packages, system_state@)->Ok_0;
        let paru = untracked_by(PackageManager::Paru, desired_state@.packages, system_state@)->Ok_0;
        let apt = untracked_by(PackageManager::Apt, desired_state@.packages, system_state@)->Ok_0;
        assert(((none + pacman) + paru) + apt =~= (pacman + paru) + apt);
    }
    Ok(batches)
}

} // verus!
