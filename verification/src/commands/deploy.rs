//! The changes of a deployment.

use vstd::prelude::*;

use crate::changeset::state_to_host::plan;
use crate::changeset::state_to_state::cleanup_changes;
use crate::changeset::{state_to_host, state_to_state, Changeset, ChangesetView};
use crate::config::bois::Configuration;
use crate::constants::{Defaults, DefaultsView};
use crate::error::{Error, ErrorView};
use crate::state::{State, StateView};
use crate::system_state::{SystemState, SystemStateView};

verus! {

/// The value of an optional state.
pub open spec fn state_of(state: Option<State>) -> Option<StateView> {
    match state {
        Some(state) => Some(state@),
        None => None,
    }
}

/// The changes of a deployment: what has to be cleaned up after the last
/// deployment, where there was one, followed by what has to be done to reach
/// the desired state.
pub open spec fn deployment(
    target_dir: Seq<char>,
    previous: Option<StateView>,
    desired: StateView,
    system: SystemStateView,
    defaults: DefaultsView,
) -> Result<ChangesetView, ErrorView> {
    let cleanup = match previous {
        Some(previous) => cleanup_changes(previous, desired, system),
        None => Ok(ChangesetView::empty()),
    };
    match cleanup {
        Err(error) => Err(error),
        Ok(cleanup) => match plan(target_dir, desired, system, defaults) {
            Err(error) => Err(error),
            Ok(plan) => Ok(cleanup.merge(plan)),
        },
    }
}

/// Computes the changes of a deployment.
///
/// The drift since the last deployment is no part of them: it is computed
/// by [`host_to_state`](crate::changeset::host_to_state), shown to the user,
/// and overwritten by what is computed here.
pub fn create_changeset(
    config: &Configuration,
    system_state: &SystemState,
    previous_state: &Option<State>,
    desired_state: &State,
    defaults: &Defaults,
) -> (result: Result<Changeset, Error>)
    ensures
        match deployment(
            config@.target_dir,
            state_of(*previous_state),
            desired_state@,
            system_state@,
            defaults@,
        ) {
            Ok(changes) => result matches Ok(found) && found@ == changes,
            Err(error) => result matches Err(found) && found@ == error,
        },
{
    let mut changeset = Changeset::new();
    match previous_state {
        Some(state) => {
            match state_to_state::create_changeset(system_state, state, desired_state) {
                Ok(cleanup) => {
                    changeset.merge(cleanup);
                    proof {
                        let none = ChangesetView::empty();
                        let found = cleanup_changes(state@, desired_state@, system_state@)->Ok_0;
                        assert(none.package_installs + found.package_installs
                            =~= found.package_installs);
                        assert(none.package_uninstalls + found.package_uninstalls
                            =~= found.package_uninstalls);
                        assert(none.path_operations + found.path_operations
                            =~= found.path_operations);
                    }
                },
                Err(error) => {
                    return Err(error);
                },
            }
        },
        None => {},
    }
    match state_to_host::create_changeset(config, desired_state, system_state, defaults) {
        Ok(new_changes) => {
            changeset.merge(new_changes);
            Ok(changeset)
        },
        Err(error) => Err(error),
    }
}

} // verus!
