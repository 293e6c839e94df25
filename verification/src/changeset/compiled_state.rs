//! A state reduced to what a later state is compared with.

use vstd::prelude::*;

use crate::handlers::packages::{PackageSets, PackageSetsView};
use crate::state::State;

verus! {

/// What a state deploys, whichever host or group asked for it.
#[derive(Debug)]
pub struct CompiledState {
    /// All packages that the state wants installed, for each package manager.
    pub deployed_packages: PackageSets,
}

impl View for CompiledState {
    type V = PackageSetsView;

    open spec fn view(&self) -> PackageSetsView {
        self.deployed_packages@
    }
}

impl CompiledState {
    /// What a state deploys.
    pub fn from_state(state: &State) -> (compiled: CompiledState)
        ensures
            compiled@ == state@.packages,
    {
        CompiledState { deployed_packages: state.packages.clone() }
    }
}

} // verus!
