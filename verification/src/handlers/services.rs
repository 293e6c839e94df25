//! Service managers.

use vstd::prelude::*;

verus! {

/// The service managers that a state can name services for.
#[derive(Clone, Copy, Debug, PartialEq, Eq, Structural, Hash)]
pub enum ServiceManager {
    Systemd,
}

} // verus!
