//! Declarative deployment of configuration files and packages.
//!
//! A tree of files and directories, gathered from the directory of a host
//! and of the groups it takes part in, describes what is to be on a machine,
//! together with the packages that are to be installed. This library holds
//! the state model, the parser for the configuration blocks that files
//! carry, and the three passes that compare states with each other and with
//! the live system:
//!
//! - [`changeset::host_to_state`] finds what has changed on the system since
//!   the last deployment,
//! - [`changeset::state_to_state`] finds what the last deployment left
//!   behind and is no longer wanted,
//! - [`changeset::state_to_host`] finds what has to be done to reach the
//!   desired state.
//!
//! Nothing here touches the system. What a pass needs to know of it is
//! recorded in a [`system_state::SystemState`] by the caller; a pass that
//! misses a fact says so by the error it returns, and is called again once
//! the fact is on record.
//!
//! Paths are texts with `/` between their components, as on Unix.

pub mod changeset;
pub mod commands;
pub mod config;
pub mod constants;
pub mod error;
pub mod handlers;
pub mod helper;
pub mod paths;
pub mod state;
pub mod system_state;
pub mod templating;
pub mod text;
