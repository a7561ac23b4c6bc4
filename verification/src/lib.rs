//! Core logic of a desktop orchestrator: a remote-session model for
//! inspecting and starting containerized services over a secure shell,
//! a bounded readiness-polling protocol, and a local process registry
//! that enforces at-most-one live instance per application id.

pub mod config;
pub mod containers;
pub mod readiness;
pub mod remote;
pub mod status;
pub mod supervisor;

use vstd::prelude::*;

verus! {

} // verus!
