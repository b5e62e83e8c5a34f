//! Orchestration core of a command-line coding assistant: the
//! reason-act-observe loop as a state machine, the permission and safety
//! checkpoint in front of every capability, the prompt builder and the slash
//! commands of the interactive session.

use vstd::prelude::*;

pub mod agent;
pub mod commands;
pub mod config;
pub mod json;
pub mod laws;
pub mod message;
pub mod paths;
pub mod permissions;
pub mod prompt;
pub mod safety;
pub mod text;

verus! {

/// The version of the assistant.
pub const VERSION: &'static str = "0.1.0";

} // verus!
