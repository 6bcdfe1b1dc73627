//! Verified core of the Securexe launcher: link parsing and signature
//! checking, install planning, the local library, and the helpers that
//! build orchestrator requests and interpret their replies.
use vstd::prelude::*;

pub mod account;
pub mod bundle;
pub mod clock;
pub mod codec;
pub mod commands;
pub mod error;
pub mod flow;
pub mod hosted;
pub mod install;
pub mod library;
pub mod orchestrator;
pub mod paths;
pub mod platform;
pub mod repo;
pub mod run;
pub mod self_update;
pub mod signature;
pub mod text;

verus! {
} // verus!
