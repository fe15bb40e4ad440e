//! Verified core of a voice- and gesture-driven DJ controller.

pub mod action;
pub mod auto;
pub mod assoc;
pub mod command;
pub mod config;
pub mod control;
pub mod decimal;
pub mod error;
pub mod gesture;
pub mod state;
pub mod text;
pub mod tier_order;
pub mod voice;

use vstd::prelude::*;

verus! {

/// Schema version of the shared types; changing it means a new major version.
pub const SCHEMA_VERSION: &'static str = "0.1.0";

} // verus!
