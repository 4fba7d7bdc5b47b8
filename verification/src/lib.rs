//! Core of a desktop DNS-switcher utility: the state machine that coordinates
//! dispatched network-configuration operations, a latency-sampling monitor,
//! saved-entry validation, and the derivation of the displayed DNS status.
//!
//! All OS integration (adapter lookup, applying DNS servers, probing latency,
//! persisting saved entries to disk) is left to an outer layer; this crate
//! holds the decisions and the data, with their contracts.

pub mod domain;
pub mod state;
pub mod store;
pub mod text;
pub mod validate;

use vstd::prelude::*;

verus! {

/// A latency sample history never holds more than this many entries.
pub const HISTORY_CAPACITY: usize = 15;

} // verus!
