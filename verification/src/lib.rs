//! Cadence engine for recurring household chores.
//!
//! The engine derives, from a stored chore record and an explicit `now`
//! timestamp, whether the chore is overdue or on cadence, and it toggles a
//! chore's completion state in two ordered phases that preserve the phase of
//! the recurrence grid instead of resetting the anchor to the current time.
//! Storage is modelled as an in-memory record store keyed by id; wall-clock
//! time is always a parameter, never read from the system.

use vstd::prelude::*;

pub mod laws;
pub mod record;
pub mod store;
pub mod toggle;

verus! {

/// Errors the engine can surface to its caller.
#[derive(Clone, Copy, Debug, PartialEq, Eq, Structural)]
pub enum AppError {
    /// No record exists for the given chore id.
    NotFound,
    /// A record claims to be on cadence but lacks a completion anchor.
    InvariantViolation,
    /// The storage collaborator failed; the cause is opaque to the engine.
    StorageFailure,
}

/// A path to a static asset, as extracted from a request. Turning it into
/// an HTTP response is the serving layer's business, not the engine's; the
/// engine only gives the path a type of its own.
pub struct StaticFile<T>(pub T);

} // verus!
