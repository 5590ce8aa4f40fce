//! What can go wrong, and how badly.
//!
//! A configuration error ends the iteration in which it arises and nothing
//! more. A stale reference is skipped and recorded. A fatal error halts the
//! scheduler for good.

use vstd::prelude::*;
use crate::components::EntityId;

verus! {

/// Names a kind of resource. A store holds at most one resource of each kind.
#[derive(Clone, Copy, Debug, PartialEq, Eq, Structural)]
pub enum ResourceKind {
    GameState,
    FrameClock,
}

/// A step did not find the world as it needs it.
#[derive(Clone, Copy, Debug, PartialEq, Eq)]
pub enum ConfigError {
    /// No entity carries a window, where exactly one is expected.
    NoWindow,
    /// More than one entity carries a window, where exactly one is expected.
    MultipleWindows,
    /// A resource that the step cannot do without was never inserted.
    MissingResource(ResourceKind),
}

/// The store refused a change.
#[derive(Clone, Copy, Debug, PartialEq, Eq)]
pub enum StoreError {
    /// The entity named does not exist, or no longer.
    StaleEntity(EntityId),
    /// Every identifier has been handed out.
    OutOfIds,
}

/// An error after which the scheduler runs nothing more.
#[derive(Clone, Copy, Debug, PartialEq, Eq)]
pub enum FatalError {
    /// A resource of this kind was inserted where one already exists.
    ResourceCollision(ResourceKind),
}

/// Why a step failed.
#[derive(Clone, Copy, Debug, PartialEq, Eq)]
pub enum StepError {
    Config(ConfigError),
    Fatal(FatalError),
}

} // verus!
