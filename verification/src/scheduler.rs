//! The deferred-task slot: an action paired with the millisecond timestamp
//! at which it should fire.

use vstd::prelude::*;

verus! {

/// Marker for types that name a deferrable action.
pub trait TaskId {}

/// One pending action: fire `id` once the millisecond counter reaches
/// `timestamp`. At most one task is ever outstanding; scheduling a new one
/// overwrites whatever was pending.
#[derive(Copy, Clone, Debug, PartialEq, Eq)]
pub struct Task<T: TaskId> {
    pub id: T,
    pub timestamp: u32,
}

impl<T: TaskId> Task<T> {
    /// Pairs an action with its fire time.
    pub fn new(id: T, timestamp: u32) -> (result: Self)
        ensures
            result.id == id,
            result.timestamp == timestamp,
    {
        Self { id, timestamp }
    }
}

} // verus!
