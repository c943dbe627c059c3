//! Classification of one clock poll relative to the previous poll.

use vstd::prelude::*;

verus! {

/// Outcome of one clock poll: the clock transitioned to its active state
/// (`Rise`), to its inactive state (`Fall`), or stayed where it was
/// (`Unchanged`). Exactly one classification is produced per poll.
#[derive(Copy, Clone, Debug, PartialEq, Eq, Structural)]
pub enum TriggerState {
    Rise,
    Fall,
    Unchanged,
}

} // verus!
