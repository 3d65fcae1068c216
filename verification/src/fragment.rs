//! Life and bomb fragment counters.
use vstd::prelude::*;

verus! {

/// Number of life fragments needed to earn one extra life.
pub const LIFE_EXTEND_FRAGMENTS: u8 = 5;

/// Number of bomb fragments needed to earn one extra bomb stock.
pub const BOMB_EXTEND_FRAGMENTS: u8 = 5;

/// Tracks collected life and bomb fragments across the current run.
///
/// When a counter reaches its threshold it is reset to zero and the
/// corresponding stock is incremented (see [`crate::score::check_extend`]).
#[derive(Debug, Clone, Copy, PartialEq, Eq)]
pub struct FragmentTracker {
    /// Collected life fragments since the last extend.
    pub life_fragments: u8,
    /// Collected bomb fragments since the last extend.
    pub bomb_fragments: u8,
}

impl Default for FragmentTracker {
    /// No fragments collected.
    fn default() -> (t: Self)
        ensures
            t.life_fragments == 0,
            t.bomb_fragments == 0,
    {
        FragmentTracker { life_fragments: 0, bomb_fragments: 0 }
    }
}

} // verus!
