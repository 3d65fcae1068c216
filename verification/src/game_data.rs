//! Per-run player resources: score, lives, bombs, power and graze.
use vstd::prelude::*;

verus! {

/// Highest power level a player can reach.
pub const MAX_POWER: u8 = 128;

/// Highest life stock a counter-bomb can restore to.
pub const MAX_LIVES: u8 = 8;

/// Lives at the start of a new game.
pub const STARTING_LIVES: u8 = 2;

/// Bomb stocks at the start of a new game.
pub const STARTING_BOMBS: u8 = 3;

/// Global game state shared across all in-game systems.
///
/// | Field      | Range / notes                          |
/// |------------|----------------------------------------|
/// | `score`    | Score of the current run               |
/// | `hi_score` | Best score, carried between runs       |
/// | `lives`    | Remaining lives                        |
/// | `bombs`    | Remaining bomb stocks                  |
/// | `power`    | 0 to [`MAX_POWER`]; sets the shot type |
/// | `graze`    | Total graze count of the current run   |
#[derive(Debug, Clone, Copy, PartialEq, Eq)]
pub struct GameData {
    /// Current score for this run.
    pub score: u64,
    /// Best score so far.
    pub hi_score: u64,
    /// Remaining lives.
    pub lives: u8,
    /// Remaining bomb stocks.
    pub bombs: u8,
    /// Power level. Determines bullet count and spread.
    pub power: u8,
    /// Total graze count accumulated this run.
    pub graze: u32,
}

/// The resources a fresh run starts with.
pub open spec fn spec_new_game() -> GameData {
    GameData { score: 0, hi_score: 0, lives: 2, bombs: 3, power: 0, graze: 0 }
}

impl GameData {
    /// Returns a `GameData` initialised to the standard starting values:
    /// no score, two lives, three bombs, no power, no graze.
    pub fn new_game() -> (g: Self)
        ensures
            g == spec_new_game(),
    {
        GameData {
            score: 0,
            hi_score: 0,
            lives: STARTING_LIVES,
            bombs: STARTING_BOMBS,
            power: 0,
            graze: 0,
        }
    }
}

impl Default for GameData {
    /// All counters at zero.
    fn default() -> (g: Self)
        ensures
            g == (GameData { score: 0, hi_score: 0, lives: 0, bombs: 0, power: 0, graze: 0 }),
    {
        GameData { score: 0, hi_score: 0, lives: 0, bombs: 0, power: 0, graze: 0 }
    }
}

} // verus!
