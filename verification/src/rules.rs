//! Whole-number game rules: point-item values and extend thresholds.
use vstd::prelude::*;
use crate::kinds::EnemyKind;

verus! {

/// Point-item value when the player is at or above the score line.
pub const DEFAULT_POI_BASE_VALUE: u32 = 10_000;
/// Point-item value when the player is at the bottom of the play area.
pub const DEFAULT_POI_MIN_VALUE: u32 = 100;
/// Life fragments needed for a 1-UP extend.
pub const DEFAULT_LIFE_EXTEND_FRAGMENTS: u8 = 5;
/// Bomb fragments needed for an extra bomb extend.
pub const DEFAULT_BOMB_EXTEND_FRAGMENTS: u8 = 5;
/// Maximum bomb stock a player can hold.
pub const DEFAULT_MAX_BOMBS: u8 = 3;

/// The whole-number part of the game-rules configuration.
///
/// The fractional item-physics settings (speeds, radii, score-line height)
/// stay with the engine; these are the values the scoring and extend rules
/// read.
#[derive(Debug, Clone, Copy, PartialEq, Eq)]
pub struct GameRules {
    /// Point-item value when the player is at or above the score line.
    pub poi_base_value: u32,
    /// Point-item value when the player is at the bottom of the play area.
    pub poi_min_value: u32,
    /// Number of life fragments required for a 1-UP.
    pub life_extend_fragments: u8,
    /// Number of bomb fragments required for an extra bomb.
    pub bomb_extend_fragments: u8,
    /// Maximum bomb stock.
    pub max_bombs: u8,
}

/// The rules used when no configuration has been loaded.
pub open spec fn spec_default_rules() -> GameRules {
    GameRules {
        poi_base_value: 10_000,
        poi_min_value: 100,
        life_extend_fragments: 5,
        bomb_extend_fragments: 5,
        max_bombs: 3,
    }
}

/// A configured value, or the fallback when the field was left out.
pub open spec fn spec_or<T>(v: Option<T>, fallback: T) -> T {
    match v {
        Some(x) => x,
        None => fallback,
    }
}

/// A configured value is used when present; the fallback only when the
/// field was left out.
pub proof fn lemma_configured_value_wins(x: u32, fallback: u32)
    ensures
        spec_or(Some(x), fallback) == x,
        spec_or(None::<u32>, fallback) == fallback,
{
}

impl Default for GameRules {
    /// The built-in rules.
    fn default() -> (r: Self)
        ensures
            r == spec_default_rules(),
    {
        GameRules {
            poi_base_value: DEFAULT_POI_BASE_VALUE,
            poi_min_value: DEFAULT_POI_MIN_VALUE,
            life_extend_fragments: DEFAULT_LIFE_EXTEND_FRAGMENTS,
            bomb_extend_fragments: DEFAULT_BOMB_EXTEND_FRAGMENTS,
            max_bombs: DEFAULT_MAX_BOMBS,
        }
    }
}

impl GameRules {
    /// Builds the rules from the fields a configuration file provided;
    /// each field that is absent falls back to its built-in default.
    pub fn from_fields(
        poi_base_value: Option<u32>,
        poi_min_value: Option<u32>,
        life_extend_fragments: Option<u8>,
        bomb_extend_fragments: Option<u8>,
        max_bombs: Option<u8>,
    ) -> (r: Self)
        ensures
            r.poi_base_value == spec_or(poi_base_value, DEFAULT_POI_BASE_VALUE),
            r.poi_min_value == spec_or(poi_min_value, DEFAULT_POI_MIN_VALUE),
            r.life_extend_fragments == spec_or(life_extend_fragments, DEFAULT_LIFE_EXTEND_FRAGMENTS),
            r.bomb_extend_fragments == spec_or(bomb_extend_fragments, DEFAULT_BOMB_EXTEND_FRAGMENTS),
            r.max_bombs == spec_or(max_bombs, DEFAULT_MAX_BOMBS),
    {
        GameRules {
            poi_base_value: match poi_base_value {
                Some(v) => v,
                None => DEFAULT_POI_BASE_VALUE,
            },
            poi_min_value: match poi_min_value {
                Some(v) => v,
                None => DEFAULT_POI_MIN_VALUE,
            },
            life_extend_fragments: match life_extend_fragments {
                Some(v) => v,
                None => DEFAULT_LIFE_EXTEND_FRAGMENTS,
            },
            bomb_extend_fragments: match bomb_extend_fragments {
                Some(v) => v,
                None => DEFAULT_BOMB_EXTEND_FRAGMENTS,
            },
            max_bombs: match max_bombs {
                Some(v) => v,
                None => DEFAULT_MAX_BOMBS,
            },
        }
    }
}

/// Lives at the start of a new game when the player configuration leaves
/// the field out.
pub const DEFAULT_INITIAL_LIVES: u8 = 2;
/// Bomb stocks at the start of a new game when left out.
pub const DEFAULT_INITIAL_BOMBS: u8 = 3;
/// Power level at the start of a new game when left out.
pub const DEFAULT_INITIAL_POWER: u8 = 0;

/// The whole-number part of the player configuration: the stocks a new
/// game starts with.
#[derive(Debug, Clone, Copy, PartialEq, Eq)]
pub struct PlayerStart {
    /// Lives at the start of a new game.
    pub initial_lives: u8,
    /// Bomb stocks at the start of a new game.
    pub initial_bombs: u8,
    /// Power level at the start of a new game (0 to 128).
    pub initial_power: u8,
}

impl Default for PlayerStart {
    /// Two lives, three bombs, no power.
    fn default() -> (p: Self)
        ensures
            p == (PlayerStart { initial_lives: 2, initial_bombs: 3, initial_power: 0 }),
    {
        PlayerStart {
            initial_lives: DEFAULT_INITIAL_LIVES,
            initial_bombs: DEFAULT_INITIAL_BOMBS,
            initial_power: DEFAULT_INITIAL_POWER,
        }
    }
}

impl PlayerStart {
    /// Builds the starting stocks from the fields a configuration file
    /// provided; absent fields fall back to their defaults.
    pub fn from_fields(initial_lives: Option<u8>, initial_bombs: Option<u8>, initial_power: Option<u8>) -> (p: Self)
        ensures
            p.initial_lives == spec_or(initial_lives, DEFAULT_INITIAL_LIVES),
            p.initial_bombs == spec_or(initial_bombs, DEFAULT_INITIAL_BOMBS),
            p.initial_power == spec_or(initial_power, DEFAULT_INITIAL_POWER),
    {
        PlayerStart {
            initial_lives: match initial_lives {
                Some(v) => v,
                None => DEFAULT_INITIAL_LIVES,
            },
            initial_bombs: match initial_bombs {
                Some(v) => v,
                None => DEFAULT_INITIAL_BOMBS,
            },
            initial_power: match initial_power {
                Some(v) => v,
                None => DEFAULT_INITIAL_POWER,
            },
        }
    }
}

/// Score awarded for a Fairy when the enemy configuration leaves it out.
pub const DEFAULT_FAIRY_SCORE: u32 = 100;
/// Score awarded for a Bat when left out.
pub const DEFAULT_BAT_SCORE: u32 = 50;
/// Score awarded for a TallFairy when left out.
pub const DEFAULT_TALL_FAIRY_SCORE: u32 = 300;

/// The whole-number part of the fodder-enemy configuration: the score each
/// kind awards on defeat.
#[derive(Debug, Clone, Copy, PartialEq, Eq)]
pub struct FodderScores {
    /// Score awarded on defeating a Fairy.
    pub fairy_score: u32,
    /// Score awarded on defeating a Bat.
    pub bat_score: u32,
    /// Score awarded on defeating a TallFairy.
    pub tall_fairy_score: u32,
}

impl Default for FodderScores {
    /// The built-in scores, equal to each kind's own score value.
    fn default() -> (s: Self)
        ensures
            s == (FodderScores { fairy_score: 100, bat_score: 50, tall_fairy_score: 300 }),
    {
        FodderScores {
            fairy_score: DEFAULT_FAIRY_SCORE,
            bat_score: DEFAULT_BAT_SCORE,
            tall_fairy_score: DEFAULT_TALL_FAIRY_SCORE,
        }
    }
}

impl FodderScores {
    /// Builds the scores from the fields a configuration file provided;
    /// absent fields fall back to their defaults.
    pub fn from_fields(fairy_score: Option<u32>, bat_score: Option<u32>, tall_fairy_score: Option<u32>) -> (s: Self)
        ensures
            s.fairy_score == spec_or(fairy_score, DEFAULT_FAIRY_SCORE),
            s.bat_score == spec_or(bat_score, DEFAULT_BAT_SCORE),
            s.tall_fairy_score == spec_or(tall_fairy_score, DEFAULT_TALL_FAIRY_SCORE),
    {
        FodderScores {
            fairy_score: match fairy_score {
                Some(v) => v,
                None => DEFAULT_FAIRY_SCORE,
            },
            bat_score: match bat_score {
                Some(v) => v,
                None => DEFAULT_BAT_SCORE,
            },
            tall_fairy_score: match tall_fairy_score {
                Some(v) => v,
                None => DEFAULT_TALL_FAIRY_SCORE,
            },
        }
    }

    /// Score awarded on defeating an enemy of the given kind.
    pub fn score_for(&self, kind: EnemyKind) -> (s: u32)
        ensures
            s == match kind {
                EnemyKind::Fairy => self.fairy_score,
                EnemyKind::Bat => self.bat_score,
                EnemyKind::TallFairy => self.tall_fairy_score,
            },
    {
        match kind {
            EnemyKind::Fairy => self.fairy_score,
            EnemyKind::Bat => self.bat_score,
            EnemyKind::TallFairy => self.tall_fairy_score,
        }
    }
}

/// Without a configuration, every fodder kind scores its own built-in value.
pub proof fn lemma_default_scores_match_kinds(kind: EnemyKind)
    ensures
        ({
            let d = FodderScores { fairy_score: DEFAULT_FAIRY_SCORE, bat_score: DEFAULT_BAT_SCORE, tall_fairy_score: DEFAULT_TALL_FAIRY_SCORE };
            (match kind {
                EnemyKind::Fairy => d.fairy_score,
                EnemyKind::Bat => d.bat_score,
                EnemyKind::TallFairy => d.tall_fairy_score,
            }) == crate::kinds::spec_enemy_score(kind)
        }),
{
}

} // verus!
