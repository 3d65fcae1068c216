//! Difficulty levels and the per-difficulty scaling table.
use vstd::prelude::*;

verus! {

/// Selectable difficulty levels.
///
/// `Normal` is the default level.
#[derive(Debug, Clone, Copy, PartialEq, Eq, Hash)]
pub enum Difficulty {
    Easy,
    Normal,
    Hard,
    Lunatic,
}

/// Display label of a difficulty, as characters.
pub open spec fn spec_difficulty_label(d: Difficulty) -> Seq<char> {
    match d {
        Difficulty::Easy => "Easy"@,
        Difficulty::Normal => "Normal"@,
        Difficulty::Hard => "Hard"@,
        Difficulty::Lunatic => "Lunatic"@,
    }
}

/// Position of a difficulty in the order Easy < Normal < Hard < Lunatic.
pub open spec fn difficulty_rank(d: Difficulty) -> int {
    match d {
        Difficulty::Easy => 0,
        Difficulty::Normal => 1,
        Difficulty::Hard => 2,
        Difficulty::Lunatic => 3,
    }
}

impl Default for Difficulty {
    fn default() -> (d: Self)
        ensures
            d == Difficulty::Normal,
    {
        Difficulty::Normal
    }
}

impl Difficulty {
    /// Short display label used in UI and debug output.
    pub fn label(self) -> (s: &'static str)
        ensures
            s@ == spec_difficulty_label(self),
    {
        match self {
            Difficulty::Easy => "Easy",
            Difficulty::Normal => "Normal",
            Difficulty::Hard => "Hard",
            Difficulty::Lunatic => "Lunatic",
        }
    }
}

/// Per-difficulty scaling applied to enemy and boss statistics.
///
/// Every multiplier is kept in percent of the Normal baseline, so Normal is
/// `100` everywhere; the engine divides by one hundred when it scales a
/// fractional statistic.
#[derive(Debug, Clone, Copy, PartialEq, Eq)]
pub struct DifficultyParams {
    /// HP multiplier for regular (non-boss) enemies, in percent.
    pub enemy_hp_multiplier: u32,
    /// HP multiplier for boss phases, in percent.
    pub boss_hp_multiplier: u32,
    /// Time-limit multiplier for boss phases, in percent.
    ///
    /// Above one hundred gives the player more time.
    pub boss_time_multiplier: u32,
    /// Speed multiplier applied to boss bullet patterns, in percent.
    pub bullet_speed_multiplier: u32,
}

/// The scaling table, one row per difficulty.
pub open spec fn spec_difficulty_params(d: Difficulty) -> DifficultyParams {
    match d {
        Difficulty::Easy => DifficultyParams {
            enemy_hp_multiplier: 70,
            boss_hp_multiplier: 70,
            boss_time_multiplier: 120,
            bullet_speed_multiplier: 80,
        },
        Difficulty::Normal => DifficultyParams {
            enemy_hp_multiplier: 100,
            boss_hp_multiplier: 100,
            boss_time_multiplier: 100,
            bullet_speed_multiplier: 100,
        },
        Difficulty::Hard => DifficultyParams {
            enemy_hp_multiplier: 130,
            boss_hp_multiplier: 130,
            boss_time_multiplier: 85,
            bullet_speed_multiplier: 120,
        },
        Difficulty::Lunatic => DifficultyParams {
            enemy_hp_multiplier: 180,
            boss_hp_multiplier: 180,
            boss_time_multiplier: 70,
            bullet_speed_multiplier: 150,
        },
    }
}

impl DifficultyParams {
    /// Returns the scaling parameters for `difficulty`.
    pub fn for_difficulty(difficulty: Difficulty) -> (p: Self)
        ensures
            p == spec_difficulty_params(difficulty),
    {
        match difficulty {
            Difficulty::Easy => DifficultyParams {
                enemy_hp_multiplier: 70,
                boss_hp_multiplier: 70,
                boss_time_multiplier: 120,
                bullet_speed_multiplier: 80,
            },
            Difficulty::Normal => DifficultyParams {
                enemy_hp_multiplier: 100,
                boss_hp_multiplier: 100,
                boss_time_multiplier: 100,
                bullet_speed_multiplier: 100,
            },
            Difficulty::Hard => DifficultyParams {
                enemy_hp_multiplier: 130,
                boss_hp_multiplier: 130,
                boss_time_multiplier: 85,
                bullet_speed_multiplier: 120,
            },
            Difficulty::Lunatic => DifficultyParams {
                enemy_hp_multiplier: 180,
                boss_hp_multiplier: 180,
                boss_time_multiplier: 70,
                bullet_speed_multiplier: 150,
            },
        }
    }
}

/// A harder difficulty never makes the game easier: enemy and boss HP and
/// bullet speed do not decrease, and the boss time limit does not grow.
/// Every multiplier is positive, and Normal is the unit baseline.
pub proof fn lemma_difficulty_scaling_monotone(a: Difficulty, b: Difficulty)
    requires
        difficulty_rank(a) <= difficulty_rank(b),
    ensures
        spec_difficulty_params(a).enemy_hp_multiplier <= spec_difficulty_params(b).enemy_hp_multiplier,
        spec_difficulty_params(a).boss_hp_multiplier <= spec_difficulty_params(b).boss_hp_multiplier,
        spec_difficulty_params(a).bullet_speed_multiplier <= spec_difficulty_params(b).bullet_speed_multiplier,
        spec_difficulty_params(a).boss_time_multiplier >= spec_difficulty_params(b).boss_time_multiplier,
        spec_difficulty_params(a).enemy_hp_multiplier > 0,
        spec_difficulty_params(a).boss_hp_multiplier > 0,
        spec_difficulty_params(a).boss_time_multiplier > 0,
        spec_difficulty_params(a).bullet_speed_multiplier > 0,
        spec_difficulty_params(Difficulty::Normal).enemy_hp_multiplier == 100,
        spec_difficulty_params(Difficulty::Normal).boss_hp_multiplier == 100,
        spec_difficulty_params(Difficulty::Normal).boss_time_multiplier == 100,
        spec_difficulty_params(Difficulty::Normal).bullet_speed_multiplier == 100,
{
}

/// Every difficulty has a non-empty label, and distinct difficulties have
/// distinct labels.
pub proof fn lemma_difficulty_labels_distinct(a: Difficulty, b: Difficulty)
    ensures
        spec_difficulty_label(a).len() > 0,
        a != b ==> spec_difficulty_label(a) != spec_difficulty_label(b),
{
    reveal_strlit("Easy");
    reveal_strlit("Normal");
    reveal_strlit("Hard");
    reveal_strlit("Lunatic");
    if a != b {
        assert(spec_difficulty_label(a) != spec_difficulty_label(b)) by {
            if spec_difficulty_label(a) == spec_difficulty_label(b) {
                let la = spec_difficulty_label(a);
                let lb = spec_difficulty_label(b);
                assert(la.len() == lb.len());
                assert(la[0] == lb[0]);
            }
        }
    }
}

} // verus!
