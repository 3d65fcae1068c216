//! Game rules of a vertical-scrolling bullet-hell shooter: difficulty
//! scaling, run resources, extends, bombs, power stages, stage flow and
//! boss phase progression.
//!
//! Everything here works on integers and booleans. Quantities that the game
//! keeps as fractional world units (positions, speeds, timers) live with the
//! engine; the values handed to this library are whole-pixel or
//! whole-millisecond constants and the outcomes of the engine's checks.
pub mod bomb;
pub mod boss;
pub mod collision;
pub mod difficulty;
pub mod fragment;
pub mod game_data;
pub mod item;
pub mod kinds;
pub mod power;
pub mod reset;
pub mod rules;
pub mod score;
pub mod spawner;
pub mod stage;

pub use bomb::{bomb_input, BombInput, BombState};
pub use boss::{boss_phase_step, rumia_phases, Boss, BossPhaseData, BossPhaseOutcome, MovementKind, PatternShape};
pub use collision::first_touched;
pub use difficulty::{Difficulty, DifficultyParams};
pub use fragment::{FragmentTracker, BOMB_EXTEND_FRAGMENTS, LIFE_EXTEND_FRAGMENTS};
pub use game_data::GameData;
pub use item::{apply_item, on_enemy_defeated, ItemDrop};
pub use kinds::{BossType, EnemyBulletKind, EnemyKind, ItemKind};
pub use power::{power_stage_params, shoot_interval_from_power, PowerStageParams};
pub use reset::reset_per_run_resources;
pub use rules::GameRules;
pub use score::{check_extend, ExtendKind};
pub use spawner::EnemySpawner;
pub use stage::{on_stage_clear, stage_control, StageData};
