//! Per-run reset of the gameplay resources.
use vstd::prelude::*;
use crate::bomb::BombState;
use crate::fragment::FragmentTracker;
use crate::game_data::{spec_new_game, GameData};
use crate::spawner::EnemySpawner;
use crate::stage::StageData;

verus! {

/// Run resources after a reset: a fresh game that keeps the best score.
pub open spec fn spec_reset_game(g: GameData) -> GameData {
    GameData { hi_score: g.hi_score, ..spec_new_game() }
}

/// Stage progress after a reset: no boss yet, on the same stage.
pub open spec fn spec_reset_stage(s: StageData) -> StageData {
    StageData { stage_number: s.stage_number, boss_active: false, boss_spawned: false, boss_defeated: false }
}

/// Resets all per-run gameplay resources to their starting values.
///
/// | Resource | Reset to |
/// |---|---|
/// | [`GameData`] | [`GameData::new_game`]; `hi_score` preserved |
/// | [`EnemySpawner`] | empty script, index 0 |
/// | [`StageData`] | no boss yet; `stage_number` preserved |
/// | [`FragmentTracker`] | no fragments |
/// | [`BombState`] | inactive |
///
/// `hi_score` is carried over so the session-best score survives a restart;
/// `stage_number` is carried over so a stage transition is not undone when
/// play resumes.
pub fn reset_per_run_resources<E>(
    game_data: &mut GameData,
    spawner: &mut EnemySpawner<E>,
    stage: &mut StageData,
    tracker: &mut FragmentTracker,
    bomb_state: &mut BombState,
)
    ensures
        *final(game_data) == spec_reset_game(*old(game_data)),
        *final(game_data) == (GameData { score: 0, hi_score: old(game_data).hi_score, lives: 2, bombs: 3, power: 0, graze: 0 }),
        final(spawner).script@.len() == 0,
        final(spawner).index == 0,
        *final(stage) == spec_reset_stage(*old(stage)),
        final(tracker).life_fragments == 0,
        final(tracker).bomb_fragments == 0,
        !final(bomb_state).active,
        !final(bomb_state).pending_death,
{
    let hi_score = game_data.hi_score;
    let stage_number = stage.stage_number;
    *game_data = GameData::new_game();
    game_data.hi_score = hi_score;
    *spawner = EnemySpawner::default();
    *stage = StageData::default();
    stage.stage_number = stage_number;
    *tracker = FragmentTracker::default();
    *bomb_state = BombState::default();
}

/// A reset starts the run from the new-game resources (no score, two
/// lives, three bombs, no power, no graze) whatever the previous run left,
/// carrying over only the best score: two runs with the same best score
/// reset to the same resources. The same holds of the stage progress with
/// the stage number in place of the best score.
pub proof fn lemma_reset_forgets_the_run(g1: GameData, g2: GameData, s1: StageData, s2: StageData)
    ensures
        spec_reset_game(g1) == (GameData { score: 0, hi_score: g1.hi_score, lives: 2, bombs: 3, power: 0, graze: 0 }),
        g1.hi_score == g2.hi_score ==> spec_reset_game(g1) == spec_reset_game(g2),
        spec_reset_stage(s1) == (StageData {
            stage_number: s1.stage_number,
            boss_active: false,
            boss_spawned: false,
            boss_defeated: false,
        }),
        s1.stage_number == s2.stage_number ==> spec_reset_stage(s1) == spec_reset_stage(s2),
{
}

/// A new game starts with no score, no best score, two lives, three bombs,
/// no power and no graze.
pub proof fn lemma_new_game_values()
    ensures
        spec_new_game() == (GameData { score: 0, hi_score: 0, lives: 2, bombs: 3, power: 0, graze: 0 }),
{
}

/// A reset keeps the best score and the stage number, and resetting twice
/// leaves the same run resources and stage progress as resetting once (the
/// results of [`reset_per_run_resources`] are exactly these two spec
/// functions of its inputs).
pub proof fn lemma_reset_keeps_best_score(g: GameData, s: StageData)
    ensures
        spec_reset_game(g).hi_score == g.hi_score,
        spec_reset_stage(s).stage_number == s.stage_number,
        spec_reset_game(spec_reset_game(g)) == spec_reset_game(g),
        spec_reset_stage(spec_reset_stage(s)) == spec_reset_stage(s),
{
}

} // verus!
