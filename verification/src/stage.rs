//! Stage flow: boss arrival, stage clear and advancing through the stages.
use vstd::prelude::*;
use crate::game_data::GameData;

verus! {

/// Total number of main stages; clearing the last one leads to the ending.
pub const TOTAL_STAGES: u8 = 6;

/// Score bonus awarded when a stage boss is defeated.
pub const STAGE_CLEAR_SCORE_BONUS: u64 = 100_000;

/// The progress of the current stage.
///
/// | Field | Description |
/// |---|---|
/// | `stage_number` | The 1-based index of the current stage. |
/// | `boss_active` | `true` once the boss has been called in. |
/// | `boss_spawned` | `true` once the boss entity has been spawned for this stage. |
/// | `boss_defeated` | `true` after the boss has been defeated; triggers stage clear. |
///
/// The elapsed stage time is kept by the engine's clock.
#[derive(Debug, Clone, Copy, PartialEq, Eq)]
pub struct StageData {
    /// 1-based stage index.
    pub stage_number: u8,
    /// Set when the boss is called in.
    pub boss_active: bool,
    /// Set when the boss has been spawned; guards against a second spawn.
    pub boss_spawned: bool,
    /// Set once the boss has been defeated.
    pub boss_defeated: bool,
}

impl Default for StageData {
    /// Stage 1, no boss yet.
    fn default() -> (s: Self)
        ensures
            s == (StageData { stage_number: 1, boss_active: false, boss_spawned: false, boss_defeated: false }),
    {
        StageData { stage_number: 1, boss_active: false, boss_spawned: false, boss_defeated: false }
    }
}

/// What one frame of stage control asks the engine to do.
#[derive(Debug, Clone, Copy, PartialEq, Eq)]
pub struct StageControlOutcome {
    /// `Some(stage)` when the boss of `stage` should be spawned now.
    pub boss_spawn: Option<u8>,
    /// `true` when the stage is cleared and the results screen should open.
    pub stage_clear: bool,
}

/// The stage-control rule for one frame.
pub open spec fn spec_stage_control(s: StageData, script_done: bool, no_normal_enemies: bool) -> (StageData, StageControlOutcome) {
    let calls_boss = !s.boss_active && script_done && no_normal_enemies;
    let s2 = if calls_boss { StageData { boss_active: true, ..s } } else { s };
    (s2, StageControlOutcome {
        boss_spawn: if calls_boss { Some(s.stage_number) } else { None },
        stage_clear: s2.boss_active && s2.boss_defeated,
    })
}

/// One frame of stage control.
///
/// When the boss has not been called yet, the spawn script is exhausted and
/// no regular enemy remains, the boss is marked active and a boss spawn for
/// the current stage is requested. When the boss has been activated and then
/// defeated, the stage is cleared.
pub fn stage_control(stage: &mut StageData, script_done: bool, no_normal_enemies: bool) -> (o: StageControlOutcome)
    ensures
        (*final(stage), o) == spec_stage_control(*old(stage), script_done, no_normal_enemies),
{
    let mut boss_spawn: Option<u8> = None;
    if !stage.boss_active {
        if script_done && no_normal_enemies {
            stage.boss_active = true;
            boss_spawn = Some(stage.stage_number);
        }
    }
    let stage_clear = stage.boss_active && stage.boss_defeated;
    StageControlOutcome { boss_spawn, stage_clear }
}

/// The rule for a boss spawn request: the stage after it, and whether the
/// stage-1 boss is spawned now.
pub open spec fn spec_boss_spawn_stage1(s: StageData, requested_stage: u8) -> (StageData, bool) {
    if requested_stage == 1 && !s.boss_spawned {
        (StageData { boss_active: true, boss_spawned: true, ..s }, true)
    } else {
        (s, false)
    }
}

/// Reacts to a boss spawn request for stage 1: returns `true` when the
/// stage-1 boss should be spawned now, and then records the boss as spawned
/// and active. Requests for other stages, and repeated requests once the
/// boss has been spawned (for example a duplicate in the same frame), are
/// ignored. The request that [`stage_control`] makes when it calls the
/// boss in is answered with a spawn.
pub fn on_boss_spawn_stage1(stage: &mut StageData, requested_stage: u8) -> (spawn: bool)
    ensures
        (*final(stage), spawn) == spec_boss_spawn_stage1(*old(stage), requested_stage),
{
    if requested_stage != 1 || stage.boss_spawned {
        return false;
    }
    stage.boss_active = true;
    stage.boss_spawned = true;
    true
}

/// Where the game goes after a stage clear.
#[derive(Debug, Clone, Copy, PartialEq, Eq)]
pub enum StageClearOutcome {
    /// The final stage was cleared: play the ending.
    Ending,
    /// Continue with the given stage.
    NextStage(u8),
}

/// Where a stage clear leads from stage `n`: the next stage, or the ending
/// (staying on `n`) from the final stage and beyond.
pub open spec fn spec_stage_advance(n: u8) -> (u8, bool) {
    if n >= TOTAL_STAGES {
        (n, true)
    } else {
        ((n + 1) as u8, false)
    }
}

/// The stage reached after `k` stage clears from stage 1, and whether the
/// ending has been reached; clears after the ending change nothing.
pub open spec fn spec_run(k: nat) -> (u8, bool)
    decreases k,
{
    if k == 0 {
        (1, false)
    } else {
        let prev = spec_run((k - 1) as nat);
        if prev.1 {
            prev
        } else {
            spec_stage_advance(prev.0)
        }
    }
}

/// A run plays the stages in order and ends after the last one: after `k`
/// clears with `k` below [`TOTAL_STAGES`] the game is on stage `k + 1`, and
/// from the [`TOTAL_STAGES`]-th clear on it has reached the ending, on the
/// final stage.
pub proof fn lemma_run_visits_stages_in_order(k: nat)
    ensures
        k < TOTAL_STAGES ==> spec_run(k) == ((k + 1) as u8, false),
        k >= TOTAL_STAGES ==> spec_run(k) == (TOTAL_STAGES, true),
    decreases k,
{
    if k > 0 {
        lemma_run_visits_stages_in_order((k - 1) as nat);
    }
}

/// Runs once when a stage is cleared.
///
/// Awards [`STAGE_CLEAR_SCORE_BONUS`], raises `hi_score` to the new score if
/// it is higher, and either advances the stage number or, after the final
/// stage ([`TOTAL_STAGES`] and beyond), leads to the ending.
pub fn on_stage_clear(game_data: &mut GameData, stage: &mut StageData) -> (o: StageClearOutcome)
    requires
        old(game_data).score + STAGE_CLEAR_SCORE_BONUS <= u64::MAX,
    ensures
        final(game_data).score == old(game_data).score + STAGE_CLEAR_SCORE_BONUS,
        final(game_data).hi_score == (if final(game_data).score > old(game_data).hi_score {
            final(game_data).score
        } else {
            old(game_data).hi_score
        }),
        final(game_data).lives == old(game_data).lives,
        final(game_data).bombs == old(game_data).bombs,
        final(game_data).power == old(game_data).power,
        final(game_data).graze == old(game_data).graze,
        old(stage).stage_number >= TOTAL_STAGES ==> o == StageClearOutcome::Ending
            && *final(stage) == *old(stage),
        old(stage).stage_number < TOTAL_STAGES ==> o == StageClearOutcome::NextStage(
            (old(stage).stage_number + 1) as u8,
        ) && *final(stage) == (StageData { stage_number: (old(stage).stage_number + 1) as u8, ..*old(stage) }),
        (final(stage).stage_number, o == StageClearOutcome::Ending) == spec_stage_advance(old(stage).stage_number),
{
    game_data.score = game_data.score + STAGE_CLEAR_SCORE_BONUS;
    if game_data.score > game_data.hi_score {
        game_data.hi_score = game_data.score;
    }
    if stage.stage_number >= TOTAL_STAGES {
        StageClearOutcome::Ending
    } else {
        let next = stage.stage_number + 1;
        stage.stage_number = next;
        StageClearOutcome::NextStage(next)
    }
}

/// Which enemy script a stage loads.
#[derive(Debug, Clone, Copy, PartialEq, Eq)]
pub enum StageScript {
    /// The stage-1 timeline.
    Stage1,
    /// A known stage whose timeline is still empty (stages 2 to 6).
    Empty,
    /// A stage number outside 1 to 6: an empty timeline, with a warning.
    Unknown,
}

/// The script selection rule.
pub open spec fn spec_stage_script(stage_number: u8) -> StageScript {
    if stage_number == 1 {
        StageScript::Stage1
    } else if 2 <= stage_number <= 6 {
        StageScript::Empty
    } else {
        StageScript::Unknown
    }
}

/// Prepares a stage to start: the boss flags are cleared and the script to
/// load is chosen from the stage number.
pub fn setup_stage(stage: &mut StageData) -> (script: StageScript)
    ensures
        script == spec_stage_script(old(stage).stage_number),
        (script == StageScript::Stage1) <==> old(stage).stage_number == 1,
        (script == StageScript::Empty) <==> 2 <= old(stage).stage_number <= TOTAL_STAGES,
        *final(stage) == (StageData {
            stage_number: old(stage).stage_number,
            boss_active: false,
            boss_spawned: false,
            boss_defeated: false,
        }),
{
    stage.boss_active = false;
    stage.boss_spawned = false;
    stage.boss_defeated = false;
    match stage.stage_number {
        1 => StageScript::Stage1,
        2..=6 => StageScript::Empty,
        _ => StageScript::Unknown,
    }
}

/// Script selection: the stage-1 timeline is loaded for stage 1 and no
/// other stage; every other main stage (2 to [`TOTAL_STAGES`]) has an empty
/// timeline; any other stage number is unknown.
pub proof fn lemma_stage_script_selection(n: u8)
    ensures
        (spec_stage_script(n) == StageScript::Stage1) <==> n == 1,
        (spec_stage_script(n) == StageScript::Empty) <==> 2 <= n <= TOTAL_STAGES,
        (spec_stage_script(n) == StageScript::Unknown) <==> (n == 0 || n > TOTAL_STAGES),
{
}

/// What one frame of stage control does: the boss is called in exactly when
/// it has not been called yet, the script is finished and no regular enemy
/// is left, and the request names the current stage; the stage is cleared
/// exactly when the boss is (now) active and has been defeated. Nothing
/// but the call-in flag ever changes.
pub proof fn lemma_stage_control_rule(s: StageData, script_done: bool, no_normal_enemies: bool)
    ensures
        ({
            let (s2, o) = spec_stage_control(s, script_done, no_normal_enemies);
            &&& (o.boss_spawn is Some) <==> (!s.boss_active && script_done && no_normal_enemies)
            &&& o.boss_spawn is Some ==> o.boss_spawn == Some(s.stage_number)
            &&& s2.boss_active == (s.boss_active || (script_done && no_normal_enemies))
            &&& o.stage_clear <==> (s2.boss_active && s.boss_defeated)
            &&& s2.stage_number == s.stage_number && s2.boss_spawned == s.boss_spawned
                && s2.boss_defeated == s.boss_defeated
        }),
{
}

/// The spawn handler: a request spawns exactly when it is for stage 1 and
/// no boss has been spawned yet on this stage; it then marks the boss as
/// spawned and active and changes nothing else. Any other request changes
/// nothing.
pub proof fn lemma_boss_spawn_rule(s: StageData, requested_stage: u8)
    ensures
        ({
            let (s2, spawned) = spec_boss_spawn_stage1(s, requested_stage);
            &&& spawned <==> (requested_stage == 1 && !s.boss_spawned)
            &&& spawned ==> s2.boss_spawned && s2.boss_active && s2.stage_number == s.stage_number
                && s2.boss_defeated == s.boss_defeated
            &&& !spawned ==> s2 == s
        }),
{
}

/// A stage clear from stage `n` moves to stage `n + 1` below the final
/// stage and reaches the ending, on the same stage, from the final stage on.
pub proof fn lemma_stage_advance_rule(n: u8)
    ensures
        n < TOTAL_STAGES ==> spec_stage_advance(n) == ((n + 1) as u8, false) && spec_stage_advance(n).0 == n + 1,
        n >= TOTAL_STAGES ==> spec_stage_advance(n).1 && spec_stage_advance(n).0 == n,
{
}

/// Stage flow laws. Stage control calls the boss at most once per stage:
/// once the boss is active no further spawn is requested, and the flag is
/// never cleared by stage control. A stage clear is only signalled after the
/// boss has been activated and defeated. Stage control never touches the
/// spawn record.
pub proof fn lemma_stage_flow(s: StageData, script_done: bool, no_normal_enemies: bool)
    ensures
        ({
            let (s2, o) = spec_stage_control(s, script_done, no_normal_enemies);
            &&& s.boss_active ==> o.boss_spawn is None
            &&& o.boss_spawn is Some ==> !s.boss_active && s2.boss_active
            &&& s.boss_active ==> s2.boss_active
            &&& o.stage_clear ==> s2.boss_active && s2.boss_defeated
            &&& s2.stage_number == s.stage_number && s2.boss_defeated == s.boss_defeated
            &&& s2.boss_spawned == s.boss_spawned
        }),
{
}

/// The boss called in by stage control appears: on stage 1, when stage
/// control requests the boss of a stage whose boss has not been spawned yet,
/// the stage-1 spawn handler answers that request with exactly one spawn
/// (a repeated request is ignored), and the boss is then recorded as active
/// and spawned.
pub proof fn lemma_called_boss_is_spawned(s: StageData, script_done: bool, no_normal_enemies: bool)
    requires
        s.stage_number == 1,
        !s.boss_spawned,
    ensures
        ({
            let (s2, o) = spec_stage_control(s, script_done, no_normal_enemies);
            o.boss_spawn is Some ==> ({
                let (s3, spawned) = spec_boss_spawn_stage1(s2, o.boss_spawn->0);
                let (s4, again) = spec_boss_spawn_stage1(s3, o.boss_spawn->0);
                &&& o.boss_spawn == Some(1u8)
                &&& spawned
                &&& s3.boss_active && s3.boss_spawned
                &&& !again && s4 == s3
            })
        }),
{
}

} // verus!
