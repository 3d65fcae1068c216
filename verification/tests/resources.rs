use scarlet_core::bomb::{
    award_bomb_clear, BOMB_DURATION_MS, BOMB_INVINCIBLE_MS, COUNTER_BOMB_WINDOW_MS,
};
use scarlet_core::reset::reset_per_run_resources;
use scarlet_core::rules::{DEFAULT_BOMB_EXTEND_FRAGMENTS, DEFAULT_LIFE_EXTEND_FRAGMENTS, DEFAULT_MAX_BOMBS};
use scarlet_core::{
    bomb_input, check_extend, BombInput, BombState, EnemySpawner, ExtendKind, FragmentTracker,
    GameData, GameRules, StageData, BOMB_EXTEND_FRAGMENTS, LIFE_EXTEND_FRAGMENTS,
};

fn secs(ms: u32) -> f32 {
    ms as f32 / 1000.0
}

// ---- FragmentTracker ----------------------------------------------------

#[test]
fn default_fragment_tracker_is_zero() {
    let tracker = FragmentTracker::default();
    assert_eq!(tracker.life_fragments, 0);
    assert_eq!(tracker.bomb_fragments, 0);
}

#[test]
fn life_extend_threshold_is_five() {
    assert_eq!(LIFE_EXTEND_FRAGMENTS, 5);
}

#[test]
fn bomb_extend_threshold_is_five() {
    assert_eq!(BOMB_EXTEND_FRAGMENTS, 5);
}

#[test]
fn five_life_fragments_triggers_extend() {
    let mut tracker = FragmentTracker::default();
    let mut lives: u8 = 2;
    for _ in 0..LIFE_EXTEND_FRAGMENTS {
        tracker.life_fragments += 1;
        if tracker.life_fragments >= LIFE_EXTEND_FRAGMENTS {
            tracker.life_fragments = 0;
            lives += 1;
        }
    }
    assert_eq!(tracker.life_fragments, 0, "counter must reset after extend");
    assert_eq!(lives, 3, "player must gain one life");
}

#[test]
fn four_life_fragments_do_not_trigger_extend() {
    let mut tracker = FragmentTracker::default();
    let mut lives: u8 = 2;
    for _ in 0..(LIFE_EXTEND_FRAGMENTS - 1) {
        tracker.life_fragments += 1;
        if tracker.life_fragments >= LIFE_EXTEND_FRAGMENTS {
            tracker.life_fragments = 0;
            lives += 1;
        }
    }
    assert_eq!(lives, 2, "no extend before reaching threshold");
    assert_eq!(tracker.life_fragments, LIFE_EXTEND_FRAGMENTS - 1);
}

// ---- GameData -------------------------------------------------------------

#[test]
fn new_game_has_correct_defaults() {
    let gd = GameData::new_game();
    assert_eq!(gd.lives, 2);
    assert_eq!(gd.bombs, 3);
    assert_eq!(gd.power, 0);
    assert_eq!(gd.score, 0);
}

// ---- Extend check ---------------------------------------------------------

fn make_resources() -> (FragmentTracker, GameData) {
    (
        FragmentTracker::default(),
        GameData { score: 0, hi_score: 0, lives: 2, bombs: 3, power: 0, graze: 0 },
    )
}

fn run_extend(tracker: &mut FragmentTracker, game_data: &mut GameData) -> Vec<ExtendKind> {
    check_extend(tracker, game_data, &GameRules::default())
}

#[test]
fn no_extend_below_threshold() {
    let (mut tracker, mut gd) = make_resources();
    tracker.life_fragments = DEFAULT_LIFE_EXTEND_FRAGMENTS - 1;
    let events = run_extend(&mut tracker, &mut gd);
    assert!(events.is_empty());
    assert_eq!(gd.lives, 2);
    assert_eq!(tracker.life_fragments, DEFAULT_LIFE_EXTEND_FRAGMENTS - 1);
}

#[test]
fn life_extend_at_threshold() {
    let (mut tracker, mut gd) = make_resources();
    tracker.life_fragments = DEFAULT_LIFE_EXTEND_FRAGMENTS;
    let events = run_extend(&mut tracker, &mut gd);
    assert_eq!(events, [ExtendKind::Life]);
    assert_eq!(gd.lives, 3);
    assert_eq!(tracker.life_fragments, 0);
}

#[test]
fn bomb_extend_at_threshold() {
    let (mut tracker, mut gd) = make_resources();
    gd.bombs = 2;
    tracker.bomb_fragments = DEFAULT_BOMB_EXTEND_FRAGMENTS;
    let events = run_extend(&mut tracker, &mut gd);
    assert_eq!(events, [ExtendKind::Bomb]);
    assert_eq!(gd.bombs, 3);
    assert_eq!(tracker.bomb_fragments, 0);
}

#[test]
fn both_extend_simultaneously() {
    let (mut tracker, mut gd) = make_resources();
    gd.bombs = 2;
    tracker.life_fragments = DEFAULT_LIFE_EXTEND_FRAGMENTS;
    tracker.bomb_fragments = DEFAULT_BOMB_EXTEND_FRAGMENTS;
    let events = run_extend(&mut tracker, &mut gd);
    assert_eq!(events.len(), 2);
    assert!(events.contains(&ExtendKind::Life));
    assert!(events.contains(&ExtendKind::Bomb));
    assert_eq!(tracker.life_fragments, 0);
    assert_eq!(tracker.bomb_fragments, 0);
}

#[test]
fn bomb_extend_caps_at_3() {
    let (mut tracker, mut gd) = make_resources();
    gd.bombs = DEFAULT_MAX_BOMBS;
    tracker.bomb_fragments = DEFAULT_BOMB_EXTEND_FRAGMENTS;
    let events = run_extend(&mut tracker, &mut gd);
    assert_eq!(events, [ExtendKind::Bomb]);
    assert_eq!(gd.bombs, DEFAULT_MAX_BOMBS, "bombs must not exceed max");
    assert_eq!(tracker.bomb_fragments, 0, "counter must reset even at cap");
}

#[test]
fn extend_events_come_life_first() {
    let (mut tracker, mut gd) = make_resources();
    tracker.life_fragments = 9;
    tracker.bomb_fragments = 7;
    let events = run_extend(&mut tracker, &mut gd);
    assert_eq!(events, [ExtendKind::Life, ExtendKind::Bomb]);
    assert_eq!(gd.lives, 3);
}

#[test]
fn bomb_extend_above_cap_clamps_down() {
    let (mut tracker, mut gd) = make_resources();
    gd.bombs = 6;
    tracker.bomb_fragments = 5;
    run_extend(&mut tracker, &mut gd);
    assert_eq!(gd.bombs, 3);
}

#[test]
fn life_extend_saturates_at_u8_max() {
    let (mut tracker, mut gd) = make_resources();
    gd.lives = 255;
    tracker.life_fragments = 5;
    run_extend(&mut tracker, &mut gd);
    assert_eq!(gd.lives, 255);
}

#[test]
fn configured_thresholds_are_used() {
    let rules = GameRules::from_fields(None, None, Some(6), Some(4), Some(4));
    let (mut tracker, mut gd) = make_resources();
    tracker.life_fragments = 5;
    tracker.bomb_fragments = 4;
    let events = check_extend(&mut tracker, &mut gd, &rules);
    assert_eq!(events, [ExtendKind::Bomb]);
    assert_eq!(gd.bombs, 4);
    assert_eq!(tracker.life_fragments, 5);
}

#[test]
fn missing_rule_fields_fall_back_to_defaults() {
    let rules = GameRules::from_fields(Some(12000), None, None, None, None);
    assert_eq!(rules.poi_base_value, 12000);
    assert_eq!(rules.poi_min_value, 100);
    assert_eq!(rules.life_extend_fragments, 5);
    assert_eq!(rules.bomb_extend_fragments, 5);
    assert_eq!(rules.max_bombs, 3);
    assert_eq!(GameRules::from_fields(None, None, None, None, None), GameRules::default());
}

// ---- BombState --------------------------------------------------------------

#[test]
fn default_is_inactive() {
    let state = BombState::default();
    assert!(!state.active, "default BombState must not be active");
    assert!(!state.pending_death, "default BombState must not be pending_death");
    assert!(!state.is_invincible(false), "default BombState must not be invincible");
}

#[test]
fn not_invincible_when_inactive() {
    let state = BombState::default();
    // Both timers run past their full length: no invincibility time is left.
    let elapsed_ms = BOMB_INVINCIBLE_MS + 1000;
    let time_left = BOMB_INVINCIBLE_MS.saturating_sub(elapsed_ms) > 0;
    assert!(!state.is_invincible(time_left));
}

#[test]
fn invincible_while_active() {
    let mut state = BombState::default();
    state.active = true;
    assert!(state.is_invincible(false));
}

#[test]
fn invincible_while_timer_running() {
    let state = BombState::default();
    assert!(state.is_invincible(true), "should be invincible while timer has time left");
}

#[test]
fn bomb_not_invincible_after_full_expiry() {
    let mut state = BombState::default();
    state.active = false;
    assert!(!state.is_invincible(false));
}

#[test]
fn invincible_period_exceeds_active_period() {
    assert!(
        secs(BOMB_INVINCIBLE_MS) > secs(BOMB_DURATION_MS),
        "invincibility must outlast the active effect period"
    );
}

#[test]
fn counter_bomb_window_is_short_positive() {
    assert!(secs(COUNTER_BOMB_WINDOW_MS) > 0.0);
    assert!(secs(COUNTER_BOMB_WINDOW_MS) < 0.5, "counter-bomb window should be < 0.5 s");
}

#[test]
fn timing_constants_in_seconds() {
    assert_eq!(secs(BOMB_DURATION_MS), 3.5);
    assert_eq!(secs(BOMB_INVINCIBLE_MS), 5.0);
    assert_eq!(secs(COUNTER_BOMB_WINDOW_MS), 0.1);
}

// ---- Bomb input ---------------------------------------------------------------

#[test]
fn no_activation_while_active() {
    let mut state = BombState { active: true, pending_death: false };
    let mut gd = GameData::new_game();
    let r = bomb_input(&mut state, &mut gd, false, false, true);
    assert_eq!(r, BombInput::Idle);
    assert!(state.active, "active flag prevents re-entry");
    assert_eq!(gd.bombs, 3);
}

#[test]
fn counter_bomb_restores_life() {
    let mut state = BombState::default();
    let mut gd = GameData::new_game();
    gd.lives = 1;
    let r = bomb_input(&mut state, &mut gd, true, true, true);
    assert_eq!(r, BombInput::Activated { is_counter_bomb: true });
    assert_eq!(gd.lives, 2);
    assert_eq!(gd.bombs, 2);
}

#[test]
fn counter_bomb_life_capped_at_eight() {
    let mut state = BombState::default();
    let mut gd = GameData::new_game();
    gd.lives = 8;
    bomb_input(&mut state, &mut gd, true, true, true);
    assert_eq!(gd.lives, 8, "lives must not exceed 8");
}

#[test]
fn active_timer_expires() {
    let mut state = BombState { active: true, pending_death: false };
    state.on_active_timer(true);
    assert!(!state.active, "active must be false once timer expires");
    assert!(state.is_invincible(true), "invincible tail must still be active");
}

#[test]
fn counter_bomb_clears_pending_death() {
    let mut state = BombState { active: false, pending_death: true };
    let mut gd = GameData::new_game();
    gd.lives = 0;
    let r = bomb_input(&mut state, &mut gd, true, true, true);
    assert_eq!(r, BombInput::Activated { is_counter_bomb: true });
    assert!(!state.pending_death, "counter-bomb must clear pending_death");
    assert_eq!(gd.lives, 1);
}

#[test]
fn pending_death_commits_game_over_on_window_expiry() {
    let mut state = BombState { active: false, pending_death: true };
    let mut gd = GameData::new_game();
    let r = bomb_input(&mut state, &mut gd, true, false, true);
    assert_eq!(r, BombInput::GameOver, "should commit GameOver when window reaches zero");
    assert!(!state.pending_death);
    assert_eq!(gd.bombs, 3, "the key press in that frame does not spend a bomb");
}

#[test]
fn plain_bomb_spends_one_stock() {
    let mut state = BombState::default();
    let mut gd = GameData::new_game();
    let r = bomb_input(&mut state, &mut gd, false, false, true);
    assert_eq!(r, BombInput::Activated { is_counter_bomb: false });
    assert_eq!(gd.bombs, 2);
    assert_eq!(gd.lives, 2);
    assert!(state.active);
}

#[test]
fn no_bomb_without_stock_or_key() {
    let mut state = BombState::default();
    let mut gd = GameData::new_game();
    gd.bombs = 0;
    assert_eq!(bomb_input(&mut state, &mut gd, false, false, true), BombInput::Idle);
    gd.bombs = 3;
    assert_eq!(bomb_input(&mut state, &mut gd, false, false, false), BombInput::Idle);
    assert!(!state.active);
}

#[test]
fn bomb_clear_awards_ten_per_bullet() {
    let mut gd = GameData::new_game();
    award_bomb_clear(&mut gd, 37);
    assert_eq!(gd.score, 370);
}

// ---- Spawner -----------------------------------------------------------------

#[derive(Clone)]
struct Entry {
    time: f32,
}

#[test]
fn default_spawner_is_empty() {
    let s: EnemySpawner<Entry> = EnemySpawner::default();
    assert!(s.script.is_empty());
    assert_eq!(s.index, 0);
    assert!(s.is_finished());
}

#[test]
fn is_finished_false_when_entries_remain() {
    let mut s: EnemySpawner<Entry> = EnemySpawner::default();
    s.script.push(Entry { time: 1.0 });
    assert!(!s.is_finished());
    s.index = 1;
    assert!(s.is_finished());
}

fn advance(spawner: &mut EnemySpawner<Entry>, elapsed: f32) {
    let due: Vec<bool> = spawner.script.iter().map(|e| e.time <= elapsed).collect();
    spawner.take_due(&due);
}

#[test]
fn take_due_returns_the_range_to_spawn() {
    let mut spawner = EnemySpawner::new(vec![Entry { time: 1.0 }, Entry { time: 2.0 }, Entry { time: 5.0 }]);
    assert_eq!(spawner.take_due(&vec![true, true, false]), (0, 2));
    assert_eq!(spawner.take_due(&vec![true, true, false]), (2, 2));
    assert_eq!(spawner.take_due(&vec![true, true, true]), (2, 3));
    assert!(spawner.is_finished());
    assert_eq!(spawner.take_due(&vec![true, true, true]), (3, 3));
}

#[test]
fn take_due_stops_at_first_entry_not_due() {
    let mut spawner = EnemySpawner::new(vec![Entry { time: 1.0 }, Entry { time: 9.0 }, Entry { time: 2.0 }]);
    assert_eq!(spawner.take_due(&vec![true, false, true]), (0, 1));
    assert_eq!(spawner.index, 1);
}

#[test]
fn next_pending_and_mark_spawned_walk_the_script() {
    let mut spawner = EnemySpawner::new(vec![Entry { time: 1.0 }, Entry { time: 2.0 }]);
    assert_eq!(spawner.next_pending().map(|e| e.time), Some(1.0));
    spawner.mark_spawned();
    assert_eq!(spawner.next_pending().map(|e| e.time), Some(2.0));
    spawner.mark_spawned();
    assert!(spawner.next_pending().is_none());
}

#[test]
fn empty_script_is_finished() {
    let s: EnemySpawner<Entry> = EnemySpawner::default();
    assert!(s.is_finished());
}

#[test]
fn index_advances_up_to_elapsed_time() {
    let mut spawner = EnemySpawner::new(vec![Entry { time: 1.0 }, Entry { time: 2.0 }, Entry { time: 5.0 }]);
    advance(&mut spawner, 2.5);
    assert_eq!(spawner.index, 2);
    assert!(!spawner.is_finished());
}

#[test]
fn all_entries_processed_when_elapsed_exceeds_all() {
    let mut spawner = EnemySpawner::new(vec![Entry { time: 0.5 }, Entry { time: 1.0 }]);
    advance(&mut spawner, 99.0);
    assert!(spawner.is_finished());
}

#[test]
fn entry_at_exact_elapsed_time_is_spawned() {
    let mut spawner = EnemySpawner::new(vec![Entry { time: 3.0 }]);
    advance(&mut spawner, 3.0);
    assert_eq!(spawner.index, 1);
}

// ---- Reset ---------------------------------------------------------------------

#[test]
fn reset_keeps_hi_score_and_stage_number() {
    let mut gd = GameData { score: 5000, hi_score: 9000, lives: 0, bombs: 1, power: 77, graze: 12 };
    let mut spawner = EnemySpawner::new(vec![Entry { time: 1.0 }]);
    spawner.index = 1;
    let mut stage = StageData { stage_number: 3, boss_active: true, boss_spawned: true, boss_defeated: true };
    let mut tracker = FragmentTracker { life_fragments: 4, bomb_fragments: 2 };
    let mut bomb = BombState { active: true, pending_death: true };
    reset_per_run_resources(&mut gd, &mut spawner, &mut stage, &mut tracker, &mut bomb);
    assert_eq!(gd, GameData { score: 0, hi_score: 9000, lives: 2, bombs: 3, power: 0, graze: 0 });
    assert!(spawner.script.is_empty());
    assert_eq!(spawner.index, 0);
    assert_eq!(stage, StageData { stage_number: 3, boss_active: false, boss_spawned: false, boss_defeated: false });
    assert_eq!(tracker, FragmentTracker::default());
    assert_eq!(bomb, BombState::default());
}
