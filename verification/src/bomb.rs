//! Bomb activation, counter-bombs and deferred game-over.
//!
//! The engine keeps the bomb timers and the counter-bomb window as clock
//! values; each frame it tells this module whether the window was open
//! before draining, whether it is still open afterwards, whether the bomb
//! key was pressed and whether a timer has just run out.
use vstd::prelude::*;
use crate::game_data::{GameData, MAX_LIVES};

verus! {

/// Duration of the active bomb effect, in milliseconds.
pub const BOMB_DURATION_MS: u32 = 3500;

/// Total invincibility window granted by a bomb, in milliseconds.
///
/// Starts with the activation and outlasts [`BOMB_DURATION_MS`], so the
/// player stays safe during the fade-out of the effect.
pub const BOMB_INVINCIBLE_MS: u32 = 5000;

/// Counter-bomb window after a hit, in milliseconds.
pub const COUNTER_BOMB_WINDOW_MS: u32 = 100;

/// Points awarded for every enemy bullet a bomb clears.
pub const BOMB_CLEAR_POINTS: u64 = 10;

/// The decision state of the bomb mechanic.
///
/// | Field           | Meaning |
/// |-----------------|---------|
/// | `active`        | `true` while the bomb effect is running. |
/// | `pending_death` | `true` after a lethal hit while the counter-bomb window is still open; game-over is deferred until the window closes or a counter-bomb fires. |
#[derive(Debug, Clone, Copy, PartialEq, Eq)]
pub struct BombState {
    /// `true` while the bomb effect is active and bullets are being cleared.
    pub active: bool,
    /// `true` when a lethal hit has been registered but game-over is deferred.
    pub pending_death: bool,
}

/// What one frame of bomb input led to.
#[derive(Debug, Clone, Copy, PartialEq, Eq)]
pub enum BombInput {
    /// Nothing happened.
    Idle,
    /// The counter-bomb window closed on a lethal hit: the run is over.
    GameOver,
    /// A bomb was activated; `is_counter_bomb` when it cancelled a hit.
    Activated { is_counter_bomb: bool },
}

impl Default for BombState {
    /// Inactive, with no deferred death.
    fn default() -> (s: Self)
        ensures
            !s.active,
            !s.pending_death,
    {
        BombState { active: false, pending_death: false }
    }
}

/// Lives after a counter-bomb: the lost life comes back, up to [`MAX_LIVES`].
pub open spec fn restored_lives(lives: u8) -> u8 {
    if lives >= 8 { 8 } else { (lives + 1) as u8 }
}

/// The bomb-input rule: state, resources and outcome after one frame.
pub open spec fn spec_bomb_input(
    s: BombState,
    g: GameData,
    window_was_open: bool,
    window_open: bool,
    bomb_pressed: bool,
) -> (BombState, GameData, BombInput) {
    if window_was_open && s.pending_death && !window_open {
        (BombState { pending_death: false, ..s }, g, BombInput::GameOver)
    } else if !bomb_pressed || s.active || g.bombs == 0 {
        (s, g, BombInput::Idle)
    } else if window_open {
        (
            BombState { active: true, pending_death: false },
            GameData { lives: restored_lives(g.lives), bombs: (g.bombs - 1) as u8, ..g },
            BombInput::Activated { is_counter_bomb: true },
        )
    } else {
        (
            BombState { active: true, ..s },
            GameData { bombs: (g.bombs - 1) as u8, ..g },
            BombInput::Activated { is_counter_bomb: false },
        )
    }
}

impl BombState {
    /// Returns `true` while the player is immune to incoming damage: during
    /// the active effect and while the invincibility timer still runs.
    pub fn is_invincible(&self, invincible_time_left: bool) -> (r: bool)
        ensures
            r == (self.active || invincible_time_left),
    {
        self.active || invincible_time_left
    }

    /// Ends the active phase once the active timer has just run out.
    pub fn on_active_timer(&mut self, just_finished: bool)
        ensures
            final(self).active == (old(self).active && !just_finished),
            final(self).pending_death == old(self).pending_death,
    {
        if self.active && just_finished {
            self.active = false;
        }
    }
}

/// One frame of bomb input.
///
/// - If the counter-bomb window has just closed (`window_was_open` and not
///   `window_open`) on a lethal hit (`pending_death`), the deferred death is
///   committed: `pending_death` is cleared and [`BombInput::GameOver`] is
///   returned.
/// - Otherwise, when the bomb key was pressed, no bomb is active and a stock
///   is left, one stock is consumed and the bomb becomes active. If the
///   window is still open this is a counter-bomb: the life lost to the hit
///   is restored (up to [`MAX_LIVES`]) and a deferred death is cancelled.
/// - In every other case nothing changes.
pub fn bomb_input(
    state: &mut BombState,
    game_data: &mut GameData,
    window_was_open: bool,
    window_open: bool,
    bomb_pressed: bool,
) -> (r: BombInput)
    ensures
        (*final(state), *final(game_data), r) == spec_bomb_input(
            *old(state),
            *old(game_data),
            window_was_open,
            window_open,
            bomb_pressed,
        ),
        !(window_was_open && old(state).pending_death && !window_open) ==> ((r is Activated) <==> (bomb_pressed
            && !old(state).active && old(game_data).bombs > 0)),
        r is Activated ==> final(game_data).bombs + 1 == old(game_data).bombs && final(state).active,
        r is Activated ==> r == (BombInput::Activated { is_counter_bomb: window_open }),
{
    if window_was_open && state.pending_death && !window_open {
        state.pending_death = false;
        return BombInput::GameOver;
    }
    if !bomb_pressed {
        return BombInput::Idle;
    }
    if state.active || game_data.bombs == 0 {
        return BombInput::Idle;
    }
    let is_counter = window_open;
    if is_counter {
        let raised = game_data.lives.saturating_add(1);
        game_data.lives = if raised <= MAX_LIVES { raised } else { MAX_LIVES };
        state.pending_death = false;
    }
    game_data.bombs = game_data.bombs - 1;
    state.active = true;
    BombInput::Activated { is_counter_bomb: is_counter }
}

/// Awards [`BOMB_CLEAR_POINTS`] for each of `cleared` enemy bullets removed
/// by an active bomb.
pub fn award_bomb_clear(game_data: &mut GameData, cleared: u64)
    requires
        old(game_data).score + cleared * 10 <= u64::MAX,
    ensures
        final(game_data).score == old(game_data).score + cleared * 10,
        final(game_data).hi_score == old(game_data).hi_score,
        final(game_data).lives == old(game_data).lives,
        final(game_data).bombs == old(game_data).bombs,
        final(game_data).power == old(game_data).power,
        final(game_data).graze == old(game_data).graze,
{
    let ghost before = game_data.score;
    assert(cleared * 10 <= u64::MAX) by (nonlinear_arith)
        requires
            before + cleared * 10 <= u64::MAX,
    ;
    game_data.score = game_data.score + cleared * BOMB_CLEAR_POINTS;
}

/// Bomb stock accounting: a frame spends at most one bomb, only when a bomb
/// is activated, and never while one is already active. Lives change only
/// through a counter-bomb, which gives back exactly the lost life (capped at
/// [`MAX_LIVES`]) and cancels a deferred death. A deferred death is never
/// raised by bomb input, and it ends in game-over exactly when the window
/// closes without a counter-bomb.
pub proof fn lemma_bomb_input_accounting(
    s: BombState,
    g: GameData,
    window_was_open: bool,
    window_open: bool,
    bomb_pressed: bool,
)
    ensures
        ({
            let (s2, g2, r) = spec_bomb_input(s, g, window_was_open, window_open, bomb_pressed);
            &&& (r is Activated) ==> !s.active && g.bombs > 0 && g2.bombs == g.bombs - 1 && s2.active
            &&& !(r is Activated) ==> g2 == g
            &&& g2.lives != g.lives ==> r == (BombInput::Activated { is_counter_bomb: true })
            &&& r == (BombInput::Activated { is_counter_bomb: true }) ==> g2.lives == restored_lives(g.lives)
                && g2.lives <= MAX_LIVES && !s2.pending_death
            &&& s2.pending_death ==> s.pending_death
            &&& (r == BombInput::GameOver) <==> (window_was_open && s.pending_death && !window_open)
            &&& g2.score == g.score && g2.hi_score == g.hi_score && g2.power == g.power && g2.graze == g.graze
        }),
{
}

/// What the bomb key does. Unless a deferred death is being committed this
/// frame, a bomb is activated exactly when the key is pressed, no bomb is
/// active and at least one stock is left (the last stock included); an
/// activation spends exactly one stock and turns the bomb on. It is a
/// counter-bomb exactly when the counter-bomb window is still open, and then
/// gives back one life (never above [`MAX_LIVES`], and exactly one below it)
/// and cancels the deferred death; an ordinary bomb leaves the lives alone.
/// Without an activation or a committed death nothing changes.
pub proof fn lemma_bomb_key_spends_one_stock(
    s: BombState,
    g: GameData,
    window_was_open: bool,
    window_open: bool,
    bomb_pressed: bool,
)
    ensures
        ({
            let (s2, g2, r) = spec_bomb_input(s, g, window_was_open, window_open, bomb_pressed);
            let committing = window_was_open && s.pending_death && !window_open;
            &&& committing ==> r == BombInput::GameOver && g2 == g && !s2.pending_death && s2.active == s.active
            &&& !committing ==> ((r is Activated) <==> (bomb_pressed && !s.active && g.bombs > 0))
            &&& (r is Activated) ==> g2.bombs + 1 == g.bombs && s2.active
            &&& (r is Activated) ==> g2.score == g.score && g2.power == g.power && g2.hi_score == g.hi_score
            &&& r == (BombInput::Activated { is_counter_bomb: true }) ==> window_open && !s2.pending_death
                && g2.lives <= MAX_LIVES && (g.lives < MAX_LIVES ==> g2.lives == g.lives + 1) && (g.lives
                >= MAX_LIVES ==> g2.lives == MAX_LIVES)
            &&& r == (BombInput::Activated { is_counter_bomb: false }) ==> !window_open && g2.lives == g.lives
            &&& !committing && !(r is Activated) ==> r == BombInput::Idle && s2 == s && g2 == g
        }),
{
}

/// The invincibility window outlasts the active effect, and the counter-bomb
/// window is a short positive span (under half a second).
pub proof fn lemma_bomb_timing_constants()
    ensures
        BOMB_INVINCIBLE_MS > BOMB_DURATION_MS,
        0 < COUNTER_BOMB_WINDOW_MS < 500,
{
}

} // verus!
