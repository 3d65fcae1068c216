//! Fragment extends: turning collected fragments into extra lives and bombs.
use vstd::prelude::*;
use crate::fragment::FragmentTracker;
use crate::game_data::GameData;
use crate::item::spec_apply_item;
use crate::kinds::ItemKind;
use crate::rules::GameRules;

verus! {

/// The stock type gained when an extend is triggered.
#[derive(Debug, Clone, Copy, PartialEq, Eq)]
pub enum ExtendKind {
    /// One extra life.
    Life,
    /// One extra bomb stock.
    Bomb,
}

/// `x + 1`, stopping at the largest `u8`.
pub open spec fn sat_inc(x: u8) -> u8 {
    if x < 255 { (x + 1) as u8 } else { 255 }
}

/// The smaller of two stocks.
pub open spec fn min_u8(a: u8, b: u8) -> u8 {
    if a <= b { a } else { b }
}

/// Whether the life counter has reached its threshold.
pub open spec fn life_extend_due(t: FragmentTracker, rules: GameRules) -> bool {
    t.life_fragments >= rules.life_extend_fragments
}

/// Whether the bomb counter has reached its threshold.
pub open spec fn bomb_extend_due(t: FragmentTracker, rules: GameRules) -> bool {
    t.bomb_fragments >= rules.bomb_extend_fragments
}

/// The extends announced, life before bomb.
pub open spec fn spec_extend_events(t: FragmentTracker, rules: GameRules) -> Seq<ExtendKind> {
    let life: Seq<ExtendKind> = if life_extend_due(t, rules) { seq![ExtendKind::Life] } else { seq![] };
    let bomb: Seq<ExtendKind> = if bomb_extend_due(t, rules) { seq![ExtendKind::Bomb] } else { seq![] };
    life + bomb
}

/// Checks whether any fragment counter has reached its extend threshold and,
/// if so, awards the corresponding stock.
///
/// - life counter at or above `rules.life_extend_fragments`: counter reset to
///   0, `lives` incremented (saturating);
/// - bomb counter at or above `rules.bomb_extend_fragments`: counter reset to
///   0, `bombs` set to `min(bombs + 1, max_bombs)` (saturating add).
///
/// Returns one [`ExtendKind`] per extend, life first.
pub fn check_extend(tracker: &mut FragmentTracker, game_data: &mut GameData, rules: &GameRules) -> (events: Vec<ExtendKind>)
    ensures
        events@ == spec_extend_events(*old(tracker), *rules),
        final(tracker).life_fragments == (if life_extend_due(*old(tracker), *rules) { 0 } else { old(tracker).life_fragments }),
        final(tracker).bomb_fragments == (if bomb_extend_due(*old(tracker), *rules) { 0 } else { old(tracker).bomb_fragments }),
        final(game_data).lives == (if life_extend_due(*old(tracker), *rules) { sat_inc(old(game_data).lives) } else { old(game_data).lives }),
        final(game_data).bombs == (if bomb_extend_due(*old(tracker), *rules) {
            min_u8(sat_inc(old(game_data).bombs), rules.max_bombs)
        } else {
            old(game_data).bombs
        }),
        final(game_data).score == old(game_data).score,
        final(game_data).hi_score == old(game_data).hi_score,
        final(game_data).power == old(game_data).power,
        final(game_data).graze == old(game_data).graze,
        bomb_extend_due(*old(tracker), *rules) && old(game_data).bombs < rules.max_bombs ==> final(game_data).bombs
            == old(game_data).bombs + 1,
        bomb_extend_due(*old(tracker), *rules) && old(game_data).bombs >= rules.max_bombs ==> final(game_data).bombs
            == rules.max_bombs,
        life_extend_due(*old(tracker), *rules) && old(game_data).lives < 255 ==> final(game_data).lives
            == old(game_data).lives + 1,
{
    let mut events: Vec<ExtendKind> = Vec::new();
    if tracker.life_fragments >= rules.life_extend_fragments {
        tracker.life_fragments = 0;
        game_data.lives = game_data.lives.saturating_add(1);
        events.push(ExtendKind::Life);
    }
    if tracker.bomb_fragments >= rules.bomb_extend_fragments {
        tracker.bomb_fragments = 0;
        let raised = game_data.bombs.saturating_add(1);
        game_data.bombs = if raised <= rules.max_bombs { raised } else { rules.max_bombs };
        events.push(ExtendKind::Bomb);
    }
    proof {
        assert(events@ =~= spec_extend_events(*old(tracker), *rules));
    }
    events
}

/// The fragment counters after picking up `n` items of one fragment kind,
/// one at a time through the pick-up rule.
pub open spec fn collect_fragments(kind: ItemKind, g: GameData, t: FragmentTracker, n: nat) -> FragmentTracker
    decreases n,
{
    if n == 0 {
        t
    } else {
        spec_apply_item(kind, 0, g, collect_fragments(kind, g, t, (n - 1) as nat)).1
    }
}

/// Collecting fragments earns an extend exactly at the threshold: starting
/// from an empty counter, `n` life (or bomb) fragments leave the counter at
/// `n`, leave the other counter alone, and make the extend due exactly when
/// `n` reaches the configured threshold.
pub proof fn lemma_fragments_earn_extend(g: GameData, t: FragmentTracker, rules: GameRules, n: nat)
    requires
        n <= 255,
    ensures
        t.life_fragments == 0 ==> ({
            let c = collect_fragments(ItemKind::LifeFragment, g, t, n);
            &&& c.life_fragments == n
            &&& c.bomb_fragments == t.bomb_fragments
            &&& (life_extend_due(c, rules) <==> n >= rules.life_extend_fragments)
        }),
        t.bomb_fragments == 0 ==> ({
            let c = collect_fragments(ItemKind::BombFragment, g, t, n);
            &&& c.bomb_fragments == n
            &&& c.life_fragments == t.life_fragments
            &&& (bomb_extend_due(c, rules) <==> n >= rules.bomb_extend_fragments)
        }),
    decreases n,
{
    if n > 0 {
        lemma_fragments_earn_extend(g, t, rules, (n - 1) as nat);
    }
}

/// The stock helpers of the extend rule: `sat_inc` adds one unless the
/// stock is already at the largest `u8`, and `min_u8` is the minimum of its
/// two arguments.
pub proof fn lemma_extend_helpers(x: u8, a: u8, b: u8)
    ensures
        x < 255 ==> sat_inc(x) == x + 1,
        x == 255 ==> sat_inc(x) == 255,
        min_u8(a, b) <= a && min_u8(a, b) <= b,
        min_u8(a, b) == a || min_u8(a, b) == b,
{
}

/// What a bomb or life extend does to the stocks: a bomb extend below the
/// cap adds exactly one bomb, one at or above the cap leaves exactly
/// `max_bombs`; a life extend adds exactly one life (short of the largest
/// `u8`); a counter below its threshold earns nothing and keeps its count.
pub proof fn lemma_extend_adds_one(t: FragmentTracker, g: GameData, rules: GameRules)
    ensures
        bomb_extend_due(t, rules) && g.bombs < rules.max_bombs ==> min_u8(sat_inc(g.bombs), rules.max_bombs)
            == g.bombs + 1,
        bomb_extend_due(t, rules) && g.bombs >= rules.max_bombs ==> min_u8(sat_inc(g.bombs), rules.max_bombs)
            == rules.max_bombs,
        life_extend_due(t, rules) && g.lives < 255 ==> sat_inc(g.lives) == g.lives + 1,
        t.life_fragments < rules.life_extend_fragments ==> !life_extend_due(t, rules),
        t.bomb_fragments < rules.bomb_extend_fragments ==> !bomb_extend_due(t, rules),
        t.life_fragments >= rules.life_extend_fragments ==> spec_extend_events(t, rules).len() >= 1
            && spec_extend_events(t, rules)[0] == ExtendKind::Life,
        t.bomb_fragments >= rules.bomb_extend_fragments ==> spec_extend_events(t, rules).len() >= 1
            && spec_extend_events(t, rules).last() == ExtendKind::Bomb,
{
}

/// After an extend check, a bomb extend never leaves more than `max_bombs`
/// stocks, a triggered counter starts again from zero, and at most one
/// extend of each kind is awarded per check.
pub proof fn lemma_extend_caps_and_resets(t: FragmentTracker, g: GameData, rules: GameRules)
    ensures
        bomb_extend_due(t, rules) ==> min_u8(sat_inc(g.bombs), rules.max_bombs) <= rules.max_bombs,
        spec_extend_events(t, rules).len() <= 2,
        spec_extend_events(t, rules).len() == (if life_extend_due(t, rules) { 1int } else { 0int })
            + (if bomb_extend_due(t, rules) { 1int } else { 0int }),
        life_extend_due(t, rules) && g.lives < 255 ==> sat_inc(g.lives) == g.lives + 1,
{
}

} // verus!
