//! Item pick-up effects and the drops of defeated enemies.
use vstd::prelude::*;
use crate::fragment::FragmentTracker;
use crate::game_data::{GameData, MAX_POWER};
use crate::kinds::ItemKind;

verus! {

/// One item dropped by a defeated enemy, placed at the enemy's position
/// moved by (`offset_x`, `offset_y`) pixels.
#[derive(Clone, Copy, Debug, PartialEq, Eq)]
pub struct ItemDrop {
    pub kind: ItemKind,
    pub offset_x: i32,
    pub offset_y: i32,
}

/// The drop table.
///
/// | Enemy tier | Drop |
/// |---|---|
/// | Normal | 1 point item + 1 small power item |
/// | Boss | 3 point items + 1 large power item |
pub open spec fn spec_drops(is_boss: bool) -> Seq<ItemDrop> {
    if is_boss {
        seq![
            ItemDrop { kind: ItemKind::PointItem, offset_x: -16i32, offset_y: 0 },
            ItemDrop { kind: ItemKind::PointItem, offset_x: 0, offset_y: 0 },
            ItemDrop { kind: ItemKind::PointItem, offset_x: 16, offset_y: 0 },
            ItemDrop { kind: ItemKind::PowerLarge, offset_x: 0, offset_y: 8 },
        ]
    } else {
        seq![
            ItemDrop { kind: ItemKind::PointItem, offset_x: 0, offset_y: 0 },
            ItemDrop { kind: ItemKind::PowerSmall, offset_x: -8i32, offset_y: 0 },
        ]
    }
}

/// Awards the score of a defeated enemy and returns the items it drops.
pub fn on_enemy_defeated(game_data: &mut GameData, score: u32, is_boss: bool) -> (drops: Vec<ItemDrop>)
    requires
        old(game_data).score + score <= u64::MAX,
    ensures
        *final(game_data) == (GameData { score: (old(game_data).score + score) as u64, ..*old(game_data) }),
        drops@ == spec_drops(is_boss),
{
    game_data.score = game_data.score + score as u64;
    let mut drops: Vec<ItemDrop> = Vec::new();
    if is_boss {
        drops.push(ItemDrop { kind: ItemKind::PointItem, offset_x: -16, offset_y: 0 });
        drops.push(ItemDrop { kind: ItemKind::PointItem, offset_x: 0, offset_y: 0 });
        drops.push(ItemDrop { kind: ItemKind::PointItem, offset_x: 16, offset_y: 0 });
        drops.push(ItemDrop { kind: ItemKind::PowerLarge, offset_x: 0, offset_y: 8 });
    } else {
        drops.push(ItemDrop { kind: ItemKind::PointItem, offset_x: 0, offset_y: 0 });
        drops.push(ItemDrop { kind: ItemKind::PowerSmall, offset_x: -8, offset_y: 0 });
    }
    proof {
        assert(drops@ =~= spec_drops(is_boss));
    }
    drops
}

/// What a defeated enemy drops: a regular enemy one point item and one
/// small power item; a boss three point items in a row, spaced evenly and
/// centred on it, and one large power item.
pub proof fn lemma_drop_table()
    ensures
        spec_drops(false).len() == 2,
        spec_drops(false)[0].kind == ItemKind::PointItem && spec_drops(false)[1].kind == ItemKind::PowerSmall,
        spec_drops(true).len() == 4,
        forall|i: int| 0 <= i < 3 ==> #[trigger] spec_drops(true)[i].kind == ItemKind::PointItem,
        spec_drops(true)[3].kind == ItemKind::PowerLarge,
        spec_drops(true)[0].offset_x + spec_drops(true)[2].offset_x == 0,
        spec_drops(true)[1].offset_x == 0,
        spec_drops(true)[0].offset_x < spec_drops(true)[1].offset_x < spec_drops(true)[2].offset_x,
{
}

/// `power` raised by `amount`, stopping at [`MAX_POWER`].
pub open spec fn raised_power(power: u8, amount: int) -> u8 {
    if power + amount >= 128 { 128 } else { (power + amount) as u8 }
}

/// A fragment counter after one more fragment, stopping at the largest `u8`.
pub open spec fn one_more(n: u8) -> u8 {
    if n < 255 { (n + 1) as u8 } else { 255 }
}

/// The pick-up rule: resources and fragment counters after collecting one
/// item; `point_value` is what a point item is worth at the player's height.
pub open spec fn spec_apply_item(kind: ItemKind, point_value: u32, g: GameData, t: FragmentTracker) -> (GameData, FragmentTracker) {
    match kind {
        ItemKind::PowerSmall => (GameData { power: raised_power(g.power, 1), ..g }, t),
        ItemKind::PowerLarge => (GameData { power: raised_power(g.power, 8), ..g }, t),
        ItemKind::FullPower => (GameData { power: 128, ..g }, t),
        ItemKind::PointItem => (GameData { score: (g.score + point_value) as u64, ..g }, t),
        ItemKind::LifeFragment => (g, FragmentTracker { life_fragments: one_more(t.life_fragments), ..t }),
        ItemKind::BombFragment => (g, FragmentTracker { bomb_fragments: one_more(t.bomb_fragments), ..t }),
    }
}

/// Applies the effect of one collected item.
///
/// Power items raise the power level by 1 (small) or 8 (large) up to
/// [`MAX_POWER`], and a full-power item sets it to [`MAX_POWER`]; a point
/// item adds `point_value` to the score; a fragment adds one to its counter
/// (the extend itself is awarded by [`crate::score::check_extend`]).
pub fn apply_item(kind: ItemKind, point_value: u32, game_data: &mut GameData, tracker: &mut FragmentTracker)
    requires
        kind == ItemKind::PointItem ==> old(game_data).score + point_value <= u64::MAX,
    ensures
        (*final(game_data), *final(tracker)) == spec_apply_item(kind, point_value, *old(game_data), *old(tracker)),
        kind == ItemKind::PointItem ==> final(game_data).score == old(game_data).score + point_value
            && *final(tracker) == *old(tracker),
        kind != ItemKind::PointItem ==> final(game_data).score == old(game_data).score,
{
    match kind {
        ItemKind::PowerSmall => {
            game_data.power = if game_data.power >= MAX_POWER - 1 { MAX_POWER } else { game_data.power + 1 };
        },
        ItemKind::PowerLarge => {
            game_data.power = if game_data.power >= MAX_POWER - 8 { MAX_POWER } else { game_data.power + 8 };
        },
        ItemKind::FullPower => {
            game_data.power = MAX_POWER;
        },
        ItemKind::PointItem => {
            game_data.score = game_data.score + point_value as u64;
        },
        ItemKind::LifeFragment => {
            tracker.life_fragments = tracker.life_fragments.saturating_add(1);
        },
        ItemKind::BombFragment => {
            tracker.bomb_fragments = tracker.bomb_fragments.saturating_add(1);
        },
    }
}

/// What each item does. A point item adds exactly its value to the score;
/// a small or large power item adds exactly 1 or 8 power, stopping at
/// [`MAX_POWER`]; a full-power item sets [`MAX_POWER`]; a fragment adds
/// exactly one to its own counter (short of the largest `u8`). Each item
/// changes only its own resource: everything else is left as it was.
pub proof fn lemma_item_effects(kind: ItemKind, point_value: u32, g: GameData, t: FragmentTracker)
    ensures
        ({
            let (g2, t2) = spec_apply_item(kind, point_value, g, t);
            &&& kind == ItemKind::PointItem && g.score + point_value <= u64::MAX ==> g2 == (GameData {
                score: (g.score + point_value) as u64,
                ..g
            }) && g2.score == g.score + point_value && t2 == t
            &&& kind == ItemKind::PowerSmall ==> t2 == t && g2.score == g.score && g2.lives == g.lives
                && g2.bombs == g.bombs && g2.hi_score == g.hi_score && g2.graze == g.graze
                && (g.power + 1 <= MAX_POWER ==> g2.power == g.power + 1) && (g.power + 1 > MAX_POWER
                ==> g2.power == MAX_POWER)
            &&& kind == ItemKind::PowerLarge ==> t2 == t && g2.score == g.score && g2.lives == g.lives
                && g2.bombs == g.bombs && g2.hi_score == g.hi_score && g2.graze == g.graze
                && (g.power + 8 <= MAX_POWER ==> g2.power == g.power + 8) && (g.power + 8 > MAX_POWER
                ==> g2.power == MAX_POWER)
            &&& kind == ItemKind::FullPower ==> t2 == t && g2.power == MAX_POWER && g2.score == g.score
                && g2.lives == g.lives && g2.bombs == g.bombs
            &&& kind == ItemKind::LifeFragment ==> g2 == g && t2.bomb_fragments == t.bomb_fragments
                && (t.life_fragments < 255 ==> t2.life_fragments == t.life_fragments + 1)
            &&& kind == ItemKind::BombFragment ==> g2 == g && t2.life_fragments == t.life_fragments
                && (t.bomb_fragments < 255 ==> t2.bomb_fragments == t.bomb_fragments + 1)
        }),
{
}

/// Power never exceeds [`MAX_POWER`] through item pick-ups once it is within
/// range, and no item lowers the power, the score or a fragment counter.
pub proof fn lemma_items_never_lower_resources(kind: ItemKind, point_value: u32, g: GameData, t: FragmentTracker)
    requires
        g.power <= MAX_POWER,
        kind == ItemKind::PointItem ==> g.score + point_value <= u64::MAX,
    ensures
        ({
            let (g2, t2) = spec_apply_item(kind, point_value, g, t);
            &&& g2.power <= MAX_POWER
            &&& g2.power >= g.power
            &&& g2.score >= g.score
            &&& t2.life_fragments >= t.life_fragments
            &&& t2.bomb_fragments >= t.bomb_fragments
            &&& g2.lives == g.lives && g2.bombs == g.bombs && g2.hi_score == g.hi_score
        }),
{
}

} // verus!
