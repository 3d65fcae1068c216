//! The power-stage table of the player's shot.
use vstd::prelude::*;

verus! {

/// Parameters for one power stage of the shot pattern.
///
/// | Field    | Description |
/// |----------|-------------|
/// | `count`  | Number of bullets per shot |
/// | `spread` | Total horizontal spread across the fan, in whole pixels |
/// | `damage` | Damage per bullet on contact, in whole points |
#[derive(Debug, Clone, Copy, PartialEq, Eq)]
pub struct PowerStageParams {
    /// Number of bullets fired per shot.
    pub count: u8,
    /// Total horizontal span of the bullet fan in pixels.
    ///
    /// When `count == 1` this is zero and the single bullet fires straight up.
    pub spread: u32,
    /// Damage dealt to an enemy per bullet contact.
    pub damage: u32,
}

/// The stage table, by power level.
///
/// | Power   | Bullets | Spread (px) | Damage |
/// |---------|---------|-------------|--------|
/// | 0–15    | 1       | 0           | 10     |
/// | 16–31   | 2       | 8           | 11     |
/// | 32–47   | 3       | 10          | 12     |
/// | 48–63   | 3       | 10          | 13     |
/// | 64–79   | 4       | 12          | 14     |
/// | 80–95   | 4       | 12          | 15     |
/// | 96–111  | 5       | 14          | 16     |
/// | 112–127 | 5       | 14          | 17     |
/// | 128+    | 5       | 14          | 18     |
pub open spec fn spec_power_stage(power: u8) -> PowerStageParams {
    if power <= 15 {
        PowerStageParams { count: 1, spread: 0, damage: 10 }
    } else if power <= 31 {
        PowerStageParams { count: 2, spread: 8, damage: 11 }
    } else if power <= 47 {
        PowerStageParams { count: 3, spread: 10, damage: 12 }
    } else if power <= 63 {
        PowerStageParams { count: 3, spread: 10, damage: 13 }
    } else if power <= 79 {
        PowerStageParams { count: 4, spread: 12, damage: 14 }
    } else if power <= 95 {
        PowerStageParams { count: 4, spread: 12, damage: 15 }
    } else if power <= 111 {
        PowerStageParams { count: 5, spread: 14, damage: 16 }
    } else if power <= 127 {
        PowerStageParams { count: 5, spread: 14, damage: 17 }
    } else {
        PowerStageParams { count: 5, spread: 14, damage: 18 }
    }
}

/// The fire interval table, in milliseconds, by power level.
///
/// | Power  | Interval (ms) |
/// |--------|---------------|
/// | 0–15   | 200           |
/// | 16–31  | 160           |
/// | 32–47  | 140           |
/// | 48–63  | 120           |
/// | 64–95  | 100           |
/// | 96–127 | 83            |
/// | 128+   | 70            |
pub open spec fn spec_shoot_interval_ms(power: u8) -> u32 {
    if power <= 15 {
        200
    } else if power <= 31 {
        160
    } else if power <= 47 {
        140
    } else if power <= 63 {
        120
    } else if power <= 95 {
        100
    } else if power <= 127 {
        83
    } else {
        70
    }
}

/// Returns the [`PowerStageParams`] for the shot at the given power level.
///
/// Eight stages of sixteen power units each, plus the maximum stage at 128.
pub fn power_stage_params(power: u8) -> (p: PowerStageParams)
    ensures
        p == spec_power_stage(power),
{
    match power {
        0..=15 => PowerStageParams { count: 1, spread: 0, damage: 10 },
        16..=31 => PowerStageParams { count: 2, spread: 8, damage: 11 },
        32..=47 => PowerStageParams { count: 3, spread: 10, damage: 12 },
        48..=63 => PowerStageParams { count: 3, spread: 10, damage: 13 },
        64..=79 => PowerStageParams { count: 4, spread: 12, damage: 14 },
        80..=95 => PowerStageParams { count: 4, spread: 12, damage: 15 },
        96..=111 => PowerStageParams { count: 5, spread: 14, damage: 16 },
        112..=127 => PowerStageParams { count: 5, spread: 14, damage: 17 },
        _ => PowerStageParams { count: 5, spread: 14, damage: 18 },
    }
}

/// Returns the fire interval in milliseconds for the given power level.
///
/// Higher power stages shoot faster.
pub fn shoot_interval_from_power(power: u8) -> (ms: u32)
    ensures
        ms == spec_shoot_interval_ms(power),
{
    match power {
        0..=15 => 200,
        16..=31 => 160,
        32..=47 => 140,
        48..=63 => 120,
        64..=95 => 100,
        96..=127 => 83,
        _ => 70,
    }
}

/// More power never weakens the shot: bullet count, spread and damage do not
/// decrease and the fire interval does not grow as power rises. Every stage
/// fires at least one bullet with positive damage at a positive interval,
/// and the single-bullet stage has no spread.
pub proof fn lemma_power_monotone(p: u8, q: u8)
    requires
        p <= q,
    ensures
        spec_power_stage(p).count <= spec_power_stage(q).count,
        spec_power_stage(p).spread <= spec_power_stage(q).spread,
        spec_power_stage(p).damage <= spec_power_stage(q).damage,
        spec_shoot_interval_ms(p) >= spec_shoot_interval_ms(q),
        spec_power_stage(p).count >= 1,
        spec_power_stage(p).damage > 0,
        spec_shoot_interval_ms(p) > 0,
        spec_power_stage(p).count == 1 ==> spec_power_stage(p).spread == 0,
        spec_shoot_interval_ms(128) < spec_shoot_interval_ms(0),
{
}

} // verus!
