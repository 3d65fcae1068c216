//! Enemy, bullet, item and boss kinds with their whole-number attributes.
use vstd::prelude::*;

verus! {

/// Identifies the type of a regular enemy, encoding its base stats.
///
/// | Variant | HP | Radius | Score |
/// |---|---|---|---|
/// | `Fairy` | 10 | 12 px | 100 |
/// | `Bat` | 5 | 8 px | 50 |
/// | `TallFairy` | 30 | 16 px | 300 |
#[derive(Clone, Copy, Debug, PartialEq, Eq)]
pub enum EnemyKind {
    /// Standard enemy: small fairy. Common, relatively slow.
    Fairy,
    /// Small, fast enemy. Low HP.
    Bat,
    /// Larger fairy with more HP and a bigger hitbox.
    TallFairy,
}

/// Base HP by enemy kind.
pub open spec fn spec_enemy_base_hp(k: EnemyKind) -> u32 {
    match k {
        EnemyKind::Fairy => 10,
        EnemyKind::Bat => 5,
        EnemyKind::TallFairy => 30,
    }
}

/// Score by enemy kind.
pub open spec fn spec_enemy_score(k: EnemyKind) -> u32 {
    match k {
        EnemyKind::Fairy => 100,
        EnemyKind::Bat => 50,
        EnemyKind::TallFairy => 300,
    }
}

/// Hitbox radius by enemy kind.
pub open spec fn spec_enemy_radius(k: EnemyKind) -> u32 {
    match k {
        EnemyKind::Fairy => 12,
        EnemyKind::Bat => 8,
        EnemyKind::TallFairy => 16,
    }
}

impl EnemyKind {
    /// Base (maximum) HP for this enemy type.
    pub fn base_hp(self) -> (hp: u32)
        ensures
            hp == spec_enemy_base_hp(self),
    {
        match self {
            EnemyKind::Fairy => 10,
            EnemyKind::Bat => 5,
            EnemyKind::TallFairy => 30,
        }
    }

    /// Score awarded to the player on defeat.
    pub fn score_value(self) -> (s: u32)
        ensures
            s == spec_enemy_score(self),
    {
        match self {
            EnemyKind::Fairy => 100,
            EnemyKind::Bat => 50,
            EnemyKind::TallFairy => 300,
        }
    }

    /// Radius of the bullet-collision hitbox in pixels.
    pub fn collision_radius(self) -> (r: u32)
        ensures
            r == spec_enemy_radius(self),
    {
        match self {
            EnemyKind::Fairy => 12,
            EnemyKind::Bat => 8,
            EnemyKind::TallFairy => 16,
        }
    }
}

/// Every enemy kind has positive HP, a positive hitbox and a non-zero score,
/// and HP orders the kinds Bat < Fairy < TallFairy.
pub proof fn lemma_enemy_kind_stats(k: EnemyKind)
    ensures
        spec_enemy_base_hp(k) > 0,
        spec_enemy_radius(k) > 0,
        spec_enemy_score(k) > 0,
        spec_enemy_base_hp(EnemyKind::Bat) < spec_enemy_base_hp(EnemyKind::Fairy),
        spec_enemy_base_hp(EnemyKind::Fairy) < spec_enemy_base_hp(EnemyKind::TallFairy),
{
}

/// Visual and collision variant of an enemy bullet.
#[derive(Clone, Copy, PartialEq, Eq, Debug)]
pub enum EnemyBulletKind {
    SmallRound,
    MediumRound,
    LargeRound,
    Rice,
    Knife,
    Star,
    Bubble,
}

/// Collision radius by bullet kind.
pub open spec fn spec_bullet_radius(k: EnemyBulletKind) -> u32 {
    match k {
        EnemyBulletKind::Knife => 4,
        EnemyBulletKind::SmallRound => 4,
        EnemyBulletKind::Rice => 5,
        EnemyBulletKind::MediumRound => 7,
        EnemyBulletKind::Star => 8,
        EnemyBulletKind::Bubble => 9,
        EnemyBulletKind::LargeRound => 11,
    }
}

impl EnemyBulletKind {
    /// Radius used for circle-based collision detection, in pixels.
    pub fn collision_radius(self) -> (r: u32)
        ensures
            r == spec_bullet_radius(self),
    {
        match self {
            EnemyBulletKind::Knife => 4,
            EnemyBulletKind::SmallRound => 4,
            EnemyBulletKind::Rice => 5,
            EnemyBulletKind::MediumRound => 7,
            EnemyBulletKind::Star => 8,
            EnemyBulletKind::Bubble => 9,
            EnemyBulletKind::LargeRound => 11,
        }
    }

    /// Side length of the square sprite: the collision diameter doubled.
    pub fn sprite_size(self) -> (side: u32)
        ensures
            side == 2 * spec_bullet_radius(self),
    {
        self.collision_radius() * 2
    }
}

/// Every enemy bullet kind has a positive collision radius.
pub proof fn lemma_bullet_radius_positive(k: EnemyBulletKind)
    ensures
        spec_bullet_radius(k) > 0,
{
}

/// The kind of collectible item an entity represents.
#[derive(Clone, Copy, PartialEq, Eq, Debug)]
pub enum ItemKind {
    /// +1 to the player's power level (max 128).
    PowerSmall,
    /// +8 to the player's power level (max 128).
    PowerLarge,
    /// Score bonus whose value depends on the player's height at collection.
    PointItem,
    /// One of the fragments needed to earn an extra life.
    LifeFragment,
    /// One of the fragments needed to earn an extra bomb stock.
    BombFragment,
    /// Sets the player's power level to the maximum (128) instantly.
    FullPower,
}

/// Sprite side length by item kind.
pub open spec fn spec_item_sprite_size(k: ItemKind) -> u32 {
    match k {
        ItemKind::PowerLarge | ItemKind::FullPower => 12,
        _ => 8,
    }
}

impl ItemKind {
    /// Side length of the square item sprite, in pixels.
    ///
    /// Larger items (`PowerLarge`, `FullPower`) are 12×12; all others are 8×8.
    pub fn sprite_size(self) -> (side: u32)
        ensures
            side == spec_item_sprite_size(self),
    {
        match self {
            ItemKind::PowerLarge | ItemKind::FullPower => 12,
            _ => 8,
        }
    }
}

/// Which boss character an entity represents.
///
/// | Variant | Stage |
/// |---|---|
/// | `Rumia` | 1 |
/// | `Cirno` | 2 |
/// | `Meiling` | 3 |
/// | `Patchouli` | 4 |
/// | `Sakuya` | 5 |
/// | `Remilia` | 6 |
/// | `Flandre` | Extra |
#[derive(Clone, Copy, Debug, PartialEq, Eq)]
pub enum BossType {
    Rumia,
    Cirno,
    Meiling,
    Patchouli,
    Sakuya,
    Remilia,
    Flandre,
}

/// Spell-card background pattern by boss.
pub open spec fn spec_spell_card_pattern(b: BossType) -> u32 {
    match b {
        BossType::Rumia => 0,
        BossType::Cirno => 1,
        BossType::Meiling => 2,
        BossType::Patchouli => 3,
        BossType::Sakuya => 4,
        BossType::Remilia => 5,
        BossType::Flandre => 6,
    }
}

impl BossType {
    /// Selects the spell-card background pattern branch (0 to 6) used by
    /// the spell-card background shader for this boss.
    pub fn spell_card_pattern_id(&self) -> (id: u32)
        ensures
            id == spec_spell_card_pattern(*self),
    {
        match self {
            BossType::Rumia => 0,
            BossType::Cirno => 1,
            BossType::Meiling => 2,
            BossType::Patchouli => 3,
            BossType::Sakuya => 4,
            BossType::Remilia => 5,
            BossType::Flandre => 6,
        }
    }
}

/// Each boss has its own spell-card pattern, within 0 to 6.
pub proof fn lemma_spell_card_patterns_unique(a: BossType, b: BossType)
    ensures
        spec_spell_card_pattern(a) <= 6,
        a != b ==> spec_spell_card_pattern(a) != spec_spell_card_pattern(b),
{
}

} // verus!
