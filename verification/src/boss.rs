//! Boss phases: spell cards, bonuses and phase progression.
use vstd::prelude::*;
use crate::game_data::GameData;
use crate::kinds::{BossType, EnemyBulletKind};
use crate::stage::StageData;

verus! {

/// The shape of a boss phase's bullet pattern: which pattern it fires and
/// how many bullets (or arms) make up one volley. Speeds and angles are
/// fractional and stay in the phase's engine parameters.
#[derive(Debug, Clone, Copy, PartialEq, Eq)]
pub enum PatternShape {
    /// `count` bullets equally spaced around a full circle.
    Ring { count: u8 },
    /// `count` bullets fanned around the direction of the player.
    Aimed { count: u8 },
    /// `count` bullets fanned around straight down.
    Spread { count: u8 },
    /// `arms` bullets per frame, rotating.
    Spiral { arms: u8 },
}

/// How a boss moves during a phase. The amplitudes, radii, centres and
/// waypoints are fractional and stay in the phase's engine parameters.
#[derive(Debug, Clone, Copy, PartialEq, Eq)]
pub enum MovementKind {
    /// Stays where it is.
    Static,
    /// Swings left and right along a sine.
    Pendulum,
    /// Orbits a centre point.
    Circle,
    /// Snaps from waypoint to waypoint.
    Teleport,
}

/// Data describing a single boss phase (normal attack or spell card).
///
/// `params` carries the fractional values the engine needs to run the
/// phase: HP, time limit, fire interval, bullet speed and angles, and the
/// movement's geometry.
pub struct BossPhaseData<P> {
    /// `true` when this phase is a spell card (enables the spell-card bonus
    /// and the spell-card background).
    pub is_spell_card: bool,
    /// Display name of the spell card, or `None` for non-spell phases.
    pub spell_card_name: Option<String>,
    /// Score bonus for defeating a spell-card phase before its time runs out.
    pub spell_card_bonus: u32,
    /// Bullet variant spawned by the boss during this phase.
    pub bullet_kind: EnemyBulletKind,
    /// Pattern fired during this phase.
    pub pattern: PatternShape,
    /// Movement during this phase.
    pub movement: MovementKind,
    /// Engine parameters of the phase.
    pub params: P,
}

/// Core state of a boss.
///
/// `phases` holds every phase in order; `current_phase` indexes the active
/// one and `spell_card_active` mirrors whether it is a spell card.
pub struct Boss<P> {
    /// Which boss character this is.
    pub boss_type: BossType,
    /// Index into `phases` of the active phase (0-based).
    pub current_phase: usize,
    /// All phases for this boss, in order.
    pub phases: Vec<BossPhaseData<P>>,
    /// `true` while a spell-card phase is active.
    pub spell_card_active: bool,
}

impl<P> Boss<P> {
    /// The boss is well formed: it has a phase, the active index points into
    /// the phase list, and the spell-card flag matches the active phase.
    pub open spec fn wf(&self) -> bool {
        &&& self.phases@.len() > 0
        &&& self.current_phase < self.phases@.len()
        &&& self.spell_card_active == self.phases@[self.current_phase as int].is_spell_card
    }

    /// Creates a boss from its phase list, starting at phase 0.
    pub fn new(boss_type: BossType, phases: Vec<BossPhaseData<P>>) -> (b: Self)
        requires
            phases@.len() > 0,
        ensures
            b.wf(),
            b.boss_type == boss_type,
            b.current_phase == 0,
            b.phases@ == phases@,
            b.spell_card_active == phases@[0].is_spell_card,
    {
        let first_is_spell = phases[0].is_spell_card;
        Boss { boss_type, current_phase: 0, phases, spell_card_active: first_is_spell }
    }

    /// Returns the active phase.
    pub fn current(&self) -> (p: &BossPhaseData<P>)
        requires
            self.wf(),
        ensures
            *p == self.phases@[self.current_phase as int],
    {
        &self.phases[self.current_phase]
    }

    /// Returns the active phase for modification (for example to subtract
    /// damage from its HP).
    pub fn current_mut(&mut self) -> (p: &mut BossPhaseData<P>)
        requires
            old(self).wf(),
        ensures
            *p == old(self).phases@[old(self).current_phase as int],
            final(self).phases@ == old(self).phases@.update(old(self).current_phase as int, *final(p)),
            final(self).current_phase == old(self).current_phase,
            final(self).boss_type == old(self).boss_type,
            final(self).spell_card_active == old(self).spell_card_active,
    {
        let i = self.current_phase;
        &mut self.phases[i]
    }
}

/// What one frame of phase checking led to.
#[derive(Debug, Clone, Copy, PartialEq, Eq)]
pub enum BossPhaseOutcome {
    /// The active phase goes on.
    Continue,
    /// The boss moved on to the given phase.
    Advanced { phase: usize },
    /// The last phase ended: the boss is defeated.
    Defeated,
}

/// Whether the spell-card bonus is earned: the active phase is a spell card
/// and it ended by damage, not by its time limit.
pub open spec fn earns_spell_bonus(spell_card_active: bool, hp_zero: bool, time_up: bool) -> bool {
    spell_card_active && hp_zero && !time_up
}

/// Where the boss stands after its active phase `current` ends: the next
/// phase, or still `current` with the boss defeated when it was the last of
/// `len` phases.
pub open spec fn spec_phase_end(current: int, len: int) -> (int, bool) {
    if current + 1 < len {
        (current + 1, false)
    } else {
        (current, true)
    }
}

/// The boss after `k` phase endings, starting from phase 0; endings after
/// the defeat change nothing.
pub open spec fn spec_fight(len: int, k: nat) -> (int, bool)
    decreases k,
{
    if k == 0 {
        (0, false)
    } else {
        let prev = spec_fight(len, (k - 1) as nat);
        if prev.1 {
            prev
        } else {
            spec_phase_end(prev.0, len)
        }
    }
}

/// The spell-card bonus is earned exactly when a spell card is active and
/// its phase ended by damage without its time running out; a phase ending
/// moves to the next phase while one follows, and otherwise defeats the
/// boss on its last phase.
pub proof fn lemma_phase_end_rule(spell_card_active: bool, hp_zero: bool, time_up: bool, current: int, len: int)
    ensures
        earns_spell_bonus(spell_card_active, hp_zero, time_up) <==> (spell_card_active && hp_zero && !time_up),
        !spell_card_active || time_up || !hp_zero ==> !earns_spell_bonus(spell_card_active, hp_zero, time_up),
        current + 1 < len ==> spec_phase_end(current, len).0 == current + 1 && !spec_phase_end(current, len).1,
        current + 1 >= len ==> spec_phase_end(current, len).0 == current && spec_phase_end(current, len).1,
{
}

/// A boss with `len` phases goes through them in order: after `k` endings
/// with `k < len` it is at phase `k` and still fighting, and it is defeated
/// by the `len`-th ending, staying on its last phase.
pub proof fn lemma_boss_fight_order(len: int, k: nat)
    requires
        len > 0,
    ensures
        k < len ==> spec_fight(len, k) == (k as int, false),
        k >= len ==> spec_fight(len, k) == (len - 1, true),
    decreases k,
{
    if k > 0 {
        lemma_boss_fight_order(len, (k - 1) as nat);
    }
}

/// Checks whether the active phase has ended and moves the boss on.
///
/// A phase ends when its HP is used up (`hp_zero`) or its time limit has
/// just run out (`time_up`). When a spell card ends by damage and not by
/// timeout, its bonus is added to the score. If another phase follows, the
/// boss advances to it and the spell-card flag follows the new phase;
/// otherwise the stage records the boss as defeated.
pub fn boss_phase_step<P>(
    boss: &mut Boss<P>,
    hp_zero: bool,
    time_up: bool,
    game_data: &mut GameData,
    stage: &mut StageData,
) -> (o: BossPhaseOutcome)
    requires
        old(boss).wf(),
        earns_spell_bonus(old(boss).spell_card_active, hp_zero, time_up) ==> old(game_data).score
            + old(boss).phases@[old(boss).current_phase as int].spell_card_bonus <= u64::MAX,
    ensures
        final(boss).wf(),
        final(boss).phases@ == old(boss).phases@,
        final(boss).boss_type == old(boss).boss_type,
        !time_up && !hp_zero ==> o == BossPhaseOutcome::Continue && final(boss).current_phase
            == old(boss).current_phase && *final(game_data) == *old(game_data) && *final(stage)
            == *old(stage),
        (time_up || hp_zero) && old(boss).current_phase + 1 < old(boss).phases@.len() ==> o
            == (BossPhaseOutcome::Advanced { phase: (old(boss).current_phase + 1) as usize })
            && final(boss).current_phase == old(boss).current_phase + 1 && *final(stage) == *old(stage),
        (time_up || hp_zero) && old(boss).current_phase + 1 >= old(boss).phases@.len() ==> o
            == BossPhaseOutcome::Defeated && final(boss).current_phase == old(boss).current_phase
            && *final(stage) == (StageData { boss_defeated: true, ..*old(stage) }),
        time_up || hp_zero ==> (final(boss).current_phase as int, o == BossPhaseOutcome::Defeated)
            == spec_phase_end(old(boss).current_phase as int, old(boss).phases@.len() as int),
        final(game_data).score == old(game_data).score + (if earns_spell_bonus(
            old(boss).spell_card_active,
            hp_zero,
            time_up,
        ) {
            old(boss).phases@[old(boss).current_phase as int].spell_card_bonus as int
        } else {
            0int
        }),
        final(game_data).hi_score == old(game_data).hi_score,
        final(game_data).lives == old(game_data).lives,
        final(game_data).bombs == old(game_data).bombs,
        final(game_data).power == old(game_data).power,
        final(game_data).graze == old(game_data).graze,
{
    if !time_up && !hp_zero {
        return BossPhaseOutcome::Continue;
    }
    if boss.spell_card_active && hp_zero && !time_up {
        let bonus = boss.phases[boss.current_phase].spell_card_bonus;
        game_data.score = game_data.score + bonus as u64;
    }
    let len = boss.phases.len();
    let next = boss.current_phase + 1;
    if next >= len {
        stage.boss_defeated = true;
        BossPhaseOutcome::Defeated
    } else {
        let next_is_spell = boss.phases[next].is_spell_card;
        boss.current_phase = next;
        boss.spell_card_active = next_is_spell;
        BossPhaseOutcome::Advanced { phase: next }
    }
}

/// Spell-card bonus of Rumia's first spell card, Night Sign "Night Bird".
pub const RUMIA_NIGHT_BIRD_BONUS: u32 = 500_000;

/// Spell-card bonus of Rumia's second spell card, Dark Sign "Demarcation".
pub const RUMIA_DEMARCATION_BONUS: u32 = 1_000_000;

/// Rumia's phase list (Stage 1 boss), given the engine parameters of each
/// phase.
///
/// | # | Type | Spell card | Bullets | Pattern | Movement |
/// |---|------|-----------|---------|---------|----------|
/// | 0 | Non-spell | — | MediumRound | 3-way aimed | Pendulum |
/// | 1 | Spell card | 夜符「ナイトバード」, bonus 500 000 | Rice | 5-way aimed | Circle |
/// | 2 | Spell card | 闇符「ディマーケーション」, bonus 1 000 000 | MediumRound | 16-bullet ring | Pendulum |
pub fn rumia_phases<P>(non_spell: P, night_bird: P, demarcation: P) -> (phases: Vec<BossPhaseData<P>>)
    ensures
        phases@.len() == 3,
        !phases@[0].is_spell_card && phases@[0].spell_card_name is None && phases@[0].spell_card_bonus == 0
            && phases@[0].bullet_kind == EnemyBulletKind::MediumRound && phases@[0].params == non_spell,
        phases@[0].pattern == (PatternShape::Aimed { count: 3 }) && phases@[0].movement == MovementKind::Pendulum,
        phases@[1].is_spell_card && phases@[1].spell_card_name is Some && phases@[1].spell_card_name->0@ == "夜符「ナイトバード」"@
            && phases@[1].spell_card_bonus == RUMIA_NIGHT_BIRD_BONUS
            && phases@[1].bullet_kind == EnemyBulletKind::Rice && phases@[1].params == night_bird,
        phases@[1].pattern == (PatternShape::Aimed { count: 5 }) && phases@[1].movement == MovementKind::Circle,
        phases@[2].is_spell_card && phases@[2].spell_card_name is Some && phases@[2].spell_card_name->0@ == "闇符「ディマーケーション」"@
            && phases@[2].spell_card_bonus == RUMIA_DEMARCATION_BONUS
            && phases@[2].bullet_kind == EnemyBulletKind::MediumRound && phases@[2].params == demarcation,
        phases@[2].pattern == (PatternShape::Ring { count: 16 }) && phases@[2].movement == MovementKind::Pendulum,
{
    let mut phases: Vec<BossPhaseData<P>> = Vec::new();
    phases.push(BossPhaseData {
        is_spell_card: false,
        spell_card_name: None,
        spell_card_bonus: 0,
        bullet_kind: EnemyBulletKind::MediumRound,
        pattern: PatternShape::Aimed { count: 3 },
        movement: MovementKind::Pendulum,
        params: non_spell,
    });
    phases.push(BossPhaseData {
        is_spell_card: true,
        spell_card_name: Some("夜符「ナイトバード」".to_owned()),
        spell_card_bonus: RUMIA_NIGHT_BIRD_BONUS,
        bullet_kind: EnemyBulletKind::Rice,
        pattern: PatternShape::Aimed { count: 5 },
        movement: MovementKind::Circle,
        params: night_bird,
    });
    phases.push(BossPhaseData {
        is_spell_card: true,
        spell_card_name: Some("闇符「ディマーケーション」".to_owned()),
        spell_card_bonus: RUMIA_DEMARCATION_BONUS,
        bullet_kind: EnemyBulletKind::MediumRound,
        pattern: PatternShape::Ring { count: 16 },
        movement: MovementKind::Pendulum,
        params: demarcation,
    });
    phases
}

} // verus!
