//! Value types of the battle: powers, probabilities, ratios, status kinds,
//! effects, skills, and the combatant with its hit points and status timers.
use vstd::prelude::*;

verus! {

/// Number of thousandths in one whole unit.
pub const SCALE: u32 = 1000;

/// Raw magnitude multiplier of a damage formula, in thousandths.
#[derive(Clone, Copy, Debug, PartialEq, Eq, Structural)]
pub struct Power {
    pub value: u32,
}

/// Chance of success of a roll, in percent (0 never succeeds, 100 always does).
#[derive(Clone, Copy, Debug, PartialEq, Eq, Structural)]
pub struct Probability {
    pub percentage: u32,
}

/// Fraction of the maximum hit points, in thousandths; not bounded by one.
#[derive(Clone, Copy, Debug, PartialEq, Eq, Structural)]
pub struct Ratio {
    pub percentage: u32,
}

/// Remaining turns of each status; zero means the status is not active.
#[derive(Clone, Copy, Debug, PartialEq, Eq, Structural)]
pub struct StatusTurns {
    pub poisoned: usize,
    pub burned: usize,
    pub falter: usize,
    pub blackout: usize,
    pub frost: usize,
    pub feather: usize,
}

impl StatusTurns {
    /// No status active.
    pub open spec fn none_spec() -> StatusTurns {
        StatusTurns { poisoned: 0, burned: 0, falter: 0, blackout: 0, frost: 0, feather: 0 }
    }

    pub fn none() -> (r: StatusTurns)
        ensures
            r == StatusTurns::none_spec(),
    {
        StatusTurns { poisoned: 0, burned: 0, falter: 0, blackout: 0, frost: 0, feather: 0 }
    }
}

/// The numeric state of a combatant that a battle reads and changes.
/// Hit points, attack and defence are in thousandths of a point.
#[derive(Clone, Copy, Debug, PartialEq, Eq, Structural)]
pub struct Vitals {
    pub hp: u32,
    pub hp_max: u32,
    pub attack: u32,
    pub defence: u32,
    pub turns: StatusTurns,
}

impl Vitals {
    /// Hit points never exceed the maximum, and defence is positive, so that
    /// damage against this combatant is always defined.
    pub open spec fn wf(self) -> bool {
        self.hp <= self.hp_max && self.defence > 0
    }

    /// Hit points after losing `value`, stopping at zero.
    pub open spec fn hp_after_loss(self, value: int) -> u32 {
        if value >= self.hp { 0 } else { (self.hp - value) as u32 }
    }

    /// Hit points after gaining `value`, stopping at the maximum.
    pub open spec fn hp_after_gain(self, value: int) -> u32 {
        if self.hp + value >= self.hp_max { self.hp_max } else { (self.hp + value) as u32 }
    }

    /// Loses `value` hit points, stopping at zero, and returns `value`.
    pub fn hp_decrease(&mut self, value: u128) -> (r: u128)
        ensures
            r == value,
            *final(self) == (Vitals { hp: old(self).hp_after_loss(value as int), ..*old(self) }),
    {
        if value >= self.hp as u128 {
            self.hp = 0;
        } else {
            self.hp = self.hp - value as u32;
        }
        value
    }

    /// Gains `value` hit points, stopping at the maximum.
    pub fn hp_increase(&mut self, value: u128)
        requires
            old(self).hp <= old(self).hp_max,
        ensures
            *final(self) == (Vitals { hp: old(self).hp_after_gain(value as int), ..*old(self) }),
    {
        if value >= (self.hp_max - self.hp) as u128 {
            self.hp = self.hp_max;
        } else {
            self.hp = self.hp + value as u32;
        }
    }
}


/// The elemental and behavioural statuses a skill can inflict.
#[derive(Clone, Copy, Debug, PartialEq, Eq, Structural)]
pub enum StatusKind {
    /// Damage over time (a sixteenth of the maximum each turn), lower attack.
    Poisoned,
    /// Damage over time (an eighth of the maximum each turn).
    Burned,
    /// Cannot evade or act, lower defence.
    Falter,
    /// Cannot evade, attacks miss, no secondary effects.
    BlackOut,
    /// Cannot evade, no secondary effects.
    Frozen,
    /// Higher evasion, lower defence.
    Feather,
}

/// What a skill does when used.
#[derive(Clone, Copy, Debug, PartialEq, Eq, Structural)]
pub enum Effect {
    /// Direct damage to the target, if the roll succeeds.
    Attack(Probability, Power),
    /// Heals the user by a ratio of its maximum hit points.
    Heal(Ratio),
    /// Inflicts a status on the target, if the roll succeeds; no damage.
    AddSpecialStatusToEnemy(Probability, StatusKind),
    /// Damage if the first roll succeeds; then, only in that case, a status
    /// on the target if the second roll succeeds.
    AttackAndAddSpecialStatusToEnemy(Probability, Power, Probability, StatusKind),
}

impl Effect {
    /// Whether the effect acts on a target (every effect but `Heal`).
    pub open spec fn needs_target(self) -> bool {
        !(self is Heal)
    }
}

/// Rarity tier of a skill or item, used when drawing from a pool.
#[derive(Clone, Copy, Debug, PartialEq, Eq, Structural)]
pub struct Rarity {
    pub value: u8,
}

impl Rarity {
    pub fn new(value: u8) -> (r: Rarity)
        ensures
            r.value == value,
    {
        Rarity { value }
    }
}

/// Level tier of a combatant, used when drawing enemies from a pool.
#[derive(Clone, Copy, Debug, PartialEq, Eq, Structural)]
pub struct Level {
    pub value: u8,
}

impl Level {
    pub fn new(value: u8) -> (r: Level)
        ensures
            r.value == value,
    {
        Level { value }
    }
}

/// A usable action: a name shown to the player, a rarity, and its effect.
#[derive(Clone, Debug)]
pub struct Skill {
    pub name: String,
    pub rarity: Rarity,
    pub effect: Effect,
}

impl Skill {
    /// A copy of the skill, equal to it.
    pub fn duplicate(&self) -> (r: Skill)
        ensures
            r == *self,
    {
        Skill { name: self.name.clone(), rarity: self.rarity, effect: self.effect }
    }
}

/// A pool of skills.
#[derive(Clone, Debug)]
pub struct Skills {
    pub skills: Vec<Skill>,
}

/// Something that can be owned and used: a name, a rarity and its effect.
#[derive(Clone, Debug)]
pub struct Item {
    pub name: String,
    pub rarity: Rarity,
    pub effect: Effect,
}

impl Item {
    /// A copy of the item, equal to it.
    pub fn duplicate(&self) -> (r: Item)
        ensures
            r == *self,
    {
        Item { name: self.name.clone(), rarity: self.rarity, effect: self.effect }
    }
}

impl PartialEq for Item {
    fn eq(&self, other: &Item) -> (r: bool) {
        self.name == other.name && self.rarity == other.rarity && self.effect == other.effect
    }
}

impl vstd::std_specs::cmp::PartialEqSpecImpl for Item {
    open spec fn obeys_eq_spec() -> bool {
        true
    }

    open spec fn eq_spec(&self, other: &Item) -> bool {
        self.name@ == other.name@ && self.rarity == other.rarity && self.effect == other.effect
    }
}

/// A pool of items.
#[derive(Clone, Debug)]
pub struct Items {
    pub items: Vec<Item>,
}

/// Who an event of the narration is about.
#[derive(Clone, Copy, Debug, PartialEq, Eq, Structural)]
pub enum Side {
    Actor,
    Target,
}

/// One line of the narration of a skill use, in order of occurrence.
#[derive(Clone, Copy, Debug, PartialEq, Eq, Structural)]
pub enum Event {
    /// The variance drawn for a damage roll, in thousandths.
    Variance(u32),
    /// The actor's skill dealt this damage to the target, in thousandths.
    Damaged(u128),
    /// The target's hit points after the damage, in thousandths.
    RemainingHp(u32),
    /// The actor's skill failed.
    Missed,
    /// The actor healed this amount, in thousandths (before capping).
    Healed(u128),
    /// The target got a status it did not have.
    Afflicted(StatusKind),
    /// The target's status was prolonged.
    Prolonged(StatusKind),
    /// This side has no hit points left.
    Defeated(Side),
}

/// Why a combatant cannot be built from the given numbers.
#[derive(Clone, Copy, Debug, PartialEq, Eq, Structural)]
pub enum StatsError {
    /// Hit points above the maximum.
    HpAboveMax,
    /// Defence of zero, which would make damage undefined.
    ZeroDefence,
}

/// A participant in a battle: its name, level, numeric state and skills.
#[derive(Clone, Debug)]
pub struct Combatant {
    pub name: String,
    pub level: Level,
    pub vitals: Vitals,
    pub skills: Skills,
}

/// A pool of combatants.
#[derive(Clone, Debug)]
pub struct Characters {
    pub characters: Vec<Combatant>,
}

impl Combatant {
    /// A combatant with no active status. Fails when `hp > hp_max` or
    /// `defence == 0`.
    pub fn new(
        name: String,
        level: Level,
        hp: u32,
        hp_max: u32,
        attack: u32,
        defence: u32,
        skills: Skills,
    ) -> (r: Result<Combatant, StatsError>)
        ensures
            hp > hp_max ==> r == Err::<Combatant, StatsError>(StatsError::HpAboveMax),
            hp <= hp_max && defence == 0 ==> r == Err::<Combatant, StatsError>(StatsError::ZeroDefence),
            hp <= hp_max && defence > 0 ==> r is Ok && r->Ok_0.vitals == (Vitals {
                hp,
                hp_max,
                attack,
                defence,
                turns: StatusTurns::none_spec(),
            }) && r->Ok_0.name == name && r->Ok_0.level == level && r->Ok_0.skills == skills,
            r is Ok ==> r->Ok_0.vitals.wf(),
    {
        if hp > hp_max {
            return Err(StatsError::HpAboveMax);
        }
        if defence == 0 {
            return Err(StatsError::ZeroDefence);
        }
        let vitals = Vitals { hp, hp_max, attack, defence, turns: StatusTurns::none() };
        Ok(Combatant { name, level, vitals, skills })
    }

    pub fn hp(&self) -> (r: u32)
        ensures
            r == self.vitals.hp,
    {
        self.vitals.hp
    }

    pub fn hp_max(&self) -> (r: u32)
        ensures
            r == self.vitals.hp_max,
    {
        self.vitals.hp_max
    }

    pub fn turns(&self) -> (r: StatusTurns)
        ensures
            r == self.vitals.turns,
    {
        self.vitals.turns
    }

    /// Replaces the status timers.
    pub fn set_turns(&mut self, turns: StatusTurns)
        ensures
            final(self).vitals == (Vitals { turns, ..old(self).vitals }),
            final(self).name == old(self).name,
            final(self).level == old(self).level,
            final(self).skills == old(self).skills,
    {
        self.vitals.turns = turns;
    }

    /// Loses `value` hit points, stopping at zero, and returns `value`.
    pub fn hp_decrease(&mut self, value: u128) -> (r: u128)
        ensures
            r == value,
            final(self).vitals == (Vitals { hp: old(self).vitals.hp_after_loss(value as int), ..old(self).vitals }),
            final(self).name == old(self).name,
            final(self).level == old(self).level,
            final(self).skills == old(self).skills,
    {
        self.vitals.hp_decrease(value)
    }

    /// Gains `value` hit points, stopping at the maximum.
    pub fn hp_increase(&mut self, value: u128)
        requires
            old(self).vitals.hp <= old(self).vitals.hp_max,
        ensures
            final(self).vitals == (Vitals { hp: old(self).vitals.hp_after_gain(value as int), ..old(self).vitals }),
            final(self).name == old(self).name,
            final(self).level == old(self).level,
            final(self).skills == old(self).skills,
    {
        self.vitals.hp_increase(value)
    }

    /// Sets the hit points to `value`, stopping at the maximum.
    pub fn hp_set(&mut self, value: u32)
        ensures
            final(self).vitals == (Vitals {
                hp: if value <= old(self).vitals.hp_max { value } else { old(self).vitals.hp_max },
                ..old(self).vitals
            }),
            final(self).name == old(self).name,
            final(self).level == old(self).level,
            final(self).skills == old(self).skills,
    {
        if value <= self.vitals.hp_max {
            self.vitals.hp = value;
        } else {
            self.vitals.hp = self.vitals.hp_max;
        }
    }

    /// Attack as the battle reads it: halved while poisoned.
    pub fn attack(&self) -> (r: u32)
        ensures
            r == if self.vitals.turns.poisoned > 0 { self.vitals.attack / 2 } else { self.vitals.attack },
    {
        if self.vitals.turns.poisoned > 0 {
            return self.vitals.attack / 2;
        }
        self.vitals.attack
    }

    /// Defence as the battle reads it.
    pub fn defence(&self) -> (r: u32)
        ensures
            r == self.vitals.defence,
    {
        self.vitals.defence
    }
}

} // verus!
