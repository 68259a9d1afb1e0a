//! Statuses as values with their own remaining turns, each with hooks run
//! before and after its owner acts and multipliers on attack and defence.
use vstd::prelude::*;
use crate::model::{Vitals, SCALE};
use crate::resolver::hurt;
use crate::status::{BURN_TURNS, POISON_TURNS};

verus! {

/// How many turns a status has left.
#[derive(Clone, Copy, Debug, PartialEq, Eq, Structural)]
pub struct ContinuousTurns {
    pub value: usize,
}

impl ContinuousTurns {
    pub fn new(value: usize) -> (r: ContinuousTurns)
        ensures
            r.value == value,
    {
        ContinuousTurns { value }
    }

    /// One turn less; there must be one left.
    pub fn decrement(&mut self)
        requires
            old(self).value > 0,
        ensures
            final(self).value == old(self).value - 1,
    {
        self.value = self.value - 1;
    }

    /// `amount` turns more.
    pub fn increase(&mut self, amount: usize)
        requires
            old(self).value + amount <= usize::MAX,
        ensures
            final(self).value == old(self).value + amount,
    {
        self.value = self.value + amount;
    }

    pub fn amount(&self) -> (r: usize)
        ensures
            r == self.value,
    {
        self.value
    }
}

/// Poison: a sixteenth of the maximum hit points lost after each action,
/// and attack halved.
#[derive(Clone, Copy, Debug, PartialEq, Eq, Structural)]
pub struct Poison {
    pub continuous_turns: ContinuousTurns,
}

impl Poison {
    /// Poison for its base duration, `POISON_TURNS`.
    pub fn new() -> (r: Poison)
        ensures
            r.continuous_turns.value == POISON_TURNS,
    {
        Poison { continuous_turns: ContinuousTurns::new(POISON_TURNS) }
    }
}

/// Burn: an eighth of the maximum hit points lost after each action.
#[derive(Clone, Copy, Debug, PartialEq, Eq, Structural)]
pub struct Burn {
    pub continuous_turns: ContinuousTurns,
}

impl Burn {
    /// Burn for its base duration, `BURN_TURNS`.
    pub fn new() -> (r: Burn)
        ensures
            r.continuous_turns.value == BURN_TURNS,
    {
        Burn { continuous_turns: ContinuousTurns::new(BURN_TURNS) }
    }
}

/// A status held by a combatant.
#[derive(Clone, Copy, Debug, PartialEq, Eq, Structural)]
pub enum SpecialStatus {
    Poison(Poison),
    Burn(Burn),
}

impl SpecialStatus {
    /// Turns left.
    pub open spec fn turns(self) -> usize {
        match self {
            SpecialStatus::Poison(p) => p.continuous_turns.value,
            SpecialStatus::Burn(b) => b.continuous_turns.value,
        }
    }

    /// Hit points lost by `target` after it acts.
    pub open spec fn tick(self, target: Vitals) -> int {
        match self {
            SpecialStatus::Poison(_) => target.hp_max as int / 16,
            SpecialStatus::Burn(_) => target.hp_max as int / 8,
        }
    }

    /// The status with one turn less.
    pub open spec fn spent(self) -> SpecialStatus {
        match self {
            SpecialStatus::Poison(p) => SpecialStatus::Poison(
                Poison { continuous_turns: ContinuousTurns { value: (p.continuous_turns.value - 1) as usize } },
            ),
            SpecialStatus::Burn(b) => SpecialStatus::Burn(
                Burn { continuous_turns: ContinuousTurns { value: (b.continuous_turns.value - 1) as usize } },
            ),
        }
    }

    /// Attack multiplier, in thousandths.
    pub open spec fn attack_rank_spec(self) -> u32 {
        match self {
            SpecialStatus::Poison(_) => 500,
            SpecialStatus::Burn(_) => 1000,
        }
    }

    /// Nothing happens before the owner acts.
    pub fn effect_before_skill(&mut self, target: &mut Vitals)
        ensures
            *final(self) == *old(self),
            *final(target) == *old(target),
    {
    }

    /// After the owner acts: it loses its tick of hit points and the status
    /// loses a turn.
    pub fn effect_after_skill(&mut self, target: &mut Vitals)
        requires
            old(self).turns() > 0,
        ensures
            *final(target) == hurt(*old(target), old(self).tick(*old(target))),
            *final(self) == old(self).spent(),
    {
        match self {
            SpecialStatus::Poison(p) => {
                let hp_max = target.hp_max;
                target.hp_decrease((hp_max / 16) as u128);
                p.continuous_turns.decrement();
            },
            SpecialStatus::Burn(b) => {
                let hp_max = target.hp_max;
                target.hp_decrease((hp_max / 8) as u128);
                b.continuous_turns.decrement();
            },
        }
    }

    /// Attack multiplier, in thousandths: poison halves attack.
    pub fn attack_rank(&self) -> (r: u32)
        ensures
            r == self.attack_rank_spec(),
    {
        match self {
            SpecialStatus::Poison(_) => 500,
            SpecialStatus::Burn(_) => 1000,
        }
    }

    /// Defence multiplier, in thousandths: unchanged by either status.
    pub fn defence_rank(&self) -> (r: u32)
        ensures
            r == SCALE,
    {
        match self {
            SpecialStatus::Poison(_) => 1000,
            SpecialStatus::Burn(_) => 1000,
        }
    }
}

/// The statuses a combatant holds.
#[derive(Clone, Debug)]
pub struct SpecialStatuses {
    pub special_statuses: Vec<SpecialStatus>,
}

/// `target` after every status of `s` ticked, in order.
pub open spec fn after_ticks(target: Vitals, s: Seq<SpecialStatus>) -> Vitals
    decreases s.len(),
{
    if s.len() == 0 {
        target
    } else {
        let prev = after_ticks(target, s.drop_last());
        hurt(prev, s.last().tick(prev))
    }
}

/// Product of the attack multipliers of `s`, in thousandths, rounding down
/// after each factor.
pub open spec fn attack_rank_of(s: Seq<SpecialStatus>) -> int
    decreases s.len(),
{
    if s.len() == 0 {
        SCALE as int
    } else {
        attack_rank_of(s.drop_last()) * s.last().attack_rank_spec() / SCALE as int
    }
}

impl SpecialStatuses {
    /// Runs every status's hook before the owner acts; none changes anything.
    pub fn effect_before_skill(&mut self, target: &mut Vitals)
        ensures
            final(self).special_statuses@ == old(self).special_statuses@,
            *final(target) == *old(target),
    {
        let mut i: usize = 0;
        while i < self.special_statuses.len()
            invariant
                0 <= i <= self.special_statuses@.len(),
                self.special_statuses@ == old(self).special_statuses@,
                *target == *old(target),
            decreases self.special_statuses@.len() - i,
        {
            let mut s = self.special_statuses[i];
            s.effect_before_skill(target);
            i = i + 1;
        }
    }

    /// Runs every status's hook after the owner acts, in order: each takes
    /// its tick of hit points and loses a turn. Every status must have a
    /// turn left.
    pub fn effect_after_skill(&mut self, target: &mut Vitals)
        requires
            forall|i: int| 0 <= i < old(self).special_statuses@.len() ==> (#[trigger] old(self).special_statuses@[i]).turns() > 0,
        ensures
            *final(target) == after_ticks(*old(target), old(self).special_statuses@),
            final(self).special_statuses@ == old(self).special_statuses@.map_values(|s: SpecialStatus| s.spent()),
    {
        let ghost s0 = self.special_statuses@;
        let mut i: usize = 0;
        while i < self.special_statuses.len()
            invariant
                0 <= i <= s0.len(),
                self.special_statuses@.len() == s0.len(),
                forall|j: int| 0 <= j < s0.len() ==> (#[trigger] s0[j]).turns() > 0,
                forall|j: int| 0 <= j < i ==> #[trigger] self.special_statuses@[j] == s0[j].spent(),
                forall|j: int| i <= j < s0.len() ==> #[trigger] self.special_statuses@[j] == s0[j],
                *target == after_ticks(*old(target), s0.take(i as int)),
            decreases s0.len() - i,
        {
            let mut s = self.special_statuses[i];
            s.effect_after_skill(target);
            self.special_statuses.set(i, s);
            i = i + 1;
            assert(s0.take(i as int).drop_last() =~= s0.take(i - 1));
        }
        assert(s0.take(i as int) =~= s0);
        assert(self.special_statuses@ =~= s0.map_values(|s: SpecialStatus| s.spent()));
    }

    /// Attack multiplier of all statuses together, in thousandths.
    pub fn attack_rank(&self) -> (r: u32)
        ensures
            r == attack_rank_of(self.special_statuses@),
    {
        let mut rank: u32 = 1000;
        let mut i: usize = 0;
        while i < self.special_statuses.len()
            invariant
                0 <= i <= self.special_statuses@.len(),
                rank <= 1000,
                rank == attack_rank_of(self.special_statuses@.take(i as int)),
            decreases self.special_statuses@.len() - i,
        {
            let f = self.special_statuses[i].attack_rank();
            assert(rank * f <= 1000 * 1000) by (nonlinear_arith)
                requires rank <= 1000, f <= 1000;
            assert(rank * f / 1000 <= 1000) by (nonlinear_arith)
                requires rank * f <= 1000 * 1000;
            rank = rank * f / 1000;
            i = i + 1;
            assert(self.special_statuses@.take(i as int).drop_last() =~= self.special_statuses@.take(i - 1));
        }
        assert(self.special_statuses@.take(i as int) =~= self.special_statuses@);
        rank
    }

    /// Defence multiplier of all statuses together, in thousandths: no
    /// status changes defence, so it is always one.
    pub fn defence_rank(&self) -> (r: u32)
        ensures
            r == SCALE,
    {
        let mut rank: u32 = 1000;
        let mut i: usize = 0;
        while i < self.special_statuses.len()
            invariant
                0 <= i <= self.special_statuses@.len(),
                rank == 1000,
            decreases self.special_statuses@.len() - i,
        {
            let f = self.special_statuses[i].defence_rank();
            rank = rank * f / 1000;
            i = i + 1;
        }
        rank
    }
}

} // verus!
