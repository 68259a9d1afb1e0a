//! Properties of the battle rules that hold for all inputs, proved from the
//! specifications the executable code meets.
use vstd::prelude::*;
use crate::model::{Effect, Power, Probability, StatusKind, StatusTurns, Vitals};
use crate::status::{
    applied, falter_frost_gate, BLACKOUT_TURNS, BURN_TURNS, FEATHER_TURNS, POISON_TURNS,
};
use crate::resolver::{damage_of, hits, hurt, percent_rolls_needed, resolution, Draws};

verus! {

/// The timer of `kind` in `t`.
pub open spec fn turns_of(t: StatusTurns, kind: StatusKind) -> usize {
    match kind {
        StatusKind::Poisoned => t.poisoned,
        StatusKind::Burned => t.burned,
        StatusKind::Falter => t.falter,
        StatusKind::BlackOut => t.blackout,
        StatusKind::Frozen => t.frost,
        StatusKind::Feather => t.feather,
    }
}

/// Hit points after a sequence of changes, each a loss (negative) or a gain
/// (positive), each clamped to `0..=hp_max`.
pub open spec fn after_changes(v: Vitals, changes: Seq<int>) -> Vitals
    decreases changes.len(),
{
    if changes.len() == 0 {
        v
    } else {
        let prev = after_changes(v, changes.drop_last());
        let c = changes.last();
        if c < 0 {
            hurt(prev, -c)
        } else {
            Vitals { hp: prev.hp_after_gain(c), ..prev }
        }
    }
}

/// Any sequence of damage and healing keeps hit points within
/// `0..=hp_max`, after every single change.
pub proof fn hp_changes_stay_in_range(v: Vitals, changes: Seq<int>)
    requires
        v.wf(),
    ensures
        forall|n: int| 0 <= n <= changes.len() ==> (#[trigger] after_changes(v, changes.take(n))).wf(),
    decreases changes.len(),
{
    if changes.len() > 0 {
        let rest = changes.drop_last();
        hp_changes_stay_in_range(v, rest);
        assert(rest.take(rest.len() as int) =~= rest);
        assert(after_changes(v, rest.take(rest.len() as int)).wf());
        assert forall|n: int| 0 <= n <= changes.len() implies (#[trigger] after_changes(v, changes.take(n))).wf() by {
            if n < changes.len() {
                assert(changes.take(n) =~= rest.take(n));
            } else {
                assert(changes.take(n) =~= changes);
            }
        }
    }
}

/// A whole resolution keeps both combatants well formed: hit points stay
/// within `0..=hp_max`.
pub proof fn resolution_keeps_hp_in_range(effect: Effect, actor: Vitals, target: Option<Vitals>, d: Draws)
    requires
        actor.wf(),
        target is Some ==> target->Some_0.wf(),
    ensures
        resolution(effect, actor, target, d).0.wf(),
        resolution(effect, actor, target, d).1 is Some ==> resolution(effect, actor, target, d).1->Some_0.wf(),
{
}

/// Applying poison, burn or feather twice in a row leaves a longer timer
/// than one application's duration: applications stack rather than reset.
pub proof fn stacking_statuses_accumulate(t: StatusTurns, kind: StatusKind)
    requires
        kind is Poisoned || kind is Burned || kind is Feather,
    ensures
        turns_of(applied(applied(t, kind), kind), kind) > match kind {
            StatusKind::Poisoned => POISON_TURNS,
            StatusKind::Burned => BURN_TURNS,
            _ => FEATHER_TURNS,
        },
        turns_of(applied(applied(t, kind), kind), kind) >= turns_of(t, kind),
{
}

/// Falter, blackout and frost take effect only under their guard: blackout
/// only when not active, falter and frost only when the shared guard opens.
/// Otherwise, and in particular on a second application of blackout, the
/// timers stay as they were.
pub proof fn gated_statuses_apply_only_under_guard(t: StatusTurns, kind: StatusKind)
    requires
        kind is Falter || kind is BlackOut || kind is Frozen,
    ensures
        kind is BlackOut ==> (applied(t, kind) != t <==> t.blackout < 1),
        kind is BlackOut ==> applied(applied(t, kind), kind) == applied(t, kind),
        kind is BlackOut && t.blackout < 1 ==> applied(t, kind).blackout == BLACKOUT_TURNS,
        !(kind is BlackOut) ==> !falter_frost_gate(t) && applied(t, kind) == t,
{
}

/// A roll against 0 percent never succeeds.
pub proof fn zero_percent_never_hits(roll: u32)
    ensures
        !hits(roll, Probability { percentage: 0 }),
{
}

/// Every roll a `Dice` can make (below 100) succeeds against 100 percent.
pub proof fn full_percent_always_hits(roll: u32)
    requires
        roll < 100,
    ensures
        hits(roll, Probability { percentage: 100 }),
{
}

/// With the variance `d.variance`, an attack that hits deals exactly
/// `variance * power * attack / defence` (in thousandths, rounded down),
/// from the actor's attack and the target's defence, and the target loses
/// that much, stopping at zero.
pub proof fn attack_damage_follows_formula(p: Probability, power: Power, actor: Vitals, target: Vitals, d: Draws)
    requires
        hits(d.hit, p),
    ensures
        resolution(Effect::Attack(p, power), actor, Some(target), d).1 == Some(
            hurt(target, damage_of(d.variance, power, actor.attack, target.defence)),
        ),
{
}

/// When the attack roll of an attack that also inflicts a status fails, the
/// status roll is not made: one percent roll in all, and the outcome is the
/// same whatever the status draw would have been. When it succeeds, two
/// rolls are made.
pub proof fn status_roll_only_after_hit(
    p: Probability,
    power: Power,
    status_chance: Probability,
    kind: StatusKind,
    actor: Vitals,
    target: Option<Vitals>,
    d: Draws,
    other_status_hit: u32,
)
    ensures
        !hits(d.hit, p) ==> percent_rolls_needed(Effect::AttackAndAddSpecialStatusToEnemy(p, power, status_chance, kind), d) == 1,
        !hits(d.hit, p) ==> resolution(Effect::AttackAndAddSpecialStatusToEnemy(p, power, status_chance, kind), actor, target, d)
            == resolution(
            Effect::AttackAndAddSpecialStatusToEnemy(p, power, status_chance, kind),
            actor,
            target,
            Draws { status_hit: other_status_hit, ..d },
        ),
        hits(d.hit, p) ==> percent_rolls_needed(Effect::AttackAndAddSpecialStatusToEnemy(p, power, status_chance, kind), d) == 2,
{
}

} // verus!
