//! Resolution of one skill use: status aging, the effect itself, defeat
//! checks and status damage, with the narration of what happened.
use vstd::prelude::*;
use crate::model::{Combatant, Effect, Event, Power, Probability, Ratio, Side, Skill, Vitals, SCALE};
use crate::status::{applied, application_note};
use crate::dice::{Dice, VARIANCE_MAX, VARIANCE_MIN};

verus! {

/// The random draws one resolution may use. `hit` decides the first roll of
/// an effect, `status_hit` the status roll of an attack that also inflicts a
/// status, and `variance` scales damage or healing, in thousandths.
#[derive(Clone, Copy, Debug, PartialEq, Eq, Structural)]
pub struct Draws {
    pub hit: u32,
    pub variance: u32,
    pub status_hit: u32,
}

/// What one resolution reports: the narration in order, whether the target
/// was defeated (the battle ends), and whether the actor was.
#[derive(Clone, Debug)]
pub struct Outcome {
    pub events: Vec<Event>,
    pub battle_ended: bool,
    pub actor_defeated: bool,
}

/// Why a skill use could not be resolved.
#[derive(Clone, Copy, Debug, PartialEq, Eq, Structural)]
pub enum ResolveError {
    /// The effect acts on a target and none was given.
    MissingTarget,
}

/// A roll succeeds when it is strictly below the percentage.
pub open spec fn hits(roll: u32, p: Probability) -> bool {
    roll < p.percentage
}

/// Damage in thousandths: `variance * power * attack / defence` with every
/// factor in thousandths, rounded down.
pub open spec fn damage_of(variance: u32, power: Power, attack: u32, defence: u32) -> int {
    (variance as int * power.value as int * attack as int) / (SCALE as int * defence as int)
}

/// Healing in thousandths: `hp_max * ratio * variance` with every factor in
/// thousandths, rounded down.
pub open spec fn heal_of(hp_max: u32, ratio: Ratio, variance: u32) -> int {
    (hp_max as int * ratio.percentage as int * variance as int) / (SCALE as int * SCALE as int)
}

/// `v` after losing `value` hit points.
pub open spec fn hurt(v: Vitals, value: int) -> Vitals {
    Vitals { hp: v.hp_after_loss(value), ..v }
}

/// `v` after `kind` is applied to it.
pub open spec fn afflict(v: Vitals, kind: crate::model::StatusKind) -> Vitals {
    Vitals { turns: applied(v.turns, kind), ..v }
}

/// The note of an application, as a narration of zero or one line.
pub open spec fn note_seq(note: Option<Event>) -> Seq<Event> {
    match note {
        Some(e) => seq![e],
        None => Seq::empty(),
    }
}

/// The effect itself, on the actor `a` (already aged) and target `t`:
/// the new actor, the new target and the narration.
pub open spec fn effect_phase(effect: Effect, a: Vitals, t: Vitals, d: Draws) -> (Vitals, Vitals, Seq<Event>) {
    match effect {
        Effect::Attack(p, power) => if hits(d.hit, p) {
            let dmg = damage_of(d.variance, power, a.attack, t.defence);
            let t1 = hurt(t, dmg);
            let lines = seq![Event::Variance(d.variance), Event::Damaged(dmg as u128), Event::RemainingHp(t1.hp)];
            (a, t1, if t1.hp == 0 { lines.push(Event::Defeated(Side::Target)) } else { lines })
        } else {
            (a, t, seq![Event::Missed])
        },
        Effect::Heal(ratio) => {
            let h = heal_of(a.hp_max, ratio, d.variance);
            (Vitals { hp: a.hp_after_gain(h), ..a }, t, seq![Event::Healed(h as u128)])
        },
        Effect::AddSpecialStatusToEnemy(p, kind) => if hits(d.hit, p) {
            (a, afflict(t, kind), note_seq(application_note(t.turns, kind)))
        } else {
            (a, t, Seq::empty())
        },
        Effect::AttackAndAddSpecialStatusToEnemy(p, power, status_chance, kind) => if hits(d.hit, p) {
            let dmg = damage_of(d.variance, power, a.attack, t.defence);
            let t1 = hurt(t, dmg);
            let lines = seq![Event::Variance(d.variance), Event::Damaged(dmg as u128)];
            if hits(d.status_hit, status_chance) {
                (a, afflict(t1, kind), lines + note_seq(application_note(t1.turns, kind)))
            } else {
                (a, t1, lines)
            }
        } else {
            (a, t, Seq::empty())
        },
    }
}

/// The whole resolution of `effect` by `actor` against `target` with the
/// draws `d`: the new actor, the new target, the narration, whether the
/// battle ended and whether the actor was defeated.
///
/// In order: the actor's statuses age; the effect happens; a target with no
/// hit points left is reported defeated (an attack that reports a defeat
/// itself is then reported twice); the actor takes its status damage; an
/// actor with no hit points left is reported defeated.
pub open spec fn resolution(effect: Effect, actor: Vitals, target: Option<Vitals>, d: Draws) -> (
    Vitals,
    Option<Vitals>,
    Seq<Event>,
    bool,
    bool,
) {
    let a0 = Vitals { turns: actor.turns.aged(), ..actor };
    let t0 = match target {
        Some(t) => t,
        None => a0,
    };
    let (a1, t1, lines) = effect_phase(effect, a0, t0, d);
    let ended = target is Some && t1.hp == 0;
    let lines2 = if ended { lines.push(Event::Defeated(Side::Target)) } else { lines };
    let a2 = a1.after_turn();
    let fallen = a2.hp == 0;
    let lines3 = if fallen { lines2.push(Event::Defeated(Side::Actor)) } else { lines2 };
    (a2, if target is Some { Some(t1) } else { None }, lines3, ended, fallen)
}

/// The numeric state of an optional combatant.
pub open spec fn vitals_of(c: Option<Combatant>) -> Option<Vitals> {
    match c {
        Some(x) => Some(x.vitals),
        None => None,
    }
}

/// A product of three 32-bit factors fits in 96 bits.
proof fn lemma_product_fits(x: int, y: int, z: int)
    requires
        0 <= x <= u32::MAX,
        0 <= y <= u32::MAX,
        0 <= z <= u32::MAX,
    ensures
        0 <= x * y <= 0x1_0000_0000_0000_0000,
        0 <= x * y * z <= 0x1_0000_0000_0000_0000_0000_0000,
{
    assert(0 <= x * y <= 0x1_0000_0000_0000_0000) by (nonlinear_arith)
        requires 0 <= x <= u32::MAX, 0 <= y <= u32::MAX;
    assert(0 <= x * y * z <= 0x1_0000_0000_0000_0000_0000_0000) by (nonlinear_arith)
        requires 0 <= x * y <= 0x1_0000_0000_0000_0000, 0 <= z <= u32::MAX;
}

/// The damage of `power` from an attacker with `attack` against `defence`.
pub fn damage(variance: u32, power: Power, attack: u32, defence: u32) -> (r: u128)
    requires
        defence > 0,
    ensures
        r == damage_of(variance, power, attack, defence),
{
    proof {
        lemma_product_fits(variance as int, power.value as int, attack as int);
        lemma_product_fits(SCALE as int, defence as int, 1);
    }
    let num: u128 = variance as u128 * power.value as u128 * attack as u128;
    let den: u128 = SCALE as u128 * defence as u128;
    num / den
}

/// The healing of `ratio` for a combatant with `hp_max`.
pub fn heal_amount(hp_max: u32, ratio: Ratio, variance: u32) -> (r: u128)
    ensures
        r == heal_of(hp_max, ratio, variance),
{
    proof {
        lemma_product_fits(hp_max as int, ratio.percentage as int, variance as int);
    }
    let num: u128 = hp_max as u128 * ratio.percentage as u128 * variance as u128;
    let den: u128 = SCALE as u128 * SCALE as u128;
    num / den
}

/// Applies `kind` to `t` and appends its narration to `events`.
fn afflict_exec(t: &mut Vitals, kind: crate::model::StatusKind, events: &mut Vec<Event>)
    ensures
        *final(t) == afflict(*old(t), kind),
        final(events)@ == old(events)@ + note_seq(application_note(old(t).turns, kind)),
{
    let note = t.turns.apply(kind);
    match note {
        Some(e) => events.push(e),
        None => {},
    }
}

/// The effect itself; see `effect_phase`.
pub fn apply_effect(effect: Effect, a: &mut Vitals, t: &mut Vitals, d: Draws, events: &mut Vec<Event>)
    requires
        old(a).wf(),
        old(t).wf(),
    ensures
        (*final(a), *final(t), final(events)@.skip(old(events)@.len() as int)) == effect_phase(effect, *old(a), *old(t), d),
        final(events)@.take(old(events)@.len() as int) == old(events)@,
{
    let ghost e0 = events@;
    match effect {
        Effect::Attack(p, power) => {
            if d.hit < p.percentage {
                let dmg = damage(d.variance, power, a.attack, t.defence);
                t.hp_decrease(dmg);
                events.push(Event::Variance(d.variance));
                events.push(Event::Damaged(dmg));
                events.push(Event::RemainingHp(t.hp));
                if t.hp == 0 {
                    events.push(Event::Defeated(Side::Target));
                }
            } else {
                events.push(Event::Missed);
            }
        },
        Effect::Heal(ratio) => {
            let h = heal_amount(a.hp_max, ratio, d.variance);
            a.hp_increase(h);
            events.push(Event::Healed(h));
        },
        Effect::AddSpecialStatusToEnemy(p, kind) => {
            if d.hit < p.percentage {
                afflict_exec(t, kind, events);
            }
        },
        Effect::AttackAndAddSpecialStatusToEnemy(p, power, status_chance, kind) => {
            if d.hit < p.percentage {
                let dmg = damage(d.variance, power, a.attack, t.defence);
                t.hp_decrease(dmg);
                events.push(Event::Variance(d.variance));
                events.push(Event::Damaged(dmg));
                if d.status_hit < status_chance.percentage {
                    afflict_exec(t, kind, events);
                }
            }
        },
    }
    proof {
        let (ea, et, el) = effect_phase(effect, *old(a), *old(t), d);
        assert(events@.skip(e0.len() as int) =~= el);
        assert(events@.take(e0.len() as int) =~= e0);
    }
}

/// Everything of a combatant but its numeric state is the same in `c1` and `c2`.
pub open spec fn same_identity(c1: Combatant, c2: Combatant) -> bool {
    c1.name == c2.name && c1.level == c2.level && c1.skills == c2.skills
}

/// The same combatants are present before and after, with the same identity.
pub open spec fn same_identities(t1: Option<Combatant>, t2: Option<Combatant>) -> bool {
    match (t1, t2) {
        (Some(x), Some(y)) => same_identity(x, y),
        (None, None) => true,
        _ => false,
    }
}

/// The actor, target and outcome after a use of `effect` are those of
/// `resolution` with the draws `d`.
pub open spec fn resolved_as(
    effect: Effect,
    actor: Combatant,
    target: Option<Combatant>,
    d: Draws,
    actor_after: Combatant,
    target_after: Option<Combatant>,
    outcome: Outcome,
) -> bool {
    let (a, t, lines, ended, fallen) = resolution(effect, actor.vitals, vitals_of(target), d);
    &&& actor_after.vitals == a
    &&& vitals_of(target_after) == t
    &&& outcome.events@ == lines
    &&& outcome.battle_ended == ended
    &&& outcome.actor_defeated == fallen
    &&& same_identity(actor, actor_after)
    &&& same_identities(target, target_after)
}

/// A use of `effect` lacks the target it needs.
pub open spec fn lacks_target(effect: Effect, target: Option<Combatant>) -> bool {
    effect.needs_target() && target is None
}

/// Resolves one use of `skill` by `actor` against `target` with the given
/// draws. Fails, changing nothing, when the effect needs a target and none
/// is given.
pub fn resolve_with_draws(
    skill: &Skill,
    actor: &mut Combatant,
    target: &mut Option<Combatant>,
    draws: Draws,
) -> (r: Result<Outcome, ResolveError>)
    requires
        old(actor).vitals.wf(),
        *old(target) is Some ==> old(target)->Some_0.vitals.wf(),
    ensures
        lacks_target(skill.effect, *old(target)) ==> r == Err::<Outcome, ResolveError>(
            ResolveError::MissingTarget,
        ) && *final(actor) == *old(actor) && *final(target) == *old(target),
        !lacks_target(skill.effect, *old(target)) ==> r is Ok && resolved_as(
            skill.effect,
            *old(actor),
            *old(target),
            draws,
            *final(actor),
            *final(target),
            r->Ok_0,
        ),
{
    let effect = skill.effect;
    let needs_target = match effect {
        Effect::Heal(_) => false,
        _ => true,
    };
    let has_target = target.is_some();
    if needs_target && !has_target {
        return Err(ResolveError::MissingTarget);
    }
    let mut a = actor.vitals;
    a.effect_before_skill();
    let mut t = match target {
        Some(c) => c.vitals,
        None => a,
    };
    let mut events: Vec<Event> = Vec::new();
    apply_effect(effect, &mut a, &mut t, draws, &mut events);
    let battle_ended = has_target && t.hp == 0;
    if battle_ended {
        events.push(Event::Defeated(Side::Target));
    }
    a.effect_after_skill();
    let actor_defeated = a.hp == 0;
    if actor_defeated {
        events.push(Event::Defeated(Side::Actor));
    }
    actor.vitals = a;
    match target {
        Some(c) => {
            c.vitals = t;
        },
        None => {},
    }
    proof {
        assert(events@ =~= resolution(effect, old(actor).vitals, vitals_of(*old(target)), draws).2);
    }
    Ok(Outcome { events, battle_ended, actor_defeated })
}

/// Percent rolls a use of `effect` makes with draws `d`: one for every
/// effect but healing, and a second for the status of an attack that hit.
pub open spec fn percent_rolls_needed(effect: Effect, d: Draws) -> nat {
    match effect {
        Effect::Attack(_, _) => 1,
        Effect::Heal(_) => 0,
        Effect::AddSpecialStatusToEnemy(_, _) => 1,
        Effect::AttackAndAddSpecialStatusToEnemy(p, _, _, _) => if hits(d.hit, p) { 2 } else { 1 },
    }
}

/// Variance draws a use of `effect` makes with draws `d`: one for healing
/// and one for each attack that hits.
pub open spec fn variance_rolls_needed(effect: Effect, d: Draws) -> nat {
    match effect {
        Effect::Attack(p, _) => if hits(d.hit, p) { 1 } else { 0 },
        Effect::Heal(_) => 1,
        Effect::AddSpecialStatusToEnemy(_, _) => 0,
        Effect::AttackAndAddSpecialStatusToEnemy(p, _, _, _) => if hits(d.hit, p) { 1 } else { 0 },
    }
}

/// Draws that a `Dice` can produce.
pub open spec fn draws_in_range(d: Draws) -> bool {
    d.hit < 100 && d.status_hit < 100 && VARIANCE_MIN <= d.variance <= VARIANCE_MAX
}

/// Resolves one use of `skill` by `actor` against `target`, drawing from
/// `dice` only what the effect needs: a percent roll for every effect but
/// healing, a variance draw for healing and for each attack that hits, and a
/// second percent roll for the status of an attack that hit. Fails,
/// changing nothing and drawing nothing, when the effect needs a target and
/// none is given.
pub fn resolve<D: Dice>(
    skill: &Skill,
    actor: &mut Combatant,
    target: &mut Option<Combatant>,
    dice: &mut D,
) -> (r: Result<Outcome, ResolveError>)
    requires
        old(actor).vitals.wf(),
        *old(target) is Some ==> old(target)->Some_0.vitals.wf(),
        old(dice).wf(),
    ensures
        final(dice).wf(),
        lacks_target(skill.effect, *old(target)) ==> r == Err::<Outcome, ResolveError>(
            ResolveError::MissingTarget,
        ) && *final(actor) == *old(actor) && *final(target) == *old(target)
            && final(dice).percent_rolls() == old(dice).percent_rolls()
            && final(dice).variance_rolls() == old(dice).variance_rolls(),
        !lacks_target(skill.effect, *old(target)) ==> r is Ok && exists|d: Draws|
            #![trigger resolved_as(skill.effect, *old(actor), *old(target), d, *final(actor), *final(target), r->Ok_0)]
            draws_in_range(d) && resolved_as(
                skill.effect,
                *old(actor),
                *old(target),
                d,
                *final(actor),
                *final(target),
                r->Ok_0,
            ) && final(dice).percent_rolls() == old(dice).percent_rolls() + percent_rolls_needed(skill.effect, d)
                && final(dice).variance_rolls() == old(dice).variance_rolls() + variance_rolls_needed(skill.effect, d),
{
    let effect = skill.effect;
    let needs_target = match effect {
        Effect::Heal(_) => false,
        _ => true,
    };
    if needs_target && target.is_none() {
        return Err(ResolveError::MissingTarget);
    }
    let mut draws = Draws { hit: 0, variance: VARIANCE_MIN, status_hit: 0 };
    match effect {
        Effect::Attack(p, _) => {
            draws.hit = dice.roll_percent();
            if draws.hit < p.percentage {
                draws.variance = dice.roll_variance();
            }
        },
        Effect::Heal(_) => {
            draws.variance = dice.roll_variance();
        },
        Effect::AddSpecialStatusToEnemy(_, _) => {
            draws.hit = dice.roll_percent();
        },
        Effect::AttackAndAddSpecialStatusToEnemy(p, _, _, _) => {
            draws.hit = dice.roll_percent();
            if draws.hit < p.percentage {
                draws.variance = dice.roll_variance();
                draws.status_hit = dice.roll_percent();
            }
        },
    }
    let r = resolve_with_draws(skill, actor, target, draws);
    proof {
        assert(draws_in_range(draws));
    }
    r
}

} // verus!
