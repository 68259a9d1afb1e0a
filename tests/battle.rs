use rustern_battle::dice::{Dice, ScriptedDice, ThreadDice, VARIANCE_MAX, VARIANCE_MIN};
use rustern_battle::model::{
    Combatant, Effect, Event, Level, Power, Probability, Ratio, Side, Skill, Skills, StatsError,
    StatusKind, StatusTurns,
};
use rustern_battle::resolver::{damage, heal_amount, resolve, resolve_with_draws, Draws, ResolveError};

fn fighter(name: &str, hp: u32, hp_max: u32, attack: u32, defence: u32) -> Combatant {
    Combatant::new(name.to_string(), Level::new(1), hp, hp_max, attack, defence, Skills { skills: vec![] })
        .unwrap()
}

fn skill(effect: Effect) -> Skill {
    Skill { name: "わざ".to_string(), rarity: rustern_battle::model::Rarity::new(1), effect }
}

fn sure_attack() -> Skill {
    skill(Effect::Attack(Probability { percentage: 100 }, Power { value: 2000 }))
}

fn count_defeats(events: &[Event], side: Side) -> usize {
    events.iter().filter(|e| **e == Event::Defeated(side)).count()
}

#[test]
fn attack_scenario_damages_without_defeat() {
    let mut actor = fighter("ゆうしゃ", 100_000, 100_000, 10_000, 5_000);
    let mut target = Some(fighter("スライム", 10_000, 10_000, 1_000, 5_000));
    let mut dice = ScriptedDice::new(vec![0], vec![1000]).unwrap();
    let out = resolve(&sure_attack(), &mut actor, &mut target, &mut dice).unwrap();
    assert_eq!(target.as_ref().unwrap().hp(), 6_000);
    assert_eq!(out.events, vec![Event::Variance(1000), Event::Damaged(4_000), Event::RemainingHp(6_000)]);
    assert!(!out.battle_ended);
    assert!(!out.actor_defeated);
    assert_eq!(count_defeats(&out.events, Side::Target), 0);
}

#[test]
fn attack_scenario_clamps_and_ends_battle() {
    let mut actor = fighter("ゆうしゃ", 100_000, 100_000, 10_000, 5_000);
    let mut target = Some(fighter("スライム", 3_000, 10_000, 1_000, 5_000));
    let mut dice = ScriptedDice::new(vec![0], vec![1000]).unwrap();
    let out = resolve(&sure_attack(), &mut actor, &mut target, &mut dice).unwrap();
    assert_eq!(target.as_ref().unwrap().hp(), 0);
    assert!(out.battle_ended);
    // The attack reports the defeat itself and the end-of-turn check reports it again.
    assert_eq!(count_defeats(&out.events, Side::Target), 2);
    assert_eq!(
        out.events,
        vec![
            Event::Variance(1000),
            Event::Damaged(4_000),
            Event::RemainingHp(0),
            Event::Defeated(Side::Target),
            Event::Defeated(Side::Target),
        ]
    );
}

#[test]
fn heal_scenario_and_cap() {
    let heal = skill(Effect::Heal(Ratio { percentage: 100 }));
    let mut actor = fighter("ゆうしゃ", 50_000, 100_000, 5_000, 5_000);
    let mut none: Option<Combatant> = None;
    let out = resolve_with_draws(&heal, &mut actor, &mut none, Draws { hit: 0, variance: 1000, status_hit: 0 }).unwrap();
    assert_eq!(out.events, vec![Event::Healed(10_000)]);
    assert_eq!(actor.hp(), 60_000);

    let mut actor = fighter("ゆうしゃ", 95_000, 100_000, 5_000, 5_000);
    let out = resolve_with_draws(&heal, &mut actor, &mut none, Draws { hit: 0, variance: 1000, status_hit: 0 }).unwrap();
    assert_eq!(out.events, vec![Event::Healed(10_000)]);
    assert_eq!(actor.hp(), 100_000);
}

#[test]
fn damage_formula_is_exact() {
    // 1.1 * 1.5 * 12 / 4 = 4.95
    assert_eq!(damage(1100, Power { value: 1500 }, 12_000, 4_000), 4_950);
    // 1.2 * 2.0 * 10 / 5 = 4.8
    assert_eq!(damage(1200, Power { value: 2000 }, 10_000, 5_000), 4_800);
    // 1.0 * 1.0 * 1 / 3 = 0.333..., rounded down in thousandths
    assert_eq!(damage(1000, Power { value: 1000 }, 1_000, 3_000), 333);
    // 100 * 0.25 * 1.1 = 27.5
    assert_eq!(heal_amount(100_000, Ratio { percentage: 250 }, 1100), 27_500);
}

#[test]
fn attack_uses_drawn_variance() {
    let mut actor = fighter("ゆうしゃ", 100_000, 100_000, 10_000, 5_000);
    let mut target = Some(fighter("スライム", 100_000, 100_000, 1_000, 5_000));
    let out = resolve_with_draws(&sure_attack(), &mut actor, &mut target, Draws { hit: 99, variance: 1150, status_hit: 0 })
        .unwrap();
    assert_eq!(out.events[1], Event::Damaged(4_600));
    assert_eq!(target.unwrap().hp(), 95_400);
}

#[test]
fn zero_percent_never_hits_and_full_always_hits() {
    let never = skill(Effect::Attack(Probability { percentage: 0 }, Power { value: 1000 }));
    let mut dice = ThreadDice::new();
    for _ in 0..500 {
        let mut actor = fighter("ゆうしゃ", 100_000, 100_000, 10_000, 5_000);
        let mut target = Some(fighter("スライム", 100_000, 100_000, 1_000, 5_000));
        let out = resolve(&never, &mut actor, &mut target, &mut dice).unwrap();
        assert_eq!(out.events, vec![Event::Missed]);
        assert_eq!(target.unwrap().hp(), 100_000);

        let mut target = Some(fighter("スライム", 100_000, 100_000, 1_000, 5_000));
        let out = resolve(&sure_attack(), &mut actor, &mut target, &mut dice).unwrap();
        assert!(matches!(out.events[1], Event::Damaged(_)));
        assert!(target.unwrap().hp() < 100_000);
    }
    let mut scripted = ScriptedDice::new((0..100).collect(), vec![1000]).unwrap();
    for _ in 0..100 {
        let mut actor = fighter("ゆうしゃ", 100_000, 100_000, 10_000, 5_000);
        let mut target = Some(fighter("スライム", 100_000, 100_000, 1_000, 5_000));
        let out = resolve(&never, &mut actor, &mut target, &mut scripted).unwrap();
        assert_eq!(out.events, vec![Event::Missed]);
    }
}

#[test]
fn thread_dice_draws_stay_in_range() {
    let mut dice = ThreadDice::new();
    let mut seen_high_percent = false;
    for _ in 0..2000 {
        let p = dice.roll_percent();
        assert!(p < 100);
        if p > 0 {
            seen_high_percent = true;
        }
        let v = dice.roll_variance();
        assert!((VARIANCE_MIN..=VARIANCE_MAX).contains(&v));
    }
    assert!(seen_high_percent);
}

#[test]
fn status_roll_skipped_when_attack_misses() {
    let combo = skill(Effect::AttackAndAddSpecialStatusToEnemy(
        Probability { percentage: 50 },
        Power { value: 1000 },
        Probability { percentage: 100 },
        StatusKind::Poisoned,
    ));
    let mut actor = fighter("ゆうしゃ", 100_000, 100_000, 10_000, 5_000);
    let mut target = Some(fighter("スライム", 100_000, 100_000, 1_000, 5_000));
    let mut miss = ScriptedDice::new(vec![70], vec![1000]).unwrap();
    let out = resolve(&combo, &mut actor, &mut target, &mut miss).unwrap();
    assert_eq!(miss.percent_calls(), 1);
    assert_eq!(miss.variance_calls(), 0);
    assert!(out.events.is_empty());
    assert_eq!(target.as_ref().unwrap().turns().poisoned, 0);

    let mut hit = ScriptedDice::new(vec![10, 20], vec![1000]).unwrap();
    let out = resolve(&combo, &mut actor, &mut target, &mut hit).unwrap();
    assert_eq!(hit.percent_calls(), 2);
    assert_eq!(hit.variance_calls(), 1);
    assert_eq!(out.events, vec![Event::Variance(1000), Event::Damaged(2_000), Event::Afflicted(StatusKind::Poisoned)]);
    assert_eq!(target.unwrap().turns().poisoned, 18);
}

#[test]
fn status_application_stacks_and_gates() {
    let mut t = StatusTurns::none();
    assert_eq!(t.apply(StatusKind::Poisoned), Some(Event::Afflicted(StatusKind::Poisoned)));
    assert_eq!(t.apply(StatusKind::Poisoned), Some(Event::Prolonged(StatusKind::Poisoned)));
    assert_eq!(t.poisoned, 36);
    t.apply(StatusKind::Burned);
    t.apply(StatusKind::Burned);
    assert_eq!(t.burned, 16);
    assert_eq!(t.apply(StatusKind::Feather), Some(Event::Afflicted(StatusKind::Feather)));
    assert_eq!(t.apply(StatusKind::Feather), Some(Event::Prolonged(StatusKind::Feather)));
    assert_eq!(t.feather, 10);
    assert_eq!(t.apply(StatusKind::BlackOut), Some(Event::Afflicted(StatusKind::BlackOut)));
    assert_eq!(t.apply(StatusKind::BlackOut), None);
    assert_eq!(t.blackout, 2);
    // The falter/frost guard asks for a negative frost counter, so it never opens.
    assert_eq!(t.apply(StatusKind::Falter), None);
    assert_eq!(t.apply(StatusKind::Frozen), None);
    assert_eq!(t.falter, 0);
    assert_eq!(t.frost, 0);
}

#[test]
fn statuses_age_and_tick_around_the_action() {
    let mut actor = fighter("ゆうしゃ", 100_000, 100_000, 10_000, 5_000);
    actor.set_turns(StatusTurns { poisoned: 2, burned: 1, falter: 1, blackout: 3, frost: 2, feather: 4 });
    let mut target = Some(fighter("スライム", 100_000, 100_000, 1_000, 5_000));
    let miss = skill(Effect::AddSpecialStatusToEnemy(Probability { percentage: 0 }, StatusKind::Burned));
    let out = resolve_with_draws(&miss, &mut actor, &mut target, Draws { hit: 0, variance: 1000, status_hit: 0 }).unwrap();
    assert!(out.events.is_empty());
    assert_eq!(actor.turns(), StatusTurns { poisoned: 1, burned: 0, falter: 0, blackout: 2, frost: 2, feather: 4 });
    // Still poisoned after aging: a sixteenth of 100 is lost; the burn has run out.
    assert_eq!(actor.hp(), 93_750);
}

#[test]
fn status_damage_can_defeat_the_actor() {
    let mut actor = fighter("ゆうしゃ", 5_000, 80_000, 10_000, 5_000);
    actor.set_turns(StatusTurns { poisoned: 3, burned: 3, falter: 0, blackout: 0, frost: 0, feather: 0 });
    let mut target = Some(fighter("スライム", 100_000, 100_000, 1_000, 5_000));
    let never = skill(Effect::Attack(Probability { percentage: 0 }, Power { value: 1000 }));
    let out = resolve_with_draws(&never, &mut actor, &mut target, Draws { hit: 0, variance: 1000, status_hit: 0 }).unwrap();
    assert_eq!(actor.hp(), 0);
    assert!(out.actor_defeated);
    assert!(!out.battle_ended);
    assert_eq!(out.events, vec![Event::Missed, Event::Defeated(Side::Actor)]);
}

#[test]
fn missing_target_is_refused() {
    let mut actor = fighter("ゆうしゃ", 100_000, 100_000, 10_000, 5_000);
    actor.set_turns(StatusTurns { poisoned: 3, burned: 0, falter: 0, blackout: 0, frost: 0, feather: 0 });
    let mut none: Option<Combatant> = None;
    let mut dice = ScriptedDice::new(vec![0], vec![1000]).unwrap();
    let r = resolve(&sure_attack(), &mut actor, &mut none, &mut dice);
    assert!(matches!(r, Err(ResolveError::MissingTarget)));
    assert_eq!(dice.percent_calls(), 0);
    assert_eq!(actor.turns().poisoned, 3);
    assert_eq!(actor.hp(), 100_000);
}

#[test]
fn combatant_construction_checks_stats() {
    let skills = || Skills { skills: vec![] };
    assert!(matches!(
        Combatant::new("a".to_string(), Level::new(1), 11, 10, 1, 1, skills()),
        Err(StatsError::HpAboveMax)
    ));
    assert!(matches!(
        Combatant::new("a".to_string(), Level::new(1), 10, 10, 1, 0, skills()),
        Err(StatsError::ZeroDefence)
    ));
    let c = Combatant::new("a".to_string(), Level::new(2), 10, 10, 3, 4, skills()).unwrap();
    assert_eq!(c.turns(), StatusTurns::none());
    assert_eq!(c.defence(), 4);
}

#[test]
fn hp_stays_clamped_over_changes() {
    let mut c = fighter("ゆうしゃ", 40_000, 100_000, 10_000, 5_000);
    let changes: [i64; 8] = [-30_000, 90_000, -250_000, 5_000, 120_000, -1, -99_999, 7];
    for ch in changes {
        if ch < 0 {
            assert_eq!(c.hp_decrease((-ch) as u128), (-ch) as u128);
        } else {
            c.hp_increase(ch as u128);
        }
        assert!(c.hp() <= c.hp_max());
    }
    assert_eq!(c.hp(), 7);
    c.hp_set(500_000);
    assert_eq!(c.hp(), 100_000);
    c.hp_set(12);
    assert_eq!(c.hp(), 12);
}

#[test]
fn poisoned_attack_is_halved() {
    let mut c = fighter("ゆうしゃ", 40_000, 100_000, 10_000, 5_000);
    assert_eq!(c.attack(), 10_000);
    c.set_turns(StatusTurns { poisoned: 1, burned: 0, falter: 0, blackout: 0, frost: 0, feather: 0 });
    assert_eq!(c.attack(), 5_000);
}

#[test]
fn scripted_dice_rejects_bad_scripts_and_cycles() {
    assert!(ScriptedDice::new(vec![], vec![1000]).is_none());
    assert!(ScriptedDice::new(vec![1], vec![]).is_none());
    assert!(ScriptedDice::new(vec![100], vec![1000]).is_none());
    assert!(ScriptedDice::new(vec![1], vec![999]).is_none());
    assert!(ScriptedDice::new(vec![1], vec![1201]).is_none());
    let mut d = ScriptedDice::new(vec![3, 4], vec![1200]).unwrap();
    assert_eq!(d.roll_percent(), 3);
    assert_eq!(d.roll_percent(), 4);
    assert_eq!(d.roll_percent(), 3);
    assert_eq!(d.roll_variance(), 1200);
    assert_eq!(d.percent_calls(), 3);
    assert_eq!(d.variance_calls(), 1);
}

#[test]
fn stacking_stops_at_the_largest_counter() {
    let mut t = StatusTurns { poisoned: usize::MAX - 1, burned: 0, falter: 0, blackout: 0, frost: 0, feather: usize::MAX };
    assert_eq!(t.apply(StatusKind::Poisoned), Some(Event::Prolonged(StatusKind::Poisoned)));
    assert_eq!(t.poisoned, usize::MAX);
    t.apply(StatusKind::Feather);
    assert_eq!(t.feather, usize::MAX);
}

#[test]
fn add_status_through_the_resolver_stacks() {
    let poison = skill(Effect::AddSpecialStatusToEnemy(Probability { percentage: 100 }, StatusKind::Poisoned));
    let mut actor = fighter("ゆうしゃ", 100_000, 100_000, 10_000, 5_000);
    let mut target = Some(fighter("スライム", 100_000, 100_000, 1_000, 5_000));
    let mut dice = ScriptedDice::new(vec![99], vec![1000]).unwrap();
    let first = resolve(&poison, &mut actor, &mut target, &mut dice).unwrap();
    assert_eq!(first.events, vec![Event::Afflicted(StatusKind::Poisoned)]);
    let second = resolve(&poison, &mut actor, &mut target, &mut dice).unwrap();
    assert_eq!(second.events, vec![Event::Prolonged(StatusKind::Poisoned)]);
    assert_eq!(target.as_ref().unwrap().turns().poisoned, 36);
    assert_eq!(target.unwrap().hp(), 100_000);
    assert_eq!(dice.variance_calls(), 0);
}
