use rustern_battle::battle_operation_menu::{self, BattleOperation, BattleOperationMenu, Operation};
use rustern_battle::model::{Characters, Combatant, Effect, Level, Ratio, Rarity, Skill, Skills};
use rustern_battle::status_effects::{Burn, ContinuousTurns, Poison, SpecialStatus, SpecialStatuses};
use rustern_battle::{target_enemy_menu, use_skill_menu};

#[test]
fn battle_operation_menu_tracks_selection() {
    let mut menu = BattleOperationMenu::new();
    assert_eq!(menu.operation, None);
    menu.update(battle_operation_menu::Message::OnSelectOperation(Operation::ShowItemContainers));
    assert_eq!(menu.operation, Some(Operation::ShowItemContainers));
    menu.update(battle_operation_menu::Message::OnClickNext);
    assert_eq!(menu.operation, Some(Operation::ShowItemContainers));
    menu.update(battle_operation_menu::Message::Initial);
    assert_eq!(menu.operation, None);
    assert_eq!(Operation::ShowSkills.label(), "スキルをつかう");
    assert_eq!(Operation::ShowItemContainers.label(), "アイテムをつかう");
    assert_eq!(BattleOperation::ShowItemStocks.label(), "アイテムをつかう");
}

#[test]
fn skill_and_target_menus_track_selection() {
    let s = Skill { name: "ヒール".to_string(), rarity: Rarity::new(1), effect: Effect::Heal(Ratio { percentage: 100 }) };
    let mut menu = use_skill_menu::UseSkillMenu::new(Skills { skills: vec![s.clone()] });
    menu.update(use_skill_menu::Message::OnSelectSkill(s.clone()));
    assert_eq!(menu.skill.as_ref().unwrap().name, "ヒール");
    menu.update(use_skill_menu::Message::OnClickNext);
    assert!(menu.skill.is_some());
    menu.update(use_skill_menu::Message::OnClickBack);
    assert!(menu.skill.is_none());

    let e = Combatant::new("スライム".to_string(), Level::new(1), 10, 10, 1, 1, Skills { skills: vec![] }).unwrap();
    let mut menu = target_enemy_menu::TargetEnemyMenu::new(Characters { characters: vec![e.clone()] });
    menu.update(target_enemy_menu::Message::OnSelectEnemy(e));
    assert_eq!(menu.enemy.as_ref().unwrap().name, "スライム");
    menu.update(target_enemy_menu::Message::Initial);
    assert!(menu.enemy.is_none());
    assert_eq!(menu.enemies.characters.len(), 1);
}

#[test]
fn special_statuses_tick_and_rank() {
    let mut turns = ContinuousTurns::new(3);
    turns.increase(2);
    turns.decrement();
    assert_eq!(turns.amount(), 4);
    assert_eq!(Poison::new().continuous_turns.amount(), 18);
    assert_eq!(Burn::new().continuous_turns.amount(), 8);

    let c = Combatant::new("a".to_string(), Level::new(1), 160_000, 160_000, 1, 1, Skills { skills: vec![] }).unwrap();
    let mut v = c.vitals;
    let mut all = SpecialStatuses {
        special_statuses: vec![SpecialStatus::Poison(Poison::new()), SpecialStatus::Burn(Burn::new())],
    };
    all.effect_before_skill(&mut v);
    assert_eq!(v.hp, 160_000);
    all.effect_after_skill(&mut v);
    // 160 - 10 (poison) - 20 (burn)
    assert_eq!(v.hp, 130_000);
    assert_eq!(all.special_statuses[0], SpecialStatus::Poison(Poison { continuous_turns: ContinuousTurns::new(17) }));
    assert_eq!(all.attack_rank(), 500);
    assert_eq!(all.defence_rank(), 1000);
    let two_poisons = SpecialStatuses {
        special_statuses: vec![SpecialStatus::Poison(Poison::new()), SpecialStatus::Poison(Poison::new())],
    };
    assert_eq!(two_poisons.attack_rank(), 250);
}
