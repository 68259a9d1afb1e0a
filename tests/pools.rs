use rustern_battle::model::{Characters, Combatant, Effect, Item, Items, Level, Ratio, Rarity, Skill, Skills};
use rustern_battle::pool::pick_positions;

fn skill(name: &str, rarity: u8) -> Skill {
    Skill { name: name.to_string(), rarity: Rarity::new(rarity), effect: Effect::Heal(Ratio { percentage: 100 }) }
}

#[test]
fn skills_are_picked_by_rarity_without_repeats() {
    let pool = Skills { skills: vec![skill("a", 1), skill("b", 2), skill("c", 1), skill("d", 1)] };
    for _ in 0..50 {
        let got = pool.random_pick(Rarity::new(1), 2);
        assert_eq!(got.len(), 2);
        assert!(got.iter().all(|s| s.rarity == Rarity::new(1)));
        assert_ne!(got[0].name, got[1].name);
    }
    let all = pool.random_pick(Rarity::new(1), 10);
    let mut names: Vec<String> = all.iter().map(|s| s.name.clone()).collect();
    names.sort();
    assert_eq!(names, vec!["a", "c", "d"]);
    assert!(pool.random_pick(Rarity::new(3), 2).is_empty());
}

#[test]
fn positions_are_distinct_and_matching() {
    let keys = vec![5u8, 1, 5, 5, 2, 5];
    for _ in 0..50 {
        let mut got = pick_positions(&keys, 5, 3);
        assert_eq!(got.len(), 3);
        assert!(got.iter().all(|&i| keys[i] == 5));
        got.sort();
        got.dedup();
        assert_eq!(got.len(), 3);
    }
    assert_eq!(pick_positions(&keys, 9, 3).len(), 0);
}

#[test]
fn enemies_and_items_are_picked_by_tier() {
    let mk = |name: &str, level: u8| {
        Combatant::new(name.to_string(), Level::new(level), 10, 10, 1, 1, Skills { skills: vec![skill("s", 1)] })
            .unwrap()
    };
    let enemies = Characters { characters: vec![mk("x", 1), mk("y", 2), mk("z", 1)] };
    let got = enemies.random_pick(Level::new(1), 3);
    assert_eq!(got.len(), 2);
    assert!(got.iter().all(|c| c.level == Level::new(1) && c.skills.skills.len() == 1));
    let items = Items {
        items: vec![
            Item { name: "ポーション".to_string(), rarity: Rarity::new(1), effect: Effect::Heal(Ratio { percentage: 100 }) },
            Item { name: "エリクサー".to_string(), rarity: Rarity::new(3), effect: Effect::Heal(Ratio { percentage: 1000 }) },
        ],
    };
    let got = items.random_pick(Rarity::new(3), 2);
    assert_eq!(got.len(), 1);
    assert_eq!(got[0].name, "エリクサー");
}
