use rustern_battle::inventory::Inventory;
use rustern_battle::model::{Effect, Item, Rarity, Ratio};

#[test]
fn test_get_selected_item() {
    let mut app = Inventory::new("おうさま：おお　ゆうしゃよ　まおうを　たおしに　ゆくのじゃ".to_string());
    let test_item = Item {
        name: "ポーション".to_string(),
        rarity: Rarity::new(1),
        effect: Effect::Heal(Ratio { percentage: 100 }),
    };
    app.selected_item = Some(test_item.clone());
    app.owned_items = vec![];

    app.give_selected_item_for_user();

    assert_eq!(app.owned_items.len(), 1);
    assert_eq!(app.owned_items[0].item, test_item);
    assert_eq!(app.owned_items[0].amount, 1);
    assert_eq!(app.system_info, format!("{}　を　てにいれた！", test_item.name));

    app.selected_item = Some(test_item.clone());
    app.give_selected_item_for_user();
    assert_eq!(app.owned_items.len(), 1);
    assert_eq!(app.owned_items[0].amount, 2);
}

#[test]
fn test_get_selected_item_no_selection() {
    let mut app = Inventory::new("おうさま：おお　ゆうしゃよ　まおうを　たおしに　ゆくのじゃ".to_string());
    app.selected_item = None;
    app.owned_items = vec![];

    app.give_selected_item_for_user();

    assert_eq!(app.owned_items.len(), 0);
    assert_eq!(app.system_info, "アイテムが　えらばれて　いない。");
}

#[test]
fn different_items_get_their_own_containers() {
    let mut inv = Inventory::new(String::new());
    let a = Item { name: "ポーション".to_string(), rarity: Rarity::new(1), effect: Effect::Heal(Ratio { percentage: 100 }) };
    let b = Item { name: "ポーション".to_string(), rarity: Rarity::new(2), effect: Effect::Heal(Ratio { percentage: 100 }) };
    inv.items_for_get = vec![a.clone(), b.clone()];
    inv.selected_item = Some(a.clone());
    inv.give_selected_item_for_user();
    assert!(inv.items_for_get.is_empty());
    assert!(inv.selected_item.is_none());
    inv.selected_item = Some(b.clone());
    inv.give_selected_item_for_user();
    inv.selected_item = Some(a.clone());
    inv.give_selected_item_for_user();
    assert_eq!(inv.owned_items.len(), 2);
    assert_eq!(inv.owned_items[0].amount, 2);
    assert_eq!(inv.owned_items[1].item, b);
    assert_eq!(inv.owned_items[1].amount, 1);
}
