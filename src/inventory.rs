//! Items the player owns, grouped by kind with a count each, and receiving
//! the item the player selected.
use vstd::prelude::*;
use crate::model::Item;

verus! {

/// Message when an item was received: the item's name, then this text.
pub const RECEIVED_SUFFIX: &'static str = "　を　てにいれた！";

/// Message when no item was selected.
pub const NOTHING_SELECTED: &'static str = "アイテムが　えらばれて　いない。";

/// Some number of one item.
#[derive(Clone, Debug, PartialEq)]
pub struct ItemContainer {
    pub item: Item,
    pub amount: usize,
}

/// The items owned, the item selected among those offered, the items
/// offered, and the message shown to the player.
#[derive(Clone, Debug)]
pub struct Inventory {
    pub owned_items: Vec<ItemContainer>,
    pub selected_item: Option<Item>,
    pub items_for_get: Vec<Item>,
    pub system_info: String,
}

/// Two items are the same kind of item: same name, rarity and effect.
pub open spec fn same_item(a: Item, b: Item) -> bool {
    a.name@ == b.name@ && a.rarity == b.rarity && a.effect == b.effect
}

/// `owned` after receiving one `item`: the first container of the same item
/// holds one more (stopping at the largest count), or else a container of
/// one such item is added at the end.
pub open spec fn received(owned: Seq<ItemContainer>, item: Item, after: Seq<ItemContainer>) -> bool {
    ||| exists|i: int|
        #![trigger owned[i]]
        0 <= i < owned.len() && same_item(owned[i].item, item) && (forall|j: int|
            0 <= j < i ==> !same_item(#[trigger] owned[j].item, item)) && after == owned.update(
            i,
            (ItemContainer { item: owned[i].item, amount: owned[i].amount.saturating_add(1) }),
        )
    ||| (forall|j: int| 0 <= j < owned.len() ==> !same_item(#[trigger] owned[j].item, item)) && after
        == owned.push((ItemContainer { item, amount: 1 }))
}

impl Inventory {
    /// An inventory with nothing owned, selected or offered, and `system_info`
    /// as the message.
    pub fn new(system_info: String) -> (r: Inventory)
        ensures
            r.owned_items@.len() == 0,
            r.selected_item is None,
            r.items_for_get@.len() == 0,
            r.system_info == system_info,
    {
        Inventory { owned_items: Vec::new(), selected_item: None, items_for_get: Vec::new(), system_info }
    }

    /// Receives the selected item, if any: it is added to the owned items,
    /// the message names it, and the selection and the offer are cleared.
    /// With nothing selected only the message changes, to say so.
    pub fn give_selected_item_for_user(&mut self)
        ensures
            final(self).selected_item is None,
            old(self).selected_item is None ==> final(self).system_info@ == NOTHING_SELECTED@
                && final(self).owned_items@ == old(self).owned_items@
                && final(self).items_for_get@ == old(self).items_for_get@,
            old(self).selected_item is Some ==> final(self).system_info@
                == old(self).selected_item->Some_0.name@ + RECEIVED_SUFFIX@
                && received(old(self).owned_items@, old(self).selected_item->Some_0, final(self).owned_items@)
                && final(self).items_for_get@.len() == 0,
    {
        match &self.selected_item {
            None => {
                self.system_info = String::from_str(NOTHING_SELECTED);
            },
            Some(selected) => {
                let item = selected.duplicate();
                let mut i: usize = 0;
                let mut found = false;
                while i < self.owned_items.len()
                    invariant_except_break
                        !found,
                    invariant
                        0 <= i <= self.owned_items@.len(),
                        self.owned_items@ == old(self).owned_items@,
                        forall|j: int| 0 <= j < i ==> !same_item(#[trigger] self.owned_items@[j].item, item),
                    ensures
                        found ==> i < self.owned_items@.len() && same_item(self.owned_items@[i as int].item, item),
                        !found ==> i == self.owned_items@.len(),
                        self.owned_items@ == old(self).owned_items@,
                        forall|j: int| 0 <= j < i ==> !same_item(#[trigger] self.owned_items@[j].item, item),
                    decreases self.owned_items@.len() - i,
                {
                    if self.owned_items[i].item == item {
                        found = true;
                        break;
                    }
                    i = i + 1;
                }
                if found {
                    let c = ItemContainer {
                        item: self.owned_items[i].item.duplicate(),
                        amount: self.owned_items[i].amount.saturating_add(1),
                    };
                    self.owned_items.set(i, c);
                } else {
                    self.owned_items.push(ItemContainer { item: item.duplicate(), amount: 1 });
                }
                self.system_info = item.name.clone().concat(RECEIVED_SUFFIX);
                self.selected_item = None;
                self.items_for_get = Vec::new();
            },
        }
    }
}

} // verus!
