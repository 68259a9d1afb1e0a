//! The target menu: pick one of the enemies met, confirm or go back.
use vstd::prelude::*;
use crate::model::{Characters, Combatant};

verus! {

/// Input to the target menu.
#[derive(Clone, Debug)]
pub enum Message {
    /// Reset to no selection.
    Initial,
    /// The player picked an enemy.
    OnSelectEnemy(Combatant),
    /// The player confirmed the selection.
    OnClickNext,
    /// The player went back; the selection is dropped.
    OnClickBack,
}

/// State of the target menu: the enemies offered and the one selected.
#[derive(Clone, Debug)]
pub struct TargetEnemyMenu {
    pub enemies: Characters,
    pub enemy: Option<Combatant>,
}

impl TargetEnemyMenu {
    /// A menu offering `enemies`, with nothing selected.
    pub fn new(enemies: Characters) -> (r: TargetEnemyMenu)
        ensures
            r.enemies == enemies,
            r.enemy is None,
    {
        TargetEnemyMenu { enemies, enemy: None }
    }

    /// Reacts to `message`: a reset or going back clears the selection, a
    /// pick replaces it, a confirmation leaves it as it is. The enemies
    /// offered never change.
    pub fn update(&mut self, message: Message)
        ensures
            final(self).enemies == old(self).enemies,
            final(self).enemy == match message {
                Message::OnSelectEnemy(e) => Some(e),
                Message::OnClickNext => old(self).enemy,
                _ => None,
            },
    {
        match message {
            Message::Initial => {
                self.enemy = None;
            },
            Message::OnSelectEnemy(enemy) => {
                self.enemy = Some(enemy);
            },
            Message::OnClickNext => {},
            Message::OnClickBack => {
                self.enemy = None;
            },
        }
    }
}

} // verus!
