//! The battle operation menu: choose between using a skill and using an item.
use vstd::prelude::*;

verus! {

/// What the player can do on their turn.
#[derive(Clone, Copy, Debug, PartialEq, Eq, Structural)]
pub enum Operation {
    /// Use a skill.
    ShowSkills,
    /// Use an item.
    ShowItemContainers,
}

impl Operation {
    /// The label shown for the operation.
    pub fn label(&self) -> (r: &'static str)
        ensures
            *self is ShowSkills ==> r@ == "スキルをつかう"@,
            *self is ShowItemContainers ==> r@ == "アイテムをつかう"@,
    {
        match self {
            Operation::ShowSkills => "スキルをつかう",
            Operation::ShowItemContainers => "アイテムをつかう",
        }
    }
}

/// Input to the battle operation menu.
#[derive(Clone, Copy, Debug, PartialEq, Eq, Structural)]
pub enum Message {
    /// Reset to no selection.
    Initial,
    /// The player picked an operation.
    OnSelectOperation(Operation),
    /// The player confirmed the selection.
    OnClickNext,
}

/// State of the battle operation menu: the selected operation, if any.
#[derive(Clone, Copy, Debug, PartialEq, Eq, Structural)]
pub struct BattleOperationMenu {
    pub operation: Option<Operation>,
}

impl BattleOperationMenu {
    /// A menu with nothing selected.
    pub fn new() -> (r: BattleOperationMenu)
        ensures
            r.operation is None,
    {
        BattleOperationMenu { operation: None }
    }

    /// Reacts to `message`: a reset clears the selection, a pick replaces
    /// it, a confirmation leaves it as it is.
    pub fn update(&mut self, message: Message)
        ensures
            final(self).operation == match message {
                Message::Initial => None,
                Message::OnSelectOperation(op) => Some(op),
                Message::OnClickNext => old(self).operation,
            },
    {
        match message {
            Message::Initial => {
                self.operation = None;
            },
            Message::OnSelectOperation(operation) => {
                self.operation = Some(operation);
            },
            Message::OnClickNext => {},
        }
    }
}

/// What the player can do on their turn, as the main screen lists it.
#[derive(Clone, Copy, Debug, PartialEq, Eq, Structural)]
pub enum BattleOperation {
    ShowSkills,
    ShowItemStocks,
}

impl BattleOperation {
    /// The label shown for the operation.
    pub fn label(&self) -> (r: &'static str)
        ensures
            *self is ShowSkills ==> r@ == "スキルをつかう"@,
            *self is ShowItemStocks ==> r@ == "アイテムをつかう"@,
    {
        match self {
            BattleOperation::ShowSkills => "スキルをつかう",
            BattleOperation::ShowItemStocks => "アイテムをつかう",
        }
    }
}

} // verus!
