//! Battle resolution for a small turn-based role-playing game: combatants,
//! skills and their effects, elemental status timers, and the resolver that
//! turns one skill use into updated combatants and a narration log.
//!
//! Every fractional quantity (hit points, attack, defence, power, heal ratio,
//! damage variance) is held in thousandths of a unit.

pub mod model;
pub mod status;
pub mod dice;
pub mod resolver;
pub mod laws;
pub mod battle_operation_menu;
pub mod use_skill_menu;
pub mod target_enemy_menu;
pub mod pool;
pub mod inventory;
pub mod status_effects;
