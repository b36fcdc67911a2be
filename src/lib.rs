//! Progression engine of a turn-based orb roguelike: a finite game-state
//! machine over a fixed orb catalog, with verified transitions.

mod chance;
pub mod game;
pub mod orb;
pub mod run;
pub mod theorems;

pub use game::{perform_action, Action, ActionError, Game};
pub use orb::{Buyable, Orb, OrbEffect, OrbRarity};
pub use run::GameData;
