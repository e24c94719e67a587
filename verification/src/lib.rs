//! Rules engine for a two-player, turn-based color-economy game.
//!
//! Players spend colored cubes to trigger effects (damage, healing, theft,
//! duplication, pot rotation) while drawing replacement cubes from a shared
//! pot and a shared bank. The crate covers the color algebra, the counted
//! cube containers, the bank and pot, per-player bookkeeping, and the turn
//! engine with its spend/effect/settle-or-rollback protocol.

pub mod bank;
pub mod color;
pub mod color_mix;
pub mod cube_set;
pub mod error;
pub mod player;
pub mod pot;
