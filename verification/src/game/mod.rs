pub mod bankruptcy;
pub mod board;
pub mod card_effects;
pub mod conversion;
pub mod fan_out;
pub mod game_loop;
pub mod harvest;
pub mod loan;
pub mod options;
pub mod phase;
pub mod queries;
pub mod resolution;
pub mod tile_effects;
pub mod tiles;

pub use crate::models::effects::GameEffect;
pub use phase::GamePhase;
