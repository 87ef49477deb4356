pub mod asset;
pub mod board;
pub mod effects;
pub mod game_state;
pub mod multiplier;
pub mod player;
pub mod ridge;
pub mod roster;

pub use crate::cards::card::Card;
pub use asset::{AssetLedger, AssetRecord, AssetTable, AssetType};
pub use board::{BoardTile, HarvestType, TileEffect, TileType};
pub use multiplier::Multiplier;
pub use player::{Player, PlayerType};
pub use ridge::Ridge;
pub use roster::Players;
pub use game_state::GameState;
