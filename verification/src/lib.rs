//! A verified rules engine for a farming board game.
//!
//! Players travel a board of forty-nine tiles, one for each week of the
//! farming year. They draw cards, take harvests, pay what is due, borrow
//! where cash falls short, buy land, cattle and equipment, and lease ridges,
//! until one of them is worth $250,000.
//!
//! The engine owns the state of a game and resolves a turn, a tile, a card,
//! a harvest, a forced payment, an option, or an auction on it. Every
//! function carries a contract that says what it returns and what it
//! changes, and Verus proves the contract.
//!
//! * `models` holds the data: assets, players, ridges, tiles, effects, and
//!   the state of the game.
//! * `cards` holds the cards, the three catalogs, and the decks.
//! * `game` holds the rules: payments, harvests, the effects of cards and
//!   tiles, options, bankruptcy, and the turn.
//! * `log` holds the entries that the rules log, and their words.
//! * `error` holds the errors. Every rejected operation is a value, and no
//!   verified function panics by itself.
//! * `config` holds the constants of the game and the players that come
//!   with it.
//! * `display`, `text` and `search` hold what the others share: short forms
//!   of names and descriptions, numbers in decimal, and the first place in
//!   a sequence at which something holds.
//! * `chance` holds the calls into `rand`, which are believed and not
//!   proved: one generator for each game, made afresh or from a seed.
//!
//! A fresh generator takes its seed from the operating system and panics
//! where the system has no entropy to give. The functions that make one for
//! themselves (`GameState::new`, `Deck::shuffle`, `Deck::draw`,
//! `HarvestManager::calculate_harvest` and their like) make it only on the
//! path that shuffles or rolls; those that take a generator, and a game made
//! from a seed, never make one.

pub mod cards;
mod chance;
pub mod config;
pub mod display;
pub mod error;
pub mod game;
pub mod log;
pub mod models;
pub mod search;
pub mod text;
