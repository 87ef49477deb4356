//! The seasons that a game moves through.

use vstd::prelude::*;

verus! {

/// The season of the game.
#[derive(Debug, Clone, Copy, PartialEq, Eq, Hash, Structural)]
pub enum GamePhase {
    SpringPlanting,
    EarlySummer,
    LateSummer,
    EndOfYear,
}

} // verus!
