//! Cards: an entry of a catalog, moved between a deck's piles and a hand.

use crate::models::effects::GameEffect;
use vstd::prelude::*;

verus! {

/// Where a card comes from.
#[derive(Debug, Clone, Copy, PartialEq, Eq, Structural)]
pub enum CardSource {
    BaseGame,
    Expansion,
}

/// One card.
#[derive(Debug, PartialEq)]
pub struct Card {
    pub id: usize,
    pub title: String,
    pub description: String,
    pub description_brief: String,
    pub effect: GameEffect,
    pub default_quantity: u32,
    pub source: CardSource,
}

impl Clone for Card {
    fn clone(&self) -> (r: Self)
        ensures
            r == *self,
    {
        Card {
            id: self.id,
            title: self.title.clone(),
            description: self.description.clone(),
            description_brief: self.description_brief.clone(),
            effect: self.effect.clone(),
            default_quantity: self.default_quantity,
            source: self.source,
        }
    }
}

} // verus!
