//! Tile effects told as card effects, for callers that show both alike.

use crate::models::asset::AssetType;
use crate::models::board::{TileEffect, TileType};
use crate::models::effects::GameEffect;
use crate::text::{int_text, nat_text, push_int, push_nat};
use vstd::prelude::*;
use vstd::std_specs::convert::FromSpecImpl;
use vstd::string::StringExecFns;

verus! {

/// Whether the effect is one that is only told, in these words.
pub open spec fn is_special(effect: GameEffect, text: Seq<char>) -> bool {
    effect matches GameEffect::Special(s) && s@ == text
}

/// The words for a draw from the deck of a tile type.
pub open spec fn draw_text(tile_type: TileType) -> Seq<char> {
    "Draw a "@ + tile_type.label_text() + " card"@
}

/// The words for a move to a position.
pub open spec fn move_text(position: usize) -> Seq<char> {
    "Move to position "@ + nat_text(position as nat)
}

/// The words for a doubled yield.
pub open spec fn double_text(asset: AssetType) -> Seq<char> {
    "Double yield for "@ + asset.label_text()
}

/// Whether `r` is the card effect that `effect` is summed up as: gains and
/// payments become income and expense, whatever they depend on; what has no
/// like among the cards is told in words.
pub open spec fn is_summary(effect: TileEffect, r: GameEffect) -> bool {
    match effect {
        TileEffect::NoEffect => is_special(r, "No effect"@),
        TileEffect::DrawCard(t) => is_special(r, draw_text(t)),
        TileEffect::GainCash(amount) => r == GameEffect::Income(amount),
        TileEffect::PayCash(amount) => r == GameEffect::Expense(amount),
        TileEffect::SkipYear => r == GameEffect::SkipYear,
        TileEffect::GoToTile(position) => is_special(r, move_text(position)),
        TileEffect::Special(text) => r == GameEffect::Special(text),
        TileEffect::ExpensePerAsset { asset, rate } => r == (GameEffect::ExpensePerAsset {
            asset,
            rate,
        }),
        TileEffect::DoubleYieldForCrop(asset) => is_special(r, double_text(asset)),
        TileEffect::PayInterest => r == GameEffect::PayInterest,
        TileEffect::GoToTileAndGainCash { amount, .. } => r == GameEffect::Income(amount),
        TileEffect::GainCashIfAsset { amount, .. } => r == GameEffect::Income(amount),
        TileEffect::PayCashIfAsset { amount, .. } => r == GameEffect::Expense(amount),
        TileEffect::HarvestBonusPerAcre { asset, bonus } => is_special(
            r,
            "Add $"@ + int_text(bonus as int) + " per acre to "@ + asset.label_text()
                + " harvest"@,
        ),
        TileEffect::MoveAndHarvestIfAsset { asset, destination, bonus, harvest_type } => is_special(
            r,
            "Move and harvest if asset "@ + asset.label_text() + " to tile "@ + nat_text(
                destination as nat,
            ) + " with bonus $"@ + int_text(bonus as int) + " and harvest type "@
                + harvest_type.label_text(),
        ),
        TileEffect::OneTimeHarvestMultiplier { multiplier, .. } => is_special(
            r,
            "Market collapse. Cut livestock check in half. Multiplier: "@
                + multiplier.tenths_text(),
        ),
    }
}

/// Whether `r` is the card effect that `effect` is described as: what
/// depends on a move or an asset is told in words.
pub open spec fn is_description(effect: TileEffect, r: GameEffect) -> bool {
    match effect {
        TileEffect::NoEffect => is_special(r, "No effect"@),
        TileEffect::DrawCard(t) => is_special(r, draw_text(t)),
        TileEffect::GainCash(amount) => r == GameEffect::Income(amount),
        TileEffect::PayCash(amount) => r == GameEffect::Expense(amount),
        TileEffect::SkipYear => r == GameEffect::SkipYear,
        TileEffect::GoToTile(position) => is_special(r, move_text(position)),
        TileEffect::Special(text) => r == GameEffect::Special(text),
        TileEffect::ExpensePerAsset { asset, rate } => r == (GameEffect::ExpensePerAsset {
            asset,
            rate,
        }),
        TileEffect::DoubleYieldForCrop(asset) => is_special(r, double_text(asset)),
        TileEffect::PayInterest => r == GameEffect::PayInterest,
        TileEffect::GoToTileAndGainCash { tile_index, amount } => is_special(
            r,
            "Move to tile "@ + nat_text(tile_index as nat) + " and gain $"@ + int_text(
                amount as int,
            ),
        ),
        TileEffect::GainCashIfAsset { asset, amount } => is_special(
            r,
            "Gain $"@ + int_text(amount as int) + " if you have "@ + asset.label_text(),
        ),
        TileEffect::PayCashIfAsset { asset, amount } => is_special(
            r,
            "Pay $"@ + int_text(amount as int) + " if you have "@ + asset.label_text(),
        ),
        TileEffect::HarvestBonusPerAcre { asset, bonus } => is_special(
            r,
            "Gain $"@ + int_text(bonus as int) + " per "@ + asset.label_text() + " acre"@,
        ),
        TileEffect::MoveAndHarvestIfAsset { asset, destination, bonus, .. } => is_special(
            r,
            "Move to tile "@ + nat_text(destination as nat) + " and harvest "@
                + asset.label_text() + " with bonus "@ + int_text(bonus as int),
        ),
        TileEffect::OneTimeHarvestMultiplier { multiplier, .. } => is_special(
            r,
            "Market collapse. Cut livestock check in half ("@ + multiplier.tenths_text() + ")"@,
        ),
    }
}

/// The words for a draw from the deck of a tile type.
fn draw_words(tile_type: &TileType) -> (s: String)
    ensures
        s@ == draw_text(*tile_type),
{
    let mut s = String::from_str("Draw a ");
    s.append(tile_type.label());
    s.append(" card");
    s
}

/// The words for a move to a position.
fn move_words(position: usize) -> (s: String)
    ensures
        s@ == move_text(position),
{
    let mut s = String::from_str("Move to position ");
    push_nat(&mut s, position as u64);
    s
}

/// The words for a doubled yield.
fn double_words(asset: &AssetType) -> (s: String)
    ensures
        s@ == double_text(*asset),
{
    let mut s = String::from_str("Double yield for ");
    s.append(asset.label());
    s
}

impl From<TileEffect> for GameEffect {
    /// The card effect that the tile effect is summed up as.
    fn from(effect: TileEffect) -> (r: Self)
        ensures
            is_summary(effect, r),
    {
        match effect {
            TileEffect::NoEffect => GameEffect::Special(String::from_str("No effect")),
            TileEffect::DrawCard(t) => GameEffect::Special(draw_words(&t)),
            TileEffect::GainCash(amount) => GameEffect::Income(amount),
            TileEffect::PayCash(amount) => GameEffect::Expense(amount),
            TileEffect::SkipYear => GameEffect::SkipYear,
            TileEffect::GoToTile(position) => GameEffect::Special(move_words(position)),
            TileEffect::Special(text) => GameEffect::Special(text),
            TileEffect::ExpensePerAsset { asset, rate } => GameEffect::ExpensePerAsset {
                asset,
                rate,
            },
            TileEffect::DoubleYieldForCrop(asset) => GameEffect::Special(double_words(&asset)),
            TileEffect::PayInterest => GameEffect::PayInterest,
            TileEffect::GoToTileAndGainCash { amount, .. } => GameEffect::Income(amount),
            TileEffect::GainCashIfAsset { amount, .. } => GameEffect::Income(amount),
            TileEffect::PayCashIfAsset { amount, .. } => GameEffect::Expense(amount),
            TileEffect::HarvestBonusPerAcre { asset, bonus } => {
                let mut s = String::from_str("Add $");
                push_int(&mut s, bonus as i64);
                s.append(" per acre to ");
                s.append(asset.label());
                s.append(" harvest");
                GameEffect::Special(s)
            },
            TileEffect::MoveAndHarvestIfAsset { asset, destination, bonus, harvest_type } => {
                let mut s = String::from_str("Move and harvest if asset ");
                s.append(asset.label());
                s.append(" to tile ");
                push_nat(&mut s, destination as u64);
                s.append(" with bonus $");
                push_int(&mut s, bonus as i64);
                s.append(" and harvest type ");
                s.append(harvest_type.label());
                GameEffect::Special(s)
            },
            TileEffect::OneTimeHarvestMultiplier { multiplier, .. } => {
                let mut s = String::from_str(
                    "Market collapse. Cut livestock check in half. Multiplier: ",
                );
                multiplier.push_tenths(&mut s);
                GameEffect::Special(s)
            },
        }
    }
}

impl FromSpecImpl<TileEffect> for GameEffect {
    /// Texts are equal as texts, not as values: the conversion is told by
    /// `is_summary`, not by an equation.
    open spec fn obeys_from_spec() -> bool {
        false
    }

    /// A card effect that the tile effect is summed up as.
    open spec fn from_spec(effect: TileEffect) -> GameEffect {
        choose|r: GameEffect| is_summary(effect, r)
    }
}

/// The card effect that the tile effect is described as.
pub fn tile_effect_to_game_effect(effect: &TileEffect) -> (r: GameEffect)
    ensures
        is_description(*effect, r),
{
    match effect {
        TileEffect::NoEffect => GameEffect::Special(String::from_str("No effect")),
        TileEffect::DrawCard(t) => GameEffect::Special(draw_words(t)),
        TileEffect::GainCash(amount) => GameEffect::Income(*amount),
        TileEffect::PayCash(amount) => GameEffect::Expense(*amount),
        TileEffect::SkipYear => GameEffect::SkipYear,
        TileEffect::GoToTile(position) => GameEffect::Special(move_words(*position)),
        TileEffect::Special(text) => GameEffect::Special(text.clone()),
        TileEffect::ExpensePerAsset { asset, rate } => GameEffect::ExpensePerAsset {
            asset: *asset,
            rate: *rate,
        },
        TileEffect::DoubleYieldForCrop(asset) => GameEffect::Special(double_words(asset)),
        TileEffect::PayInterest => GameEffect::PayInterest,
        TileEffect::GoToTileAndGainCash { tile_index, amount } => {
            let mut s = String::from_str("Move to tile ");
            push_nat(&mut s, *tile_index as u64);
            s.append(" and gain $");
            push_int(&mut s, *amount as i64);
            GameEffect::Special(s)
        },
        TileEffect::GainCashIfAsset { asset, amount } => {
            let mut s = String::from_str("Gain $");
            push_int(&mut s, *amount as i64);
            s.append(" if you have ");
            s.append(asset.label());
            GameEffect::Special(s)
        },
        TileEffect::PayCashIfAsset { asset, amount } => {
            let mut s = String::from_str("Pay $");
            push_int(&mut s, *amount as i64);
            s.append(" if you have ");
            s.append(asset.label());
            GameEffect::Special(s)
        },
        TileEffect::HarvestBonusPerAcre { asset, bonus } => {
            let mut s = String::from_str("Gain $");
            push_int(&mut s, *bonus as i64);
            s.append(" per ");
            s.append(asset.label());
            s.append(" acre");
            GameEffect::Special(s)
        },
        TileEffect::MoveAndHarvestIfAsset { asset, destination, bonus, .. } => {
            let mut s = String::from_str("Move to tile ");
            push_nat(&mut s, *destination as u64);
            s.append(" and harvest ");
            s.append(asset.label());
            s.append(" with bonus ");
            push_int(&mut s, *bonus as i64);
            GameEffect::Special(s)
        },
        TileEffect::OneTimeHarvestMultiplier { multiplier, .. } => {
            let mut s = String::from_str("Market collapse. Cut livestock check in half (");
            multiplier.push_tenths(&mut s);
            s.append(")");
            GameEffect::Special(s)
        },
    }
}

} // verus!
