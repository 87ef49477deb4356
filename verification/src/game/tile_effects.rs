//! What a tile does to the player who landed on it, for every effect that
//! touches neither a deck nor another tile.

use crate::config::MAX_DEBT;
use crate::error::GameError;
use crate::game::card_effects::{
    income_outcome, interest_outcome, out_of_range, skip_year_outcome, with_payment, Outcome,
};
use crate::log::LogEntry;
use crate::models::asset::AssetType;
use crate::models::board::{BoardTile, TileEffect};
use crate::models::multiplier::Multiplier;
use crate::models::player::{fits_i32, Player};
use vstd::prelude::*;

verus! {

/// The outcome of an expense of `rate` for each unit held of `asset`, on a
/// tile: a forced payment where it comes to more than nothing.
#[verifier::opaque]
pub open spec fn tile_expense_outcome(p: Player, asset: AssetType, rate: i32) -> Outcome {
    let total = p.assets.quantity(asset) * rate;
    if !fits_i32(total) {
        out_of_range(p)
    } else if total > 0 {
        with_payment(p, Seq::empty(), total as i32)
    } else {
        (p, Seq::empty(), Ok(()), false)
    }
}

/// The outcome of a move to the tile at `tile_index` with a gain of
/// `amount`. The tile's own effect is not played.
#[verifier::opaque]
pub open spec fn move_and_gain_outcome(
    p: Player,
    tile_index: usize,
    amount: i32,
    board: Seq<BoardTile>,
) -> Outcome {
    if !fits_i32(p.cash + amount) {
        out_of_range(p)
    } else {
        (
            Player { position: tile_index, cash: (p.cash + amount) as i32, ..p },
            seq![
                if tile_index < board.len() {
                    LogEntry::MovedAndGained {
                        name: p.name,
                        tile: board[tile_index as int].name,
                        amount,
                    }
                } else {
                    LogEntry::MovedToIndexAndGained { name: p.name, index: tile_index, amount }
                },
            ],
            Ok(()),
            false,
        )
    }
}

/// The outcome of a gain that is made where more than nothing is held of
/// `asset`.
#[verifier::opaque]
pub open spec fn gain_if_owned_outcome(p: Player, asset: AssetType, amount: i32) -> Outcome {
    if p.assets.owns(asset) {
        if fits_i32(p.cash + amount) {
            (
                Player { cash: (p.cash + amount) as i32, ..p },
                seq![LogEntry::GainedForAsset { name: p.name, amount, asset }],
                Ok(()),
                false,
            )
        } else {
            out_of_range(p)
        }
    } else {
        (p, seq![LogEntry::NotGained { amount, asset }], Ok(()), false)
    }
}

/// The outcome of a payment that is due where more than nothing is held of
/// `asset`.
#[verifier::opaque]
pub open spec fn pay_if_owned_outcome(p: Player, asset: AssetType, amount: i32) -> Outcome {
    if p.assets.owns(asset) {
        with_payment(p, seq![LogEntry::MustPayForAsset { name: p.name, amount, asset }], amount)
    } else {
        (p, seq![LogEntry::NoPaymentForAsset { name: p.name, asset }], Ok(()), false)
    }
}

/// The outcome of a bonus of `bonus` for each unit held of `asset`: cash
/// where it comes to more than nothing.
#[verifier::opaque]
pub open spec fn acre_bonus_outcome(p: Player, asset: AssetType, bonus: i32) -> Outcome {
    let quantity = p.assets.quantity(asset);
    let total = quantity * bonus;
    if !fits_i32(total) {
        out_of_range(p)
    } else if total > 0 {
        if !fits_i32(p.cash + total) {
            out_of_range(p)
        } else {
            (
                Player { cash: (p.cash + total) as i32, ..p },
                seq![
                    LogEntry::AcreBonus {
                        name: p.name,
                        total: total as i32,
                        quantity: quantity as i32,
                        asset,
                    },
                ],
                Ok(()),
                false,
            )
        }
    } else {
        (p, Seq::empty(), Ok(()), false)
    }
}

/// The outcome of a tile for the player who landed on it. The three
/// effects that draw, chain or harvest are told on the state of the game;
/// here they do nothing.
pub open spec fn tile_outcome(p: Player, effect: TileEffect, board: Seq<BoardTile>) -> Outcome {
    match effect {
        TileEffect::NoEffect => (p, Seq::empty(), Ok(()), false),
        TileEffect::GainCash(amount) => income_outcome(p, amount),
        TileEffect::PayCash(amount) => with_payment(p, Seq::empty(), amount),
        TileEffect::SkipYear => skip_year_outcome(p),
        TileEffect::Special(text) => (p, seq![LogEntry::Text { text }], Ok(()), false),
        TileEffect::ExpensePerAsset { asset, rate } => tile_expense_outcome(p, asset, rate),
        TileEffect::DoubleYieldForCrop(asset) => (
            Player {
                crop_yield_multipliers: p.crop_yield_multipliers.with(
                    asset,
                    Some(Multiplier { percent: 200 }),
                ),
                ..p
            },
            seq![LogEntry::YieldDoubled { name: p.name, asset }],
            Ok(()),
            false,
        ),
        TileEffect::PayInterest => interest_outcome(p),
        TileEffect::GoToTileAndGainCash { tile_index, amount } => move_and_gain_outcome(
            p,
            tile_index,
            amount,
            board,
        ),
        TileEffect::GainCashIfAsset { asset, amount } => gain_if_owned_outcome(p, asset, amount),
        TileEffect::PayCashIfAsset { asset, amount } => pay_if_owned_outcome(p, asset, amount),
        TileEffect::HarvestBonusPerAcre { asset, bonus } => acre_bonus_outcome(p, asset, bonus),
        TileEffect::OneTimeHarvestMultiplier { asset, multiplier } => (
            p.with_one_time_multiplier(asset, multiplier),
            seq![LogEntry::YieldSet { name: p.name, multiplier, asset }],
            Ok(()),
            false,
        ),
        TileEffect::DrawCard(_) => (p, Seq::empty(), Ok(()), false),
        TileEffect::GoToTile(_) => (p, Seq::empty(), Ok(()), false),
        TileEffect::MoveAndHarvestIfAsset { .. } => (p, Seq::empty(), Ok(()), false),
    }
}

/// A tile that fails leaves the player as it was.
pub proof fn lemma_tile_failure_changes_nothing(p: Player, effect: TileEffect, board: Seq<BoardTile>)
    ensures
        tile_outcome(p, effect, board).2.is_err() ==> tile_outcome(p, effect, board).0 == p,
{
    reveal(tile_expense_outcome);
    reveal(move_and_gain_outcome);
    reveal(gain_if_owned_outcome);
    reveal(pay_if_owned_outcome);
    reveal(acre_bonus_outcome);
    reveal(income_outcome);
    reveal(skip_year_outcome);
    reveal(interest_outcome);
}

/// No tile lifts a debt over the ceiling that was not over it.
pub proof fn lemma_tile_keeps_ceiling(p: Player, effect: TileEffect, board: Seq<BoardTile>)
    requires
        p.debt <= MAX_DEBT,
    ensures
        tile_outcome(p, effect, board).0.debt <= MAX_DEBT,
{
    reveal(tile_expense_outcome);
    reveal(move_and_gain_outcome);
    reveal(gain_if_owned_outcome);
    reveal(pay_if_owned_outcome);
    reveal(acre_bonus_outcome);
    reveal(income_outcome);
    reveal(skip_year_outcome);
    reveal(interest_outcome);
}

/// No tile changes how many turns the player has taken.
pub proof fn lemma_tile_keeps_turns(p: Player, effect: TileEffect, board: Seq<BoardTile>)
    ensures
        tile_outcome(p, effect, board).0.turns_taken == p.turns_taken,
{
    reveal(tile_expense_outcome);
    reveal(move_and_gain_outcome);
    reveal(gain_if_owned_outcome);
    reveal(pay_if_owned_outcome);
    reveal(acre_bonus_outcome);
    reveal(income_outcome);
    reveal(skip_year_outcome);
    reveal(interest_outcome);
}

/// The result of an effect without the flag that only cards have.
fn plain(r: Result<bool, GameError>) -> (out: Result<(), GameError>)
    ensures
        match r {
            Ok(_) => out == Ok::<(), GameError>(()),
            Err(e) => out == Err::<(), GameError>(e),
        },
{
    match r {
        Ok(_) => Ok(()),
        Err(e) => Err(e),
    }
}

impl Player {
    /// Pays `rate` for each unit held of `asset`.
    fn pay_on_tile(&mut self, asset: AssetType, rate: i32, logs: &mut Vec<LogEntry>) -> (r: Result<
        (),
        GameError,
    >)
        ensures
            *final(self) == tile_expense_outcome(*old(self), asset, rate).0,
            final(logs)@ =~= old(logs)@ + tile_expense_outcome(*old(self), asset, rate).1,
            r == tile_expense_outcome(*old(self), asset, rate).2,
            r.is_err() ==> *final(self) == *old(self),
    {
        reveal(tile_expense_outcome);
        let count: i32 = self.assets.quantity_of(&asset);
        assert(-0x8000_0000 * 0x8000_0000 <= (count as int) * (rate as int) <= 0x8000_0000
            * 0x8000_0000) by (nonlinear_arith)
            requires
                -0x8000_0000 <= count <= 0x8000_0000,
                -0x8000_0000 <= rate <= 0x8000_0000,
        ;
        let total: i64 = (count as i64) * (rate as i64);
        if total > i32::MAX as i64 || total < i32::MIN as i64 {
            return Err(GameError::AmountOutOfRange);
        }
        if total > 0 {
            self.pay_or_borrow(total as i32, logs)
        } else {
            Ok(())
        }
    }

    /// Moves to the tile at `tile_index` and takes `amount`.
    fn move_and_gain(
        &mut self,
        tile_index: usize,
        amount: i32,
        board: &Vec<BoardTile>,
        logs: &mut Vec<LogEntry>,
    ) -> (r: Result<(), GameError>)
        ensures
            *final(self) == move_and_gain_outcome(*old(self), tile_index, amount, board@).0,
            final(logs)@ =~= old(logs)@ + move_and_gain_outcome(
                *old(self),
                tile_index,
                amount,
                board@,
            ).1,
            r == move_and_gain_outcome(*old(self), tile_index, amount, board@).2,
            r.is_err() ==> *final(self) == *old(self),
    {
        reveal(move_and_gain_outcome);
        let cash: i64 = self.cash as i64 + amount as i64;
        if cash > i32::MAX as i64 || cash < i32::MIN as i64 {
            return Err(GameError::AmountOutOfRange);
        }
        self.position = tile_index;
        self.cash = cash as i32;
        if tile_index < board.len() {
            logs.push(
                LogEntry::MovedAndGained {
                    name: self.name.clone(),
                    tile: board[tile_index].name.clone(),
                    amount,
                },
            );
        } else {
            logs.push(
                LogEntry::MovedToIndexAndGained { name: self.name.clone(), index: tile_index, amount },
            );
        }
        Ok(())
    }

    /// Takes `amount` where more than nothing is held of `asset`.
    fn gain_if_owned(&mut self, asset: AssetType, amount: i32, logs: &mut Vec<LogEntry>) -> (r:
        Result<(), GameError>)
        ensures
            *final(self) == gain_if_owned_outcome(*old(self), asset, amount).0,
            final(logs)@ =~= old(logs)@ + gain_if_owned_outcome(*old(self), asset, amount).1,
            r == gain_if_owned_outcome(*old(self), asset, amount).2,
            r.is_err() ==> *final(self) == *old(self),
    {
        reveal(gain_if_owned_outcome);
        if self.assets.quantity_of(&asset) > 0 {
            let cash: i64 = self.cash as i64 + amount as i64;
            if cash > i32::MAX as i64 || cash < i32::MIN as i64 {
                return Err(GameError::AmountOutOfRange);
            }
            self.cash = cash as i32;
            logs.push(LogEntry::GainedForAsset { name: self.name.clone(), amount, asset });
        } else {
            logs.push(LogEntry::NotGained { amount, asset });
        }
        Ok(())
    }

    /// Pays `amount` where more than nothing is held of `asset`.
    fn pay_if_owned(&mut self, asset: AssetType, amount: i32, logs: &mut Vec<LogEntry>) -> (r:
        Result<(), GameError>)
        ensures
            *final(self) == pay_if_owned_outcome(*old(self), asset, amount).0,
            final(logs)@ =~= old(logs)@ + pay_if_owned_outcome(*old(self), asset, amount).1,
            r == pay_if_owned_outcome(*old(self), asset, amount).2,
            r.is_err() ==> *final(self) == *old(self),
    {
        reveal(pay_if_owned_outcome);
        if self.assets.quantity_of(&asset) > 0 {
            logs.push(LogEntry::MustPayForAsset { name: self.name.clone(), amount, asset });
            self.pay_or_borrow(amount, logs)
        } else {
            logs.push(LogEntry::NoPaymentForAsset { name: self.name.clone(), asset });
            Ok(())
        }
    }

    /// Takes `bonus` for each unit held of `asset`.
    fn take_acre_bonus(&mut self, asset: AssetType, bonus: i32, logs: &mut Vec<LogEntry>) -> (r:
        Result<(), GameError>)
        ensures
            *final(self) == acre_bonus_outcome(*old(self), asset, bonus).0,
            final(logs)@ =~= old(logs)@ + acre_bonus_outcome(*old(self), asset, bonus).1,
            r == acre_bonus_outcome(*old(self), asset, bonus).2,
            r.is_err() ==> *final(self) == *old(self),
    {
        reveal(acre_bonus_outcome);
        let quantity: i32 = self.assets.quantity_of(&asset);
        assert(-0x8000_0000 * 0x8000_0000 <= (quantity as int) * (bonus as int) <= 0x8000_0000
            * 0x8000_0000) by (nonlinear_arith)
            requires
                -0x8000_0000 <= quantity <= 0x8000_0000,
                -0x8000_0000 <= bonus <= 0x8000_0000,
        ;
        let total: i64 = (quantity as i64) * (bonus as i64);
        if total > i32::MAX as i64 || total < i32::MIN as i64 {
            return Err(GameError::AmountOutOfRange);
        }
        if total > 0 {
            let cash: i64 = self.cash as i64 + total;
            if cash > i32::MAX as i64 {
                return Err(GameError::AmountOutOfRange);
            }
            self.cash = cash as i32;
            logs.push(
                LogEntry::AcreBonus { name: self.name.clone(), total: total as i32, quantity, asset },
            );
        }
        Ok(())
    }

    /// Plays a tile for this player alone. The three effects that draw,
    /// chain or harvest do nothing here: they are played on the state of the
    /// game.
    pub fn apply_solo_tile_effect(
        &mut self,
        effect: &TileEffect,
        board: &Vec<BoardTile>,
        logs: &mut Vec<LogEntry>,
    ) -> (r: Result<(), GameError>)
        ensures
            *final(self) == tile_outcome(*old(self), *effect, board@).0,
            final(logs)@ =~= old(logs)@ + tile_outcome(*old(self), *effect, board@).1,
            r == tile_outcome(*old(self), *effect, board@).2,
            r.is_err() ==> *final(self) == *old(self),
    {
        let r = match effect {
            TileEffect::NoEffect => Ok(()),
            TileEffect::GainCash(amount) => plain(self.gain(*amount, logs)),
            TileEffect::PayCash(amount) => self.pay_or_borrow(*amount, logs),
            TileEffect::SkipYear => plain(self.sit_out_year(logs)),
            TileEffect::Special(text) => {
                logs.push(LogEntry::Text { text: text.clone() });
                Ok(())
            },
            TileEffect::ExpensePerAsset { asset, rate } => self.pay_on_tile(*asset, *rate, logs),
            TileEffect::DoubleYieldForCrop(asset) => {
                self.set_crop_multiplier(*asset, Multiplier::from_percent(200));
                logs.push(LogEntry::YieldDoubled { name: self.name.clone(), asset: *asset });
                Ok(())
            },
            TileEffect::PayInterest => plain(self.pay_interest(logs)),
            TileEffect::GoToTileAndGainCash { tile_index, amount } => self.move_and_gain(
                *tile_index,
                *amount,
                board,
                logs,
            ),
            TileEffect::GainCashIfAsset { asset, amount } => self.gain_if_owned(
                *asset,
                *amount,
                logs,
            ),
            TileEffect::PayCashIfAsset { asset, amount } => self.pay_if_owned(*asset, *amount, logs),
            TileEffect::HarvestBonusPerAcre { asset, bonus } => self.take_acre_bonus(
                *asset,
                *bonus,
                logs,
            ),
            TileEffect::OneTimeHarvestMultiplier { asset, multiplier } => {
                logs.push(
                    LogEntry::YieldSet {
                        name: self.name.clone(),
                        multiplier: *multiplier,
                        asset: *asset,
                    },
                );
                self._set_one_time_harvest_multiplier(*asset, *multiplier);
                Ok(())
            },
            TileEffect::DrawCard(_) => Ok(()),
            TileEffect::GoToTile(_) => Ok(()),
            TileEffect::MoveAndHarvestIfAsset { .. } => Ok(()),
        };
        proof {
            let expected = tile_outcome(*old(self), *effect, board@).2;
            assert(r is Ok ==> expected is Ok && r->Ok_0 == expected->Ok_0);
            assert(r is Err ==> expected is Err && r->Err_0 == expected->Err_0);
            assert(r == expected);
        }
        r
    }
}

} // verus!
