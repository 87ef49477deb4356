//! What a card does to the player who drew it, for every effect that
//! touches no one else.

use crate::cards::card::Card;
use crate::config::{FARM_COW_LIMIT, MAX_DEBT};
use crate::error::GameError;
use crate::game::loan::{interest_due, interest_on, loan_outcome};
use crate::log::LogEntry;
use crate::models::asset::{AssetRecord, AssetType};
use crate::models::effects::GameEffect;
use crate::models::multiplier::clamp_i32;
use crate::models::player::{fits_i32, PersistentEffect, Player};
use crate::text::name_is;
use vstd::prelude::*;

verus! {

/// What an effect comes to: the player afterwards, the entries logged, the
/// result, and whether the card goes to the discard pile of its deck.
pub type Outcome = (Player, Seq<LogEntry>, Result<(), GameError>, bool);

/// The outcome of an effect that an amount out of range stops before it has
/// begun.
pub open spec fn out_of_range(p: Player) -> Outcome {
    (p, Seq::empty(), Err(GameError::AmountOutOfRange), false)
}

/// The outcome of a forced payment of `amount` that follows the entries
/// `before`.
pub open spec fn with_payment(p: Player, before: Seq<LogEntry>, amount: i32) -> Outcome {
    (
        loan_outcome(p, amount).0,
        before + loan_outcome(p, amount).1,
        loan_outcome(p, amount).2,
        false,
    )
}

/// The room that the debt ceiling leaves for borrowing, held to `i32`.
pub open spec fn borrowing_capacity(debt: int) -> int {
    clamp_i32(MAX_DEBT - debt)
}

/// Computes `borrowing_capacity(debt)`.
pub fn capacity_left(debt: i32) -> (c: i32)
    ensures
        c == borrowing_capacity(debt as int),
{
    let room: i64 = MAX_DEBT as i64 - debt as i64;
    if room > i32::MAX as i64 {
        i32::MAX
    } else {
        room as i32
    }
}

/// Whether the card is the legacy, the one option that is played as it is
/// drawn.
pub open spec fn is_legacy(card: Card) -> bool {
    card.title@ == "Uncle Bert's Legacy"@
}

/// The outcome of the legacy: the holding is bought from cash, or with a
/// loan of exactly what is missing where the debt ceiling leaves room for
/// it, or not at all. Cows beyond the farm's limit are refused.
#[verifier::opaque]
pub open spec fn legacy_outcome(p: Player, asset: AssetType, quantity: i32, cost: i32) -> Outcome {
    if asset == AssetType::Cows && p.assets.quantity(AssetType::Cows) + quantity > FARM_COW_LIMIT {
        (
            p,
            Seq::empty(),
            Err(
                GameError::CowLimitExceeded {
                    quantity,
                    current: p.assets.quantity(AssetType::Cows) as i32,
                },
            ),
            false,
        )
    } else if !p.spec_can_add_asset(asset, quantity, cost) {
        out_of_range(p)
    } else if p.cash >= cost {
        if !fits_i32(p.cash - cost) {
            out_of_range(p)
        } else {
            (
                (Player { cash: (p.cash - cost) as i32, ..p }).with_asset_added(
                    asset,
                    quantity,
                    cost,
                ),
                seq![LogEntry::LegacyPaid { name: p.name, cost, quantity, asset }],
                Ok(()),
                true,
            )
        }
    } else if !fits_i32(cost - p.cash) {
        out_of_range(p)
    } else if cost - p.cash <= borrowing_capacity(p.debt as int) {
        (
            (Player { cash: 0, debt: (p.debt + (cost - p.cash)) as i32, ..p }).with_asset_added(
                asset,
                quantity,
                cost,
            ),
            seq![
                LogEntry::LegacyLoan {
                    name: p.name,
                    loan: (cost - p.cash) as i32,
                    cost,
                    quantity,
                    asset,
                },
            ],
            Ok(()),
            true,
        )
    } else {
        (
            p,
            seq![
                LogEntry::LegacyRefused {
                    capacity: borrowing_capacity(p.debt as int) as i32,
                    required: (cost - p.cash) as i32,
                },
            ],
            Ok(()),
            false,
        )
    }
}

/// The outcome of a purchase that a card prescribes: refused where the
/// player cannot pay from cash, or where cows would exceed the farm's limit.
#[verifier::opaque]
pub open spec fn purchase_outcome(p: Player, asset: AssetType, quantity: i32, cost: i32) -> Outcome {
    let total = quantity * cost;
    if !fits_i32(total) {
        out_of_range(p)
    } else {
        let attempt = seq![
            LogEntry::BuyAttempt { name: p.name, quantity, asset, cost, total: total as i32 },
        ];
        if p.cash < total {
            (
                p,
                attempt,
                Err(GameError::InsufficientFunds { required: total as i32, available: p.cash }),
                false,
            )
        } else if asset == AssetType::Cows && p.assets.quantity(AssetType::Cows) + quantity
            > FARM_COW_LIMIT {
            (
                p,
                attempt,
                Err(
                    GameError::CowLimitExceeded {
                        quantity,
                        current: p.assets.quantity(AssetType::Cows) as i32,
                    },
                ),
                false,
            )
        } else if !fits_i32(p.cash - total) || !p.spec_can_add_asset(asset, quantity, total as i32) {
            (p, attempt, Err(GameError::AmountOutOfRange), false)
        } else {
            (
                (Player { cash: (p.cash - total) as i32, ..p }).with_asset_added(
                    asset,
                    quantity,
                    total as i32,
                ),
                attempt.push(
                    LogEntry::Bought { quantity, asset, cash_left: (p.cash - total) as i32 },
                ),
                Ok(()),
                false,
            )
        }
    }
}

/// The outcome of a gain of `amount`.
#[verifier::opaque]
pub open spec fn income_outcome(p: Player, amount: i32) -> Outcome {
    if fits_i32(p.cash + amount) {
        (
            Player { cash: (p.cash + amount) as i32, ..p },
            seq![LogEntry::Gained { name: p.name, amount }],
            Ok(()),
            false,
        )
    } else {
        out_of_range(p)
    }
}

/// The outcome of an expense of `amount`: the amount is announced and then
/// paid as a forced payment.
#[verifier::opaque]
pub open spec fn expense_outcome(p: Player, amount: i32) -> Outcome {
    with_payment(p, seq![LogEntry::MustPay { name: p.name, amount }], amount)
}

/// The outcome of an expense of `rate` for each unit held of `asset`.
#[verifier::opaque]
pub open spec fn expense_per_asset_outcome(p: Player, asset: AssetType, rate: i32) -> Outcome {
    let count = p.assets.quantity(asset);
    let total = count * rate;
    if !fits_i32(total) {
        out_of_range(p)
    } else if total > 0 {
        with_payment(
            p,
            seq![
                LogEntry::MustPayPerAsset {
                    name: p.name,
                    total: total as i32,
                    count: count as i32,
                    rate,
                    asset,
                },
            ],
            total as i32,
        )
    } else {
        (p, seq![LogEntry::NoExpenseForAsset { name: p.name, asset }], Ok(()), false)
    }
}

/// The outcome of an income of `rate` for each unit held of `asset`: the
/// cash grows, and so does what the asset has brought in.
#[verifier::opaque]
pub open spec fn income_per_asset_outcome(p: Player, asset: AssetType, rate: i32) -> Outcome {
    let count = p.assets.quantity(asset);
    let total = count * rate;
    if !fits_i32(total) {
        out_of_range(p)
    } else if total > 0 {
        if !fits_i32(p.cash + total) || !fits_i32(p.assets.income_of(asset) + total) {
            out_of_range(p)
        } else {
            (
                (Player { cash: (p.cash + total) as i32, ..p }).with_income_added(
                    asset,
                    total as i32,
                ),
                seq![
                    LogEntry::GainedPerAsset {
                        name: p.name,
                        total: total as i32,
                        count: count as i32,
                        rate,
                        asset,
                    },
                ],
                Ok(()),
                false,
            )
        }
    } else {
        (p, seq![LogEntry::NoIncomeForAsset { name: p.name, asset }], Ok(()), false)
    }
}

/// The outcome of an income of `rate` for each acre of land.
#[verifier::opaque]
pub open spec fn income_per_acre_outcome(p: Player, rate: i32) -> Outcome {
    let total = p.land * rate;
    if !fits_i32(total) {
        out_of_range(p)
    } else if total > 0 {
        if !fits_i32(p.cash + total) {
            out_of_range(p)
        } else {
            (
                Player { cash: (p.cash + total) as i32, ..p },
                seq![
                    LogEntry::GainedForLand { name: p.name, total: total as i32, land: p.land, rate },
                ],
                Ok(()),
                false,
            )
        }
    } else {
        (p, seq![LogEntry::NoIncomeFromLand { name: p.name }], Ok(()), false)
    }
}

/// The outcome of a change of the debt by `amount`.
#[verifier::opaque]
pub open spec fn adjust_debt_outcome(p: Player, amount: i32) -> Outcome {
    if fits_i32(p.debt + amount) {
        (
            Player { debt: (p.debt + amount) as i32, ..p },
            seq![LogEntry::DebtAdjusted { name: p.name, amount, debt: (p.debt + amount) as i32 }],
            Ok(()),
            false,
        )
    } else {
        out_of_range(p)
    }
}

/// The outcome of a change of the land by `amount`.
#[verifier::opaque]
pub open spec fn adjust_land_outcome(p: Player, amount: i32) -> Outcome {
    if fits_i32(p.land + amount) {
        (
            Player { land: (p.land + amount) as i32, ..p },
            seq![LogEntry::LandAdjusted { name: p.name, amount, land: (p.land + amount) as i32 }],
            Ok(()),
            false,
        )
    } else {
        out_of_range(p)
    }
}

/// The outcome of a payment that is due where `asset` is not in the ledger.
#[verifier::opaque]
pub open spec fn pay_without_outcome(p: Player, asset: AssetType, amount: i32) -> Outcome {
    if !p.assets.has(asset) {
        with_payment(p, seq![LogEntry::MustPayWithout { asset, amount }], amount)
    } else {
        (p, seq![LogEntry::NoPaymentWith { asset }], Ok(()), false)
    }
}

/// The outcome of a gain that is made where `asset` is in the ledger.
#[verifier::opaque]
pub open spec fn income_if_has_outcome(p: Player, asset: AssetType, amount: i32) -> Outcome {
    if p.assets.has(asset) {
        if fits_i32(p.cash + amount) {
            (
                Player { cash: (p.cash + amount) as i32, ..p },
                seq![LogEntry::GainedForAsset { name: p.name, amount, asset }],
                Ok(()),
                false,
            )
        } else {
            out_of_range(p)
        }
    } else {
        (p, seq![LogEntry::NotGained { amount, asset }], Ok(()), false)
    }
}

/// The outcome of a skipped year: the year's number grows by one, and the
/// player stands on the second tile of January.
#[verifier::opaque]
pub open spec fn skip_year_outcome(p: Player) -> Outcome {
    if p.year < u32::MAX {
        (
            Player { year: (p.year + 1) as u32, position: 2, ..p },
            seq![
                LogEntry::SkipsYear { name: p.name },
                LogEntry::MovedToSecondWeek { name: p.name },
            ],
            Ok(()),
            false,
        )
    } else {
        out_of_range(p)
    }
}

/// The outcome of the slaughter of all cows: the record stays, empty.
#[verifier::opaque]
pub open spec fn slaughter_outcome(p: Player) -> Outcome {
    match p.assets.spec_get(AssetType::Cows) {
        Some(r) => if r.quantity > 0 {
            (
                Player {
                    assets: p.assets.with(AssetType::Cows, Some(AssetRecord { quantity: 0, ..r })),
                    ..p
                },
                seq![LogEntry::CowsLost { name: p.name, quantity: r.quantity }],
                Ok(()),
                false,
            )
        } else {
            (p, seq![LogEntry::NoCowsToLose { name: p.name }], Ok(()), false)
        },
        None => (p, seq![LogEntry::NoCowsToLose { name: p.name }], Ok(()), false),
    }
}

/// The outcome of interest falling due: a tenth of the debt, rounded, is
/// paid as a forced payment; nothing where that is not more than nothing.
#[verifier::opaque]
pub open spec fn interest_outcome(p: Player) -> Outcome {
    if interest_on(p.debt as int) > 0 {
        with_payment(
            p,
            seq![
                LogEntry::MustPayInterest { name: p.name, amount: interest_on(p.debt as int) as i32 },
            ],
            interest_on(p.debt as int) as i32,
        )
    } else {
        (p, seq![LogEntry::NoInterest { name: p.name }], Ok(()), false)
    }
}

/// The outcome of a card for the player who drew it. The two effects that
/// reach the other players are told at the table; here they do nothing.
pub open spec fn solo_outcome(p: Player, card: Card) -> Outcome {
    match card.effect {
        GameEffect::Income(amount) => income_outcome(p, amount),
        GameEffect::Expense(amount) => expense_outcome(p, amount),
        GameEffect::BuyAsset { asset, quantity, cost } => purchase_outcome(p, asset, quantity, cost),
        GameEffect::ExpensePerAsset { asset, rate } => expense_per_asset_outcome(p, asset, rate),
        GameEffect::IncomePerAsset { asset, rate } => income_per_asset_outcome(p, asset, rate),
        GameEffect::IncomePerLandAcre { rate } => income_per_acre_outcome(p, rate),
        GameEffect::AdjustDebt(amount) => adjust_debt_outcome(p, amount),
        GameEffect::AdjustLand(amount) => adjust_land_outcome(p, amount),
        GameEffect::Special(text) => (
            p,
            seq![LogEntry::SpecialCard { name: p.name, text }],
            Ok(()),
            false,
        ),
        GameEffect::PayIfNoAssetDistribute { required_asset, amount } => pay_without_outcome(
            p,
            required_asset,
            amount,
        ),
        GameEffect::IncomeIfHas { asset, amount } => income_if_has_outcome(p, asset, amount),
        GameEffect::SuppressHarvestIncome => (
            p,
            seq![LogEntry::HarvestSuppressed { name: p.name }],
            Ok(()),
            false,
        ),
        GameEffect::DrawOperatingExpenseNoHarvest => (
            p,
            seq![LogEntry::Text { text: card.description_brief }],
            Ok(()),
            false,
        ),
        GameEffect::SkipYear => skip_year_outcome(p),
        GameEffect::AddPersistentEffect { effect_type, years } => (
            p,
            seq![LogEntry::Text { text: card.description_brief }],
            Ok(()),
            false,
        ),
        GameEffect::SlaughterCowsWithoutCompensation => slaughter_outcome(p),
        GameEffect::PayInterest => interest_outcome(p),
        GameEffect::OneTimeHarvestMultiplier { asset, multiplier } => (
            p.with_one_time_multiplier(asset, multiplier),
            seq![LogEntry::GainedMultiplier { name: p.name, multiplier, asset }],
            Ok(()),
            false,
        ),
        GameEffect::LeaseRidge { name, cost, cow_count } => (
            p,
            seq![LogEntry::LeaseOffer { ridge: name, cost, cow_count }],
            Ok(()),
            false,
        ),
        GameEffect::OptionalBuyAsset { asset, quantity, cost } => if is_legacy(card) {
            legacy_outcome(p, asset, quantity, cost)
        } else {
            (p, seq![LogEntry::OptionOffer { quantity, asset, cost }], Ok(()), false)
        },
        GameEffect::CollectFromOthersIfHas { .. } => (p, Seq::empty(), Ok(()), false),
        GameEffect::MtStHelensDisaster => (p, Seq::empty(), Ok(()), false),
    }
}

/// Whether `q` is the player `p` after the card: as `solo_outcome` says,
/// and for a card that brings a lasting effect, `p` with that effect added
/// as the last of its effects.
pub open spec fn is_solo_result(p: Player, card: Card, q: Player) -> bool {
    match card.effect {
        GameEffect::AddPersistentEffect { effect_type, years } => {
            &&& q == (Player { persistent_effects: q.persistent_effects, ..p })
            &&& q.persistent_effects@ == p.persistent_effects@.push(
                PersistentEffect { effect_type, years_remaining: years },
            )
        },
        _ => q == solo_outcome(p, card).0,
    }
}

/// A card that fails leaves the player as it was.
pub proof fn lemma_failure_changes_nothing(p: Player, card: Card)
    ensures
        solo_outcome(p, card).2.is_err() ==> solo_outcome(p, card).0 == p && !solo_outcome(
            p,
            card,
        ).3,
{
    match card.effect {
        GameEffect::Income(_) => {
            reveal(income_outcome);
        },
        GameEffect::Expense(_) => {
            reveal(expense_outcome);
        },
        GameEffect::BuyAsset { .. } => {
            reveal(purchase_outcome);
        },
        GameEffect::ExpensePerAsset { .. } => {
            reveal(expense_per_asset_outcome);
        },
        GameEffect::IncomePerAsset { .. } => {
            reveal(income_per_asset_outcome);
        },
        GameEffect::IncomePerLandAcre { .. } => {
            reveal(income_per_acre_outcome);
        },
        GameEffect::AdjustDebt(_) => {
            reveal(adjust_debt_outcome);
        },
        GameEffect::AdjustLand(_) => {
            reveal(adjust_land_outcome);
        },
        GameEffect::PayIfNoAssetDistribute { .. } => {
            reveal(pay_without_outcome);
        },
        GameEffect::IncomeIfHas { .. } => {
            reveal(income_if_has_outcome);
        },
        GameEffect::SkipYear => {
            reveal(skip_year_outcome);
        },
        GameEffect::SlaughterCowsWithoutCompensation => {
            reveal(slaughter_outcome);
        },
        GameEffect::PayInterest => {
            reveal(interest_outcome);
        },
        GameEffect::OptionalBuyAsset { .. } => {
            reveal(legacy_outcome);
        },
        _ => {},
    }
}

/// No card lifts a debt over the ceiling that was not over it, but the card
/// that changes the debt by a given amount.
pub proof fn lemma_card_keeps_ceiling(p: Player, card: Card)
    requires
        p.debt <= MAX_DEBT,
        !(card.effect is AdjustDebt),
    ensures
        solo_outcome(p, card).0.debt <= MAX_DEBT,
{
    match card.effect {
        GameEffect::Income(_) => {
            reveal(income_outcome);
        },
        GameEffect::Expense(_) => {
            reveal(expense_outcome);
        },
        GameEffect::BuyAsset { .. } => {
            reveal(purchase_outcome);
        },
        GameEffect::ExpensePerAsset { .. } => {
            reveal(expense_per_asset_outcome);
        },
        GameEffect::IncomePerAsset { .. } => {
            reveal(income_per_asset_outcome);
        },
        GameEffect::IncomePerLandAcre { .. } => {
            reveal(income_per_acre_outcome);
        },
        GameEffect::AdjustLand(_) => {
            reveal(adjust_land_outcome);
        },
        GameEffect::PayIfNoAssetDistribute { .. } => {
            reveal(pay_without_outcome);
        },
        GameEffect::IncomeIfHas { .. } => {
            reveal(income_if_has_outcome);
        },
        GameEffect::SkipYear => {
            reveal(skip_year_outcome);
        },
        GameEffect::SlaughterCowsWithoutCompensation => {
            reveal(slaughter_outcome);
        },
        GameEffect::PayInterest => {
            reveal(interest_outcome);
        },
        GameEffect::OptionalBuyAsset { .. } => {
            reveal(legacy_outcome);
        },
        _ => {},
    }
}

/// No card changes how many turns the player has taken.
pub proof fn lemma_card_keeps_turns(p: Player, card: Card)
    ensures
        solo_outcome(p, card).0.turns_taken == p.turns_taken,
{
    match card.effect {
        GameEffect::Income(_) => {
            reveal(income_outcome);
        },
        GameEffect::Expense(_) => {
            reveal(expense_outcome);
        },
        GameEffect::BuyAsset { .. } => {
            reveal(purchase_outcome);
        },
        GameEffect::ExpensePerAsset { .. } => {
            reveal(expense_per_asset_outcome);
        },
        GameEffect::IncomePerAsset { .. } => {
            reveal(income_per_asset_outcome);
        },
        GameEffect::IncomePerLandAcre { .. } => {
            reveal(income_per_acre_outcome);
        },
        GameEffect::AdjustDebt(_) => {
            reveal(adjust_debt_outcome);
        },
        GameEffect::AdjustLand(_) => {
            reveal(adjust_land_outcome);
        },
        GameEffect::PayIfNoAssetDistribute { .. } => {
            reveal(pay_without_outcome);
        },
        GameEffect::IncomeIfHas { .. } => {
            reveal(income_if_has_outcome);
        },
        GameEffect::SkipYear => {
            reveal(skip_year_outcome);
        },
        GameEffect::SlaughterCowsWithoutCompensation => {
            reveal(slaughter_outcome);
        },
        GameEffect::PayInterest => {
            reveal(interest_outcome);
        },
        GameEffect::OptionalBuyAsset { .. } => {
            reveal(legacy_outcome);
        },
        _ => {},
    }
}

/// No card buys cows beyond the farm's limit: a purchase, prescribed or
/// inherited, that would leave more than twenty cows on the farm fails, and
/// the player stays as it was.
pub proof fn lemma_cow_cap_on_cards(p: Player, card: Card, quantity: i32, cost: i32)
    requires
        card.effect == (GameEffect::BuyAsset { asset: AssetType::Cows, quantity, cost }) || (
        card.effect == (GameEffect::OptionalBuyAsset { asset: AssetType::Cows, quantity, cost })
            && is_legacy(card)),
        p.assets.quantity(AssetType::Cows) + quantity > FARM_COW_LIMIT,
    ensures
        solo_outcome(p, card).2.is_err(),
        solo_outcome(p, card).0 == p,
{
    reveal(purchase_outcome);
    reveal(legacy_outcome);
}

impl Player {
    /// Plays the legacy for this player.
    fn accept_legacy(
        &mut self,
        asset: AssetType,
        quantity: i32,
        cost: i32,
        logs: &mut Vec<LogEntry>,
    ) -> (r: Result<bool, GameError>)
        ensures
            *final(self) == legacy_outcome(*old(self), asset, quantity, cost).0,
            final(logs)@ =~= old(logs)@ + legacy_outcome(*old(self), asset, quantity, cost).1,
            match legacy_outcome(*old(self), asset, quantity, cost).2 {
                Ok(()) => r == Ok::<bool, GameError>(
                    legacy_outcome(*old(self), asset, quantity, cost).3,
                ),
                Err(e) => r == Err::<bool, GameError>(e),
            },
            r.is_err() ==> *final(self) == *old(self),
    {
        reveal(legacy_outcome);
        let cows: i32 = self.assets.quantity_of(&AssetType::Cows);
        if asset == AssetType::Cows && cows as i64 + quantity as i64 > FARM_COW_LIMIT as i64 {
            return Err(GameError::CowLimitExceeded { quantity, current: cows });
        }
        if !self.can_add_asset(asset, quantity, cost) {
            return Err(GameError::AmountOutOfRange);
        }
        if self.cash >= cost {
            let left: i64 = self.cash as i64 - cost as i64;
            if left > i32::MAX as i64 {
                return Err(GameError::AmountOutOfRange);
            }
            self.cash = left as i32;
            self.put_asset(asset, quantity, cost);
            logs.push(LogEntry::LegacyPaid { name: self.name.clone(), cost, quantity, asset });
            return Ok(true);
        }
        let missing: i64 = cost as i64 - self.cash as i64;
        if missing > i32::MAX as i64 {
            return Err(GameError::AmountOutOfRange);
        }
        let capacity: i32 = capacity_left(self.debt);
        if missing <= capacity as i64 {
            self.debt = (self.debt as i64 + missing) as i32;
            self.cash = 0;
            self.put_asset(asset, quantity, cost);
            logs.push(
                LogEntry::LegacyLoan {
                    name: self.name.clone(),
                    loan: missing as i32,
                    cost,
                    quantity,
                    asset,
                },
            );
            Ok(true)
        } else {
            logs.push(LogEntry::LegacyRefused { capacity, required: missing as i32 });
            Ok(false)
        }
    }

    /// Makes the purchase that a card prescribes.
    fn purchase(&mut self, asset: AssetType, quantity: i32, cost: i32, logs: &mut Vec<LogEntry>) -> (r:
        Result<bool, GameError>)
        ensures
            *final(self) == purchase_outcome(*old(self), asset, quantity, cost).0,
            final(logs)@ =~= old(logs)@ + purchase_outcome(*old(self), asset, quantity, cost).1,
            match purchase_outcome(*old(self), asset, quantity, cost).2 {
                Ok(()) => r == Ok::<bool, GameError>(purchase_outcome(*old(self), asset, quantity, cost).3),
                Err(e) => r == Err::<bool, GameError>(e),
            },
            r.is_err() ==> *final(self) == *old(self),
    {
        reveal(purchase_outcome);
        assert(-0x8000_0000 * 0x8000_0000 <= (quantity as int) * (cost as int) <= 0x8000_0000
            * 0x8000_0000) by (nonlinear_arith)
            requires
                -0x8000_0000 <= quantity <= 0x8000_0000,
                -0x8000_0000 <= cost <= 0x8000_0000,
        ;
        let total: i64 = (quantity as i64) * (cost as i64);
        if total > i32::MAX as i64 || total < i32::MIN as i64 {
            return Err(GameError::AmountOutOfRange);
        }
        logs.push(
            LogEntry::BuyAttempt {
                name: self.name.clone(),
                quantity,
                asset,
                cost,
                total: total as i32,
            },
        );
        if (self.cash as i64) < total {
            return Err(
                GameError::InsufficientFunds { required: total as i32, available: self.cash },
            );
        }
        let cows: i32 = self.assets.quantity_of(&AssetType::Cows);
        if asset == AssetType::Cows && cows as i64 + quantity as i64 > FARM_COW_LIMIT as i64 {
            return Err(GameError::CowLimitExceeded { quantity, current: cows });
        }
        let left: i64 = self.cash as i64 - total;
        if left > i32::MAX as i64 || !self.can_add_asset(asset, quantity, total as i32) {
            return Err(GameError::AmountOutOfRange);
        }
        self.cash = left as i32;
        self.put_asset(asset, quantity, total as i32);
        logs.push(LogEntry::Bought { quantity, asset, cash_left: self.cash });
        Ok(false)
    }

    /// Takes a gain of `amount`.
    pub(crate) fn gain(&mut self, amount: i32, logs: &mut Vec<LogEntry>) -> (r: Result<bool, GameError>)
        ensures
            *final(self) == income_outcome(*old(self), amount).0,
            final(logs)@ =~= old(logs)@ + income_outcome(*old(self), amount).1,
            match income_outcome(*old(self), amount).2 {
                Ok(()) => r == Ok::<bool, GameError>(income_outcome(*old(self), amount).3),
                Err(e) => r == Err::<bool, GameError>(e),
            },
            r.is_err() ==> *final(self) == *old(self),
    {
        reveal(income_outcome);
        let cash: i64 = self.cash as i64 + amount as i64;
        if cash > i32::MAX as i64 || cash < i32::MIN as i64 {
            return Err(GameError::AmountOutOfRange);
        }
        self.cash = cash as i32;
        logs.push(LogEntry::Gained { name: self.name.clone(), amount: amount });
        Ok(false)
    }

    /// Pays an expense of `amount`.
    fn pay_expense(&mut self, amount: i32, logs: &mut Vec<LogEntry>) -> (r: Result<bool, GameError>)
        ensures
            *final(self) == expense_outcome(*old(self), amount).0,
            final(logs)@ =~= old(logs)@ + expense_outcome(*old(self), amount).1,
            match expense_outcome(*old(self), amount).2 {
                Ok(()) => r == Ok::<bool, GameError>(expense_outcome(*old(self), amount).3),
                Err(e) => r == Err::<bool, GameError>(e),
            },
            r.is_err() ==> *final(self) == *old(self),
    {
        reveal(expense_outcome);
        logs.push(LogEntry::MustPay { name: self.name.clone(), amount: amount });
        match self.pay_or_borrow(amount, logs) {
            Ok(()) => Ok(false),
            Err(e) => Err(e),
        }
    }

    /// Pays `rate` for each unit held of `asset`.
    fn pay_per_asset(&mut self, asset: AssetType, rate: i32, logs: &mut Vec<LogEntry>) -> (r: Result<bool, GameError>)
        ensures
            *final(self) == expense_per_asset_outcome(*old(self), asset, rate).0,
            final(logs)@ =~= old(logs)@ + expense_per_asset_outcome(*old(self), asset, rate).1,
            match expense_per_asset_outcome(*old(self), asset, rate).2 {
                Ok(()) => r == Ok::<bool, GameError>(expense_per_asset_outcome(*old(self), asset, rate).3),
                Err(e) => r == Err::<bool, GameError>(e),
            },
            r.is_err() ==> *final(self) == *old(self),
    {
        reveal(expense_per_asset_outcome);
        let count: i32 = self.assets.quantity_of(&asset);
        assert(-0x8000_0000 * 0x8000_0000 <= (count as int) * (rate as int) <= 0x8000_0000
            * 0x8000_0000) by (nonlinear_arith)
            requires
                -0x8000_0000 <= count <= 0x8000_0000,
                -0x8000_0000 <= rate <= 0x8000_0000,
        ;
        let total: i64 = (count as i64) * (rate as i64);
        if total > i32::MAX as i64 || total < i32::MIN as i64 {
            return Err(GameError::AmountOutOfRange);
        }
        if total > 0 {
            logs.push(
                LogEntry::MustPayPerAsset {
                    name: self.name.clone(),
                    total: total as i32,
                    count,
                    rate: rate,
                    asset: asset,
                },
            );
            match self.pay_or_borrow(total as i32, logs) {
                Ok(()) => Ok(false),
                Err(e) => Err(e),
            }
        } else {
            logs.push(
                LogEntry::NoExpenseForAsset { name: self.name.clone(), asset: asset },
            );
            Ok(false)
        }
    }

    /// Takes `rate` for each unit held of `asset`.
    fn gain_per_asset(&mut self, asset: AssetType, rate: i32, logs: &mut Vec<LogEntry>) -> (r: Result<bool, GameError>)
        ensures
            *final(self) == income_per_asset_outcome(*old(self), asset, rate).0,
            final(logs)@ =~= old(logs)@ + income_per_asset_outcome(*old(self), asset, rate).1,
            match income_per_asset_outcome(*old(self), asset, rate).2 {
                Ok(()) => r == Ok::<bool, GameError>(income_per_asset_outcome(*old(self), asset, rate).3),
                Err(e) => r == Err::<bool, GameError>(e),
            },
            r.is_err() ==> *final(self) == *old(self),
    {
        reveal(income_per_asset_outcome);
        let count: i32 = self.assets.quantity_of(&asset);
        assert(-0x8000_0000 * 0x8000_0000 <= (count as int) * (rate as int) <= 0x8000_0000
            * 0x8000_0000) by (nonlinear_arith)
            requires
                -0x8000_0000 <= count <= 0x8000_0000,
                -0x8000_0000 <= rate <= 0x8000_0000,
        ;
        let total: i64 = (count as i64) * (rate as i64);
        if total > i32::MAX as i64 || total < i32::MIN as i64 {
            return Err(GameError::AmountOutOfRange);
        }
        if total > 0 {
            let cash: i64 = self.cash as i64 + total;
            let held: Option<AssetRecord> = match self.assets.get(&asset) {
                Some(r) => Some(*r),
                None => None,
            };
            let income: i64 = match held {
                Some(r) => r.total_income as i64 + total,
                None => total,
            };
            if cash > i32::MAX as i64 || income > i32::MAX as i64 {
                return Err(GameError::AmountOutOfRange);
            }
            self.cash = cash as i32;
            logs.push(
                LogEntry::GainedPerAsset {
                    name: self.name.clone(),
                    total: total as i32,
                    count,
                    rate: rate,
                    asset: asset,
                },
            );
            match held {
                Some(r) => {
                    self.assets.insert(
                        asset,
                        AssetRecord { total_income: income as i32, ..r },
                    );
                },
                None => {},
            }
            Ok(false)
        } else {
            logs.push(LogEntry::NoIncomeForAsset { name: self.name.clone(), asset: asset });
            Ok(false)
        }
    }

    /// Takes `rate` for each acre of land.
    fn gain_per_acre(&mut self, rate: i32, logs: &mut Vec<LogEntry>) -> (r: Result<bool, GameError>)
        ensures
            *final(self) == income_per_acre_outcome(*old(self), rate).0,
            final(logs)@ =~= old(logs)@ + income_per_acre_outcome(*old(self), rate).1,
            match income_per_acre_outcome(*old(self), rate).2 {
                Ok(()) => r == Ok::<bool, GameError>(income_per_acre_outcome(*old(self), rate).3),
                Err(e) => r == Err::<bool, GameError>(e),
            },
            r.is_err() ==> *final(self) == *old(self),
    {
        reveal(income_per_acre_outcome);
        assert(-0x8000_0000 * 0x8000_0000 <= (self.land as int) * (rate as int)
            <= 0x8000_0000 * 0x8000_0000) by (nonlinear_arith)
            requires
                -0x8000_0000 <= self.land <= 0x8000_0000,
                -0x8000_0000 <= rate <= 0x8000_0000,
        ;
        let total: i64 = (self.land as i64) * (rate as i64);
        if total > i32::MAX as i64 || total < i32::MIN as i64 {
            return Err(GameError::AmountOutOfRange);
        }
        if total > 0 {
            let cash: i64 = self.cash as i64 + total;
            if cash > i32::MAX as i64 {
                return Err(GameError::AmountOutOfRange);
            }
            logs.push(
                LogEntry::GainedForLand {
                    name: self.name.clone(),
                    total: total as i32,
                    land: self.land,
                    rate: rate,
                },
            );
            self.cash = cash as i32;
            Ok(false)
        } else {
            logs.push(LogEntry::NoIncomeFromLand { name: self.name.clone() });
            Ok(false)
        }
    }

    /// Changes the debt by `amount`.
    fn adjust_debt(&mut self, amount: i32, logs: &mut Vec<LogEntry>) -> (r: Result<bool, GameError>)
        ensures
            *final(self) == adjust_debt_outcome(*old(self), amount).0,
            final(logs)@ =~= old(logs)@ + adjust_debt_outcome(*old(self), amount).1,
            match adjust_debt_outcome(*old(self), amount).2 {
                Ok(()) => r == Ok::<bool, GameError>(adjust_debt_outcome(*old(self), amount).3),
                Err(e) => r == Err::<bool, GameError>(e),
            },
            r.is_err() ==> *final(self) == *old(self),
    {
        reveal(adjust_debt_outcome);
        let debt: i64 = self.debt as i64 + amount as i64;
        if debt > i32::MAX as i64 || debt < i32::MIN as i64 {
            return Err(GameError::AmountOutOfRange);
        }
        self.debt = debt as i32;
        logs.push(
            LogEntry::DebtAdjusted {
                name: self.name.clone(),
                amount: amount,
                debt: self.debt,
            },
        );
        Ok(false)
    }

    /// Changes the land by `amount`.
    fn adjust_land(&mut self, amount: i32, logs: &mut Vec<LogEntry>) -> (r: Result<bool, GameError>)
        ensures
            *final(self) == adjust_land_outcome(*old(self), amount).0,
            final(logs)@ =~= old(logs)@ + adjust_land_outcome(*old(self), amount).1,
            match adjust_land_outcome(*old(self), amount).2 {
                Ok(()) => r == Ok::<bool, GameError>(adjust_land_outcome(*old(self), amount).3),
                Err(e) => r == Err::<bool, GameError>(e),
            },
            r.is_err() ==> *final(self) == *old(self),
    {
        reveal(adjust_land_outcome);
        let land: i64 = self.land as i64 + amount as i64;
        if land > i32::MAX as i64 || land < i32::MIN as i64 {
            return Err(GameError::AmountOutOfRange);
        }
        self.land = land as i32;
        logs.push(
            LogEntry::LandAdjusted {
                name: self.name.clone(),
                amount: amount,
                land: self.land,
            },
        );
        Ok(false)
    }

    /// Pays `amount` where `required_asset` is not in the ledger.
    fn pay_without(&mut self, required_asset: AssetType, amount: i32, logs: &mut Vec<LogEntry>) -> (r: Result<bool, GameError>)
        ensures
            *final(self) == pay_without_outcome(*old(self), required_asset, amount).0,
            final(logs)@ =~= old(logs)@ + pay_without_outcome(*old(self), required_asset, amount).1,
            match pay_without_outcome(*old(self), required_asset, amount).2 {
                Ok(()) => r == Ok::<bool, GameError>(pay_without_outcome(*old(self), required_asset, amount).3),
                Err(e) => r == Err::<bool, GameError>(e),
            },
            r.is_err() ==> *final(self) == *old(self),
    {
        reveal(pay_without_outcome);
        if !self.assets.contains_key(&required_asset) {
            logs.push(
                LogEntry::MustPayWithout { asset: required_asset, amount: amount },
            );
            match self.pay_or_borrow(amount, logs) {
                Ok(()) => Ok(false),
                Err(e) => Err(e),
            }
        } else {
            logs.push(LogEntry::NoPaymentWith { asset: required_asset });
            Ok(false)
        }
    }

    /// Takes `amount` where `asset` is in the ledger.
    fn gain_if_has(&mut self, asset: AssetType, amount: i32, logs: &mut Vec<LogEntry>) -> (r: Result<bool, GameError>)
        ensures
            *final(self) == income_if_has_outcome(*old(self), asset, amount).0,
            final(logs)@ =~= old(logs)@ + income_if_has_outcome(*old(self), asset, amount).1,
            match income_if_has_outcome(*old(self), asset, amount).2 {
                Ok(()) => r == Ok::<bool, GameError>(income_if_has_outcome(*old(self), asset, amount).3),
                Err(e) => r == Err::<bool, GameError>(e),
            },
            r.is_err() ==> *final(self) == *old(self),
    {
        reveal(income_if_has_outcome);
        if self.assets.contains_key(&asset) {
            let cash: i64 = self.cash as i64 + amount as i64;
            if cash > i32::MAX as i64 || cash < i32::MIN as i64 {
                return Err(GameError::AmountOutOfRange);
            }
            self.cash = cash as i32;
            logs.push(
                LogEntry::GainedForAsset {
                    name: self.name.clone(),
                    amount: amount,
                    asset: asset,
                },
            );
            Ok(false)
        } else {
            logs.push(LogEntry::NotGained { amount: amount, asset: asset });
            Ok(false)
        }
    }

    /// Skips a year.
    pub(crate) fn sit_out_year(&mut self, logs: &mut Vec<LogEntry>) -> (r: Result<bool, GameError>)
        ensures
            *final(self) == skip_year_outcome(*old(self)).0,
            final(logs)@ =~= old(logs)@ + skip_year_outcome(*old(self)).1,
            match skip_year_outcome(*old(self)).2 {
                Ok(()) => r == Ok::<bool, GameError>(skip_year_outcome(*old(self)).3),
                Err(e) => r == Err::<bool, GameError>(e),
            },
            r.is_err() ==> *final(self) == *old(self),
    {
        reveal(skip_year_outcome);
        if self.year == u32::MAX {
            return Err(GameError::AmountOutOfRange);
        }
        logs.push(LogEntry::SkipsYear { name: self.name.clone() });
        self._skip_year();
        self.position = 2;
        logs.push(LogEntry::MovedToSecondWeek { name: self.name.clone() });
        Ok(false)
    }

    /// Loses all cows.
    fn lose_cows(&mut self, logs: &mut Vec<LogEntry>) -> (r: Result<bool, GameError>)
        ensures
            *final(self) == slaughter_outcome(*old(self)).0,
            final(logs)@ =~= old(logs)@ + slaughter_outcome(*old(self)).1,
            match slaughter_outcome(*old(self)).2 {
                Ok(()) => r == Ok::<bool, GameError>(slaughter_outcome(*old(self)).3),
                Err(e) => r == Err::<bool, GameError>(e),
            },
            r.is_err() ==> *final(self) == *old(self),
    {
        reveal(slaughter_outcome);
        let held: Option<AssetRecord> = match self.assets.get(&AssetType::Cows) {
            Some(r) => Some(*r),
            None => None,
        };
        match held {
            Some(r) => {
                if r.quantity > 0 {
                    logs.push(
                        LogEntry::CowsLost { name: self.name.clone(), quantity: r.quantity },
                    );
                    self.assets.insert(AssetType::Cows, AssetRecord { quantity: 0, ..r });
                } else {
                    logs.push(LogEntry::NoCowsToLose { name: self.name.clone() });
                }
            },
            None => {
                logs.push(LogEntry::NoCowsToLose { name: self.name.clone() });
            },
        }
        Ok(false)
    }

    /// Pays the interest on the debt.
    pub(crate) fn pay_interest(&mut self, logs: &mut Vec<LogEntry>) -> (r: Result<bool, GameError>)
        ensures
            *final(self) == interest_outcome(*old(self)).0,
            final(logs)@ =~= old(logs)@ + interest_outcome(*old(self)).1,
            match interest_outcome(*old(self)).2 {
                Ok(()) => r == Ok::<bool, GameError>(interest_outcome(*old(self)).3),
                Err(e) => r == Err::<bool, GameError>(e),
            },
            r.is_err() ==> *final(self) == *old(self),
    {
        reveal(interest_outcome);
        let interest: i32 = interest_due(self.debt);
        if interest > 0 {
            logs.push(
                LogEntry::MustPayInterest { name: self.name.clone(), amount: interest },
            );
            match self.pay_or_borrow(interest, logs) {
                Ok(()) => Ok(false),
                Err(e) => Err(e),
            }
        } else {
            logs.push(LogEntry::NoInterest { name: self.name.clone() });
            Ok(false)
        }
    }

    /// Plays a card for this player alone. The two cards that reach the
    /// other players do nothing here: they are played at the table. Returns
    /// whether the card goes to the discard pile of its deck.
    #[verifier::rlimit(50)]
    pub fn apply_solo_effect(&mut self, card: &Card, logs: &mut Vec<LogEntry>) -> (r: Result<
        bool,
        GameError,
    >)
        ensures
            is_solo_result(*old(self), *card, *final(self)),
            final(logs)@ =~= old(logs)@ + solo_outcome(*old(self), *card).1,
            match solo_outcome(*old(self), *card).2 {
                Ok(()) => r == Ok::<bool, GameError>(solo_outcome(*old(self), *card).3),
                Err(e) => r == Err::<bool, GameError>(e),
            },
            r.is_err() ==> *final(self) == *old(self),
    {
        match &card.effect {
            GameEffect::Income(amount) => self.gain(*amount, logs),
            GameEffect::Expense(amount) => self.pay_expense(*amount, logs),
            GameEffect::BuyAsset { asset, quantity, cost } => self.purchase(
                *asset,
                *quantity,
                *cost,
                logs,
            ),
            GameEffect::ExpensePerAsset { asset, rate } => self.pay_per_asset(*asset, *rate, logs),
            GameEffect::IncomePerAsset { asset, rate } => self.gain_per_asset(*asset, *rate, logs),
            GameEffect::IncomePerLandAcre { rate } => self.gain_per_acre(*rate, logs),
            GameEffect::AdjustDebt(amount) => self.adjust_debt(*amount, logs),
            GameEffect::AdjustLand(amount) => self.adjust_land(*amount, logs),
            GameEffect::Special(text) => {
                logs.push(LogEntry::SpecialCard { name: self.name.clone(), text: text.clone() });
                Ok(false)
            },
            GameEffect::PayIfNoAssetDistribute { required_asset, amount } => self.pay_without(*required_asset, *amount, logs),
            GameEffect::IncomeIfHas { asset, amount } => self.gain_if_has(*asset, *amount, logs),
            GameEffect::SuppressHarvestIncome => {
                logs.push(LogEntry::HarvestSuppressed { name: self.name.clone() });
                Ok(false)
            },
            GameEffect::DrawOperatingExpenseNoHarvest => {
                logs.push(LogEntry::Text { text: card.description_brief.clone() });
                Ok(false)
            },
            GameEffect::SkipYear => self.sit_out_year(logs),
            GameEffect::AddPersistentEffect { effect_type, years } => {
                self.add_persistent_effect(*effect_type, *years);
                logs.push(LogEntry::Text { text: card.description_brief.clone() });
                Ok(false)
            },
            GameEffect::SlaughterCowsWithoutCompensation => self.lose_cows(logs),
            GameEffect::PayInterest => self.pay_interest(logs),
            GameEffect::OneTimeHarvestMultiplier { asset, multiplier } => {
                logs.push(
                    LogEntry::GainedMultiplier {
                        name: self.name.clone(),
                        multiplier: *multiplier,
                        asset: *asset,
                    },
                );
                self._set_one_time_harvest_multiplier(*asset, *multiplier);
                Ok(false)
            },
            GameEffect::LeaseRidge { name, cost, cow_count } => {
                logs.push(
                    LogEntry::LeaseOffer { ridge: name.clone(), cost: *cost, cow_count: *cow_count },
                );
                Ok(false)
            },
            GameEffect::OptionalBuyAsset { asset, quantity, cost } => {
                if name_is(&card.title, "Uncle Bert's Legacy") {
                    self.accept_legacy(*asset, *quantity, *cost, logs)
                } else {
                    logs.push(
                        LogEntry::OptionOffer { quantity: *quantity, asset: *asset, cost: *cost },
                    );
                    Ok(false)
                }
            },
            GameEffect::CollectFromOthersIfHas { .. } => Ok(false),
            GameEffect::MtStHelensDisaster => Ok(false),
        }
    }
}

} // verus!
