//! What a card does.

use crate::models::asset::AssetType;
use crate::models::multiplier::Multiplier;
use crate::models::player::EffectType;
use vstd::prelude::*;

verus! {

/// The effect of a card.
#[derive(Debug, PartialEq)]
pub enum GameEffect {
    CollectFromOthersIfHas { asset: AssetType, amount: i32 },
    IncomeIfHas { asset: AssetType, amount: i32 },
    SuppressHarvestIncome,
    MtStHelensDisaster,
    PayIfNoAssetDistribute { required_asset: AssetType, amount: i32 },
    ExpensePerAsset { asset: AssetType, rate: i32 },
    IncomePerAsset { asset: AssetType, rate: i32 },
    Income(i32),
    Expense(i32),
    AdjustDebt(i32),
    AdjustLand(i32),
    Special(String),
    LeaseRidge { name: String, cost: i32, cow_count: i32 },
    BuyAsset { asset: AssetType, quantity: i32, cost: i32 },
    OptionalBuyAsset { asset: AssetType, quantity: i32, cost: i32 },
    SkipYear,
    AddPersistentEffect { effect_type: EffectType, years: u32 },
    SlaughterCowsWithoutCompensation,
    PayInterest,
    DrawOperatingExpenseNoHarvest,
    OneTimeHarvestMultiplier { asset: AssetType, multiplier: Multiplier },
    IncomePerLandAcre { rate: i32 },
}

impl Clone for GameEffect {
    fn clone(&self) -> (r: Self)
        ensures
            r == *self,
    {
        match self {
            GameEffect::CollectFromOthersIfHas { asset, amount } => GameEffect::CollectFromOthersIfHas {
                asset: *asset,
                amount: *amount,
            },
            GameEffect::IncomeIfHas { asset, amount } => GameEffect::IncomeIfHas {
                asset: *asset,
                amount: *amount,
            },
            GameEffect::SuppressHarvestIncome => GameEffect::SuppressHarvestIncome,
            GameEffect::MtStHelensDisaster => GameEffect::MtStHelensDisaster,
            GameEffect::PayIfNoAssetDistribute { required_asset, amount } =>
                GameEffect::PayIfNoAssetDistribute {
                    required_asset: *required_asset,
                    amount: *amount,
                },
            GameEffect::ExpensePerAsset { asset, rate } => GameEffect::ExpensePerAsset {
                asset: *asset,
                rate: *rate,
            },
            GameEffect::IncomePerAsset { asset, rate } => GameEffect::IncomePerAsset {
                asset: *asset,
                rate: *rate,
            },
            GameEffect::Income(a) => GameEffect::Income(*a),
            GameEffect::Expense(a) => GameEffect::Expense(*a),
            GameEffect::AdjustDebt(a) => GameEffect::AdjustDebt(*a),
            GameEffect::AdjustLand(a) => GameEffect::AdjustLand(*a),
            GameEffect::Special(s) => GameEffect::Special(s.clone()),
            GameEffect::LeaseRidge { name, cost, cow_count } => GameEffect::LeaseRidge {
                name: name.clone(),
                cost: *cost,
                cow_count: *cow_count,
            },
            GameEffect::BuyAsset { asset, quantity, cost } => GameEffect::BuyAsset {
                asset: *asset,
                quantity: *quantity,
                cost: *cost,
            },
            GameEffect::OptionalBuyAsset { asset, quantity, cost } => GameEffect::OptionalBuyAsset {
                asset: *asset,
                quantity: *quantity,
                cost: *cost,
            },
            GameEffect::SkipYear => GameEffect::SkipYear,
            GameEffect::AddPersistentEffect { effect_type, years } => GameEffect::AddPersistentEffect {
                effect_type: *effect_type,
                years: *years,
            },
            GameEffect::SlaughterCowsWithoutCompensation =>
                GameEffect::SlaughterCowsWithoutCompensation,
            GameEffect::PayInterest => GameEffect::PayInterest,
            GameEffect::DrawOperatingExpenseNoHarvest => GameEffect::DrawOperatingExpenseNoHarvest,
            GameEffect::OneTimeHarvestMultiplier { asset, multiplier } =>
                GameEffect::OneTimeHarvestMultiplier { asset: *asset, multiplier: *multiplier },
            GameEffect::IncomePerLandAcre { rate } => GameEffect::IncomePerLandAcre { rate: *rate },
        }
    }
}

impl GameEffect {
    /// Whether the effect is an option that a player holds and exercises
    /// later: a purchase or a lease.
    pub open spec fn spec_is_option(&self) -> bool {
        self is OptionalBuyAsset || self is LeaseRidge
    }

    /// Whether the effect is an option that a player holds and exercises
    /// later: a purchase or a lease.
    #[verifier::when_used_as_spec(spec_is_option)]
    pub fn is_option(&self) -> (b: bool)
        ensures
            b == self.spec_is_option(),
    {
        match self {
            GameEffect::OptionalBuyAsset { .. } => true,
            GameEffect::LeaseRidge { .. } => true,
            _ => false,
        }
    }
}

} // verus!
