//! The log of the engine: one entry for each thing that happened, with the
//! numbers and names it happened to, and the words that an entry is read as.

use crate::error::{copy_error, GameError};
use crate::models::asset::AssetType;
use crate::models::board::{HarvestType, TileType};
use crate::models::multiplier::Multiplier;
use crate::text::{digit_str, digit_text, int_text, nat_text, push_int, push_nat};
use vstd::prelude::*;
use vstd::string::StringExecFns;

verus! {

/// The word for one unit of an asset.
pub open spec fn unit_text(asset: AssetType) -> Seq<char> {
    if asset == AssetType::Cows {
        "cow"@
    } else {
        "acre"@
    }
}

/// The word for several units of an asset.
pub open spec fn units_text(asset: AssetType) -> Seq<char> {
    if asset == AssetType::Cows {
        "cows"@
    } else {
        "acres"@
    }
}

/// The word for one unit of an asset.
pub fn unit_word(asset: AssetType) -> (s: &'static str)
    ensures
        s@ == unit_text(asset),
{
    if asset == AssetType::Cows {
        "cow"
    } else {
        "acre"
    }
}

/// The word for several units of an asset.
pub fn units_word(asset: AssetType) -> (s: &'static str)
    ensures
        s@ == units_text(asset),
{
    if asset == AssetType::Cows {
        "cows"
    } else {
        "acres"
    }
}

impl Multiplier {
    /// The factor with one decimal place, the further places cut off.
    pub open spec fn tenths_text(&self) -> Seq<char> {
        nat_text((self.percent / 100) as nat) + "."@ + digit_text(((self.percent % 100) / 10) as int)
    }

    /// Appends the factor with one decimal place.
    pub fn push_tenths(&self, s: &mut String)
        ensures
            final(s)@ == old(s)@ + self.tenths_text(),
    {
        push_nat(s, (self.percent / 100) as u64);
        s.append(".");
        s.append(digit_str(((self.percent % 100) / 10) as u64));
    }
}

/// One entry of the log.
#[derive(Debug, PartialEq)]
pub enum LogEntry {
    /// A line of text as it stands: a description of a card or a tile.
    Text { text: String },
    /// A payment made from cash.
    Paid { name: String, amount: i32, cash_left: i32 },
    /// A payment that the debt ceiling leaves no loan for.
    DebtLimitHit { name: String, required: i32 },
    /// A forced loan: the sum borrowed, the bank's fee, the cash that arrived and the new debt.
    TookLoan { loan: i32, fee: i32, received: i32, debt: i32 },
    /// Cash gained.
    Gained { name: String, amount: i32 },
    /// A payment that is due.
    MustPay { name: String, amount: i32 },
    /// A purchase that a card prescribes.
    BuyAttempt { name: String, quantity: i32, asset: AssetType, cost: i32, total: i32 },
    /// A purchase made.
    Bought { quantity: i32, asset: AssetType, cash_left: i32 },
    /// An expense by the unit held.
    MustPayPerAsset { name: String, total: i32, count: i32, rate: i32, asset: AssetType },
    /// An expense by the unit that comes to nothing.
    NoExpenseForAsset { name: String, asset: AssetType },
    /// An income by the unit held.
    GainedPerAsset { name: String, total: i32, count: i32, rate: i32, asset: AssetType },
    /// An income by the unit that comes to nothing.
    NoIncomeForAsset { name: String, asset: AssetType },
    /// An income by the acre of land.
    GainedForLand { name: String, total: i32, land: i32, rate: i32 },
    /// An income by the acre that comes to nothing.
    NoIncomeFromLand { name: String },
    /// A change of the debt.
    DebtAdjusted { name: String, amount: i32, debt: i32 },
    /// A change of the land.
    LandAdjusted { name: String, amount: i32, land: i32 },
    /// A card whose effect is told, not played.
    SpecialCard { name: String, text: String },
    /// A collection from the others is about to be made.
    CollectAnnounce { name: String, amount: i32, asset: AssetType },
    /// One of the others owes the collection.
    CollectOwes { name: String, asset: AssetType, amount: i32 },
    /// The collection is paid from cash.
    CollectFromCash { amount: i32 },
    /// The collection is paid from cash and a loan.
    CollectWithLoan { cash: i32, principal: i32, interest: i32 },
    /// The collection cannot be paid in full.
    CollectCannotPay { cash: i32, capacity: i32 },
    /// What cash there is goes to the collection.
    CollectPaysCash { cash: i32 },
    /// One of the others owes nothing.
    CollectExempt { name: String, asset: AssetType },
    /// What the collection brought in.
    CollectedTotal { name: String, total: i32, cash: i32 },
    /// A payment due for want of an asset.
    MustPayWithout { asset: AssetType, amount: i32 },
    /// No payment is due, as the asset is held.
    NoPaymentWith { asset: AssetType },
    /// Cash gained for holding an asset.
    GainedForAsset { name: String, amount: i32, asset: AssetType },
    /// Cash not gained for want of an asset.
    NotGained { amount: i32, asset: AssetType },
    /// No harvest income this turn.
    HarvestSuppressed { name: String },
    /// A year is skipped.
    SkipsYear { name: String },
    /// The move that follows a skipped year.
    MovedToSecondWeek { name: String },
    /// All cows lost.
    CowsLost { name: String, quantity: i32 },
    /// No cows to lose.
    NoCowsToLose { name: String },
    /// Interest that is due.
    MustPayInterest { name: String, amount: i32 },
    /// No interest is due.
    NoInterest { name: String },
    /// A factor on the next harvest, from a card.
    GainedMultiplier { name: String, multiplier: Multiplier, asset: AssetType },
    /// A card that offers a lease.
    LeaseOffer { ridge: String, cost: i32, cow_count: i32 },
    /// The legacy taken up from cash.
    LegacyPaid { name: String, cost: i32, quantity: i32, asset: AssetType },
    /// The legacy taken up with a loan.
    LegacyLoan { name: String, loan: i32, cost: i32, quantity: i32, asset: AssetType },
    /// The legacy is out of reach.
    LegacyRefused { capacity: i32, required: i32 },
    /// A card that offers a purchase.
    OptionOffer { quantity: i32, asset: AssetType, cost: i32 },
    /// The bonus on hay that the ash spared.
    AshBonus { name: String, bonus: i32, acres: i32 },
    /// An odd roll: the ash passed by.
    AshEscaped { name: String, roll: u8 },
    /// An even roll: the ash came down.
    AshHit { name: String, roll: u8 },
    /// What the ash costs to clear.
    AshCleanup { name: String, cost: i32 },
    /// No acres for the ash to fall on.
    AshNoAcres { name: String },
    /// A Farmer's Fate card was drawn.
    DrewFate { title: String },
    /// An Option to Buy card was drawn.
    DrewOption { title: String },
    /// A move to a tile of the board.
    MovedTo { name: String, tile: String },
    /// A move to a position that the board has no tile for.
    MovedToIndex { name: String, index: usize },
    /// A doubled harvest.
    YieldDoubled { name: String, asset: AssetType },
    /// A move with a gain.
    MovedAndGained { name: String, tile: String, amount: i32 },
    /// A move with a gain, to a position that the board has no tile for.
    MovedToIndexAndGained { name: String, index: usize, amount: i32 },
    /// A bonus by the acre.
    AcreBonus { name: String, total: i32, quantity: i32, asset: AssetType },
    /// A bonus on arrival.
    BonusGained { name: String, bonus: i32 },
    /// A harvest that could not be taken.
    HarvestFailed { reason: GameError },
    /// No move for want of an asset.
    CannotMove { name: String, asset: AssetType },
    /// A factor on the next harvest, from a tile.
    YieldSet { name: String, multiplier: Multiplier, asset: AssetType },
    /// A payment due for holding an asset.
    MustPayForAsset { name: String, amount: i32, asset: AssetType },
    /// No payment is due for want of the asset.
    NoPaymentForAsset { name: String, asset: AssetType },
    /// The tile has no harvest.
    NoHarvestRequired,
    /// Nothing is held of what the harvest is taken from.
    HarvestSkipped { name: String, asset: AssetType },
    /// No expense card is drawn without a harvest.
    NoExpenseDrawn,
    /// What the harvest brought, net of its expense.
    HarvestGain { amount: i32 },
    /// The expense of a harvest could not be paid.
    ExpenseFailed { name: String, reason: GameError },
    /// The harvest had no expense.
    NoExpense,
    /// No harvest was named.
    NoHarvestType,
    /// Nothing is held of the asset.
    NothingToHarvest { asset: AssetType },
    /// An expense card of a fixed amount.
    OpCostFlat { title: String, amount: i32 },
    /// An expense card by the unit held.
    OpCostPerAsset { title: String, rate: i32, count: i32, asset: AssetType, total: i32 },
    /// An expense card that charges interest.
    OpCostInterest { title: String, debt: i32, interest: i32 },
    /// An expense card that charges interest, with no debt to charge it on.
    OpCostNoInterest { title: String },
    /// An expense card that costs nothing at harvest.
    OpCostNothing { title: String },
    /// Less is held than one block of the asset.
    NotEnoughToHarvest { asset: AssetType, needed: i32 },
    /// The account of a harvest: the roll, the yield of the table, the factors and what they
    /// make of it, the expense and the net income.
    HarvestLine {
        harvest: HarvestType,
        roll: u8,
        base: i32,
        quantity: i32,
        asset: AssetType,
        income: i32,
        crop: Multiplier,
        livestock: Multiplier,
        gross: i32,
        expense: i32,
        net: i32,
    },
    /// The first tile was passed.
    PassedGo { name: String },
    /// A new year began.
    YearAdvanced { year: u32 },
    /// The pay of the side job was collected.
    SideJobPay { cash: i32 },
    /// The pay of the side job was forfeited.
    NoSideJobPay,
    /// The roll and the tile it led to.
    Rolled { steps: u32, tile: String },
    /// The effect of the tile could not be played.
    TileFailed { reason: GameError },
    /// The effects of a tile are about to be played.
    HandlingEffects { name: String, tile: String },
    /// The tile is one of harvest.
    HarvestTile { tile_type: TileType },
    /// A harvest may be due.
    HarvestCheck,
    /// A move from one position to another.
    MovedFromTo { name: String, from: usize, to: usize },
}

impl Clone for LogEntry {
    fn clone(&self) -> (r: Self)
        ensures
            r == *self,
    {
        match self {
            LogEntry::Text { text } => LogEntry::Text { text: text.clone() },
            LogEntry::Paid { name, amount, cash_left } => LogEntry::Paid {
                name: name.clone(),
                amount: *amount,
                cash_left: *cash_left,
            },
            LogEntry::DebtLimitHit { name, required } => LogEntry::DebtLimitHit {
                name: name.clone(),
                required: *required,
            },
            LogEntry::TookLoan { loan, fee, received, debt } => LogEntry::TookLoan {
                loan: *loan,
                fee: *fee,
                received: *received,
                debt: *debt,
            },
            LogEntry::Gained { name, amount } => LogEntry::Gained {
                name: name.clone(),
                amount: *amount,
            },
            LogEntry::MustPay { name, amount } => LogEntry::MustPay {
                name: name.clone(),
                amount: *amount,
            },
            LogEntry::BuyAttempt { name, quantity, asset, cost, total } => LogEntry::BuyAttempt {
                name: name.clone(),
                quantity: *quantity,
                asset: *asset,
                cost: *cost,
                total: *total,
            },
            LogEntry::Bought { quantity, asset, cash_left } => LogEntry::Bought {
                quantity: *quantity,
                asset: *asset,
                cash_left: *cash_left,
            },
            LogEntry::MustPayPerAsset { name, total, count, rate, asset } => LogEntry::MustPayPerAsset {
                name: name.clone(),
                total: *total,
                count: *count,
                rate: *rate,
                asset: *asset,
            },
            LogEntry::NoExpenseForAsset { name, asset } => LogEntry::NoExpenseForAsset {
                name: name.clone(),
                asset: *asset,
            },
            LogEntry::GainedPerAsset { name, total, count, rate, asset } => LogEntry::GainedPerAsset {
                name: name.clone(),
                total: *total,
                count: *count,
                rate: *rate,
                asset: *asset,
            },
            LogEntry::NoIncomeForAsset { name, asset } => LogEntry::NoIncomeForAsset {
                name: name.clone(),
                asset: *asset,
            },
            LogEntry::GainedForLand { name, total, land, rate } => LogEntry::GainedForLand {
                name: name.clone(),
                total: *total,
                land: *land,
                rate: *rate,
            },
            LogEntry::NoIncomeFromLand { name } => LogEntry::NoIncomeFromLand {
                name: name.clone(),
            },
            LogEntry::DebtAdjusted { name, amount, debt } => LogEntry::DebtAdjusted {
                name: name.clone(),
                amount: *amount,
                debt: *debt,
            },
            LogEntry::LandAdjusted { name, amount, land } => LogEntry::LandAdjusted {
                name: name.clone(),
                amount: *amount,
                land: *land,
            },
            LogEntry::SpecialCard { name, text } => LogEntry::SpecialCard {
                name: name.clone(),
                text: text.clone(),
            },
            LogEntry::CollectAnnounce { name, amount, asset } => LogEntry::CollectAnnounce {
                name: name.clone(),
                amount: *amount,
                asset: *asset,
            },
            LogEntry::CollectOwes { name, asset, amount } => LogEntry::CollectOwes {
                name: name.clone(),
                asset: *asset,
                amount: *amount,
            },
            LogEntry::CollectFromCash { amount } => LogEntry::CollectFromCash { amount: *amount },
            LogEntry::CollectWithLoan { cash, principal, interest } => LogEntry::CollectWithLoan {
                cash: *cash,
                principal: *principal,
                interest: *interest,
            },
            LogEntry::CollectCannotPay { cash, capacity } => LogEntry::CollectCannotPay {
                cash: *cash,
                capacity: *capacity,
            },
            LogEntry::CollectPaysCash { cash } => LogEntry::CollectPaysCash { cash: *cash },
            LogEntry::CollectExempt { name, asset } => LogEntry::CollectExempt {
                name: name.clone(),
                asset: *asset,
            },
            LogEntry::CollectedTotal { name, total, cash } => LogEntry::CollectedTotal {
                name: name.clone(),
                total: *total,
                cash: *cash,
            },
            LogEntry::MustPayWithout { asset, amount } => LogEntry::MustPayWithout {
                asset: *asset,
                amount: *amount,
            },
            LogEntry::NoPaymentWith { asset } => LogEntry::NoPaymentWith { asset: *asset },
            LogEntry::GainedForAsset { name, amount, asset } => LogEntry::GainedForAsset {
                name: name.clone(),
                amount: *amount,
                asset: *asset,
            },
            LogEntry::NotGained { amount, asset } => LogEntry::NotGained {
                amount: *amount,
                asset: *asset,
            },
            LogEntry::HarvestSuppressed { name } => LogEntry::HarvestSuppressed {
                name: name.clone(),
            },
            LogEntry::SkipsYear { name } => LogEntry::SkipsYear { name: name.clone() },
            LogEntry::MovedToSecondWeek { name } => LogEntry::MovedToSecondWeek {
                name: name.clone(),
            },
            LogEntry::CowsLost { name, quantity } => LogEntry::CowsLost {
                name: name.clone(),
                quantity: *quantity,
            },
            LogEntry::NoCowsToLose { name } => LogEntry::NoCowsToLose { name: name.clone() },
            LogEntry::MustPayInterest { name, amount } => LogEntry::MustPayInterest {
                name: name.clone(),
                amount: *amount,
            },
            LogEntry::NoInterest { name } => LogEntry::NoInterest { name: name.clone() },
            LogEntry::GainedMultiplier { name, multiplier, asset } => LogEntry::GainedMultiplier {
                name: name.clone(),
                multiplier: *multiplier,
                asset: *asset,
            },
            LogEntry::LeaseOffer { ridge, cost, cow_count } => LogEntry::LeaseOffer {
                ridge: ridge.clone(),
                cost: *cost,
                cow_count: *cow_count,
            },
            LogEntry::LegacyPaid { name, cost, quantity, asset } => LogEntry::LegacyPaid {
                name: name.clone(),
                cost: *cost,
                quantity: *quantity,
                asset: *asset,
            },
            LogEntry::LegacyLoan { name, loan, cost, quantity, asset } => LogEntry::LegacyLoan {
                name: name.clone(),
                loan: *loan,
                cost: *cost,
                quantity: *quantity,
                asset: *asset,
            },
            LogEntry::LegacyRefused { capacity, required } => LogEntry::LegacyRefused {
                capacity: *capacity,
                required: *required,
            },
            LogEntry::OptionOffer { quantity, asset, cost } => LogEntry::OptionOffer {
                quantity: *quantity,
                asset: *asset,
                cost: *cost,
            },
            LogEntry::AshBonus { name, bonus, acres } => LogEntry::AshBonus {
                name: name.clone(),
                bonus: *bonus,
                acres: *acres,
            },
            LogEntry::AshEscaped { name, roll } => LogEntry::AshEscaped {
                name: name.clone(),
                roll: *roll,
            },
            LogEntry::AshHit { name, roll } => LogEntry::AshHit { name: name.clone(), roll: *roll },
            LogEntry::AshCleanup { name, cost } => LogEntry::AshCleanup {
                name: name.clone(),
                cost: *cost,
            },
            LogEntry::AshNoAcres { name } => LogEntry::AshNoAcres { name: name.clone() },
            LogEntry::DrewFate { title } => LogEntry::DrewFate { title: title.clone() },
            LogEntry::DrewOption { title } => LogEntry::DrewOption { title: title.clone() },
            LogEntry::MovedTo { name, tile } => LogEntry::MovedTo {
                name: name.clone(),
                tile: tile.clone(),
            },
            LogEntry::MovedToIndex { name, index } => LogEntry::MovedToIndex {
                name: name.clone(),
                index: *index,
            },
            LogEntry::YieldDoubled { name, asset } => LogEntry::YieldDoubled {
                name: name.clone(),
                asset: *asset,
            },
            LogEntry::MovedAndGained { name, tile, amount } => LogEntry::MovedAndGained {
                name: name.clone(),
                tile: tile.clone(),
                amount: *amount,
            },
            LogEntry::MovedToIndexAndGained { name, index, amount } => LogEntry::MovedToIndexAndGained {
                name: name.clone(),
                index: *index,
                amount: *amount,
            },
            LogEntry::AcreBonus { name, total, quantity, asset } => LogEntry::AcreBonus {
                name: name.clone(),
                total: *total,
                quantity: *quantity,
                asset: *asset,
            },
            LogEntry::BonusGained { name, bonus } => LogEntry::BonusGained {
                name: name.clone(),
                bonus: *bonus,
            },
            LogEntry::HarvestFailed { reason } => LogEntry::HarvestFailed {
                reason: copy_error(reason),
            },
            LogEntry::CannotMove { name, asset } => LogEntry::CannotMove {
                name: name.clone(),
                asset: *asset,
            },
            LogEntry::YieldSet { name, multiplier, asset } => LogEntry::YieldSet {
                name: name.clone(),
                multiplier: *multiplier,
                asset: *asset,
            },
            LogEntry::MustPayForAsset { name, amount, asset } => LogEntry::MustPayForAsset {
                name: name.clone(),
                amount: *amount,
                asset: *asset,
            },
            LogEntry::NoPaymentForAsset { name, asset } => LogEntry::NoPaymentForAsset {
                name: name.clone(),
                asset: *asset,
            },
            LogEntry::NoHarvestRequired => LogEntry::NoHarvestRequired,
            LogEntry::HarvestSkipped { name, asset } => LogEntry::HarvestSkipped {
                name: name.clone(),
                asset: *asset,
            },
            LogEntry::NoExpenseDrawn => LogEntry::NoExpenseDrawn,
            LogEntry::HarvestGain { amount } => LogEntry::HarvestGain { amount: *amount },
            LogEntry::ExpenseFailed { name, reason } => LogEntry::ExpenseFailed {
                name: name.clone(),
                reason: copy_error(reason),
            },
            LogEntry::NoExpense => LogEntry::NoExpense,
            LogEntry::NoHarvestType => LogEntry::NoHarvestType,
            LogEntry::NothingToHarvest { asset } => LogEntry::NothingToHarvest { asset: *asset },
            LogEntry::OpCostFlat { title, amount } => LogEntry::OpCostFlat {
                title: title.clone(),
                amount: *amount,
            },
            LogEntry::OpCostPerAsset { title, rate, count, asset, total } => LogEntry::OpCostPerAsset {
                title: title.clone(),
                rate: *rate,
                count: *count,
                asset: *asset,
                total: *total,
            },
            LogEntry::OpCostInterest { title, debt, interest } => LogEntry::OpCostInterest {
                title: title.clone(),
                debt: *debt,
                interest: *interest,
            },
            LogEntry::OpCostNoInterest { title } => LogEntry::OpCostNoInterest {
                title: title.clone(),
            },
            LogEntry::OpCostNothing { title } => LogEntry::OpCostNothing { title: title.clone() },
            LogEntry::NotEnoughToHarvest { asset, needed } => LogEntry::NotEnoughToHarvest {
                asset: *asset,
                needed: *needed,
            },
            LogEntry::HarvestLine {
                harvest,
                roll,
                base,
                quantity,
                asset,
                income,
                crop,
                livestock,
                gross,
                expense,
                net,
            } => LogEntry::HarvestLine {
                harvest: *harvest,
                roll: *roll,
                base: *base,
                quantity: *quantity,
                asset: *asset,
                income: *income,
                crop: *crop,
                livestock: *livestock,
                gross: *gross,
                expense: *expense,
                net: *net,
            },
            LogEntry::PassedGo { name } => LogEntry::PassedGo { name: name.clone() },
            LogEntry::YearAdvanced { year } => LogEntry::YearAdvanced { year: *year },
            LogEntry::SideJobPay { cash } => LogEntry::SideJobPay { cash: *cash },
            LogEntry::NoSideJobPay => LogEntry::NoSideJobPay,
            LogEntry::Rolled { steps, tile } => LogEntry::Rolled {
                steps: *steps,
                tile: tile.clone(),
            },
            LogEntry::TileFailed { reason } => LogEntry::TileFailed { reason: copy_error(reason) },
            LogEntry::HandlingEffects { name, tile } => LogEntry::HandlingEffects {
                name: name.clone(),
                tile: tile.clone(),
            },
            LogEntry::HarvestTile { tile_type } => LogEntry::HarvestTile { tile_type: *tile_type },
            LogEntry::HarvestCheck => LogEntry::HarvestCheck,
            LogEntry::MovedFromTo { name, from, to } => LogEntry::MovedFromTo {
                name: name.clone(),
                from: *from,
                to: *to,
            },
        }
    }
}

impl LogEntry {
    /// The entry in words.
    pub open spec fn text(&self) -> Seq<char> {
        match self {
            LogEntry::Text { text } => text@,
            LogEntry::Paid { name, amount, cash_left } =>
                name@
                    + " paid $"@
                    + int_text(*amount as int)
                    + ". Cash remaining: $"@
                    + int_text(*cash_left as int),
            LogEntry::DebtLimitHit { name, required } =>
                "needed for "@
                    + name@
                    + " to pay $"@
                    + int_text(*required as int)
                    + ", but would exceed debt limit of $50000"@,
            LogEntry::TookLoan { loan, fee, received, debt } =>
                "Took loan: $"@
                    + int_text(*loan as int)
                    + " (bank keeps 20%: $"@
                    + int_text(*fee as int)
                    + "). Cash received: $"@
                    + int_text(*received as int)
                    + ", New debt: $"@
                    + int_text(*debt as int),
            LogEntry::Gained { name, amount } =>
                name@
                    + " gained $"@
                    + int_text(*amount as int)
                    + "."@,
            LogEntry::MustPay { name, amount } => name@ + " must pay $"@ + int_text(*amount as int),
            LogEntry::BuyAttempt { name, quantity, asset, cost, total } =>
                name@
                    + " attempts to buy "@
                    + int_text(*quantity as int)
                    + " "@
                    + asset.label_text()
                    + " for $"@
                    + int_text(*cost as int)
                    + " each (Total: $"@
                    + int_text(*total as int)
                    + ")."@,
            LogEntry::Bought { quantity, asset, cash_left } =>
                "Successfully bought "@
                    + int_text(*quantity as int)
                    + " "@
                    + asset.label_text()
                    + ". Cash remaining: $"@
                    + int_text(*cash_left as int),
            LogEntry::MustPayPerAsset { name, total, count, rate, asset } =>
                name@
                    + " must pay $"@
                    + int_text(*total as int)
                    + " ("@
                    + int_text(*count as int)
                    + " x $"@
                    + int_text(*rate as int)
                    + " for "@
                    + asset.label_text()
                    + ")."@,
            LogEntry::NoExpenseForAsset { name, asset } =>
                name@
                    + " pays no expense for "@
                    + asset.label_text()
                    + " (zero quantity or rate)."@,
            LogEntry::GainedPerAsset { name, total, count, rate, asset } =>
                name@
                    + " gained $"@
                    + int_text(*total as int)
                    + " ("@
                    + int_text(*count as int)
                    + " x $"@
                    + int_text(*rate as int)
                    + " for "@
                    + asset.label_text()
                    + ")."@,
            LogEntry::NoIncomeForAsset { name, asset } =>
                name@
                    + " gained no income for "@
                    + asset.label_text()
                    + " (zero quantity or rate)."@,
            LogEntry::GainedForLand { name, total, land, rate } =>
                name@
                    + " gained $"@
                    + int_text(*total as int)
                    + " for "@
                    + int_text(*land as int)
                    + " acres of land ($"@
                    + int_text(*rate as int)
                    + " per acre)"@,
            LogEntry::NoIncomeFromLand { name } =>
                name@
                    + " gained no income from land (zero acres or rate)."@,
            LogEntry::DebtAdjusted { name, amount, debt } =>
                name@
                    + " debt adjusted by $"@
                    + int_text(*amount as int)
                    + ". New debt: $"@
                    + int_text(*debt as int),
            LogEntry::LandAdjusted { name, amount, land } =>
                name@
                    + " land adjusted by "@
                    + int_text(*amount as int)
                    + ". New land: "@
                    + int_text(*land as int),
            LogEntry::SpecialCard { name, text } =>
                "Special Card Effect for "@
                    + name@
                    + ": "@
                    + text@,
            LogEntry::CollectAnnounce { name, amount, asset } =>
                "Effect: "@
                    + name@
                    + " collects $"@
                    + int_text(*amount as int)
                    + " from each player who owns "@
                    + asset.label_text()
                    + "."@,
            LogEntry::CollectOwes { name, asset, amount } =>
                "Checking player "@
                    + name@
                    + ": Owns "@
                    + asset.label_text()
                    + ". Needs to pay $"@
                    + int_text(*amount as int)
                    + "."@,
            LogEntry::CollectFromCash { amount } =>
                "  -> Can pay $"@
                    + int_text(*amount as int)
                    + " from cash."@,
            LogEntry::CollectWithLoan { cash, principal, interest } =>
                "  -> Can pay using cash ($"@
                    + int_text(*cash as int)
                    + ") + forced loan ($"@
                    + int_text(*principal as int)
                    + " principal + $"@
                    + int_text(*interest as int)
                    + " interest)."@,
            LogEntry::CollectCannotPay { cash, capacity } =>
                "  -> Cannot pay. Insufficient cash ($"@
                    + int_text(*cash as int)
                    + ") and borrowing capacity ($"@
                    + int_text(*capacity as int)
                    + " max loan)."@,
            LogEntry::CollectPaysCash { cash } =>
                "  -> Paying available cash: $"@
                    + int_text(*cash as int)
                    + "."@,
            LogEntry::CollectExempt { name, asset } =>
                "Checking player "@
                    + name@
                    + ": Does not own "@
                    + asset.label_text()
                    + ". No payment required."@,
            LogEntry::CollectedTotal { name, total, cash } =>
                name@
                    + " collected a total of $"@
                    + int_text(*total as int)
                    + ". Final cash: $"@
                    + int_text(*cash as int),
            LogEntry::MustPayWithout { asset, amount } =>
                "No "@
                    + asset.label_text()
                    + ", must pay $"@
                    + int_text(*amount as int)
                    + "."@,
            LogEntry::NoPaymentWith { asset } =>
                "Has "@
                    + asset.label_text()
                    + ", no payment needed."@,
            LogEntry::GainedForAsset { name, amount, asset } =>
                name@
                    + " gained $"@
                    + int_text(*amount as int)
                    + " for having "@
                    + asset.label_text()
                    + "."@,
            LogEntry::NotGained { amount, asset } =>
                "Did not gain $"@
                    + int_text(*amount as int)
                    + " (no "@
                    + asset.label_text()
                    + ")."@,
            LogEntry::HarvestSuppressed { name } =>
                name@
                    + " cannot receive harvest income this turn (flag set)."@,
            LogEntry::SkipsYear { name } => name@ + " skips a year."@,
            LogEntry::MovedToSecondWeek { name } =>
                name@
                    + " moved to position 2: January Week 2."@,
            LogEntry::CowsLost { name, quantity } =>
                "Disaster! "@
                    + name@
                    + " loses all "@
                    + int_text(*quantity as int)
                    + " cows without compensation."@,
            LogEntry::NoCowsToLose { name } => name@ + " had no cows to lose to disaster."@,
            LogEntry::MustPayInterest { name, amount } =>
                name@
                    + " must pay $"@
                    + int_text(*amount as int)
                    + " in interest."@,
            LogEntry::NoInterest { name } => name@ + " pays no interest (debt is zero)."@,
            LogEntry::GainedMultiplier { name, multiplier, asset } =>
                name@
                    + " gained one-time harvest multiplier of "@
                    + multiplier.tenths_text()
                    + " for "@
                    + asset.label_text()
                    + "."@,
            LogEntry::LeaseOffer { ridge, cost, cow_count } =>
                "Card provides a leasing option for "@
                    + ridge@
                    + ": $"@
                    + int_text(*cost as int)
                    + " requiring "@
                    + int_text(*cow_count as int)
                    + " cows to stock."@,
            LogEntry::LegacyPaid { name, cost, quantity, asset } =>
                name@
                    + " paid $"@
                    + int_text(*cost as int)
                    + " to acquire Uncle Bert's "@
                    + int_text(*quantity as int)
                    + " acres of "@
                    + asset.label_text()
                    + "."@,
            LogEntry::LegacyLoan { name, loan, cost, quantity, asset } =>
                name@
                    + " took a loan of $"@
                    + int_text(*loan as int)
                    + " and paid $"@
                    + int_text(*cost as int)
                    + " to acquire Uncle Bert's "@
                    + int_text(*quantity as int)
                    + " acres of "@
                    + asset.label_text()
                    + "."@,
            LogEntry::LegacyRefused { capacity, required } =>
                "Could not acquire Uncle Bert's legacy: Insufficient funds and cannot borrow enough (Max Additional Loan: $"@
                    + int_text(*capacity as int)
                    + ", Required: $"@
                    + int_text(*required as int)
                    + ")."@,
            LogEntry::OptionOffer { quantity, asset, cost } =>
                "Card provides an option to buy "@
                    + int_text(*quantity as int)
                    + " "@
                    + asset.label_text()
                    + " for $"@
                    + int_text(*cost as int)
                    + " total. Needs player action to exercise."@,
            LogEntry::AshBonus { name, bonus, acres } =>
                name@
                    + " collects $"@
                    + int_text(*bonus as int)
                    + " bonus for "@
                    + int_text(*acres as int)
                    + " Hay acres (Ash-free hay)."@,
            LogEntry::AshEscaped { name, roll } =>
                name@
                    + " rolled "@
                    + nat_text(*roll as nat)
                    + " (Odd) and escaped the ash!"@,
            LogEntry::AshHit { name, roll } =>
                name@
                    + " rolled "@
                    + nat_text(*roll as nat)
                    + " (Even) and was hit by the ash!"@,
            LogEntry::AshCleanup { name, cost } =>
                name@
                    + " must pay $"@
                    + int_text(*cost as int)
                    + " to clean up ash ($100 per acre)."@,
            LogEntry::AshNoAcres { name } => name@ + " has no acres to clean up."@,
            LogEntry::DrewFate { title } => "Drew a Farmer's Fate card: "@ + title@,
            LogEntry::DrewOption { title } => "Drew an Option to Buy card: "@ + title@,
            LogEntry::MovedTo { name, tile } => name@ + " moved to "@ + tile@,
            LogEntry::MovedToIndex { name, index } =>
                name@
                    + " moved to tile "@
                    + nat_text(*index as nat),
            LogEntry::YieldDoubled { name, asset } =>
                name@
                    + "'s yield is doubled for "@
                    + asset.label_text()
                    + "!"@,
            LogEntry::MovedAndGained { name, tile, amount } =>
                name@
                    + " moved to "@
                    + tile@
                    + " and gained $"@
                    + int_text(*amount as int),
            LogEntry::MovedToIndexAndGained { name, index, amount } =>
                name@
                    + " moved to tile "@
                    + nat_text(*index as nat)
                    + " and gained $"@
                    + int_text(*amount as int),
            LogEntry::AcreBonus { name, total, quantity, asset } =>
                name@
                    + " gained $"@
                    + int_text(*total as int)
                    + " bonus for "@
                    + int_text(*quantity as int)
                    + " "@
                    + asset.label_text()
                    + " acres."@,
            LogEntry::BonusGained { name, bonus } =>
                name@
                    + " gained $"@
                    + int_text(*bonus as int)
                    + " bonus."@,
            LogEntry::HarvestFailed { reason } => "Error during harvest: "@ + reason.text(),
            LogEntry::CannotMove { name, asset } =>
                name@
                    + " cannot move (no "@
                    + asset.label_text()
                    + ")."@,
            LogEntry::YieldSet { name, multiplier, asset } =>
                name@
                    + "'s yield is set to "@
                    + multiplier.tenths_text()
                    + "x for "@
                    + asset.label_text()
                    + "!"@,
            LogEntry::MustPayForAsset { name, amount, asset } =>
                name@
                    + " must pay $"@
                    + int_text(*amount as int)
                    + " for having "@
                    + asset.label_text()
                    + "."@,
            LogEntry::NoPaymentForAsset { name, asset } =>
                name@
                    + " does not have to pay (no "@
                    + asset.label_text()
                    + ")."@,
            LogEntry::NoHarvestRequired => "No harvest required for this tile."@,
            LogEntry::HarvestSkipped { name, asset } =>
                name@
                    + " does not own any "@
                    + asset.label_text()
                    + ", skipping harvest."@,
            LogEntry::NoExpenseDrawn => "No operating expense drawn since there is no harvest."@,
            LogEntry::HarvestGain { amount } => "Gained $"@ + int_text(*amount as int),
            LogEntry::ExpenseFailed { name, reason } =>
                "Error handling harvest expense for "@
                    + name@
                    + ": "@
                    + reason.text(),
            LogEntry::NoExpense => "No expense incurred."@,
            LogEntry::NoHarvestType => "No harvest type specified."@,
            LogEntry::NothingToHarvest { asset } => "No "@ + asset.label_text() + " to harvest."@,
            LogEntry::OpCostFlat { title, amount } =>
                "Op Cost: "@
                    + title@
                    + " - Expense: $"@
                    + int_text(*amount as int),
            LogEntry::OpCostPerAsset { title, rate, count, asset, total } =>
                "Op Cost: "@
                    + title@
                    + " - Expense: $"@
                    + int_text(*rate as int)
                    + "/"@
                    + unit_text(*asset)
                    + " x "@
                    + int_text(*count as int)
                    + " "@
                    + units_text(*asset)
                    + " = $"@
                    + int_text(*total as int),
            LogEntry::OpCostInterest { title, debt, interest } =>
                "Op Cost: "@
                    + title@
                    + " - Expense: 10% of $"@
                    + int_text(*debt as int)
                    + " debt = $"@
                    + int_text(*interest as int),
            LogEntry::OpCostNoInterest { title } =>
                "Op Cost: "@
                    + title@
                    + " - No interest (debt: $0)"@,
            LogEntry::OpCostNothing { title } => "Op Cost: "@ + title@ + " - None"@,
            LogEntry::NotEnoughToHarvest { asset, needed } =>
                "Not enough "@
                    + asset.label_text()
                    + " for harvest (need "@
                    + int_text(*needed as int)
                    + ")."@,
            LogEntry::HarvestLine {
                harvest,
                roll,
                base,
                quantity,
                asset,
                income,
                crop,
                livestock,
                gross,
                expense,
                net,
            } =>
                harvest.title_text()
                    + ": Roll "@
                    + nat_text(*roll as nat)
                    + " = $"@
                    + int_text(*base as int)
                    + "/block x "@
                    + int_text(*quantity as int)
                    + " "@
                    + units_text(*asset)
                    + " - Income: $"@
                    + int_text(*income as int)
                    + " x"@
                    + crop.tenths_text()
                    + " multiplier = x"@
                    + livestock.tenths_text()
                    + " livestock = $"@
                    + int_text(*gross as int)
                    + " - $"@
                    + int_text(*expense as int)
                    + " operating expense = $"@
                    + int_text(*net as int),
            LogEntry::PassedGo { name } => name@ + " passed Go (Tile 0)!"@,
            LogEntry::YearAdvanced { year } => "Year advanced to "@ + nat_text(*year as nat) + "."@,
            LogEntry::SideJobPay { cash } =>
                "Collected $5000 side job pay. Cash: $"@
                    + int_text(*cash as int),
            LogEntry::NoSideJobPay => "Did not collect side job pay (ineligible this year)."@,
            LogEntry::Rolled { steps, tile } =>
                "Rolled a "@
                    + nat_text(*steps as nat)
                    + " - landed on "@
                    + tile@,
            LogEntry::TileFailed { reason } => "Error handling tile event: "@ + reason.text(),
            LogEntry::HandlingEffects { name, tile } =>
                "Handling effects for "@
                    + name@
                    + " on tile: "@
                    + tile@,
            LogEntry::HarvestTile { tile_type } =>
                "This is a harvest-related tile ("@
                    + tile_type.label_text()
                    + ")"@,
            LogEntry::HarvestCheck => "Harvest check may be applicable"@,
            LogEntry::MovedFromTo { name, from, to } =>
                name@
                    + " moved from tile "@
                    + nat_text(*from as nat)
                    + " to tile "@
                    + nat_text(*to as nat),
        }
    }

    /// The entry in words.
    pub fn message(&self) -> (s: String)
        ensures
            s@ == self.text(),
    {
        match self {
            LogEntry::Text { text } => {
                let s = text.clone();
                s
            },
            LogEntry::Paid { name, amount, cash_left } => {
                let mut s = name.clone();
                s.append(" paid $");
                push_int(&mut s, *amount as i64);
                s.append(". Cash remaining: $");
                push_int(&mut s, *cash_left as i64);
                s
            },
            LogEntry::DebtLimitHit { name, required } => {
                let mut s = String::from_str("needed for ");
                s.append(name.as_str());
                s.append(" to pay $");
                push_int(&mut s, *required as i64);
                s.append(", but would exceed debt limit of $50000");
                s
            },
            LogEntry::TookLoan { loan, fee, received, debt } => {
                let mut s = String::from_str("Took loan: $");
                push_int(&mut s, *loan as i64);
                s.append(" (bank keeps 20%: $");
                push_int(&mut s, *fee as i64);
                s.append("). Cash received: $");
                push_int(&mut s, *received as i64);
                s.append(", New debt: $");
                push_int(&mut s, *debt as i64);
                s
            },
            LogEntry::Gained { name, amount } => {
                let mut s = name.clone();
                s.append(" gained $");
                push_int(&mut s, *amount as i64);
                s.append(".");
                s
            },
            LogEntry::MustPay { name, amount } => {
                let mut s = name.clone();
                s.append(" must pay $");
                push_int(&mut s, *amount as i64);
                s
            },
            LogEntry::BuyAttempt { name, quantity, asset, cost, total } => {
                let mut s = name.clone();
                s.append(" attempts to buy ");
                push_int(&mut s, *quantity as i64);
                s.append(" ");
                s.append(asset.label());
                s.append(" for $");
                push_int(&mut s, *cost as i64);
                s.append(" each (Total: $");
                push_int(&mut s, *total as i64);
                s.append(").");
                s
            },
            LogEntry::Bought { quantity, asset, cash_left } => {
                let mut s = String::from_str("Successfully bought ");
                push_int(&mut s, *quantity as i64);
                s.append(" ");
                s.append(asset.label());
                s.append(". Cash remaining: $");
                push_int(&mut s, *cash_left as i64);
                s
            },
            LogEntry::MustPayPerAsset { name, total, count, rate, asset } => {
                let mut s = name.clone();
                s.append(" must pay $");
                push_int(&mut s, *total as i64);
                s.append(" (");
                push_int(&mut s, *count as i64);
                s.append(" x $");
                push_int(&mut s, *rate as i64);
                s.append(" for ");
                s.append(asset.label());
                s.append(").");
                s
            },
            LogEntry::NoExpenseForAsset { name, asset } => {
                let mut s = name.clone();
                s.append(" pays no expense for ");
                s.append(asset.label());
                s.append(" (zero quantity or rate).");
                s
            },
            LogEntry::GainedPerAsset { name, total, count, rate, asset } => {
                let mut s = name.clone();
                s.append(" gained $");
                push_int(&mut s, *total as i64);
                s.append(" (");
                push_int(&mut s, *count as i64);
                s.append(" x $");
                push_int(&mut s, *rate as i64);
                s.append(" for ");
                s.append(asset.label());
                s.append(").");
                s
            },
            LogEntry::NoIncomeForAsset { name, asset } => {
                let mut s = name.clone();
                s.append(" gained no income for ");
                s.append(asset.label());
                s.append(" (zero quantity or rate).");
                s
            },
            LogEntry::GainedForLand { name, total, land, rate } => {
                let mut s = name.clone();
                s.append(" gained $");
                push_int(&mut s, *total as i64);
                s.append(" for ");
                push_int(&mut s, *land as i64);
                s.append(" acres of land ($");
                push_int(&mut s, *rate as i64);
                s.append(" per acre)");
                s
            },
            LogEntry::NoIncomeFromLand { name } => {
                let mut s = name.clone();
                s.append(" gained no income from land (zero acres or rate).");
                s
            },
            LogEntry::DebtAdjusted { name, amount, debt } => {
                let mut s = name.clone();
                s.append(" debt adjusted by $");
                push_int(&mut s, *amount as i64);
                s.append(". New debt: $");
                push_int(&mut s, *debt as i64);
                s
            },
            LogEntry::LandAdjusted { name, amount, land } => {
                let mut s = name.clone();
                s.append(" land adjusted by ");
                push_int(&mut s, *amount as i64);
                s.append(". New land: ");
                push_int(&mut s, *land as i64);
                s
            },
            LogEntry::SpecialCard { name, text } => {
                let mut s = String::from_str("Special Card Effect for ");
                s.append(name.as_str());
                s.append(": ");
                s.append(text.as_str());
                s
            },
            LogEntry::CollectAnnounce { name, amount, asset } => {
                let mut s = String::from_str("Effect: ");
                s.append(name.as_str());
                s.append(" collects $");
                push_int(&mut s, *amount as i64);
                s.append(" from each player who owns ");
                s.append(asset.label());
                s.append(".");
                s
            },
            LogEntry::CollectOwes { name, asset, amount } => {
                let mut s = String::from_str("Checking player ");
                s.append(name.as_str());
                s.append(": Owns ");
                s.append(asset.label());
                s.append(". Needs to pay $");
                push_int(&mut s, *amount as i64);
                s.append(".");
                s
            },
            LogEntry::CollectFromCash { amount } => {
                let mut s = String::from_str("  -> Can pay $");
                push_int(&mut s, *amount as i64);
                s.append(" from cash.");
                s
            },
            LogEntry::CollectWithLoan { cash, principal, interest } => {
                let mut s = String::from_str("  -> Can pay using cash ($");
                push_int(&mut s, *cash as i64);
                s.append(") + forced loan ($");
                push_int(&mut s, *principal as i64);
                s.append(" principal + $");
                push_int(&mut s, *interest as i64);
                s.append(" interest).");
                s
            },
            LogEntry::CollectCannotPay { cash, capacity } => {
                let mut s = String::from_str("  -> Cannot pay. Insufficient cash ($");
                push_int(&mut s, *cash as i64);
                s.append(") and borrowing capacity ($");
                push_int(&mut s, *capacity as i64);
                s.append(" max loan).");
                s
            },
            LogEntry::CollectPaysCash { cash } => {
                let mut s = String::from_str("  -> Paying available cash: $");
                push_int(&mut s, *cash as i64);
                s.append(".");
                s
            },
            LogEntry::CollectExempt { name, asset } => {
                let mut s = String::from_str("Checking player ");
                s.append(name.as_str());
                s.append(": Does not own ");
                s.append(asset.label());
                s.append(". No payment required.");
                s
            },
            LogEntry::CollectedTotal { name, total, cash } => {
                let mut s = name.clone();
                s.append(" collected a total of $");
                push_int(&mut s, *total as i64);
                s.append(". Final cash: $");
                push_int(&mut s, *cash as i64);
                s
            },
            LogEntry::MustPayWithout { asset, amount } => {
                let mut s = String::from_str("No ");
                s.append(asset.label());
                s.append(", must pay $");
                push_int(&mut s, *amount as i64);
                s.append(".");
                s
            },
            LogEntry::NoPaymentWith { asset } => {
                let mut s = String::from_str("Has ");
                s.append(asset.label());
                s.append(", no payment needed.");
                s
            },
            LogEntry::GainedForAsset { name, amount, asset } => {
                let mut s = name.clone();
                s.append(" gained $");
                push_int(&mut s, *amount as i64);
                s.append(" for having ");
                s.append(asset.label());
                s.append(".");
                s
            },
            LogEntry::NotGained { amount, asset } => {
                let mut s = String::from_str("Did not gain $");
                push_int(&mut s, *amount as i64);
                s.append(" (no ");
                s.append(asset.label());
                s.append(").");
                s
            },
            LogEntry::HarvestSuppressed { name } => {
                let mut s = name.clone();
                s.append(" cannot receive harvest income this turn (flag set).");
                s
            },
            LogEntry::SkipsYear { name } => {
                let mut s = name.clone();
                s.append(" skips a year.");
                s
            },
            LogEntry::MovedToSecondWeek { name } => {
                let mut s = name.clone();
                s.append(" moved to position 2: January Week 2.");
                s
            },
            LogEntry::CowsLost { name, quantity } => {
                let mut s = String::from_str("Disaster! ");
                s.append(name.as_str());
                s.append(" loses all ");
                push_int(&mut s, *quantity as i64);
                s.append(" cows without compensation.");
                s
            },
            LogEntry::NoCowsToLose { name } => {
                let mut s = name.clone();
                s.append(" had no cows to lose to disaster.");
                s
            },
            LogEntry::MustPayInterest { name, amount } => {
                let mut s = name.clone();
                s.append(" must pay $");
                push_int(&mut s, *amount as i64);
                s.append(" in interest.");
                s
            },
            LogEntry::NoInterest { name } => {
                let mut s = name.clone();
                s.append(" pays no interest (debt is zero).");
                s
            },
            LogEntry::GainedMultiplier { name, multiplier, asset } => {
                let mut s = name.clone();
                s.append(" gained one-time harvest multiplier of ");
                multiplier.push_tenths(&mut s);
                s.append(" for ");
                s.append(asset.label());
                s.append(".");
                s
            },
            LogEntry::LeaseOffer { ridge, cost, cow_count } => {
                let mut s = String::from_str("Card provides a leasing option for ");
                s.append(ridge.as_str());
                s.append(": $");
                push_int(&mut s, *cost as i64);
                s.append(" requiring ");
                push_int(&mut s, *cow_count as i64);
                s.append(" cows to stock.");
                s
            },
            LogEntry::LegacyPaid { name, cost, quantity, asset } => {
                let mut s = name.clone();
                s.append(" paid $");
                push_int(&mut s, *cost as i64);
                s.append(" to acquire Uncle Bert's ");
                push_int(&mut s, *quantity as i64);
                s.append(" acres of ");
                s.append(asset.label());
                s.append(".");
                s
            },
            LogEntry::LegacyLoan { name, loan, cost, quantity, asset } => {
                let mut s = name.clone();
                s.append(" took a loan of $");
                push_int(&mut s, *loan as i64);
                s.append(" and paid $");
                push_int(&mut s, *cost as i64);
                s.append(" to acquire Uncle Bert's ");
                push_int(&mut s, *quantity as i64);
                s.append(" acres of ");
                s.append(asset.label());
                s.append(".");
                s
            },
            LogEntry::LegacyRefused { capacity, required } => {
                let mut s = String::from_str("Could not acquire Uncle Bert's legacy: Insufficient funds and cannot borrow enough (Max Additional Loan: $");
                push_int(&mut s, *capacity as i64);
                s.append(", Required: $");
                push_int(&mut s, *required as i64);
                s.append(").");
                s
            },
            LogEntry::OptionOffer { quantity, asset, cost } => {
                let mut s = String::from_str("Card provides an option to buy ");
                push_int(&mut s, *quantity as i64);
                s.append(" ");
                s.append(asset.label());
                s.append(" for $");
                push_int(&mut s, *cost as i64);
                s.append(" total. Needs player action to exercise.");
                s
            },
            LogEntry::AshBonus { name, bonus, acres } => {
                let mut s = name.clone();
                s.append(" collects $");
                push_int(&mut s, *bonus as i64);
                s.append(" bonus for ");
                push_int(&mut s, *acres as i64);
                s.append(" Hay acres (Ash-free hay).");
                s
            },
            LogEntry::AshEscaped { name, roll } => {
                let mut s = name.clone();
                s.append(" rolled ");
                push_nat(&mut s, *roll as u64);
                s.append(" (Odd) and escaped the ash!");
                s
            },
            LogEntry::AshHit { name, roll } => {
                let mut s = name.clone();
                s.append(" rolled ");
                push_nat(&mut s, *roll as u64);
                s.append(" (Even) and was hit by the ash!");
                s
            },
            LogEntry::AshCleanup { name, cost } => {
                let mut s = name.clone();
                s.append(" must pay $");
                push_int(&mut s, *cost as i64);
                s.append(" to clean up ash ($100 per acre).");
                s
            },
            LogEntry::AshNoAcres { name } => {
                let mut s = name.clone();
                s.append(" has no acres to clean up.");
                s
            },
            LogEntry::DrewFate { title } => {
                let mut s = String::from_str("Drew a Farmer's Fate card: ");
                s.append(title.as_str());
                s
            },
            LogEntry::DrewOption { title } => {
                let mut s = String::from_str("Drew an Option to Buy card: ");
                s.append(title.as_str());
                s
            },
            LogEntry::MovedTo { name, tile } => {
                let mut s = name.clone();
                s.append(" moved to ");
                s.append(tile.as_str());
                s
            },
            LogEntry::MovedToIndex { name, index } => {
                let mut s = name.clone();
                s.append(" moved to tile ");
                push_nat(&mut s, *index as u64);
                s
            },
            LogEntry::YieldDoubled { name, asset } => {
                let mut s = name.clone();
                s.append("'s yield is doubled for ");
                s.append(asset.label());
                s.append("!");
                s
            },
            LogEntry::MovedAndGained { name, tile, amount } => {
                let mut s = name.clone();
                s.append(" moved to ");
                s.append(tile.as_str());
                s.append(" and gained $");
                push_int(&mut s, *amount as i64);
                s
            },
            LogEntry::MovedToIndexAndGained { name, index, amount } => {
                let mut s = name.clone();
                s.append(" moved to tile ");
                push_nat(&mut s, *index as u64);
                s.append(" and gained $");
                push_int(&mut s, *amount as i64);
                s
            },
            LogEntry::AcreBonus { name, total, quantity, asset } => {
                let mut s = name.clone();
                s.append(" gained $");
                push_int(&mut s, *total as i64);
                s.append(" bonus for ");
                push_int(&mut s, *quantity as i64);
                s.append(" ");
                s.append(asset.label());
                s.append(" acres.");
                s
            },
            LogEntry::BonusGained { name, bonus } => {
                let mut s = name.clone();
                s.append(" gained $");
                push_int(&mut s, *bonus as i64);
                s.append(" bonus.");
                s
            },
            LogEntry::HarvestFailed { reason } => {
                let mut s = String::from_str("Error during harvest: ");
                let reason_text = reason.message(); s.append(reason_text.as_str());
                s
            },
            LogEntry::CannotMove { name, asset } => {
                let mut s = name.clone();
                s.append(" cannot move (no ");
                s.append(asset.label());
                s.append(").");
                s
            },
            LogEntry::YieldSet { name, multiplier, asset } => {
                let mut s = name.clone();
                s.append("'s yield is set to ");
                multiplier.push_tenths(&mut s);
                s.append("x for ");
                s.append(asset.label());
                s.append("!");
                s
            },
            LogEntry::MustPayForAsset { name, amount, asset } => {
                let mut s = name.clone();
                s.append(" must pay $");
                push_int(&mut s, *amount as i64);
                s.append(" for having ");
                s.append(asset.label());
                s.append(".");
                s
            },
            LogEntry::NoPaymentForAsset { name, asset } => {
                let mut s = name.clone();
                s.append(" does not have to pay (no ");
                s.append(asset.label());
                s.append(").");
                s
            },
            LogEntry::NoHarvestRequired => {
                let s = String::from_str("No harvest required for this tile.");
                s
            },
            LogEntry::HarvestSkipped { name, asset } => {
                let mut s = name.clone();
                s.append(" does not own any ");
                s.append(asset.label());
                s.append(", skipping harvest.");
                s
            },
            LogEntry::NoExpenseDrawn => {
                let s = String::from_str("No operating expense drawn since there is no harvest.");
                s
            },
            LogEntry::HarvestGain { amount } => {
                let mut s = String::from_str("Gained $");
                push_int(&mut s, *amount as i64);
                s
            },
            LogEntry::ExpenseFailed { name, reason } => {
                let mut s = String::from_str("Error handling harvest expense for ");
                s.append(name.as_str());
                s.append(": ");
                let reason_text = reason.message(); s.append(reason_text.as_str());
                s
            },
            LogEntry::NoExpense => {
                let s = String::from_str("No expense incurred.");
                s
            },
            LogEntry::NoHarvestType => {
                let s = String::from_str("No harvest type specified.");
                s
            },
            LogEntry::NothingToHarvest { asset } => {
                let mut s = String::from_str("No ");
                s.append(asset.label());
                s.append(" to harvest.");
                s
            },
            LogEntry::OpCostFlat { title, amount } => {
                let mut s = String::from_str("Op Cost: ");
                s.append(title.as_str());
                s.append(" - Expense: $");
                push_int(&mut s, *amount as i64);
                s
            },
            LogEntry::OpCostPerAsset { title, rate, count, asset, total } => {
                let mut s = String::from_str("Op Cost: ");
                s.append(title.as_str());
                s.append(" - Expense: $");
                push_int(&mut s, *rate as i64);
                s.append("/");
                s.append(unit_word(*asset));
                s.append(" x ");
                push_int(&mut s, *count as i64);
                s.append(" ");
                s.append(units_word(*asset));
                s.append(" = $");
                push_int(&mut s, *total as i64);
                s
            },
            LogEntry::OpCostInterest { title, debt, interest } => {
                let mut s = String::from_str("Op Cost: ");
                s.append(title.as_str());
                s.append(" - Expense: 10% of $");
                push_int(&mut s, *debt as i64);
                s.append(" debt = $");
                push_int(&mut s, *interest as i64);
                s
            },
            LogEntry::OpCostNoInterest { title } => {
                let mut s = String::from_str("Op Cost: ");
                s.append(title.as_str());
                s.append(" - No interest (debt: $0)");
                s
            },
            LogEntry::OpCostNothing { title } => {
                let mut s = String::from_str("Op Cost: ");
                s.append(title.as_str());
                s.append(" - None");
                s
            },
            LogEntry::NotEnoughToHarvest { asset, needed } => {
                let mut s = String::from_str("Not enough ");
                s.append(asset.label());
                s.append(" for harvest (need ");
                push_int(&mut s, *needed as i64);
                s.append(").");
                s
            },
            LogEntry::HarvestLine {
                harvest,
                roll,
                base,
                quantity,
                asset,
                income,
                crop,
                livestock,
                gross,
                expense,
                net,
            } => {
                let mut s = String::from_str(harvest.title());
                s.append(": Roll ");
                push_nat(&mut s, *roll as u64);
                s.append(" = $");
                push_int(&mut s, *base as i64);
                s.append("/block x ");
                push_int(&mut s, *quantity as i64);
                s.append(" ");
                s.append(units_word(*asset));
                s.append(" - Income: $");
                push_int(&mut s, *income as i64);
                s.append(" x");
                crop.push_tenths(&mut s);
                s.append(" multiplier = x");
                livestock.push_tenths(&mut s);
                s.append(" livestock = $");
                push_int(&mut s, *gross as i64);
                s.append(" - $");
                push_int(&mut s, *expense as i64);
                s.append(" operating expense = $");
                push_int(&mut s, *net as i64);
                s
            },
            LogEntry::PassedGo { name } => {
                let mut s = name.clone();
                s.append(" passed Go (Tile 0)!");
                s
            },
            LogEntry::YearAdvanced { year } => {
                let mut s = String::from_str("Year advanced to ");
                push_nat(&mut s, *year as u64);
                s.append(".");
                s
            },
            LogEntry::SideJobPay { cash } => {
                let mut s = String::from_str("Collected $5000 side job pay. Cash: $");
                push_int(&mut s, *cash as i64);
                s
            },
            LogEntry::NoSideJobPay => {
                let s = String::from_str("Did not collect side job pay (ineligible this year).");
                s
            },
            LogEntry::Rolled { steps, tile } => {
                let mut s = String::from_str("Rolled a ");
                push_nat(&mut s, *steps as u64);
                s.append(" - landed on ");
                s.append(tile.as_str());
                s
            },
            LogEntry::TileFailed { reason } => {
                let mut s = String::from_str("Error handling tile event: ");
                let reason_text = reason.message(); s.append(reason_text.as_str());
                s
            },
            LogEntry::HandlingEffects { name, tile } => {
                let mut s = String::from_str("Handling effects for ");
                s.append(name.as_str());
                s.append(" on tile: ");
                s.append(tile.as_str());
                s
            },
            LogEntry::HarvestTile { tile_type } => {
                let mut s = String::from_str("This is a harvest-related tile (");
                s.append(tile_type.label());
                s.append(")");
                s
            },
            LogEntry::HarvestCheck => {
                let s = String::from_str("Harvest check may be applicable");
                s
            },
            LogEntry::MovedFromTo { name, from, to } => {
                let mut s = name.clone();
                s.append(" moved from tile ");
                push_nat(&mut s, *from as u64);
                s.append(" to tile ");
                push_nat(&mut s, *to as u64);
                s
            },
        }
    }
}

/// The words of every entry of a log, in its order.
pub fn messages(logs: &Vec<LogEntry>) -> (lines: Vec<String>)
    ensures
        lines.len() == logs.len(),
        forall|i: int| 0 <= i < logs.len() ==> (#[trigger] lines[i])@ == logs[i].text(),
{
    let mut lines: Vec<String> = Vec::new();
    let mut i: usize = 0;
    while i < logs.len()
        invariant
            i <= logs.len(),
            lines.len() == i,
            forall|j: int| 0 <= j < i ==> (#[trigger] lines[j])@ == logs[j].text(),
        decreases logs.len() - i,
    {
        lines.push(logs[i].message());
        i += 1;
    }
    lines
}

} // verus!
