//! The errors of the engine. Every rejected operation is a value of
//! `GameError`; none is a panic.

use crate::text::{int_text, nat_text, push_int, push_nat};
use vstd::prelude::*;
use vstd::string::StringExecFns;

verus! {

/// The three decks of the game.
#[derive(Debug, Clone, Copy, PartialEq, Eq, Hash, Structural)]
pub enum DeckKind {
    FarmersFate,
    OperatingCost,
    OptionToBuy,
}

impl DeckKind {
    /// The deck's name as it stands in messages.
    pub open spec fn label_text(self) -> Seq<char> {
        match self {
            DeckKind::FarmersFate => "Farmer's Fate"@,
            DeckKind::OperatingCost => "Operating Cost"@,
            DeckKind::OptionToBuy => "Option to Buy"@,
        }
    }

    /// The deck's name as it stands in messages.
    pub fn label(&self) -> (s: &'static str)
        ensures
            s@ == self.label_text(),
    {
        match self {
            DeckKind::FarmersFate => "Farmer's Fate",
            DeckKind::OperatingCost => "Operating Cost",
            DeckKind::OptionToBuy => "Option to Buy",
        }
    }
}

/// The four families of error.
#[derive(Debug, Clone, Copy, PartialEq, Eq, Hash, Structural)]
pub enum ErrorKind {
    /// A player, card, tile or ridge that is not there.
    Lookup,
    /// A draw from a deck whose two piles are empty.
    DeckExhausted,
    /// A payment that the debt ceiling does not let the player borrow for.
    Insolvency,
    /// An operation that the rules refuse.
    InvalidOperation,
}

/// Why an operation was rejected.
#[derive(Debug, PartialEq)]
pub enum GameError {
    /// No player has this id.
    PlayerNotFound { player_id: usize },
    /// The player's hand holds no card with this id.
    CardNotInHand { player_id: usize, card_id: usize },
    /// No ridge has this name.
    RidgeNotFound { name: String },
    /// The board has no tile at this position.
    InvalidPosition { position: usize },
    /// Both piles of the deck are empty.
    DeckExhausted { deck: DeckKind },
    /// The loan that the payment needs would lift the debt over the ceiling.
    DebtLimitExceeded { player_id: usize, required: i32 },
    /// The player cannot pay for a purchase that admits no loan.
    InsufficientFunds { required: i32, available: i32 },
    /// The purchase needs a loan, and the player has not agreed to one.
    LoanConfirmationRequired,
    /// The purchase needs a larger loan than the debt ceiling leaves room for.
    LoanBeyondCapacity { capacity: i32, required: i32 },
    /// The loan asked for would lift the debt over the ceiling.
    LoanWouldExceedLimit,
    /// The player cannot pay the fifth of the price that is due at once.
    DownPaymentShort { required: i32, available: i32 },
    /// The purchase would put more cows on the farm than it may hold.
    CowLimitExceeded { quantity: i32, current: i32 },
    /// The card is neither an option to buy nor a lease.
    NotAnOption,
    /// The ridge has a lessee already.
    RidgeAlreadyLeased { name: String },
    /// The ridge has no room for so many cows.
    RidgeOverCapacity { amount: i32, capacity: i32 },
    /// The ridge holds fewer cows than are to leave.
    RidgeTooFewCows { amount: i32, present: i32 },
    /// A ridge is leased with exactly the herd it is rated for.
    RidgeWrongStock { required: i32 },
    /// No deck is drawn from on a tile of this type.
    InvalidTileType,
    /// No yield table exists for this asset.
    UnsupportedHarvestAsset,
    /// A payment on the debt must be more than nothing.
    PaymentNotPositive,
    /// The player has not the cash for the payment.
    NotEnoughCash { required: i32, available: i32 },
    /// The player owes nothing.
    NoDebtToPay,
    /// An amount of the operation does not fit the machine's integers.
    AmountOutOfRange,
}

/// A copy of `e`.
pub fn copy_error(e: &GameError) -> (r: GameError)
    ensures
        r == *e,
{
    match e {
        GameError::PlayerNotFound { player_id } => GameError::PlayerNotFound { player_id: *player_id },
        GameError::CardNotInHand { player_id, card_id } => GameError::CardNotInHand {
            player_id: *player_id,
            card_id: *card_id,
        },
        GameError::RidgeNotFound { name } => GameError::RidgeNotFound { name: name.clone() },
        GameError::InvalidPosition { position } => GameError::InvalidPosition { position: *position },
        GameError::DeckExhausted { deck } => GameError::DeckExhausted { deck: *deck },
        GameError::DebtLimitExceeded { player_id, required } => GameError::DebtLimitExceeded {
            player_id: *player_id,
            required: *required,
        },
        GameError::InsufficientFunds { required, available } => GameError::InsufficientFunds {
            required: *required,
            available: *available,
        },
        GameError::LoanConfirmationRequired => GameError::LoanConfirmationRequired,
        GameError::LoanBeyondCapacity { capacity, required } => GameError::LoanBeyondCapacity {
            capacity: *capacity,
            required: *required,
        },
        GameError::LoanWouldExceedLimit => GameError::LoanWouldExceedLimit,
        GameError::DownPaymentShort { required, available } => GameError::DownPaymentShort {
            required: *required,
            available: *available,
        },
        GameError::CowLimitExceeded { quantity, current } => GameError::CowLimitExceeded {
            quantity: *quantity,
            current: *current,
        },
        GameError::NotAnOption => GameError::NotAnOption,
        GameError::RidgeAlreadyLeased { name } => GameError::RidgeAlreadyLeased { name: name.clone() },
        GameError::RidgeOverCapacity { amount, capacity } => GameError::RidgeOverCapacity {
            amount: *amount,
            capacity: *capacity,
        },
        GameError::RidgeTooFewCows { amount, present } => GameError::RidgeTooFewCows {
            amount: *amount,
            present: *present,
        },
        GameError::RidgeWrongStock { required } => GameError::RidgeWrongStock { required: *required },
        GameError::InvalidTileType => GameError::InvalidTileType,
        GameError::UnsupportedHarvestAsset => GameError::UnsupportedHarvestAsset,
        GameError::PaymentNotPositive => GameError::PaymentNotPositive,
        GameError::NotEnoughCash { required, available } => GameError::NotEnoughCash {
            required: *required,
            available: *available,
        },
        GameError::NoDebtToPay => GameError::NoDebtToPay,
        GameError::AmountOutOfRange => GameError::AmountOutOfRange,
    }
}

impl Clone for GameError {
    fn clone(&self) -> (r: Self)
        ensures
            r == *self,
    {
        copy_error(self)
    }
}

impl GameError {
    /// The family that the error belongs to.
    pub open spec fn spec_kind(&self) -> ErrorKind {
        match self {
            GameError::PlayerNotFound { .. } => ErrorKind::Lookup,
            GameError::CardNotInHand { .. } => ErrorKind::Lookup,
            GameError::RidgeNotFound { .. } => ErrorKind::Lookup,
            GameError::InvalidPosition { .. } => ErrorKind::Lookup,
            GameError::DeckExhausted { .. } => ErrorKind::DeckExhausted,
            GameError::DebtLimitExceeded { .. } => ErrorKind::Insolvency,
            _ => ErrorKind::InvalidOperation,
        }
    }

    /// The family that the error belongs to.
    #[verifier::when_used_as_spec(spec_kind)]
    pub fn kind(&self) -> (k: ErrorKind)
        ensures
            k == self.spec_kind(),
    {
        match self {
            GameError::PlayerNotFound { .. } => ErrorKind::Lookup,
            GameError::CardNotInHand { .. } => ErrorKind::Lookup,
            GameError::RidgeNotFound { .. } => ErrorKind::Lookup,
            GameError::InvalidPosition { .. } => ErrorKind::Lookup,
            GameError::DeckExhausted { .. } => ErrorKind::DeckExhausted,
            GameError::DebtLimitExceeded { .. } => ErrorKind::Insolvency,
            _ => ErrorKind::InvalidOperation,
        }
    }

    /// The error in words.
    pub open spec fn text(&self) -> Seq<char> {
        match self {
            GameError::PlayerNotFound { player_id } => "Player "@ + nat_text(*player_id as nat)
                + " not found."@,
            GameError::CardNotInHand { player_id, card_id } => "Card ID "@ + nat_text(
                *card_id as nat,
            ) + " not found in the hand of player "@ + nat_text(*player_id as nat),
            GameError::RidgeNotFound { name } => "Ridge '"@ + name@ + "' not found."@,
            GameError::InvalidPosition { position } => "Invalid board position: "@ + nat_text(
                *position as nat,
            ),
            GameError::DeckExhausted { deck } => deck.label_text() + " deck is empty"@,
            GameError::DebtLimitExceeded { player_id, required } => "Player "@ + nat_text(
                *player_id as nat,
            ) + " cannot afford payment ($"@ + int_text(*required as int)
                + ") and required loan exceeds debt limit."@,
            GameError::InsufficientFunds { required, available } =>
                "Insufficient funds to buy asset. Required: $"@ + int_text(*required as int)
                    + ", Available: $"@ + int_text(*available as int),
            GameError::LoanConfirmationRequired => "Loan confirmation required"@,
            GameError::LoanBeyondCapacity { capacity, required } =>
                "Insufficient funds (Max Additional Loan: $"@ + int_text(*capacity as int)
                    + ", Required: $"@ + int_text(*required as int) + ")"@,
            GameError::LoanWouldExceedLimit => "Loan would exceed maximum allowed of $50,000"@,
            GameError::DownPaymentShort { required, available } =>
                "Insufficient funds for down payment. Required: $"@ + int_text(*required as int)
                    + ", Available: $"@ + int_text(*available as int),
            GameError::CowLimitExceeded { quantity, current } => "Cannot buy "@ + int_text(
                *quantity as int,
            ) + " cows via OTB. Would exceed farm limit of 20 (Current: "@ + int_text(
                *current as int,
            ) + ")."@,
            GameError::NotAnOption => "Card is not a valid Option to Buy type"@,
            GameError::RidgeAlreadyLeased { name } => name@ + " is already leased."@,
            GameError::RidgeOverCapacity { amount, capacity } => "Cannot add "@ + int_text(
                *amount as int,
            ) + " cows. Ridge capacity is "@ + int_text(*capacity as int) + "."@,
            GameError::RidgeTooFewCows { amount, present } => "Cannot remove "@ + int_text(
                *amount as int,
            ) + " cows. Only "@ + int_text(*present as int) + " cows present."@,
            GameError::RidgeWrongStock { required } =>
                "Invalid initial cow count. Ridge requires "@ + int_text(*required as int)
                    + " cows."@,
            GameError::InvalidTileType => "Invalid tile type for card drawing"@,
            GameError::UnsupportedHarvestAsset =>
                "Unsupported asset type for harvest calculation"@,
            GameError::PaymentNotPositive => "No payment made."@,
            GameError::NotEnoughCash { required, available } => "Not enough cash for payment of $"@
                + int_text(*required as int) + " (available: $"@ + int_text(*available as int)
                + ")"@,
            GameError::NoDebtToPay => "No debt to pay."@,
            GameError::AmountOutOfRange => "Amount out of range"@,
        }
    }

    /// The error in words.
    pub fn message(&self) -> (s: String)
        ensures
            s@ == self.text(),
    {
        match self {
            GameError::PlayerNotFound { player_id } => {
                let mut s = String::from_str("Player ");
                push_nat(&mut s, *player_id as u64);
                s.append(" not found.");
                s
            },
            GameError::CardNotInHand { player_id, card_id } => {
                let mut s = String::from_str("Card ID ");
                push_nat(&mut s, *card_id as u64);
                s.append(" not found in the hand of player ");
                push_nat(&mut s, *player_id as u64);
                s
            },
            GameError::RidgeNotFound { name } => {
                let mut s = String::from_str("Ridge '");
                s.append(name.as_str());
                s.append("' not found.");
                s
            },
            GameError::InvalidPosition { position } => {
                let mut s = String::from_str("Invalid board position: ");
                push_nat(&mut s, *position as u64);
                s
            },
            GameError::DeckExhausted { deck } => {
                let mut s = String::from_str(deck.label());
                s.append(" deck is empty");
                s
            },
            GameError::DebtLimitExceeded { player_id, required } => {
                let mut s = String::from_str("Player ");
                push_nat(&mut s, *player_id as u64);
                s.append(" cannot afford payment ($");
                push_int(&mut s, *required as i64);
                s.append(") and required loan exceeds debt limit.");
                s
            },
            GameError::InsufficientFunds { required, available } => {
                let mut s = String::from_str("Insufficient funds to buy asset. Required: $");
                push_int(&mut s, *required as i64);
                s.append(", Available: $");
                push_int(&mut s, *available as i64);
                s
            },
            GameError::LoanConfirmationRequired => String::from_str("Loan confirmation required"),
            GameError::LoanBeyondCapacity { capacity, required } => {
                let mut s = String::from_str("Insufficient funds (Max Additional Loan: $");
                push_int(&mut s, *capacity as i64);
                s.append(", Required: $");
                push_int(&mut s, *required as i64);
                s.append(")");
                s
            },
            GameError::LoanWouldExceedLimit => String::from_str(
                "Loan would exceed maximum allowed of $50,000",
            ),
            GameError::DownPaymentShort { required, available } => {
                let mut s = String::from_str("Insufficient funds for down payment. Required: $");
                push_int(&mut s, *required as i64);
                s.append(", Available: $");
                push_int(&mut s, *available as i64);
                s
            },
            GameError::CowLimitExceeded { quantity, current } => {
                let mut s = String::from_str("Cannot buy ");
                push_int(&mut s, *quantity as i64);
                s.append(" cows via OTB. Would exceed farm limit of 20 (Current: ");
                push_int(&mut s, *current as i64);
                s.append(").");
                s
            },
            GameError::NotAnOption => String::from_str("Card is not a valid Option to Buy type"),
            GameError::RidgeAlreadyLeased { name } => {
                let mut s = name.clone();
                s.append(" is already leased.");
                s
            },
            GameError::RidgeOverCapacity { amount, capacity } => {
                let mut s = String::from_str("Cannot add ");
                push_int(&mut s, *amount as i64);
                s.append(" cows. Ridge capacity is ");
                push_int(&mut s, *capacity as i64);
                s.append(".");
                s
            },
            GameError::RidgeTooFewCows { amount, present } => {
                let mut s = String::from_str("Cannot remove ");
                push_int(&mut s, *amount as i64);
                s.append(" cows. Only ");
                push_int(&mut s, *present as i64);
                s.append(" cows present.");
                s
            },
            GameError::RidgeWrongStock { required } => {
                let mut s = String::from_str("Invalid initial cow count. Ridge requires ");
                push_int(&mut s, *required as i64);
                s.append(" cows.");
                s
            },
            GameError::InvalidTileType => String::from_str("Invalid tile type for card drawing"),
            GameError::UnsupportedHarvestAsset => String::from_str(
                "Unsupported asset type for harvest calculation",
            ),
            GameError::PaymentNotPositive => String::from_str("No payment made."),
            GameError::NotEnoughCash { required, available } => {
                let mut s = String::from_str("Not enough cash for payment of $");
                push_int(&mut s, *required as i64);
                s.append(" (available: $");
                push_int(&mut s, *available as i64);
                s.append(")");
                s
            },
            GameError::NoDebtToPay => String::from_str("No debt to pay."),
            GameError::AmountOutOfRange => String::from_str("Amount out of range"),
        }
    }
}

} // verus!
