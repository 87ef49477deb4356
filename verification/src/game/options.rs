//! Options to buy: cards that a player holds and exercises when the time
//! has come.

use crate::cards::card::Card;
use crate::config::{FARM_COW_LIMIT, MAX_DEBT};
use crate::error::GameError;
use crate::game::card_effects::{borrowing_capacity, capacity_left};
use crate::models::asset::AssetType;
use crate::models::effects::GameEffect;
use crate::models::game_state::GameState;
use crate::models::multiplier::round_half_away;
use crate::models::player::{fits_i32, Player};
use crate::models::ridge::Ridge;
use crate::search::{first_index, found, lemma_first_index, lemma_not_found};
use vstd::prelude::*;

verus! {

/// The last position from which options may be exercised: the tile of
/// spring planting.
pub const LAST_OPTION_POSITION: usize = 14;

/// The cards without those of the id `id`, in their order.
pub open spec fn without_id(cards: Seq<Card>, id: usize) -> Seq<Card>
    decreases cards.len(),
{
    if cards.len() == 0 {
        Seq::empty()
    } else if cards.last().id == id {
        without_id(cards.drop_last(), id)
    } else {
        without_id(cards.drop_last(), id).push(cards.last())
    }
}

/// The options among the cards, in their order.
pub open spec fn options_among(cards: Seq<Card>) -> Seq<Card>
    decreases cards.len(),
{
    if cards.len() == 0 {
        Seq::empty()
    } else if cards.last().effect.spec_is_option() {
        options_among(cards.drop_last()).push(cards.last())
    } else {
        options_among(cards.drop_last())
    }
}

/// Whether the card has the id `id`.
pub open spec fn has_id(id: usize) -> spec_fn(Card) -> bool {
    |c: Card| c.id == id
}

/// Whether the ridge has the name `name`.
pub open spec fn is_named(name: Seq<char>) -> spec_fn(Ridge) -> bool {
    |r: Ridge| r.name@ == name
}

/// What an option costs; nothing for a card that is no option.
pub open spec fn option_cost(effect: GameEffect) -> Option<i32> {
    match effect {
        GameEffect::OptionalBuyAsset { cost, .. } => Some(cost),
        GameEffect::LeaseRidge { cost, .. } => Some(cost),
        _ => None,
    }
}

/// The player once `cost` is paid: from cash where cash covers it, else
/// with all cash and a loan of exactly what is missing.
pub open spec fn after_paying(p: Player, cost: i32) -> Player {
    if p.cash >= cost {
        Player { cash: (p.cash - cost) as i32, ..p }
    } else {
        Player { cash: 0, debt: (p.debt + (cost - p.cash)) as i32, ..p }
    }
}

/// Whether the option can be exercised, and why not where it cannot. The
/// checks come in this order: the card is an option; cash covers the cost,
/// or a loan is agreed to and the debt ceiling leaves room for it; cows stay
/// within the farm's limit; the ridge exists and is free.
pub open spec fn option_verdict(p: Player, card: Card, confirm_loan: bool, ridges: Seq<Ridge>) -> Result<
    (),
    GameError,
> {
    match option_cost(card.effect) {
        None => Err(GameError::NotAnOption),
        Some(cost) => if p.cash < cost && !confirm_loan {
            Err(GameError::LoanConfirmationRequired)
        } else if p.cash < cost && !fits_i32(cost - p.cash) {
            Err(GameError::AmountOutOfRange)
        } else if p.cash < cost && cost - p.cash > borrowing_capacity(p.debt as int) {
            Err(
                GameError::LoanBeyondCapacity {
                    capacity: borrowing_capacity(p.debt as int) as i32,
                    required: (cost - p.cash) as i32,
                },
            )
        } else if p.cash >= cost && !fits_i32(p.cash - cost) {
            Err(GameError::AmountOutOfRange)
        } else {
            match card.effect {
                GameEffect::OptionalBuyAsset { asset, quantity, .. } => if asset == AssetType::Cows
                    && p.assets.quantity(AssetType::Cows) + quantity > FARM_COW_LIMIT {
                    Err(
                        GameError::CowLimitExceeded {
                            quantity,
                            current: p.assets.quantity(AssetType::Cows) as i32,
                        },
                    )
                } else if !p.spec_can_add_asset(asset, quantity, cost) {
                    Err(GameError::AmountOutOfRange)
                } else {
                    Ok(())
                },
                GameEffect::LeaseRidge { name, .. } => if !found(ridges, is_named(name@)) {
                    Err(GameError::RidgeNotFound { name })
                } else if ridges[first_index(ridges, is_named(name@))].leased_by.is_some() {
                    Err(GameError::RidgeAlreadyLeased { name })
                } else {
                    Ok(())
                },
                _ => Err(GameError::NotAnOption),
            }
        },
    }
}

/// The player once the option is exercised, the hand and the scoreboard
/// apart: the cost is paid, and the holding is added or the value of the
/// ridges set to the cost of the lease.
pub open spec fn option_settled(p: Player, card: Card) -> Player {
    match card.effect {
        GameEffect::OptionalBuyAsset { asset, quantity, cost } => after_paying(
            p,
            cost,
        ).with_asset_added(asset, quantity, cost),
        GameEffect::LeaseRidge { cost, .. } => Player {
            total_ridge_value: cost,
            ..after_paying(p, cost)
        },
        _ => p,
    }
}

/// The ridges once the option is exercised by the player under
/// `player_id`: the ridge of a lease has its lessee.
pub open spec fn ridges_settled(ridges: Seq<Ridge>, card: Card, player_id: usize) -> Seq<Ridge> {
    match card.effect {
        GameEffect::LeaseRidge { name, .. } => ridges.update(
            first_index(ridges, is_named(name@)),
            Ridge {
                leased_by: Some(player_id),
                ..ridges[first_index(ridges, is_named(name@))]
            },
        ),
        _ => ridges,
    }
}

/// Whether `r` and `after` are what exercising the card `card_id` from the
/// hand of the player under `player_id` leaves of the state `before`.
///
/// * A missing player, and a card that is not in the hand, are errors.
/// * So is every failure of `option_verdict`, for the first card of the id
///   in the hand.
/// * An error changes nothing.
/// * A success pays the cost, adds the holding or leases the ridge,
///   computes the scoreboard anew, and takes every card of the id from the
///   hand.
pub open spec fn is_option_exercised(
    before: GameState,
    player_id: usize,
    card_id: usize,
    confirm_loan: bool,
    r: Result<(), GameError>,
    after: GameState,
) -> bool {
    if !before.players.has(player_id) {
        r == Err::<(), GameError>(GameError::PlayerNotFound { player_id }) && after == before
    } else {
        let i = before.players.index_of(player_id);
        let p = before.players.player(player_id);
        if !found(p.hand@, has_id(card_id)) {
            r == Err::<(), GameError>(GameError::CardNotInHand { player_id, card_id }) && after
                == before
        } else {
            let card = p.hand@[first_index(p.hand@, has_id(card_id))];
            match option_verdict(p, card, confirm_loan, before.ridges@) {
                Err(e) => r == Err::<(), GameError>(e) && after == before,
                Ok(()) => {
                    &&& r == Ok::<(), GameError>(())
                    &&& after == (GameState {
                        players: after.players,
                        ridges: after.ridges,
                        ..before
                    })
                    &&& after.ridges@ == ridges_settled(before.ridges@, card, player_id)
                    &&& after.players.entries@.len() == before.players.entries@.len()
                    &&& after.players.entries@ == before.players.entries@.update(
                        i,
                        (player_id, after.players.entries@[i].1),
                    )
                    &&& (Player { hand: p.hand, ..after.players.entries@[i].1 }) == option_settled(
                        p,
                        card,
                    ).refreshed()
                    &&& after.players.entries@[i].1.hand@ == without_id(p.hand@, card_id)
                },
            }
        }
    }
}

/// No option buys cows beyond the farm's limit: exercising a purchase of
/// cows that would leave more than twenty on the farm fails, whatever the
/// player can pay.
pub proof fn lemma_cow_cap_on_options(
    p: Player,
    card: Card,
    confirm_loan: bool,
    ridges: Seq<Ridge>,
    quantity: i32,
    cost: i32,
)
    requires
        card.effect == (GameEffect::OptionalBuyAsset { asset: AssetType::Cows, quantity, cost }),
        p.assets.quantity(AssetType::Cows) + quantity > FARM_COW_LIMIT,
    ensures
        option_verdict(p, card, confirm_loan, ridges).is_err(),
{
}

/// The place of the first card of the id `id` in the hand.
pub fn find_card(hand: &Vec<Card>, id: usize) -> (r: Option<usize>)
    ensures
        match r {
            Some(i) => found(hand@, has_id(id)) && i == first_index(hand@, has_id(id)) && i
                < hand@.len() && hand@[i as int].id == id,
            None => !found(hand@, has_id(id)),
        },
{
    let mut i: usize = 0;
    while i < hand.len()
        invariant
            i <= hand.len(),
            forall|j: int| 0 <= j < i ==> !has_id(id)(#[trigger] hand@[j]),
        decreases hand.len() - i,
    {
        if hand[i].id == id {
            proof {
                assert(has_id(id)(hand@[i as int]));
                lemma_first_index(hand@, has_id(id), i as int);
            }
            return Some(i);
        }
        i += 1;
    }
    proof {
        lemma_not_found(hand@, has_id(id));
    }
    None
}

/// The place of the first ridge of the name `name`.
pub fn find_ridge(ridges: &Vec<Ridge>, name: &String) -> (r: Option<usize>)
    ensures
        match r {
            Some(i) => found(ridges@, is_named(name@)) && i == first_index(
                ridges@,
                is_named(name@),
            ) && i < ridges@.len() && ridges@[i as int].name@ == name@,
            None => !found(ridges@, is_named(name@)),
        },
{
    let mut i: usize = 0;
    while i < ridges.len()
        invariant
            i <= ridges.len(),
            forall|j: int| 0 <= j < i ==> !is_named(name@)(#[trigger] ridges@[j]),
        decreases ridges.len() - i,
    {
        if ridges[i].name == *name {
            proof {
                assert(is_named(name@)(ridges@[i as int]));
                lemma_first_index(ridges@, is_named(name@), i as int);
            }
            return Some(i);
        }
        i += 1;
    }
    proof {
        lemma_not_found(ridges@, is_named(name@));
    }
    None
}

/// The hand without the cards of the id `id`.
pub fn hand_without(hand: &Vec<Card>, id: usize) -> (kept: Vec<Card>)
    ensures
        kept@ == without_id(hand@, id),
{
    let mut kept: Vec<Card> = Vec::new();
    let mut i: usize = 0;
    while i < hand.len()
        invariant
            i <= hand.len(),
            kept@ == without_id(hand@.take(i as int), id),
        decreases hand.len() - i,
    {
        proof {
            let next = hand@.take(i + 1);
            assert(next.drop_last() =~= hand@.take(i as int));
            assert(next.last() == hand@[i as int]);
        }
        if hand[i].id != id {
            kept.push(hand[i].clone());
        }
        i += 1;
    }
    assert(hand@.take(i as int) =~= hand@);
    kept
}

impl Player {
    /// Whether the option can be exercised, and why not where it cannot.
    pub fn check_option(&self, card: &Card, confirm_loan: bool, ridges: &Vec<Ridge>) -> (r: Result<
        (),
        GameError,
    >)
        ensures
            r == option_verdict(*self, *card, confirm_loan, ridges@),
    {
        let cost: i32 = match &card.effect {
            GameEffect::OptionalBuyAsset { cost, .. } => *cost,
            GameEffect::LeaseRidge { cost, .. } => *cost,
            _ => {
                return Err(GameError::NotAnOption);
            },
        };
        if self.cash < cost {
            if !confirm_loan {
                return Err(GameError::LoanConfirmationRequired);
            }
            let missing: i64 = cost as i64 - self.cash as i64;
            if missing > i32::MAX as i64 {
                return Err(GameError::AmountOutOfRange);
            }
            let capacity: i32 = capacity_left(self.debt);
            if missing > capacity as i64 {
                return Err(GameError::LoanBeyondCapacity { capacity, required: missing as i32 });
            }
        } else {
            let left: i64 = self.cash as i64 - cost as i64;
            if left > i32::MAX as i64 {
                return Err(GameError::AmountOutOfRange);
            }
        }
        match &card.effect {
            GameEffect::OptionalBuyAsset { asset, quantity, .. } => {
                let cows: i32 = self.assets.quantity_of(&AssetType::Cows);
                if *asset == AssetType::Cows && cows as i64 + *quantity as i64
                    > FARM_COW_LIMIT as i64 {
                    return Err(GameError::CowLimitExceeded { quantity: *quantity, current: cows });
                }
                if !self.can_add_asset(*asset, *quantity, cost) {
                    return Err(GameError::AmountOutOfRange);
                }
                Ok(())
            },
            GameEffect::LeaseRidge { name, .. } => {
                match find_ridge(ridges, name) {
                    None => Err(GameError::RidgeNotFound { name: name.clone() }),
                    Some(k) => {
                        if ridges[k].is_leased() {
                            Err(GameError::RidgeAlreadyLeased { name: name.clone() })
                        } else {
                            Ok(())
                        }
                    },
                }
            },
            _ => Err(GameError::NotAnOption),
        }
    }

    /// Pays `cost`, from cash or with a loan of exactly what is missing.
    fn pay_for_option(&mut self, cost: i32)
        requires
            old(self).cash >= cost ==> fits_i32(old(self).cash - cost),
            old(self).cash < cost ==> fits_i32(cost - old(self).cash) && cost - old(self).cash
                <= borrowing_capacity(old(self).debt as int),
        ensures
            *final(self) == after_paying(*old(self), cost),
    {
        if self.cash >= cost {
            self.cash = self.cash - cost;
        } else {
            let missing: i32 = cost - self.cash;
            self.debt = (self.debt as i64 + missing as i64) as i32;
            self.cash = 0;
        }
    }
}

impl GameState {
    /// Whether the player under `player_id` stands where options may be
    /// exercised: on one of the tiles up to spring planting. No player, no
    /// options.
    pub fn can_exercise_option_to_buy(&self, player_id: usize) -> (b: bool)
        ensures
            b == (self.players.has(player_id) && self.players.player(player_id).position
                <= LAST_OPTION_POSITION),
    {
        match self.players.get(&player_id) {
            Some(p) => p.position <= LAST_OPTION_POSITION,
            None => false,
        }
    }

    /// The options in the hand of the player under `player_id`, in their
    /// order. No player, no options.
    pub fn get_option_to_buy_cards(&self, player_id: usize) -> (cards: Vec<&Card>)
        ensures
            cards@.len() == if self.players.has(player_id) {
                options_among(self.players.player(player_id).hand@).len()
            } else {
                0
            },
            forall|k: int|
                0 <= k < cards@.len() ==> *(#[trigger] cards@[k]) == options_among(
                    self.players.player(player_id).hand@,
                )[k],
    {
        let mut cards: Vec<&Card> = Vec::new();
        match self.players.get(&player_id) {
            Some(p) => {
                let mut i: usize = 0;
                while i < p.hand.len()
                    invariant
                        i <= p.hand.len(),
                        cards@.len() == options_among(p.hand@.take(i as int)).len(),
                        forall|k: int|
                            0 <= k < cards@.len() ==> *(#[trigger] cards@[k]) == options_among(
                                p.hand@.take(i as int),
                            )[k],
                    decreases p.hand.len() - i,
                {
                    proof {
                        let next = p.hand@.take(i + 1);
                        assert(next.drop_last() =~= p.hand@.take(i as int));
                        assert(next.last() == p.hand@[i as int]);
                    }
                    if p.hand[i].effect.is_option() {
                        cards.push(&p.hand[i]);
                    }
                    i += 1;
                }
                assert(p.hand@.take(i as int) =~= p.hand@);
            },
            None => {},
        }
        cards
    }

    /// Exercises the option `card_id` from the hand of the player under
    /// `player_id`, with a loan for what cash does not cover where
    /// `confirm_loan` says so.
    #[verifier::rlimit(50)]
    pub fn exercise_option_to_buy(&mut self, player_id: usize, card_id: usize, confirm_loan: bool) -> (r:
        Result<(), GameError>)
        ensures
            is_option_exercised(*old(self), player_id, card_id, confirm_loan, r, *final(self)),
            old(self).books_balanced() ==> final(self).books_balanced(),
    {
        let i = match self.players.position(player_id) {
            Some(i) => i,
            None => {
                return Err(GameError::PlayerNotFound { player_id });
            },
        };
        let at = match find_card(&self.players.entries[i].1.hand, card_id) {
            Some(at) => at,
            None => {
                return Err(GameError::CardNotInHand { player_id, card_id });
            },
        };
        let card = self.players.entries[i].1.hand[at].clone();
        match self.players.entries[i].1.check_option(&card, confirm_loan, &self.ridges) {
            Err(e) => {
                return Err(e);
            },
            Ok(()) => {},
        }
        let ghost p = old(self).players.player(player_id);
        match &card.effect {
            GameEffect::OptionalBuyAsset { asset, quantity, cost } => {
                self.players.entries[i].1.pay_for_option(*cost);
                self.players.entries[i].1.put_asset(*asset, *quantity, *cost);
            },
            GameEffect::LeaseRidge { name, cost, .. } => {
                let k = find_ridge(&self.ridges, name).unwrap();
                self.ridges[k].leased_by = Some(player_id);
                self.players.entries[i].1.pay_for_option(*cost);
                self.players.entries[i].1.total_ridge_value = *cost;
            },
            _ => {},
        }
        self.players.entries[i].1.update_scoreboard();
        let kept = hand_without(&self.players.entries[i].1.hand, card_id);
        self.players.entries[i].1.hand = kept;
        proof {
            assert(self.players.entries@ =~= old(self).players.entries@.update(
                i as int,
                (player_id, self.players.entries@[i as int].1),
            ));
            assert(self.ridges@ =~= ridges_settled(old(self).ridges@, card, player_id));
        }
        Ok(())
    }

    /// Lends `amount` to the player under `player_id`, cash for debt,
    /// unless the debt would pass the ceiling. Returns the cash and the debt
    /// from before the loan.
    pub fn _borrow_for_option_to_buy(&mut self, player_id: usize, amount: i32) -> (r: Result<
        (i32, i32),
        GameError,
    >)
        ensures
            !old(self).players.has(player_id) ==> r == Err::<(i32, i32), GameError>(
                GameError::PlayerNotFound { player_id },
            ) && *final(self) == *old(self),
            old(self).players.has(player_id) ==> ({
                let p = old(self).players.player(player_id);
                if p.debt + amount > MAX_DEBT {
                    r == Err::<(i32, i32), GameError>(GameError::LoanWouldExceedLimit) && *final(self)
                        == *old(self)
                } else if !fits_i32(p.cash + amount) || !fits_i32(p.debt + amount) {
                    r == Err::<(i32, i32), GameError>(GameError::AmountOutOfRange) && *final(self)
                        == *old(self)
                } else {
                    r == Ok::<(i32, i32), GameError>((p.cash, p.debt)) && old(self).seat_replaced(
                        *final(self),
                        player_id,
                        Player {
                            cash: (p.cash + amount) as i32,
                            debt: (p.debt + amount) as i32,
                            ..p
                        },
                    )
                }
            }),
    {
        let i = match self.players.position(player_id) {
            Some(i) => i,
            None => {
                return Err(GameError::PlayerNotFound { player_id });
            },
        };
        let old_cash: i32 = self.players.entries[i].1.cash;
        let old_debt: i32 = self.players.entries[i].1.debt;
        let debt: i64 = old_debt as i64 + amount as i64;
        let cash: i64 = old_cash as i64 + amount as i64;
        if debt > MAX_DEBT as i64 {
            return Err(GameError::LoanWouldExceedLimit);
        }
        if cash > i32::MAX as i64 || cash < i32::MIN as i64 || debt < i32::MIN as i64 {
            return Err(GameError::AmountOutOfRange);
        }
        self.players.entries[i].1.cash = cash as i32;
        self.players.entries[i].1.debt = debt as i32;
        proof {
            let p = old(self).players.player(player_id);
            assert(self.players.entries@ =~= old(self).players.entries@.update(
                i as int,
                (
                    player_id,
                    Player { cash: (p.cash + amount) as i32, debt: (p.debt + amount) as i32, ..p },
                ),
            ));
        }
        Ok((old_cash, old_debt))
    }

    /// What exercising the option `card_id` on credit would take: a fifth of
    /// the cost at once, rounded, and the rest as a loan. Fails where the
    /// player has not the fifth, or the loan would lift the debt over the
    /// ceiling.
    pub fn _check_option_to_buy_loan(&self, player_id: usize, card_id: usize) -> (r: Result<
        (i32, i32),
        GameError,
    >)
        ensures
            !self.players.has(player_id) ==> r == Err::<(i32, i32), GameError>(
                GameError::PlayerNotFound { player_id },
            ),
            self.players.has(player_id) && !found(
                self.players.player(player_id).hand@,
                has_id(card_id),
            ) ==> r == Err::<(i32, i32), GameError>(GameError::CardNotInHand { player_id, card_id }),
            self.players.has(player_id) && found(
                self.players.player(player_id).hand@,
                has_id(card_id),
            ) ==> r == credit_terms(
                self.players.player(player_id),
                self.players.player(player_id).hand@[first_index(
                    self.players.player(player_id).hand@,
                    has_id(card_id),
                )],
            ),
    {
        let p = match self.players.get(&player_id) {
            Some(p) => p,
            None => {
                return Err(GameError::PlayerNotFound { player_id });
            },
        };
        let at = match find_card(&p.hand, card_id) {
            Some(at) => at,
            None => {
                return Err(GameError::CardNotInHand { player_id, card_id });
            },
        };
        let cost: i32 = match &p.hand[at].effect {
            GameEffect::OptionalBuyAsset { cost, .. } => *cost,
            GameEffect::LeaseRidge { cost, .. } => *cost,
            _ => {
                return Err(GameError::NotAnOption);
            },
        };
        let c: i64 = cost as i64;
        let down: i64 = if c >= 0 {
            (2 * (c * 20) + 100) / 200
        } else {
            -((2 * (-(c * 20)) + 100) / 200)
        };
        if (p.cash as i64) < down {
            return Err(
                GameError::DownPaymentShort { required: down as i32, available: p.cash },
            );
        }
        let loan: i64 = c - down;
        if p.debt as i64 + loan > MAX_DEBT as i64 {
            return Err(GameError::LoanWouldExceedLimit);
        }
        Ok((down as i32, loan as i32))
    }
}

/// The fifth of a cost that is due at once, rounded.
pub open spec fn down_payment(cost: int) -> int {
    round_half_away(cost * 20, 100)
}

/// The terms of buying on credit: the down payment and the loan, or why
/// the player cannot have them.
pub open spec fn credit_terms(p: Player, card: Card) -> Result<(i32, i32), GameError> {
    match option_cost(card.effect) {
        None => Err(GameError::NotAnOption),
        Some(cost) => if p.cash < down_payment(cost as int) {
            Err(
                GameError::DownPaymentShort {
                    required: down_payment(cost as int) as i32,
                    available: p.cash,
                },
            )
        } else if p.debt + (cost - down_payment(cost as int)) > MAX_DEBT {
            Err(GameError::LoanWouldExceedLimit)
        } else {
            Ok((down_payment(cost as int) as i32, (cost - down_payment(cost as int)) as i32))
        },
    }
}

} // verus!
