//! Bankruptcy: a loan from the bank on the holdings, or an auction of them
//! among the other players.

use crate::config::FARM_COW_LIMIT;
use crate::game::fan_out::Seats;
use crate::game::harvest::quotient_toward_zero;
use crate::models::asset::{kind_at, kinds, AssetLedger, AssetRecord, AssetType};
use crate::models::game_state::GameState;
use crate::models::player::{fits_i32, Player};
use crate::models::roster::seat_of;
use crate::search::{first_index, found, lemma_first_index, lemma_not_found};
use vstd::prelude::*;

verus! {

/// A holding that is up for auction: the asset and the record of it.
pub type Lot = (AssetType, AssetRecord);

/// A bid that a person has decided on: for this asset, by the player under
/// this id, of this amount.
#[derive(Debug, Clone, Copy, PartialEq, Eq, Structural)]
pub struct Bid {
    pub asset: AssetType,
    pub player_id: usize,
    pub amount: i32,
}

/// The lots with one more, put behind every lot that cost as much or more.
pub open spec fn with_lot(sorted: Seq<Lot>, lot: Lot) -> Seq<Lot>
    decreases sorted.len(),
{
    if sorted.len() == 0 {
        seq![lot]
    } else if sorted.last().1.total_cost >= lot.1.total_cost {
        sorted.push(lot)
    } else {
        with_lot(sorted.drop_last(), lot).push(sorted.last())
    }
}

/// The lots of the first `n` kinds that the ledger holds, the costliest
/// first; lots of equal cost in the order of their kinds.
pub open spec fn lots_upto(ledger: AssetLedger, n: int) -> Seq<Lot>
    decreases n,
{
    if n <= 0 {
        Seq::empty()
    } else {
        match ledger.spec_get(kinds()[n - 1]) {
            Some(r) => with_lot(lots_upto(ledger, n - 1), (kinds()[n - 1], r)),
            None => lots_upto(ledger, n - 1),
        }
    }
}

/// The lots of a ledger in the order in which they come up for auction.
pub open spec fn lots_of(ledger: AssetLedger) -> Seq<Lot> {
    lots_upto(ledger, 6)
}

/// Whether the bid is for this asset by this player.
pub open spec fn is_bid_for(asset: AssetType, player_id: usize) -> spec_fn(Bid) -> bool {
    |b: Bid| b.asset == asset && b.player_id == player_id
}

/// What a person bids for an asset: the amount of the first bid on record
/// for the asset and the player, nothing where there is none.
pub open spec fn human_bid(bids: Seq<Bid>, asset: AssetType, player_id: usize) -> int {
    if found(bids, is_bid_for(asset, player_id)) {
        bids[first_index(bids, is_bid_for(asset, player_id))].amount as int
    } else {
        0
    }
}

/// What a computer player bids: four fifths of its cash, rounded toward
/// zero.
pub open spec fn ai_bid(cash: int) -> int {
    quotient_toward_zero(cash * 4, 5)
}

/// Whether the farm of `o` can take the lot: a lot of cows only where it
/// leaves no more than twenty cows on the farm.
pub open spec fn takes_lot(o: Player, lot: Lot) -> bool {
    lot.0 == AssetType::Cows ==> o.assets.quantity(AssetType::Cows) + lot.1.quantity
        <= FARM_COW_LIMIT
}

/// The highest bid for a lot and the seat it came from, once the first `n`
/// seats have had their say. The bankrupt player does not bid, nor does
/// anyone whose farm cannot take the lot or whose cash is not above the
/// highest bid so far. A computer player bids four fifths of its cash; a
/// person's bid counts where cash covers it. Only a higher bid takes the
/// lead.
pub open spec fn bidding_upto(seats: Seats, bankrupt: usize, lot: Lot, bids: Seq<Bid>, n: int) -> (
    int,
    Option<int>,
)
    decreases n,
{
    if n <= 0 {
        (0, None)
    } else {
        let lead = bidding_upto(seats, bankrupt, lot, bids, n - 1);
        let o = seats[n - 1].1;
        if seats[n - 1].0 != bankrupt && takes_lot(o, lot) && o.cash > lead.0 {
            if o.player_type.spec_is_ai() {
                if ai_bid(o.cash as int) > lead.0 {
                    (ai_bid(o.cash as int), Some(n - 1))
                } else {
                    lead
                }
            } else if human_bid(bids, lot.0, seats[n - 1].0) > lead.0 && human_bid(
                bids,
                lot.0,
                seats[n - 1].0,
            ) <= o.cash {
                (human_bid(bids, lot.0, seats[n - 1].0), Some(n - 1))
            } else {
                lead
            }
        } else {
            lead
        }
    }
}

/// The bid that leads comes from a seat among the first `n` that is not the
/// bankrupt player's and whose farm can take the lot: no auction leaves more
/// than twenty cows on the winner's farm.
pub proof fn lemma_winner_takes_lot(seats: Seats, bankrupt: usize, lot: Lot, bids: Seq<Bid>, n: int)
    requires
        0 <= n <= seats.len(),
    ensures
        bidding_upto(seats, bankrupt, lot, bids, n).1 matches Some(w) ==> 0 <= w < n && seats[w].0
            != bankrupt && takes_lot(seats[w].1, lot),
    decreases n,
{
    if n > 0 {
        lemma_winner_takes_lot(seats, bankrupt, lot, bids, n - 1);
    }
}

/// The player without the holding of `asset`, the scoreboard computed anew.
pub open spec fn without_holding(p: Player, asset: AssetType) -> Player {
    (Player { assets: p.assets.with(asset, None), ..p }).refreshed()
}

/// The seats once a lot is sold: the winner pays the bid and adds the
/// whole quantity to the ledger at the bid as its cost, and the lot leaves
/// the ledger of its owner, who sits at `owner`. No winner, no sale; nor
/// where the winner's record cannot take the lot.
pub open spec fn after_sale(seats: Seats, owner: int, lot: Lot, bid: int, winner: Option<int>) -> Seats {
    match winner {
        Some(w) => if 0 <= w < seats.len() && 0 <= owner < seats.len() && w != owner && fits_i32(
            bid,
        ) && fits_i32(seats[w].1.cash - bid) && seats[w].1.spec_can_add_asset(
            lot.0,
            lot.1.quantity,
            bid as i32,
        ) {
            seats.update(
                w,
                (
                    seats[w].0,
                    (Player { cash: (seats[w].1.cash - bid) as i32, ..seats[w].1 }).with_asset_added(
                        lot.0,
                        lot.1.quantity,
                        bid as i32,
                    ).refreshed(),
                ),
            ).update(owner, (seats[owner].0, without_holding(seats[owner].1, lot.0)))
        } else {
            seats
        },
        None => seats,
    }
}

/// The seats once the first `n` lots of the bankrupt player have been up
/// for auction, one after the other.
pub open spec fn auction_upto(seats: Seats, bankrupt: usize, lots: Seq<Lot>, bids: Seq<Bid>, n: int) -> Seats
    decreases n,
{
    if n <= 0 {
        seats
    } else {
        let before = auction_upto(seats, bankrupt, lots, bids, n - 1);
        let lead = bidding_upto(before, bankrupt, lots[n - 1], bids, before.len() as int);
        after_sale(before, seat_of(seats, bankrupt), lots[n - 1], lead.0, lead.1)
    }
}

/// The loan that the bank offers on the holdings: half of what they cost,
/// rounded toward zero.
pub open spec fn bank_offer(p: Player) -> int {
    quotient_toward_zero(p.assets.total_cost(), 2)
}

/// Whether the bank's loan is taken: it is more than nothing, the player is
/// a computer or agrees, and cash and debt stay in range with it.
pub open spec fn takes_bank_loan(p: Player, accepts: bool) -> bool {
    &&& bank_offer(p) > 0
    &&& p.player_type.spec_is_ai() || accepts
    &&& fits_i32(p.cash + bank_offer(p))
    &&& fits_i32(p.debt + bank_offer(p))
}

/// Puts a lot among the sorted lots.
fn insert_lot(sorted: &mut Vec<Lot>, lot: Lot)
    ensures
        final(sorted)@ == with_lot(old(sorted)@, lot),
    decreases old(sorted)@.len(),
{
    if sorted.len() == 0 {
        sorted.push(lot);
        assert(sorted@ =~= seq![lot]);
    } else if sorted[sorted.len() - 1].1.total_cost >= lot.1.total_cost {
        sorted.push(lot);
    } else {
        let last = sorted[sorted.len() - 1];
        sorted.pop();
        assert(sorted@ =~= old(sorted)@.drop_last());
        insert_lot(sorted, lot);
        sorted.push(last);
    }
}

/// The lots of a ledger in the order in which they come up for auction.
pub fn sorted_lots(ledger: &AssetLedger) -> (lots: Vec<Lot>)
    ensures
        lots@ == lots_of(*ledger),
{
    let mut lots: Vec<Lot> = Vec::new();
    let mut i: usize = 0;
    while i < 6
        invariant
            i <= 6,
            lots@ == lots_upto(*ledger, i as int),
        decreases 6 - i,
    {
        let kind = kind_at(i);
        match ledger.get(&kind) {
            Some(r) => {
                insert_lot(&mut lots, (kind, *r));
            },
            None => {},
        }
        i += 1;
    }
    lots
}

/// What a person bids for an asset.
pub fn find_bid(bids: &Vec<Bid>, asset: AssetType, player_id: usize) -> (amount: i32)
    ensures
        amount == human_bid(bids@, asset, player_id),
{
    let mut i: usize = 0;
    while i < bids.len()
        invariant
            i <= bids.len(),
            forall|j: int| 0 <= j < i ==> !is_bid_for(asset, player_id)(#[trigger] bids@[j]),
        decreases bids.len() - i,
    {
        if bids[i].asset == asset && bids[i].player_id == player_id {
            proof {
                assert(is_bid_for(asset, player_id)(bids@[i as int]));
                lemma_first_index(bids@, is_bid_for(asset, player_id), i as int);
            }
            return bids[i].amount;
        }
        i += 1;
    }
    proof {
        lemma_not_found(bids@, is_bid_for(asset, player_id));
    }
    0
}

impl GameState {
    /// Takes the bids for one lot of the player at the seat `owner` and
    /// makes the sale.
    #[verifier::rlimit(50)]
    fn auction_lot(&mut self, bankrupt: usize, owner: usize, lot: Lot, bids: &Vec<Bid>)
        requires
            owner < old(self).players.entries@.len(),
            old(self).players.entries@[owner as int].0 == bankrupt,
        ensures
            old(self).same_but_players(*final(self)),
            old(self).books_balanced() ==> final(self).books_balanced(),
            final(self).players.entries@.len() == old(self).players.entries@.len(),
            forall|i: int|
                0 <= i < old(self).players.entries@.len() ==> (
                #[trigger] final(self).players.entries@[i]).0 == old(self).players.entries@[i].0,
            final(self).players.entries@ =~= after_sale(
                old(self).players.entries@,
                owner as int,
                lot,
                bidding_upto(
                    old(self).players.entries@,
                    bankrupt,
                    lot,
                    bids@,
                    old(self).players.entries@.len() as int,
                ).0,
                bidding_upto(
                    old(self).players.entries@,
                    bankrupt,
                    lot,
                    bids@,
                    old(self).players.entries@.len() as int,
                ).1,
            ),
    {
        let n = self.players.entries.len();
        let ghost seats = self.players.entries@;
        let mut highest: i32 = 0;
        let mut bidder: Option<usize> = None;
        let mut i: usize = 0;
        while i < n
            invariant
                i <= n,
                n == seats.len(),
                self.players.entries@ == seats,
                highest == bidding_upto(seats, bankrupt, lot, bids@, i as int).0,
                highest >= 0,
                match bidder {
                    Some(w) => bidding_upto(seats, bankrupt, lot, bids@, i as int).1 == Some(
                        w as int,
                    ) && w < i && highest > 0 && highest <= seats[w as int].1.cash
                        && seats[w as int].0 != bankrupt,
                    None => bidding_upto(seats, bankrupt, lot, bids@, i as int).1.is_none(),
                },
            decreases n - i,
        {
            let cash: i32 = self.players.entries[i].1.cash;
            let cows: i32 = self.players.entries[i].1.assets.quantity_of(&AssetType::Cows);
            let room = lot.0 != AssetType::Cows || cows as i64 + lot.1.quantity as i64
                <= FARM_COW_LIMIT as i64;
            if self.players.entries[i].0 != bankrupt && room && cash > highest {
                if self.players.entries[i].1.player_type.is_ai() {
                    let bid: i64 = (cash as i64 * 4) / 5;
                    if bid > highest as i64 {
                        highest = bid as i32;
                        bidder = Some(i);
                    }
                } else {
                    let bid: i32 = find_bid(bids, lot.0, self.players.entries[i].0);
                    if bid > highest && bid <= cash {
                        highest = bid;
                        bidder = Some(i);
                    }
                }
            }
            i += 1;
        }
        match bidder {
            Some(w) => {
                if self.players.entries[w].1.can_add_asset(lot.0, lot.1.quantity, highest) {
                    self.players.entries[w].1.cash = self.players.entries[w].1.cash - highest;
                    self.players.entries[w].1.add_asset(lot.0, lot.1.quantity, highest);
                    self.players.entries[owner].1.assets.remove(&lot.0);
                    self.players.entries[owner].1.update_scoreboard();
                }
            },
            None => {},
        }
    }

    /// Auctions the holdings of the player under `player_id` among the
    /// other players, the costliest lot first. Computer players bid four
    /// fifths of their cash; persons bid what `bids` says; nobody bids for
    /// cows that the farm cannot take. The winner of a lot pays the bid and
    /// adds the lot to the ledger, and the lot leaves the ledger of the
    /// bankrupt player, whose cash and debt stay as they are. A lot without
    /// a bid stays where it is. Without the player, nothing happens.
    #[verifier::rlimit(50)]
    pub fn run_bankruptcy_auction(&mut self, player_id: usize, bids: &Vec<Bid>)
        ensures
            old(self).same_but_players(*final(self)),
            old(self).books_balanced() ==> final(self).books_balanced(),
            !old(self).players.has(player_id) ==> final(self).players.entries@ == old(self).players.entries@,
            old(self).players.has(player_id) ==> final(self).players.entries@ == auction_upto(
                old(self).players.entries@,
                player_id,
                lots_of(old(self).players.player(player_id).assets),
                bids@,
                lots_of(old(self).players.player(player_id).assets).len() as int,
            ),
    {
        let owner = match self.players.position(player_id) {
            Some(i) => i,
            None => {
                return ;
            },
        };
        let lots = sorted_lots(&self.players.entries[owner].1.assets);
        let ghost seats = self.players.entries@;
        let mut k: usize = 0;
        while k < lots.len()
            invariant
                k <= lots.len(),
                old(self).same_but_players(*self),
                old(self).books_balanced() ==> self.books_balanced(),
                seats == old(self).players.entries@,
                owner == seat_of(seats, player_id),
                self.players.entries@.len() == seats.len(),
                forall|i: int|
                    0 <= i < seats.len() ==> (#[trigger] self.players.entries@[i]).0 == seats[i].0,
                owner < seats.len(),
                seats[owner as int].0 == player_id,
                self.players.entries@ == auction_upto(seats, player_id, lots@, bids@, k as int),
            decreases lots.len() - k,
        {
            self.auction_lot(player_id, owner, lots[k], bids);
            k += 1;
        }
    }

    /// Offers the player under `player_id` the bank's loan on the holdings:
    /// half of what they cost. A computer player takes it; a person takes
    /// it where `accepts` says so. Returns whether it was taken. Without the
    /// player, nothing happens.
    pub fn attempt_bank_loan(&mut self, player_id: usize, accepts: bool) -> (taken: bool)
        ensures
            taken == (old(self).players.has(player_id) && takes_bank_loan(
                old(self).players.player(player_id),
                accepts,
            )),
            !taken ==> *final(self) == *old(self),
            old(self).books_balanced() ==> final(self).books_balanced(),
            taken ==> old(self).seat_replaced(
                *final(self),
                player_id,
                (Player {
                    cash: (old(self).players.player(player_id).cash + bank_offer(
                        old(self).players.player(player_id),
                    )) as i32,
                    debt: (old(self).players.player(player_id).debt + bank_offer(
                        old(self).players.player(player_id),
                    )) as i32,
                    ..old(self).players.player(player_id)
                }).refreshed(),
            ),
    {
        let i = match self.players.position(player_id) {
            Some(i) => i,
            None => {
                return false;
            },
        };
        let total: i64 = self.players.entries[i].1.assets.sum_cost();
        let offer: i64 = if total >= 0 {
            total / 2
        } else {
            -((-total) / 2)
        };
        let agreed = self.players.entries[i].1.player_type.is_ai() || accepts;
        let cash: i64 = self.players.entries[i].1.cash as i64 + offer;
        let debt: i64 = self.players.entries[i].1.debt as i64 + offer;
        if offer > 0 && agreed && cash <= i32::MAX as i64 && debt <= i32::MAX as i64 {
            self.players.entries[i].1.cash = cash as i32;
            self.players.entries[i].1.debt = debt as i32;
            self.players.entries[i].1.update_scoreboard();
            proof {
                let p = old(self).players.player(player_id);
                assert(self.players.entries@ =~= old(self).players.entries@.update(
                    i as int,
                    (
                        player_id,
                        (Player {
                            cash: (p.cash + bank_offer(p)) as i32,
                            debt: (p.debt + bank_offer(p)) as i32,
                            ..p
                        }).refreshed(),
                    ),
                ));
            }
            true
        } else {
            false
        }
    }

    /// Looks after a player whose cash is below nothing: the bank's loan
    /// where it is taken, else the auction. A player with cash, and a
    /// missing player, are left alone.
    pub fn check_bankruptcy_and_trigger_auction(&mut self, player_id: usize, accepts: bool, bids: &Vec<Bid>)
        ensures
            old(self).same_but_players(*final(self)),
            old(self).books_balanced() ==> final(self).books_balanced(),
            !old(self).players.has(player_id) || old(self).players.player(player_id).cash >= 0
                ==> *final(self) == *old(self),
            old(self).players.has(player_id) && old(self).players.player(player_id).cash < 0
                ==> final(self).players.entries@ == if takes_bank_loan(
                old(self).players.player(player_id),
                accepts,
            ) {
                old(self).players.entries@.update(
                    old(self).players.index_of(player_id),
                    (
                        player_id,
                        (Player {
                            cash: (old(self).players.player(player_id).cash + bank_offer(
                                old(self).players.player(player_id),
                            )) as i32,
                            debt: (old(self).players.player(player_id).debt + bank_offer(
                                old(self).players.player(player_id),
                            )) as i32,
                            ..old(self).players.player(player_id)
                        }).refreshed(),
                    ),
                )
            } else {
                auction_upto(
                    old(self).players.entries@,
                    player_id,
                    lots_of(old(self).players.player(player_id).assets),
                    bids@,
                    lots_of(old(self).players.player(player_id).assets).len() as int,
                )
            },
    {
        let bankrupt = match self.players.get(&player_id) {
            Some(p) => p.cash < 0,
            None => false,
        };
        if bankrupt {
            if !self.attempt_bank_loan(player_id, accepts) {
                self.run_bankruptcy_auction(player_id, bids);
            }
        }
    }
}

} // verus!
