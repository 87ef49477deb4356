//! What a caller may ask of a game, and the small moves between turns:
//! the state of the ridges, a payment on the debt, the end of a turn.

use crate::config::WINNING_NET_WORTH;
use crate::error::GameError;
use crate::game::options::{credit_terms, find_ridge, has_id, is_named, option_cost, LAST_OPTION_POSITION};
use crate::log::LogEntry;
use crate::models::board::BoardTile;
use crate::models::effects::GameEffect;
use crate::models::game_state::GameState;
use crate::models::player::Player;
use crate::models::ridge::Ridge;
use crate::models::roster::Players;
use crate::search::{first_index, found, lemma_first_index, lemma_not_found};
use crate::text::{int_text, push_int};
use vstd::prelude::*;
use vstd::string::StringExecFns;

verus! {

/// The state of a ridge in words: who leases it and with how many cows, or
/// how many cows it takes.
pub open spec fn ridge_state_text(ridge: Ridge, players: Players) -> Seq<char> {
    match ridge.leased_by {
        Some(id) => if players.has(id) {
            "Leased by "@ + players.player(id).name@ + " ("@ + int_text(ridge.cow_count as int)
                + " cows)"@
        } else {
            "Leased (leasee not found)"@
        },
        None => "Available ("@ + int_text(ridge.initial_cow_count as int) + " cows required)"@,
    }
}

/// The line that reports on a ridge: its name, its state and its cost.
pub open spec fn ridge_status_text(ridge: Ridge, players: Players) -> Seq<char> {
    ridge.name@ + ": "@ + ridge_state_text(ridge, players) + " - Cost: $"@ + int_text(
        ridge.cost as int,
    )
}

/// The line for a ridge that a player leases: its name and its herd.
pub open spec fn leased_ridge_text(ridge: Ridge) -> Seq<char> {
    ridge.name@ + ": "@ + int_text(ridge.cow_count as int) + " cows"@
}

/// The line for a ridge that is free: its name, its cost and the herd it
/// takes.
pub open spec fn free_ridge_text(ridge: Ridge) -> Seq<char> {
    ridge.name@ + ": $"@ + int_text(ridge.cost as int) + " - Requires "@ + int_text(
        ridge.initial_cow_count as int,
    ) + " cows"@
}

/// The status lines of all ridges: each ridge is reported by the first
/// ridge of its name.
pub open spec fn all_status_texts(ridges: Seq<Ridge>, players: Players, n: int) -> Seq<Seq<char>>
    decreases n,
{
    if n <= 0 {
        Seq::empty()
    } else {
        all_status_texts(ridges, players, n - 1).push(
            ridge_status_text(ridges[first_index(ridges, is_named(ridges[n - 1].name@))], players),
        )
    }
}

/// The lines for the ridges among the first `n` that the player under
/// `player_id` leases.
pub open spec fn leased_texts(ridges: Seq<Ridge>, player_id: usize, n: int) -> Seq<Seq<char>>
    decreases n,
{
    if n <= 0 {
        Seq::empty()
    } else if ridges[n - 1].leased_by == Some(player_id) {
        leased_texts(ridges, player_id, n - 1).push(leased_ridge_text(ridges[n - 1]))
    } else {
        leased_texts(ridges, player_id, n - 1)
    }
}

/// The lines for the ridges among the first `n` that are free.
pub open spec fn free_texts(ridges: Seq<Ridge>, n: int) -> Seq<Seq<char>>
    decreases n,
{
    if n <= 0 {
        Seq::empty()
    } else if ridges[n - 1].leased_by.is_none() {
        free_texts(ridges, n - 1).push(free_ridge_text(ridges[n - 1]))
    } else {
        free_texts(ridges, n - 1)
    }
}

/// The texts of the lines.
pub open spec fn texts_of(lines: Seq<String>) -> Seq<Seq<char>> {
    Seq::new(lines.len(), |i: int| lines[i]@)
}

/// Whether the pair is under this key.
pub open spec fn has_key(key: usize) -> spec_fn((usize, usize)) -> bool {
    |pair: (usize, usize)| pair.0 == key
}

/// A herd as a count without sign: the count itself, or for a count below
/// nothing, the count taken modulo 2^32.
pub open spec fn unsigned_count(cows: i32) -> u32 {
    if cows >= 0 {
        cows as u32
    } else {
        (cows + 0x1_0000_0000) as u32
    }
}

/// Whether a payment of `amount` on the debt can be made, and why not
/// where it cannot: it is more than nothing, cash covers it, and there is a
/// debt.
pub open spec fn payment_verdict(p: Player, amount: i32) -> Result<(), GameError> {
    if amount <= 0 {
        Err(GameError::PaymentNotPositive)
    } else if p.cash < amount {
        Err(GameError::NotEnoughCash { required: amount, available: p.cash })
    } else if p.debt <= 0 {
        Err(GameError::NoDebtToPay)
    } else {
        Ok(())
    }
}

/// Whether the player can pay something on the debt: there is cash and
/// there is debt.
pub open spec fn can_pay_debt(p: Player) -> bool {
    p.cash > 0 && p.debt > 0
}

/// Whether the player can afford the option at place `i` of the hand: from
/// cash, or on the credit terms of the first card of its id.
pub open spec fn affords(p: Player, i: int) -> bool {
    match option_cost(p.hand@[i].effect) {
        Some(cost) => p.cash >= cost || credit_terms(
            p,
            p.hand@[first_index(p.hand@, has_id(p.hand@[i].id))],
        ).is_ok(),
        None => false,
    }
}

/// Whether one of the options in the hand can be afforded.
pub open spec fn affords_an_option(p: Player) -> bool {
    exists|i: int| 0 <= i < p.hand@.len() && #[trigger] affords(p, i)
}

/// Whether the player has something to do after the move: a payment on the
/// debt, or an option that can be afforded, on a tile from which options
/// may be exercised.
pub open spec fn has_actions(p: Player) -> bool {
    can_pay_debt(p) || (p.position <= LAST_OPTION_POSITION && affords_an_option(p))
}

impl Ridge {
    /// The player who leases the ridge, where there is a lessee and the
    /// lessee is at the table.
    pub fn get_leasee_player<'a>(&self, players: &'a Players) -> (r: Option<&'a Player>)
        ensures
            match self.leased_by {
                Some(id) => r.is_some() == players.has(id) && (r.is_some() ==> *r.unwrap()
                    == players.player(id)),
                None => r.is_none(),
            },
    {
        match self.leased_by {
            Some(id) => players.get(&id),
            None => None,
        }
    }

    /// The line that reports on the ridge.
    pub fn status_line(&self, players: &Players) -> (s: String)
        ensures
            s@ == ridge_status_text(*self, *players),
    {
        let mut s = self.name.clone();
        s.append(": ");
        let ghost head = s@;
        match self.leased_by {
            Some(id) => match players.get(&id) {
                Some(p) => {
                    s.append("Leased by ");
                    s.append(p.name.as_str());
                    s.append(" (");
                    push_int(&mut s, self.cow_count as i64);
                    s.append(" cows)");
                },
                None => {
                    s.append("Leased (leasee not found)");
                },
            },
            None => {
                s.append("Available (");
                push_int(&mut s, self.initial_cow_count as i64);
                s.append(" cows required)");
            },
        }
        assert(s@ =~= head + ridge_state_text(*self, *players));
        s.append(" - Cost: $");
        push_int(&mut s, self.cost as i64);
        s
    }
}

impl GameState {
    /// The status of the first ridge called `ridge_name`: its name, who
    /// leases it or what it takes, and its cost. Nothing for a name that no
    /// ridge has.
    pub fn get_ridge_status(&self, ridge_name: &str) -> (r: Option<String>)
        ensures
            r.is_some() == found(self.ridges@, is_named(ridge_name@)),
            r.is_some() ==> r.unwrap()@ == ridge_status_text(
                self.ridges@[first_index(self.ridges@, is_named(ridge_name@))],
                self.players,
            ),
    {
        let name = String::from_str(ridge_name);
        match find_ridge(&self.ridges, &name) {
            Some(k) => Some(self.ridges[k].status_line(&self.players)),
            None => None,
        }
    }

    /// The status lines of all ridges, in their order.
    pub fn get_all_ridge_status(&self) -> (lines: Vec<String>)
        ensures
            texts_of(lines@) == all_status_texts(
                self.ridges@,
                self.players,
                self.ridges@.len() as int,
            ),
    {
        let mut lines: Vec<String> = Vec::new();
        let mut i: usize = 0;
        while i < self.ridges.len()
            invariant
                i <= self.ridges.len(),
                lines@.len() == i,
                texts_of(lines@) == all_status_texts(self.ridges@, self.players, i as int),
            decreases self.ridges.len() - i,
        {
            let ghost before = lines@;
            match find_ridge(&self.ridges, &self.ridges[i].name) {
                Some(k) => {
                    lines.push(self.ridges[k].status_line(&self.players));
                },
                None => {
                    proof {
                        assert(is_named(self.ridges@[i as int].name@)(self.ridges@[i as int]));
                    }
                    lines.push(String::new());
                },
            }
            assert(texts_of(lines@) =~= texts_of(before).push(lines@[i as int]@));
            i += 1;
        }
        lines
    }

    /// The ridges that the player under `player_id` leases, each with its
    /// herd, in their order.
    pub fn get_player_ridges(&self, player_id: usize) -> (lines: Vec<String>)
        ensures
            texts_of(lines@) == leased_texts(self.ridges@, player_id, self.ridges@.len() as int),
    {
        let mut lines: Vec<String> = Vec::new();
        let mut i: usize = 0;
        while i < self.ridges.len()
            invariant
                i <= self.ridges.len(),
                texts_of(lines@) == leased_texts(self.ridges@, player_id, i as int),
            decreases self.ridges.len() - i,
        {
            let leased = match self.ridges[i].leased_by {
                Some(id) => id == player_id,
                None => false,
            };
            if leased {
                let ghost before = lines@;
                let mut s = self.ridges[i].name.clone();
                s.append(": ");
                push_int(&mut s, self.ridges[i].cow_count as i64);
                s.append(" cows");
                lines.push(s);
                assert(texts_of(lines@) =~= texts_of(before).push(
                    leased_ridge_text(self.ridges@[i as int]),
                ));
            }
            i += 1;
        }
        lines
    }

    /// The ridges that are free, each with its cost and the herd it takes,
    /// in their order.
    pub fn get_available_ridges(&self) -> (lines: Vec<String>)
        ensures
            texts_of(lines@) == free_texts(self.ridges@, self.ridges@.len() as int),
    {
        let mut lines: Vec<String> = Vec::new();
        let mut i: usize = 0;
        while i < self.ridges.len()
            invariant
                i <= self.ridges.len(),
                texts_of(lines@) == free_texts(self.ridges@, i as int),
            decreases self.ridges.len() - i,
        {
            if !self.ridges[i].is_leased() {
                let ghost before = lines@;
                let mut s = self.ridges[i].name.clone();
                s.append(": $");
                push_int(&mut s, self.ridges[i].cost as i64);
                s.append(" - Requires ");
                push_int(&mut s, self.ridges[i].initial_cow_count as i64);
                s.append(" cows");
                lines.push(s);
                assert(texts_of(lines@) =~= texts_of(before).push(
                    free_ridge_text(self.ridges@[i as int]),
                ));
            }
            i += 1;
        }
        lines
    }

    /// The herd on the first ridge called `ridge_name`, as a count without
    /// sign. Nothing for a name that no ridge has.
    pub fn get_ridge_cow_count(&self, ridge_name: &str) -> (r: Option<u32>)
        ensures
            r == if found(self.ridges@, is_named(ridge_name@)) {
                Some(
                    unsigned_count(
                        self.ridges@[first_index(self.ridges@, is_named(ridge_name@))].cow_count,
                    ),
                )
            } else {
                None::<u32>
            },
    {
        let name = String::from_str(ridge_name);
        match find_ridge(&self.ridges, &name) {
            Some(k) => {
                let cows: i32 = self.ridges[k].cow_count;
                if cows >= 0 {
                    Some(cows as u32)
                } else {
                    Some((cows as i64 + 0x1_0000_0000) as u32)
                }
            },
            None => None,
        }
    }

    /// The lessee on record for the ridge at place `ridge_index`: the first
    /// entry of the record under that place.
    pub fn _get_ridge_leasee(&self, ridge_index: usize) -> (r: Option<usize>)
        ensures
            r == if found(self._ridge_leases@, has_key(ridge_index)) {
                Some(self._ridge_leases@[first_index(self._ridge_leases@, has_key(ridge_index))].1)
            } else {
                None::<usize>
            },
    {
        let mut i: usize = 0;
        while i < self._ridge_leases.len()
            invariant
                i <= self._ridge_leases.len(),
                forall|j: int| 0 <= j < i ==> !has_key(ridge_index)(#[trigger] self._ridge_leases@[j]),
            decreases self._ridge_leases.len() - i,
        {
            if self._ridge_leases[i].0 == ridge_index {
                proof {
                    assert(has_key(ridge_index)(self._ridge_leases@[i as int]));
                    lemma_first_index(self._ridge_leases@, has_key(ridge_index), i as int);
                }
                return Some(self._ridge_leases[i].1);
            }
            i += 1;
        }
        proof {
            lemma_not_found(self._ridge_leases@, has_key(ridge_index));
        }
        None
    }

    /// Puts the player under `player_id` on the position `new_position`.
    /// Fails for a missing player.
    pub fn _move_player(&mut self, player_id: usize, new_position: usize) -> (r: Result<
        (),
        GameError,
    >)
        ensures
            !old(self).players.has(player_id) ==> r == Err::<(), GameError>(
                GameError::PlayerNotFound { player_id },
            ) && *final(self) == *old(self),
            old(self).players.has(player_id) ==> r == Ok::<(), GameError>(()) && old(self).seat_replaced(
                *final(self),
                player_id,
                Player { position: new_position, ..old(self).players.player(player_id) },
            ),
    {
        let i = match self.players.position(player_id) {
            Some(i) => i,
            None => {
                return Err(GameError::PlayerNotFound { player_id });
            },
        };
        self.players.entries[i].1.position = new_position;
        proof {
            assert(self.players.entries@ =~= old(self).players.entries@.update(
                i as int,
                (
                    player_id,
                    Player { position: new_position, ..old(self).players.player(player_id) },
                ),
            ));
        }
        Ok(())
    }

    /// Puts the player under `player_id` on the position `new_position` and
    /// logs the move. Returns the words of the entry. Fails for a missing
    /// player.
    pub fn _move_player_with_message(
        &mut self,
        player_id: usize,
        new_position: usize,
        logs: &mut Vec<LogEntry>,
    ) -> (r: Result<String, GameError>)
        ensures
            !old(self).players.has(player_id) ==> r == Err::<String, GameError>(
                GameError::PlayerNotFound { player_id },
            ) && *final(self) == *old(self) && final(logs)@ == old(logs)@,
            old(self).players.has(player_id) ==> r.is_ok() && old(self).seat_replaced(
                *final(self),
                player_id,
                Player { position: new_position, ..old(self).players.player(player_id) },
            ) && final(logs)@ == old(logs)@.push(
                LogEntry::MovedFromTo {
                    name: old(self).players.player(player_id).name,
                    from: old(self).players.player(player_id).position,
                    to: new_position,
                },
            ) && r.unwrap()@ == (LogEntry::MovedFromTo {
                name: old(self).players.player(player_id).name,
                from: old(self).players.player(player_id).position,
                to: new_position,
            }).text(),
    {
        let i = match self.players.position(player_id) {
            Some(i) => i,
            None => {
                return Err(GameError::PlayerNotFound { player_id });
            },
        };
        let entry = LogEntry::MovedFromTo {
            name: self.players.entries[i].1.name.clone(),
            from: self.players.entries[i].1.position,
            to: new_position,
        };
        let message = entry.message();
        self.players.entries[i].1.position = new_position;
        logs.push(entry);
        proof {
            assert(self.players.entries@ =~= old(self).players.entries@.update(
                i as int,
                (
                    player_id,
                    Player { position: new_position, ..old(self).players.player(player_id) },
                ),
            ));
        }
        Ok(message)
    }

    /// Does what a harvest tile does by itself, which is nothing: harvests
    /// are taken when the tile is resolved.
    pub fn apply_harvest_effect(&mut self, _player_id: usize, tile: &BoardTile) -> (r: Result<
        (),
        GameError,
    >)
        ensures
            r == Ok::<(), GameError>(()),
            *final(self) == *old(self),
    {
        Ok(())
    }

    /// Pays `amount` of the debt of the player under `player_id` from cash
    /// and computes the scoreboard anew. Fails, and changes nothing, for a
    /// missing player, an amount that is not more than nothing, cash that
    /// does not cover it, and a player without debt.
    pub fn pay_down_debt(&mut self, player_id: usize, amount: i32) -> (r: Result<(), GameError>)
        ensures
            !old(self).players.has(player_id) ==> r == Err::<(), GameError>(
                GameError::PlayerNotFound { player_id },
            ),
            old(self).players.has(player_id) ==> r == payment_verdict(
                old(self).players.player(player_id),
                amount,
            ),
            r.is_err() ==> *final(self) == *old(self),
            old(self).books_balanced() ==> final(self).books_balanced(),
            r.is_ok() ==> old(self).seat_replaced(
                *final(self),
                player_id,
                (Player {
                    cash: (old(self).players.player(player_id).cash - amount) as i32,
                    debt: (old(self).players.player(player_id).debt - amount) as i32,
                    ..old(self).players.player(player_id)
                }).refreshed(),
            ) && final(self).players.has(player_id) && final(self).players.player(
                player_id,
            ).net_worth_identity(),
    {
        let i = match self.players.position(player_id) {
            Some(i) => i,
            None => {
                return Err(GameError::PlayerNotFound { player_id });
            },
        };
        if amount <= 0 {
            return Err(GameError::PaymentNotPositive);
        }
        if self.players.entries[i].1.cash < amount {
            return Err(
                GameError::NotEnoughCash {
                    required: amount,
                    available: self.players.entries[i].1.cash,
                },
            );
        }
        if self.players.entries[i].1.debt <= 0 {
            return Err(GameError::NoDebtToPay);
        }
        self.players.entries[i].1.cash = self.players.entries[i].1.cash - amount;
        self.players.entries[i].1.debt = self.players.entries[i].1.debt - amount;
        self.players.entries[i].1.update_scoreboard();
        proof {
            let p = old(self).players.player(player_id);
            assert(self.players.entries@ =~= old(self).players.entries@.update(
                i as int,
                (
                    player_id,
                    (Player {
                        cash: (p.cash - amount) as i32,
                        debt: (p.debt - amount) as i32,
                        ..p
                    }).refreshed(),
                ),
            ));
            crate::models::roster::lemma_seat_of(self.players.entries@, player_id, i as int);
        }
        Ok(())
    }

    /// Whether the player under `player_id` has something to do after the
    /// move: a payment on the debt, or an option that can be afforded. No
    /// player, nothing to do.
    pub fn can_player_perform_actions(&self, player_id: usize) -> (b: bool)
        ensures
            b == (self.players.has(player_id) && has_actions(self.players.player(player_id))),
    {
        let p = match self.players.get(&player_id) {
            Some(p) => p,
            None => {
                return false;
            },
        };
        if p.cash > 0 && p.debt > 0 {
            return true;
        }
        if p.position > LAST_OPTION_POSITION {
            return false;
        }
        let mut i: usize = 0;
        while i < p.hand.len()
            invariant
                i <= p.hand.len(),
                self.players.has(player_id),
                *p == self.players.player(player_id),
                p.position <= LAST_OPTION_POSITION,
                !can_pay_debt(*p),
                forall|j: int| 0 <= j < i ==> !(#[trigger] affords(*p, j)),
            decreases p.hand.len() - i,
        {
            let cost: Option<i32> = match &p.hand[i].effect {
                GameEffect::OptionalBuyAsset { cost, .. } => Some(*cost),
                GameEffect::LeaseRidge { cost, .. } => Some(*cost),
                _ => None,
            };
            match cost {
                Some(c) => {
                    if p.cash >= c || self._check_option_to_buy_loan(player_id, p.hand[i].id).is_ok() {
                        proof {
                            assert(has_id(p.hand@[i as int].id)(p.hand@[i as int]));
                            assert(affords(*p, i as int));
                        }
                        return true;
                    }
                    proof {
                        assert(has_id(p.hand@[i as int].id)(p.hand@[i as int]));
                    }
                },
                None => {},
            }
            i += 1;
        }
        false
    }

    /// Whether the player under `player_id` has won: the net worth on the
    /// scoreboard has reached $250,000. No player, no win.
    pub fn has_won(&self, player_id: usize) -> (b: bool)
        ensures
            b == (self.players.has(player_id) && self.players.player(player_id).net_worth
                >= WINNING_NET_WORTH),
    {
        match self.players.get(&player_id) {
            Some(p) => p.net_worth >= WINNING_NET_WORTH as i64,
            None => false,
        }
    }

    /// The id of the player whose turn it is; none where the order of
    /// turns has no such place.
    pub fn current_player(&self) -> (r: Option<usize>)
        ensures
            r == if self.current_turn_index < self.turn_order@.len() {
                Some(self.turn_order@[self.current_turn_index as int])
            } else {
                None::<usize>
            },
    {
        if self.current_turn_index < self.turn_order.len() {
            Some(self.turn_order[self.current_turn_index])
        } else {
            None
        }
    }

    /// Ends the turn: the next in the order of turns is up, and after the
    /// last the first. Without an order of turns, nothing happens.
    pub fn end_turn(&mut self)
        ensures
            *final(self) == (GameState {
                current_turn_index: if old(self).turn_order@.len() == 0 {
                    old(self).current_turn_index
                } else {
                    (((old(self).current_turn_index as int + 1) % (old(self).turn_order@.len() as int)) as usize)
                },
                ..*old(self)
            }),
            final(self).turn_order@.len() > 0 ==> final(self).current_turn_index < final(self).turn_order@.len(),
    {
        let n = self.turn_order.len();
        if n > 0 {
            let next: u128 = (self.current_turn_index as u128 + 1) % (n as u128);
            self.current_turn_index = next as usize;
        }
    }
}

} // verus!
