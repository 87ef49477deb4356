//! The two cards that reach every player at the table: a collection from
//! all who hold an asset, and the ash that falls on all but the one who
//! drew the card.

use crate::config::MAX_DEBT;
use crate::error::GameError;
use crate::game::card_effects::{borrowing_capacity, capacity_left};
use crate::game::harvest::roll_die;
use crate::game::loan::{interest_due, interest_on, loan_outcome};
use crate::log::LogEntry;
use crate::models::asset::AssetType;
use crate::models::player::{fits_i32, Player};
use crate::models::roster::{same_turns, Players};
use rand::rngs::StdRng;
use vstd::prelude::*;

verus! {

/// The seats of a table.
pub type Seats = Seq<(usize, Player)>;

/// The seats with every scoreboard computed anew.
pub open spec fn refreshed_seats(seats: Seats) -> Seats {
    Seq::new(seats.len(), |j: int| (seats[j].0, seats[j].1.refreshed()))
}

/// What a collection of `amount` from all who hold `asset` takes from one
/// player: the player afterwards, what the collector receives, the entries
/// logged, and whether every amount is in range.
///
/// Who does not hold the asset pays nothing. Who holds it pays from cash;
/// or, where cash falls short, gives up all cash and owes the shortfall and
/// a tenth of it on top, if the debt ceiling leaves room for both; or else
/// gives up what cash there is.
pub open spec fn collection_from(o: Player, asset: AssetType, amount: i32) -> (
    Player,
    int,
    Seq<LogEntry>,
    bool,
) {
    if !o.assets.has(asset) {
        (o, 0, seq![LogEntry::CollectExempt { name: o.name, asset }], true)
    } else if o.cash >= amount {
        if fits_i32(o.cash - amount) {
            (
                Player { cash: (o.cash - amount) as i32, ..o },
                amount as int,
                seq![
                    LogEntry::CollectOwes { name: o.name, asset, amount },
                    LogEntry::CollectFromCash { amount },
                ],
                true,
            )
        } else {
            (o, 0, Seq::empty(), false)
        }
    } else if !fits_i32(amount - o.cash) {
        (o, 0, Seq::empty(), false)
    } else if amount - o.cash + interest_on(amount - o.cash) <= borrowing_capacity(o.debt as int) {
        let shortfall = amount - o.cash;
        let interest = interest_on(shortfall);
        (
            Player { cash: 0, debt: (o.debt + shortfall + interest) as i32, ..o },
            amount as int,
            seq![
                LogEntry::CollectOwes { name: o.name, asset, amount },
                LogEntry::CollectWithLoan {
                    cash: o.cash,
                    principal: shortfall as i32,
                    interest: interest as i32,
                },
            ],
            true,
        )
    } else if o.cash > 0 {
        (
            Player { cash: 0, ..o },
            o.cash as int,
            seq![
                LogEntry::CollectOwes { name: o.name, asset, amount },
                LogEntry::CollectCannotPay {
                    cash: o.cash,
                    capacity: borrowing_capacity(o.debt as int) as i32,
                },
                LogEntry::CollectPaysCash { cash: o.cash },
            ],
            true,
        )
    } else {
        (
            o,
            0,
            seq![
                LogEntry::CollectOwes { name: o.name, asset, amount },
                LogEntry::CollectCannotPay {
                    cash: o.cash,
                    capacity: borrowing_capacity(o.debt as int) as i32,
                },
            ],
            true,
        )
    }
}

/// No collection lifts a debt over the ceiling that was not over it.
pub proof fn lemma_collection_keeps_ceiling(o: Player, asset: AssetType, amount: i32)
    requires
        o.debt <= MAX_DEBT,
    ensures
        collection_from(o, asset, amount).0.debt <= MAX_DEBT,
{
}

/// What the collector receives from the first `n` seats.
pub open spec fn collected_total(seats: Seats, holder: int, asset: AssetType, amount: i32, n: int) -> int
    decreases n,
{
    if n <= 0 {
        0
    } else {
        collected_total(seats, holder, asset, amount, n - 1) + if n - 1 == holder {
            0
        } else {
            collection_from(seats[n - 1].1, asset, amount).1
        }
    }
}

/// Whether every amount of the collection from the first `n` seats is in
/// range.
pub open spec fn collection_in_range(
    seats: Seats,
    holder: int,
    asset: AssetType,
    amount: i32,
    n: int,
) -> bool
    decreases n,
{
    if n <= 0 {
        true
    } else {
        collection_in_range(seats, holder, asset, amount, n - 1) && (n - 1 == holder
            || collection_from(seats[n - 1].1, asset, amount).3)
    }
}

/// The entries that the collection from the first `n` seats logs.
pub open spec fn collection_logs(seats: Seats, holder: int, asset: AssetType, amount: i32, n: int) -> Seq<
    LogEntry,
>
    decreases n,
{
    if n <= 0 {
        Seq::empty()
    } else {
        collection_logs(seats, holder, asset, amount, n - 1) + if n - 1 == holder {
            Seq::empty()
        } else {
            collection_from(seats[n - 1].1, asset, amount).2
        }
    }
}

/// The seats once the first `n` of them have paid the collection.
pub open spec fn seats_after_paying(seats: Seats, holder: int, asset: AssetType, amount: i32, n: int) -> Seats {
    Seq::new(
        seats.len(),
        |j: int|
            if j < n && j != holder {
                (seats[j].0, collection_from(seats[j].1, asset, amount).0)
            } else {
                seats[j]
            },
    )
}

/// What a collection by the player in the seat `holder` comes to: the seats
/// afterwards, the entries logged, and the result. An amount out of range
/// stops the collection before it has begun.
pub open spec fn collection_outcome(seats: Seats, holder: int, asset: AssetType, amount: i32) -> (
    Seats,
    Seq<LogEntry>,
    Result<(), GameError>,
)
    recommends
        0 <= holder < seats.len(),
{
    let n = seats.len() as int;
    let total = collected_total(seats, holder, asset, amount, n);
    let collector = seats[holder].1;
    if !collection_in_range(seats, holder, asset, amount, n) || !fits_i32(total) || !fits_i32(
        collector.cash + total,
    ) {
        (seats, Seq::empty(), Err(GameError::AmountOutOfRange))
    } else {
        (
            seats_after_paying(seats, holder, asset, amount, n).update(
                holder,
                (
                    seats[holder].0,
                    Player { cash: (collector.cash + total) as i32, ..collector },
                ),
            ),
            seq![LogEntry::CollectAnnounce { name: collector.name, amount, asset }]
                + collection_logs(seats, holder, asset, amount, n) + seq![
                LogEntry::CollectedTotal {
                    name: collector.name,
                    total: total as i32,
                    cash: (collector.cash + total) as i32,
                },
            ],
            Ok(()),
        )
    }
}

/// The acres under a crop that the ash falls on.
pub open spec fn ash_acres(o: Player) -> int {
    o.assets.crop_acres()
}

/// What the ash does to one of the others on a roll: the player afterwards,
/// the entries logged, and the result. An odd roll escapes. An even roll
/// costs $100 for each acre under a crop, as a forced payment.
pub open spec fn ash_on(o: Player, roll: u8) -> (Player, Seq<LogEntry>, Result<(), GameError>) {
    if roll % 2 == 1 {
        (o, seq![LogEntry::AshEscaped { name: o.name, roll }], Ok(()))
    } else if ash_acres(o) > 0 {
        if !fits_i32(ash_acres(o) * 100) {
            (o, seq![LogEntry::AshHit { name: o.name, roll }], Err(GameError::AmountOutOfRange))
        } else {
            (
                loan_outcome(o, (ash_acres(o) * 100) as i32).0,
                seq![
                    LogEntry::AshHit { name: o.name, roll },
                    LogEntry::AshCleanup { name: o.name, cost: (ash_acres(o) * 100) as i32 },
                ] + loan_outcome(o, (ash_acres(o) * 100) as i32).1,
                loan_outcome(o, (ash_acres(o) * 100) as i32).2,
            )
        }
    } else {
        (
            o,
            seq![
                LogEntry::AshHit { name: o.name, roll },
                LogEntry::AshNoAcres { name: o.name },
            ],
            Ok(()),
        )
    }
}

/// What the one who drew the card gains: $500 for each acre of hay, where
/// the ledger has a record of hay.
pub open spec fn ash_bonus(h: Player) -> (Player, Seq<LogEntry>, Result<(), GameError>) {
    match h.assets.spec_get(AssetType::Hay) {
        Some(r) => if !fits_i32(r.quantity * 500) || !fits_i32(h.cash + r.quantity * 500) {
            (h, Seq::empty(), Err(GameError::AmountOutOfRange))
        } else {
            (
                Player { cash: (h.cash + r.quantity * 500) as i32, ..h },
                seq![
                    LogEntry::AshBonus {
                        name: h.name,
                        bonus: (r.quantity * 500) as i32,
                        acres: r.quantity,
                    },
                ],
                Ok(()),
            )
        },
        None => (h, Seq::empty(), Ok(())),
    }
}

/// What the eruption comes to once the first `n` seats have had their
/// turn: the seats, the entries logged, and the result. The one in the seat
/// `holder` takes the bonus first; then the others roll, seat by seat, and
/// the first failure ends it.
pub open spec fn eruption_upto(seats: Seats, holder: int, rolls: Seq<u8>, n: int) -> (
    Seats,
    Seq<LogEntry>,
    Result<(), GameError>,
)
    recommends
        0 <= holder < seats.len(),
        0 <= n <= seats.len() <= rolls.len(),
    decreases n,
{
    if n <= 0 {
        (
            seats.update(holder, (seats[holder].0, ash_bonus(seats[holder].1).0)),
            ash_bonus(seats[holder].1).1,
            ash_bonus(seats[holder].1).2,
        )
    } else {
        let before = eruption_upto(seats, holder, rolls, n - 1);
        if before.2.is_err() || n - 1 == holder {
            before
        } else {
            let step = ash_on(seats[n - 1].1, rolls[n - 1]);
            (before.0.update(n - 1, (seats[n - 1].0, step.0)), before.1 + step.1, step.2)
        }
    }
}

/// What the eruption comes to for the whole table: what it has come to
/// once every seat has had its turn, or, where it has failed, the failure
/// with the entries logged up to it and every seat as it was.
pub open spec fn eruption_outcome(seats: Seats, holder: int, rolls: Seq<u8>) -> (
    Seats,
    Seq<LogEntry>,
    Result<(), GameError>,
) {
    let e = eruption_upto(seats, holder, rolls, seats.len() as int);
    if e.2.is_err() {
        (seats, e.1, e.2)
    } else {
        e
    }
}

/// The eruption changes cash and debt and nothing else of anyone.
pub proof fn lemma_eruption_touches_money(seats: Seats, holder: int, rolls: Seq<u8>, n: int, j: int)
    requires
        0 <= holder < seats.len(),
        0 <= n <= seats.len(),
        0 <= j < seats.len(),
    ensures
        eruption_upto(seats, holder, rolls, n).0.len() == seats.len(),
        eruption_upto(seats, holder, rolls, n).0[j].0 == seats[j].0,
        eruption_upto(seats, holder, rolls, n).0[j].1 == (Player {
            cash: eruption_upto(seats, holder, rolls, n).0[j].1.cash,
            debt: eruption_upto(seats, holder, rolls, n).0[j].1.debt,
            ..seats[j].1
        }),
    decreases n,
{
    if n > 0 {
        lemma_eruption_touches_money(seats, holder, rolls, n - 1, j);
    }
}

/// Whether every roll is one of a die.
pub open spec fn are_die_rolls(rolls: Seq<u8>) -> bool {
    forall|i: int| 0 <= i < rolls.len() ==> 1 <= #[trigger] rolls[i] <= 6
}

/// Rolls a die for every seat of `n` but the seat `holder`, in the order of
/// the seats. In the place of `holder` stands a one, which no die was rolled
/// for.
pub fn roll_for_others(n: usize, holder: usize, rng: &mut StdRng) -> (rolls: Vec<u8>)
    ensures
        rolls@.len() == n,
        are_die_rolls(rolls@),
        holder < n ==> rolls@[holder as int] == 1,
        n == 0 || (n == 1 && holder == 0) ==> *final(rng) == *old(rng),
{
    let mut rolls: Vec<u8> = Vec::new();
    let mut i: usize = 0;
    while i < n
        invariant
            i <= n,
            rolls@.len() == i,
            are_die_rolls(rolls@),
            holder < i ==> rolls@[holder as int] == 1,
            i == 0 || (i == 1 && holder == 0) ==> *rng == *old(rng),
        decreases n - i,
    {
        if i == holder {
            rolls.push(1);
        } else {
            rolls.push(roll_die(rng));
        }
        i += 1;
    }
    rolls
}

impl Player {
    /// What the collection would take from this player, where every amount
    /// is in range.
    fn collection_due(&self, asset: AssetType, amount: i32) -> (r: Option<i32>)
        ensures
            match r {
                Some(v) => collection_from(*self, asset, amount).3 && v == collection_from(
                    *self,
                    asset,
                    amount,
                ).1,
                None => !collection_from(*self, asset, amount).3,
            },
    {
        if !self.assets.contains_key(&asset) {
            return Some(0);
        }
        if self.cash >= amount {
            let left: i64 = self.cash as i64 - amount as i64;
            if left > i32::MAX as i64 {
                return None;
            }
            return Some(amount);
        }
        let shortfall: i64 = amount as i64 - self.cash as i64;
        if shortfall > i32::MAX as i64 {
            return None;
        }
        let capacity: i32 = capacity_left(self.debt);
        let interest: i32 = interest_due(shortfall as i32);
        if shortfall + interest as i64 <= capacity as i64 {
            Some(amount)
        } else if self.cash > 0 {
            Some(self.cash)
        } else {
            Some(0)
        }
    }

    /// Pays the collection.
    fn pay_collection(&mut self, asset: AssetType, amount: i32, logs: &mut Vec<LogEntry>)
        requires
            collection_from(*old(self), asset, amount).3,
        ensures
            *final(self) == collection_from(*old(self), asset, amount).0,
            final(logs)@ =~= old(logs)@ + collection_from(*old(self), asset, amount).2,
    {
        if !self.assets.contains_key(&asset) {
            logs.push(LogEntry::CollectExempt { name: self.name.clone(), asset });
            return ;
        }
        logs.push(LogEntry::CollectOwes { name: self.name.clone(), asset, amount });
        if self.cash >= amount {
            self.cash = self.cash - amount;
            logs.push(LogEntry::CollectFromCash { amount });
            return ;
        }
        let shortfall: i32 = amount - self.cash;
        let capacity: i32 = capacity_left(self.debt);
        let interest: i32 = interest_due(shortfall);
        if shortfall as i64 + interest as i64 <= capacity as i64 {
            logs.push(
                LogEntry::CollectWithLoan { cash: self.cash, principal: shortfall, interest },
            );
            self.debt = self.debt + shortfall + interest;
            self.cash = 0;
        } else {
            logs.push(LogEntry::CollectCannotPay { cash: self.cash, capacity });
            if self.cash > 0 {
                logs.push(LogEntry::CollectPaysCash { cash: self.cash });
                self.cash = 0;
            }
        }
    }

    /// Takes what the ash does on a roll.
    fn take_ash(&mut self, roll: u8, logs: &mut Vec<LogEntry>) -> (r: Result<(), GameError>)
        ensures
            *final(self) == ash_on(*old(self), roll).0,
            final(logs)@ =~= old(logs)@ + ash_on(*old(self), roll).1,
            r == ash_on(*old(self), roll).2,
    {
        if roll % 2 == 1 {
            logs.push(LogEntry::AshEscaped { name: self.name.clone(), roll });
            return Ok(());
        }
        logs.push(LogEntry::AshHit { name: self.name.clone(), roll });
        let acres: i64 = self.assets.quantity_of(&AssetType::Hay) as i64 + self.assets.quantity_of(
            &AssetType::Grain,
        ) as i64 + self.assets.quantity_of(&AssetType::Fruit) as i64;
        if acres > 0 {
            let cost: i64 = acres * 100;
            if cost > i32::MAX as i64 {
                return Err(GameError::AmountOutOfRange);
            }
            logs.push(LogEntry::AshCleanup { name: self.name.clone(), cost: cost as i32 });
            self.pay_or_borrow(cost as i32, logs)
        } else {
            logs.push(LogEntry::AshNoAcres { name: self.name.clone() });
            Ok(())
        }
    }

    /// Takes the bonus on hay that the ash spared.
    fn take_ash_bonus(&mut self, logs: &mut Vec<LogEntry>) -> (r: Result<(), GameError>)
        ensures
            *final(self) == ash_bonus(*old(self)).0,
            final(logs)@ =~= old(logs)@ + ash_bonus(*old(self)).1,
            r == ash_bonus(*old(self)).2,
    {
        let acres: Option<i32> = match self.assets.get(&AssetType::Hay) {
            Some(r) => Some(r.quantity),
            None => None,
        };
        match acres {
            Some(q) => {
                let bonus: i64 = q as i64 * 500;
                let cash: i64 = self.cash as i64 + bonus;
                if bonus > i32::MAX as i64 || bonus < i32::MIN as i64 || cash > i32::MAX as i64
                    || cash < i32::MIN as i64 {
                    return Err(GameError::AmountOutOfRange);
                }
                self.cash = cash as i32;
                logs.push(
                    LogEntry::AshBonus { name: self.name.clone(), bonus: bonus as i32, acres: q },
                );
                Ok(())
            },
            None => Ok(()),
        }
    }
}

impl Players {
    /// Computes every scoreboard anew.
    pub fn refresh_all(&mut self)
        ensures
            final(self).entries@ =~= refreshed_seats(old(self).entries@),
            forall|j: int|
                0 <= j < final(self).entries@.len() ==> (#[trigger] final(self).entries@[j]).1.scoreboard_is_current(),
    {
        let mut i: usize = 0;
        while i < self.entries.len()
            invariant
                i <= self.entries@.len(),
                self.entries@.len() == old(self).entries@.len(),
                forall|j: int|
                    0 <= j < i ==> #[trigger] self.entries@[j] == (
                        old(self).entries@[j].0,
                        old(self).entries@[j].1.refreshed(),
                    ),
                forall|j: int|
                    i <= j < self.entries@.len() ==> #[trigger] self.entries@[j] == old(self).entries@[j],
                forall|j: int|
                    0 <= j < i ==> (#[trigger] self.entries@[j]).1.scoreboard_is_current(),
            decreases self.entries@.len() - i,
        {
            self.entries[i].1.update_scoreboard();
            i += 1;
        }
    }

    /// Lets the player in the seat `holder` collect `amount` from every
    /// other player who holds `asset`.
    #[verifier::rlimit(50)]
    pub fn collect_from_others(
        &mut self,
        holder: usize,
        asset: AssetType,
        amount: i32,
        logs: &mut Vec<LogEntry>,
    ) -> (r: Result<(), GameError>)
        requires
            holder < old(self).entries@.len(),
        ensures
            final(self).entries@ =~= collection_outcome(
                old(self).entries@,
                holder as int,
                asset,
                amount,
            ).0,
            final(logs)@ =~= old(logs)@ + collection_outcome(
                old(self).entries@,
                holder as int,
                asset,
                amount,
            ).1,
            r == collection_outcome(old(self).entries@, holder as int, asset, amount).2,
    {
        let n = self.entries.len();
        let ghost seats = self.entries@;
        let ghost h = holder as int;
        let mut total: i128 = 0;
        let mut in_range = true;
        let mut i: usize = 0;
        while i < n
            invariant
                i <= n,
                n == seats.len(),
                self.entries@ == seats,
                h == holder as int,
                in_range == collection_in_range(seats, h, asset, amount, i as int),
                total == collected_total(seats, h, asset, amount, i as int),
                -0x8000_0000 * (i as int) <= total <= 0x8000_0000 * (i as int),
            decreases n - i,
        {
            if i != holder {
                match self.entries[i].1.collection_due(asset, amount) {
                    Some(v) => {
                        total = total + v as i128;
                    },
                    None => {
                        in_range = false;
                    },
                }
            }
            i += 1;
        }
        let cash: i128 = self.entries[holder].1.cash as i128 + total;
        if !in_range || total > i32::MAX as i128 || total < i32::MIN as i128 || cash
            > i32::MAX as i128 || cash < i32::MIN as i128 {
            return Err(GameError::AmountOutOfRange);
        }
        logs.push(
            LogEntry::CollectAnnounce { name: self.entries[holder].1.name.clone(), amount, asset },
        );
        let ghost announced = logs@;
        let mut i: usize = 0;
        while i < n
            invariant
                i <= n,
                n == seats.len(),
                holder < n,
                h == holder as int,
                self.entries@ =~= seats_after_paying(seats, h, asset, amount, i as int),
                logs@ =~= announced + collection_logs(seats, h, asset, amount, i as int),
                collection_in_range(seats, h, asset, amount, n as int),
            decreases n - i,
        {
            if i != holder {
                proof {
                    lemma_in_range_at(seats, h, asset, amount, n as int, i as int);
                }
                self.entries[i].1.pay_collection(asset, amount, logs);
            }
            i += 1;
        }
        self.entries[holder].1.cash = cash as i32;
        logs.push(
            LogEntry::CollectedTotal {
                name: self.entries[holder].1.name.clone(),
                total: total as i32,
                cash: cash as i32,
            },
        );
        Ok(())
    }

    /// The cash and the debt of every seat.
    fn money(&self) -> (m: Vec<(i32, i32)>)
        ensures
            m@.len() == self.entries@.len(),
            forall|j: int|
                0 <= j < m@.len() ==> #[trigger] m@[j] == (
                    self.entries@[j].1.cash,
                    self.entries@[j].1.debt,
                ),
    {
        let mut m: Vec<(i32, i32)> = Vec::new();
        let mut j: usize = 0;
        while j < self.entries.len()
            invariant
                j <= self.entries@.len(),
                m@.len() == j,
                forall|k: int|
                    0 <= k < j ==> #[trigger] m@[k] == (
                        self.entries@[k].1.cash,
                        self.entries@[k].1.debt,
                    ),
            decreases self.entries@.len() - j,
        {
            m.push((self.entries[j].1.cash, self.entries[j].1.debt));
            j += 1;
        }
        m
    }

    /// Gives every seat the cash and the debt of `m`.
    fn put_money(&mut self, m: &Vec<(i32, i32)>)
        requires
            m@.len() == old(self).entries@.len(),
        ensures
            final(self).entries@.len() == old(self).entries@.len(),
            forall|j: int|
                0 <= j < m@.len() ==> #[trigger] final(self).entries@[j] == (
                    old(self).entries@[j].0,
                    (Player { cash: m@[j].0, debt: m@[j].1, ..old(self).entries@[j].1 }),
                ),
    {
        let n = self.entries.len();
        let mut j: usize = 0;
        while j < n
            invariant
                j <= n,
                n == m@.len(),
                self.entries@.len() == n,
                old(self).entries@.len() == n,
                forall|k: int|
                    0 <= k < j ==> #[trigger] self.entries@[k] == (
                        old(self).entries@[k].0,
                        (Player { cash: m@[k].0, debt: m@[k].1, ..old(self).entries@[k].1 }),
                    ),
                forall|k: int| j <= k < n ==> #[trigger] self.entries@[k] == old(self).entries@[k],
            decreases n - j,
        {
            self.entries[j].1.cash = m[j].0;
            self.entries[j].1.debt = m[j].1;
            j += 1;
        }
    }

    /// Lets the ash fall: the player in the seat `holder` takes the bonus,
    /// and every other player meets the roll at the place of the seat.
    /// Where a payment fails, everyone is left as before the card.
    #[verifier::rlimit(50)]
    pub fn erupt(&mut self, holder: usize, rolls: &Vec<u8>, logs: &mut Vec<LogEntry>) -> (r: Result<
        (),
        GameError,
    >)
        requires
            holder < old(self).entries@.len(),
            rolls@.len() >= old(self).entries@.len(),
        ensures
            final(self).entries@ =~= eruption_outcome(old(self).entries@, holder as int, rolls@).0,
            final(logs)@ =~= old(logs)@ + eruption_outcome(
                old(self).entries@,
                holder as int,
                rolls@,
            ).1,
            r == eruption_outcome(old(self).entries@, holder as int, rolls@).2,
    {
        let n = self.entries.len();
        let ghost seats = self.entries@;
        let ghost h = holder as int;
        let before = self.money();
        let mut r = self.entries[holder].1.take_ash_bonus(logs);
        let mut i: usize = 0;
        while i < n && r.is_ok()
            invariant
                i <= n,
                n == seats.len(),
                holder < n,
                h == holder as int,
                rolls@.len() >= n,
                self.entries@.len() == n,
                self.entries@ =~= eruption_upto(seats, h, rolls@, i as int).0,
                logs@ =~= old(logs)@ + eruption_upto(seats, h, rolls@, i as int).1,
                r == eruption_upto(seats, h, rolls@, i as int).2,
                forall|j: int|
                    i <= j < n && j != h ==> (#[trigger] eruption_upto(seats, h, rolls@, i as int).0[j])
                        == seats[j],
                eruption_upto(seats, h, rolls@, i as int).0.len() == n,
            decreases n - i,
        {
            if i != holder {
                r = self.entries[i].1.take_ash(rolls[i], logs);
            }
            i += 1;
        }
        proof {
            lemma_eruption_stops(seats, h, rolls@, i as int, n as int);
        }
        if r.is_err() {
            let ghost reached = self.entries@;
            self.put_money(&before);
            proof {
                assert forall|j: int| 0 <= j < n implies self.entries@[j] == seats[j] by {
                    lemma_eruption_touches_money(seats, h, rolls@, n as int, j);
                    assert(before@[j] == (seats[j].1.cash, seats[j].1.debt));
                    assert(self.entries@[j] == (
                        reached[j].0,
                        (Player { cash: before@[j].0, debt: before@[j].1, ..reached[j].1 }),
                    ));
                }
                assert(self.entries@ =~= seats);
            }
        }
        r
    }
}

/// Neither a collection, nor the eruption, nor computing the scoreboards
/// anew changes who sits where or how many turns anyone has taken.
pub proof fn lemma_table_keeps_turns(
    seats: Seats,
    holder: int,
    asset: AssetType,
    amount: i32,
    rolls: Seq<u8>,
)
    requires
        0 <= holder < seats.len(),
    ensures
        same_turns(seats, collection_outcome(seats, holder, asset, amount).0),
        same_turns(seats, eruption_outcome(seats, holder, rolls).0),
        same_turns(seats, refreshed_seats(seats)),
        same_turns(seats, refreshed_seats(collection_outcome(seats, holder, asset, amount).0)),
        same_turns(seats, refreshed_seats(eruption_outcome(seats, holder, rolls).0)),
{
    let c = collection_outcome(seats, holder, asset, amount).0;
    let e = eruption_outcome(seats, holder, rolls).0;
    assert forall|j: int| 0 <= j < seats.len() implies (#[trigger] c[j]).0 == seats[j].0
        && c[j].1.turns_taken == seats[j].1.turns_taken by {}
    assert(c.len() == seats.len());
    assert forall|j: int| 0 <= j < seats.len() implies (#[trigger] e[j]).0 == seats[j].0
        && e[j].1.turns_taken == seats[j].1.turns_taken && e.len() == seats.len() by {
        lemma_eruption_touches_money(seats, holder, rolls, seats.len() as int, j);
    }
    lemma_eruption_touches_money(seats, holder, rolls, seats.len() as int, holder);
    assert(e.len() == seats.len());
    assert forall|j: int| 0 <= j < seats.len() implies (#[trigger] refreshed_seats(c)[j]).0
        == seats[j].0 && refreshed_seats(c)[j].1.turns_taken == seats[j].1.turns_taken by {
        assert(c[j].0 == seats[j].0);
    }
    assert forall|j: int| 0 <= j < seats.len() implies (#[trigger] refreshed_seats(e)[j]).0
        == seats[j].0 && refreshed_seats(e)[j].1.turns_taken == seats[j].1.turns_taken by {
        assert(e[j].0 == seats[j].0);
    }
}

/// A collection that is in range for the first `n` seats is in range for
/// each of them.
pub proof fn lemma_in_range_at(seats: Seats, holder: int, asset: AssetType, amount: i32, n: int, i: int)
    requires
        collection_in_range(seats, holder, asset, amount, n),
        0 <= i < n,
        i != holder,
    ensures
        collection_from(seats[i].1, asset, amount).3,
    decreases n,
{
    if i < n - 1 {
        lemma_in_range_at(seats, holder, asset, amount, n - 1, i);
    }
}

/// An eruption that has failed stays as it is for the seats that follow.
pub proof fn lemma_eruption_stops(seats: Seats, holder: int, rolls: Seq<u8>, i: int, n: int)
    requires
        0 <= i <= n,
        i == n || eruption_upto(seats, holder, rolls, i).2.is_err(),
    ensures
        eruption_upto(seats, holder, rolls, n) == eruption_upto(seats, holder, rolls, i),
    decreases n - i,
{
    if i < n {
        lemma_eruption_stops(seats, holder, rolls, i, n - 1);
    }
}

} // verus!
