//! The players of a game, each under an id, in the order in which they
//! joined.

use crate::models::player::Player;
use vstd::prelude::*;

verus! {

/// Whether one of the seats is under `id`.
pub open spec fn seated(seats: Seq<(usize, Player)>, id: usize) -> bool {
    exists|i: int| 0 <= i < seats.len() && (#[trigger] seats[i]).0 == id
}

/// Whether `i` is the first seat under `id`.
pub open spec fn is_seat_of(seats: Seq<(usize, Player)>, id: usize, i: int) -> bool {
    &&& 0 <= i < seats.len()
    &&& seats[i].0 == id
    &&& forall|j: int| 0 <= j < i ==> (#[trigger] seats[j]).0 != id
}

/// The first seat under `id`, where there is one.
pub open spec fn seat_of(seats: Seq<(usize, Player)>, id: usize) -> int {
    choose|i: int| is_seat_of(seats, id, i)
}

/// The first seat under an id is the only one that is the first.
pub proof fn lemma_seat_of(seats: Seq<(usize, Player)>, id: usize, i: int)
    requires
        is_seat_of(seats, id, i),
    ensures
        seat_of(seats, id) == i,
        seated(seats, id),
{
    let c = seat_of(seats, id);
    assert(is_seat_of(seats, id, c));
    if c < i {
        assert(seats[c].0 != id);
    }
    if i < c {
        assert(seats[i].0 != id);
    }
}

/// Where a seat is under an id, one of them is the first.
pub proof fn lemma_first_seat(seats: Seq<(usize, Player)>, id: usize)
    requires
        seated(seats, id),
    ensures
        is_seat_of(seats, id, seat_of(seats, id)),
{
    let k = choose|i: int| 0 <= i < seats.len() && (#[trigger] seats[i]).0 == id;
    lemma_first_seat_before(seats, id, k);
}

/// Where the seat `k` is under an id, a seat up to `k` is the first under it.
pub proof fn lemma_first_seat_before(seats: Seq<(usize, Player)>, id: usize, k: int)
    requires
        0 <= k < seats.len(),
        seats[k].0 == id,
    ensures
        exists|i: int| is_seat_of(seats, id, i),
    decreases k,
{
    if forall|j: int| 0 <= j < k ==> (#[trigger] seats[j]).0 != id {
        assert(is_seat_of(seats, id, k));
    } else {
        let j = choose|j: int| 0 <= j < k && (#[trigger] seats[j]).0 == id;
        lemma_first_seat_before(seats, id, j);
    }
}

/// Whether the seats `after` are under the ids of the seats `before`, each
/// player with as many turns taken as before.
pub open spec fn same_turns(before: Seq<(usize, Player)>, after: Seq<(usize, Player)>) -> bool {
    &&& after.len() == before.len()
    &&& forall|j: int|
        0 <= j < before.len() ==> (#[trigger] after[j]).0 == before[j].0 && after[j].1.turns_taken
            == before[j].1.turns_taken
}

/// The players of a game, each under an id. A lookup finds the first seat
/// under the id; `insert` never makes a second.
#[derive(Debug, Clone, PartialEq)]
pub struct Players {
    pub entries: Vec<(usize, Player)>,
}

impl Players {
    /// Whether a player sits under `id`.
    pub open spec fn has(&self, id: usize) -> bool {
        seated(self.entries@, id)
    }

    /// The seat of the player under `id`.
    pub open spec fn index_of(&self, id: usize) -> int {
        seat_of(self.entries@, id)
    }

    /// The player under `id`.
    pub open spec fn player(&self, id: usize) -> Player
        recommends
            self.has(id),
    {
        self.entries@[self.index_of(id)].1
    }

    /// Whether no two seats are under one id.
    pub open spec fn distinct(&self) -> bool {
        forall|i: int, j: int|
            0 <= i < j < self.entries@.len() ==> (#[trigger] self.entries@[i]).0 != (
            #[trigger] self.entries@[j]).0
    }

    /// No players.
    pub fn new() -> (p: Self)
        ensures
            p.entries@ == Seq::<(usize, Player)>::empty(),
            p.distinct(),
    {
        Players { entries: Vec::new() }
    }

    /// How many players there are.
    pub fn len(&self) -> (n: usize)
        ensures
            n == self.entries@.len(),
    {
        self.entries.len()
    }

    /// Whether there is no player.
    pub fn is_empty(&self) -> (b: bool)
        ensures
            b == (self.entries@.len() == 0),
    {
        self.entries.len() == 0
    }

    /// The seat of the player under `id`, if there is one.
    pub fn position(&self, id: usize) -> (r: Option<usize>)
        ensures
            match r {
                Some(i) => self.has(id) && i == self.index_of(id) && i < self.entries@.len()
                    && self.entries@[i as int].0 == id && is_seat_of(self.entries@, id, i as int),
                None => !self.has(id),
            },
    {
        let mut i: usize = 0;
        while i < self.entries.len()
            invariant
                i <= self.entries.len(),
                forall|j: int| 0 <= j < i ==> (#[trigger] self.entries@[j]).0 != id,
            decreases self.entries.len() - i,
        {
            if self.entries[i].0 == id {
                proof {
                    lemma_seat_of(self.entries@, id, i as int);
                }
                return Some(i);
            }
            i += 1;
        }
        None
    }

    /// Whether a player sits under `id`.
    pub fn contains_key(&self, id: &usize) -> (b: bool)
        ensures
            b == self.has(*id),
    {
        self.position(*id).is_some()
    }

    /// The player under `id`, if there is one.
    pub fn get(&self, id: &usize) -> (r: Option<&Player>)
        ensures
            r.is_some() == self.has(*id),
            r.is_some() ==> *r.unwrap() == self.player(*id),
    {
        match self.position(*id) {
            Some(i) => Some(&self.entries[i].1),
            None => None,
        }
    }

    /// The player under `id`, if there is one, to be changed in place.
    pub fn get_mut(&mut self, id: &usize) -> (r: Option<&mut Player>)
        ensures
            match r {
                Some(p) => old(self).has(*id) && *p == old(self).player(*id) && final(self).entries@ == old(self).entries@.update(
                    old(self).index_of(*id),
                    (*id, *final(p)),
                ),
                None => !old(self).has(*id) && final(self).entries@ == old(self).entries@,
            },
    {
        match self.position(*id) {
            Some(i) => Some(&mut self.entries[i].1),
            None => None,
        }
    }

    /// Seats `player` under `id`. A player who sat there leaves and is
    /// returned; the seat stays where it was. A new seat comes last.
    pub fn insert(&mut self, id: usize, player: Player) -> (previous: Option<Player>)
        ensures
            match previous {
                Some(p) => old(self).has(id) && p == old(self).player(id) && final(self).entries@
                    == old(self).entries@.update(old(self).index_of(id), (id, player)),
                None => !old(self).has(id) && final(self).entries@ == old(self).entries@.push(
                    (id, player),
                ),
            },
            final(self).has(id),
            final(self).player(id) == player,
            old(self).distinct() ==> final(self).distinct(),
    {
        match self.position(id) {
            Some(i) => {
                let mut seat = (id, player);
                std::mem::swap(&mut self.entries[i], &mut seat);
                proof {
                    assert forall|j: int| 0 <= j < i implies (#[trigger] self.entries@[j]).0
                        != id by {
                        assert(old(self).entries@[j].0 != id);
                    }
                    lemma_seat_of(self.entries@, id, i as int);
                    assert forall|a: int, b: int|
                        0 <= a < b < self.entries@.len() && old(self).distinct() implies (
                    #[trigger] self.entries@[a]).0 != (#[trigger] self.entries@[b]).0 by {
                        assert(old(self).entries@[a].0 != old(self).entries@[b].0);
                    }
                }
                Some(seat.1)
            },
            None => {
                self.entries.push((id, player));
                proof {
                    let last = old(self).entries@.len() as int;
                    assert(self.entries@[last].0 == id);
                    assert forall|j: int| 0 <= j < last implies (#[trigger] self.entries@[j]).0
                        != id by {
                        assert(old(self).entries@[j].0 != id);
                    }
                    lemma_seat_of(self.entries@, id, last);
                    assert forall|a: int, b: int|
                        0 <= a < b < self.entries@.len() && old(self).distinct() implies (
                    #[trigger] self.entries@[a]).0 != (#[trigger] self.entries@[b]).0 by {
                        if b < last {
                            assert(old(self).entries@[a].0 != old(self).entries@[b].0);
                        } else {
                            assert(old(self).entries@[a].0 != id);
                        }
                    }
                }
                None
            },
        }
    }

    /// The ids of all players, in the order of their seats.
    pub fn keys(&self) -> (ids: Vec<usize>)
        ensures
            ids@.len() == self.entries@.len(),
            forall|i: int| 0 <= i < ids@.len() ==> ids@[i] == (#[trigger] self.entries@[i]).0,
    {
        let mut ids: Vec<usize> = Vec::new();
        let mut i: usize = 0;
        while i < self.entries.len()
            invariant
                i <= self.entries.len(),
                ids@.len() == i,
                forall|j: int| 0 <= j < i ==> ids@[j] == (#[trigger] self.entries@[j]).0,
            decreases self.entries.len() - i,
        {
            ids.push(self.entries[i].0);
            i += 1;
        }
        ids
    }
}

} // verus!
