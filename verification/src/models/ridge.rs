//! Ridges: range land that one player may lease and stock with cows.

use crate::error::GameError;
use vstd::prelude::*;

verus! {

/// A parcel of range land with room for a fixed herd.
#[derive(Debug, PartialEq)]
pub struct Ridge {
    pub name: String,
    pub cost: i32,
    pub cow_count: i32,
    pub leased_by: Option<usize>,
    pub initial_cow_count: i32,
}

impl Clone for Ridge {
    fn clone(&self) -> (r: Self)
        ensures
            r == *self,
    {
        Ridge {
            name: self.name.clone(),
            cost: self.cost,
            cow_count: self.cow_count,
            leased_by: self.leased_by,
            initial_cow_count: self.initial_cow_count,
        }
    }
}

impl Ridge {
    /// An unleased, empty ridge.
    pub fn new(name: String, cost: i32, initial_cow_count: i32) -> (r: Self)
        ensures
            r == (Ridge { name, cost, cow_count: 0, leased_by: None, initial_cow_count }),
    {
        Ridge { name, cost, cow_count: 0, leased_by: None, initial_cow_count }
    }

    /// Whether `amount` more cows stay within the ridge's capacity.
    pub open spec fn has_room_for(&self, amount: int) -> bool {
        self.cow_count + amount <= self.initial_cow_count
    }

    /// Whether `amount` more cows stay within the ridge's capacity.
    pub fn can_add_cows(&self, amount: i32) -> (b: bool)
        ensures
            b == self.has_room_for(amount as int),
    {
        self.cow_count as i64 + amount as i64 <= self.initial_cow_count as i64
    }

    /// Puts `amount` cows on the ridge. Refused, with the ridge unchanged,
    /// where they exceed its capacity or the new count does not fit `i32`.
    pub fn add_cows(&mut self, amount: i32) -> (r: Result<(), GameError>)
        ensures
            match r {
                Ok(()) => old(self).has_room_for(amount as int) && *final(self) == (Ridge {
                    cow_count: (old(self).cow_count + amount) as i32,
                    ..*old(self)
                }) && final(self).cow_count == old(self).cow_count + amount,
                Err(e) => *final(self) == *old(self) && if !old(self).has_room_for(amount as int) {
                    e == (GameError::RidgeOverCapacity {
                        amount,
                        capacity: old(self).initial_cow_count,
                    })
                } else {
                    e == GameError::AmountOutOfRange && old(self).cow_count + amount < i32::MIN
                },
            },
    {
        if !self.can_add_cows(amount) {
            return Err(
                GameError::RidgeOverCapacity { amount, capacity: self.initial_cow_count },
            );
        }
        let total: i64 = self.cow_count as i64 + amount as i64;
        if total < i32::MIN as i64 {
            return Err(GameError::AmountOutOfRange);
        }
        self.cow_count = total as i32;
        Ok(())
    }

    /// Takes `amount` cows off the ridge. Refused, with the ridge unchanged,
    /// where it holds fewer or the new count does not fit `i32`.
    pub fn remove_cows(&mut self, amount: i32) -> (r: Result<(), GameError>)
        ensures
            match r {
                Ok(()) => amount <= old(self).cow_count && *final(self) == (Ridge {
                    cow_count: (old(self).cow_count - amount) as i32,
                    ..*old(self)
                }) && final(self).cow_count == old(self).cow_count - amount,
                Err(e) => *final(self) == *old(self) && if amount > old(self).cow_count {
                    e == (GameError::RidgeTooFewCows { amount, present: old(self).cow_count })
                } else {
                    e == GameError::AmountOutOfRange && old(self).cow_count - amount > i32::MAX
                },
            },
    {
        if amount > self.cow_count {
            return Err(GameError::RidgeTooFewCows { amount, present: self.cow_count });
        }
        let left: i64 = self.cow_count as i64 - amount as i64;
        if left > i32::MAX as i64 {
            return Err(GameError::AmountOutOfRange);
        }
        self.cow_count = left as i32;
        Ok(())
    }

    /// Leases the ridge to `player_id`, stocked with `initial_cows`. Refused,
    /// with the ridge unchanged, where it has a lessee or the herd is not the
    /// one it is rated for.
    pub fn lease(&mut self, player_id: usize, initial_cows: i32) -> (r: Result<(), GameError>)
        ensures
            match r {
                Ok(()) => old(self).leased_by.is_none() && initial_cows == old(self).initial_cow_count && *final(self) == (Ridge {
                    leased_by: Some(player_id),
                    cow_count: initial_cows,
                    ..*old(self)
                }),
                Err(e) => *final(self) == *old(self) && if old(self).leased_by.is_some() {
                    e == (GameError::RidgeAlreadyLeased { name: old(self).name })
                } else {
                    initial_cows != old(self).initial_cow_count && e == (GameError::RidgeWrongStock {
                        required: old(self).initial_cow_count,
                    })
                },
            },
    {
        if self.leased_by.is_some() {
            return Err(GameError::RidgeAlreadyLeased { name: self.name.clone() });
        }
        if initial_cows != self.initial_cow_count {
            return Err(GameError::RidgeWrongStock { required: self.initial_cow_count });
        }
        self.leased_by = Some(player_id);
        self.cow_count = initial_cows;
        Ok(())
    }

    /// Whether the ridge has a lessee.
    pub fn is_leased(&self) -> (b: bool)
        ensures
            b == self.leased_by.is_some(),
    {
        self.leased_by.is_some()
    }

    /// The lessee, if any.
    pub fn get_leasee(&self) -> (r: Option<usize>)
        ensures
            r == self.leased_by,
    {
        self.leased_by
    }
}

} // verus!
