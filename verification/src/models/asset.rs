//! Asset kinds, the record kept of each, and a table with one slot per kind.

use vstd::prelude::*;
use vstd::string::StringExecFns;

verus! {

/// What a player can own.
#[derive(Debug, Clone, Copy, PartialEq, Eq, Hash, Structural)]
pub enum AssetType {
    Grain,
    Hay,
    Cows,
    Fruit,
    Tractor,
    Harvester,
}

impl AssetType {
    /// What one unit of the kind counts for on the scoreboard.
    pub open spec fn spec_unit_value(self) -> int {
        match self {
            AssetType::Grain => 2000,
            AssetType::Hay => 2000,
            AssetType::Cows => 500,
            AssetType::Fruit => 5000,
            AssetType::Tractor => 10000,
            AssetType::Harvester => 10000,
        }
    }

    /// What one unit of the kind counts for on the scoreboard.
    pub fn unit_value(&self) -> (v: i64)
        ensures
            v == self.spec_unit_value(),
    {
        match self {
            AssetType::Grain => 2000,
            AssetType::Hay => 2000,
            AssetType::Cows => 500,
            AssetType::Fruit => 5000,
            AssetType::Tractor => 10000,
            AssetType::Harvester => 10000,
        }
    }

    /// The kind's name as it stands in messages.
    pub open spec fn label_text(self) -> Seq<char> {
        match self {
            AssetType::Grain => "Grain"@,
            AssetType::Hay => "Hay"@,
            AssetType::Cows => "Cows"@,
            AssetType::Fruit => "Fruit"@,
            AssetType::Tractor => "Tractor"@,
            AssetType::Harvester => "Harvester"@,
        }
    }

    /// The kind's name as it stands in messages.
    pub fn label(&self) -> (s: &'static str)
        ensures
            s@ == self.label_text(),
    {
        match self {
            AssetType::Grain => "Grain",
            AssetType::Hay => "Hay",
            AssetType::Cows => "Cows",
            AssetType::Fruit => "Fruit",
            AssetType::Tractor => "Tractor",
            AssetType::Harvester => "Harvester",
        }
    }

    /// The kind's name as a player reads it on the scoreboard.
    pub open spec fn display_text(self) -> Seq<char> {
        match self {
            AssetType::Grain => "grain"@,
            AssetType::Hay => "hay"@,
            AssetType::Cows => "cows"@,
            AssetType::Fruit => "Fruit"@,
            AssetType::Tractor => "tractor"@,
            AssetType::Harvester => "harvester"@,
        }
    }

    /// The kind's name as a player reads it on the scoreboard.
    pub fn to_string(&self) -> (s: String)
        ensures
            s@ == self.display_text(),
    {
        match self {
            AssetType::Grain => String::from_str("grain"),
            AssetType::Hay => String::from_str("hay"),
            AssetType::Cows => String::from_str("cows"),
            AssetType::Fruit => String::from_str("Fruit"),
            AssetType::Tractor => String::from_str("tractor"),
            AssetType::Harvester => String::from_str("harvester"),
        }
    }

    /// Whether the kind is land under a crop.
    pub open spec fn spec_is_crop(&self) -> bool {
        *self == AssetType::Grain || *self == AssetType::Hay || *self == AssetType::Fruit
    }

    /// Whether the kind is land under a crop.
    #[verifier::when_used_as_spec(spec_is_crop)]
    pub fn is_crop(&self) -> (b: bool)
        ensures
            b == self.spec_is_crop(),
    {
        match self {
            AssetType::Grain | AssetType::Hay | AssetType::Fruit => true,
            _ => false,
        }
    }
}

/// What a player holds of one kind: how much, what it cost in all, and what
/// it brought in.
#[derive(Debug, Clone, Copy, PartialEq, Eq, Structural)]
pub struct AssetRecord {
    pub quantity: i32,
    pub total_cost: i32,
    pub total_income: i32,
}

/// A map from asset kinds to values, held as one slot per kind.
#[derive(Debug, Clone, PartialEq)]
pub struct AssetTable<T> {
    pub grain: Option<T>,
    pub hay: Option<T>,
    pub cows: Option<T>,
    pub fruit: Option<T>,
    pub tractor: Option<T>,
    pub harvester: Option<T>,
}

/// Puts `v` in `slot` and returns what the slot held.
fn put<T>(slot: &mut Option<T>, v: T) -> (previous: Option<T>)
    ensures
        previous == *old(slot),
        *final(slot) == Some(v),
{
    let previous = slot.take();
    *slot = Some(v);
    previous
}

/// The holdings of one player.
pub type AssetLedger = AssetTable<AssetRecord>;

impl<T> AssetTable<T> {
    /// What the table holds for `k`.
    pub open spec fn spec_get(self, k: AssetType) -> Option<T> {
        match k {
            AssetType::Grain => self.grain,
            AssetType::Hay => self.hay,
            AssetType::Cows => self.cows,
            AssetType::Fruit => self.fruit,
            AssetType::Tractor => self.tractor,
            AssetType::Harvester => self.harvester,
        }
    }

    /// Whether the table holds anything for `k`.
    pub open spec fn has(self, k: AssetType) -> bool {
        self.spec_get(k).is_some()
    }

    /// The table with the slot of `k` replaced by `v`.
    pub open spec fn with(self, k: AssetType, v: Option<T>) -> Self {
        match k {
            AssetType::Grain => AssetTable { grain: v, ..self },
            AssetType::Hay => AssetTable { hay: v, ..self },
            AssetType::Cows => AssetTable { cows: v, ..self },
            AssetType::Fruit => AssetTable { fruit: v, ..self },
            AssetType::Tractor => AssetTable { tractor: v, ..self },
            AssetType::Harvester => AssetTable { harvester: v, ..self },
        }
    }

    /// The table that holds nothing.
    pub open spec fn spec_empty() -> Self {
        AssetTable { grain: None, hay: None, cows: None, fruit: None, tractor: None, harvester: None }
    }

    /// How many kinds the table holds a value for.
    pub open spec fn spec_len(self) -> nat {
        ((if self.grain.is_some() { 1nat } else { 0 })
            + (if self.hay.is_some() { 1nat } else { 0 })
            + (if self.cows.is_some() { 1nat } else { 0 })
            + (if self.fruit.is_some() { 1nat } else { 0 })
            + (if self.tractor.is_some() { 1nat } else { 0 })
            + (if self.harvester.is_some() { 1nat } else { 0 })) as nat
    }

    /// A table that holds nothing.
    pub fn new() -> (t: Self)
        ensures
            t == Self::spec_empty(),
    {
        AssetTable { grain: None, hay: None, cows: None, fruit: None, tractor: None, harvester: None }
    }

    /// The value held for `k`, if any.
    pub fn get(&self, k: &AssetType) -> (r: Option<&T>)
        ensures
            r.is_some() == self.has(*k),
            r.is_some() ==> *r.unwrap() == self.spec_get(*k).unwrap(),
    {
        match k {
            AssetType::Grain => self.grain.as_ref(),
            AssetType::Hay => self.hay.as_ref(),
            AssetType::Cows => self.cows.as_ref(),
            AssetType::Fruit => self.fruit.as_ref(),
            AssetType::Tractor => self.tractor.as_ref(),
            AssetType::Harvester => self.harvester.as_ref(),
        }
    }

    /// The value held for `k`, if any, to be changed in place.
    pub fn get_mut(&mut self, k: &AssetType) -> (r: Option<&mut T>)
        ensures
            match r {
                Some(slot) => old(self).spec_get(*k) == Some(*slot) && *final(self) == old(self).with(
                    *k,
                    Some(*final(slot)),
                ),
                None => !old(self).has(*k) && *final(self) == *old(self),
            },
    {
        match k {
            AssetType::Grain => match &mut self.grain {
                Some(x) => Some(x),
                None => None,
            },
            AssetType::Hay => match &mut self.hay {
                Some(x) => Some(x),
                None => None,
            },
            AssetType::Cows => match &mut self.cows {
                Some(x) => Some(x),
                None => None,
            },
            AssetType::Fruit => match &mut self.fruit {
                Some(x) => Some(x),
                None => None,
            },
            AssetType::Tractor => match &mut self.tractor {
                Some(x) => Some(x),
                None => None,
            },
            AssetType::Harvester => match &mut self.harvester {
                Some(x) => Some(x),
                None => None,
            },
        }
    }

    /// Whether the table holds a value for `k`.
    pub fn contains_key(&self, k: &AssetType) -> (b: bool)
        ensures
            b == self.has(*k),
    {
        match k {
            AssetType::Grain => self.grain.is_some(),
            AssetType::Hay => self.hay.is_some(),
            AssetType::Cows => self.cows.is_some(),
            AssetType::Fruit => self.fruit.is_some(),
            AssetType::Tractor => self.tractor.is_some(),
            AssetType::Harvester => self.harvester.is_some(),
        }
    }

    /// Puts `v` in the slot of `k` and returns what the slot held.
    pub fn insert(&mut self, k: AssetType, v: T) -> (previous: Option<T>)
        ensures
            previous == old(self).spec_get(k),
            *final(self) == old(self).with(k, Some(v)),
    {
        match k {
            AssetType::Grain => put(&mut self.grain, v),
            AssetType::Hay => put(&mut self.hay, v),
            AssetType::Cows => put(&mut self.cows, v),
            AssetType::Fruit => put(&mut self.fruit, v),
            AssetType::Tractor => put(&mut self.tractor, v),
            AssetType::Harvester => put(&mut self.harvester, v),
        }
    }

    /// Empties the slot of `k` and returns what it held.
    pub fn remove(&mut self, k: &AssetType) -> (previous: Option<T>)
        ensures
            previous == old(self).spec_get(*k),
            *final(self) == old(self).with(*k, None),
    {
        match k {
            AssetType::Grain => self.grain.take(),
            AssetType::Hay => self.hay.take(),
            AssetType::Cows => self.cows.take(),
            AssetType::Fruit => self.fruit.take(),
            AssetType::Tractor => self.tractor.take(),
            AssetType::Harvester => self.harvester.take(),
        }
    }

    /// Empties every slot.
    pub fn clear(&mut self)
        ensures
            *final(self) == Self::spec_empty(),
    {
        self.grain = None;
        self.hay = None;
        self.cows = None;
        self.fruit = None;
        self.tractor = None;
        self.harvester = None;
    }

    /// How many kinds the table holds a value for.
    pub fn len(&self) -> (n: usize)
        ensures
            n == self.spec_len(),
    {
        let mut n: usize = 0;
        if self.grain.is_some() {
            n += 1;
        }
        if self.hay.is_some() {
            n += 1;
        }
        if self.cows.is_some() {
            n += 1;
        }
        if self.fruit.is_some() {
            n += 1;
        }
        if self.tractor.is_some() {
            n += 1;
        }
        if self.harvester.is_some() {
            n += 1;
        }
        n
    }

    /// Whether the table holds nothing.
    pub fn is_empty(&self) -> (b: bool)
        ensures
            b == (forall|k: AssetType| !self.has(k)),
            b == (self.spec_len() == 0),
    {
        let b = self.grain.is_none() && self.hay.is_none() && self.cows.is_none()
            && self.fruit.is_none() && self.tractor.is_none() && self.harvester.is_none();
        proof {
            if !b {
                assert(self.has(AssetType::Grain) || self.has(AssetType::Hay) || self.has(
                    AssetType::Cows,
                ) || self.has(AssetType::Fruit) || self.has(AssetType::Tractor) || self.has(
                    AssetType::Harvester,
                ));
            }
        }
        b
    }
}

/// The six kinds in the order in which tables are walked.
pub open spec fn kinds() -> Seq<AssetType> {
    seq![
        AssetType::Grain,
        AssetType::Hay,
        AssetType::Cows,
        AssetType::Fruit,
        AssetType::Tractor,
        AssetType::Harvester,
    ]
}

/// The kind at place `i` of `kinds()`.
pub fn kind_at(i: usize) -> (k: AssetType)
    requires
        i < 6,
    ensures
        k == kinds()[i as int],
{
    if i == 0 {
        AssetType::Grain
    } else if i == 1 {
        AssetType::Hay
    } else if i == 2 {
        AssetType::Cows
    } else if i == 3 {
        AssetType::Fruit
    } else if i == 4 {
        AssetType::Tractor
    } else {
        AssetType::Harvester
    }
}

impl AssetTable<AssetRecord> {
    /// How much of `k` the ledger holds; zero where it holds no record.
    pub open spec fn quantity(self, k: AssetType) -> int {
        match self.spec_get(k) {
            Some(r) => r.quantity as int,
            None => 0,
        }
    }

    /// How much of `k` the ledger holds; zero where it holds no record.
    pub fn quantity_of(&self, k: &AssetType) -> (q: i32)
        ensures
            q == self.quantity(*k),
    {
        match self.get(k) {
            Some(r) => r.quantity,
            None => 0,
        }
    }

    /// Whether the ledger holds more than nothing of `k`.
    pub open spec fn owns(self, k: AssetType) -> bool {
        self.quantity(k) > 0
    }

    /// What the scoreboard counts for the record of `k`: the unit value times
    /// the quantity, and nothing for a quantity below zero.
    pub open spec fn value_of(self, k: AssetType) -> int {
        k.spec_unit_value() * (if self.quantity(k) > 0 {
            self.quantity(k)
        } else {
            0
        })
    }

    /// The scoreboard value of all holdings.
    pub open spec fn total_value(self) -> int {
        self.value_of(AssetType::Grain) + self.value_of(AssetType::Hay) + self.value_of(
            AssetType::Cows,
        ) + self.value_of(AssetType::Fruit) + self.value_of(AssetType::Tractor) + self.value_of(
            AssetType::Harvester,
        )
    }

    /// What the record of `k` has cost; zero where there is none.
    pub open spec fn cost_of(self, k: AssetType) -> int {
        match self.spec_get(k) {
            Some(r) => r.total_cost as int,
            None => 0,
        }
    }

    /// What the record of `k` has brought in; zero where there is none.
    pub open spec fn income_of(self, k: AssetType) -> int {
        match self.spec_get(k) {
            Some(r) => r.total_income as int,
            None => 0,
        }
    }

    /// The cost of all holdings.
    pub open spec fn total_cost(self) -> int {
        self.cost_of(AssetType::Grain) + self.cost_of(AssetType::Hay) + self.cost_of(
            AssetType::Cows,
        ) + self.cost_of(AssetType::Fruit) + self.cost_of(AssetType::Tractor) + self.cost_of(
            AssetType::Harvester,
        )
    }

    /// The income of all holdings.
    pub open spec fn total_income(self) -> int {
        self.income_of(AssetType::Grain) + self.income_of(AssetType::Hay) + self.income_of(
            AssetType::Cows,
        ) + self.income_of(AssetType::Fruit) + self.income_of(AssetType::Tractor) + self.income_of(
            AssetType::Harvester,
        )
    }

    /// The quantities of the three crops together.
    pub open spec fn crop_acres(self) -> int {
        self.quantity(AssetType::Hay) + self.quantity(AssetType::Grain) + self.quantity(
            AssetType::Fruit,
        )
    }

    /// Computes `value_of(k)`.
    fn slot_value(&self, k: AssetType) -> (v: i64)
        ensures
            v == self.value_of(k),
    {
        let q: i32 = self.quantity_of(&k);
        let unit: i64 = k.unit_value();
        if q > 0 {
            assert(0 <= unit * (q as int) <= 10000 * 0x8000_0000) by (nonlinear_arith)
                requires
                    0 <= unit <= 10000,
                    0 < q <= 0x8000_0000,
            ;
            unit * (q as i64)
        } else {
            0
        }
    }

    /// Computes `cost_of(k)`.
    fn slot_cost(&self, k: AssetType) -> (v: i64)
        ensures
            v == self.cost_of(k),
    {
        match self.get(&k) {
            Some(r) => r.total_cost as i64,
            None => 0,
        }
    }

    /// Computes `income_of(k)`.
    fn slot_income(&self, k: AssetType) -> (v: i64)
        ensures
            v == self.income_of(k),
    {
        match self.get(&k) {
            Some(r) => r.total_income as i64,
            None => 0,
        }
    }

    /// Computes `total_value()`.
    pub fn sum_value(&self) -> (v: i64)
        ensures
            v == self.total_value(),
    {
        self.slot_value(AssetType::Grain) + self.slot_value(AssetType::Hay) + self.slot_value(
            AssetType::Cows,
        ) + self.slot_value(AssetType::Fruit) + self.slot_value(AssetType::Tractor)
            + self.slot_value(AssetType::Harvester)
    }

    /// Computes `total_cost()`.
    pub fn sum_cost(&self) -> (v: i64)
        ensures
            v == self.total_cost(),
    {
        self.slot_cost(AssetType::Grain) + self.slot_cost(AssetType::Hay) + self.slot_cost(
            AssetType::Cows,
        ) + self.slot_cost(AssetType::Fruit) + self.slot_cost(AssetType::Tractor) + self.slot_cost(
            AssetType::Harvester,
        )
    }

    /// Computes `total_income()`.
    pub fn sum_income(&self) -> (v: i64)
        ensures
            v == self.total_income(),
    {
        self.slot_income(AssetType::Grain) + self.slot_income(AssetType::Hay) + self.slot_income(
            AssetType::Cows,
        ) + self.slot_income(AssetType::Fruit) + self.slot_income(AssetType::Tractor)
            + self.slot_income(AssetType::Harvester)
    }
}

} // verus!
