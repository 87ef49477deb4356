//! Players: their money, holdings, multipliers, effects and scoreboard.

use crate::cards::card::Card;
use crate::config::{STARTING_CASH, STARTING_DEBT, STARTING_LAND, STARTING_POSITION, STARTING_YEAR};
use crate::models::asset::{AssetRecord, AssetTable, AssetType};
use crate::models::board::{copy_optional_text, HarvestType};
use crate::models::multiplier::Multiplier;
use vstd::prelude::*;

verus! {

/// A lasting effect on a player.
#[derive(Debug, Clone, Copy, PartialEq, Eq, Structural)]
pub enum EffectType {
    /// Every livestock harvest is multiplied by this factor.
    LivestockHarvestBonus(Multiplier),
}

impl EffectType {
    /// The factor that the effect puts on livestock harvests.
    pub open spec fn spec_bonus(&self) -> Multiplier {
        match self {
            EffectType::LivestockHarvestBonus(m) => *m,
        }
    }

    /// The factor that the effect puts on livestock harvests.
    #[verifier::when_used_as_spec(spec_bonus)]
    pub fn bonus(&self) -> (m: Multiplier)
        ensures
            m == self.spec_bonus(),
    {
        match self {
            EffectType::LivestockHarvestBonus(m) => *m,
        }
    }
}

/// An effect and the years it still lasts.
#[derive(Debug, Clone, Copy, PartialEq, Eq, Structural)]
pub struct PersistentEffect {
    pub effect_type: EffectType,
    pub years_remaining: u32,
}

/// Who plays: a person, or the computer under a strategy's name.
#[derive(Debug, PartialEq)]
pub enum PlayerType {
    Human,
    AI(String),
}

impl Clone for PlayerType {
    fn clone(&self) -> (r: Self)
        ensures
            r == *self,
    {
        match self {
            PlayerType::Human => PlayerType::Human,
            PlayerType::AI(s) => PlayerType::AI(s.clone()),
        }
    }
}

impl PlayerType {
    /// Whether the computer plays.
    pub open spec fn spec_is_ai(&self) -> bool {
        *self is AI
    }

    /// Whether the computer plays.
    #[verifier::when_used_as_spec(spec_is_ai)]
    pub fn is_ai(&self) -> (b: bool)
        ensures
            b == self.spec_is_ai(),
    {
        match self {
            PlayerType::Human => false,
            PlayerType::AI(_) => true,
        }
    }
}

/// An entry of a player's history.
#[derive(Debug, PartialEq)]
pub struct PlayerEvent {
    pub description: String,
    pub ai_reasoning: Option<String>,
}

impl Clone for PlayerEvent {
    fn clone(&self) -> (r: Self)
        ensures
            r == *self,
    {
        PlayerEvent {
            description: self.description.clone(),
            ai_reasoning: copy_optional_text(&self.ai_reasoning),
        }
    }
}

/// The effects that are left after a year has passed: those with more than
/// one year remaining, each with one year less, in their order.
pub open spec fn aged_effects(s: Seq<PersistentEffect>) -> Seq<PersistentEffect>
    decreases s.len(),
{
    if s.len() == 0 {
        Seq::empty()
    } else {
        let rest = aged_effects(s.drop_last());
        let e = s.last();
        if e.years_remaining > 1 {
            rest.push(
                PersistentEffect {
                    effect_type: e.effect_type,
                    years_remaining: (e.years_remaining - 1) as u32,
                },
            )
        } else {
            rest
        }
    }
}

/// The effects after `years` years have passed.
pub open spec fn aged_effects_by(s: Seq<PersistentEffect>, years: nat) -> Seq<PersistentEffect>
    decreases years,
{
    if years == 0 {
        s
    } else {
        aged_effects(aged_effects_by(s, (years - 1) as nat))
    }
}

/// The product of the livestock factors of all effects, taken from the first
/// to the last.
pub open spec fn livestock_product(s: Seq<PersistentEffect>) -> Multiplier
    decreases s.len(),
{
    if s.len() == 0 {
        Multiplier::spec_one()
    } else {
        livestock_product(s.drop_last()).spec_combine(s.last().effect_type.spec_bonus())
    }
}

/// Whether one of the effects is of type `t`.
pub open spec fn has_effect(s: Seq<PersistentEffect>, t: EffectType) -> bool {
    exists|i: int| 0 <= i < s.len() && (#[trigger] s[i]).effect_type == t
}

/// The held cards that stay after a year has passed: those with more than
/// one year remaining, each with one year less, in their order.
pub open spec fn kept_cards(s: Seq<(Card, u32)>) -> Seq<(Card, u32)>
    decreases s.len(),
{
    if s.len() == 0 {
        Seq::empty()
    } else {
        let rest = kept_cards(s.drop_last());
        let e = s.last();
        if e.1 > 1 {
            rest.push((e.0, (e.1 - 1) as u32))
        } else {
            rest
        }
    }
}

/// The held cards that run out when a year passes, in their order.
pub open spec fn expired_cards(s: Seq<(Card, u32)>) -> Seq<Card>
    decreases s.len(),
{
    if s.len() == 0 {
        Seq::empty()
    } else {
        let rest = expired_cards(s.drop_last());
        let e = s.last();
        if e.1 > 1 {
            rest
        } else {
            rest.push(e.0)
        }
    }
}

/// A year takes an effect of more than a year from the end of the list to
/// the end of the aged list, a year shorter; an effect of a year or less is
/// gone.
pub proof fn lemma_aged_push(s: Seq<PersistentEffect>, e: PersistentEffect)
    ensures
        aged_effects(s.push(e)) == if e.years_remaining > 1 {
            aged_effects(s).push(
                PersistentEffect {
                    effect_type: e.effect_type,
                    years_remaining: (e.years_remaining - 1) as u32,
                },
            )
        } else {
            aged_effects(s)
        },
{
    assert(s.push(e).drop_last() =~= s);
    assert(s.push(e).last() == e);
}

/// An effect added with `years` years to run is there, as the last of the
/// effects and with the years that are left, after every number of years
/// below `years`; and after `years` years and more, the effects are what
/// they would be had it never been added.
pub proof fn lemma_effect_decay(
    effects: Seq<PersistentEffect>,
    effect_type: EffectType,
    years: u32,
    passed: nat,
)
    requires
        years >= 1,
    ensures
        passed < years ==> aged_effects_by(
            effects.push(PersistentEffect { effect_type, years_remaining: years }),
            passed,
        ) == aged_effects_by(effects, passed).push(
            PersistentEffect { effect_type, years_remaining: (years - passed) as u32 },
        ),
        passed < years ==> has_effect(
            aged_effects_by(
                effects.push(PersistentEffect { effect_type, years_remaining: years }),
                passed,
            ),
            effect_type,
        ),
        passed >= years ==> aged_effects_by(
            effects.push(PersistentEffect { effect_type, years_remaining: years }),
            passed,
        ) == aged_effects_by(effects, passed),
    decreases passed,
{
    let added = effects.push(PersistentEffect { effect_type, years_remaining: years });
    if passed > 0 {
        let before = (passed - 1) as nat;
        lemma_effect_decay(effects, effect_type, years, before);
        if before < years {
            lemma_aged_push(
                aged_effects_by(effects, before),
                PersistentEffect { effect_type, years_remaining: (years - before) as u32 },
            );
        }
    }
    if passed < years {
        let now = aged_effects_by(added, passed);
        assert(now[now.len() - 1].effect_type == effect_type);
    }
}

/// A player with a single effect of two years has it at once and after one
/// year, and has none after two: the factor on livestock is then one again.
pub proof fn lemma_two_year_effect(effect_type: EffectType)
    ensures
        has_effect(
            aged_effects_by(seq![PersistentEffect { effect_type, years_remaining: 2 }], 0),
            effect_type,
        ),
        has_effect(
            aged_effects_by(seq![PersistentEffect { effect_type, years_remaining: 2 }], 1),
            effect_type,
        ),
        aged_effects_by(seq![PersistentEffect { effect_type, years_remaining: 2 }], 2)
            == Seq::<PersistentEffect>::empty(),
        livestock_product(
            aged_effects_by(seq![PersistentEffect { effect_type, years_remaining: 2 }], 2),
        ) == Multiplier::spec_one(),
{
    let none = Seq::<PersistentEffect>::empty();
    let one = seq![PersistentEffect { effect_type, years_remaining: 2 }];
    assert(one =~= none.push(PersistentEffect { effect_type, years_remaining: 2 }));
    lemma_effect_decay(none, effect_type, 2, 0);
    lemma_effect_decay(none, effect_type, 2, 1);
    lemma_effect_decay(none, effect_type, 2, 2);
    lemma_aged_nothing(2);
}

/// No effects stay no effects, however many years pass.
pub proof fn lemma_aged_nothing(passed: nat)
    ensures
        aged_effects_by(Seq::<PersistentEffect>::empty(), passed) == Seq::<PersistentEffect>::empty(),
    decreases passed,
{
    if passed > 0 {
        lemma_aged_nothing((passed - 1) as nat);
    }
}

/// One player.
#[derive(Debug, Clone, PartialEq)]
pub struct Player {
    pub crop_yield_multipliers: AssetTable<Multiplier>,
    pub eligible_for_side_job_pay: bool,
    pub id: usize,
    pub name: String,
    pub player_type: PlayerType,
    pub cash: i32,
    pub debt: i32,
    pub land: i32,
    pub is_active: bool,
    pub position: usize,
    pub year: u32,
    pub assets: AssetTable<AssetRecord>,
    pub history: Vec<PlayerEvent>,
    pub completed_harvests: Vec<(HarvestType, usize)>,
    pub persistent_effects: Vec<PersistentEffect>,
    pub hand: Vec<Card>,
    pub active_persistent_cards: Vec<(Card, u32)>,
    pub net_worth: i64,
    pub total_asset_value: i64,
    pub total_ridge_value: i32,
    pub total_income: i64,
    pub total_expenses: i64,
    pub turns_taken: i32,
}

/// A scoreboard computed anew says what the holdings and the money say, and
/// the net worth on it is cash less debt plus the value of the holdings and
/// of the ridges.
pub proof fn lemma_refreshed_is_current(p: Player)
    ensures
        p.refreshed().scoreboard_is_current(),
        p.refreshed().net_worth_identity(),
        p.refreshed().refreshed() == p.refreshed(),
{
}

/// Whether `x` fits in an `i32`.
pub open spec fn fits_i32(x: int) -> bool {
    i32::MIN <= x <= i32::MAX
}

impl Player {
    /// The identity that ties the net worth to its parts.
    pub open spec fn net_worth_identity(&self) -> bool {
        self.net_worth == self.cash - self.debt + self.total_asset_value + self.total_ridge_value
    }

    /// Whether the scoreboard fields say what the holdings and the money say.
    pub open spec fn scoreboard_is_current(&self) -> bool {
        &&& self.total_asset_value == self.assets.total_value()
        &&& self.total_income == self.assets.total_income()
        &&& self.total_expenses == self.assets.total_cost()
        &&& self.net_worth_identity()
    }

    /// The player with the scoreboard fields computed anew.
    pub open spec fn refreshed(self) -> Player {
        Player {
            total_asset_value: self.assets.total_value() as i64,
            total_income: self.assets.total_income() as i64,
            total_expenses: self.assets.total_cost() as i64,
            net_worth: (self.cash - self.debt + self.assets.total_value()
                + self.total_ridge_value) as i64,
            ..self
        }
    }

    /// The factor on the harvest of `crop` for this circuit of the board; one
    /// where none was set.
    pub open spec fn spec_crop_multiplier(&self, crop: AssetType) -> Multiplier {
        match self.crop_yield_multipliers.spec_get(crop) {
            Some(m) => m,
            None => Multiplier::spec_one(),
        }
    }

    /// Whether the harvest `harvest_type` of the section that starts at
    /// `section_start` is marked as done.
    pub open spec fn harvested(&self, harvest_type: HarvestType, section_start: usize) -> bool {
        self.completed_harvests@.contains((harvest_type, section_start))
    }

    /// A player at the start of the game.
    pub fn new(id: usize, name: String, player_type: PlayerType) -> (p: Self)
        ensures
            p.id == id,
            p.name == name,
            p.player_type == player_type,
            p.cash == STARTING_CASH,
            p.debt == STARTING_DEBT,
            p.land == STARTING_LAND,
            p.is_active,
            p.position == STARTING_POSITION,
            p.year == STARTING_YEAR,
            p.eligible_for_side_job_pay,
            p.crop_yield_multipliers == AssetTable::<Multiplier>::spec_empty(),
            p.assets == AssetTable::<AssetRecord>::spec_empty(),
            p.history@ == Seq::<PlayerEvent>::empty(),
            p.completed_harvests@ == Seq::<(HarvestType, usize)>::empty(),
            p.persistent_effects@ == Seq::<PersistentEffect>::empty(),
            p.hand@ == Seq::<Card>::empty(),
            p.active_persistent_cards@ == Seq::<(Card, u32)>::empty(),
            p.net_worth == 0,
            p.total_asset_value == 0,
            p.total_ridge_value == 0,
            p.total_income == 0,
            p.total_expenses == 0,
            p.turns_taken == 0,
    {
        Player {
            id,
            name,
            player_type,
            cash: STARTING_CASH,
            debt: STARTING_DEBT,
            land: STARTING_LAND,
            is_active: true,
            position: STARTING_POSITION,
            year: STARTING_YEAR,
            eligible_for_side_job_pay: true,
            crop_yield_multipliers: AssetTable::new(),
            assets: AssetTable::new(),
            history: Vec::new(),
            completed_harvests: Vec::new(),
            persistent_effects: Vec::new(),
            hand: Vec::new(),
            active_persistent_cards: Vec::new(),
            net_worth: 0,
            total_asset_value: 0,
            total_ridge_value: 0,
            total_income: 0,
            total_expenses: 0,
            turns_taken: 0,
        }
    }

    /// Forgets every crop factor: each harvest is again taken as it comes.
    pub fn reset_crop_multipliers(&mut self)
        ensures
            *final(self) == (Player {
                crop_yield_multipliers: AssetTable::<Multiplier>::spec_empty(),
                ..*old(self)
            }),
            forall|crop: AssetType| final(self).spec_crop_multiplier(crop) == Multiplier::spec_one(),
            old(self).net_worth_identity() ==> final(self).net_worth_identity(),
    {
        self.crop_yield_multipliers.clear();
    }

    /// Sets the factor on the harvest of `crop`.
    pub fn set_crop_multiplier(&mut self, crop: AssetType, multiplier: Multiplier)
        ensures
            *final(self) == (Player {
                crop_yield_multipliers: old(self).crop_yield_multipliers.with(crop, Some(multiplier)),
                ..*old(self)
            }),
            final(self).spec_crop_multiplier(crop) == multiplier,
            old(self).net_worth_identity() ==> final(self).net_worth_identity(),
    {
        self.crop_yield_multipliers.insert(crop, multiplier);
    }

    /// The factor on the harvest of `crop`; one where none was set.
    pub fn get_crop_multiplier(&self, crop: &AssetType) -> (m: Multiplier)
        ensures
            m == self.spec_crop_multiplier(*crop),
    {
        match self.crop_yield_multipliers.get(crop) {
            Some(m) => *m,
            None => Multiplier::one(),
        }
    }

    /// The record of `asset` after `quantity` units were added at `cost`.
    pub open spec fn record_after_adding(&self, asset: AssetType, quantity: int, cost: int) -> (
        int,
        int,
        int,
    ) {
        (
            self.assets.quantity(asset) + quantity,
            self.assets.cost_of(asset) + cost,
            self.assets.income_of(asset),
        )
    }

    /// Whether `quantity` units of `asset` at `cost` can be added without
    /// leaving the range of the record's integers.
    pub open spec fn spec_can_add_asset(&self, asset: AssetType, quantity: i32, cost: i32) -> bool {
        fits_i32(self.assets.quantity(asset) + quantity) && fits_i32(
            self.assets.cost_of(asset) + cost,
        )
    }

    /// Whether `quantity` units of `asset` at `cost` can be added without
    /// leaving the range of the record's integers.
    #[verifier::when_used_as_spec(spec_can_add_asset)]
    pub fn can_add_asset(&self, asset: AssetType, quantity: i32, cost: i32) -> (b: bool)
        ensures
            b == self.spec_can_add_asset(asset, quantity, cost),
    {
        let (q0, c0): (i64, i64) = match self.assets.get(&asset) {
            Some(r) => (r.quantity as i64, r.total_cost as i64),
            None => (0, 0),
        };
        let q: i64 = q0 + quantity as i64;
        let c: i64 = c0 + cost as i64;
        i32::MIN as i64 <= q && q <= i32::MAX as i64 && i32::MIN as i64 <= c && c <= i32::MAX as i64
    }

    /// The player after `quantity` units of `asset` were added at `cost`,
    /// the scoreboard not yet computed anew.
    pub open spec fn with_asset_added(self, asset: AssetType, quantity: i32, cost: i32) -> Player {
        Player {
            assets: self.assets.with(
                asset,
                Some(
                    AssetRecord {
                        quantity: (self.assets.quantity(asset) + quantity) as i32,
                        total_cost: (self.assets.cost_of(asset) + cost) as i32,
                        total_income: self.assets.income_of(asset) as i32,
                    },
                ),
            ),
            ..self
        }
    }

    /// Adds `quantity` units of `asset`, bought for `cost` in all, and leaves
    /// the scoreboard as it is.
    pub fn put_asset(&mut self, asset: AssetType, quantity: i32, cost: i32)
        requires
            old(self).spec_can_add_asset(asset, quantity, cost),
        ensures
            *final(self) == old(self).with_asset_added(asset, quantity, cost),
            old(self).net_worth_identity() ==> final(self).net_worth_identity(),
    {
        let base: AssetRecord = match self.assets.get(&asset) {
            Some(r) => *r,
            None => AssetRecord { quantity: 0, total_cost: 0, total_income: 0 },
        };
        let record = AssetRecord {
            quantity: base.quantity + quantity,
            total_cost: base.total_cost + cost,
            total_income: base.total_income,
        };
        self.assets.insert(asset, record);
    }

    /// Adds `quantity` units of `asset`, bought for `cost` in all, and
    /// computes the scoreboard anew.
    pub fn add_asset(&mut self, asset: AssetType, quantity: i32, cost: i32)
        requires
            old(self).spec_can_add_asset(asset, quantity, cost),
        ensures
            *final(self) == old(self).with_asset_added(asset, quantity, cost).refreshed(),
            final(self).assets.quantity(asset) == old(self).assets.quantity(asset) + quantity,
            final(self).assets.cost_of(asset) == old(self).assets.cost_of(asset) + cost,
            final(self).assets.income_of(asset) == old(self).assets.income_of(asset),
            final(self).assets.has(asset),
            forall|k: AssetType|
                k != asset ==> final(self).assets.spec_get(k) == old(self).assets.spec_get(k),
            final(self).scoreboard_is_current(),
    {
        self.put_asset(asset, quantity, cost);
        self.update_scoreboard();
    }

    /// How many units a sale of `quantity` takes from a record of `held`.
    pub open spec fn units_sold(held: int, quantity: int) -> int {
        if quantity < held {
            quantity
        } else {
            held
        }
    }

    /// Whether a sale of `quantity` units of `asset` at `price` each stays in
    /// the range of the record's integers. A sale of what is not held changes
    /// nothing, and so always does.
    pub open spec fn spec_can_sell_asset(&self, asset: AssetType, quantity: i32, price: i32) -> bool {
        match self.assets.spec_get(asset) {
            Some(r) => fits_i32(r.quantity - Self::units_sold(r.quantity as int, quantity as int))
                && fits_i32(
                r.total_income + price * Self::units_sold(r.quantity as int, quantity as int),
            ),
            None => true,
        }
    }

    /// Whether a sale of `quantity` units of `asset` at `price` each stays in
    /// the range of the record's integers.
    #[verifier::when_used_as_spec(spec_can_sell_asset)]
    pub fn can_sell_asset(&self, asset: AssetType, quantity: i32, price: i32) -> (b: bool)
        ensures
            b == self.spec_can_sell_asset(asset, quantity, price),
    {
        match self.assets.get(&asset) {
            Some(r) => {
                let sold: i64 = if quantity < r.quantity {
                    quantity as i64
                } else {
                    r.quantity as i64
                };
                let left: i64 = r.quantity as i64 - sold;
                assert(-0x8000_0000 * 0x8000_0000 <= (price as int) * sold <= 0x8000_0000
                    * 0x8000_0000) by (nonlinear_arith)
                    requires
                        -0x8000_0000 <= price <= 0x8000_0000,
                        -0x8000_0000 <= sold <= 0x8000_0000,
                ;
                let income: i64 = r.total_income as i64 + (price as i64) * sold;
                i32::MIN as i64 <= left && left <= i32::MAX as i64 && i32::MIN as i64 <= income
                    && income <= i32::MAX as i64
            },
            None => true,
        }
    }

    /// The player after a sale of `quantity` units of `asset` at `price`
    /// each, the scoreboard not yet computed anew: the record loses what was
    /// sold, gains the proceeds as income, and leaves the ledger when nothing
    /// of it is left.
    pub open spec fn with_asset_sold(self, asset: AssetType, quantity: i32, price: i32) -> Player {
        match self.assets.spec_get(asset) {
            Some(r) => {
                let sold = Self::units_sold(r.quantity as int, quantity as int);
                if r.quantity - sold == 0 {
                    Player { assets: self.assets.with(asset, None), ..self }
                } else {
                    Player {
                        assets: self.assets.with(
                            asset,
                            Some(
                                AssetRecord {
                                    quantity: (r.quantity - sold) as i32,
                                    total_cost: r.total_cost,
                                    total_income: (r.total_income + price * sold) as i32,
                                },
                            ),
                        ),
                        ..self
                    }
                }
            },
            None => self,
        }
    }

    /// Sells up to `quantity` units of `asset` at `price` each and computes
    /// the scoreboard anew.
    pub fn sell_asset(&mut self, asset: AssetType, quantity: i32, price: i32)
        requires
            old(self).spec_can_sell_asset(asset, quantity, price),
        ensures
            *final(self) == old(self).with_asset_sold(asset, quantity, price).refreshed(),
            final(self).scoreboard_is_current(),
    {
        let held: Option<AssetRecord> = match self.assets.get(&asset) {
            Some(r) => Some(*r),
            None => None,
        };
        match held {
            Some(r) => {
                let sold: i64 = if quantity < r.quantity {
                    quantity as i64
                } else {
                    r.quantity as i64
                };
                let left: i64 = r.quantity as i64 - sold;
                assert(-0x8000_0000 * 0x8000_0000 <= (price as int) * sold <= 0x8000_0000
                    * 0x8000_0000) by (nonlinear_arith)
                    requires
                        -0x8000_0000 <= price <= 0x8000_0000,
                        -0x8000_0000 <= sold <= 0x8000_0000,
                ;
                let income: i64 = r.total_income as i64 + (price as i64) * sold;
                if left == 0 {
                    self.assets.remove(&asset);
                } else {
                    self.assets.insert(
                        asset,
                        AssetRecord {
                            quantity: left as i32,
                            total_cost: r.total_cost,
                            total_income: income as i32,
                        },
                    );
                }
            },
            None => {},
        }
        self.update_scoreboard();
    }

    /// Adds an entry to the history.
    pub fn record_event(&mut self, description: String, ai_reasoning: Option<String>)
        ensures
            final(self).history@ == old(self).history@.push(
                PlayerEvent { description, ai_reasoning },
            ),
            *final(self) == (Player { history: final(self).history, ..*old(self) }),
            old(self).net_worth_identity() ==> final(self).net_worth_identity(),
    {
        self.history.push(PlayerEvent { description, ai_reasoning });
    }

    /// Whether the harvest `harvest_type` of the section that starts at
    /// `section_start` is marked as done.
    pub fn has_harvested_in_section(&self, harvest_type: HarvestType, section_start: usize) -> (b:
        bool)
        ensures
            b == self.harvested(harvest_type, section_start),
    {
        let mut i: usize = 0;
        while i < self.completed_harvests.len()
            invariant
                i <= self.completed_harvests.len(),
                forall|j: int|
                    0 <= j < i ==> self.completed_harvests@[j] != (harvest_type, section_start),
            decreases self.completed_harvests.len() - i,
        {
            if self.completed_harvests[i].0 == harvest_type && self.completed_harvests[i].1
                == section_start {
                return true;
            }
            i += 1;
        }
        false
    }

    /// Marks the harvest `harvest_type` of the section that starts at
    /// `section_start` as done. No mark is kept twice.
    pub fn mark_harvest_completed(&mut self, harvest_type: HarvestType, section_start: usize)
        ensures
            final(self).completed_harvests@ == if old(self).harvested(harvest_type, section_start) {
                old(self).completed_harvests@
            } else {
                old(self).completed_harvests@.push((harvest_type, section_start))
            },
            final(self).harvested(harvest_type, section_start),
            forall|h: HarvestType, s: usize|
                old(self).harvested(h, s) ==> final(self).harvested(h, s),
            forall|h: HarvestType, s: usize|
                final(self).harvested(h, s) ==> old(self).harvested(h, s) || (h == harvest_type
                    && s == section_start),
            *final(self) == (Player {
                completed_harvests: final(self).completed_harvests,
                ..*old(self)
            }),
            old(self).net_worth_identity() ==> final(self).net_worth_identity(),
    {
        if !self.has_harvested_in_section(harvest_type, section_start) {
            self.completed_harvests.push((harvest_type, section_start));
            proof {
                let before = old(self).completed_harvests@;
                let after = self.completed_harvests@;
                assert(after[before.len() as int] == (harvest_type, section_start));
                assert forall|h: HarvestType, s: usize| before.contains((h, s)) implies after.contains(
                    (h, s),
                ) by {
                    let j = choose|j: int| 0 <= j < before.len() && before[j] == (h, s);
                    assert(after[j] == (h, s));
                }
            }
        }
    }

    /// Adds an effect that lasts `years` years.
    pub fn add_persistent_effect(&mut self, effect_type: EffectType, years: u32)
        ensures
            final(self).persistent_effects@ == old(self).persistent_effects@.push(
                PersistentEffect { effect_type, years_remaining: years },
            ),
            *final(self) == (Player {
                persistent_effects: final(self).persistent_effects,
                ..*old(self)
            }),
            old(self).net_worth_identity() ==> final(self).net_worth_identity(),
    {
        self.persistent_effects.push(PersistentEffect { effect_type, years_remaining: years });
    }

    /// The factor on livestock harvests: the product of the factors of all
    /// effects, one where there is none.
    pub fn get_livestock_harvest_multiplier(&self) -> (m: Multiplier)
        ensures
            m == livestock_product(self.persistent_effects@),
    {
        let mut m = Multiplier::one();
        let mut i: usize = 0;
        while i < self.persistent_effects.len()
            invariant
                i <= self.persistent_effects.len(),
                m == livestock_product(self.persistent_effects@.take(i as int)),
            decreases self.persistent_effects.len() - i,
        {
            proof {
                let next = self.persistent_effects@.take(i + 1);
                assert(next.drop_last() =~= self.persistent_effects@.take(i as int));
                assert(next.last() == self.persistent_effects@[i as int]);
            }
            m = m.combine(self.persistent_effects[i].effect_type.bonus());
            i += 1;
        }
        assert(self.persistent_effects@.take(i as int) =~= self.persistent_effects@);
        m
    }

    /// Whether the year can advance: it does unless the year's counter is
    /// at the end of its range.
    pub open spec fn spec_can_advance_year(&self) -> bool {
        self.year < u32::MAX
    }

    /// Starts the next year: the year's number grows by one, and every
    /// effect has one year less to run or runs out.
    pub fn advance_year(&mut self)
        requires
            old(self).spec_can_advance_year(),
        ensures
            final(self).year == old(self).year + 1,
            final(self).persistent_effects@ == aged_effects(old(self).persistent_effects@),
            *final(self) == (Player {
                year: final(self).year,
                persistent_effects: final(self).persistent_effects,
                ..*old(self)
            }),
            old(self).net_worth_identity() ==> final(self).net_worth_identity(),
    {
        self.year += 1;
        let mut kept: Vec<PersistentEffect> = Vec::new();
        let mut i: usize = 0;
        while i < self.persistent_effects.len()
            invariant
                i <= self.persistent_effects.len(),
                kept@ == aged_effects(self.persistent_effects@.take(i as int)),
            decreases self.persistent_effects.len() - i,
        {
            proof {
                let next = self.persistent_effects@.take(i + 1);
                assert(next.drop_last() =~= self.persistent_effects@.take(i as int));
                assert(next.last() == self.persistent_effects@[i as int]);
            }
            let e = self.persistent_effects[i];
            if e.years_remaining > 1 {
                kept.push(
                    PersistentEffect {
                        effect_type: e.effect_type,
                        years_remaining: e.years_remaining - 1,
                    },
                );
            }
            i += 1;
        }
        assert(self.persistent_effects@.take(i as int) =~= self.persistent_effects@);
        self.persistent_effects = kept;
    }

    /// Whether an effect of type `effect_type` is running.
    pub fn has_active_effect(&self, effect_type: &EffectType) -> (b: bool)
        ensures
            b == has_effect(self.persistent_effects@, *effect_type),
    {
        let mut i: usize = 0;
        while i < self.persistent_effects.len()
            invariant
                i <= self.persistent_effects.len(),
                forall|j: int| 0 <= j < i ==> self.persistent_effects@[j].effect_type != *effect_type,
            decreases self.persistent_effects.len() - i,
        {
            if self.persistent_effects[i].effect_type == *effect_type {
                return true;
            }
            i += 1;
        }
        false
    }

    /// Keeps `card` for `years` years.
    pub fn add_persistent_card(&mut self, card: Card, years: u32)
        ensures
            final(self).active_persistent_cards@ == old(self).active_persistent_cards@.push(
                (card, years),
            ),
            *final(self) == (Player {
                active_persistent_cards: final(self).active_persistent_cards,
                ..*old(self)
            }),
            old(self).net_worth_identity() ==> final(self).net_worth_identity(),
    {
        self.active_persistent_cards.push((card, years));
    }

    /// Lets a year pass for the kept cards: each has one year less to stay,
    /// and those that run out go to `farmers_fate_discard`, in their order.
    pub fn update_persistent_cards(&mut self, farmers_fate_discard: &mut Vec<Card>)
        ensures
            final(self).active_persistent_cards@ == kept_cards(old(self).active_persistent_cards@),
            final(farmers_fate_discard)@ == old(farmers_fate_discard)@ + expired_cards(
                old(self).active_persistent_cards@,
            ),
            *final(self) == (Player {
                active_persistent_cards: final(self).active_persistent_cards,
                ..*old(self)
            }),
            old(self).net_worth_identity() ==> final(self).net_worth_identity(),
    {
        let mut kept: Vec<(Card, u32)> = Vec::new();
        let mut i: usize = 0;
        while i < self.active_persistent_cards.len()
            invariant
                i <= self.active_persistent_cards.len(),
                *self == *old(self),
                kept@ == kept_cards(self.active_persistent_cards@.take(i as int)),
                farmers_fate_discard@ == old(farmers_fate_discard)@ + expired_cards(
                    self.active_persistent_cards@.take(i as int),
                ),
            decreases self.active_persistent_cards.len() - i,
        {
            proof {
                let next = self.active_persistent_cards@.take(i + 1);
                assert(next.drop_last() =~= self.active_persistent_cards@.take(i as int));
                assert(next.last() == self.active_persistent_cards@[i as int]);
            }
            let card = self.active_persistent_cards[i].0.clone();
            let years = self.active_persistent_cards[i].1;
            if years > 1 {
                kept.push((card, years - 1));
            } else {
                farmers_fate_discard.push(card);
                assert(farmers_fate_discard@ =~= old(farmers_fate_discard)@ + expired_cards(
                    self.active_persistent_cards@.take(i + 1),
                ));
            }
            i += 1;
        }
        assert(self.active_persistent_cards@.take(i as int) =~= self.active_persistent_cards@);
        self.active_persistent_cards = kept;
    }

    /// Computes the scoreboard anew: the value, cost and income of the
    /// holdings, and the net worth as cash less debt plus the value of the
    /// holdings and of the ridges.
    pub fn update_scoreboard(&mut self)
        ensures
            *final(self) == old(self).refreshed(),
            final(self).scoreboard_is_current(),
            final(self).net_worth_identity(),
    {
        let value: i64 = self.assets.sum_value();
        self.total_asset_value = value;
        self.total_income = self.assets.sum_income();
        self.total_expenses = self.assets.sum_cost();
        self.net_worth = self.cash as i64 - self.debt as i64 + value + self.total_ridge_value as i64;
    }

    /// Whether `amount` can be added to the income of `asset` without
    /// leaving the range of `i32`. Income on what is not held changes
    /// nothing, and so always can.
    pub open spec fn spec_can_add_income(&self, asset_type: AssetType, amount: i32) -> bool {
        self.assets.has(asset_type) ==> fits_i32(self.assets.income_of(asset_type) + amount)
    }

    /// Whether `amount` can be added to the income of `asset`.
    #[verifier::when_used_as_spec(spec_can_add_income)]
    pub fn can_add_income(&self, asset_type: AssetType, amount: i32) -> (b: bool)
        ensures
            b == self.spec_can_add_income(asset_type, amount),
    {
        match self.assets.get(&asset_type) {
            Some(r) => {
                let total: i64 = r.total_income as i64 + amount as i64;
                i32::MIN as i64 <= total && total <= i32::MAX as i64
            },
            None => true,
        }
    }

    /// The player after `amount` was booked as income of `asset_type`, the
    /// scoreboard not yet computed anew; unchanged where the asset is not
    /// held.
    pub open spec fn with_income_added(self, asset_type: AssetType, amount: i32) -> Player {
        match self.assets.spec_get(asset_type) {
            Some(r) => Player {
                assets: self.assets.with(
                    asset_type,
                    Some(
                        AssetRecord { total_income: (r.total_income + amount) as i32, ..r },
                    ),
                ),
                ..self
            },
            None => self,
        }
    }

    /// Books `amount` as income of `asset_type` and computes the scoreboard
    /// anew; does nothing where the asset is not held.
    pub fn add_income(&mut self, asset_type: AssetType, amount: i32)
        requires
            old(self).spec_can_add_income(asset_type, amount),
        ensures
            *final(self) == if old(self).assets.has(asset_type) {
                old(self).with_income_added(asset_type, amount).refreshed()
            } else {
                *old(self)
            },
            old(self).net_worth_identity() ==> final(self).net_worth_identity(),
    {
        let held: Option<AssetRecord> = match self.assets.get(&asset_type) {
            Some(r) => Some(*r),
            None => None,
        };
        match held {
            Some(r) => {
                self.assets.insert(
                    asset_type,
                    AssetRecord { total_income: r.total_income + amount, ..r },
                );
                self.update_scoreboard();
            },
            None => {},
        }
    }

    /// Sets the value of the ridges that the player leases and computes the
    /// scoreboard anew.
    pub fn set_ridge_value(&mut self, value: i32)
        ensures
            *final(self) == (Player { total_ridge_value: value, ..*old(self) }).refreshed(),
            final(self).scoreboard_is_current(),
    {
        self.total_ridge_value = value;
        self.update_scoreboard();
    }

    /// Lets a year go by without play: only the year's number grows.
    pub fn _skip_year(&mut self)
        requires
            old(self).spec_can_advance_year(),
        ensures
            *final(self) == (Player { year: (old(self).year + 1) as u32, ..*old(self) }),
            old(self).net_worth_identity() ==> final(self).net_worth_identity(),
    {
        self.year += 1;
    }

    /// The player after a factor was put on the next harvest of `asset`.
    /// Only crops take one. A factor below one also reduces what the asset
    /// has brought in so far, where that is more than nothing.
    pub open spec fn with_one_time_multiplier(self, asset: AssetType, multiplier: Multiplier) -> Player {
        if !asset.spec_is_crop() {
            self
        } else {
            let marked = Player {
                crop_yield_multipliers: self.crop_yield_multipliers.with(asset, Some(multiplier)),
                ..self
            };
            match self.assets.spec_get(asset) {
                Some(r) => if multiplier.percent < 100 && r.total_income > 0 {
                    Player {
                        assets: self.assets.with(
                            asset,
                            Some(
                                AssetRecord {
                                    total_income: multiplier.scaled(r.total_income as int) as i32,
                                    ..r
                                },
                            ),
                        ),
                        ..marked
                    }
                } else {
                    marked
                },
                None => marked,
            }
        }
    }

    /// Puts a factor on the next harvest of `asset`.
    pub fn _set_one_time_harvest_multiplier(&mut self, asset: AssetType, multiplier: Multiplier)
        ensures
            *final(self) == old(self).with_one_time_multiplier(asset, multiplier),
            old(self).net_worth_identity() ==> final(self).net_worth_identity(),
    {
        if asset.is_crop() {
            self.set_crop_multiplier(asset, multiplier);
            if multiplier.is_below_one() {
                let held: Option<AssetRecord> = match self.assets.get(&asset) {
                    Some(r) => Some(*r),
                    None => None,
                };
                match held {
                    Some(r) => {
                        if r.total_income > 0 {
                            self.assets.insert(
                                asset,
                                AssetRecord { total_income: multiplier.apply(r.total_income), ..r },
                            );
                        }
                    },
                    None => {},
                }
            }
        }
    }

    /// Forgets every crop factor.
    pub fn _clear_one_time_multipliers(&mut self)
        ensures
            *final(self) == (Player {
                crop_yield_multipliers: AssetTable::<Multiplier>::spec_empty(),
                ..*old(self)
            }),
    {
        self.reset_crop_multipliers();
    }
}

} // verus!
