//! Harvests: the expense card that a harvest draws, the yield that the die
//! picks from the table, and the factors on it.

use crate::cards::card::Card;
use crate::cards::deck::Deck;
use crate::chance::{fresh_generator, random_between};
use crate::error::{DeckKind, GameError};
use crate::game::loan::{interest_due, interest_on};
use crate::log::LogEntry;
use crate::models::asset::{AssetTable, AssetType};
use crate::models::board::HarvestType;
use crate::models::effects::GameEffect;
use crate::models::multiplier::{apply_both, scaled_by_both, Multiplier};
use crate::models::player::{fits_i32, livestock_product, Player};
use rand::rngs::StdRng;
use vstd::prelude::*;

verus! {

/// The four yield tables.
#[derive(Debug, Clone, Copy, PartialEq, Eq, Structural)]
pub enum YieldTable {
    Hay,
    Fruit,
    Grain,
    Livestock,
}

impl YieldTable {
    /// What the first block yields on a roll, which is also what every
    /// further block adds. Rolls run from 0 to 5; a higher roll counts as a 5.
    pub open spec fn spec_per_block(self, roll: int) -> int {
        match self {
            YieldTable::Hay => if roll == 0 {
                400
            } else if roll == 1 {
                600
            } else if roll == 2 {
                1000
            } else if roll == 3 {
                1500
            } else if roll == 4 {
                2200
            } else {
                3000
            },
            YieldTable::Fruit => if roll == 0 {
                2000
            } else if roll == 1 {
                3500
            } else if roll == 2 {
                6000
            } else if roll == 3 {
                9000
            } else if roll == 4 {
                13000
            } else {
                17500
            },
            YieldTable::Grain => if roll == 0 {
                800
            } else if roll == 1 {
                1500
            } else if roll == 2 {
                2500
            } else if roll == 3 {
                3800
            } else if roll == 4 {
                5300
            } else {
                7000
            },
            YieldTable::Livestock => if roll == 0 {
                1400
            } else if roll == 1 {
                2000
            } else if roll == 2 {
                2800
            } else if roll == 3 {
                3800
            } else if roll == 4 {
                5000
            } else {
                7500
            },
        }
    }

    /// What the first block yields on a roll, which is also what every
    /// further block adds.
    pub fn per_block(self, roll: u8) -> (v: i32)
        ensures
            v == self.spec_per_block(roll as int),
            400 <= v <= 17500,
    {
        match self {
            YieldTable::Hay => if roll == 0 {
                400
            } else if roll == 1 {
                600
            } else if roll == 2 {
                1000
            } else if roll == 3 {
                1500
            } else if roll == 4 {
                2200
            } else {
                3000
            },
            YieldTable::Fruit => if roll == 0 {
                2000
            } else if roll == 1 {
                3500
            } else if roll == 2 {
                6000
            } else if roll == 3 {
                9000
            } else if roll == 4 {
                13000
            } else {
                17500
            },
            YieldTable::Grain => if roll == 0 {
                800
            } else if roll == 1 {
                1500
            } else if roll == 2 {
                2500
            } else if roll == 3 {
                3800
            } else if roll == 4 {
                5300
            } else {
                7000
            },
            YieldTable::Livestock => if roll == 0 {
                1400
            } else if roll == 1 {
                2000
            } else if roll == 2 {
                2800
            } else if roll == 3 {
                3800
            } else if roll == 4 {
                5000
            } else {
                7500
            },
        }
    }
}

/// The table that a harvest is paid from.
pub open spec fn table_for(asset: AssetType) -> YieldTable {
    match asset {
        AssetType::Hay => YieldTable::Hay,
        AssetType::Fruit => YieldTable::Fruit,
        AssetType::Cows => YieldTable::Livestock,
        _ => YieldTable::Grain,
    }
}

/// How many units of an asset make a block; none for what bears no harvest.
pub open spec fn units_per_block(asset: AssetType) -> Option<int> {
    match asset {
        AssetType::Hay | AssetType::Grain | AssetType::Cows => Some(10),
        AssetType::Fruit => Some(5),
        _ => None,
    }
}

/// The quotient of `a` by a positive `b`, rounded toward zero.
pub open spec fn quotient_toward_zero(a: int, b: int) -> int
    recommends
        b > 0,
{
    if a >= 0 {
        a / b
    } else {
        -((-a) / b)
    }
}

/// The yield of the table before any factor: what a block yields on the
/// roll, once for each whole block held.
pub open spec fn table_income(table: YieldTable, blocks: int, roll: int) -> int {
    table.spec_per_block(roll) + table.spec_per_block(roll) * (blocks - 1)
}

/// The factor that the player's lasting effects put on a harvest of `asset`:
/// their product for cows, one for all else.
pub open spec fn livestock_factor(p: Player, asset: AssetType) -> Multiplier {
    if asset == AssetType::Cows {
        livestock_product(p.persistent_effects@)
    } else {
        Multiplier::spec_one()
    }
}

/// What a harvest of `asset` brings on a roll, after an expense of
/// `expense`: the net income, the entries logged, and the result.
///
/// Nothing is harvested of what is not held, or of less than a block. The
/// yield of the table is multiplied by the crop's factor and, for cows, by
/// the factor of the lasting effects, and rounded once; the expense is then
/// taken off.
pub open spec fn income_outcome(
    p: Player,
    asset: AssetType,
    table: YieldTable,
    harvest_type: HarvestType,
    expense: i32,
    roll: u8,
) -> (int, Seq<LogEntry>, Result<(), GameError>) {
    let quantity = p.assets.quantity(asset);
    if quantity == 0 {
        (0, seq![LogEntry::NothingToHarvest { asset }], Ok(()))
    } else {
        match units_per_block(asset) {
            None => (0, Seq::empty(), Err(GameError::UnsupportedHarvestAsset)),
            Some(units) => {
                let blocks = quotient_toward_zero(quantity, units);
                if blocks == 0 {
                    (
                        0,
                        seq![LogEntry::NotEnoughToHarvest { asset, needed: units as i32 }],
                        Ok(()),
                    )
                } else {
                    let income = table_income(table, blocks, roll as int);
                    let crop = p.spec_crop_multiplier(asset);
                    let livestock = livestock_factor(p, asset);
                    let gross = scaled_by_both(income, crop, livestock);
                    if !fits_i32(income) || !fits_i32(gross - expense) {
                        (0, Seq::empty(), Err(GameError::AmountOutOfRange))
                    } else {
                        (
                            gross - expense,
                            seq![
                                LogEntry::HarvestLine {
                                    harvest: harvest_type,
                                    roll: (roll + 1) as u8,
                                    base: table.spec_per_block(roll as int) as i32,
                                    quantity: quantity as i32,
                                    asset,
                                    income: income as i32,
                                    crop,
                                    livestock,
                                    gross: gross as i32,
                                    expense,
                                    net: (gross - expense) as i32,
                                },
                            ],
                            Ok(()),
                        )
                    }
                }
            },
        }
    }
}

/// What an expense card costs the player at harvest, and the entry that
/// says so: a fixed amount, an amount for each unit held, a tenth of the
/// debt, or nothing.
pub open spec fn expense_outcome(p: Player, card: Card) -> (int, LogEntry) {
    match card.effect {
        GameEffect::Expense(amount) => (
            amount as int,
            LogEntry::OpCostFlat { title: card.title, amount },
        ),
        GameEffect::ExpensePerAsset { asset, rate } => (
            p.assets.quantity(asset) * rate,
            LogEntry::OpCostPerAsset {
                title: card.title,
                rate,
                count: p.assets.quantity(asset) as i32,
                asset,
                total: (p.assets.quantity(asset) * rate) as i32,
            },
        ),
        GameEffect::PayInterest => if interest_on(p.debt as int) > 0 {
            (
                interest_on(p.debt as int),
                LogEntry::OpCostInterest {
                    title: card.title,
                    debt: p.debt,
                    interest: interest_on(p.debt as int) as i32,
                },
            )
        } else {
            (0, LogEntry::OpCostNoInterest { title: card.title })
        },
        _ => (0, LogEntry::OpCostNothing { title: card.title }),
    }
}

/// What a harvest comes to once its expense card and its roll are known:
/// the net income, the expense, the entries logged, and the result.
pub open spec fn harvest_outcome(p: Player, harvest_type: HarvestType, card: Card, roll: u8) -> (
    int,
    int,
    Seq<LogEntry>,
    Result<(), GameError>,
)
    recommends
        harvest_type.spec_required_asset().is_some(),
{
    let asset = harvest_type.spec_required_asset().unwrap();
    let expense = expense_outcome(p, card).0;
    if !fits_i32(expense) {
        (0, 0, Seq::empty(), Err(GameError::AmountOutOfRange))
    } else {
        let income = income_outcome(
            p,
            asset,
            table_for(asset),
            harvest_type,
            expense as i32,
            roll,
        );
        (income.0, expense, seq![expense_outcome(p, card).1] + income.1, income.2)
    }
}

/// The harvest's expense for the player, where it fits an `i32`.
pub fn harvest_expense(player: &Player, card: &Card) -> (r: Option<(i32, LogEntry)>)
    ensures
        match r {
            Some(e) => fits_i32(expense_outcome(*player, *card).0) && e.0 == expense_outcome(
                *player,
                *card,
            ).0 && e.1 == expense_outcome(*player, *card).1,
            None => !fits_i32(expense_outcome(*player, *card).0),
        },
{
    match &card.effect {
        GameEffect::Expense(amount) => Some(
            (*amount, LogEntry::OpCostFlat { title: card.title.clone(), amount: *amount }),
        ),
        GameEffect::ExpensePerAsset { asset, rate } => {
            let count: i32 = player.assets.quantity_of(asset);
            assert(-0x8000_0000 * 0x8000_0000 <= (count as int) * (*rate as int) <= 0x8000_0000
                * 0x8000_0000) by (nonlinear_arith)
                requires
                    -0x8000_0000 <= count <= 0x8000_0000,
                    -0x8000_0000 <= *rate <= 0x8000_0000,
            ;
            let total: i64 = (count as i64) * (*rate as i64);
            if total > i32::MAX as i64 || total < i32::MIN as i64 {
                None
            } else {
                Some(
                    (
                        total as i32,
                        LogEntry::OpCostPerAsset {
                            title: card.title.clone(),
                            rate: *rate,
                            count,
                            asset: *asset,
                            total: total as i32,
                        },
                    ),
                )
            }
        },
        GameEffect::PayInterest => {
            let interest: i32 = interest_due(player.debt);
            if interest > 0 {
                Some(
                    (
                        interest,
                        LogEntry::OpCostInterest {
                            title: card.title.clone(),
                            debt: player.debt,
                            interest,
                        },
                    ),
                )
            } else {
                Some((0, LogEntry::OpCostNoInterest { title: card.title.clone() }))
            }
        },
        _ => Some((0, LogEntry::OpCostNothing { title: card.title.clone() })),
    }
}

/// The net income of a harvest of `asset` from `table` on the roll `roll`,
/// with the entries that account for it.
pub fn harvest_income(
    player: &Player,
    asset: AssetType,
    table: YieldTable,
    harvest_type: &HarvestType,
    expense: i32,
    roll: u8,
) -> (r: Result<(i32, Vec<LogEntry>), GameError>)
    requires
        roll < 6,
    ensures
        match income_outcome(*player, asset, table, *harvest_type, expense, roll).2 {
            Ok(()) => r.is_ok() && r.unwrap().0 == income_outcome(
                *player,
                asset,
                table,
                *harvest_type,
                expense,
                roll,
            ).0 && r.unwrap().1@ =~= income_outcome(
                *player,
                asset,
                table,
                *harvest_type,
                expense,
                roll,
            ).1,
            Err(e) => r.is_err() && r.unwrap_err() == e,
        },
{
    let mut logs: Vec<LogEntry> = Vec::new();
    let quantity: i32 = player.assets.quantity_of(&asset);
    if quantity == 0 {
        logs.push(LogEntry::NothingToHarvest { asset });
        return Ok((0, logs));
    }
    let units: i32 = match asset {
        AssetType::Hay | AssetType::Grain | AssetType::Cows => 10,
        AssetType::Fruit => 5,
        _ => {
            return Err(GameError::UnsupportedHarvestAsset);
        },
    };
    let blocks: i64 = if quantity >= 0 {
        (quantity / units) as i64
    } else {
        -(((-(quantity as i64)) / (units as i64)))
    };
    if blocks == 0 {
        logs.push(LogEntry::NotEnoughToHarvest { asset, needed: units });
        return Ok((0, logs));
    }
    let base: i32 = table.per_block(roll);
    assert(-17500 * 0x8000_0000 <= (base as int) * (blocks - 1) <= 17500 * 0x8000_0000)
        by (nonlinear_arith)
        requires
            0 <= base <= 17500,
            -0x8000_0000 <= blocks - 1 <= 0x8000_0000,
    ;
    let income: i64 = base as i64 + (base as i64) * (blocks - 1);
    if income > i32::MAX as i64 || income < i32::MIN as i64 {
        return Err(GameError::AmountOutOfRange);
    }
    let crop = player.get_crop_multiplier(&asset);
    let livestock = if asset == AssetType::Cows {
        player.get_livestock_harvest_multiplier()
    } else {
        Multiplier::one()
    };
    let gross: i32 = apply_both(income as i32, crop, livestock);
    let net: i64 = gross as i64 - expense as i64;
    if net > i32::MAX as i64 || net < i32::MIN as i64 {
        return Err(GameError::AmountOutOfRange);
    }
    logs.push(
        LogEntry::HarvestLine {
            harvest: *harvest_type,
            roll: roll + 1,
            base,
            quantity,
            asset,
            income: income as i32,
            crop,
            livestock,
            gross,
            expense,
            net: net as i32,
        },
    );
    Ok((net as i32, logs))
}

/// Rolls the die that picks the row of a yield table: a number from 0 to 5.
pub fn roll_for_yield(rng: &mut StdRng) -> (roll: u8)
    ensures
        roll < 6,
{
    random_between(rng, 0, 5)
}

/// Rolls an ordinary die: a number from 1 to 6.
pub fn roll_die(rng: &mut StdRng) -> (roll: u8)
    ensures
        1 <= roll <= 6,
{
    random_between(rng, 1, 6)
}

/// The keeper of the expense cards that harvests draw.
#[derive(Debug, PartialEq)]
pub struct HarvestManager {
    pub operating_cost_deck: Deck,
}

impl Clone for HarvestManager {
    fn clone(&self) -> (r: Self)
        ensures
            r.operating_cost_deck.draw_pile@ == self.operating_cost_deck.draw_pile@,
            r.operating_cost_deck.discard_pile@ == self.operating_cost_deck.discard_pile@,
    {
        HarvestManager { operating_cost_deck: self.operating_cost_deck.clone() }
    }
}

impl HarvestManager {
    /// A keeper of the given deck.
    pub fn new(operating_cost_deck: Deck) -> (m: Self)
        ensures
            m.operating_cost_deck == operating_cost_deck,
    {
        HarvestManager { operating_cost_deck }
    }

    /// Whether the draw pile of the expense deck is empty.
    pub fn is_op_cost_deck_empty(&self) -> (b: bool)
        ensures
            b == (self.operating_cost_deck.draw_pile@.len() == 0),
    {
        self.operating_cost_deck.draw_pile.len() == 0
    }

    /// Whether `card` may be the expense card that the next harvest draws:
    /// the top of the draw pile where there is one, else any card of the
    /// discard pile, which is shuffled first.
    pub open spec fn may_draw(&self, card: Card) -> bool {
        if self.operating_cost_deck.draw_pile@.len() > 0 {
            card == self.operating_cost_deck.draw_pile@[0]
        } else {
            self.operating_cost_deck.discard_pile@.to_multiset().count(card) > 0
        }
    }

    /// Whether `after` is this keeper once `card` was drawn for a harvest
    /// and put on the discard pile: no card is lost, and where the draw pile
    /// had a top card, the piles are as they were but for that card's move.
    pub open spec fn is_after_draw(&self, card: Card, after: HarvestManager) -> bool {
        &&& self.may_draw(card)
        &&& after.operating_cost_deck.cards() == self.operating_cost_deck.cards()
        &&& after.operating_cost_deck.size() == self.operating_cost_deck.size()
        &&& self.operating_cost_deck.draw_pile@.len() > 0 ==> after.operating_cost_deck.draw_pile@
            == self.operating_cost_deck.draw_pile@.remove(0)
            && after.operating_cost_deck.discard_pile@
            == self.operating_cost_deck.discard_pile@.push(card)
    }

    /// What the harvest is taken from, where one takes place; else what the
    /// harvest comes to without a card or a die: nothing for a tile without
    /// harvest and for a player who holds nothing of what is harvested, and
    /// the error of the exhausted deck where no expense card is left.
    fn harvest_subject(&self, player: &Player, harvest_type: &HarvestType) -> (r: Result<
        AssetType,
        Result<(i32, i32, Vec<LogEntry>), GameError>,
    >)
        ensures
            match r {
                Ok(asset) => harvest_type.spec_required_asset() == Some(asset)
                    && player.assets.owns(asset) && self.operating_cost_deck.size() > 0,
                Err(done) => match harvest_type.spec_required_asset() {
                    None => is_idle_harvest(done, seq![LogEntry::NoHarvestType]),
                    Some(asset) => if player.assets.owns(asset) {
                        self.operating_cost_deck.size() == 0 && done == Err::<
                            (i32, i32, Vec<LogEntry>),
                            GameError,
                        >(GameError::DeckExhausted { deck: DeckKind::OperatingCost })
                    } else {
                        is_idle_harvest(done, seq![LogEntry::NothingToHarvest { asset }])
                    },
                },
            },
    {
        let asset = match harvest_type.required_asset() {
            Some(a) => a,
            None => {
                let mut logs: Vec<LogEntry> = Vec::new();
                logs.push(LogEntry::NoHarvestType);
                return Err(Ok((0, 0, logs)));
            },
        };
        if player.assets.quantity_of(&asset) <= 0 {
            let mut logs: Vec<LogEntry> = Vec::new();
            logs.push(LogEntry::NothingToHarvest { asset });
            return Err(Ok((0, 0, logs)));
        }
        if self.operating_cost_deck.draw_pile.len() == 0
            && self.operating_cost_deck.discard_pile.len() == 0 {
            return Err(Err(GameError::DeckExhausted { deck: DeckKind::OperatingCost }));
        }
        Ok(asset)
    }

    /// Computes a harvest on a given roll, with the given generator for
    /// the shuffle that a draw may need. See `calculate_harvest`. Where no
    /// harvest takes place, the generator is left as it is.
    #[verifier::rlimit(50)]
    pub fn calculate_harvest_with_roll(
        &mut self,
        player: &mut Player,
        harvest_type: &HarvestType,
        roll: u8,
        rng: &mut StdRng,
    ) -> (r: Result<(i32, i32, Vec<LogEntry>), GameError>)
        requires
            roll < 6,
        ensures
            harvest_type.spec_required_asset().is_none() ==> is_idle_harvest(
                r,
                seq![LogEntry::NoHarvestType],
            ) && *final(self) == *old(self) && *final(player) == *old(player) && *final(rng)
                == *old(rng),
            harvest_type.spec_required_asset().is_some() && !old(player).assets.owns(
                harvest_type.spec_required_asset().unwrap(),
            ) ==> is_idle_harvest(
                r,
                seq![
                    LogEntry::NothingToHarvest {
                        asset: harvest_type.spec_required_asset().unwrap(),
                    },
                ],
            ) && *final(self) == *old(self) && *final(player) == *old(player) && *final(rng)
                == *old(rng),
            harvest_type.spec_required_asset().is_some() && old(player).assets.owns(
                harvest_type.spec_required_asset().unwrap(),
            ) && old(self).operating_cost_deck.size() == 0 ==> r == Err::<
                (i32, i32, Vec<LogEntry>),
                GameError,
            >(GameError::DeckExhausted { deck: DeckKind::OperatingCost }) && *final(self) == *old(self)
                && *final(player) == *old(player) && *final(rng) == *old(rng),
            harvest_type.spec_required_asset().is_some() && old(player).assets.owns(
                harvest_type.spec_required_asset().unwrap(),
            ) && old(self).operating_cost_deck.size() > 0 ==> exists|card: Card|
                #![trigger old(self).is_after_draw(card, *final(self))]
                old(self).is_after_draw(card, *final(self)) && is_harvest_result(
                    *old(player),
                    *harvest_type,
                    card,
                    roll,
                    r,
                    *final(player),
                ),
    {
        let asset = match self.harvest_subject(player, harvest_type) {
            Ok(a) => a,
            Err(done) => {
                return done;
            },
        };
        let card = match self.operating_cost_deck.draw_with(rng) {
            Some(c) => c,
            None => {
                return Err(GameError::DeckExhausted { deck: DeckKind::OperatingCost });
            },
        };
        let ghost drawn = card;
        let ghost mid = self.operating_cost_deck;
        let computed = match harvest_expense(player, &card) {
            None => Err(GameError::AmountOutOfRange),
            Some(e) => {
                let table = match asset {
                    AssetType::Hay => YieldTable::Hay,
                    AssetType::Fruit => YieldTable::Fruit,
                    AssetType::Cows => YieldTable::Livestock,
                    _ => YieldTable::Grain,
                };
                match harvest_income(player, asset, table, harvest_type, e.0, roll) {
                    Ok(income) => {
                        let mut logs: Vec<LogEntry> = Vec::new();
                        logs.push(e.1);
                        let mut rest = income.1;
                        logs.append(&mut rest);
                        Ok((income.0, e.0, logs))
                    },
                    Err(err) => Err(err),
                }
            },
        };
        self.operating_cost_deck.discard(card);
        proof {
            broadcast use vstd::seq_lib::group_to_multiset_ensures;
            broadcast use vstd::multiset::group_multiset_axioms;

            let before = old(self).operating_cost_deck;
            if before.draw_pile@.len() == 0 {
                assert(mid.draw_pile@.to_multiset().insert(drawn)
                    == before.discard_pile@.to_multiset());
                assert(before.discard_pile@.to_multiset().count(drawn) > 0);
            }
            assert(self.operating_cost_deck.cards() =~= before.cards());
            assert(old(self).is_after_draw(drawn, *self));
        }
        let r = match computed {
            Ok(v) => {
                player.reset_crop_multipliers();
                Ok(v)
            },
            Err(e) => Err(e),
        };
        assert(is_harvest_result(*old(player), *harvest_type, drawn, roll, r, *player));
        r
    }

    /// Computes a harvest of `harvest_type` for `player`.
    ///
    /// A tile without harvest, or a player who holds nothing of what the
    /// harvest is taken from, yields no income and no expense, and no card
    /// is drawn, no die rolled, and the generator left as it is; so it is
    /// where no expense card is left, which is an error. Otherwise the die
    /// is rolled and then an expense card drawn, both with the given
    /// generator; the result is the net income, the expense and the account
    /// of both, the player's crop factors are forgotten, and the card goes
    /// to the discard pile.
    pub fn calculate_harvest_using(
        &mut self,
        player: &mut Player,
        harvest_type: &HarvestType,
        rng: &mut StdRng,
    ) -> (r: Result<(i32, i32, Vec<LogEntry>), GameError>)
        ensures
            harvest_type.spec_required_asset().is_none() ==> is_idle_harvest(
                r,
                seq![LogEntry::NoHarvestType],
            ) && *final(self) == *old(self) && *final(player) == *old(player) && *final(rng)
                == *old(rng),
            harvest_type.spec_required_asset().is_some() && !old(player).assets.owns(
                harvest_type.spec_required_asset().unwrap(),
            ) ==> is_idle_harvest(
                r,
                seq![
                    LogEntry::NothingToHarvest {
                        asset: harvest_type.spec_required_asset().unwrap(),
                    },
                ],
            ) && *final(self) == *old(self) && *final(player) == *old(player) && *final(rng)
                == *old(rng),
            harvest_type.spec_required_asset().is_some() && old(player).assets.owns(
                harvest_type.spec_required_asset().unwrap(),
            ) && old(self).operating_cost_deck.size() == 0 ==> r == Err::<
                (i32, i32, Vec<LogEntry>),
                GameError,
            >(GameError::DeckExhausted { deck: DeckKind::OperatingCost }) && *final(self) == *old(self)
                && *final(player) == *old(player) && *final(rng) == *old(rng),
            harvest_type.spec_required_asset().is_some() && old(player).assets.owns(
                harvest_type.spec_required_asset().unwrap(),
            ) && old(self).operating_cost_deck.size() > 0 ==> exists|card: Card, roll: u8|
                #![trigger is_harvest_result(*old(player), *harvest_type, card, roll, r, *final(player))]
                roll < 6 && old(self).is_after_draw(card, *final(self)) && is_harvest_result(
                    *old(player),
                    *harvest_type,
                    card,
                    roll,
                    r,
                    *final(player),
                ),
    {
        match self.harvest_subject(player, harvest_type) {
            Ok(_) => {},
            Err(done) => {
                return done;
            },
        }
        let roll = roll_for_yield(rng);
        let r = self.calculate_harvest_with_roll(player, harvest_type, roll, rng);
        proof {
            if harvest_type.spec_required_asset().is_some() && old(player).assets.owns(
                harvest_type.spec_required_asset().unwrap(),
            ) && old(self).operating_cost_deck.size() > 0 {
                let card = choose|card: Card|
                    #![trigger old(self).is_after_draw(card, *self)]
                    old(self).is_after_draw(card, *self) && is_harvest_result(
                        *old(player),
                        *harvest_type,
                        card,
                        roll,
                        r,
                        *player,
                    );
                assert(is_harvest_result(*old(player), *harvest_type, card, roll, r, *player));
            }
        }
        r
    }

    /// Computes a harvest as `calculate_harvest_using` does, with a
    /// generator of its own, which is made only where a harvest takes place.
    pub fn calculate_harvest(&mut self, player: &mut Player, harvest_type: &HarvestType) -> (r:
        Result<(i32, i32, Vec<LogEntry>), GameError>)
        ensures
            harvest_type.spec_required_asset().is_none() ==> is_idle_harvest(
                r,
                seq![LogEntry::NoHarvestType],
            ) && *final(self) == *old(self) && *final(player) == *old(player),
            harvest_type.spec_required_asset().is_some() && !old(player).assets.owns(
                harvest_type.spec_required_asset().unwrap(),
            ) ==> is_idle_harvest(
                r,
                seq![
                    LogEntry::NothingToHarvest {
                        asset: harvest_type.spec_required_asset().unwrap(),
                    },
                ],
            ) && *final(self) == *old(self) && *final(player) == *old(player),
            harvest_type.spec_required_asset().is_some() && old(player).assets.owns(
                harvest_type.spec_required_asset().unwrap(),
            ) && old(self).operating_cost_deck.size() == 0 ==> r == Err::<
                (i32, i32, Vec<LogEntry>),
                GameError,
            >(GameError::DeckExhausted { deck: DeckKind::OperatingCost }) && *final(self) == *old(self)
                && *final(player) == *old(player),
            harvest_type.spec_required_asset().is_some() && old(player).assets.owns(
                harvest_type.spec_required_asset().unwrap(),
            ) && old(self).operating_cost_deck.size() > 0 ==> exists|card: Card, roll: u8|
                #![trigger is_harvest_result(*old(player), *harvest_type, card, roll, r, *final(player))]
                roll < 6 && old(self).is_after_draw(card, *final(self)) && is_harvest_result(
                    *old(player),
                    *harvest_type,
                    card,
                    roll,
                    r,
                    *final(player),
                ),
    {
        match self.harvest_subject(player, harvest_type) {
            Ok(_) => {},
            Err(done) => {
                return done;
            },
        }
        let mut rng = fresh_generator();
        self.calculate_harvest_using(player, harvest_type, &mut rng)
    }

    /// The net income of a hay harvest on a roll of the die.
    pub fn resolve_hay_harvest(&mut self, player: &Player, harvest_type: &HarvestType, expense: i32) -> (r:
        Result<(i32, Vec<LogEntry>), GameError>)
        ensures
            *final(self) == *old(self),
            exists|roll: u8|
                #![trigger income_outcome(*player, AssetType::Hay, YieldTable::Hay, *harvest_type, expense, roll)]
                roll < 6 && is_income_result(
                    r,
                    income_outcome(
                        *player,
                        AssetType::Hay,
                        YieldTable::Hay,
                        *harvest_type,
                        expense,
                        roll,
                    ),
                ),
    {
        let mut rng = fresh_generator();
        let roll = roll_for_yield(&mut rng);
        let r = harvest_income(player, AssetType::Hay, YieldTable::Hay, harvest_type, expense, roll);
        assert(is_income_result(
            r,
            income_outcome(*player, AssetType::Hay, YieldTable::Hay, *harvest_type, expense, roll),
        ));
        r
    }

    /// The net income of a fruit harvest on a roll of the die.
    pub fn resolve_fruit_harvest(&mut self, player: &Player, harvest_type: &HarvestType, expense: i32) -> (r:
        Result<(i32, Vec<LogEntry>), GameError>)
        ensures
            *final(self) == *old(self),
            exists|roll: u8|
                #![trigger income_outcome(*player, AssetType::Fruit, YieldTable::Fruit, *harvest_type, expense, roll)]
                roll < 6 && is_income_result(
                    r,
                    income_outcome(
                        *player,
                        AssetType::Fruit,
                        YieldTable::Fruit,
                        *harvest_type,
                        expense,
                        roll,
                    ),
                ),
    {
        let mut rng = fresh_generator();
        let roll = roll_for_yield(&mut rng);
        let r = harvest_income(
            player,
            AssetType::Fruit,
            YieldTable::Fruit,
            harvest_type,
            expense,
            roll,
        );
        assert(is_income_result(
            r,
            income_outcome(
                *player,
                AssetType::Fruit,
                YieldTable::Fruit,
                *harvest_type,
                expense,
                roll,
            ),
        ));
        r
    }

    /// The net income of a grain harvest of `crop` on a roll of the die.
    pub fn resolve_grain_harvest(
        &mut self,
        player: &Player,
        crop: AssetType,
        harvest_type: &HarvestType,
        expense: i32,
    ) -> (r: Result<(i32, Vec<LogEntry>), GameError>)
        ensures
            *final(self) == *old(self),
            exists|roll: u8|
                #![trigger income_outcome(*player, crop, YieldTable::Grain, *harvest_type, expense, roll)]
                roll < 6 && is_income_result(
                    r,
                    income_outcome(*player, crop, YieldTable::Grain, *harvest_type, expense, roll),
                ),
    {
        let mut rng = fresh_generator();
        let roll = roll_for_yield(&mut rng);
        let r = harvest_income(player, crop, YieldTable::Grain, harvest_type, expense, roll);
        assert(is_income_result(
            r,
            income_outcome(*player, crop, YieldTable::Grain, *harvest_type, expense, roll),
        ));
        r
    }

    /// The net income of a livestock harvest on a roll of the die.
    pub fn resolve_livestock_harvest(
        &mut self,
        player: &Player,
        harvest_type: &HarvestType,
        expense: i32,
    ) -> (r: Result<(i32, Vec<LogEntry>), GameError>)
        ensures
            *final(self) == *old(self),
            exists|roll: u8|
                #![trigger income_outcome(*player, AssetType::Cows, YieldTable::Livestock, *harvest_type, expense, roll)]
                roll < 6 && is_income_result(
                    r,
                    income_outcome(
                        *player,
                        AssetType::Cows,
                        YieldTable::Livestock,
                        *harvest_type,
                        expense,
                        roll,
                    ),
                ),
    {
        let mut rng = fresh_generator();
        let roll = roll_for_yield(&mut rng);
        let r = harvest_income(
            player,
            AssetType::Cows,
            YieldTable::Livestock,
            harvest_type,
            expense,
            roll,
        );
        assert(is_income_result(
            r,
            income_outcome(
                *player,
                AssetType::Cows,
                YieldTable::Livestock,
                *harvest_type,
                expense,
                roll,
            ),
        ));
        r
    }
}

/// Whether `r` is the result of a harvest that did not take place: no
/// income, no expense, and the entries `logs`.
pub open spec fn is_idle_harvest(
    r: Result<(i32, i32, Vec<LogEntry>), GameError>,
    logs: Seq<LogEntry>,
) -> bool {
    r.is_ok() && r.unwrap().0 == 0 && r.unwrap().1 == 0 && r.unwrap().2@ == logs
}

/// Whether `r` and `q` are what a harvest with the expense card `card` and
/// the roll `roll` leaves of the player `p`: on success the net income, the
/// expense and the entries of `harvest_outcome`, and the player without crop
/// factors; on failure the error, and the player as it was.
pub open spec fn is_harvest_result(
    p: Player,
    harvest_type: HarvestType,
    card: Card,
    roll: u8,
    r: Result<(i32, i32, Vec<LogEntry>), GameError>,
    q: Player,
) -> bool {
    match harvest_outcome(p, harvest_type, card, roll).3 {
        Ok(()) => r.is_ok() && r.unwrap().0 == harvest_outcome(p, harvest_type, card, roll).0
            && r.unwrap().1 == harvest_outcome(p, harvest_type, card, roll).1 && r.unwrap().2@
            == harvest_outcome(p, harvest_type, card, roll).2 && q == (Player {
            crop_yield_multipliers: AssetTable::<Multiplier>::spec_empty(),
            ..p
        }),
        Err(e) => r.is_err() && r.unwrap_err() == e && q == p,
    }
}

/// Whether `r` is what `outcome` says: the same net income and entries
/// where it succeeds, the same error where it fails.
pub open spec fn is_income_result(
    r: Result<(i32, Vec<LogEntry>), GameError>,
    outcome: (int, Seq<LogEntry>, Result<(), GameError>),
) -> bool {
    match outcome.2 {
        Ok(()) => r.is_ok() && r.unwrap().0 == outcome.0 && r.unwrap().1@ == outcome.1,
        Err(e) => r.is_err() && r.unwrap_err() == e,
    }
}

} // verus!
