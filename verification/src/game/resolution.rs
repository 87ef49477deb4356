//! The resolution of harvests and cards on the state of a game.

use crate::cards::card::Card;
use crate::config::MAX_DEBT;
use crate::error::{DeckKind, GameError};
use crate::game::card_effects::{lemma_card_keeps_turns, solo_outcome};
use crate::game::fan_out::{
    are_die_rolls, collection_outcome, eruption_outcome, lemma_table_keeps_turns,
    refreshed_seats, roll_for_others,
};
use crate::game::harvest::{harvest_outcome, roll_for_yield, HarvestManager};
use crate::game::loan::loan_outcome;
use crate::log::LogEntry;
use crate::models::asset::{AssetTable, AssetType};
use crate::models::board::HarvestType;
use crate::models::effects::GameEffect;
use crate::models::game_state::GameState;
use crate::models::multiplier::Multiplier;
use crate::models::player::{fits_i32, PersistentEffect, Player};
use crate::models::roster::same_turns;
use rand::rngs::StdRng;
use vstd::prelude::*;

verus! {

/// What a harvest does to the player once its expense card and its roll are
/// known: the player afterwards, the entries logged, and the result.
///
/// The crop factors are forgotten. With an expense of more than nothing,
/// the income before the expense goes to cash and the expense is paid as a
/// forced payment: a player with the cash for it gains the net income, and
/// one without it borrows. Where the payment is refused, the refusal is
/// logged and the harvest stands. Without such an expense the net income
/// goes to cash. A harvest that fails leaves the player as it was.
pub open spec fn harvest_settlement(p: Player, harvest_type: HarvestType, card: Card, roll: u8) -> (
    Player,
    Seq<LogEntry>,
    Result<(), GameError>,
) {
    let h = harvest_outcome(p, harvest_type, card, roll);
    match h.3 {
        Err(e) => (p, Seq::empty(), Err(e)),
        Ok(()) => {
            let rested = Player {
                crop_yield_multipliers: AssetTable::<Multiplier>::spec_empty(),
                ..p
            };
            let income = if h.1 > 0 {
                h.0 + h.1
            } else {
                h.0
            };
            if !fits_i32(p.cash + income) {
                (p, Seq::empty(), Err(GameError::AmountOutOfRange))
            } else {
                let paid = Player { cash: (p.cash + income) as i32, ..rested };
                let gained = h.2.push(LogEntry::HarvestGain { amount: h.0 as i32 });
                if h.1 > 0 {
                    let l = loan_outcome(paid, h.1 as i32);
                    match l.2 {
                        Ok(()) => (l.0, gained + l.1, Ok(())),
                        Err(e) => (
                            l.0,
                            (gained + l.1).push(LogEntry::ExpenseFailed { name: p.name, reason: e }),
                            Ok(()),
                        ),
                    }
                } else {
                    (paid, gained.push(LogEntry::NoExpense), Ok(()))
                }
            }
        },
    }
}

/// Whether `r` is the result `outcome` with the entries `logs`.
pub open spec fn is_logged_result(
    r: Result<Vec<LogEntry>, GameError>,
    logs: Seq<LogEntry>,
    outcome: Result<(), GameError>,
) -> bool {
    match outcome {
        Ok(()) => r.is_ok() && r.unwrap()@ == logs,
        Err(e) => r.is_err() && r.unwrap_err() == e,
    }
}

/// Whether `r` and `after` are what the harvest `harvest_type` of the
/// player under `player_id` leaves of the state `before`.
///
/// * A missing player is an error, and nothing changes.
/// * A tile without harvest, and a player who holds nothing of what the
///   harvest is taken from, leave everything as it is, the expense deck
///   too.
/// * An expense deck without cards is an error, and nothing changes.
/// * Otherwise a card is drawn and a die rolled, both with the generator of
///   the game; the keeper's deck keeps all its cards, the player is as
///   `harvest_settlement` says with the scoreboard computed anew, and
///   nothing else changes.
pub open spec fn is_harvest_processed(
    before: GameState,
    player_id: usize,
    harvest_type: HarvestType,
    r: Result<Vec<LogEntry>, GameError>,
    after: GameState,
) -> bool {
    if !before.players.has(player_id) {
        r == Err::<Vec<LogEntry>, GameError>(GameError::PlayerNotFound { player_id }) && after
            == before
    } else if harvest_type.spec_required_asset().is_none() {
        is_logged_result(r, seq![LogEntry::NoHarvestRequired], Ok(())) && after == before
    } else if !before.players.player(player_id).assets.owns(
        harvest_type.spec_required_asset().unwrap(),
    ) {
        is_logged_result(
            r,
            seq![
                LogEntry::HarvestSkipped {
                    name: before.players.player(player_id).name,
                    asset: harvest_type.spec_required_asset().unwrap(),
                },
                LogEntry::NoExpenseDrawn,
            ],
            Ok(()),
        ) && after == before
    } else if before.harvest_manager.operating_cost_deck.size() == 0 {
        r == Err::<Vec<LogEntry>, GameError>(
            GameError::DeckExhausted { deck: DeckKind::OperatingCost },
        ) && after == before
    } else {
        exists|card: Card, roll: u8|
            #![trigger harvest_settlement(before.players.player(player_id), harvest_type, card, roll)]
            {
                &&& roll < 6
                &&& before.harvest_manager.is_after_draw(card, after.harvest_manager)
                &&& after == (GameState {
                    players: after.players,
                    harvest_manager: after.harvest_manager,
                    rng: after.rng,
                    ..before
                })
                &&& after.players.entries@ == before.players.entries@.update(
                    before.players.index_of(player_id),
                    (
                        player_id,
                        harvest_settlement(
                            before.players.player(player_id),
                            harvest_type,
                            card,
                            roll,
                        ).0.refreshed(),
                    ),
                )
                &&& is_logged_result(
                    r,
                    harvest_settlement(
                        before.players.player(player_id),
                        harvest_type,
                        card,
                        roll,
                    ).1,
                    harvest_settlement(
                        before.players.player(player_id),
                        harvest_type,
                        card,
                        roll,
                    ).2,
                )
            }
    }
}

/// Whether `f` is the player `p` after the card, with the scoreboard
/// computed anew: as `solo_outcome` says, and for a card that brings a
/// lasting effect, `p` with that effect added as the last of its effects.
pub open spec fn is_refreshed_solo_result(p: Player, card: Card, f: Player) -> bool {
    match card.effect {
        GameEffect::AddPersistentEffect { effect_type, years } => {
            &&& f == (Player { persistent_effects: f.persistent_effects, ..p.refreshed() })
            &&& f.persistent_effects@ == p.persistent_effects@.push(
                PersistentEffect { effect_type, years_remaining: years },
            )
        },
        _ => f == solo_outcome(p, card).0.refreshed(),
    }
}

/// The result of a card played at the whole table, which never goes to the
/// discard pile by itself.
pub open spec fn table_result(outcome: Result<(), GameError>) -> Result<bool, GameError> {
    match outcome {
        Ok(()) => Ok(false),
        Err(e) => Err(e),
    }
}

/// Whether `r`, `after` and `logs_after` are what the card, played by the
/// player under `player_id`, leaves of the state `before` and the log
/// `logs_before`. The result says whether a copy of the card went to the
/// discard pile of Farmer's Fate.
///
/// * A missing player is an error, and nothing changes.
/// * A card for the player alone does what `solo_outcome` says; a failure
///   changes no one, a success computes the player's scoreboard anew.
/// * A collection does what `collection_outcome` says, and the eruption
///   what `eruption_outcome` says for some rolls of the die, one for each
///   of the others, made with the generator of the game; every scoreboard is then
///   computed anew. Where either fails, nothing changes but the log: the
///   players are as they were, and so is the generator.
pub open spec fn is_card_played(
    before: GameState,
    player_id: usize,
    card: Card,
    logs_before: Seq<LogEntry>,
    r: Result<bool, GameError>,
    after: GameState,
    logs_after: Seq<LogEntry>,
) -> bool {
    if !before.players.has(player_id) {
        r == Err::<bool, GameError>(GameError::PlayerNotFound { player_id }) && after == before
            && logs_after == logs_before
    } else {
        let i = before.players.index_of(player_id);
        let p = before.players.player(player_id);
        match card.effect {
            GameEffect::CollectFromOthersIfHas { asset, amount } => {
                let c = collection_outcome(before.players.entries@, i, asset, amount);
                &&& logs_after == logs_before + c.1
                &&& before.same_but_players(after)
                &&& r == table_result(c.2)
                &&& after.players.entries@ == if c.2.is_ok() {
                    refreshed_seats(c.0)
                } else {
                    before.players.entries@
                }
            },
            GameEffect::MtStHelensDisaster => exists|rolls: Seq<u8>|
                #![trigger eruption_outcome(before.players.entries@, i, rolls)]
                {
                    &&& rolls.len() == before.players.entries@.len()
                    &&& are_die_rolls(rolls)
                    &&& logs_after == logs_before + eruption_outcome(
                        before.players.entries@,
                        i,
                        rolls,
                    ).1
                    &&& r == table_result(eruption_outcome(before.players.entries@, i, rolls).2)
                    &&& if eruption_outcome(before.players.entries@, i, rolls).2.is_ok() {
                        before.same_but_players_and_chance(after) && after.players.entries@
                            == refreshed_seats(
                            eruption_outcome(before.players.entries@, i, rolls).0,
                        )
                    } else {
                        before.untouched(after)
                    }
                },
            _ => {
                let s = solo_outcome(p, card);
                &&& logs_after == logs_before + s.1
                &&& match s.2 {
                    Err(e) => r == Err::<bool, GameError>(e) && before.untouched(after),
                    Ok(()) => {
                        &&& r == Ok::<bool, GameError>(s.3)
                        &&& after == (GameState {
                            players: after.players,
                            farmer_fate_deck: after.farmer_fate_deck,
                            ..before
                        })
                        &&& after.players.entries@.len() == before.players.entries@.len()
                        &&& after.players.entries@ == before.players.entries@.update(
                            i,
                            (player_id, after.players.entries@[i].1),
                        )
                        &&& is_refreshed_solo_result(p, card, after.players.entries@[i].1)
                        &&& if s.3 {
                            after.farmer_fate_deck.draw_pile@ == before.farmer_fate_deck.draw_pile@
                                && after.farmer_fate_deck.discard_pile@
                                == before.farmer_fate_deck.discard_pile@.push(card)
                        } else {
                            after.farmer_fate_deck == before.farmer_fate_deck
                        }
                    },
                }
            },
        }
    }
}

/// No harvest lifts a debt over the ceiling that was not over it.
pub proof fn lemma_harvest_keeps_ceiling(p: Player, harvest_type: HarvestType, card: Card, roll: u8)
    requires
        p.debt <= MAX_DEBT,
    ensures
        harvest_settlement(p, harvest_type, card, roll).0.debt <= MAX_DEBT,
{
}

/// A card that fails changes nothing of the game: no player, no deck, and
/// not the generator.
pub proof fn lemma_failed_card_changes_nothing(
    before: GameState,
    player_id: usize,
    card: Card,
    logs_before: Seq<LogEntry>,
    r: Result<bool, GameError>,
    after: GameState,
    logs_after: Seq<LogEntry>,
)
    requires
        is_card_played(before, player_id, card, logs_before, r, after, logs_after),
        r.is_err(),
    ensures
        before.untouched(after),
{
}

/// A harvest leaves the books balanced.
pub proof fn lemma_harvest_keeps_books(
    before: GameState,
    player_id: usize,
    harvest_type: HarvestType,
    r: Result<Vec<LogEntry>, GameError>,
    after: GameState,
)
    requires
        is_harvest_processed(before, player_id, harvest_type, r, after),
        before.books_balanced(),
    ensures
        after.books_balanced(),
{
    if before.players.has(player_id) {
        crate::models::roster::lemma_first_seat(before.players.entries@, player_id);
    }
    assert forall|j: int| 0 <= j < after.players.entries@.len() implies (
    #[trigger] after.players.entries@[j]).1.net_worth_identity() by {
        if after.players.entries@ == before.players.entries@ {
            assert(before.players.entries@[j].1.net_worth_identity());
        } else {
            if j != before.players.index_of(player_id) {
                assert(before.players.entries@[j].1.net_worth_identity());
            }
        }
    }
}

impl HarvestManager {
    /// Takes a harvest for `player` on a given roll: computes it, books the
    /// income, and has the expense paid.
    #[verifier::rlimit(50)]
    pub(crate) fn settle_harvest(
        &mut self,
        player: &mut Player,
        harvest_type: &HarvestType,
        roll: u8,
        rng: &mut StdRng,
    ) -> (r: Result<Vec<LogEntry>, GameError>)
        requires
            roll < 6,
            harvest_type.spec_required_asset().is_some(),
            old(player).assets.owns(harvest_type.spec_required_asset().unwrap()),
            old(self).operating_cost_deck.size() > 0,
        ensures
            exists|card: Card|
                #![trigger harvest_settlement(*old(player), *harvest_type, card, roll)]
                {
                    &&& old(self).is_after_draw(card, *final(self))
                    &&& *final(player) == harvest_settlement(
                        *old(player),
                        *harvest_type,
                        card,
                        roll,
                    ).0
                    &&& is_logged_result(
                        r,
                        harvest_settlement(*old(player), *harvest_type, card, roll).1,
                        harvest_settlement(*old(player), *harvest_type, card, roll).2,
                    )
                },
    {
        let factors = AssetTable {
            grain: player.crop_yield_multipliers.grain,
            hay: player.crop_yield_multipliers.hay,
            cows: player.crop_yield_multipliers.cows,
            fruit: player.crop_yield_multipliers.fruit,
            tractor: player.crop_yield_multipliers.tractor,
            harvester: player.crop_yield_multipliers.harvester,
        };
        let computed = self.calculate_harvest_with_roll(player, harvest_type, roll, rng);
        let ghost card = choose|card: Card|
            #![trigger old(self).is_after_draw(card, *self)]
            old(self).is_after_draw(card, *self) && crate::game::harvest::is_harvest_result(
                *old(player),
                *harvest_type,
                card,
                roll,
                computed,
                *player,
            );
        let r = match computed {
            Err(e) => Err(e),
            Ok(found) => {
                let net: i32 = found.0;
                let expense: i32 = found.1;
                let mut logs: Vec<LogEntry> = found.2;
                let income: i64 = if expense > 0 {
                    net as i64 + expense as i64
                } else {
                    net as i64
                };
                let cash: i64 = player.cash as i64 + income;
                if cash > i32::MAX as i64 || cash < i32::MIN as i64 {
                    player.crop_yield_multipliers = factors;
                    Err(GameError::AmountOutOfRange)
                } else {
                    player.cash = cash as i32;
                    logs.push(LogEntry::HarvestGain { amount: net });
                    if expense > 0 {
                        match player.pay_or_borrow(expense, &mut logs) {
                            Ok(()) => {},
                            Err(e) => {
                                logs.push(
                                    LogEntry::ExpenseFailed { name: player.name.clone(), reason: e },
                                );
                            },
                        }
                    } else {
                        logs.push(LogEntry::NoExpense);
                    }
                    Ok(logs)
                }
            },
        };
        proof {
            let s = harvest_settlement(*old(player), *harvest_type, card, roll);
            assert(*player == s.0);
            assert(is_logged_result(r, s.1, s.2)) by {
                if r.is_ok() {
                    assert(r.unwrap()@ =~= s.1);
                }
            }
        }
        r
    }
}

impl GameState {
    /// Takes the harvest `harvest_type` for the player under `player_id`
    /// and returns the account of it.
    #[verifier::rlimit(50)]
    pub fn process_harvest(&mut self, player_id: usize, harvest_type: HarvestType) -> (r: Result<
        Vec<LogEntry>,
        GameError,
    >)
        ensures
            is_harvest_processed(*old(self), player_id, harvest_type, r, *final(self)),
            old(self).books_balanced() ==> final(self).books_balanced(),
            same_turns(old(self).players.entries@, final(self).players.entries@),
    {
        let i = match self.players.position(player_id) {
            Some(i) => i,
            None => {
                return Err(GameError::PlayerNotFound { player_id });
            },
        };
        let asset = match harvest_type.required_asset() {
            Some(a) => a,
            None => {
                let mut logs: Vec<LogEntry> = Vec::new();
                logs.push(LogEntry::NoHarvestRequired);
                return Ok(logs);
            },
        };
        if self.players.entries[i].1.assets.quantity_of(&asset) <= 0 {
            let mut logs: Vec<LogEntry> = Vec::new();
            logs.push(
                LogEntry::HarvestSkipped { name: self.players.entries[i].1.name.clone(), asset },
            );
            logs.push(LogEntry::NoExpenseDrawn);
            assert(logs@ =~= seq![
                LogEntry::HarvestSkipped {
                    name: old(self).players.player(player_id).name,
                    asset: harvest_type.spec_required_asset().unwrap(),
                },
                LogEntry::NoExpenseDrawn,
            ]);
            return Ok(logs);
        }
        if self.harvest_manager.operating_cost_deck.draw_pile.len() == 0
            && self.harvest_manager.operating_cost_deck.discard_pile.len() == 0 {
            return Err(GameError::DeckExhausted { deck: DeckKind::OperatingCost });
        }
        let roll = roll_for_yield(&mut self.rng);
        let r = self.harvest_manager.settle_harvest(
            &mut self.players.entries[i].1,
            &harvest_type,
            roll,
            &mut self.rng,
        );
        let ghost p = old(self).players.player(player_id);
        let ghost card = choose|card: Card|
            #![trigger harvest_settlement(p, harvest_type, card, roll)]
            {
                &&& old(self).harvest_manager.is_after_draw(card, self.harvest_manager)
                &&& self.players.entries@[i as int].1 == harvest_settlement(
                    p,
                    harvest_type,
                    card,
                    roll,
                ).0
                &&& is_logged_result(
                    r,
                    harvest_settlement(p, harvest_type, card, roll).1,
                    harvest_settlement(p, harvest_type, card, roll).2,
                )
            };
        self.players.entries[i].1.update_scoreboard();
        proof {
            let s = harvest_settlement(p, harvest_type, card, roll);
            assert(self.players.entries@ =~= old(self).players.entries@.update(
                i as int,
                (player_id, s.0.refreshed()),
            ));
            assert(is_harvest_processed(*old(self), player_id, harvest_type, r, *self));
            if old(self).books_balanced() {
                lemma_harvest_keeps_books(*old(self), player_id, harvest_type, r, *self);
            }
        }
        r
    }

    /// Plays a card for the player under `player_id`. Returns whether a
    /// copy of the card went to the discard pile of Farmer's Fate.
    #[verifier::rlimit(50)]
    pub fn play_card(&mut self, player_id: usize, card: &Card, logs: &mut Vec<LogEntry>) -> (r: Result<
        bool,
        GameError,
    >)
        ensures
            is_card_played(*old(self), player_id, *card, old(logs)@, r, *final(self), final(logs)@),
            r.is_err() ==> old(self).untouched(*final(self)),
            old(self).books_balanced() ==> final(self).books_balanced(),
            same_turns(old(self).players.entries@, final(self).players.entries@),
    {
        let i = match self.players.position(player_id) {
            Some(i) => i,
            None => {
                return Err(GameError::PlayerNotFound { player_id });
            },
        };
        proof {
            lemma_card_keeps_turns(old(self).players.player(player_id), *card);
        }
        match &card.effect {
            GameEffect::CollectFromOthersIfHas { asset, amount } => {
                proof {
                    lemma_table_keeps_turns(
                        old(self).players.entries@,
                        i as int,
                        *asset,
                        *amount,
                        Seq::empty(),
                    );
                }
                match self.players.collect_from_others(i, *asset, *amount, logs) {
                    Ok(()) => {
                        self.players.refresh_all();
                        Ok(false)
                    },
                    Err(e) => Err(e),
                }
            },
            GameEffect::MtStHelensDisaster => {
                let mut rng = self.rng.clone();
                let rolls = roll_for_others(self.players.len(), i, &mut rng);
                let outcome = self.players.erupt(i, &rolls, logs);
                let r = match outcome {
                    Ok(()) => {
                        self.rng = rng;
                        self.players.refresh_all();
                        Ok(false)
                    },
                    Err(e) => Err(e),
                };
                proof {
                    let e = eruption_outcome(old(self).players.entries@, i as int, rolls@);
                    lemma_table_keeps_turns(
                        old(self).players.entries@,
                        i as int,
                        AssetType::Hay,
                        0,
                        rolls@,
                    );
                    assert(r == table_result(e.2));
                    if e.2.is_ok() {
                        assert(self.players.entries@ =~= refreshed_seats(e.0));
                    }
                }
                r
            },
            _ => {
                let played = self.players.entries[i].1.apply_solo_effect(card, logs);
                match played {
                    Ok(discard) => {
                        if discard {
                            self.farmer_fate_deck.discard(card.clone());
                        }
                        self.players.entries[i].1.update_scoreboard();
                        proof {
                            assert(self.players.entries@ =~= old(self).players.entries@.update(
                                i as int,
                                (player_id, self.players.entries@[i as int].1),
                            ));
                        }
                        Ok(discard)
                    },
                    Err(e) => {
                        assert(self.players.entries@ =~= old(self).players.entries@);
                        Err(e)
                    },
                }
            },
        }
    }

    /// Plays a card for the player under `player_id`.
    ///
    /// Fails for a missing player, and where the card's effect fails: a
    /// payment that the debt ceiling leaves no loan for, a purchase that
    /// cash does not cover or that exceeds the farm's limit of cows, an
    /// amount out of range. A card that fails changes nothing but the log.
    pub fn apply_card_effect(&mut self, player_id: usize, card: &Card, logs: &mut Vec<LogEntry>) -> (r:
        Result<(), GameError>)
        ensures
            exists|played: Result<bool, GameError>|
                #![trigger is_card_played(*old(self), player_id, *card, old(logs)@, played, *final(self), final(logs)@)]
                is_card_played(
                    *old(self),
                    player_id,
                    *card,
                    old(logs)@,
                    played,
                    *final(self),
                    final(logs)@,
                ) && match played {
                    Ok(_) => r == Ok::<(), GameError>(()),
                    Err(e) => r == Err::<(), GameError>(e),
                },
            r.is_err() ==> old(self).untouched(*final(self)),
            old(self).books_balanced() ==> final(self).books_balanced(),
            same_turns(old(self).players.entries@, final(self).players.entries@),
    {
        let played = self.play_card(player_id, card, logs);
        match played {
            Ok(_) => Ok(()),
            Err(e) => Err(e),
        }
    }
}

} // verus!
