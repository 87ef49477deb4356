//! The resolution of a tile on the state of a game: the harvest that the
//! tile belongs to, then the tile's own effect.

use crate::cards::card::Card;
use crate::cards::deck::is_draw;
use crate::error::{DeckKind, GameError};
use crate::game::fan_out::refreshed_seats;
use crate::game::resolution::{is_card_played, is_harvest_processed};
use crate::game::tile_effects::{lemma_tile_keeps_turns, tile_outcome};
use crate::log::LogEntry;
use crate::models::asset::AssetType;
use crate::models::board::{BoardTile, HarvestType, TileEffect, TileType};
use crate::models::game_state::GameState;
use crate::models::player::{fits_i32, Player};
use crate::models::roster::same_turns;
use vstd::prelude::*;
use vstd::string::StringExecFns;

verus! {

/// The entries that a harvest adds to the log of a turn: its account where
/// it was taken, nothing where it failed.
pub open spec fn harvest_entries(r: Result<Vec<LogEntry>, GameError>) -> Seq<LogEntry> {
    match r {
        Ok(v) => v@,
        Err(_) => Seq::empty(),
    }
}

/// Whether `after` and `logs_after` are what the harvest of a tile leaves:
/// nothing changes on a tile without harvest; else the harvest is taken as
/// `is_harvest_processed` says, and a failure is passed over in silence.
pub open spec fn is_harvest_step(
    before: GameState,
    player_id: usize,
    harvest_type: HarvestType,
    logs_before: Seq<LogEntry>,
    after: GameState,
    logs_after: Seq<LogEntry>,
) -> bool {
    if harvest_type == HarvestType::NoHarvest {
        after == before && logs_after == logs_before
    } else {
        exists|r: Result<Vec<LogEntry>, GameError>|
            #![trigger is_harvest_processed(before, player_id, harvest_type, r, after)]
            is_harvest_processed(before, player_id, harvest_type, r, after) && logs_after
                == logs_before + harvest_entries(r)
    }
}

/// Whether `after` is `resolved` with the card put away: as it is where a
/// copy of the card went to the discard pile already, else with the card on
/// the discard pile of Farmer's Fate.
pub open spec fn is_put_away(
    resolved: GameState,
    card: Card,
    played: Result<bool, GameError>,
    after: GameState,
) -> bool {
    if played == Ok::<bool, GameError>(true) {
        after == resolved
    } else {
        &&& after == (GameState { farmer_fate_deck: after.farmer_fate_deck, ..resolved })
        &&& after.farmer_fate_deck.draw_pile@ == resolved.farmer_fate_deck.draw_pile@
        &&& after.farmer_fate_deck.discard_pile@ == resolved.farmer_fate_deck.discard_pile@.push(
            card,
        )
    }
}

/// The result of a card without the flag that says where the card went.
pub open spec fn plain_result(played: Result<bool, GameError>) -> Result<(), GameError> {
    match played {
        Ok(_) => Ok(()),
        Err(e) => Err(e),
    }
}

/// Whether `r`, `after` and `logs_after` are what a card drawn from
/// Farmer's Fate leaves: the draw is logged, the card played as
/// `is_card_played` says, and put on the discard pile.
pub open spec fn is_fate_played(
    taken: GameState,
    player_id: usize,
    card: Card,
    logs_before: Seq<LogEntry>,
    r: Result<(), GameError>,
    after: GameState,
    logs_after: Seq<LogEntry>,
) -> bool {
    exists|played: Result<bool, GameError>, resolved: GameState|
        #![trigger is_put_away(resolved, card, played, after)]
        {
            &&& is_card_played(
                taken,
                player_id,
                card,
                logs_before.push(LogEntry::DrewFate { title: card.title }),
                played,
                resolved,
                logs_after,
            )
            &&& is_put_away(resolved, card, played, after)
            &&& r == plain_result(played)
        }
}

/// Whether `r`, `after` and `logs_after` are what a draw from Farmer's Fate
/// leaves: an error where the deck is exhausted; else the card is drawn and
/// played as `is_fate_played` says.
pub open spec fn is_fate_drawn(
    before: GameState,
    player_id: usize,
    logs_before: Seq<LogEntry>,
    r: Result<(), GameError>,
    after: GameState,
    logs_after: Seq<LogEntry>,
) -> bool {
    exists|drawn: Result<Card, GameError>, taken: GameState|
        #![trigger is_draw(before.farmer_fate_deck, DeckKind::FarmersFate, drawn, taken.farmer_fate_deck)]
        {
            &&& is_draw(
                before.farmer_fate_deck,
                DeckKind::FarmersFate,
                drawn,
                taken.farmer_fate_deck,
            )
            &&& taken == (GameState {
                farmer_fate_deck: taken.farmer_fate_deck,
                rng: taken.rng,
                ..before
            })
            &&& match drawn {
                Err(e) => r == Err::<(), GameError>(e) && after == taken && logs_after
                    == logs_before,
                Ok(card) => is_fate_played(
                    taken,
                    player_id,
                    card,
                    logs_before,
                    r,
                    after,
                    logs_after,
                ),
            }
        }
}

/// Whether `r`, `after` and `logs_after` are what a draw from the options
/// leaves: an error where the deck is exhausted; else the card is drawn,
/// logged, and added to the hand of the player as its last card.
pub open spec fn is_option_drawn(
    before: GameState,
    player_id: usize,
    logs_before: Seq<LogEntry>,
    r: Result<(), GameError>,
    after: GameState,
    logs_after: Seq<LogEntry>,
) -> bool
    recommends
        before.players.has(player_id),
{
    let i = before.players.index_of(player_id);
    let p = before.players.player(player_id);
    exists|drawn: Result<Card, GameError>|
        #![trigger is_draw(before.option_to_buy_deck, DeckKind::OptionToBuy, drawn, after.option_to_buy_deck)]
        {
            &&& is_draw(
                before.option_to_buy_deck,
                DeckKind::OptionToBuy,
                drawn,
                after.option_to_buy_deck,
            )
            &&& match drawn {
                Err(e) => r == Err::<(), GameError>(e) && after == (GameState {
                    option_to_buy_deck: after.option_to_buy_deck,
                    rng: after.rng,
                    ..before
                }) && logs_after == logs_before,
                Ok(card) => {
                    &&& r == Ok::<(), GameError>(())
                    &&& logs_after == logs_before.push(LogEntry::DrewOption { title: card.title })
                    &&& after == (GameState {
                        option_to_buy_deck: after.option_to_buy_deck,
                        players: after.players,
                        rng: after.rng,
                        ..before
                    })
                    &&& after.players.entries@.len() == before.players.entries@.len()
                    &&& after.players.entries@ == before.players.entries@.update(
                        i,
                        (player_id, after.players.entries@[i].1),
                    )
                    &&& after.players.entries@[i].1 == (Player {
                        hand: after.players.entries@[i].1.hand,
                        ..p
                    })
                    &&& after.players.entries@[i].1.hand@ == p.hand@.push(card)
                },
            }
        }
}

/// The entry for a move to the position `index`: by the tile's name where
/// the board has a tile there, else by the number.
pub open spec fn move_entry(name: String, index: usize, board: Seq<BoardTile>) -> LogEntry {
    if index < board.len() {
        LogEntry::MovedTo { name, tile: board[index as int].name }
    } else {
        LogEntry::MovedToIndex { name, index }
    }
}

/// The entries for a move that comes with a harvest: the move, the bonus
/// where there is one, and the failure of the harvest where it failed.
pub open spec fn move_entries(p: Player, destination: usize, bonus: i32, board: Seq<BoardTile>) -> Seq<
    LogEntry,
> {
    if bonus > 0 {
        seq![
            move_entry(p.name, destination, board),
            LogEntry::BonusGained { name: p.name, bonus },
        ]
    } else {
        seq![move_entry(p.name, destination, board)]
    }
}

/// The entry for a harvest that failed after a move; none where it was
/// taken.
pub open spec fn failure_entries(r: Result<Vec<LogEntry>, GameError>) -> Seq<LogEntry> {
    match r {
        Ok(_) => Seq::empty(),
        Err(e) => seq![LogEntry::HarvestFailed { reason: e }],
    }
}

/// Whether `r`, `after` and `logs_after` are what a move with harvest
/// leaves. Who holds nothing of `asset` stays. Who holds some moves to
/// `destination`, takes a bonus of more than nothing, and takes the
/// harvest `harvest_type` there; a harvest that fails is logged, and the
/// move stands. A bonus out of range stops the move before it has begun.
pub open spec fn is_moved_and_harvested(
    before: GameState,
    player_id: usize,
    asset: AssetType,
    destination: usize,
    bonus: i32,
    harvest_type: HarvestType,
    logs_before: Seq<LogEntry>,
    r: Result<(), GameError>,
    after: GameState,
    logs_after: Seq<LogEntry>,
) -> bool
    recommends
        before.players.has(player_id),
{
    let i = before.players.index_of(player_id);
    let p = before.players.player(player_id);
    if !p.assets.owns(asset) {
        r == Ok::<(), GameError>(()) && after == before && logs_after == logs_before.push(
            LogEntry::CannotMove { name: p.name, asset },
        )
    } else if bonus > 0 && !fits_i32(p.cash + bonus) {
        r == Err::<(), GameError>(GameError::AmountOutOfRange) && after == before && logs_after
            == logs_before
    } else {
        exists|moved: GameState, harvest: Result<Vec<LogEntry>, GameError>|
            #![trigger is_harvest_processed(moved, player_id, harvest_type, harvest, after)]
            {
                &&& before.same_but_players(moved)
                &&& moved.players.entries@ == before.players.entries@.update(
                    i,
                    (
                        player_id,
                        Player {
                            position: destination,
                            cash: if bonus > 0 {
                                (p.cash + bonus) as i32
                            } else {
                                p.cash
                            },
                            ..p
                        },
                    ),
                )
                &&& is_harvest_processed(moved, player_id, harvest_type, harvest, after)
                &&& logs_after == logs_before + move_entries(p, destination, bonus, before.board@)
                    + failure_entries(harvest)
                &&& r == Ok::<(), GameError>(())
            }
    }
}

/// Whether `r`, `after` and `logs_after` are what the effect of a tile
/// leaves where tiles do not chain: a tile that sends the player on only
/// moves the player.
pub open spec fn is_effect_applied_unchained(
    before: GameState,
    player_id: usize,
    effect: TileEffect,
    logs_before: Seq<LogEntry>,
    r: Result<(), GameError>,
    after: GameState,
    logs_after: Seq<LogEntry>,
) -> bool
    recommends
        before.players.has(player_id),
{
    let i = before.players.index_of(player_id);
    let p = before.players.player(player_id);
    match effect {
        TileEffect::DrawCard(TileType::FarmerFate) => is_fate_drawn(
            before,
            player_id,
            logs_before,
            r,
            after,
            logs_after,
        ),
        TileEffect::DrawCard(TileType::OptionToBuy) => is_option_drawn(
            before,
            player_id,
            logs_before,
            r,
            after,
            logs_after,
        ),
        TileEffect::DrawCard(_) => r == Ok::<(), GameError>(()) && after == before && logs_after
            == logs_before,
        TileEffect::GoToTile(index) => {
            &&& r == Ok::<(), GameError>(())
            &&& before.seat_replaced(after, player_id, Player { position: index, ..p })
            &&& logs_after == logs_before.push(move_entry(p.name, index, before.board@))
        },
        TileEffect::MoveAndHarvestIfAsset { asset, destination, bonus, harvest_type } =>
            is_moved_and_harvested(
                before,
                player_id,
                asset,
                destination,
                bonus,
                harvest_type,
                logs_before,
                r,
                after,
                logs_after,
            ),
        _ => {
            &&& r == tile_outcome(p, effect, before.board@).2
            &&& before.seat_replaced(after, player_id, tile_outcome(p, effect, before.board@).0)
            &&& logs_after == logs_before + tile_outcome(p, effect, before.board@).1
        },
    }
}

/// Whether `r`, `after` and `logs_after` are what a tile leaves where tiles
/// do not chain: first the harvest that the tile belongs to, then its
/// effect.
pub open spec fn is_tile_resolved_unchained(
    before: GameState,
    player_id: usize,
    tile: BoardTile,
    logs_before: Seq<LogEntry>,
    r: Result<(), GameError>,
    after: GameState,
    logs_after: Seq<LogEntry>,
) -> bool
    recommends
        before.players.has(player_id),
{
    exists|harvested: GameState, harvest_logs: Seq<LogEntry>|
        #![trigger is_harvest_step(before, player_id, tile.harvest_type, logs_before, harvested, harvest_logs)]
        {
            &&& is_harvest_step(
                before,
                player_id,
                tile.harvest_type,
                logs_before,
                harvested,
                harvest_logs,
            )
            &&& harvested.players.has(player_id)
            &&& is_effect_applied_unchained(
                harvested,
                player_id,
                tile.effect,
                harvest_logs,
                r,
                after,
                logs_after,
            )
        }
}

/// Whether `r`, `after` and `logs_after` are what the effect of a tile
/// leaves. A tile that sends the player on moves the player and, where the
/// board has a tile there, has that tile resolved, but no tile beyond it:
/// tiles chain one level deep.
pub open spec fn is_effect_applied(
    before: GameState,
    player_id: usize,
    effect: TileEffect,
    logs_before: Seq<LogEntry>,
    r: Result<(), GameError>,
    after: GameState,
    logs_after: Seq<LogEntry>,
) -> bool
    recommends
        before.players.has(player_id),
{
    let p = before.players.player(player_id);
    match effect {
        TileEffect::GoToTile(index) => if index < before.board@.len() {
            exists|moved: GameState|
                #![trigger before.seat_replaced(moved, player_id, Player { position: index, ..p })]
                {
                    &&& before.seat_replaced(moved, player_id, Player { position: index, ..p })
                    &&& is_tile_resolved_unchained(
                        moved,
                        player_id,
                        before.board@[index as int],
                        logs_before.push(move_entry(p.name, index, before.board@)),
                        r,
                        after,
                        logs_after,
                    )
                }
        } else {
            is_effect_applied_unchained(
                before,
                player_id,
                effect,
                logs_before,
                r,
                after,
                logs_after,
            )
        },
        _ => is_effect_applied_unchained(
            before,
            player_id,
            effect,
            logs_before,
            r,
            after,
            logs_after,
        ),
    }
}

/// Whether `r`, `after` and `logs_after` are what a tile leaves: first the
/// harvest that the tile belongs to, then its effect.
pub open spec fn is_tile_resolved(
    before: GameState,
    player_id: usize,
    tile: BoardTile,
    logs_before: Seq<LogEntry>,
    r: Result<(), GameError>,
    after: GameState,
    logs_after: Seq<LogEntry>,
) -> bool
    recommends
        before.players.has(player_id),
{
    exists|harvested: GameState, harvest_logs: Seq<LogEntry>|
        #![trigger is_harvest_step(before, player_id, tile.harvest_type, logs_before, harvested, harvest_logs)]
        {
            &&& is_harvest_step(
                before,
                player_id,
                tile.harvest_type,
                logs_before,
                harvested,
                harvest_logs,
            )
            &&& harvested.players.has(player_id)
            &&& is_effect_applied(
                harvested,
                player_id,
                tile.effect,
                harvest_logs,
                r,
                after,
                logs_after,
            )
        }
}

/// Whether `r`, `after` and `logs_after` are what landing on a tile leaves:
/// an error and no change for a missing player; else the tile resolved as
/// `is_tile_resolved` says, and every scoreboard computed anew.
pub open spec fn is_tile_event_handled(
    before: GameState,
    player_id: usize,
    tile: BoardTile,
    logs_before: Seq<LogEntry>,
    r: Result<(), GameError>,
    after: GameState,
    logs_after: Seq<LogEntry>,
) -> bool {
    if !before.players.has(player_id) {
        r == Err::<(), GameError>(GameError::PlayerNotFound { player_id }) && after == before
            && logs_after == logs_before
    } else {
        exists|resolved: GameState|
            #![trigger is_tile_resolved(before, player_id, tile, logs_before, r, resolved, logs_after)]
            {
                &&& is_tile_resolved(before, player_id, tile, logs_before, r, resolved, logs_after)
                &&& resolved.same_but_players(after)
                &&& after.players.entries@ == refreshed_seats(resolved.players.entries@)
            }
    }
}

impl GameState {
    /// Takes the harvest that a tile belongs to.
    fn harvest_step(&mut self, player_id: usize, harvest_type: HarvestType, logs: &mut Vec<LogEntry>)
        requires
            old(self).players.has(player_id),
        ensures
            is_harvest_step(
                *old(self),
                player_id,
                harvest_type,
                old(logs)@,
                *final(self),
                final(logs)@,
            ),
            final(self).players.has(player_id),
            same_turns(old(self).players.entries@, final(self).players.entries@),
    {
        if harvest_type != HarvestType::NoHarvest {
            let r = self.process_harvest(player_id, harvest_type);
            let ghost taken = r;
            match r {
                Ok(mut account) => {
                    logs.append(&mut account);
                },
                Err(_) => {},
            }
            proof {
                assert(logs@ =~= old(logs)@ + harvest_entries(taken));
                lemma_harvest_keeps_seat(*old(self), player_id, harvest_type, taken, *self);
            }
        }
    }

    /// Draws from Farmer's Fate and plays the card.
    #[verifier::rlimit(50)]
    fn draw_fate(&mut self, player_id: usize, logs: &mut Vec<LogEntry>) -> (r: Result<(), GameError>)
        ensures
            is_fate_drawn(*old(self), player_id, old(logs)@, r, *final(self), final(logs)@),
            same_turns(old(self).players.entries@, final(self).players.entries@),
    {
        let drawn = self.farmer_fate_deck.draw_or_fail_with(DeckKind::FarmersFate, &mut self.rng);
        let ghost taken = *self;
        let ghost seen = drawn;
        match drawn {
            Err(e) => Err(e),
            Ok(card) => {
                logs.push(LogEntry::DrewFate { title: card.title.clone() });
                let played = self.play_card(player_id, &card, logs);
                let ghost resolved = *self;
                let ghost kept = card;
                let r = match played {
                    Ok(true) => Ok(()),
                    Ok(false) => {
                        self.farmer_fate_deck.discard(card);
                        Ok(())
                    },
                    Err(e) => {
                        self.farmer_fate_deck.discard(card);
                        Err(e)
                    },
                };
                proof {
                    assert(is_put_away(resolved, kept, played, *self));
                    assert(is_fate_played(taken, player_id, kept, old(logs)@, r, *self, logs@));
                }
                r
            },
        }
    }

    /// Draws from the options and adds the card to the hand of the player
    /// in the seat `i`.
    #[verifier::rlimit(50)]
    fn draw_option(&mut self, i: usize, player_id: usize, logs: &mut Vec<LogEntry>) -> (r: Result<
        (),
        GameError,
    >)
        requires
            old(self).players.has(player_id),
            i == old(self).players.index_of(player_id),
            i < old(self).players.entries@.len(),
            old(self).players.entries@[i as int].0 == player_id,
        ensures
            is_option_drawn(*old(self), player_id, old(logs)@, r, *final(self), final(logs)@),
            final(self).players.has(player_id),
            same_turns(old(self).players.entries@, final(self).players.entries@),
    {
        let drawn = self.option_to_buy_deck.draw_or_fail_with(DeckKind::OptionToBuy, &mut self.rng);
        let ghost seen = drawn;
        let r = match drawn {
            Err(e) => Err(e),
            Ok(card) => {
                logs.push(LogEntry::DrewOption { title: card.title.clone() });
                self.players.entries[i].1.hand.push(card);
                Ok(())
            },
        };
        proof {
            assert(is_draw(
                old(self).option_to_buy_deck,
                DeckKind::OptionToBuy,
                seen,
                self.option_to_buy_deck,
            ));
            if seen.is_ok() {
                assert(self.players.entries@ =~= old(self).players.entries@.update(
                    i as int,
                    (player_id, self.players.entries@[i as int].1),
                ));
                assert(self.players.entries@[i as int].0 == player_id);
            }
        }
        r
    }

    /// Moves the player in the seat `i` to `destination`, with the bonus
    /// where it is more than nothing.
    fn move_with_bonus(
        &mut self,
        i: usize,
        player_id: usize,
        destination: usize,
        bonus: i32,
        logs: &mut Vec<LogEntry>,
    )
        requires
            old(self).players.has(player_id),
            i == old(self).players.index_of(player_id),
            i < old(self).players.entries@.len(),
            old(self).players.entries@[i as int].0 == player_id,
            bonus > 0 ==> fits_i32(old(self).players.player(player_id).cash + bonus),
        ensures
            old(self).same_but_players(*final(self)),
            final(self).players.entries@ == old(self).players.entries@.update(
                i as int,
                (
                    player_id,
                    Player {
                        position: destination,
                        cash: if bonus > 0 {
                            (old(self).players.player(player_id).cash + bonus) as i32
                        } else {
                            old(self).players.player(player_id).cash
                        },
                        ..old(self).players.player(player_id)
                    },
                ),
            ),
            final(logs)@ == old(logs)@ + move_entries(
                old(self).players.player(player_id),
                destination,
                bonus,
                old(self).board@,
            ),
            final(self).players.has(player_id),
            same_turns(old(self).players.entries@, final(self).players.entries@),
    {
        let ghost p = old(self).players.player(player_id);
        self.players.entries[i].1.position = destination;
        if destination < self.board.len() {
            logs.push(
                LogEntry::MovedTo {
                    name: self.players.entries[i].1.name.clone(),
                    tile: self.board[destination].name.clone(),
                },
            );
        } else {
            logs.push(
                LogEntry::MovedToIndex {
                    name: self.players.entries[i].1.name.clone(),
                    index: destination,
                },
            );
        }
        if bonus > 0 {
            self.players.entries[i].1.cash = self.players.entries[i].1.cash + bonus;
            logs.push(LogEntry::BonusGained { name: self.players.entries[i].1.name.clone(), bonus });
        }
        proof {
            assert(self.players.entries@ =~= old(self).players.entries@.update(
                i as int,
                (
                    player_id,
                    Player {
                        position: destination,
                        cash: if bonus > 0 {
                            (p.cash + bonus) as i32
                        } else {
                            p.cash
                        },
                        ..p
                    },
                ),
            ));
            assert(self.players.entries@[i as int].0 == player_id);
            assert(logs@ =~= old(logs)@ + move_entries(p, destination, bonus, old(self).board@));
        }
    }

    /// Moves the player in the seat `i` for a harvest elsewhere.
    #[verifier::rlimit(50)]
    fn move_and_harvest(
        &mut self,
        i: usize,
        player_id: usize,
        asset: AssetType,
        destination: usize,
        bonus: i32,
        harvest_type: HarvestType,
        logs: &mut Vec<LogEntry>,
    ) -> (r: Result<(), GameError>)
        requires
            old(self).players.has(player_id),
            i == old(self).players.index_of(player_id),
            i < old(self).players.entries@.len(),
            old(self).players.entries@[i as int].0 == player_id,
        ensures
            is_moved_and_harvested(
                *old(self),
                player_id,
                asset,
                destination,
                bonus,
                harvest_type,
                old(logs)@,
                r,
                *final(self),
                final(logs)@,
            ),
            final(self).players.has(player_id),
            same_turns(old(self).players.entries@, final(self).players.entries@),
    {
        if self.players.entries[i].1.assets.quantity_of(&asset) <= 0 {
            logs.push(LogEntry::CannotMove { name: self.players.entries[i].1.name.clone(), asset });
            return Ok(());
        }
        let cash: i64 = self.players.entries[i].1.cash as i64 + bonus as i64;
        if bonus > 0 && cash > i32::MAX as i64 {
            return Err(GameError::AmountOutOfRange);
        }
        self.move_with_bonus(i, player_id, destination, bonus, logs);
        let ghost moved = *self;
        let ghost moved_logs = logs@;
        let harvest = self.process_harvest(player_id, harvest_type);
        let ghost taken = harvest;
        match harvest {
            Ok(_) => {},
            Err(e) => {
                logs.push(LogEntry::HarvestFailed { reason: e });
            },
        }
        proof {
            lemma_harvest_keeps_seat(moved, player_id, harvest_type, taken, *self);
            assert(logs@ =~= moved_logs + failure_entries(taken));
            assert(is_harvest_processed(moved, player_id, harvest_type, taken, *self));
        }
        Ok(())
    }

    /// Plays the effect of a tile without chaining to another tile.
    #[verifier::rlimit(50)]
    fn apply_effect_unchained(&mut self, player_id: usize, effect: &TileEffect, logs: &mut Vec<LogEntry>) -> (r:
        Result<(), GameError>)
        requires
            old(self).players.has(player_id),
        ensures
            is_effect_applied_unchained(
                *old(self),
                player_id,
                *effect,
                old(logs)@,
                r,
                *final(self),
                final(logs)@,
            ),
            same_turns(old(self).players.entries@, final(self).players.entries@),
    {
        let i = self.players.position(player_id).unwrap();
        let ghost p = old(self).players.player(player_id);
        match effect {
            TileEffect::DrawCard(TileType::FarmerFate) => self.draw_fate(player_id, logs),
            TileEffect::DrawCard(TileType::OptionToBuy) => self.draw_option(i, player_id, logs),
            TileEffect::DrawCard(_) => Ok(()),
            TileEffect::GoToTile(index) => {
                self.players.entries[i].1.position = *index;
                if *index < self.board.len() {
                    logs.push(
                        LogEntry::MovedTo {
                            name: self.players.entries[i].1.name.clone(),
                            tile: self.board[*index].name.clone(),
                        },
                    );
                } else {
                    logs.push(
                        LogEntry::MovedToIndex {
                            name: self.players.entries[i].1.name.clone(),
                            index: *index,
                        },
                    );
                }
                proof {
                    assert(self.players.entries@ =~= old(self).players.entries@.update(
                        i as int,
                        (player_id, Player { position: *index, ..p }),
                    ));
                }
                Ok(())
            },
            TileEffect::MoveAndHarvestIfAsset { asset, destination, bonus, harvest_type } =>
                self.move_and_harvest(
                    i,
                    player_id,
                    *asset,
                    *destination,
                    *bonus,
                    *harvest_type,
                    logs,
                ),
            _ => {
                let r = self.players.entries[i].1.apply_solo_tile_effect(effect, &self.board, logs);
                proof {
                    lemma_tile_keeps_turns(p, *effect, old(self).board@);
                    assert(self.players.entries@ =~= old(self).players.entries@.update(
                        i as int,
                        (player_id, tile_outcome(p, *effect, old(self).board@).0),
                    ));
                }
                r
            },
        }
    }

    /// Resolves a tile without chaining to another tile.
    #[verifier::rlimit(50)]
    fn resolve_tile_unchained(&mut self, player_id: usize, tile: &BoardTile, logs: &mut Vec<LogEntry>) -> (r:
        Result<(), GameError>)
        requires
            old(self).players.has(player_id),
        ensures
            is_tile_resolved_unchained(
                *old(self),
                player_id,
                *tile,
                old(logs)@,
                r,
                *final(self),
                final(logs)@,
            ),
            same_turns(old(self).players.entries@, final(self).players.entries@),
    {
        self.harvest_step(player_id, tile.harvest_type, logs);
        let ghost harvested = *self;
        let ghost harvest_logs = logs@;
        let r = self.apply_effect_unchained(player_id, &tile.effect, logs);
        proof {
            assert(is_harvest_step(
                *old(self),
                player_id,
                tile.harvest_type,
                old(logs)@,
                harvested,
                harvest_logs,
            ));
        }
        r
    }

    /// Plays the effect of a tile.
    #[verifier::rlimit(50)]
    fn apply_effect(&mut self, player_id: usize, effect: &TileEffect, logs: &mut Vec<LogEntry>) -> (r:
        Result<(), GameError>)
        requires
            old(self).players.has(player_id),
        ensures
            is_effect_applied(*old(self), player_id, *effect, old(logs)@, r, *final(self), final(logs)@),
            same_turns(old(self).players.entries@, final(self).players.entries@),
    {
        match effect {
            TileEffect::GoToTile(index) => {
                if *index < self.board.len() {
                    let i = self.players.position(player_id).unwrap();
                    let ghost p = old(self).players.player(player_id);
                    let destination = self.board[*index].clone();
                    self.players.entries[i].1.position = *index;
                    logs.push(
                        LogEntry::MovedTo {
                            name: self.players.entries[i].1.name.clone(),
                            tile: destination.name.clone(),
                        },
                    );
                    let ghost moved = *self;
                    proof {
                        assert(moved.players.entries@ =~= old(self).players.entries@.update(
                            i as int,
                            (player_id, Player { position: *index, ..p }),
                        ));
                        assert(moved.players.entries@[i as int].0 == player_id);
                        assert(old(self).seat_replaced(
                            moved,
                            player_id,
                            Player { position: *index, ..p },
                        ));
                    }
                    self.resolve_tile_unchained(player_id, &destination, logs)
                } else {
                    self.apply_effect_unchained(player_id, effect, logs)
                }
            },
            _ => self.apply_effect_unchained(player_id, effect, logs),
        }
    }

    /// Resolves the tile that the player under `player_id` landed on: the
    /// harvest that the tile belongs to, then the tile's effect, then every
    /// scoreboard.
    ///
    /// Fails for a missing player, for a draw from an exhausted deck, and
    /// where the effect of the tile or of the card it draws fails. A tile
    /// that sends the player on has the tile it leads to resolved, but no
    /// tile beyond that.
    #[verifier::rlimit(50)]
    pub fn handle_tile_event(&mut self, player_id: usize, tile: &BoardTile, logs: &mut Vec<LogEntry>) -> (r:
        Result<(), GameError>)
        ensures
            is_tile_event_handled(
                *old(self),
                player_id,
                *tile,
                old(logs)@,
                r,
                *final(self),
                final(logs)@,
            ),
            old(self).players.has(player_id) || old(self).books_balanced() ==> final(self).books_balanced(),
            same_turns(old(self).players.entries@, final(self).players.entries@),
    {
        if !self.players.contains_key(&player_id) {
            return Err(GameError::PlayerNotFound { player_id });
        }
        self.harvest_step(player_id, tile.harvest_type, logs);
        let ghost harvested = *self;
        let ghost harvest_logs = logs@;
        let r = self.apply_effect(player_id, &tile.effect, logs);
        let ghost resolved = *self;
        self.players.refresh_all();
        proof {
            assert(is_harvest_step(
                *old(self),
                player_id,
                tile.harvest_type,
                old(logs)@,
                harvested,
                harvest_logs,
            ));
            assert(is_tile_resolved(*old(self), player_id, *tile, old(logs)@, r, resolved, logs@));
        }
        r
    }
}

/// Whether the player holds more than nothing of some asset.
pub open spec fn holds_anything(p: Player) -> bool {
    exists|k: AssetType| #[trigger] p.assets.quantity(k) > 0
}

/// The entries that follow a tile of harvest: that it is one, and that a
/// harvest may be due where the player holds anything. None for other
/// tiles.
pub open spec fn harvest_notes(tile_type: TileType, p: Player) -> Seq<LogEntry> {
    if tile_type == TileType::CropIncome || tile_type == TileType::LivestockIncome {
        if holds_anything(p) {
            seq![LogEntry::HarvestTile { tile_type }, LogEntry::HarvestCheck]
        } else {
            seq![LogEntry::HarvestTile { tile_type }]
        }
    } else {
        Seq::empty()
    }
}

/// The name that a player goes by in the log: the player's own, or
/// "Unknown Player" for one who is not at the table.
pub open spec fn name_in_log(state: GameState, player_id: usize, name: String) -> bool {
    if state.players.has(player_id) {
        name == state.players.player(player_id).name
    } else {
        name@ == "Unknown Player"@
    }
}

impl Player {
    /// Whether the player holds more than nothing of some asset.
    pub fn has_any_asset(&self) -> (b: bool)
        ensures
            b == holds_anything(*self),
    {
        let b = self.assets.quantity_of(&AssetType::Grain) > 0 || self.assets.quantity_of(
            &AssetType::Hay,
        ) > 0 || self.assets.quantity_of(&AssetType::Cows) > 0 || self.assets.quantity_of(
            &AssetType::Fruit,
        ) > 0 || self.assets.quantity_of(&AssetType::Tractor) > 0 || self.assets.quantity_of(
            &AssetType::Harvester,
        ) > 0;
        proof {
            if holds_anything(*self) {
                let k = choose|k: AssetType| #[trigger] self.assets.quantity(k) > 0;
                assert(b);
            }
        }
        b
    }
}

impl GameState {
    /// Resolves a tile as `handle_tile_event` does, with an entry before
    /// that names the player and the tile, and entries after that mark a
    /// tile of harvest. Fails where `handle_tile_event` fails.
    #[verifier::rlimit(50)]
    pub fn _handle_tile_effects(&mut self, player_id: usize, tile: &BoardTile, logs: &mut Vec<LogEntry>) -> (r:
        Result<(), GameError>)
        ensures
            exists|name: String, event_logs: Seq<LogEntry>|
                #![trigger is_tile_event_handled(*old(self), player_id, *tile, old(logs)@.push(LogEntry::HandlingEffects { name, tile: tile.name }), r, *final(self), event_logs)]
                {
                    &&& name_in_log(*old(self), player_id, name)
                    &&& is_tile_event_handled(
                        *old(self),
                        player_id,
                        *tile,
                        old(logs)@.push(LogEntry::HandlingEffects { name, tile: tile.name }),
                        r,
                        *final(self),
                        event_logs,
                    )
                    &&& final(logs)@ == if r.is_ok() && final(self).players.has(player_id) {
                        event_logs + harvest_notes(
                            tile.tile_type,
                            final(self).players.player(player_id),
                        )
                    } else {
                        event_logs
                    }
                },
            same_turns(old(self).players.entries@, final(self).players.entries@),
    {
        let name = match self.players.get(&player_id) {
            Some(p) => p.name.clone(),
            None => String::from_str("Unknown Player"),
        };
        let ghost shown = name;
        logs.push(LogEntry::HandlingEffects { name, tile: tile.name.clone() });
        let ghost opening = logs@;
        let r = self.handle_tile_event(player_id, tile, logs);
        let ghost event_logs = logs@;
        if r.is_ok() {
            match self.players.get(&player_id) {
                Some(p) => {
                    match tile.tile_type {
                        TileType::CropIncome | TileType::LivestockIncome => {
                            logs.push(LogEntry::HarvestTile { tile_type: tile.tile_type });
                            if p.has_any_asset() {
                                logs.push(LogEntry::HarvestCheck);
                            }
                        },
                        _ => {},
                    }
                    assert(logs@ =~= event_logs + harvest_notes(tile.tile_type, *p));
                },
                None => {},
            }
        }
        proof {
            assert(is_tile_event_handled(
                *old(self),
                player_id,
                *tile,
                old(logs)@.push(LogEntry::HandlingEffects { name: shown, tile: tile.name }),
                r,
                *self,
                event_logs,
            ));
        }
        r
    }

    /// Puts the player under `player_id` on the position `new_position`
    /// and resolves the tile there as `_handle_tile_effects` does. Fails,
    /// and changes nothing, for a missing player and for a position that
    /// the board has no tile for.
    #[verifier::rlimit(50)]
    pub fn _move_player_and_handle_effects(
        &mut self,
        player_id: usize,
        new_position: usize,
        logs: &mut Vec<LogEntry>,
    ) -> (r: Result<(), GameError>)
        ensures
            !old(self).players.has(player_id) ==> r == Err::<(), GameError>(
                GameError::PlayerNotFound { player_id },
            ) && *final(self) == *old(self) && final(logs)@ == old(logs)@,
            old(self).players.has(player_id) && new_position >= old(self).board@.len() ==> r
                == Err::<(), GameError>(GameError::InvalidPosition { position: new_position })
                && *final(self) == *old(self) && final(logs)@ == old(logs)@,
            old(self).players.has(player_id) && new_position < old(self).board@.len()
                ==> exists|moved: GameState, event_logs: Seq<LogEntry>|
                #![trigger is_tile_event_handled(moved, player_id, old(self).board@[new_position as int], old(logs)@.push(LogEntry::HandlingEffects { name: old(self).players.player(player_id).name, tile: old(self).board@[new_position as int].name }), r, *final(self), event_logs)]
                {
                    &&& old(self).seat_replaced(
                        moved,
                        player_id,
                        Player { position: new_position, ..old(self).players.player(player_id) },
                    )
                    &&& is_tile_event_handled(
                        moved,
                        player_id,
                        old(self).board@[new_position as int],
                        old(logs)@.push(
                            LogEntry::HandlingEffects {
                                name: old(self).players.player(player_id).name,
                                tile: old(self).board@[new_position as int].name,
                            },
                        ),
                        r,
                        *final(self),
                        event_logs,
                    )
                    &&& final(logs)@ == if r.is_ok() && final(self).players.has(player_id) {
                        event_logs + harvest_notes(
                            old(self).board@[new_position as int].tile_type,
                            final(self).players.player(player_id),
                        )
                    } else {
                        event_logs
                    }
                },
            same_turns(old(self).players.entries@, final(self).players.entries@),
    {
        if !self.players.contains_key(&player_id) {
            return Err(GameError::PlayerNotFound { player_id });
        }
        if new_position >= self.board.len() {
            return Err(GameError::InvalidPosition { position: new_position });
        }
        let tile = self.board[new_position].clone();
        let moved_ok = self._move_player(player_id, new_position);
        let ghost moved = *self;
        proof {
            let i = old(self).players.index_of(player_id);
            crate::models::roster::lemma_first_seat(old(self).players.entries@, player_id);
            assert(moved.players.entries@[i].0 == player_id);
            assert(moved.players.has(player_id));
            crate::models::roster::lemma_first_seat(moved.players.entries@, player_id);
            assert(crate::models::roster::is_seat_of(moved.players.entries@, player_id, i)) by {
                assert forall|j: int| 0 <= j < i implies (#[trigger] moved.players.entries@[j]).0
                    != player_id by {
                    assert(old(self).players.entries@[j].0 != player_id);
                }
            }
            crate::models::roster::lemma_seat_of(moved.players.entries@, player_id, i);
            assert(moved.players.player(player_id).name == old(self).players.player(player_id).name);
        }
        let r = self._handle_tile_effects(player_id, &tile, logs);
        proof {
            let witness = choose|name: String, event_logs: Seq<LogEntry>|
                #![trigger is_tile_event_handled(moved, player_id, tile, old(logs)@.push(LogEntry::HandlingEffects { name, tile: tile.name }), r, *self, event_logs)]
                {
                    &&& name_in_log(moved, player_id, name)
                    &&& is_tile_event_handled(
                        moved,
                        player_id,
                        tile,
                        old(logs)@.push(LogEntry::HandlingEffects { name, tile: tile.name }),
                        r,
                        *self,
                        event_logs,
                    )
                    &&& logs@ == if r.is_ok() && self.players.has(player_id) {
                        event_logs + harvest_notes(tile.tile_type, self.players.player(player_id))
                    } else {
                        event_logs
                    }
                };
            assert(witness.0 == old(self).players.player(player_id).name);
            assert(is_tile_event_handled(
                moved,
                player_id,
                old(self).board@[new_position as int],
                old(logs)@.push(
                    LogEntry::HandlingEffects {
                        name: old(self).players.player(player_id).name,
                        tile: old(self).board@[new_position as int].name,
                    },
                ),
                r,
                *self,
                witness.1,
            ));
        }
        r
    }
}

/// A harvest leaves the player in the seat.
pub proof fn lemma_harvest_keeps_seat(
    before: GameState,
    player_id: usize,
    harvest_type: HarvestType,
    r: Result<Vec<LogEntry>, GameError>,
    after: GameState,
)
    requires
        before.players.has(player_id),
        is_harvest_processed(before, player_id, harvest_type, r, after),
    ensures
        after.players.has(player_id),
{
    let i = before.players.index_of(player_id);
    crate::models::roster::lemma_first_seat(before.players.entries@, player_id);
    assert(after.players.entries@.len() == before.players.entries@.len());
    assert(after.players.entries@[i].0 == player_id);
}

} // verus!
