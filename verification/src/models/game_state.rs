//! The state of a game: its players, board, decks and ridges.

use crate::cards::card::Card;
use crate::cards::catalogs::{farmers_fate_catalog, is_farmers_fate_card, is_operating_expense_card, is_option_to_buy_card, operating_expense_catalog, option_to_buy_catalog};
use crate::cards::deck::{ids_unique, is_draw, Deck};
use crate::chance::{fresh_generator, seeded_generator, shuffle_in_place};
use crate::config::{native_player_at, native_players};
use crate::error::{DeckKind, GameError};
use crate::game::board::{create_full_board, is_board_tile};
use crate::game::harvest::HarvestManager;
use crate::game::loan::loan_outcome;
use crate::game::phase::GamePhase;
use crate::log::LogEntry;
use crate::config::{
    STARTING_CASH, STARTING_DEBT, STARTING_LAND, STARTING_POSITION, STARTING_YEAR,
};
use crate::models::asset::{AssetRecord, AssetTable, AssetType};
use crate::models::multiplier::Multiplier;
use crate::models::board::{BoardTile, TileType};
use crate::models::player::{Player, PlayerType};
use crate::models::ridge::Ridge;
use crate::models::roster::Players;
use rand::rngs::StdRng;
use vstd::prelude::*;
use vstd::string::StringExecFns;

verus! {

/// The state of a game.
#[derive(Debug, Clone, PartialEq)]
pub struct GameState {
    pub players: Players,
    pub turn_order: Vec<usize>,
    pub current_turn_index: usize,
    pub phase: GamePhase,
    pub _events: Vec<String>,
    pub board: Vec<BoardTile>,
    pub farmer_fate_deck: Deck,
    pub operating_cost_deck: Deck,
    pub option_to_buy_deck: Deck,
    pub ridges: Vec<Ridge>,
    pub harvest_manager: HarvestManager,
    pub _ridge_leases: Vec<(usize, usize)>,
    /// The generator that every shuffle and every roll of the game is made
    /// with.
    pub rng: StdRng,
}

/// The player with the ten acres of hay and of grain that every farmer
/// starts with, each added where the ledger has no record of it, and the
/// scoreboard computed anew after each addition.
pub open spec fn with_starter_assets(p: Player) -> Player {
    let with_hay = if p.assets.has(AssetType::Hay) {
        p
    } else {
        p.with_asset_added(AssetType::Hay, 10, 0).refreshed()
    };
    if with_hay.assets.has(AssetType::Grain) {
        with_hay
    } else {
        with_hay.with_asset_added(AssetType::Grain, 10, 0).refreshed()
    }
}

/// Whether `p` is a player as a game of the six farmers starts them: a
/// person under the given id and name, with the starting cash, debt, land,
/// year and position, ten acres of hay and ten of grain that cost nothing,
/// a scoreboard that says so, and nothing else.
pub open spec fn is_starting_player(p: Player, id: usize, name: Seq<char>) -> bool {
    &&& p.id == id
    &&& p.name@ == name
    &&& p.player_type == PlayerType::Human
    &&& p.cash == STARTING_CASH
    &&& p.debt == STARTING_DEBT
    &&& p.land == STARTING_LAND
    &&& p.year == STARTING_YEAR
    &&& p.position == STARTING_POSITION
    &&& p.is_active
    &&& p.eligible_for_side_job_pay
    &&& p.turns_taken == 0
    &&& p.crop_yield_multipliers == AssetTable::<Multiplier>::spec_empty()
    &&& p.assets == AssetTable::<AssetRecord>::spec_empty().with(
        AssetType::Hay,
        Some(AssetRecord { quantity: 10, total_cost: 0, total_income: 0 }),
    ).with(AssetType::Grain, Some(AssetRecord { quantity: 10, total_cost: 0, total_income: 0 }))
    &&& p.history@.len() == 0
    &&& p.completed_harvests@.len() == 0
    &&& p.persistent_effects@.len() == 0
    &&& p.hand@.len() == 0
    &&& p.active_persistent_cards@.len() == 0
    &&& p.total_ridge_value == 0
    &&& p.total_asset_value == 40000
    &&& p.total_income == 0
    &&& p.total_expenses == 0
    &&& p.net_worth == STARTING_CASH - STARTING_DEBT + 40000
}

/// Whether the four ridges are the ones of the game, unleased and empty.
pub open spec fn are_fresh_ridges(ridges: Seq<Ridge>) -> bool {
    &&& ridges.len() == 4
    &&& is_fresh_ridge(ridges[0], "Toppenish Ridge"@, 25000, 50)
    &&& is_fresh_ridge(ridges[1], "Ahtanum Ridge"@, 10000, 20)
    &&& is_fresh_ridge(ridges[2], "Cascade Ridge"@, 20000, 40)
    &&& is_fresh_ridge(ridges[3], "Rattlesnake Ridge"@, 15000, 30)
}

/// Whether the ridge has this name, cost and capacity, no lessee and no cows.
pub open spec fn is_fresh_ridge(r: Ridge, name: Seq<char>, cost: i32, capacity: i32) -> bool {
    &&& r.name@ == name
    &&& r.cost == cost
    &&& r.initial_cow_count == capacity
    &&& r.cow_count == 0
    &&& r.leased_by.is_none()
}

/// The four ridges of the game.
fn fresh_ridges() -> (ridges: Vec<Ridge>)
    ensures
        are_fresh_ridges(ridges@),
{
    let mut ridges: Vec<Ridge> = Vec::new();
    ridges.push(Ridge::new(String::from_str("Toppenish Ridge"), 25000, 50));
    ridges.push(Ridge::new(String::from_str("Ahtanum Ridge"), 10000, 20));
    ridges.push(Ridge::new(String::from_str("Cascade Ridge"), 20000, 40));
    ridges.push(Ridge::new(String::from_str("Rattlesnake Ridge"), 15000, 30));
    ridges
}

/// Gives a player the starter assets.
fn endow(player: &mut Player)
    ensures
        *final(player) == with_starter_assets(*old(player)),
{
    if !player.assets.contains_key(&AssetType::Hay) {
        player.add_asset(AssetType::Hay, 10, 0);
    }
    if !player.assets.contains_key(&AssetType::Grain) {
        player.add_asset(AssetType::Grain, 10, 0);
    }
}

impl GameState {
    /// Whether `after` is this state but for its players.
    pub open spec fn same_but_players(&self, after: GameState) -> bool {
        after == (GameState { players: after.players, ..*self })
    }

    /// Whether the books of every player balance: the net worth on the
    /// scoreboard is cash less debt plus the value of the holdings and of the
    /// ridges, as the scoreboard has them.
    pub open spec fn books_balanced(&self) -> bool {
        forall|j: int|
            0 <= j < self.players.entries@.len() ==> (
            #[trigger] self.players.entries@[j]).1.net_worth_identity()
    }

    /// Whether `after` is this state but for its players and its generator.
    pub open spec fn same_but_players_and_chance(&self, after: GameState) -> bool {
        after == (GameState { players: after.players, rng: after.rng, ..*self })
    }

    /// Whether `after` is this state with the same players in the same
    /// seats.
    pub open spec fn untouched(&self, after: GameState) -> bool {
        &&& self.same_but_players(after)
        &&& after.players.entries@ == self.players.entries@
    }

    /// Whether `after` is this state but for the player under `id`, who has
    /// become `q`.
    pub open spec fn seat_replaced(&self, after: GameState, id: usize, q: Player) -> bool {
        &&& self.same_but_players(after)
        &&& after.players.entries@ == self.players.entries@.update(
            self.players.index_of(id),
            (id, q),
        )
    }

    /// Whether the decks, the board and the ridges are those of a game that
    /// is about to begin: the two fate and expense decks in the order of
    /// their catalogs, the options shuffled, every discard pile empty, no
    /// deck with two cards of one id, the keeper of harvests with an expense
    /// deck of its own, the full board, the four ridges unleased, and the
    /// first turn in spring.
    pub open spec fn is_freshly_set_up(&self) -> bool {
        &&& self.current_turn_index == 0
        &&& self.phase == GamePhase::SpringPlanting
        &&& self._events@.len() == 0
        &&& self._ridge_leases@.len() == 0
        &&& self.board@.len() == 49
        &&& forall|i: int| 0 <= i < 49 ==> is_board_tile(i, #[trigger] self.board@[i])
        &&& self.farmer_fate_deck.draw_pile@.len() == 20
        &&& forall|i: int|
            0 <= i < 20 ==> is_farmers_fate_card(i, #[trigger] self.farmer_fate_deck.draw_pile@[i])
        &&& self.farmer_fate_deck.discard_pile@.len() == 0
        &&& self.operating_cost_deck.draw_pile@.len() == 15
        &&& forall|i: int|
            0 <= i < 15 ==> is_operating_expense_card(
                i,
                #[trigger] self.operating_cost_deck.draw_pile@[i],
            )
        &&& self.operating_cost_deck.discard_pile@.len() == 0
        &&& self.harvest_manager.operating_cost_deck.draw_pile@
            == self.operating_cost_deck.draw_pile@
        &&& self.harvest_manager.operating_cost_deck.discard_pile@.len() == 0
        &&& self.option_to_buy_deck.draw_pile@.len() == 10
        &&& exists|catalog: Seq<Card>|
            #![trigger catalog.to_multiset()]
            catalog.len() == 10 && (forall|i: int|
                0 <= i < 10 ==> is_option_to_buy_card(i, #[trigger] catalog[i]))
                && self.option_to_buy_deck.draw_pile@.to_multiset() == catalog.to_multiset()
        &&& self.option_to_buy_deck.discard_pile@.len() == 0
        &&& ids_unique(self.farmer_fate_deck.cards())
        &&& ids_unique(self.operating_cost_deck.cards())
        &&& ids_unique(self.option_to_buy_deck.cards())
        &&& ids_unique(self.harvest_manager.operating_cost_deck.cards())
        &&& are_fresh_ridges(self.ridges@)
    }

    /// Sets up everything but the players.
    fn set_up(players: Players, turn_order: Vec<usize>, rng: StdRng) -> (g: Self)
        ensures
            g.players == players,
            g.turn_order == turn_order,
            g.is_freshly_set_up(),
    {
        let mut rng = rng;
        let operating_cost_deck = Deck::from_catalog(operating_expense_catalog());
        let farmer_fate_deck = Deck::from_catalog(farmers_fate_catalog());
        let options = option_to_buy_catalog();
        let ghost catalog = options@;
        let mut option_to_buy_deck = Deck::from_catalog(options);
        option_to_buy_deck.shuffle_with(&mut rng);
        let harvest_manager = HarvestManager::new(operating_cost_deck.clone());
        let g = GameState {
            players,
            turn_order,
            current_turn_index: 0,
            phase: GamePhase::SpringPlanting,
            _events: Vec::new(),
            board: create_full_board(),
            farmer_fate_deck,
            option_to_buy_deck,
            operating_cost_deck,
            ridges: fresh_ridges(),
            harvest_manager,
            _ridge_leases: Vec::new(),
            rng,
        };
        assert(g.option_to_buy_deck.draw_pile@.to_multiset() == catalog.to_multiset());
        g
    }

    /// Seats the six farmers that the game comes with and sets up the rest,
    /// all chance from the given generator.
    fn seat_natives(rng: StdRng) -> (g: Self)
        ensures
            g.is_freshly_set_up(),
            g.players.entries@.len() == 6,
            g.players.distinct(),
            forall|i: int|
                0 <= i < 6 ==> (#[trigger] g.players.entries@[i]).0 == i && is_starting_player(
                    g.players.entries@[i].1,
                    i as usize,
                    native_player_at(i).0,
                ),
            g.turn_order@.to_multiset() == seq![0usize, 1, 2, 3, 4, 5].to_multiset(),
            g.books_balanced(),
    {
        let natives = native_players();
        let mut players = Players::new();
        let mut turn_order: Vec<usize> = Vec::new();
        let mut id: usize = 0;
        while id < 6
            invariant
                id <= 6,
                natives.len() == 6,
                forall|i: int|
                    0 <= i < 6 ==> (#[trigger] natives[i]).name@ == native_player_at(i).0,
                players.entries@.len() == id,
                players.distinct(),
                turn_order@ == Seq::new(id as nat, |i: int| i as usize),
                forall|i: int|
                    0 <= i < id ==> (#[trigger] players.entries@[i]).0 == i && is_starting_player(
                        players.entries@[i].1,
                        i as usize,
                        native_player_at(i).0,
                    ),
            decreases 6 - id,
        {
            let mut player = Player::new(id, String::from_str(natives[id].name), PlayerType::Human);
            player.add_asset(AssetType::Hay, 10, 0);
            player.add_asset(AssetType::Grain, 10, 0);
            let ghost before = players.entries@;
            proof {
                if players.has(id) {
                    let j = choose|j: int| 0 <= j < before.len() && (#[trigger] before[j]).0 == id;
                    assert(before[j].0 == j);
                }
            }
            players.insert(id, player);
            turn_order.push(id);
            assert(turn_order@ =~= Seq::new((id + 1) as nat, |i: int| i as usize));
            id += 1;
        }
        assert(turn_order@ =~= seq![0usize, 1, 2, 3, 4, 5]);
        let mut g = GameState::set_up(players, turn_order, rng);
        shuffle_in_place(&mut g.turn_order, &mut g.rng);
        g
    }

    /// A game of the six farmers that the game comes with, each a person,
    /// with the starter assets, seated by their place among the six, and
    /// taking turns in a shuffled order. The generator of the game is a
    /// fresh one.
    pub fn new() -> (g: Self)
        ensures
            g.is_freshly_set_up(),
            g.players.entries@.len() == 6,
            g.players.distinct(),
            forall|i: int|
                0 <= i < 6 ==> (#[trigger] g.players.entries@[i]).0 == i && is_starting_player(
                    g.players.entries@[i].1,
                    i as usize,
                    native_player_at(i).0,
                ),
            g.turn_order@.to_multiset() == seq![0usize, 1, 2, 3, 4, 5].to_multiset(),
            g.books_balanced(),
    {
        GameState::seat_natives(fresh_generator())
    }

    /// A game as `new` makes it, with a generator that is made from `seed`:
    /// two games of one seed take the same course.
    pub fn new_seeded(seed: u64) -> (g: Self)
        ensures
            g.is_freshly_set_up(),
            g.players.entries@.len() == 6,
            g.players.distinct(),
            forall|i: int|
                0 <= i < 6 ==> (#[trigger] g.players.entries@[i]).0 == i && is_starting_player(
                    g.players.entries@[i].1,
                    i as usize,
                    native_player_at(i).0,
                ),
            g.turn_order@.to_multiset() == seq![0usize, 1, 2, 3, 4, 5].to_multiset(),
            g.books_balanced(),
    {
        GameState::seat_natives(seeded_generator(seed))
    }

    /// Gives every player the starter assets that the ledger lacks and sets
    /// up the rest, all chance from the given generator.
    fn seat_players(players: Players, turn_order: Vec<usize>, rng: StdRng) -> (g: Self)
        ensures
            g.is_freshly_set_up(),
            g.turn_order == turn_order,
            g.players.entries@.len() == players.entries@.len(),
            forall|i: int|
                0 <= i < players.entries@.len() ==> (#[trigger] g.players.entries@[i]).0
                    == players.entries@[i].0 && g.players.entries@[i].1 == with_starter_assets(
                    players.entries@[i].1,
                ),
    {
        let mut players = players;
        let ghost given = players.entries@;
        let mut i: usize = 0;
        while i < players.entries.len()
            invariant
                i <= players.entries@.len(),
                players.entries@.len() == given.len(),
                forall|j: int|
                    0 <= j < i ==> (#[trigger] players.entries@[j]).0 == given[j].0
                        && players.entries@[j].1 == with_starter_assets(given[j].1),
                forall|j: int| i <= j < given.len() ==> players.entries@[j] == given[j],
            decreases players.entries@.len() - i,
        {
            endow(&mut players.entries[i].1);
            i += 1;
        }
        GameState::set_up(players, turn_order, rng)
    }

    /// A game of the given players in the given order of turns. Every
    /// player is given the starter assets that the ledger lacks. The
    /// generator of the game is a fresh one.
    pub fn new_with_players(players: Players, turn_order: Vec<usize>) -> (g: Self)
        ensures
            g.is_freshly_set_up(),
            g.turn_order == turn_order,
            g.players.entries@.len() == players.entries@.len(),
            forall|i: int|
                0 <= i < players.entries@.len() ==> (#[trigger] g.players.entries@[i]).0
                    == players.entries@[i].0 && g.players.entries@[i].1 == with_starter_assets(
                    players.entries@[i].1,
                ),
    {
        GameState::seat_players(players, turn_order, fresh_generator())
    }

    /// A game as `new_with_players` makes it, with a generator that is made
    /// from `seed`: two games of one seed take the same course.
    pub fn new_with_players_seeded(players: Players, turn_order: Vec<usize>, seed: u64) -> (g:
        Self)
        ensures
            g.is_freshly_set_up(),
            g.turn_order == turn_order,
            g.players.entries@.len() == players.entries@.len(),
            forall|i: int|
                0 <= i < players.entries@.len() ==> (#[trigger] g.players.entries@[i]).0
                    == players.entries@[i].0 && g.players.entries@[i].1 == with_starter_assets(
                    players.entries@[i].1,
                ),
    {
        GameState::seat_players(players, turn_order, seeded_generator(seed))
    }
}

impl GameState {
    /// Draws a card from the deck that goes with a tile type: fate, fees or
    /// options, with the generator of the game for the shuffle that a draw
    /// may need. Tiles of other types have no deck.
    pub fn draw_card(&mut self, tile_type: TileType) -> (r: Result<Card, GameError>)
        ensures
            match tile_type {
                TileType::FarmerFate => is_draw(
                    old(self).farmer_fate_deck,
                    DeckKind::FarmersFate,
                    r,
                    final(self).farmer_fate_deck,
                ) && *final(self) == (GameState {
                    farmer_fate_deck: final(self).farmer_fate_deck,
                    rng: final(self).rng,
                    ..*old(self)
                }),
                TileType::PayFees => is_draw(
                    old(self).operating_cost_deck,
                    DeckKind::OperatingCost,
                    r,
                    final(self).operating_cost_deck,
                ) && *final(self) == (GameState {
                    operating_cost_deck: final(self).operating_cost_deck,
                    rng: final(self).rng,
                    ..*old(self)
                }),
                TileType::OptionToBuy => is_draw(
                    old(self).option_to_buy_deck,
                    DeckKind::OptionToBuy,
                    r,
                    final(self).option_to_buy_deck,
                ) && *final(self) == (GameState {
                    option_to_buy_deck: final(self).option_to_buy_deck,
                    rng: final(self).rng,
                    ..*old(self)
                }),
                _ => r == Err::<Card, GameError>(GameError::InvalidTileType) && *final(self) == *old(self),
            },
    {
        match tile_type {
            TileType::FarmerFate => self.farmer_fate_deck.draw_or_fail_with(
                DeckKind::FarmersFate,
                &mut self.rng,
            ),
            TileType::PayFees => self.operating_cost_deck.draw_or_fail_with(
                DeckKind::OperatingCost,
                &mut self.rng,
            ),
            TileType::OptionToBuy => self.option_to_buy_deck.draw_or_fail_with(
                DeckKind::OptionToBuy,
                &mut self.rng,
            ),
            _ => Err(GameError::InvalidTileType),
        }
    }

    /// Makes the player under `player_id` pay `required_amount`, from cash
    /// or with a forced loan, and computes the scoreboard anew.
    ///
    /// Fails for a missing player, for a loan that would lift the debt over
    /// the ceiling, and for amounts out of range; a failed payment changes
    /// nothing. No payment lifts a debt over the ceiling that was not over
    /// it.
    pub fn handle_forced_loan(
        &mut self,
        player_id: usize,
        required_amount: i32,
        logs: &mut Vec<LogEntry>,
    ) -> (r: Result<(), GameError>)
        ensures
            !old(self).players.has(player_id) ==> r == Err::<(), GameError>(
                GameError::PlayerNotFound { player_id },
            ) && *final(self) == *old(self) && final(logs)@ == old(logs)@,
            old(self).players.has(player_id) ==> r == loan_outcome(
                old(self).players.player(player_id),
                required_amount,
            ).2 && final(logs)@ =~= old(logs)@ + loan_outcome(
                old(self).players.player(player_id),
                required_amount,
            ).1,
            old(self).players.has(player_id) && r.is_ok() ==> old(self).seat_replaced(
                *final(self),
                player_id,
                loan_outcome(old(self).players.player(player_id), required_amount).0.refreshed(),
            ) && final(self).players.player(player_id).net_worth_identity(),
            r.is_err() ==> old(self).untouched(*final(self)),
            old(self).books_balanced() ==> final(self).books_balanced(),
            old(self).players.has(player_id) && old(self).players.player(player_id).debt
                <= crate::config::MAX_DEBT ==> final(self).players.has(player_id) && final(self).players.player(player_id).debt <= crate::config::MAX_DEBT,
    {
        let i = match self.players.position(player_id) {
            Some(i) => i,
            None => {
                return Err(GameError::PlayerNotFound { player_id });
            },
        };
        let r = self.players.entries[i].1.pay_or_borrow(required_amount, logs);
        if r.is_ok() {
            self.players.entries[i].1.update_scoreboard();
            proof {
                crate::models::roster::lemma_seat_of(self.players.entries@, player_id, i as int);
            }
        } else {
            assert(self.players.entries@ =~= old(self).players.entries@);
        }
        proof {
            crate::models::roster::lemma_seat_of(self.players.entries@, player_id, i as int);
            if r.is_ok() {
                let q = loan_outcome(old(self).players.player(player_id), required_amount).0.refreshed();
                assert(old(self).players.index_of(player_id) == i);
                assert(self.players.entries@[i as int].1 == q);
                assert(self.players.entries@[i as int].0 == player_id);
                assert(self.players.entries@ =~= old(self).players.entries@.update(i as int, (player_id, q)));
                assert(old(self).same_but_players(*self));
                assert(self.players.player(player_id) == q);
            }
        }
        r
    }
}

} // verus!
