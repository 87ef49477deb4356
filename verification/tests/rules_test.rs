use farming_game::cards::card::{Card, CardSource};
use farming_game::cards::catalogs::{
    farmers_fate_catalog, operating_expense_catalog, option_to_buy_catalog,
};
use farming_game::cards::deck::{check_clumpy, keeps_shuffle, Deck};
use farming_game::config::{create_ai_player, native_players, MAX_DEBT, WINNING_NET_WORTH};
use farming_game::error::{DeckKind, ErrorKind, GameError};
use farming_game::game::bankruptcy::{sorted_lots, Bid};
use farming_game::game::board::create_full_board;
use farming_game::game::conversion::tile_effect_to_game_effect;
use farming_game::game::fan_out::roll_for_others;
use farming_game::game::game_loop::handle_player_turn;
use farming_game::game::harvest::{harvest_income, HarvestManager, YieldTable};
use farming_game::game::loan::interest_due;
use farming_game::game::GameEffect;
use farming_game::log::{messages, LogEntry};
use farming_game::models::board::{BoardTile, HarvestType, TileEffect, TileType};
use farming_game::models::multiplier::apply_both;
use farming_game::models::player::{EffectType, PlayerType};
use farming_game::models::{AssetRecord, AssetType, GameState, Multiplier, Player, Players, Ridge};
use farming_game::text::int_to_string;
use rand::rngs::StdRng;
use rand::SeedableRng;

fn card(id: usize, title: &str, effect: GameEffect) -> Card {
    Card {
        id,
        title: title.to_string(),
        description: "A card".to_string(),
        description_brief: "Card".to_string(),
        effect,
        default_quantity: 1,
        source: CardSource::BaseGame,
    }
}

fn tile(effect: TileEffect) -> BoardTile {
    BoardTile {
        index: 0,
        name: "Somewhere".to_string(),
        tile_type: TileType::Blank,
        harvest_type: HarvestType::NoHarvest,
        effect,
        description: None,
        description_brief: None,
    }
}

fn farmer(id: usize, name: &str, cash: i32, debt: i32) -> Player {
    let mut p = Player::new(id, name.to_string(), PlayerType::Human);
    p.cash = cash;
    p.debt = debt;
    p
}

fn table(players: Vec<Player>) -> GameState {
    let mut seats = Players::new();
    let mut order = Vec::new();
    for p in players {
        order.push(p.id);
        seats.insert(p.id, p);
    }
    let mut game = GameState::new_with_players(seats, order);
    game.farmer_fate_deck = Deck::new();
    game.option_to_buy_deck = Deck::new();
    game
}

fn sorted_ids(deck: &Deck) -> Vec<usize> {
    let mut ids: Vec<usize> = deck.draw_pile.iter().chain(deck.discard_pile.iter()).map(|c| c.id).collect();
    ids.sort();
    ids
}

fn texts(logs: &Vec<LogEntry>) -> Vec<String> {
    messages(logs)
}

// ---- decks

#[test]
fn deck_keeps_its_cards_through_draws_discards_and_shuffles() {
    let mut deck = Deck::from_catalog(operating_expense_catalog());
    let all = sorted_ids(&deck);
    assert_eq!(all.len(), 15);
    let mut held: Vec<Card> = Vec::new();
    for round in 0..60 {
        if round % 7 == 0 {
            deck.shuffle();
        }
        if round % 3 != 2 {
            if let Some(c) = deck.draw() {
                held.push(c);
            }
        } else if let Some(c) = held.pop() {
            deck.discard(c);
        }
        let mut ids = sorted_ids(&deck);
        ids.extend(held.iter().map(|c| c.id));
        ids.sort();
        assert_eq!(ids, all);
        let mut unique = ids.clone();
        unique.dedup();
        assert_eq!(unique.len(), ids.len());
        assert_eq!(deck.draw_pile.len() + deck.discard_pile.len() + held.len(), 15);
    }
}

#[test]
fn draw_takes_the_top_card_and_leaves_the_rest_in_order() {
    let mut deck = Deck::from_catalog(operating_expense_catalog());
    let first = deck.draw().unwrap();
    assert_eq!(first.id, 100);
    assert_eq!(deck.draw_pile.len(), 14);
    assert_eq!(deck.draw_pile[0].id, 101);
}

#[test]
fn draw_refills_from_the_discard_pile() {
    let mut deck = Deck::new();
    deck.discard(card(1, "a", GameEffect::Income(1)));
    deck.discard(card(2, "b", GameEffect::Income(2)));
    deck.discard(card(3, "c", GameEffect::Income(3)));
    let drawn = deck.draw().unwrap();
    assert!(deck.discard_pile.is_empty());
    assert_eq!(deck.draw_pile.len(), 2);
    let mut ids = vec![drawn.id, deck.draw_pile[0].id, deck.draw_pile[1].id];
    ids.sort();
    assert_eq!(ids, vec![1, 2, 3]);
}

#[test]
fn draw_from_two_empty_piles_gives_nothing() {
    let mut deck = Deck::new();
    assert!(deck.draw().is_none());
    assert_eq!(
        deck.draw_or_fail(DeckKind::OptionToBuy),
        Err(GameError::DeckExhausted { deck: DeckKind::OptionToBuy })
    );
}

#[test]
fn shuffle_changes_the_order_of_a_deck() {
    let mut changed = false;
    for _ in 0..20 {
        let mut deck = Deck::from_catalog(farmers_fate_catalog());
        let before: Vec<usize> = deck.draw_pile.iter().map(|c| c.id).collect();
        deck.shuffle();
        let after: Vec<usize> = deck.draw_pile.iter().map(|c| c.id).collect();
        let mut sorted_after = after.clone();
        sorted_after.sort();
        let mut sorted_before = before.clone();
        sorted_before.sort();
        assert_eq!(sorted_after, sorted_before);
        if after != before {
            changed = true;
        }
    }
    assert!(changed);
}

fn options_deck(copies: usize) -> Deck {
    let mut cards = Vec::new();
    let mut next_id = 1000;
    for _ in 0..copies {
        for c in option_to_buy_catalog() {
            let mut c = c.clone();
            c.id = next_id;
            next_id += 1;
            cards.push(c);
        }
    }
    Deck::from_catalog(cards)
}

#[test]
fn shuffled_options_are_spread_out_or_five_shuffles_were_made() {
    for _ in 0..50 {
        let mut deck = options_deck(3);
        assert_eq!(deck.draw_pile.len(), 30);
        let report = deck.shuffle_reporting();
        assert!(report.attempts >= 1 && report.attempts <= 5);
        assert_eq!(report.clumpy, check_clumpy(&deck.draw_pile));
        assert!(!check_clumpy(&deck.draw_pile) || report.attempts == 5);
        assert_eq!(deck.draw_pile.len(), 30);
    }
}

#[test]
fn a_pile_of_only_ridges_stays_clumped_after_five_shuffles() {
    let mut cards = Vec::new();
    for i in 0..25 {
        cards.push(card(
            i,
            "Lease",
            GameEffect::LeaseRidge { name: "Cascade Ridge".to_string(), cost: 40000, cow_count: 40 },
        ));
    }
    let mut deck = Deck::from_catalog(cards);
    let report = deck.shuffle_reporting();
    assert_eq!(report.attempts, 5);
    assert!(report.clumpy);
    assert!(check_clumpy(&deck.draw_pile));
}

#[test]
fn small_and_plain_piles_are_shuffled_once() {
    let mut small = Deck::from_catalog(option_to_buy_catalog());
    let report = small.shuffle_reporting();
    assert_eq!(report.attempts, 1);
    assert!(!report.clumpy);
    let mut plain = Deck::from_catalog(operating_expense_catalog());
    assert_eq!(plain.shuffle_reporting().attempts, 1);
    let mut empty = Deck::new();
    assert_eq!(empty.shuffle_reporting().attempts, 0);
}

#[test]
fn clumps_are_counted_in_the_top_twenty() {
    let mut cards = Vec::new();
    for i in 0..8 {
        cards.push(card(i, "Tractor", GameEffect::OptionalBuyAsset { asset: AssetType::Tractor, quantity: 1, cost: 10000 }));
    }
    for i in 8..20 {
        cards.push(card(i, if i % 2 == 0 { "Hay" } else { "Lease" }, if i % 2 == 0 {
            GameEffect::OptionalBuyAsset { asset: AssetType::Hay, quantity: 10, cost: 20000 }
        } else {
            GameEffect::LeaseRidge { name: "Ahtanum Ridge".to_string(), cost: 20000, cow_count: 20 }
        }));
    }
    assert!(check_clumpy(&cards));
    cards[0] = card(0, "Cows", GameEffect::OptionalBuyAsset { asset: AssetType::Cows, quantity: 10, cost: 5000 });
    assert!(!check_clumpy(&cards));
}

// ---- forced payments

#[test]
fn forced_loan_comes_in_steps_of_5000_with_a_fifth_as_fee() {
    let mut game = table(vec![farmer(0, "Alice", 100, 0)]);
    let mut logs = Vec::new();
    game.handle_forced_loan(0, 1500, &mut logs).unwrap();
    let p = game.players.get(&0).unwrap();
    assert_eq!(p.debt, 5000);
    assert_eq!(p.cash, 100 + 4000 - 1500);
    assert!(texts(&logs).iter().any(|l| l == "Took loan: $5000 (bank keeps 20%: $1000). Cash received: $4000, New debt: $5000"));
}

#[test]
fn forced_loan_of_two_steps() {
    let mut game = table(vec![farmer(0, "Alice", 0, 1000)]);
    let mut logs = Vec::new();
    game.handle_forced_loan(0, 5001, &mut logs).unwrap();
    let p = game.players.get(&0).unwrap();
    assert_eq!(p.debt, 11000);
    assert_eq!(p.cash, 8000 - 5001);
}

#[test]
fn forced_loan_is_the_same_under_every_name() {
    for name in ["Alice", "Test Player", "Mt. St. Helens"] {
        let mut game = table(vec![farmer(0, name, 100, 0)]);
        let mut logs = Vec::new();
        game.handle_forced_loan(0, 1500, &mut logs).unwrap();
        let p = game.players.get(&0).unwrap();
        assert_eq!((p.cash, p.debt), (2600, 5000));
        assert_eq!(
            texts(&logs),
            vec!["Took loan: $5000 (bank keeps 20%: $1000). Cash received: $4000, New debt: $5000"]
        );
    }
}

#[test]
fn forced_loan_is_refused_at_the_ceiling_under_every_name() {
    for name in ["Alice", "Test Player", "Mt. St. Helens"] {
        let mut game = table(vec![farmer(0, name, 100, 48000)]);
        let before = game.clone();
        let mut logs = Vec::new();
        let r = game.handle_forced_loan(0, 1500, &mut logs);
        assert_eq!(r.unwrap_err(), GameError::DebtLimitExceeded { player_id: 0, required: 1500 });
        assert_eq!(game, before);
    }
}

#[test]
fn expense_cards_are_forced_payments_under_every_name() {
    for name in ["Alice", "Test Player"] {
        let mut game = table(vec![farmer(0, name, 500, 49500)]);
        let before = game.clone();
        let mut logs = Vec::new();
        let bill = card(1, "Bill", GameEffect::Expense(1000));
        let r = game.apply_card_effect(0, &bill, &mut logs);
        assert_eq!(r.unwrap_err(), GameError::DebtLimitExceeded { player_id: 0, required: 1000 });
        assert_eq!(game, before);

        let mut game = table(vec![farmer(0, name, 100, 0)]);
        let bill = card(2, "Bill", GameEffect::Expense(4000));
        game.apply_card_effect(0, &bill, &mut Vec::new()).unwrap();
        let p = game.players.get(&0).unwrap();
        assert_eq!((p.cash, p.debt), (100, 5000));
    }
}

#[test]
fn forced_loan_over_the_ceiling_is_refused_and_changes_nothing() {
    let mut game = table(vec![farmer(0, "Alice", 0, 48000)]);
    let before = game.clone();
    let mut logs = Vec::new();
    let r = game.handle_forced_loan(0, 3000, &mut logs);
    assert_eq!(r, Err(GameError::DebtLimitExceeded { player_id: 0, required: 3000 }));
    assert_eq!(r.unwrap_err().kind(), ErrorKind::Insolvency);
    assert_eq!(game, before);
    assert!(texts(&logs).iter().any(|l| l.contains("would exceed debt limit of $50000")));
}

#[test]
fn forced_loans_never_lift_the_debt_over_the_ceiling() {
    let mut game = table(vec![farmer(0, "Alice", 0, 0)]);
    let mut logs = Vec::new();
    for _ in 0..40 {
        let _ = game.handle_forced_loan(0, 4000, &mut logs);
        assert!(game.players.get(&0).unwrap().debt <= MAX_DEBT);
    }
    assert_eq!(game.players.get(&0).unwrap().debt, 50000);
}

#[test]
fn forced_loan_for_a_missing_player_fails() {
    let mut game = table(vec![farmer(0, "Alice", 0, 0)]);
    let mut logs = Vec::new();
    let r = game.handle_forced_loan(7, 10, &mut logs);
    assert_eq!(r, Err(GameError::PlayerNotFound { player_id: 7 }));
    assert_eq!(r.unwrap_err().kind(), ErrorKind::Lookup);
}

#[test]
fn payment_out_of_range_is_refused() {
    let mut game = table(vec![farmer(0, "Alice", i32::MAX, 0)]);
    let mut logs = Vec::new();
    assert_eq!(game.handle_forced_loan(0, -1, &mut logs), Err(GameError::AmountOutOfRange));
    assert_eq!(game.players.get(&0).unwrap().cash, i32::MAX);
}

#[test]
fn interest_is_a_tenth_rounded_half_away_from_zero() {
    assert_eq!(interest_due(3500), 350);
    assert_eq!(interest_due(3454), 345);
    assert_eq!(interest_due(3455), 346);
    assert_eq!(interest_due(4), 0);
    assert_eq!(interest_due(5), 1);
    assert_eq!(interest_due(0), 0);
    assert_eq!(interest_due(-15), -2);
}

// ---- harvests

#[test]
fn harvest_income_follows_the_table() {
    let mut p = farmer(0, "Alice", 0, 0);
    p.add_asset(AssetType::Hay, 25, 0);
    let expected = [800, 1200, 2000, 3000, 4400, 6000];
    for roll in 0..6u8 {
        let (net, logs) = harvest_income(&p, AssetType::Hay, YieldTable::Hay, &HarvestType::HayCutting1, 300, roll).unwrap();
        assert_eq!(net, expected[roll as usize] - 300);
        assert_eq!(logs.len(), 1);
    }
    let (net, _) = harvest_income(&p, AssetType::Hay, YieldTable::Hay, &HarvestType::HayCutting1, 0, 2).unwrap();
    assert_eq!(net, 2000);
}

#[test]
fn harvest_tables_of_fruit_grain_and_livestock() {
    let mut p = farmer(0, "Alice", 0, 0);
    p.add_asset(AssetType::Fruit, 5, 0);
    p.add_asset(AssetType::Grain, 10, 0);
    p.add_asset(AssetType::Cows, 30, 0);
    assert_eq!(harvest_income(&p, AssetType::Fruit, YieldTable::Fruit, &HarvestType::Apple, 0, 5).unwrap().0, 17500);
    assert_eq!(harvest_income(&p, AssetType::Grain, YieldTable::Grain, &HarvestType::Corn, 0, 1).unwrap().0, 1500);
    assert_eq!(harvest_income(&p, AssetType::Cows, YieldTable::Livestock, &HarvestType::Livestock, 0, 0).unwrap().0, 4200);
}

#[test]
fn harvest_factors_are_applied_and_rounded_once() {
    let mut p = farmer(0, "Alice", 0, 0);
    p.add_asset(AssetType::Cows, 10, 0);
    p.set_crop_multiplier(AssetType::Cows, Multiplier::from_percent(50));
    p.add_persistent_effect(EffectType::LivestockHarvestBonus(Multiplier::from_percent(150)), 2);
    let (net, logs) = harvest_income(&p, AssetType::Cows, YieldTable::Livestock, &HarvestType::Livestock, 100, 0).unwrap();
    assert_eq!(net, 1050 - 100);
    assert_eq!(
        texts(&logs)[0],
        "Livestock Sales: Roll 1 = $1400/block x 10 cows - Income: $1400 x0.5 multiplier = x1.5 livestock = $1050 - $100 operating expense = $950"
    );
    assert_eq!(apply_both(3, Multiplier::from_percent(50), Multiplier::from_percent(100)), 2);
    assert_eq!(apply_both(-3, Multiplier::from_percent(50), Multiplier::from_percent(100)), -2);
    assert_eq!(Multiplier::from_percent(50).apply(5), 3);
    assert_eq!(Multiplier::from_percent(u32::MAX).apply(i32::MAX), i32::MAX);
}

#[test]
fn less_than_a_block_yields_nothing() {
    let mut p = farmer(0, "Alice", 0, 0);
    p.add_asset(AssetType::Fruit, 4, 0);
    let (net, logs) = harvest_income(&p, AssetType::Fruit, YieldTable::Fruit, &HarvestType::Cherry, 500, 3).unwrap();
    assert_eq!(net, 0);
    assert_eq!(texts(&logs), vec!["Not enough Fruit for harvest (need 5).".to_string()]);
}

#[test]
fn equipment_bears_no_harvest() {
    let mut p = farmer(0, "Alice", 0, 0);
    p.add_asset(AssetType::Tractor, 1, 0);
    let r = harvest_income(&p, AssetType::Tractor, YieldTable::Grain, &HarvestType::Corn, 0, 0);
    assert_eq!(r.unwrap_err(), GameError::UnsupportedHarvestAsset);
}

#[test]
fn harvest_without_the_asset_draws_no_card() {
    let mut deck = Deck::new();
    deck.draw_pile = vec![card(1, "Bill", GameEffect::Expense(200))];
    let mut manager = HarvestManager::new(deck);
    let mut p = farmer(0, "Alice", 1000, 0);
    let before = p.clone();
    let (income, expense, _) = manager.calculate_harvest(&mut p, &HarvestType::Livestock).unwrap();
    assert_eq!((income, expense), (0, 0));
    assert_eq!(manager.operating_cost_deck.draw_pile.len(), 1);
    assert!(manager.operating_cost_deck.discard_pile.is_empty());
    assert_eq!(p, before);
}

#[test]
fn harvest_discards_its_card_and_forgets_the_crop_factors() {
    let mut deck = Deck::new();
    deck.draw_pile = vec![card(1, "Bill", GameEffect::Expense(200))];
    let mut manager = HarvestManager::new(deck);
    let mut p = farmer(0, "Alice", 1000, 0);
    p.add_asset(AssetType::Hay, 10, 0);
    p.set_crop_multiplier(AssetType::Hay, Multiplier::from_percent(200));
    let (income, expense, logs) = manager.calculate_harvest_with_roll(&mut p, &HarvestType::HayCutting3, 4, &mut StdRng::seed_from_u64(1)).unwrap();
    assert_eq!(expense, 200);
    assert_eq!(income, 4400 - 200);
    assert_eq!(texts(&logs)[0], "Op Cost: Bill - Expense: $200");
    assert!(manager.operating_cost_deck.draw_pile.is_empty());
    assert_eq!(manager.operating_cost_deck.discard_pile.len(), 1);
    assert!(p.crop_yield_multipliers.is_empty());
}

#[test]
fn harvest_expense_cards_by_the_unit_and_by_the_debt() {
    let mut p = farmer(0, "Alice", 1000, 12345);
    p.add_asset(AssetType::Grain, 20, 0);
    let mut deck = Deck::new();
    deck.draw_pile = vec![
        card(1, "Per acre", GameEffect::ExpensePerAsset { asset: AssetType::Grain, rate: 100 }),
        card(2, "Interest", GameEffect::PayInterest),
        card(3, "Other", GameEffect::Income(5)),
    ];
    let mut manager = HarvestManager::new(deck);
    let (_, e1, _) = manager.calculate_harvest_with_roll(&mut p, &HarvestType::Wheat, 0, &mut StdRng::seed_from_u64(1)).unwrap();
    let (_, e2, _) = manager.calculate_harvest_with_roll(&mut p, &HarvestType::Wheat, 0, &mut StdRng::seed_from_u64(1)).unwrap();
    let (n3, e3, _) = manager.calculate_harvest_with_roll(&mut p, &HarvestType::Wheat, 0, &mut StdRng::seed_from_u64(1)).unwrap();
    assert_eq!((e1, e2, e3), (2000, 1235, 0));
    assert_eq!(n3, 1600);
}

#[test]
fn harvest_with_an_exhausted_deck_fails() {
    let mut manager = HarvestManager::new(Deck::new());
    let mut p = farmer(0, "Alice", 1000, 0);
    p.add_asset(AssetType::Hay, 10, 0);
    let r = manager.calculate_harvest(&mut p, &HarvestType::HayCutting1);
    assert_eq!(r.unwrap_err(), GameError::DeckExhausted { deck: DeckKind::OperatingCost });
    assert_eq!(GameError::DeckExhausted { deck: DeckKind::OperatingCost }.kind(), ErrorKind::DeckExhausted);
}

#[test]
fn processed_harvest_books_income_and_has_the_expense_paid() {
    let mut game = table(vec![farmer(0, "Alice", 1000, 0)]);
    let mut deck = Deck::new();
    deck.draw_pile = vec![card(1, "Bill", GameEffect::Expense(500))];
    game.harvest_manager = HarvestManager::new(deck);
    let logs = game.process_harvest(0, HarvestType::HayCutting1).unwrap();
    let p = game.players.get(&0).unwrap();
    let gross = p.cash - 1000 + 500;
    assert!([400, 600, 1000, 1500, 2200, 3000].contains(&gross));
    assert_eq!(p.debt, 0);
    assert_eq!(p.net_worth, (p.cash - p.debt) as i64 + p.total_asset_value + p.total_ridge_value as i64);
    assert!(texts(&logs).iter().any(|l| l.starts_with("Gained $")));
}

#[test]
fn processed_harvest_is_skipped_without_the_asset() {
    let mut game = table(vec![farmer(0, "Alice", 1000, 0)]);
    let before = game.clone();
    let logs = game.process_harvest(0, HarvestType::Livestock).unwrap();
    assert_eq!(game, before);
    assert_eq!(texts(&logs), vec![
        "Alice does not own any Cows, skipping harvest.".to_string(),
        "No operating expense drawn since there is no harvest.".to_string(),
    ]);
    let none = game.process_harvest(0, HarvestType::NoHarvest).unwrap();
    assert_eq!(texts(&none), vec!["No harvest required for this tile.".to_string()]);
    assert_eq!(game.process_harvest(9, HarvestType::Corn).unwrap_err(), GameError::PlayerNotFound { player_id: 9 });
}

// ---- players

#[test]
fn net_worth_is_cash_less_debt_plus_values_after_every_call() {
    let mut game = table(vec![farmer(0, "Alice", 3000, 1000), farmer(1, "Bob", 500, 0)]);
    let holds = |g: &GameState| {
        g.players.entries.iter().all(|(_, p)| {
            p.net_worth == p.cash as i64 - p.debt as i64 + p.total_asset_value + p.total_ridge_value as i64
        })
    };
    assert!(holds(&game));
    let mut logs = Vec::new();
    game.handle_forced_loan(0, 5000, &mut logs).unwrap();
    assert!(holds(&game));
    game.apply_card_effect(0, &card(1, "Income", GameEffect::Income(700)), &mut logs).unwrap();
    assert!(holds(&game));
    game.apply_card_effect(1, &card(2, "Collect", GameEffect::CollectFromOthersIfHas { asset: AssetType::Hay, amount: 100 }), &mut logs).unwrap();
    assert!(holds(&game));
    game.handle_tile_event(0, &tile(TileEffect::GainCash(10)), &mut logs).unwrap();
    assert!(holds(&game));
    game.pay_down_debt(0, 100).unwrap();
    assert!(holds(&game));
    handle_player_turn(&mut game, 1, 3).unwrap();
    assert!(holds(&game));
    let p = game.players.get(&0).unwrap();
    assert_eq!(p.total_asset_value, 40000);
}

#[test]
fn scoreboard_counts_no_negative_quantities() {
    let mut p = farmer(0, "Alice", 0, 0);
    p.add_asset(AssetType::Cows, -3, 0);
    p.add_asset(AssetType::Fruit, 2, 700);
    assert_eq!(p.total_asset_value, 10000);
    assert_eq!(p.total_expenses, 700);
    assert_eq!(p.net_worth, 10000);
}

#[test]
fn an_effect_of_two_years_lasts_two_years() {
    let mut p = farmer(0, "Alice", 0, 0);
    let effect = EffectType::LivestockHarvestBonus(Multiplier::from_percent(150));
    p.add_persistent_effect(effect, 2);
    assert!(p.has_active_effect(&effect));
    p.advance_year();
    assert!(p.has_active_effect(&effect));
    assert_eq!(p.persistent_effects[0].years_remaining, 1);
    p.advance_year();
    assert!(!p.has_active_effect(&effect));
    assert_eq!(p.get_livestock_harvest_multiplier(), Multiplier::one());
    assert_eq!(p.year, 3);
}

#[test]
fn an_effect_without_years_is_gone_after_a_year() {
    let mut p = farmer(0, "Alice", 0, 0);
    p.add_persistent_effect(EffectType::LivestockHarvestBonus(Multiplier::from_percent(200)), 0);
    p.advance_year();
    assert!(p.persistent_effects.is_empty());
}

#[test]
fn a_reducing_factor_also_reduces_what_was_earned() {
    let mut p = farmer(0, "Alice", 0, 0);
    p.add_asset(AssetType::Grain, 10, 0);
    p.add_income(AssetType::Grain, 1001);
    p._set_one_time_harvest_multiplier(AssetType::Grain, Multiplier::from_percent(50));
    assert_eq!(p.assets.get(&AssetType::Grain).unwrap().total_income, 501);
    p._set_one_time_harvest_multiplier(AssetType::Grain, Multiplier::from_percent(200));
    assert_eq!(p.assets.get(&AssetType::Grain).unwrap().total_income, 501);
    assert_eq!(p.get_crop_multiplier(&AssetType::Grain), Multiplier::from_percent(200));
    p._set_one_time_harvest_multiplier(AssetType::Cows, Multiplier::from_percent(50));
    assert_eq!(p.get_crop_multiplier(&AssetType::Cows), Multiplier::one());
}

#[test]
fn harvest_marks_are_kept_once() {
    let mut p = farmer(0, "Alice", 0, 0);
    p.mark_harvest_completed(HarvestType::Corn, 3);
    p.mark_harvest_completed(HarvestType::Corn, 3);
    assert_eq!(p.completed_harvests.len(), 1);
    assert!(p.has_harvested_in_section(HarvestType::Corn, 3));
}

#[test]
fn players_are_found_by_their_id() {
    let mut seats = Players::new();
    assert!(seats.is_empty());
    assert!(seats.insert(4, farmer(4, "Dora", 1, 0)).is_none());
    assert!(seats.insert(2, farmer(2, "Bob", 2, 0)).is_none());
    let old = seats.insert(4, farmer(4, "Dana", 3, 0)).unwrap();
    assert_eq!(old.name, "Dora");
    assert_eq!(seats.len(), 2);
    assert_eq!(seats.keys(), vec![4, 2]);
    assert_eq!(seats.get(&4).unwrap().name, "Dana");
    assert!(seats.get(&3).is_none());
    assert!(seats.contains_key(&2));
    seats.get_mut(&2).unwrap().cash = 77;
    assert_eq!(seats.get(&2).unwrap().cash, 77);
    assert_eq!(seats.position(2), Some(1));
}

// ---- cards

#[test]
fn cards_that_touch_the_player_alone() {
    let mut game = table(vec![farmer(0, "Alice", 1000, 2000)]);
    let mut logs = Vec::new();
    let mut play = |g: &mut GameState, e: GameEffect| g.apply_card_effect(0, &card(1, "Card", e), &mut logs);
    play(&mut game, GameEffect::IncomePerAsset { asset: AssetType::Hay, rate: 100 }).unwrap();
    assert_eq!(game.players.get(&0).unwrap().cash, 2000);
    assert_eq!(game.players.get(&0).unwrap().assets.get(&AssetType::Hay).unwrap().total_income, 1000);
    play(&mut game, GameEffect::ExpensePerAsset { asset: AssetType::Grain, rate: 50 }).unwrap();
    assert_eq!(game.players.get(&0).unwrap().cash, 1500);
    play(&mut game, GameEffect::IncomePerLandAcre { rate: 10 }).unwrap();
    assert_eq!(game.players.get(&0).unwrap().cash, 1700);
    play(&mut game, GameEffect::AdjustDebt(-500)).unwrap();
    assert_eq!(game.players.get(&0).unwrap().debt, 1500);
    play(&mut game, GameEffect::AdjustLand(5)).unwrap();
    assert_eq!(game.players.get(&0).unwrap().land, 25);
    play(&mut game, GameEffect::PayInterest).unwrap();
    assert_eq!(game.players.get(&0).unwrap().cash, 1550);
    play(&mut game, GameEffect::IncomeIfHas { asset: AssetType::Cows, amount: 2000 }).unwrap();
    assert_eq!(game.players.get(&0).unwrap().cash, 1550);
    play(&mut game, GameEffect::IncomeIfHas { asset: AssetType::Hay, amount: 2000 }).unwrap();
    assert_eq!(game.players.get(&0).unwrap().cash, 3550);
    play(&mut game, GameEffect::PayIfNoAssetDistribute { required_asset: AssetType::Tractor, amount: 550 }).unwrap();
    assert_eq!(game.players.get(&0).unwrap().cash, 3000);
    play(&mut game, GameEffect::PayIfNoAssetDistribute { required_asset: AssetType::Hay, amount: 550 }).unwrap();
    assert_eq!(game.players.get(&0).unwrap().cash, 3000);
    play(&mut game, GameEffect::SkipYear).unwrap();
    assert_eq!(game.players.get(&0).unwrap().year, 2);
    assert_eq!(game.players.get(&0).unwrap().position, 2);
    play(&mut game, GameEffect::Special("Nothing".to_string())).unwrap();
    play(&mut game, GameEffect::SuppressHarvestIncome).unwrap();
    play(&mut game, GameEffect::LeaseRidge { name: "Cascade Ridge".to_string(), cost: 1, cow_count: 2 }).unwrap();
    play(&mut game, GameEffect::OptionalBuyAsset { asset: AssetType::Hay, quantity: 10, cost: 20000 }).unwrap();
    assert_eq!(game.players.get(&0).unwrap().cash, 3000);
    drop(play);
    let lines = texts(&logs);
    assert!(lines.contains(&"Alice gained $1000 (10 x $100 for Hay).".to_string()));
    assert!(lines.contains(&"Alice must pay $150 in interest.".to_string()));
    assert!(lines.contains(&"Special Card Effect for Alice: Nothing".to_string()));
    assert!(lines.contains(&"Card provides a leasing option for Cascade Ridge: $1 requiring 2 cows to stock.".to_string()));
}

#[test]
fn slaughter_empties_the_record_of_cows() {
    let mut game = table(vec![farmer(0, "Alice", 1000, 0)]);
    game.players.get_mut(&0).unwrap().add_asset(AssetType::Cows, 12, 6000);
    let mut logs = Vec::new();
    game.apply_card_effect(0, &card(1, "PCB", GameEffect::SlaughterCowsWithoutCompensation), &mut logs).unwrap();
    let p = game.players.get(&0).unwrap();
    assert_eq!(p.assets.get(&AssetType::Cows), Some(&AssetRecord { quantity: 0, total_cost: 6000, total_income: 0 }));
    assert_eq!(texts(&logs), vec!["Disaster! Alice loses all 12 cows without compensation.".to_string()]);
}

#[test]
fn bought_cows_stay_within_the_limit_of_the_farm() {
    let mut game = table(vec![farmer(0, "Alice", 100000, 0)]);
    game.players.get_mut(&0).unwrap().add_asset(AssetType::Cows, 15, 0);
    let before = game.clone();
    let mut logs = Vec::new();
    let r = game.apply_card_effect(0, &card(1, "Cows", GameEffect::BuyAsset { asset: AssetType::Cows, quantity: 6, cost: 500 }), &mut logs);
    assert_eq!(r, Err(GameError::CowLimitExceeded { quantity: 6, current: 15 }));
    assert_eq!(game, before);
    game.apply_card_effect(0, &card(1, "Cows", GameEffect::BuyAsset { asset: AssetType::Cows, quantity: 5, cost: 500 }), &mut logs).unwrap();
    assert_eq!(game.players.get(&0).unwrap().assets.get(&AssetType::Cows).unwrap().quantity, 20);
    assert_eq!(game.players.get(&0).unwrap().cash, 97500);
}

#[test]
fn a_purchase_needs_the_cash() {
    let mut game = table(vec![farmer(0, "Alice", 999, 0)]);
    let mut logs = Vec::new();
    let r = game.apply_card_effect(0, &card(1, "Buy", GameEffect::BuyAsset { asset: AssetType::Hay, quantity: 2, cost: 500 }), &mut logs);
    assert_eq!(r, Err(GameError::InsufficientFunds { required: 1000, available: 999 }));
    assert_eq!(r.unwrap_err().kind(), ErrorKind::InvalidOperation);
}

#[test]
fn the_legacy_is_bought_from_cash_or_on_credit_or_not_at_all() {
    let legacy = card(207, "Uncle Bert's Legacy", GameEffect::OptionalBuyAsset { asset: AssetType::Hay, quantity: 10, cost: 10000 });
    let mut logs = Vec::new();
    let mut rich = table(vec![farmer(0, "Alice", 12000, 0)]);
    rich.apply_card_effect(0, &legacy, &mut logs).unwrap();
    assert_eq!(rich.players.get(&0).unwrap().cash, 2000);
    assert_eq!(rich.players.get(&0).unwrap().assets.get(&AssetType::Hay).unwrap().quantity, 20);
    assert_eq!(rich.farmer_fate_deck.discard_pile.len(), 1);
    let mut poor = table(vec![farmer(0, "Alice", 4000, 1000)]);
    poor.apply_card_effect(0, &legacy, &mut logs).unwrap();
    assert_eq!(poor.players.get(&0).unwrap().cash, 0);
    assert_eq!(poor.players.get(&0).unwrap().debt, 7000);
    let mut broke = table(vec![farmer(0, "Alice", 0, 45000)]);
    broke.apply_card_effect(0, &legacy, &mut logs).unwrap();
    assert_eq!(broke.players.get(&0).unwrap().debt, 45000);
    assert!(broke.farmer_fate_deck.discard_pile.is_empty());
    assert!(texts(&logs).last().unwrap().starts_with("Could not acquire Uncle Bert's legacy"));
}

#[test]
fn a_collection_takes_cash_or_a_loan_or_what_there_is() {
    let mut rich = farmer(1, "Bob", 5000, 0);
    rich.add_asset(AssetType::Cows, 5, 0);
    let mut short = farmer(2, "Cleo", 300, 1000);
    short.add_asset(AssetType::Cows, 5, 0);
    let mut stuck = farmer(3, "Dan", 200, 49900);
    stuck.add_asset(AssetType::Cows, 5, 0);
    let spared = farmer(4, "Eve", 9000, 0);
    let mut game = table(vec![farmer(0, "Alice", 0, 0), rich, short, stuck, spared]);
    let mut logs = Vec::new();
    game.apply_card_effect(0, &card(1, "Collect", GameEffect::CollectFromOthersIfHas { asset: AssetType::Cows, amount: 1000 }), &mut logs).unwrap();
    let at = |id: usize| game.players.get(&id).unwrap();
    assert_eq!(at(1).cash, 4000);
    assert_eq!((at(2).cash, at(2).debt), (0, 1000 + 700 + 70));
    assert_eq!((at(3).cash, at(3).debt), (0, 49900));
    assert_eq!(at(4).cash, 9000);
    assert_eq!(at(0).cash, 1000 + 1000 + 200);
    assert_eq!(texts(&logs).last().unwrap(), "Alice collected a total of $2200. Final cash: $2200");
}

#[test]
fn the_ash_spares_odd_rolls_and_charges_even_ones() {
    let mut holder = farmer(0, "Alice", 0, 0);
    holder.add_asset(AssetType::Hay, 10, 0);
    let mut game = table(vec![holder, farmer(1, "Bob", 10000, 0), farmer(2, "Cleo", 10000, 0)]);
    let mut logs = Vec::new();
    let rolls = vec![6, 3, 4];
    game.players.erupt(0, &rolls, &mut logs).unwrap();
    assert_eq!(game.players.get(&0).unwrap().cash, 10 * 500);
    assert_eq!(game.players.get(&1).unwrap().cash, 10000);
    assert_eq!(game.players.get(&2).unwrap().cash, 10000 - 2000);
    assert_eq!(texts(&logs), vec![
        "Alice collects $5000 bonus for 10 Hay acres (Ash-free hay).".to_string(),
        "Bob rolled 3 (Odd) and escaped the ash!".to_string(),
        "Cleo rolled 4 (Even) and was hit by the ash!".to_string(),
        "Cleo must pay $2000 to clean up ash ($100 per acre).".to_string(),
        "Cleo paid $2000. Cash remaining: $8000".to_string(),
    ]);
}

#[test]
fn the_eruption_card_rolls_for_the_others() {
    let mut game = table(vec![farmer(0, "Alice", 0, 0), farmer(1, "Bob", 10000, 0)]);
    let mut logs = Vec::new();
    game.apply_card_effect(0, &card(212, "Mt. St. Helens Disaster", GameEffect::MtStHelensDisaster), &mut logs).unwrap();
    assert_eq!(game.players.get(&0).unwrap().cash, 5000);
    let bob = game.players.get(&1).unwrap().cash;
    assert!(bob == 10000 || bob == 8000);
}

#[test]
fn dice_show_one_to_six_and_not_always_the_same() {
    let rolls = roll_for_others(300, 300, &mut StdRng::seed_from_u64(5));
    assert_eq!(rolls.len(), 300);
    assert!(rolls.iter().all(|r| (1..=6).contains(r)));
    assert!(rolls.iter().any(|r| *r != rolls[0]));
    assert!(rolls.iter().any(|r| *r > 1));
}

// ---- tiles and turns

#[test]
fn a_tile_that_sends_on_resolves_the_next_tile_but_no_further() {
    let mut game = table(vec![farmer(0, "Alice", 1000, 0)]);
    game.board[5].effect = TileEffect::GoToTile(9);
    game.board[5].harvest_type = HarvestType::NoHarvest;
    game.board[9].effect = TileEffect::GainCash(1);
    let mut logs = Vec::new();
    game.handle_tile_event(0, &tile(TileEffect::GoToTile(5)), &mut logs).unwrap();
    let p = game.players.get(&0).unwrap();
    assert_eq!(p.position, 9);
    assert_eq!(p.cash, 1000);
    game.handle_tile_event(0, &tile(TileEffect::GoToTile(100)), &mut logs).unwrap();
    assert_eq!(game.players.get(&0).unwrap().position, 100);
    assert_eq!(texts(&logs).last().unwrap(), "Alice moved to tile 100");
}

#[test]
fn a_fate_card_goes_to_the_discard_pile_once_played() {
    let mut game = table(vec![farmer(0, "Alice", 1000, 0)]);
    game.farmer_fate_deck.draw_pile = vec![card(1, "Sale", GameEffect::Income(10)), card(2, "Tax", GameEffect::Expense(999999))];
    let mut logs = Vec::new();
    game.handle_tile_event(0, &tile(TileEffect::DrawCard(TileType::FarmerFate)), &mut logs).unwrap();
    assert_eq!(game.farmer_fate_deck.discard_pile.len(), 1);
    let r = game.handle_tile_event(0, &tile(TileEffect::DrawCard(TileType::FarmerFate)), &mut logs);
    assert_eq!(r, Err(GameError::DebtLimitExceeded { player_id: 0, required: 999999 }));
    assert_eq!(game.farmer_fate_deck.discard_pile.len(), 2);
    assert!(game.farmer_fate_deck.draw_pile.is_empty());
}

#[test]
fn tiles_of_other_types_draw_nothing() {
    let mut game = table(vec![farmer(0, "Alice", 1000, 0)]);
    assert_eq!(game.draw_card(TileType::Blank), Err(GameError::InvalidTileType));
    assert_eq!(game.draw_card(TileType::PayFees).unwrap().id, 100);
    assert_eq!(game.draw_card(TileType::OptionToBuy), Err(GameError::DeckExhausted { deck: DeckKind::OptionToBuy }));
}

#[test]
fn a_turn_moves_by_the_roll_and_passes_the_start() {
    let mut player = farmer(0, "Alice", 1000, 0);
    player.position = 47;
    player.set_crop_multiplier(AssetType::Hay, Multiplier::from_percent(200));
    player.add_persistent_effect(EffectType::LivestockHarvestBonus(Multiplier::from_percent(150)), 1);
    let mut game = table(vec![player]);
    let logs = handle_player_turn(&mut game, 0, 2).unwrap();
    let p = game.players.get(&0).unwrap();
    assert_eq!(p.position, 0);
    assert_eq!(p.year, 2);
    assert_eq!(p.turns_taken, 1);
    assert_eq!(p.cash, 1000 + 5000 + 1000);
    assert!(p.crop_yield_multipliers.is_empty());
    assert!(p.persistent_effects.is_empty());
    let lines = texts(&logs);
    assert_eq!(lines[0], "Alice passed Go (Tile 0)!");
    assert_eq!(lines[1], "Year advanced to 2.");
    assert_eq!(lines[2], "Collected $5000 side job pay. Cash: $6000");
    assert_eq!(lines[3], "Rolled a 2 - landed on Christmas Vacation");
    assert_eq!(lines[4], "COLLECT $1000 Christmas bonus!");
    assert_eq!(lines[5], "Alice gained $1000.");
}

#[test]
fn a_turn_that_fails_on_its_tile_still_stands() {
    let mut game = table(vec![farmer(0, "Alice", 1000, 0)]);
    let logs = handle_player_turn(&mut game, 0, 6).unwrap();
    assert_eq!(game.players.get(&0).unwrap().position, 6);
    assert_eq!(texts(&logs).last().unwrap(), "Error handling tile event: Farmer's Fate deck is empty");
    assert_eq!(handle_player_turn(&mut game, 5, 1).unwrap_err(), GameError::PlayerNotFound { player_id: 5 });
    game.board.clear();
    assert_eq!(handle_player_turn(&mut game, 0, 1).unwrap_err(), GameError::InvalidPosition { position: 0 });
}

#[test]
fn moves_to_a_position_off_the_board_are_refused() {
    let mut game = table(vec![farmer(0, "Alice", 1000, 0)]);
    let mut logs = Vec::new();
    assert_eq!(game._move_player_and_handle_effects(0, 49, &mut logs), Err(GameError::InvalidPosition { position: 49 }));
    assert_eq!(game.players.get(&0).unwrap().position, 0);
    game._move_player_and_handle_effects(0, 5, &mut logs).unwrap();
    assert_eq!(game.players.get(&0).unwrap().cash, 2000);
    assert_eq!(texts(&logs)[0], "Handling effects for Alice on tile: February Week 1");
    let said = game._move_player_with_message(0, 3, &mut logs).unwrap();
    assert_eq!(said, "Alice moved from tile 5 to tile 3");
    game._move_player(0, 7).unwrap();
    assert_eq!(game.players.get(&0).unwrap().position, 7);
}

// ---- options

fn with_option(cash: i32, debt: i32, effect: GameEffect) -> GameState {
    let mut p = farmer(0, "Alice", cash, debt);
    p.hand.push(card(300, "Option", effect));
    table(vec![p])
}

#[test]
fn an_option_is_exercised_from_cash() {
    let mut game = with_option(25000, 0, GameEffect::OptionalBuyAsset { asset: AssetType::Fruit, quantity: 5, cost: 25000 });
    game.exercise_option_to_buy(0, 300, false).unwrap();
    let p = game.players.get(&0).unwrap();
    assert_eq!(p.cash, 0);
    assert_eq!(p.assets.get(&AssetType::Fruit), Some(&AssetRecord { quantity: 5, total_cost: 25000, total_income: 0 }));
    assert!(p.hand.is_empty());
    assert_eq!(p.net_worth, 25000 + 40000);
}

#[test]
fn an_option_on_credit_needs_consent_and_room_under_the_ceiling() {
    let effect = GameEffect::OptionalBuyAsset { asset: AssetType::Hay, quantity: 10, cost: 20000 };
    let mut game = with_option(5000, 0, effect.clone());
    let before = game.clone();
    assert_eq!(game.exercise_option_to_buy(0, 300, false), Err(GameError::LoanConfirmationRequired));
    assert_eq!(game, before);
    game.exercise_option_to_buy(0, 300, true).unwrap();
    let p = game.players.get(&0).unwrap();
    assert_eq!((p.cash, p.debt), (0, 15000));
    let mut tight = with_option(5000, 40000, effect);
    let before = tight.clone();
    assert_eq!(tight.exercise_option_to_buy(0, 300, true), Err(GameError::LoanBeyondCapacity { capacity: 10000, required: 15000 }));
    assert_eq!(tight, before);
}

#[test]
fn an_option_on_cows_stays_within_the_limit_of_the_farm() {
    let mut game = with_option(50000, 0, GameEffect::OptionalBuyAsset { asset: AssetType::Cows, quantity: 10, cost: 5000 });
    game.players.get_mut(&0).unwrap().add_asset(AssetType::Cows, 11, 0);
    let before = game.clone();
    assert_eq!(game.exercise_option_to_buy(0, 300, true), Err(GameError::CowLimitExceeded { quantity: 10, current: 11 }));
    assert_eq!(game, before);
    game.players.get_mut(&0).unwrap().sell_asset(AssetType::Cows, 1, 0);
    game.exercise_option_to_buy(0, 300, false).unwrap();
    assert_eq!(game.players.get(&0).unwrap().assets.get(&AssetType::Cows).unwrap().quantity, 20);
}

#[test]
fn a_lease_takes_a_free_ridge_that_exists() {
    let lease = |name: &str| GameEffect::LeaseRidge { name: name.to_string(), cost: 20000, cow_count: 20 };
    let mut game = with_option(30000, 0, lease("Ahtanum Ridge"));
    game.exercise_option_to_buy(0, 300, false).unwrap();
    assert_eq!(game.ridges[1].leased_by, Some(0));
    let p = game.players.get(&0).unwrap();
    assert_eq!((p.cash, p.total_ridge_value), (10000, 20000));
    assert_eq!(game.get_player_ridges(0), vec!["Ahtanum Ridge: 0 cows".to_string()]);
    assert_eq!(game.get_available_ridges().len(), 3);
    assert_eq!(game.get_ridge_status("Ahtanum Ridge").unwrap(), "Ahtanum Ridge: Leased by Alice (0 cows) - Cost: $10000");
    assert_eq!(game.get_ridge_status("Cascade Ridge").unwrap(), "Cascade Ridge: Available (40 cows required) - Cost: $20000");
    assert!(game.get_ridge_status("Nowhere").is_none());
    assert_eq!(game.get_all_ridge_status().len(), 4);
    assert_eq!(game.get_ridge_cow_count("Toppenish Ridge"), Some(0));
    assert_eq!(game._get_ridge_leasee(1), None);
    assert_eq!(game.ridges[1].get_leasee_player(&game.players).unwrap().name, "Alice");
    game.players.get_mut(&0).unwrap().hand.push(card(301, "Again", lease("Ahtanum Ridge")));
    assert_eq!(game.exercise_option_to_buy(0, 301, true), Err(GameError::RidgeAlreadyLeased { name: "Ahtanum Ridge".to_string() }));
    game.players.get_mut(&0).unwrap().hand.push(card(302, "Lost", lease("Lost Ridge")));
    assert_eq!(game.exercise_option_to_buy(0, 302, true), Err(GameError::RidgeNotFound { name: "Lost Ridge".to_string() }));
    assert_eq!(game.players.get(&0).unwrap().hand.len(), 2);
}

#[test]
fn only_options_in_the_hand_can_be_exercised() {
    let mut game = with_option(1000, 0, GameEffect::Income(5));
    assert_eq!(game.exercise_option_to_buy(0, 300, true), Err(GameError::NotAnOption));
    assert_eq!(game.exercise_option_to_buy(0, 1, true), Err(GameError::CardNotInHand { player_id: 0, card_id: 1 }));
    assert_eq!(game.exercise_option_to_buy(3, 300, true), Err(GameError::PlayerNotFound { player_id: 3 }));
    assert!(game.get_option_to_buy_cards(0).is_empty());
    assert!(game.can_exercise_option_to_buy(0));
    game.players.get_mut(&0).unwrap().position = 15;
    assert!(!game.can_exercise_option_to_buy(0));
    assert!(!game.can_exercise_option_to_buy(8));
}

#[test]
fn credit_terms_are_a_fifth_down_and_the_rest_as_a_loan() {
    let game = with_option(4000, 0, GameEffect::OptionalBuyAsset { asset: AssetType::Hay, quantity: 10, cost: 20003 });
    assert_eq!(game._check_option_to_buy_loan(0, 300), Ok((4001, 16002)).map_err(|e: GameError| e).and_then(|_| game._check_option_to_buy_loan(0, 300)));
    assert_eq!(game._check_option_to_buy_loan(0, 300), Err(GameError::DownPaymentShort { required: 4001, available: 4000 }));
    let game = with_option(5000, 40000, GameEffect::OptionalBuyAsset { asset: AssetType::Hay, quantity: 10, cost: 20000 });
    assert_eq!(game._check_option_to_buy_loan(0, 300), Err(GameError::LoanWouldExceedLimit));
    let game = with_option(5000, 30000, GameEffect::OptionalBuyAsset { asset: AssetType::Hay, quantity: 10, cost: 20000 });
    assert_eq!(game._check_option_to_buy_loan(0, 300), Ok((4000, 16000)));
    assert!(game.can_player_perform_actions(0));
    assert_eq!(game.get_option_to_buy_cards(0).len(), 1);
}

#[test]
fn borrowing_for_an_option_respects_the_ceiling() {
    let mut game = table(vec![farmer(0, "Alice", 100, 45000)]);
    assert_eq!(game._borrow_for_option_to_buy(0, 5001), Err(GameError::LoanWouldExceedLimit));
    assert_eq!(game._borrow_for_option_to_buy(0, 5000), Ok((100, 45000)));
    let p = game.players.get(&0).unwrap();
    assert_eq!((p.cash, p.debt), (5100, 50000));
}

// ---- debts, wins and turns

#[test]
fn debt_is_paid_down_from_cash() {
    let mut game = table(vec![farmer(0, "Alice", 1000, 3000)]);
    assert_eq!(game.pay_down_debt(0, 0), Err(GameError::PaymentNotPositive));
    assert_eq!(game.pay_down_debt(0, 1001), Err(GameError::NotEnoughCash { required: 1001, available: 1000 }));
    game.pay_down_debt(0, 400).unwrap();
    let p = game.players.get(&0).unwrap();
    assert_eq!((p.cash, p.debt), (600, 2600));
    game.players.get_mut(&0).unwrap().debt = 0;
    assert_eq!(game.pay_down_debt(0, 1), Err(GameError::NoDebtToPay));
    assert_eq!(game.pay_down_debt(4, 1), Err(GameError::PlayerNotFound { player_id: 4 }));
}

#[test]
fn a_net_worth_of_250000_wins() {
    let mut game = table(vec![farmer(0, "Alice", WINNING_NET_WORTH - 40000 - 1, 0)]);
    game.players.get_mut(&0).unwrap().update_scoreboard();
    assert!(!game.has_won(0));
    game.players.get_mut(&0).unwrap().cash += 1;
    game.players.get_mut(&0).unwrap().update_scoreboard();
    assert!(game.has_won(0));
    assert!(!game.has_won(1));
}

#[test]
fn turns_go_round_the_table() {
    let mut game = table(vec![farmer(0, "Alice", 0, 0), farmer(1, "Bob", 0, 0)]);
    assert_eq!(game.current_player(), Some(0));
    game.end_turn();
    assert_eq!(game.current_player(), Some(1));
    game.end_turn();
    assert_eq!(game.current_turn_index, 0);
}

// ---- bankruptcy

#[test]
fn lots_come_up_by_cost_and_then_by_kind() {
    let mut p = farmer(0, "Alice", 0, 0);
    p.add_asset(AssetType::Hay, 1, 500);
    p.add_asset(AssetType::Grain, 2, 100);
    p.add_asset(AssetType::Harvester, 1, 500);
    p.add_asset(AssetType::Cows, 3, 900);
    let order: Vec<AssetType> = sorted_lots(&p.assets).iter().map(|l| l.0).collect();
    assert_eq!(order, vec![AssetType::Cows, AssetType::Hay, AssetType::Harvester, AssetType::Grain]);
}

#[test]
fn persons_bid_what_they_decided_on() {
    let mut bankrupt = farmer(0, "Alice", -100, 0);
    bankrupt.add_asset(AssetType::Tractor, 1, 10000);
    let mut robot = farmer(2, "Robot", 1000, 0);
    robot.player_type = create_ai_player("Default");
    let mut game = table(vec![bankrupt, farmer(1, "Bob", 5000, 0), robot]);
    for id in [0usize, 1, 2] {
        let p = game.players.get_mut(&id).unwrap();
        p.sell_asset(AssetType::Hay, 10, 0);
        p.sell_asset(AssetType::Grain, 10, 0);
    }
    let bids = vec![
        Bid { asset: AssetType::Tractor, player_id: 1, amount: 900 },
        Bid { asset: AssetType::Tractor, player_id: 1, amount: 4000 },
    ];
    game.check_bankruptcy_and_trigger_auction(0, false, &bids);
    assert_eq!(game.players.get(&1).unwrap().cash, 5000 - 900);
    assert_eq!(game.players.get(&1).unwrap().assets.get(&AssetType::Tractor).unwrap().total_cost, 900);
    assert_eq!(game.players.get(&2).unwrap().cash, 1000);
    let left = game.players.get(&0).unwrap();
    assert!(!left.assets.contains_key(&AssetType::Tractor));
    assert_eq!((left.cash, left.debt), (-100, 0));
    assert_eq!(left.net_worth, -100);
}

#[test]
fn the_bank_lends_half_of_what_the_holdings_cost() {
    let mut p = farmer(0, "Alice", -100, 0);
    p.add_asset(AssetType::Tractor, 1, 9001);
    let mut game = table(vec![p]);
    assert!(!game.attempt_bank_loan(0, false));
    assert!(game.attempt_bank_loan(0, true));
    let p = game.players.get(&0).unwrap();
    assert_eq!((p.cash, p.debt), (4400, 4500));
    assert!(!game.attempt_bank_loan(3, true));
}

// ---- ridges

#[test]
fn ridges_take_cows_up_to_their_capacity() {
    let mut ridge = Ridge::new("Cascade Ridge".to_string(), 20000, 40);
    assert!(ridge.can_add_cows(40));
    assert!(!ridge.can_add_cows(41));
    ridge.add_cows(30).unwrap();
    assert_eq!(ridge.add_cows(11), Err(GameError::RidgeOverCapacity { amount: 11, capacity: 40 }));
    assert_eq!(ridge.remove_cows(31), Err(GameError::RidgeTooFewCows { amount: 31, present: 30 }));
    ridge.remove_cows(30).unwrap();
    assert_eq!(ridge.cow_count, 0);
    assert_eq!(ridge.lease(4, 39), Err(GameError::RidgeWrongStock { required: 40 }));
    assert!(!ridge.is_leased());
    ridge.lease(4, 40).unwrap();
    assert_eq!(ridge.get_leasee(), Some(4));
    assert_eq!(ridge.cow_count, 40);
    assert_eq!(ridge.lease(5, 40), Err(GameError::RidgeAlreadyLeased { name: "Cascade Ridge".to_string() }));
    ridge.cow_count = -1;
    assert_eq!(ridge.add_cows(i32::MIN), Err(GameError::AmountOutOfRange));
    ridge.cow_count = 0;
    assert_eq!(ridge.remove_cows(i32::MIN), Err(GameError::AmountOutOfRange));
}

// ---- data and words

#[test]
fn the_board_has_forty_nine_tiles_in_place() {
    let board = create_full_board();
    assert_eq!(board.len(), 49);
    for (i, t) in board.iter().enumerate() {
        assert_eq!(t.index, i);
    }
    assert_eq!(board[14].name, "Spring Planting");
    assert_eq!(board[14].effect, TileEffect::DoubleYieldForCrop(AssetType::Grain));
    assert_eq!(board[28].effect, TileEffect::GoToTile(37));
    assert_eq!(board[33].effect, TileEffect::HarvestBonusPerAcre { asset: AssetType::Grain, bonus: -50 });
    assert_eq!(board[36].effect, TileEffect::OneTimeHarvestMultiplier { asset: AssetType::Cows, multiplier: Multiplier::from_percent(50) });
    assert_eq!(board[48].harvest_type, HarvestType::Corn);
    assert_eq!(board[0].description_brief.as_deref(), Some("COLLECT $1000."));
}

#[test]
fn the_catalogs_hold_their_cards() {
    let expenses = operating_expense_catalog();
    let fates = farmers_fate_catalog();
    let options = option_to_buy_catalog();
    assert_eq!((expenses.len(), fates.len(), options.len()), (15, 20, 10));
    assert_eq!(expenses[14].id, 114);
    assert_eq!(expenses[14].effect, GameEffect::Expense(1000));
    assert_eq!(fates[14].effect, GameEffect::AddPersistentEffect { effect_type: EffectType::LivestockHarvestBonus(Multiplier::from_percent(150)), years: 2 });
    assert_eq!(fates[5].title, "Uncle Bert's Legacy");
    assert_eq!(options[5].effect, GameEffect::LeaseRidge { name: "Toppenish Ridge".to_string(), cost: 50000, cow_count: 50 });
    assert_eq!(options[0].default_quantity, 6);
    let mut ids: Vec<usize> = expenses.iter().chain(fates.iter()).chain(options.iter()).map(|c| c.id).collect();
    ids.sort();
    ids.dedup();
    assert_eq!(ids.len(), 45);
}

#[test]
fn a_new_game_seats_the_six_farmers() {
    let game = GameState::new();
    let natives = native_players();
    assert_eq!(natives.len(), 6);
    assert_eq!(natives[5].name, "Wapato Willie");
    assert_eq!(natives[0].color, "Red");
    for (i, (id, p)) in game.players.entries.iter().enumerate() {
        assert_eq!(*id, i);
        assert_eq!(p.name, natives[i].name);
        assert_eq!(p.net_worth, 40000);
    }
    let mut order = game.turn_order.clone();
    order.sort();
    assert_eq!(order, vec![0, 1, 2, 3, 4, 5]);
    assert_eq!(game.option_to_buy_deck.draw_pile.len(), 10);
    assert_eq!(game.harvest_manager.operating_cost_deck.draw_pile.len(), 15);
}

#[test]
fn numbers_are_written_in_decimal() {
    assert_eq!(int_to_string(0), "0");
    assert_eq!(int_to_string(-45), "-45");
    assert_eq!(int_to_string(1234567890), "1234567890");
    assert_eq!(int_to_string(i64::MIN), "-9223372036854775808");
    assert_eq!(int_to_string(i64::MAX), "9223372036854775807");
}

#[test]
fn errors_and_assets_have_their_words() {
    assert_eq!(GameError::PlayerNotFound { player_id: 3 }.message(), "Player 3 not found.");
    assert_eq!(GameError::LoanConfirmationRequired.message(), "Loan confirmation required");
    assert_eq!(GameError::CowLimitExceeded { quantity: 10, current: 15 }.message(), "Cannot buy 10 cows via OTB. Would exceed farm limit of 20 (Current: 15).");
    assert_eq!(GameError::AmountOutOfRange.kind(), ErrorKind::InvalidOperation);
    assert_eq!(AssetType::Fruit.to_string(), "Fruit");
    assert_eq!(AssetType::Cows.to_string(), "cows");
    assert_eq!(AssetType::Harvester.label(), "Harvester");
}

#[test]
fn tile_effects_are_told_as_card_effects() {
    assert_eq!(tile_effect_to_game_effect(&TileEffect::GainCash(5)), GameEffect::Income(5));
    assert_eq!(tile_effect_to_game_effect(&TileEffect::DrawCard(TileType::FarmerFate)), GameEffect::Special("Draw a FarmerFate card".to_string()));
    assert_eq!(
        tile_effect_to_game_effect(&TileEffect::GoToTileAndGainCash { tile_index: 8, amount: 5000 }),
        GameEffect::Special("Move to tile 8 and gain $5000".to_string())
    );
    assert_eq!(GameEffect::from(TileEffect::GoToTileAndGainCash { tile_index: 8, amount: 5000 }), GameEffect::Income(5000));
    assert_eq!(GameEffect::from(TileEffect::PayCashIfAsset { asset: AssetType::Cows, amount: 500 }), GameEffect::Expense(500));
    assert_eq!(
        GameEffect::from(TileEffect::OneTimeHarvestMultiplier { asset: AssetType::Hay, multiplier: Multiplier::from_percent(50) }),
        GameEffect::Special("Market collapse. Cut livestock check in half. Multiplier: 0.5".to_string())
    );
    assert_eq!(GameEffect::from(TileEffect::NoEffect), GameEffect::Special("No effect".to_string()));
}

// ---- chance

#[test]
fn games_of_one_seed_take_the_same_course() {
    let mut a = GameState::new_seeded(42);
    let mut b = GameState::new_seeded(42);
    assert_eq!(a, b);
    for turn in 0..60 {
        let player = a.turn_order[turn % 6];
        let roll = (turn % 6 + 1) as u32;
        let logs_a = handle_player_turn(&mut a, player, roll).unwrap();
        let logs_b = handle_player_turn(&mut b, player, roll).unwrap();
        assert_eq!(logs_a, logs_b);
        assert_eq!(a, b);
    }
}

#[test]
fn games_of_different_seeds_differ() {
    let orders: Vec<Vec<usize>> = (0..20u64).map(|seed| GameState::new_seeded(seed).turn_order).collect();
    assert!(orders.iter().any(|o| *o != orders[0]));
    let decks: Vec<Vec<usize>> = (0..20u64)
        .map(|seed| GameState::new_seeded(seed).option_to_buy_deck.draw_pile.iter().map(|c| c.id).collect())
        .collect();
    assert!(decks.iter().any(|d| *d != decks[0]));
}

#[test]
fn seeded_games_of_given_players_take_the_same_course() {
    let seats = |names: [&str; 2]| {
        let mut players = Players::new();
        players.insert(0, farmer(0, names[0], 1000, 0));
        players.insert(1, farmer(1, names[1], 1000, 0));
        players
    };
    let mut a = GameState::new_with_players_seeded(seats(["Alice", "Bob"]), vec![0, 1], 7);
    let mut b = GameState::new_with_players_seeded(seats(["Alice", "Bob"]), vec![0, 1], 7);
    for turn in 0..40 {
        let roll = (turn % 5 + 2) as u32;
        assert_eq!(handle_player_turn(&mut a, turn % 2, roll), handle_player_turn(&mut b, turn % 2, roll));
    }
    assert_eq!(a, b);
}

#[test]
fn a_shuffle_with_a_seeded_generator_can_be_repeated() {
    let mut a = Deck::from_catalog(farmers_fate_catalog());
    let mut b = Deck::from_catalog(farmers_fate_catalog());
    a.shuffle_with(&mut StdRng::seed_from_u64(3));
    b.shuffle_with(&mut StdRng::seed_from_u64(3));
    assert_eq!(a, b);
    let untouched = Deck::from_catalog(farmers_fate_catalog());
    assert_ne!(a, untouched);
    let mut rng = StdRng::seed_from_u64(9);
    let mut drawn = Vec::new();
    let mut deck = Deck::new();
    deck.discard_pile = operating_expense_catalog();
    while let Some(c) = deck.draw_with(&mut rng) {
        drawn.push(c.id);
    }
    let mut sorted = drawn.clone();
    sorted.sort();
    assert_eq!(sorted, (100..115).collect::<Vec<usize>>());
    assert_ne!(drawn, sorted);
}

#[test]
fn a_shuffle_is_kept_where_it_is_spread_out_or_the_fifth() {
    let mut ridges = Vec::new();
    for i in 0..25 {
        ridges.push(card(
            i,
            "Lease",
            GameEffect::LeaseRidge { name: "Cascade Ridge".to_string(), cost: 40000, cow_count: 40 },
        ));
    }
    assert!(check_clumpy(&ridges));
    for attempts in 1..5 {
        assert!(!keeps_shuffle(&ridges, attempts));
    }
    assert!(keeps_shuffle(&ridges, 5));
    let mut mixed = Vec::new();
    for i in 0..24 {
        let effect = match i % 4 {
            0 => GameEffect::LeaseRidge { name: "Cascade Ridge".to_string(), cost: 40000, cow_count: 40 },
            1 => GameEffect::OptionalBuyAsset { asset: AssetType::Hay, quantity: 10, cost: 20000 },
            2 => GameEffect::OptionalBuyAsset { asset: AssetType::Tractor, quantity: 1, cost: 10000 },
            _ => GameEffect::OptionalBuyAsset { asset: AssetType::Cows, quantity: 10, cost: 5000 },
        };
        mixed.push(card(100 + i, "Option", effect));
    }
    assert!(!check_clumpy(&mixed));
    assert!(keeps_shuffle(&mixed, 1));
}

#[test]
fn an_empty_pile_is_shuffled_without_the_generator() {
    let mut rng = StdRng::seed_from_u64(11);
    let mut empty = Deck::new();
    empty.shuffle_with(&mut rng);
    assert_eq!(empty.shuffle_reporting_with(&mut rng).attempts, 0);
    assert_eq!(rng, StdRng::seed_from_u64(11));
    let mut deck = Deck::from_catalog(operating_expense_catalog());
    assert!(deck.draw_with(&mut rng).is_some());
    assert_eq!(rng, StdRng::seed_from_u64(11));
}

#[test]
fn a_harvest_that_does_not_take_place_rolls_no_die() {
    let mut manager = HarvestManager::new(Deck::from_catalog(operating_expense_catalog()));
    let mut p = farmer(0, "Alice", 1000, 0);
    let mut rng = StdRng::seed_from_u64(3);
    let idle = manager.calculate_harvest_using(&mut p, &HarvestType::Livestock, &mut rng).unwrap();
    assert_eq!((idle.0, idle.1), (0, 0));
    let none = manager.calculate_harvest_using(&mut p, &HarvestType::NoHarvest, &mut rng).unwrap();
    assert_eq!((none.0, none.1), (0, 0));
    assert_eq!(rng, StdRng::seed_from_u64(3));
    assert_eq!(manager.operating_cost_deck.draw_pile.len(), 15);

    p.add_asset(AssetType::Hay, 10, 0);
    let mut exhausted = HarvestManager::new(Deck::new());
    assert!(exhausted.calculate_harvest_using(&mut p, &HarvestType::HayCutting1, &mut rng).is_err());
    assert_eq!(rng, StdRng::seed_from_u64(3));

    manager.calculate_harvest_using(&mut p, &HarvestType::HayCutting1, &mut rng).unwrap();
    assert_ne!(rng, StdRng::seed_from_u64(3));
}

#[test]
fn a_harvest_takes_its_expense_once() {
    let mut game = table(vec![farmer(0, "Alice", 1000, 0)]);
    let mut deck = Deck::new();
    deck.draw_pile = vec![card(1, "Bill", GameEffect::Expense(500))];
    let mut manager = HarvestManager::new(deck);
    let mut p = game.players.get(&0).unwrap().clone();
    let (net, expense, _) = manager
        .calculate_harvest_with_roll(&mut p, &HarvestType::HayCutting1, 2, &mut StdRng::seed_from_u64(1))
        .unwrap();
    assert_eq!((net, expense), (1000 - 500, 500));

    let mut deck = Deck::new();
    deck.draw_pile = vec![card(1, "Bill", GameEffect::Expense(500))];
    game.harvest_manager = HarvestManager::new(deck);
    game.process_harvest(0, HarvestType::HayCutting1).unwrap();
    let after = game.players.get(&0).unwrap();
    let net = after.cash - 1000;
    assert!([-100, 100, 500, 1000, 1700, 2500].contains(&net));
    assert_eq!(after.debt, 0);
}

#[test]
fn a_harvest_borrows_for_an_expense_that_cash_and_income_do_not_cover() {
    let mut game = table(vec![farmer(0, "Alice", 0, 0)]);
    let mut deck = Deck::new();
    deck.draw_pile = vec![card(1, "Bill", GameEffect::Expense(4000))];
    game.harvest_manager = HarvestManager::new(deck);
    game.process_harvest(0, HarvestType::HayCutting1).unwrap();
    let after = game.players.get(&0).unwrap();
    assert_eq!(after.debt, 5000);
    let gross = after.cash - 4000 + 4000;
    assert!([400, 600, 1000, 1500, 2200, 3000].contains(&gross));
}

#[test]
fn a_collection_tests_the_ceiling_on_the_loan_with_its_interest() {
    let collect = card(1, "Collect", GameEffect::CollectFromOthersIfHas { asset: AssetType::Cows, amount: 1000 });
    let mut near = farmer(1, "Bob", 0, 49000);
    near.add_asset(AssetType::Cows, 5, 0);
    let mut game = table(vec![farmer(0, "Alice", 0, 0), near]);
    game.apply_card_effect(0, &collect, &mut Vec::new()).unwrap();
    let bob = game.players.get(&1).unwrap();
    assert_eq!((bob.cash, bob.debt), (0, 49000));
    assert_eq!(game.players.get(&0).unwrap().cash, 0);

    let mut room = farmer(1, "Bob", 0, 48900);
    room.add_asset(AssetType::Cows, 5, 0);
    let mut game = table(vec![farmer(0, "Alice", 0, 0), room]);
    game.apply_card_effect(0, &collect, &mut Vec::new()).unwrap();
    let bob = game.players.get(&1).unwrap();
    assert_eq!((bob.cash, bob.debt), (0, MAX_DEBT));
    assert_eq!(game.players.get(&0).unwrap().cash, 1000);
}

#[test]
fn an_eruption_that_fails_changes_no_one() {
    let mut game = table(vec![
        farmer(0, "Alice", 0, 0),
        farmer(1, "Bob", 10000, 0),
        farmer(2, "Cleo", 0, 49000),
    ]);
    let before = game.players.clone();
    let mut logs = Vec::new();
    let r = game.players.erupt(0, &vec![1, 2, 2], &mut logs);
    assert_eq!(r.unwrap_err(), GameError::DebtLimitExceeded { player_id: 2, required: 2000 });
    assert_eq!(game.players, before);
    assert_eq!(texts(&logs)[0], "Alice collects $5000 bonus for 10 Hay acres (Ash-free hay).");
    assert!(texts(&logs).contains(&"Bob paid $2000. Cash remaining: $8000".to_string()));

    let mut failed = 0;
    for seed in 0..40u64 {
        let mut game = table(vec![
            farmer(0, "Alice", 0, 0),
            farmer(1, "Bob", 10000, 0),
            farmer(2, "Cleo", 0, 49000),
        ]);
        game.rng = StdRng::seed_from_u64(seed);
        let before = game.clone();
        let eruption = card(212, "Mt. St. Helens Disaster", GameEffect::MtStHelensDisaster);
        match game.apply_card_effect(0, &eruption, &mut Vec::new()) {
            Ok(()) => {
                assert_eq!(game.players.get(&0).unwrap().cash, 5000);
                assert_eq!(game.players.get(&2).unwrap().debt, 49000);
                assert_ne!(game.rng, before.rng);
            },
            Err(e) => {
                failed += 1;
                assert_eq!(e, GameError::DebtLimitExceeded { player_id: 2, required: 2000 });
                assert_eq!(game, before);
            },
        }
    }
    assert!(failed > 0 && failed < 40);
}

fn emptied(mut p: Player) -> Player {
    p.assets.clear();
    p.update_scoreboard();
    p
}

fn auction_table(players: Vec<Player>) -> GameState {
    let mut game = table(Vec::new());
    for p in players {
        game.turn_order.push(p.id);
        game.players.insert(p.id, p);
    }
    game
}

#[test]
fn an_auction_moves_the_lot_from_the_bankrupt_player_to_the_winner() {
    let mut bankrupt = emptied(farmer(0, "Alice", -5000, 10000));
    bankrupt.add_asset(AssetType::Harvester, 1, 10000);
    let mut first = emptied(farmer(1, "Bob", 8000, 0));
    first.player_type = create_ai_player("Default");
    let mut second = emptied(farmer(2, "Cleo", 9000, 0));
    second.player_type = create_ai_player("Default");
    let mut game = auction_table(vec![bankrupt, first.clone(), second]);
    game.run_bankruptcy_auction(0, &Vec::new());
    let winner = game.players.get(&2).unwrap();
    assert_eq!(winner.cash, 1800);
    assert_eq!(
        winner.assets.get(&AssetType::Harvester),
        Some(&AssetRecord { quantity: 1, total_cost: 7200, total_income: 0 })
    );
    assert_eq!(game.players.get(&1).unwrap(), &first);
    let left = game.players.get(&0).unwrap();
    assert!(!left.assets.contains_key(&AssetType::Harvester));
    assert_eq!((left.cash, left.debt), (-5000, 10000));
    assert_eq!(left.net_worth, -15000);
    assert_eq!(left.total_asset_value, 0);
}

#[test]
fn a_lot_without_a_bid_stays_with_the_bankrupt_player() {
    let mut bankrupt = emptied(farmer(0, "Alice", -5000, 10000));
    bankrupt.add_asset(AssetType::Harvester, 1, 10000);
    let mut game = auction_table(vec![bankrupt.clone(), emptied(farmer(1, "Bob", 8000, 0))]);
    let before = game.clone();
    game.run_bankruptcy_auction(0, &Vec::new());
    assert_eq!(game, before);
}

#[test]
fn nobody_bids_for_cows_that_the_farm_cannot_take() {
    let mut bankrupt = emptied(farmer(0, "Alice", -100, 0));
    bankrupt.add_asset(AssetType::Cows, 10, 5000);
    let mut full = emptied(farmer(1, "Bob", 9000, 0));
    full.player_type = create_ai_player("Default");
    full.add_asset(AssetType::Cows, 15, 0);
    let mut small = emptied(farmer(2, "Cleo", 1000, 0));
    small.player_type = create_ai_player("Default");
    small.add_asset(AssetType::Cows, 10, 0);
    let mut game = auction_table(vec![bankrupt, full.clone(), small]);
    game.run_bankruptcy_auction(0, &Vec::new());
    assert_eq!(game.players.get(&1).unwrap(), &full);
    let winner = game.players.get(&2).unwrap();
    assert_eq!(winner.cash, 200);
    assert_eq!(winner.assets.get(&AssetType::Cows).unwrap().quantity, 20);
    assert!(!game.players.get(&0).unwrap().assets.contains_key(&AssetType::Cows));

    let mut bankrupt = emptied(farmer(0, "Alice", -100, 0));
    bankrupt.add_asset(AssetType::Cows, 10, 5000);
    let mut game = auction_table(vec![bankrupt, full.clone()]);
    let before = game.clone();
    game.run_bankruptcy_auction(0, &Vec::new());
    assert_eq!(game, before);
}

#[test]
fn the_one_who_drew_the_eruption_rolls_no_die() {
    let mut rng = StdRng::seed_from_u64(8);
    let rolls = roll_for_others(1, 0, &mut rng);
    assert_eq!(rolls, vec![1]);
    assert_eq!(rng, StdRng::seed_from_u64(8));
    let rolls = roll_for_others(3, 1, &mut rng);
    assert_eq!(rolls[1], 1);
    let mut again = StdRng::seed_from_u64(8);
    let others = roll_for_others(2, 2, &mut again);
    assert_eq!(vec![rolls[0], rolls[2]], others);
}

#[test]
fn a_turn_counts_once_whatever_the_tile_does() {
    let mut game = GameState::new_seeded(4);
    let order = game.turn_order.clone();
    for round in 1..=40 {
        for id in order.iter() {
            let before: Vec<i32> = game.players.entries.iter().map(|s| s.1.turns_taken).collect();
            let roll = ((round + id) % 6 + 1) as u32;
            handle_player_turn(&mut game, *id, roll).unwrap();
            for (j, seat) in game.players.entries.iter().enumerate() {
                let more = if seat.0 == *id { 1 } else { 0 };
                assert_eq!(seat.1.turns_taken, before[j] + more);
            }
        }
    }
    assert!(game.players.entries.iter().all(|s| s.1.turns_taken == 40));
}
