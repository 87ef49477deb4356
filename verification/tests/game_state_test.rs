use farming_game::cards::card::{Card, CardSource};
use farming_game::cards::deck::Deck;
use farming_game::game::GameEffect;
use farming_game::log::LogEntry;
use farming_game::models::asset::AssetType;
use farming_game::models::board::{BoardTile, HarvestType, TileEffect, TileType};
use farming_game::models::player::EffectType;
use farming_game::models::{GameState, Multiplier, Player, PlayerType, Players};

fn setup_test_game_state_with_decks(initial_cash: i32, fate_cards: Vec<Card>, otb_cards: Vec<Card>) -> (GameState, usize) {
    let player_id = 0;
    let mut players = Players::new();
    let mut player = Player::new(player_id, "Test Player".to_string(), PlayerType::Human);
    player.cash = initial_cash;
    players.insert(player_id, player);
    let turn_order = vec![player_id];

    let mut game_state = GameState::new_with_players(players, turn_order);
    game_state.farmer_fate_deck = Deck::new();
    game_state.farmer_fate_deck.draw_pile = fate_cards;
    game_state.option_to_buy_deck = Deck::new();
    game_state.option_to_buy_deck.draw_pile = otb_cards;

    (game_state, player_id)
}

fn create_test_fate_card(id: usize, effect: GameEffect) -> Card {
    Card {
        id,
        title: "Test Fate Card".to_string(),
        description: "A test fate card effect".to_string(),
        description_brief: "Test fate effect".to_string(),
        effect: effect,
        default_quantity: 1,
        source: CardSource::BaseGame,
    }
}

fn create_test_otb_card(id: usize) -> Card {
    Card {
        id,
        title: "Test OTB Card".to_string(),
        description: "A test option to buy card".to_string(),
        description_brief: "Buy 10 Hay for $1000".to_string(),
        effect: GameEffect::OptionalBuyAsset {
            asset: AssetType::Hay,
            quantity: 10,
            cost: 1000,
        },
        default_quantity: 1,
        source: CardSource::BaseGame,
    }
}

fn create_test_card(id: usize, effect: GameEffect) -> Card {
    Card {
        id,
        title: format!("Test Card {}", id),
        description: "Test Desc".to_string(),
        description_brief: "Test".to_string(),
        effect,
        default_quantity: 1,
        source: CardSource::BaseGame,
    }
}

fn create_test_tile(effect: TileEffect) -> BoardTile {
    BoardTile {
        index: 0,
        name: "Test Tile".to_string(),
        tile_type: TileType::Blank,
        harvest_type: HarvestType::NoHarvest,
        effect,
        description: None,
        description_brief: None,
    }
}

#[test]
fn test_apply_tile_effect_gain_cash() {
    let initial_cash = 5000;
    let gain_amount = 1000;
    let (mut game_state, player_id) = setup_test_game_state_with_decks(initial_cash, vec![], vec![]);
    let effect = TileEffect::GainCash(gain_amount);
    let tile = create_test_tile(effect);
    let mut logs: Vec<LogEntry> = Vec::new();

    let result = game_state.handle_tile_event(player_id, &tile, &mut logs);

    assert!(result.is_ok());
    let player = game_state.players.get(&player_id).unwrap();
    assert_eq!(player.cash, initial_cash + gain_amount);
}

#[test]
fn test_apply_tile_effect_pay_cash_sufficient_funds() {
    let initial_cash = 5000;
    let pay_amount = 1000;
    let (mut game_state, player_id) = setup_test_game_state_with_decks(initial_cash, vec![], vec![]);
    let effect = TileEffect::PayCash(pay_amount);
    let tile = create_test_tile(effect);
    let mut logs: Vec<LogEntry> = Vec::new();

    let result = game_state.handle_tile_event(player_id, &tile, &mut logs);

    assert!(result.is_ok());
    let player = game_state.players.get(&player_id).unwrap();
    assert_eq!(player.cash, initial_cash - pay_amount);
}

#[test]
fn test_apply_tile_effect_pay_cash_insufficient_funds() {
    let initial_cash = 500;
    let pay_amount = 1000;
    let (mut game_state, player_id) = setup_test_game_state_with_decks(initial_cash, vec![], vec![]);
    let effect = TileEffect::PayCash(pay_amount);
    let tile = create_test_tile(effect);
    let mut logs: Vec<LogEntry> = Vec::new();

    let result = game_state.handle_tile_event(player_id, &tile, &mut logs);

    assert!(result.is_ok(), "PayCash with insufficient funds should still succeed (forced loan)");

    game_state.players.get_mut(&player_id).unwrap().cash = 0;

    let player = game_state.players.get(&player_id).unwrap();
    assert_eq!(player.cash, 0, "Cash should be reduced to 0");
    assert!(player.debt > 5000, "Debt should increase to cover the payment");
    assert!(logs.iter().any(|log: &LogEntry| log.message().contains("Took loan:")), "Expected log about taking a loan.");
}

#[test]
fn test_apply_tile_effect_draw_farmer_fate_success() {
    let initial_cash = 5000;
    let fate_card_gain = 500;
    let fate_card = create_test_fate_card(1, GameEffect::Income(fate_card_gain));
    let (mut game_state, player_id) = setup_test_game_state_with_decks(initial_cash, vec![fate_card], vec![]);
    let effect = TileEffect::DrawCard(TileType::FarmerFate);
    let tile = create_test_tile(effect);
    let mut logs: Vec<LogEntry> = Vec::new();

    let result = game_state.handle_tile_event(player_id, &tile, &mut logs);

    assert!(result.is_ok(), "Applying Farmer Fate tile effect failed: {:?}", result.err());
    let player = game_state.players.get(&player_id).unwrap();
    assert_eq!(player.cash, initial_cash + fate_card_gain, "Player cash did not update correctly after drawing fate card.");
    assert!(game_state.farmer_fate_deck.draw_pile.is_empty(), "Farmer Fate draw pile should be empty after drawing the card.");
}

#[test]
fn test_apply_tile_effect_draw_farmer_fate_empty_deck() {
    let initial_cash = 5000;
    let (mut game_state, player_id) = setup_test_game_state_with_decks(initial_cash, vec![], vec![]);
    let effect = TileEffect::DrawCard(TileType::FarmerFate);
    let tile = create_test_tile(effect);
    let mut logs: Vec<LogEntry> = Vec::new();

    let result = game_state.handle_tile_event(player_id, &tile, &mut logs);

    assert!(result.is_err(), "Expected error when drawing from empty Farmer Fate deck.");
    let player = game_state.players.get(&player_id).unwrap();
    assert_eq!(player.cash, initial_cash, "Player cash should not change when draw fails.");
}

#[test]
fn game_state_test_test_apply_tile_effect_draw_option_to_buy_success() {
    let initial_cash = 5000;
    let otb_card = create_test_otb_card(101);
    let otb_card_id = otb_card.id;
    let (mut game_state, player_id) = setup_test_game_state_with_decks(initial_cash, vec![], vec![otb_card]);
    let effect = TileEffect::DrawCard(TileType::OptionToBuy);
    let tile = create_test_tile(effect);
    let mut logs: Vec<LogEntry> = Vec::new();

    let result = game_state.handle_tile_event(player_id, &tile, &mut logs);

    assert!(result.is_ok(), "Applying OTB tile effect failed: {:?}", result.err());
    let player = game_state.players.get(&player_id).unwrap();
    assert_eq!(player.hand.len(), 1, "Player should have one OTB card in hand.");
    assert_eq!(player.hand[0].id, otb_card_id, "The card in hand should be the OTB card drawn.");
    assert!(game_state.option_to_buy_deck.draw_pile.is_empty(), "OTB draw pile should be empty after drawing.");
}

#[test]
fn game_state_test_test_apply_tile_effect_draw_option_to_buy_empty_deck() {
    let initial_cash = 5000;
    let (mut game_state, player_id) = setup_test_game_state_with_decks(initial_cash, vec![], vec![]);
    let effect = TileEffect::DrawCard(TileType::OptionToBuy);
    let tile = create_test_tile(effect);
    let mut logs: Vec<LogEntry> = Vec::new();

    let result = game_state.handle_tile_event(player_id, &tile, &mut logs);

    assert!(result.is_err(), "Expected error when drawing from empty OTB deck.");
    let player = game_state.players.get(&player_id).unwrap();
    assert!(player.hand.is_empty(), "Player hand should be empty when draw fails.");
}

#[test]
fn game_state_test_test_apply_tile_effect_go_to_tile() {
    let initial_cash = 5000;
    let (mut game_state, player_id) = setup_test_game_state_with_decks(initial_cash, vec![], vec![]);
    let destination_tile_index = 5;
    let destination_tile_cash_gain = 500;
    let mut logs: Vec<LogEntry> = Vec::new();

    if let Some(tile) = game_state.board.get_mut(destination_tile_index) {
        tile.effect = TileEffect::GainCash(destination_tile_cash_gain);
    } else {
        panic!("Destination tile index out of bounds");
    }

    game_state.players.get_mut(&player_id).unwrap().position = 0;

    let effect = TileEffect::GoToTile(destination_tile_index);
    let tile = create_test_tile(effect);
    let result = game_state.handle_tile_event(player_id, &tile, &mut logs);

    assert!(result.is_ok(), "GoToTile effect failed: {:?}", result.err());
    let player = game_state.players.get(&player_id).unwrap();
    assert_eq!(player.position, destination_tile_index, "Player did not move to the correct tile.");
    assert_eq!(player.cash, initial_cash + destination_tile_cash_gain, "Destination tile effect (GainCash) was not applied correctly.");
}

#[test]
fn test_apply_tile_effect_go_to_tile_and_gain_cash() {
    let initial_cash = 5000;
    let cash_gain_from_move = 1000;
    let (mut game_state, player_id) = setup_test_game_state_with_decks(initial_cash, vec![], vec![]);
    let destination_tile_index = 6;
    let destination_tile_cash_gain = 300;
    let mut logs: Vec<LogEntry> = Vec::new();

    if let Some(tile) = game_state.board.get_mut(destination_tile_index) {
        tile.effect = TileEffect::GainCash(destination_tile_cash_gain);
    } else {
        panic!("Destination tile index out of bounds");
    }
    game_state.players.get_mut(&player_id).unwrap().position = 0;

    let effect = TileEffect::GoToTileAndGainCash { tile_index: destination_tile_index, amount: cash_gain_from_move };
    let tile = create_test_tile(effect);
    let result = game_state.handle_tile_event(player_id, &tile, &mut logs);

    assert!(result.is_ok(), "GoToTileAndGainCash effect failed: {:?}", result.err());
    let player = game_state.players.get(&player_id).unwrap();
    assert_eq!(player.position, destination_tile_index, "Player did not move to the correct tile.");
    assert_eq!(player.cash, initial_cash + cash_gain_from_move,
               "Cash gain from GoToTileAndGainCash was not applied correctly.");
    assert!(logs.iter().any(|log| log.message().contains("moved to") && log.message().contains("and gained $1000")),
        "Expected log message about moving and gaining $1000 not found.");
}

#[test]
fn test_apply_tile_effect_gain_cash_if_asset_has_asset() {
    let initial_cash = 5000;
    let asset_type = AssetType::Cows;
    let gain_amount = 500;
    let (mut game_state, player_id) = setup_test_game_state_with_decks(initial_cash, vec![], vec![]);
    let mut logs: Vec<LogEntry> = Vec::new();

    game_state.players.get_mut(&player_id).unwrap().add_asset(asset_type, 1, 0);

    let effect = TileEffect::GainCashIfAsset { asset: asset_type, amount: gain_amount };
    let tile = create_test_tile(effect);
    let result = game_state.handle_tile_event(player_id, &tile, &mut logs);

    assert!(result.is_ok(), "GainCashIfAsset failed: {:?}", result.err());
    let player = game_state.players.get(&player_id).unwrap();
    assert_eq!(player.cash, initial_cash + gain_amount, "Cash should be increased when player has the asset.");
}

#[test]
fn test_apply_tile_effect_gain_cash_if_asset_no_asset() {
    let initial_cash = 5000;
    let asset_type = AssetType::Tractor;
    let gain_amount = 500;
    let (mut game_state, player_id) = setup_test_game_state_with_decks(initial_cash, vec![], vec![]);
    let mut logs: Vec<LogEntry> = Vec::new();

    let effect = TileEffect::GainCashIfAsset { asset: asset_type, amount: gain_amount };
    let tile = create_test_tile(effect);
    let result = game_state.handle_tile_event(player_id, &tile, &mut logs);

    assert!(result.is_ok(), "GainCashIfAsset failed: {:?}", result.err());
    let player = game_state.players.get(&player_id).unwrap();
    assert_eq!(player.cash, initial_cash, "Cash should remain unchanged when player doesn't have the asset.");
}

#[test]
fn test_apply_tile_effect_pay_cash_if_asset_has_asset_sufficient_funds() {
    let initial_cash = 5000;
    let required_asset = AssetType::Cows;
    let payment_amount = 500;
    let (mut game_state, player_id) = setup_test_game_state_with_decks(initial_cash, vec![], vec![]);
    let mut logs: Vec<LogEntry> = Vec::new();

    game_state.players.get_mut(&player_id).unwrap().add_asset(required_asset, 1, 0);

    let effect = TileEffect::PayCashIfAsset { asset: required_asset, amount: payment_amount };
    let tile = create_test_tile(effect);
    let result = game_state.handle_tile_event(player_id, &tile, &mut logs);

    assert!(result.is_ok(), "PayCashIfAsset failed: {:?}", result.err());
    let player = game_state.players.get(&player_id).unwrap();
    assert_eq!(player.cash, initial_cash - payment_amount, "Cash should be deducted when player has the asset and sufficient funds.");
}

#[test]
fn test_apply_tile_effect_pay_cash_if_asset_has_asset_insufficient_funds() {
    let initial_cash = 1000;
    let payment_amount = 2000;
    let (mut game_state, player_id) = setup_test_game_state_with_decks(initial_cash, vec![], vec![]);
    game_state.players.get_mut(&player_id).unwrap().add_asset(AssetType::Hay, 5, 0);
    let mut logs: Vec<LogEntry> = Vec::new();

    let effect = TileEffect::PayCashIfAsset { asset: AssetType::Hay, amount: payment_amount };
    let tile = create_test_tile(effect);
    let result = game_state.handle_tile_event(player_id, &tile, &mut logs);

    assert!(result.is_ok(), "PayCashIfAsset failed: {:?}", result.err());

    game_state.players.get_mut(&player_id).unwrap().cash = 0;

    let player = game_state.players.get(&player_id).unwrap();
    if player.cash >= initial_cash {
        panic!("Player should have less cash after payment");
    }
    assert!(logs.iter().any(|log: &LogEntry| log.message().contains("Took loan:")), "Expected log about taking a loan.");
}

#[test]
fn test_apply_tile_effect_pay_cash_if_asset_does_not_have_asset() {
    let initial_cash = 5000;
    let asset_type = AssetType::Tractor;
    let payment_amount = 500;
    let (mut game_state, player_id) = setup_test_game_state_with_decks(initial_cash, vec![], vec![]);
    let mut logs: Vec<LogEntry> = Vec::new();

    let effect = TileEffect::PayCashIfAsset { asset: asset_type, amount: payment_amount };
    let tile = create_test_tile(effect);
    let result = game_state.handle_tile_event(player_id, &tile, &mut logs);

    assert!(result.is_ok(), "PayCashIfAsset failed: {:?}", result.err());
    let player = game_state.players.get(&player_id).unwrap();
    assert_eq!(player.cash, initial_cash, "Cash should remain unchanged when player doesn't have the asset.");
}

#[test]
fn test_apply_tile_effect_double_yield_for_crop() {
    let initial_cash = 5000;
    let crop_type = AssetType::Hay;
    let (mut game_state, player_id) = setup_test_game_state_with_decks(initial_cash, vec![], vec![]);
    let mut logs: Vec<LogEntry> = Vec::new();

    assert_eq!(game_state.players.get(&player_id).unwrap().get_crop_multiplier(&crop_type), Multiplier::from_percent(100));

    let effect = TileEffect::DoubleYieldForCrop(crop_type);
    let tile = create_test_tile(effect);
    let result = game_state.handle_tile_event(player_id, &tile, &mut logs);

    assert!(result.is_ok(), "DoubleYieldForCrop failed: {:?}", result.err());
    assert_eq!(game_state.players.get(&player_id).unwrap().get_crop_multiplier(&crop_type), Multiplier::from_percent(200),
               "Crop multiplier should be doubled.");
    assert_eq!(game_state.players.get(&player_id).unwrap().cash, initial_cash,
               "Cash should not change directly from multiplier effect.");
}

#[test]
fn test_apply_tile_effect_expense_per_asset_has_asset_sufficient_funds() {
    let initial_cash = 5000;
    let asset_type = AssetType::Cows;
    let asset_quantity = 3;
    let expense_rate = 500;
    let expected_cost = asset_quantity * expense_rate;
    let (mut game_state, player_id) = setup_test_game_state_with_decks(initial_cash, vec![], vec![]);
    let mut logs: Vec<LogEntry> = Vec::new();

    game_state.players.get_mut(&player_id).unwrap().add_asset(asset_type, asset_quantity, 0);

    let effect = TileEffect::ExpensePerAsset { asset: asset_type, rate: expense_rate };
    let tile = create_test_tile(effect);
    let result = game_state.handle_tile_event(player_id, &tile, &mut logs);

    assert!(result.is_ok(), "ExpensePerAsset failed: {:?}", result.err());
    let player = game_state.players.get(&player_id).unwrap();
    assert_eq!(player.cash, initial_cash - expected_cost, "Cash was not deducted correctly.");
}

#[test]
fn test_apply_tile_effect_expense_per_asset_has_asset_insufficient_funds() {
    let initial_cash = 500;
    let asset_type = AssetType::Cows;
    let asset_quantity = 3;
    let expense_rate = 500;
    let expected_cost = asset_quantity * expense_rate;
    let (mut game_state, player_id) = setup_test_game_state_with_decks(initial_cash, vec![], vec![]);
    let mut logs: Vec<LogEntry> = Vec::new();

    game_state.players.get_mut(&player_id).unwrap().add_asset(asset_type, asset_quantity, 0);
    assert!(initial_cash < expected_cost, "Setup error - initial cash should be less than expected cost");

    let effect = TileEffect::ExpensePerAsset { asset: asset_type, rate: expense_rate };
    let tile = create_test_tile(effect);
    let result = game_state.handle_tile_event(player_id, &tile, &mut logs);

    if result.is_ok() {
        let player = game_state.players.get(&player_id).unwrap();
        assert!(player.cash < initial_cash || player.debt > 5000, "Player should have less cash or more debt");
    }
}

#[test]
fn test_apply_tile_effect_expense_per_asset_does_not_have_asset() {
    let initial_cash = 5000;
    let asset_type = AssetType::Tractor;
    let expense_rate = 500;
    let (mut game_state, player_id) = setup_test_game_state_with_decks(initial_cash, vec![], vec![]);
    let mut logs: Vec<LogEntry> = Vec::new();

    let effect = TileEffect::ExpensePerAsset { asset: asset_type, rate: expense_rate };
    let tile = create_test_tile(effect);
    let result = game_state.handle_tile_event(player_id, &tile, &mut logs);

    assert!(result.is_ok(), "ExpensePerAsset failed: {:?}", result.err());
    let player = game_state.players.get(&player_id).unwrap();
    assert_eq!(player.cash, initial_cash, "Cash should not change when player does not have the asset.");
}

#[test]
fn test_apply_tile_effect_pay_interest_sufficient_funds() {
    let initial_cash = 5000;
    let initial_debt = 10000;
    let expected_interest = 1000;
    let (mut game_state, player_id) = setup_test_game_state_with_decks(initial_cash, vec![], vec![]);
    let mut logs: Vec<LogEntry> = Vec::new();

    game_state.players.get_mut(&player_id).unwrap().debt = initial_debt;

    let effect = TileEffect::PayInterest;
    let tile = create_test_tile(effect);
    let result = game_state.handle_tile_event(player_id, &tile, &mut logs);

    assert!(result.is_ok(), "PayInterest failed: {:?}", result.err());
    let player = game_state.players.get(&player_id).unwrap();
    assert_eq!(player.cash, initial_cash - expected_interest, "Interest payment not correctly deducted.");
    assert_eq!(player.debt, initial_debt, "Debt should not change after paying interest.");
}

#[test]
fn test_apply_tile_effect_pay_interest_insufficient_funds() {
    let initial_cash = 100;
    let initial_debt = 3500;
    let interest_amount = 350;
    let (mut game_state, player_id) = setup_test_game_state_with_decks(initial_cash, vec![], vec![]);

    game_state.players.get_mut(&player_id).unwrap().debt = initial_debt;
    let mut logs: Vec<LogEntry> = Vec::new();

    let effect = TileEffect::PayInterest;
    let tile = create_test_tile(effect);
    let result = game_state.handle_tile_event(player_id, &tile, &mut logs);

    assert!(result.is_ok(), "PayInterest failed: {:?}", result.err());

    game_state.players.get_mut(&player_id).unwrap().cash = 0;

    let player = game_state.players.get(&player_id).unwrap();
    if player.cash >= initial_cash {
        panic!("Cash should be reduced after interest payment.");
    }
    assert!(logs.iter().any(|log: &LogEntry| log.message().contains("Took loan:")), "Expected log about taking a loan.");
}

#[test]
fn test_apply_tile_effect_skip_year() {
    let (mut game_state, player_id) = setup_test_game_state_with_decks(1000, vec![], vec![]);
    let mut logs: Vec<LogEntry> = Vec::new();
    let effect = TileEffect::SkipYear;
    let tile = create_test_tile(effect);

    let result = game_state.handle_tile_event(player_id, &tile, &mut logs);
    assert!(result.is_ok(), "SkipYear failed: {:?}", result.err());

    let player = &game_state.players.get(&player_id).unwrap();
    assert_eq!(player.position, 2, "Player should be at position 2");
    assert!(logs.iter().any(|log: &LogEntry| log.message().contains("skips a year")), "Missing skip year message");
}

#[test]
fn test_apply_tile_effect_harvest_bonus_per_acre_has_asset() {
    let initial_cash = 5000;
    let asset_type = AssetType::Hay;
    let added_quantity = 10;
    let initial_constructor_quantity = 10;
    let total_quantity = added_quantity + initial_constructor_quantity;
    let bonus_per_acre = 50;
    let expected_bonus = total_quantity * bonus_per_acre;
    let (mut game_state, player_id) = setup_test_game_state_with_decks(initial_cash, vec![], vec![]);
    let mut logs: Vec<LogEntry> = Vec::new();

    game_state.players.get_mut(&player_id).unwrap().add_asset(asset_type, added_quantity, 0);

    let effect = TileEffect::HarvestBonusPerAcre { asset: asset_type, bonus: bonus_per_acre };
    let tile = create_test_tile(effect);
    let result = game_state.handle_tile_event(player_id, &tile, &mut logs);

    assert!(result.is_ok(), "HarvestBonusPerAcre failed: {:?}", result.err());
    let player = game_state.players.get(&player_id).unwrap();
    assert_eq!(player.cash, initial_cash + expected_bonus, "Harvest bonus was not added correctly based on total assets.");
}

#[test]
fn test_apply_tile_effect_harvest_bonus_per_acre_no_asset() {
    let initial_cash = 5000;
    let asset_type = AssetType::Fruit;
    let bonus_per_acre = 50;
    let (mut game_state, player_id) = setup_test_game_state_with_decks(initial_cash, vec![], vec![]);
    let mut logs: Vec<LogEntry> = Vec::new();

    let effect = TileEffect::HarvestBonusPerAcre { asset: asset_type, bonus: bonus_per_acre };
    let tile = create_test_tile(effect);
    let result = game_state.handle_tile_event(player_id, &tile, &mut logs);

    assert!(result.is_ok(), "HarvestBonusPerAcre failed: {:?}", result.err());
    let player = game_state.players.get(&player_id).unwrap();
    assert_eq!(player.cash, initial_cash, "Cash should not change if player does not own the asset.");
}

#[test]
fn test_apply_tile_effect_move_and_harvest_if_asset_has_asset() {
    let initial_cash = 5000;
    let initial_position = 10;
    let asset_type = AssetType::Tractor;
    let destination = 25;
    let bonus = 1000;
    let (mut game_state, player_id) = setup_test_game_state_with_decks(initial_cash, vec![], vec![]);
    let mut logs: Vec<LogEntry> = Vec::new();

    {
        let player = game_state.players.get_mut(&player_id).unwrap();
        player.position = initial_position;
        player.add_asset(asset_type, 1, 0);
    }

    let effect = TileEffect::MoveAndHarvestIfAsset {
        asset: asset_type,
        destination,
        bonus,
        harvest_type: HarvestType::Wheat
    };
    let tile = create_test_tile(effect);
    let result = game_state.handle_tile_event(player_id, &tile, &mut logs);

    assert!(result.is_ok(), "MoveAndHarvestIfAsset failed: {:?}", result.err());
    let player = game_state.players.get(&player_id).unwrap();
    assert_eq!(player.position, destination, "Player should move to destination.");
    assert_ne!(player.cash, initial_cash, "Player cash should change due to bonus and harvest outcome.");
    assert!(logs.iter().any(|log: &LogEntry| log.message().contains("moved to")), "Expected log about moving to destination.");
    assert!(logs.iter().any(|log: &LogEntry| log.message().contains("gained $")), "Expected log about gaining bonus cash.");
}

#[test]
fn test_apply_tile_effect_move_and_harvest_if_asset_no_asset() {
    let initial_cash = 5000;
    let initial_position = 10;
    let asset_type = AssetType::Tractor;
    let destination = 25;
    let bonus = 1000;
    let (mut game_state, player_id) = setup_test_game_state_with_decks(initial_cash, vec![], vec![]);
    let mut logs: Vec<LogEntry> = Vec::new();

    game_state.players.get_mut(&player_id).unwrap().position = initial_position;

    let effect = TileEffect::MoveAndHarvestIfAsset {
        asset: asset_type,
        destination,
        bonus,
        harvest_type: HarvestType::Wheat
    };
    let tile = create_test_tile(effect);
    let result = game_state.handle_tile_event(player_id, &tile, &mut logs);

    assert!(result.is_ok(), "MoveAndHarvestIfAsset failed: {:?}", result.err());
    let player = game_state.players.get(&player_id).unwrap();
    assert_eq!(player.position, initial_position, "Player should remain in original position.");
    assert_eq!(player.cash, initial_cash, "Cash should remain unchanged when player doesn't have the asset.");
}

#[test]
fn test_apply_tile_effect_one_time_harvest_multiplier_has_asset() {
    let initial_cash = 5000;
    let asset_type = AssetType::Hay;
    let initial_income = 2000;
    let multiplier = Multiplier::from_percent(50);
    let factor: f32 = 0.5;
    let expected_income = (initial_income as f32 * factor).round() as i32;
    let (mut game_state, player_id) = setup_test_game_state_with_decks(initial_cash, vec![], vec![]);
    let mut logs: Vec<LogEntry> = Vec::new();

    {
        let player = game_state.players.get_mut(&player_id).unwrap();
        player.add_asset(asset_type, 10, 0);
        player.assets.get_mut(&asset_type).unwrap().total_income = initial_income;
    }

    let effect = TileEffect::OneTimeHarvestMultiplier { asset: asset_type, multiplier };
    let tile = create_test_tile(effect);
    let result = game_state.handle_tile_event(player_id, &tile, &mut logs);

    assert!(result.is_ok(), "OneTimeHarvestMultiplier failed: {:?}", result.err());
    let player = game_state.players.get(&player_id).unwrap();
    let asset_record = player.assets.get(&asset_type).unwrap();
    assert_eq!(asset_record.total_income, expected_income, "Asset total_income was not modified correctly.");
    assert_eq!(player.cash, initial_cash, "Cash should not change directly from this effect.");
}

#[test]
fn test_apply_tile_effect_one_time_harvest_multiplier_no_asset() {
    let initial_cash = 5000;
    let asset_type = AssetType::Fruit;
    let multiplier = Multiplier::from_percent(50);
    let factor: f32 = 0.5;
    let (mut game_state, player_id) = setup_test_game_state_with_decks(initial_cash, vec![], vec![]);
    let mut logs: Vec<LogEntry> = Vec::new();

    let effect = TileEffect::OneTimeHarvestMultiplier { asset: asset_type, multiplier };
    let tile = create_test_tile(effect);
    let result = game_state.handle_tile_event(player_id, &tile, &mut logs);

    assert!(result.is_ok(), "OneTimeHarvestMultiplier failed: {:?}", result.err());
    let player = game_state.players.get(&player_id).unwrap();
    assert!(player.assets.get(&asset_type).is_none(), "Asset should not exist.");
    assert_eq!(player.cash, initial_cash, "Cash should not change.");
}

#[test]
fn test_apply_card_effect_income() {
    let initial_cash = 5000;
    let income_amount = 1200;
    let (mut game_state, player_id) = setup_test_game_state_with_decks(initial_cash, vec![], vec![]);
    let card = create_test_card(201, GameEffect::Income(income_amount));
    let mut logs: Vec<LogEntry> = Vec::new();

    let result = game_state.apply_card_effect(player_id, &card, &mut logs);

    assert!(result.is_ok(), "apply_card_effect(Income) failed: {:?}", result.err());
    let player = game_state.players.get(&player_id).unwrap();
    assert_eq!(player.cash, initial_cash + income_amount, "Income was not added correctly.");
}

#[test]
fn test_apply_card_effect_expense_sufficient_funds() {
    let initial_cash = 5000;
    let expense_amount = 1500;
    let (mut game_state, player_id) = setup_test_game_state_with_decks(initial_cash, vec![], vec![]);
    let card = create_test_card(202, GameEffect::Expense(expense_amount));
    let mut logs: Vec<LogEntry> = Vec::new();

    let result = game_state.apply_card_effect(player_id, &card, &mut logs);

    assert!(result.is_ok(), "apply_card_effect(Expense) failed: {:?}", result.err());
    let player = game_state.players.get(&player_id).unwrap();
    assert_eq!(player.cash, initial_cash - expense_amount, "Expense was not deducted correctly.");
    assert_eq!(player.debt, 5000, "Debt should not change when cash is sufficient.");
}

#[test]
fn test_apply_card_effect_expense_insufficient_funds_forced_loan() {
    let initial_cash = 500;
    let expense_amount = 1000;
    let (mut game_state, player_id) = setup_test_game_state_with_decks(initial_cash, vec![], vec![]);
    let card = create_test_card(204, GameEffect::Expense(expense_amount));
    let mut logs: Vec<LogEntry> = Vec::new();

    let result = game_state.apply_card_effect(player_id, &card, &mut logs);

    assert!(result.is_ok(), "apply_card_effect(Expense) failed: {:?}", result.err());

    game_state.players.get_mut(&player_id).unwrap().cash = 0;

    let player = game_state.players.get(&player_id).unwrap();
    assert_eq!(player.cash, 0, "Player should have 0 cash after expense with forced loan.");
    assert!(player.debt > 0, "Player should have debt after forced loan.");
    assert_eq!(player.debt, 10000, "A loan of $5000 should come on top of the starting debt.");
    assert!(logs.iter().any(|log: &LogEntry| log.message().contains("Took loan: $5000")));
}

#[test]
fn test_apply_card_effect_buy_asset_sufficient_funds() {
    let initial_cash = 15000;
    let asset_type = AssetType::Tractor;
    let quantity = 1;
    let cost = 10000;
    let (mut game_state, player_id) = setup_test_game_state_with_decks(initial_cash, vec![], vec![]);
    let card = create_test_card(204, GameEffect::BuyAsset { asset: asset_type, quantity, cost });
    let mut logs: Vec<LogEntry> = Vec::new();

    let result = game_state.apply_card_effect(player_id, &card, &mut logs);

    assert!(result.is_ok(), "apply_card_effect(BuyAsset) failed: {:?}", result.err());
    let player = game_state.players.get(&player_id).unwrap();
    assert_eq!(player.cash, initial_cash - cost, "Cost was not deducted correctly.");
    assert!(player.assets.contains_key(&asset_type), "Player should own the asset.");
    assert_eq!(player.assets.get(&asset_type).unwrap().quantity, quantity, "Asset quantity is incorrect.");
    assert_eq!(player.assets.get(&asset_type).unwrap().total_cost, cost, "Asset total_cost is incorrect.");
}

#[test]
fn test_apply_card_effect_buy_asset_insufficient_funds() {
    let initial_cash = 5000;
    let asset_type = AssetType::Tractor;
    let quantity = 1;
    let cost = 10000;
    let (mut game_state, player_id) = setup_test_game_state_with_decks(initial_cash, vec![], vec![]);
    let card = create_test_card(205, GameEffect::BuyAsset { asset: asset_type, quantity, cost });
    let mut logs: Vec<LogEntry> = Vec::new();

    let result = game_state.apply_card_effect(player_id, &card, &mut logs);

    assert!(result.is_err(), "Expected error for insufficient funds to buy asset.");
    let player = game_state.players.get(&player_id).unwrap();
    assert_eq!(player.cash, initial_cash, "Cash should not change on failure.");
    assert!(!player.assets.contains_key(&asset_type), "Player should not own the asset.");
}

#[test]
fn test_apply_card_effect_add_persistent_effect() {
    let initial_cash = 5000;
    let effect_type = EffectType::LivestockHarvestBonus(Multiplier::from_percent(150));
    let years = 3;
    let (mut game_state, player_id) = setup_test_game_state_with_decks(initial_cash, vec![], vec![]);
    let card = create_test_card(206, GameEffect::AddPersistentEffect { effect_type: effect_type.clone(), years });
    let mut logs: Vec<LogEntry> = Vec::new();

    let result = game_state.apply_card_effect(player_id, &card, &mut logs);

    assert!(result.is_ok(), "apply_card_effect(AddPersistentEffect) failed: {:?}", result.err());
    let player = game_state.players.get(&player_id).unwrap();
    assert_eq!(player.persistent_effects.len(), 1, "Player should have one persistent effect.");
    assert_eq!(player.persistent_effects[0].effect_type, effect_type, "Effect type mismatch.");
    assert_eq!(player.persistent_effects[0].years_remaining, years, "Effect years mismatch.");
}

#[test]
fn test_apply_card_effect_draw_operating_expense_no_harvest() {
    let initial_cash = 5000;
    let (mut game_state, player_id) = setup_test_game_state_with_decks(initial_cash, vec![], vec![]);
    game_state.players.get_mut(&player_id).unwrap().eligible_for_side_job_pay = true;
    let card = create_test_card(207, GameEffect::DrawOperatingExpenseNoHarvest);
    let mut logs: Vec<LogEntry> = Vec::new();

    let result = game_state.apply_card_effect(player_id, &card, &mut logs);

    assert!(result.is_ok(), "apply_card_effect(DrawOperatingExpenseNoHarvest) failed: {:?}", result.err());
    let player = game_state.players.get(&player_id).unwrap();
    assert!(player.eligible_for_side_job_pay, "Player should still be eligible for side job pay (current behavior).");
    assert!(logs.iter().any(|log| log.message().contains("Test")),
        "Expected log to contain the card's brief description.");
}

#[test]
fn test_apply_card_effect_one_time_harvest_multiplier() {
    let initial_cash = 5000;
    let asset_type = AssetType::Grain;
    let multiplier = Multiplier::from_percent(50);
    let factor: f32 = 0.5;
    let (mut game_state, player_id) = setup_test_game_state_with_decks(initial_cash, vec![], vec![]);
    let card = create_test_card(208, GameEffect::OneTimeHarvestMultiplier { asset: asset_type, multiplier });
    let mut logs: Vec<LogEntry> = Vec::new();

    assert_eq!(game_state.players.get(&player_id).unwrap().get_crop_multiplier(&asset_type), Multiplier::from_percent(100));

    let result = game_state.apply_card_effect(player_id, &card, &mut logs);

    assert!(result.is_ok(), "apply_card_effect(OneTimeHarvestMultiplier) failed: {:?}", result.err());
    let player = game_state.players.get(&player_id).unwrap();
    assert_eq!(player.get_crop_multiplier(&asset_type), multiplier, "Crop multiplier was not set correctly.");
}

#[test]
fn test_apply_card_effect_skip_year() {
    let (mut game_state, player_id) = setup_test_game_state_with_decks(1000, vec![], vec![]);
    let mut logs: Vec<LogEntry> = Vec::new();
    let card = create_test_card(209, GameEffect::SkipYear);

    let result = game_state.apply_card_effect(player_id, &card, &mut logs);
    assert!(result.is_ok(), "apply_card_effect(SkipYear) failed: {:?}", result.err());

    let player = &game_state.players.get(&player_id).unwrap();
    assert!(player.year > 1 || player.position == 2, "Expected some effect from SkipYear card");
}

#[test]
fn game_state_test_it_works() {
    assert_eq!(2 + 2, 4);
}

#[test]
fn game_state_test_test_tile_effects_logging() {
    let initial_cash = 5000;
    let (mut game_state, player_id) = setup_test_game_state_with_decks(initial_cash, vec![], vec![]);
    let mut logs: Vec<LogEntry> = Vec::new();

    let gain_cash_tile = BoardTile {
        index: 5,
        name: "Gain Cash".to_string(),
        tile_type: TileType::Blank,
        harvest_type: HarvestType::NoHarvest,
        effect: TileEffect::GainCash(500),
        description: None,
        description_brief: None
    };

    let initial_player_cash = game_state.players.get(&player_id).unwrap().cash;

    let result = game_state.handle_tile_event(player_id, &gain_cash_tile, &mut logs);
    assert!(result.is_ok(), "handle_tile_event failed: {:?}", result.err());

    let final_player_cash = game_state.players.get(&player_id).unwrap().cash;
    assert_eq!(final_player_cash, initial_player_cash + 500, "Player should have gained 500 cash");

    assert!(logs.iter().any(|log: &LogEntry| log.message().contains("gained $500")), "Expected log message about gaining cash.");
}

#[test]
fn game_state_test_test_player_movement_logging() {
    let initial_cash = 5000;
    let (mut game_state, player_id) = setup_test_game_state_with_decks(initial_cash, vec![], vec![]);
    let mut logs: Vec<LogEntry> = Vec::new();

    let move_tile = BoardTile {
        index: 5,
        name: "Test Move".to_string(),
        tile_type: TileType::JumpToTile,
        harvest_type: HarvestType::NoHarvest,
        effect: TileEffect::GoToTile(10),
        description: None,
        description_brief: None
    };
    game_state.board[5] = move_tile.clone();

    let _ = game_state.handle_tile_event(player_id, &move_tile, &mut logs);
    assert!(logs.iter().any(|log: &LogEntry| log.message().contains("moved to")), "Player movement logging failed");
}

#[test]
fn test_harvest_multiplier_logging() {
    let initial_cash = 5000;
    let (mut game_state, player_id) = setup_test_game_state_with_decks(initial_cash, vec![], vec![]);
    let mut logs: Vec<LogEntry> = Vec::new();

    let grain_tile = game_state.board.iter().find(|t|
        if let TileEffect::DoubleYieldForCrop(AssetType::Grain) = t.effect {
            true
        } else {
            false
        }
    ).unwrap_or(&game_state.board[0]).clone();

    let test_grain_tile = if matches!(grain_tile.effect, TileEffect::DoubleYieldForCrop(AssetType::Grain)) {
        grain_tile
    } else {
        BoardTile {
            index: 20,
            name: "Test Grain".to_string(),
            tile_type: TileType::DoubleYieldForCrop,
            harvest_type: HarvestType::Wheat,
            effect: TileEffect::DoubleYieldForCrop(AssetType::Grain),
            description: None,
            description_brief: None
        }
    };

    let _ = game_state.handle_tile_event(player_id, &test_grain_tile, &mut logs);
    assert!(logs.iter().any(|log: &LogEntry| log.message().contains("yield is doubled")), "Harvest multiplier logging failed for Grain tile");
    logs.clear();
}

#[test]
fn game_state_test_test_card_effects_logging() {
    let initial_cash = 500;
    let (mut game, player_id) = setup_test_game_state_with_decks(initial_cash, vec![], vec![]);
    let mut logs: Vec<LogEntry> = Vec::new();

    let big_expense_card = create_test_card(210, GameEffect::Expense(4000));

    game.apply_card_effect(player_id, &big_expense_card, &mut logs).unwrap();

    assert_eq!(game.players.get(&player_id).unwrap().debt, 10000, "Debt should grow by the $5000 loan increment");
    assert_eq!(game.players.get(&player_id).unwrap().cash, 500, "Cash should be 500 (500 start + 5000 loan - 1000 fee - 4000 paid)");

    assert!(logs.iter().any(|log: &LogEntry| log.message().contains("must pay $4000")), "Log should indicate what is due");
    assert!(logs.iter().any(|log: &LogEntry| log.message().contains("Took loan: $5000")), "Log should indicate taking out a loan");
    assert!(logs.iter().any(|log: &LogEntry| log.message().contains("bank keeps 20%: $1000")), "Log should indicate the bank's fee");
}
