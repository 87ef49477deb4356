use farming_game::cards::card::{Card, CardSource};
use farming_game::config::{STARTING_CASH, STARTING_DEBT, STARTING_LAND, STARTING_YEAR};
use farming_game::game::GameEffect;
use farming_game::models::asset::AssetType;
use farming_game::models::board::HarvestType;
use farming_game::models::player::{EffectType, Player, PlayerType};
use farming_game::models::Multiplier;

#[test]
fn player_test_player_creation() {
    let player = Player::new(1, "Test Player".to_string(), PlayerType::Human);
    assert_eq!(player.cash, STARTING_CASH);
    assert_eq!(player.debt, STARTING_DEBT);
    assert_eq!(player.land, STARTING_LAND);
    assert_eq!(player.year, STARTING_YEAR);
    assert!(player.is_active);
    assert!(player.hand.is_empty());
}

#[test]
fn test_asset_management() {
    let mut player = Player::new(1, "Test Player".to_string(), PlayerType::Human);

    player.add_asset(AssetType::Cows, 2, 1000);
    assert_eq!(player.assets.get(&AssetType::Cows).unwrap().quantity, 2);
    assert_eq!(player.assets.get(&AssetType::Cows).unwrap().total_cost, 1000);

    player.sell_asset(AssetType::Cows, 1, 600);
    assert_eq!(player.assets.get(&AssetType::Cows).unwrap().quantity, 1);
    assert_eq!(player.assets.get(&AssetType::Cows).unwrap().total_income, 600);
}

#[test]
fn player_test_crop_multipliers() {
    let mut player = Player::new(1, "Test Player".to_string(), PlayerType::Human);

    player.set_crop_multiplier(AssetType::Grain, Multiplier::from_percent(150));
    assert_eq!(player.get_crop_multiplier(&AssetType::Grain), Multiplier::from_percent(150));

    assert_eq!(player.get_crop_multiplier(&AssetType::Hay), Multiplier::from_percent(100));

    player.reset_crop_multipliers();
    assert_eq!(player.get_crop_multiplier(&AssetType::Grain), Multiplier::from_percent(100));
}

#[test]
fn test_persistent_effects() {
    let mut player = Player::new(1, "Test Player".to_string(), PlayerType::Human);

    player.add_persistent_effect(EffectType::LivestockHarvestBonus(Multiplier::from_percent(150)), 2);
    assert_eq!(player.get_livestock_harvest_multiplier(), Multiplier::from_percent(150));

    player.advance_year();
    assert_eq!(player.get_livestock_harvest_multiplier(), Multiplier::from_percent(150));
    player.advance_year();
    assert_eq!(player.get_livestock_harvest_multiplier(), Multiplier::from_percent(100));
}

#[test]
fn player_test_harvest_tracking() {
    let mut player = Player::new(1, "Test Player".to_string(), PlayerType::Human);

    assert!(!player.has_harvested_in_section(HarvestType::Livestock, 0));
    player.mark_harvest_completed(HarvestType::Livestock, 0);
    assert!(player.has_harvested_in_section(HarvestType::Livestock, 0));
}

#[test]
fn test_scoreboard_updates() {
    let mut player = Player::new(1, "Test Player".to_string(), PlayerType::Human);

    player.add_asset(AssetType::Cows, 2, 1000);
    player.update_scoreboard();

    assert_eq!(player.total_asset_value, 1000);

    assert_eq!(player.net_worth, 5000 - 5000 + 1000 + 0);
}

#[test]
fn test_player_advance_year() {
    let mut player = Player::new(1, "Test Player".to_string(), PlayerType::Human);
    assert_eq!(player.year, 1);
    player.advance_year();
    assert_eq!(player.year, 2);
}

#[test]
fn test_asset_removal_on_sell() {
    let mut player = Player::new(1, "Test Player".to_string(), PlayerType::Human);

    player.add_asset(AssetType::Cows, 2, 1000);
    player.sell_asset(AssetType::Cows, 2, 600);

    assert!(!player.assets.contains_key(&AssetType::Cows));
}

#[test]
fn test_income_tracking() {
    let mut player = Player::new(1, "Test Player".to_string(), PlayerType::Human);

    player.add_asset(AssetType::Grain, 1, 1000);
    player.add_income(AssetType::Grain, 500);

    assert_eq!(player.assets.get(&AssetType::Grain).unwrap().total_income, 500);
    assert_eq!(player.total_income, 500);
}

#[test]
fn test_ridge_value_updates() {
    let mut player = Player::new(1, "Test Player".to_string(), PlayerType::Human);

    player.set_ridge_value(2000);
    assert_eq!(player.total_ridge_value, 2000);
    assert_eq!(player.net_worth, 5000 - 5000 + 0 + 2000);
}

#[test]
fn player_test_persistent_cards() {
    let mut player = Player::new(1, "Test Player".to_string(), PlayerType::Human);
    let mut farmers_fate_discard = Vec::new();

    let test_card = Card {
        id: 1,
        title: "Test Card".to_string(),
        description: "Test".to_string(),
        description_brief: "Test".to_string(),
        effect: GameEffect::Special("Test effect".to_string()),
        default_quantity: 1,
        source: CardSource::BaseGame,
    };

    player.add_persistent_card(test_card.clone(), 2);
    assert_eq!(player.active_persistent_cards.len(), 1);

    player.update_persistent_cards(&mut farmers_fate_discard);
    assert_eq!(player.active_persistent_cards.len(), 1);
    assert_eq!(farmers_fate_discard.len(), 0);

    player.update_persistent_cards(&mut farmers_fate_discard);
    assert_eq!(player.active_persistent_cards.len(), 0);
    assert_eq!(farmers_fate_discard.len(), 1);
}

#[test]
fn player_test_event_recording() {
    let mut player = Player::new(1, "Test Player".to_string(), PlayerType::Human);

    player.record_event("Test event".to_string(), Some("AI reasoning".to_string()));
    assert_eq!(player.history.len(), 1);
    assert_eq!(player.history[0].description, "Test event");
    assert_eq!(player.history[0].ai_reasoning, Some("AI reasoning".to_string()));
}

#[test]
fn test_selling_more_than_owned() {
    let mut player = Player::new(1, "Test Player".to_string(), PlayerType::Human);

    player.add_asset(AssetType::Cows, 2, 1000);
    player.sell_asset(AssetType::Cows, 3, 600);

    assert!(!player.assets.contains_key(&AssetType::Cows));
}

#[test]
fn test_multiple_persistent_effects() {
    let mut player = Player::new(1, "Test Player".to_string(), PlayerType::Human);

    player.add_persistent_effect(EffectType::LivestockHarvestBonus(Multiplier::from_percent(150)), 2);
    player.add_persistent_effect(EffectType::LivestockHarvestBonus(Multiplier::from_percent(200)), 1);

    assert_eq!(player.get_livestock_harvest_multiplier(), Multiplier::from_percent(300));

    player.advance_year();
    assert_eq!(player.get_livestock_harvest_multiplier(), Multiplier::from_percent(150));
}

#[test]
fn test_harvest_section_tracking() {
    let mut player = Player::new(1, "Test Player".to_string(), PlayerType::Human);

    player.mark_harvest_completed(HarvestType::Livestock, 0);
    player.mark_harvest_completed(HarvestType::Livestock, 10);

    assert!(player.has_harvested_in_section(HarvestType::Livestock, 0));
    assert!(player.has_harvested_in_section(HarvestType::Livestock, 10));
    assert!(!player.has_harvested_in_section(HarvestType::Livestock, 20));
}

#[test]
fn test_asset_value_calculation() {
    let mut player = Player::new(1, "Test Player".to_string(), PlayerType::Human);

    player.add_asset(AssetType::Grain, 2, 4000);
    player.add_asset(AssetType::Cows, 3, 1500);
    player.add_asset(AssetType::Tractor, 1, 10000);

    player.update_scoreboard();

    assert_eq!(player.total_asset_value, 15500);
}

#[test]
fn test_income_for_nonexistent_asset() {
    let mut player = Player::new(1, "Test Player".to_string(), PlayerType::Human);

    player.add_income(AssetType::Grain, 500);

    assert_eq!(player.total_income, 0);
}

#[test]
fn test_net_worth_with_all_components() {
    let mut player = Player::new(1, "Test Player".to_string(), PlayerType::Human);

    player.add_asset(AssetType::Grain, 2, 4000);
    player.set_ridge_value(2000);
    player.cash = 3000;
    player.debt = 2000;

    player.update_scoreboard();

    assert_eq!(player.net_worth, 7000);
}

#[test]
fn test_active_effect_checking() {
    let mut player = Player::new(1, "Test Player".to_string(), PlayerType::Human);

    let effect = EffectType::LivestockHarvestBonus(Multiplier::from_percent(150));
    player.add_persistent_effect(effect.clone(), 2);

    assert!(player.has_active_effect(&effect));

    player.advance_year();
    assert!(player.has_active_effect(&effect));
    player.advance_year();
    assert!(!player.has_active_effect(&effect));
}

#[test]
fn test_multiple_persistent_cards() {
    let mut player = Player::new(1, "Test Player".to_string(), PlayerType::Human);
    let mut farmers_fate_discard = Vec::new();

    let card1 = Card {
        id: 1,
        title: "Test Card 1".to_string(),
        description: "Test 1".to_string(),
        description_brief: "Test 1".to_string(),
        effect: GameEffect::Special("Test effect 1".to_string()),
        default_quantity: 1,
        source: CardSource::BaseGame,
    };

    let card2 = Card {
        id: 2,
        title: "Test Card 2".to_string(),
        description: "Test 2".to_string(),
        description_brief: "Test 2".to_string(),
        effect: GameEffect::Special("Test effect 2".to_string()),
        default_quantity: 1,
        source: CardSource::BaseGame,
    };

    player.add_persistent_card(card1.clone(), 1);
    player.add_persistent_card(card2.clone(), 2);

    player.update_persistent_cards(&mut farmers_fate_discard);
    assert_eq!(player.active_persistent_cards.len(), 1);
    assert_eq!(farmers_fate_discard.len(), 1);

    player.update_persistent_cards(&mut farmers_fate_discard);
    assert_eq!(player.active_persistent_cards.len(), 0);
    assert_eq!(farmers_fate_discard.len(), 2);
}

#[test]
fn test_harvest_mechanics() {
    let mut player = Player::new(1, "Test Player".to_string(), PlayerType::Human);

    player.mark_harvest_completed(HarvestType::Corn, 0);
    player.mark_harvest_completed(HarvestType::Wheat, 10);
    player.mark_harvest_completed(HarvestType::Livestock, 20);

    assert!(player.has_harvested_in_section(HarvestType::Corn, 0));
    assert!(player.has_harvested_in_section(HarvestType::Wheat, 10));
    assert!(player.has_harvested_in_section(HarvestType::Livestock, 20));

    assert!(!player.has_harvested_in_section(HarvestType::Corn, 10));
    assert!(!player.has_harvested_in_section(HarvestType::Wheat, 20));
}

#[test]
fn test_harvest_multipliers() {
    let mut player = Player::new(1, "Test Player".to_string(), PlayerType::Human);

    player.set_crop_multiplier(AssetType::Grain, Multiplier::from_percent(150));
    player.set_crop_multiplier(AssetType::Hay, Multiplier::from_percent(200));

    assert_eq!(player.get_crop_multiplier(&AssetType::Grain), Multiplier::from_percent(150));
    assert_eq!(player.get_crop_multiplier(&AssetType::Hay), Multiplier::from_percent(200));

    player.reset_crop_multipliers();
    assert_eq!(player.get_crop_multiplier(&AssetType::Grain), Multiplier::from_percent(100));
    assert_eq!(player.get_crop_multiplier(&AssetType::Hay), Multiplier::from_percent(100));
}

#[test]
fn test_side_job_eligibility() {
    let mut player = Player::new(1, "Test Player".to_string(), PlayerType::Human);

    assert!(player.eligible_for_side_job_pay);

    player.eligible_for_side_job_pay = false;
    assert!(!player.eligible_for_side_job_pay);

    player.eligible_for_side_job_pay = true;
    assert!(player.eligible_for_side_job_pay);
}

#[test]
fn test_turn_tracking() {
    let mut player = Player::new(1, "Test Player".to_string(), PlayerType::Human);

    assert_eq!(player.turns_taken, 0);

    player.turns_taken += 1;
    assert_eq!(player.turns_taken, 1);

    player.turns_taken += 2;
    assert_eq!(player.turns_taken, 3);
}

#[test]
fn test_net_worth_calculation_edge_cases() {
    let mut player = Player::new(1, "Test Player".to_string(), PlayerType::Human);

    player.cash = -1000;
    player.update_scoreboard();
    assert_eq!(player.net_worth, -6000);

    player.debt = -1000;
    player.update_scoreboard();
    assert_eq!(player.net_worth, 0);

    player.cash = i32::MAX;
    player.debt = i32::MAX;
    player.update_scoreboard();
    assert_eq!(player.net_worth, 0);
}

#[test]
fn test_persistent_effects_ordering() {
    let mut player = Player::new(1, "Test Player".to_string(), PlayerType::Human);

    player.add_persistent_effect(EffectType::LivestockHarvestBonus(Multiplier::from_percent(150)), 2);
    player.add_persistent_effect(EffectType::LivestockHarvestBonus(Multiplier::from_percent(200)), 1);

    let multiplier1 = player.get_livestock_harvest_multiplier();

    player.persistent_effects.clear();
    player.add_persistent_effect(EffectType::LivestockHarvestBonus(Multiplier::from_percent(200)), 1);
    player.add_persistent_effect(EffectType::LivestockHarvestBonus(Multiplier::from_percent(150)), 2);

    let multiplier2 = player.get_livestock_harvest_multiplier();

    assert_eq!(multiplier1, multiplier2);
}

#[test]
fn test_card_hand_management() {
    let mut player = Player::new(1, "Test Player".to_string(), PlayerType::Human);

    let card1 = Card {
        id: 1,
        title: "Test Card 1".to_string(),
        description: "Test 1".to_string(),
        description_brief: "Test 1".to_string(),
        effect: GameEffect::Special("Test effect 1".to_string()),
        default_quantity: 1,
        source: CardSource::BaseGame,
    };

    let card2 = Card {
        id: 2,
        title: "Test Card 2".to_string(),
        description: "Test 2".to_string(),
        description_brief: "Test 2".to_string(),
        effect: GameEffect::Special("Test effect 2".to_string()),
        default_quantity: 1,
        source: CardSource::BaseGame,
    };

    player.hand.push(card1.clone());
    player.hand.push(card2.clone());

    assert_eq!(player.hand.len(), 2);
    assert_eq!(player.hand[0].id, 1);
    assert_eq!(player.hand[1].id, 2);
}

#[test]
fn test_player_event_history() {
    let mut player = Player::new(1, "Test Player".to_string(), PlayerType::Human);

    player.record_event("Test event 1".to_string(), None);
    player.record_event("Test event 2".to_string(), Some("AI reasoning".to_string()));

    assert_eq!(player.history.len(), 2);
    assert_eq!(player.history[0].description, "Test event 1");
    assert_eq!(player.history[0].ai_reasoning, None);
    assert_eq!(player.history[1].description, "Test event 2");
    assert_eq!(player.history[1].ai_reasoning, Some("AI reasoning".to_string()));
}
