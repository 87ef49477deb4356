use farming_game::cards::card::{Card, CardSource};
use farming_game::game::GameEffect;
use farming_game::models::asset::AssetType;
use farming_game::models::board::HarvestType;
use farming_game::models::player::EffectType;
use farming_game::models::{Multiplier, Player, PlayerType};

fn create_test_card(id: usize, effect: GameEffect) -> Card {
    Card {
        id,
        title: format!("Test Card {}", id),
        description: "Test Desc".to_string(),
        description_brief: "Test".to_string(),
        effect,
        default_quantity: 1,
        source: CardSource::BaseGame,
    }
}

#[test]
fn player_test_test_player_creation() {
    let player = Player::new(1, "Test Player".to_string(), PlayerType::Human);
    assert_eq!(player.cash, 5000);
    assert_eq!(player.debt, 5000);
    assert_eq!(player.land, 20);
    assert_eq!(player.year, 1);
    assert!(player.is_active);
    assert!(player.hand.is_empty());
    assert!(player.history.is_empty());
}

#[test]
fn test_asset_management_expanded() {
    let mut player = Player::new(1, "Test Player".to_string(), PlayerType::Human);

    player.add_asset(AssetType::Cows, 2, 1000);
    assert_eq!(player.assets.get(&AssetType::Cows).unwrap().quantity, 2);
    assert_eq!(player.assets.get(&AssetType::Cows).unwrap().total_cost, 1000);

    player.add_asset(AssetType::Cows, 3, 1500);
    assert_eq!(player.assets.get(&AssetType::Cows).unwrap().quantity, 5);
    assert_eq!(player.assets.get(&AssetType::Cows).unwrap().total_cost, 2500);

    player.sell_asset(AssetType::Cows, 1, 600);
    assert_eq!(player.assets.get(&AssetType::Cows).unwrap().quantity, 4);
    assert_eq!(player.assets.get(&AssetType::Cows).unwrap().total_income, 600);

    player.sell_asset(AssetType::Cows, 4, 2400);
    assert!(player.assets.get(&AssetType::Cows).is_none(), "Asset should be removed after selling all.");

    player.add_asset(AssetType::Hay, 10, 5000);
    player.sell_asset(AssetType::Hay, 15, 100);
    assert!(player.assets.get(&AssetType::Hay).is_none(), "Asset should be removed after attempting to sell more than owned.");
}

#[test]
fn player_test_test_crop_multipliers() {
    let mut player = Player::new(1, "Test Player".to_string(), PlayerType::Human);

    player.set_crop_multiplier(AssetType::Grain, Multiplier::from_percent(150));
    assert_eq!(player.get_crop_multiplier(&AssetType::Grain), Multiplier::from_percent(150));
    assert_eq!(player.get_crop_multiplier(&AssetType::Hay), Multiplier::from_percent(100));

    player.reset_crop_multipliers();
    assert!(player.crop_yield_multipliers.is_empty(), "Multipliers map should be empty after reset.");
    assert_eq!(player.get_crop_multiplier(&AssetType::Grain), Multiplier::from_percent(100));
}

#[test]
fn test_persistent_effects_expanded() {
    let mut player = Player::new(1, "Test Player".to_string(), PlayerType::Human);
    let effect1 = EffectType::LivestockHarvestBonus(Multiplier::from_percent(150));
    let effect2 = EffectType::LivestockHarvestBonus(Multiplier::from_percent(200));

    player.add_persistent_effect(effect1.clone(), 2);
    assert!(player.has_active_effect(&effect1), "Should have active effect1");
    assert!(!player.has_active_effect(&effect2), "Should not have active effect2 yet");
    assert_eq!(player.get_livestock_harvest_multiplier(), Multiplier::from_percent(150), "Multiplier should be 1.5");

    player.add_persistent_effect(effect2.clone(), 1);
    assert!(player.has_active_effect(&effect1), "Should still have active effect1");
    assert!(player.has_active_effect(&effect2), "Should have active effect2");
    assert_eq!(player.get_livestock_harvest_multiplier(), Multiplier::from_percent(300), "Multiplier should be 1.5 * 2.0 = 3.0");

    player.advance_year();
    assert!(player.has_active_effect(&effect1), "Effect1 should still be active");
    assert!(!player.has_active_effect(&effect2), "Effect2 should have expired");
    assert_eq!(player.get_livestock_harvest_multiplier(), Multiplier::from_percent(150), "Multiplier should be back to 1.5");

    player.advance_year();
    assert!(!player.has_active_effect(&effect1), "Effect1 should have expired");
    assert!(!player.has_active_effect(&effect2), "Effect2 should still be expired");
    assert_eq!(player.get_livestock_harvest_multiplier(), Multiplier::from_percent(100), "Multiplier should be back to 1.0");
}

#[test]
fn player_test_test_harvest_tracking() {
    let mut player = Player::new(1, "Test Player".to_string(), PlayerType::Human);

    assert!(!player.has_harvested_in_section(HarvestType::Livestock, 0));
    player.mark_harvest_completed(HarvestType::Livestock, 0);
    assert!(player.has_harvested_in_section(HarvestType::Livestock, 0));
    assert!(!player.has_harvested_in_section(HarvestType::Livestock, 5));
    assert!(!player.has_harvested_in_section(HarvestType::HayCutting1, 0));
}

#[test]
fn test_scoreboard_updates_expanded() {
    let mut player = Player::new(1, "Test Player".to_string(), PlayerType::Human);
    player.cash = 6000;
    player.debt = 4000;

    player.add_asset(AssetType::Cows, 2, 1000);
    player.add_income(AssetType::Cows, 500);
    player.set_ridge_value(2000);
    player.update_scoreboard();

    assert_eq!(player.total_asset_value, 1000, "Total asset value incorrect");
    assert_eq!(player.total_income, 500, "Total income incorrect");
    assert_eq!(player.total_expenses, 1000, "Total expenses incorrect");
    assert_eq!(player.total_ridge_value, 2000, "Total ridge value incorrect");

    assert_eq!(player.net_worth, 5000, "Net worth calculation incorrect");
}

#[test]
fn player_test_test_event_recording() {
    let mut player = Player::new(1, "Test Player".to_string(), PlayerType::Human);
    let event1 = "Landed on Go".to_string();
    let event2 = "Paid tax".to_string();

    player.record_event(event1.clone(), None);
    assert_eq!(player.history.len(), 1);
    assert_eq!(player.history[0].description, event1);

    player.record_event(event2.clone(), Some("AI Reason".to_string()));
    assert_eq!(player.history.len(), 2);
    assert_eq!(player.history[1].description, event2);
    assert!(player.history[1].ai_reasoning.is_some());
}

#[test]
fn player_test_test_persistent_cards() {
    let mut player = Player::new(1, "Test Player".to_string(), PlayerType::Human);
    let card1 = create_test_card(301, GameEffect::Special("Card 1".to_string()));
    let card2 = create_test_card(302, GameEffect::Special("Card 2".to_string()));
    let mut discard_pile = Vec::new();

    player.add_persistent_card(card1.clone(), 2);
    player.add_persistent_card(card2.clone(), 1);
    assert_eq!(player.active_persistent_cards.len(), 2);

    player.update_persistent_cards(&mut discard_pile);
    assert_eq!(player.active_persistent_cards.len(), 1, "Only card 1 should remain");
    assert_eq!(player.active_persistent_cards[0].0.id, card1.id, "Remaining card should be card 1");
    assert_eq!(player.active_persistent_cards[0].1, 1, "Card 1 should have 1 year left");
    assert_eq!(discard_pile.len(), 1, "Card 2 should be in discard");
    assert_eq!(discard_pile[0].id, card2.id, "Discarded card should be card 2");

    player.update_persistent_cards(&mut discard_pile);
    assert!(player.active_persistent_cards.is_empty(), "No persistent cards should remain");
    assert_eq!(discard_pile.len(), 2, "Card 1 should now be in discard");
    assert_eq!(discard_pile[1].id, card1.id, "Second discarded card should be card 1");
}
