//! The three catalogs of cards that the decks are made from.

use crate::cards::card::{Card, CardSource};
use crate::cards::deck::distinct_ids;
use crate::models::asset::AssetType;
use crate::models::effects::GameEffect;
use crate::models::multiplier::Multiplier;
use crate::models::player::EffectType;
use vstd::prelude::*;
use vstd::string::StringExecFns;

verus! {

/// Whether the card has this id, these texts and this multiplicity, and
/// comes with the base game.
pub open spec fn is_entry(
    c: Card,
    id: usize,
    title: Seq<char>,
    description: Seq<char>,
    brief: Seq<char>,
    quantity: u32,
) -> bool {
    &&& c.id == id
    &&& c.title@ == title
    &&& c.description@ == description
    &&& c.description_brief@ == brief
    &&& c.default_quantity == quantity
    &&& c.source == CardSource::BaseGame
}

/// Whether the effect is the lease of the ridge called `name`, at `cost`,
/// stocked with `cow_count` cows.
pub open spec fn is_lease(effect: GameEffect, name: Seq<char>, cost: i32, cow_count: i32) -> bool {
    effect matches GameEffect::LeaseRidge { name: n, cost: c, cow_count: k } && n@ == name && c
        == cost && k == cow_count
}

/// A card of the base game.
fn entry(id: usize, title: &str, description: &str, brief: &str, effect: GameEffect, quantity: u32) -> (c:
    Card)
    ensures
        is_entry(c, id, title@, description@, brief@, quantity),
        c.effect == effect,
{
    Card {
        id,
        title: String::from_str(title),
        description: String::from_str(description),
        description_brief: String::from_str(brief),
        effect,
        default_quantity: quantity,
        source: CardSource::BaseGame,
    }
}

/// What the card at place `i` of the operating expense catalog is.
pub open spec fn is_operating_expense_card(i: int, c: Card) -> bool {
    if i == 0 {
        is_entry(
            c,
            100,
            "Fertilizer Bill"@,
            "Fertilizer Bill. Pay $100 per acre."@,
            "Fertilizer Bill. Pay $100 per acre."@,
            2,
        ) && c.effect == (GameEffect::ExpensePerAsset { asset: AssetType::Grain, rate: 100 })
    } else if i == 1 {
        is_entry(
            c,
            101,
            "Fuel Bill"@,
            "Fuel Bill. Pay $1,000."@,
            "Fuel Bill. Pay $1,000."@,
            2,
        ) && c.effect == (GameEffect::Expense(1000))
    } else if i == 2 {
        is_entry(
            c,
            102,
            "Electric Bill for Irrigation"@,
            "Electric Bill for Irrigation. Pay $500."@,
            "Electric Bill for Irrigation. Pay $500."@,
            1,
        ) && c.effect == (GameEffect::Expense(500))
    } else if i == 3 {
        is_entry(
            c,
            103,
            "Custom Hire - No Tractor"@,
            "Pay $2,000 if you do not own a Tractor."@,
            "Pay $2,000 if you do not own a Tractor."@,
            2,
        ) && c.effect == (GameEffect::PayIfNoAssetDistribute { required_asset: AssetType::Tractor, amount: 2000 })
    } else if i == 4 {
        is_entry(
            c,
            104,
            "Custom Hire - No Harvester"@,
            "Pay $2,000 if you do not own a Harvester."@,
            "Pay $2,000 if you do not own a Harvester."@,
            2,
        ) && c.effect == (GameEffect::PayIfNoAssetDistribute { required_asset: AssetType::Harvester, amount: 2000 })
    } else if i == 5 {
        is_entry(
            c,
            105,
            "Parts Bill"@,
            "Parts Bill. Pay $500."@,
            "Parts Bill. Pay $500."@,
            2,
        ) && c.effect == (GameEffect::Expense(500))
    } else if i == 6 {
        is_entry(
            c,
            106,
            "Wire Worm in Grain"@,
            "Wire Worm in Grain. Pay $100 per Grain acre to fumigate."@,
            "Wire Worm in Grain. Pay $100 per Grain acre to fumigate."@,
            1,
        ) && c.effect == (GameEffect::ExpensePerAsset { asset: AssetType::Grain, rate: 100 })
    } else if i == 7 {
        is_entry(
            c,
            107,
            "Equipment Breakdown"@,
            "Equipment Breakdown. Pay $500."@,
            "Equipment Breakdown. Pay $500."@,
            2,
        ) && c.effect == (GameEffect::Expense(500))
    } else if i == 8 {
        is_entry(
            c,
            108,
            "Feed Bill"@,
            "Feed Bill. Pay $100 per cow."@,
            "Feed Bill. Pay $100 per cow."@,
            1,
        ) && c.effect == (GameEffect::ExpensePerAsset { asset: AssetType::Cows, rate: 100 })
    } else if i == 9 {
        is_entry(
            c,
            109,
            "Farmowner's Insurance"@,
            "Farmowner's Insurance. Pay $1,500."@,
            "Farmowner's Insurance. Pay $1,500."@,
            1,
        ) && c.effect == (GameEffect::Expense(1500))
    } else if i == 10 {
        is_entry(
            c,
            110,
            "Seed Bill"@,
            "Seed Bill. Pay $3,000."@,
            "Seed Bill. Pay $3,000."@,
            2,
        ) && c.effect == (GameEffect::Expense(3000))
    } else if i == 11 {
        is_entry(
            c,
            111,
            "Farm Taxes"@,
            "Farm Taxes. Pay $1,500."@,
            "Farm Taxes. Pay $1,500."@,
            1,
        ) && c.effect == (GameEffect::Expense(1500))
    } else if i == 12 {
        is_entry(
            c,
            112,
            "Interest on Bank Notes"@,
            "Pay 10% on Bank Notes on hand."@,
            "Pay 10% on Bank Notes on hand."@,
            2,
        ) && c.effect == (GameEffect::PayInterest)
    } else if i == 13 {
        is_entry(
            c,
            113,
            "Veterinary Bill (Cows)"@,
            "Veterinary Bill. Pay $500 if you own cows."@,
            "Veterinary Bill. Pay $500 if you own cows."@,
            1,
        ) && c.effect == (GameEffect::ExpensePerAsset { asset: AssetType::Cows, rate: 500 })
    } else {
        is_entry(
            c,
            114,
            "Equipment in Shop"@,
            "Equipment in the shop. Pay $1,000 for the delay."@,
            "Equipment in the shop. Pay $1,000 for the delay."@,
            2,
        ) && c.effect == (GameEffect::Expense(1000))
    }
}

/// The cards of operating expense: what a harvest costs.
pub fn operating_expense_catalog() -> (v: Vec<Card>)
    ensures
        v@.len() == 15,
        forall|i: int| 0 <= i < 15 ==> is_operating_expense_card(i, #[trigger] v@[i]),
        distinct_ids(v@),
{
    let mut v: Vec<Card> = Vec::new();
    v.push(
        entry(
            100,
            "Fertilizer Bill",
            "Fertilizer Bill. Pay $100 per acre.",
            "Fertilizer Bill. Pay $100 per acre.",
            GameEffect::ExpensePerAsset { asset: AssetType::Grain, rate: 100 },
            2,
        ),
    );
    v.push(
        entry(
            101,
            "Fuel Bill",
            "Fuel Bill. Pay $1,000.",
            "Fuel Bill. Pay $1,000.",
            GameEffect::Expense(1000),
            2,
        ),
    );
    v.push(
        entry(
            102,
            "Electric Bill for Irrigation",
            "Electric Bill for Irrigation. Pay $500.",
            "Electric Bill for Irrigation. Pay $500.",
            GameEffect::Expense(500),
            1,
        ),
    );
    v.push(
        entry(
            103,
            "Custom Hire - No Tractor",
            "Pay $2,000 if you do not own a Tractor.",
            "Pay $2,000 if you do not own a Tractor.",
            GameEffect::PayIfNoAssetDistribute { required_asset: AssetType::Tractor, amount: 2000 },
            2,
        ),
    );
    v.push(
        entry(
            104,
            "Custom Hire - No Harvester",
            "Pay $2,000 if you do not own a Harvester.",
            "Pay $2,000 if you do not own a Harvester.",
            GameEffect::PayIfNoAssetDistribute { required_asset: AssetType::Harvester, amount: 2000 },
            2,
        ),
    );
    v.push(
        entry(
            105,
            "Parts Bill",
            "Parts Bill. Pay $500.",
            "Parts Bill. Pay $500.",
            GameEffect::Expense(500),
            2,
        ),
    );
    v.push(
        entry(
            106,
            "Wire Worm in Grain",
            "Wire Worm in Grain. Pay $100 per Grain acre to fumigate.",
            "Wire Worm in Grain. Pay $100 per Grain acre to fumigate.",
            GameEffect::ExpensePerAsset { asset: AssetType::Grain, rate: 100 },
            1,
        ),
    );
    v.push(
        entry(
            107,
            "Equipment Breakdown",
            "Equipment Breakdown. Pay $500.",
            "Equipment Breakdown. Pay $500.",
            GameEffect::Expense(500),
            2,
        ),
    );
    v.push(
        entry(
            108,
            "Feed Bill",
            "Feed Bill. Pay $100 per cow.",
            "Feed Bill. Pay $100 per cow.",
            GameEffect::ExpensePerAsset { asset: AssetType::Cows, rate: 100 },
            1,
        ),
    );
    v.push(
        entry(
            109,
            "Farmowner's Insurance",
            "Farmowner's Insurance. Pay $1,500.",
            "Farmowner's Insurance. Pay $1,500.",
            GameEffect::Expense(1500),
            1,
        ),
    );
    v.push(
        entry(
            110,
            "Seed Bill",
            "Seed Bill. Pay $3,000.",
            "Seed Bill. Pay $3,000.",
            GameEffect::Expense(3000),
            2,
        ),
    );
    v.push(
        entry(
            111,
            "Farm Taxes",
            "Farm Taxes. Pay $1,500.",
            "Farm Taxes. Pay $1,500.",
            GameEffect::Expense(1500),
            1,
        ),
    );
    v.push(
        entry(
            112,
            "Interest on Bank Notes",
            "Pay 10% on Bank Notes on hand.",
            "Pay 10% on Bank Notes on hand.",
            GameEffect::PayInterest,
            2,
        ),
    );
    v.push(
        entry(
            113,
            "Veterinary Bill (Cows)",
            "Veterinary Bill. Pay $500 if you own cows.",
            "Veterinary Bill. Pay $500 if you own cows.",
            GameEffect::ExpensePerAsset { asset: AssetType::Cows, rate: 500 },
            1,
        ),
    );
    v.push(
        entry(
            114,
            "Equipment in Shop",
            "Equipment in the shop. Pay $1,000 for the delay.",
            "Equipment in the shop. Pay $1,000 for the delay.",
            GameEffect::Expense(1000),
            2,
        ),
    );
    v
}

/// What the card at place `i` of the farmer's fate catalog is.
pub open spec fn is_farmers_fate_card(i: int, c: Card) -> bool {
    if i == 0 {
        is_entry(
            c,
            200,
            "Calves Market Jump"@,
            "Held some of your calves and the market jumped. Collect $2,000 if you have cows."@,
            "Collect $2,000 if you have cows."@,
            1,
        ) && c.effect == (GameEffect::IncomeIfHas { asset: AssetType::Cows, amount: 2000 })
    } else if i == 1 {
        is_entry(
            c,
            201,
            "Federal Crop Disaster"@,
            "Federal Crop Disaster payment saves your bacon. Collect $100 per Grain acre."@,
            "Taxpayers bailed you out. Collect $100 per Grain acre."@,
            1,
        ) && c.effect == (GameEffect::IncomePerAsset { asset: AssetType::Grain, rate: 100 })
    } else if i == 2 {
        is_entry(
            c,
            202,
            "Bad at Taxes"@,
            "IRS garnishes your income after finding errors on your tax return. Draw an Operating Expense card during Harvest but do not roll for Harvest costs."@,
            "No income for you this year - only Operating Expenses!"@,
            1,
        ) && c.effect == (GameEffect::DrawOperatingExpenseNoHarvest)
    } else if i == 3 {
        is_entry(
            c,
            205,
            "Drought Year"@,
            "Drought year! Go to the 2nd week of January. Do not collect your $5,000 year's wages."@,
            "Drought year! Skip to 2nd week of January. Do not collect $5,000."@,
            2,
        ) && c.effect == (GameEffect::SkipYear)
    } else if i == 4 {
        is_entry(
            c,
            206,
            "Truckers Strike"@,
            "Truckers strike delays Fruit in transport, lots of spoilage. Pay $1,000 per Fruit acre."@,
            "Truckers strike: Transport delays cause spoilage. Pay $1,000 per Fruit acre."@,
            1,
        ) && c.effect == (GameEffect::ExpensePerAsset { asset: AssetType::Fruit, rate: 1000 })
    } else if i == 5 {
        is_entry(
            c,
            207,
            "Uncle Bert's Legacy"@,
            "Uncle Bert dies and leaves you 10 acres of Hay, if you can raise the $10,000 cash to pay Inheritance Tax and small remaining mortgage."@,
            "Uncle Bert dies: Inherit 10 acres of Hay for $10,000."@,
            1,
        ) && c.effect == (GameEffect::OptionalBuyAsset { asset: AssetType::Hay, quantity: 10, cost: 10000 })
    } else if i == 6 {
        is_entry(
            c,
            208,
            "Premium Hay Sale"@,
            "Rich folks from the city bought the neighboring farm and pay you a premium for your best hay to feed their show horses. Collect $100 per Hay Acre."@,
            "Premium Hay Sale: Collect $100 per Hay Acre."@,
            1,
        ) && c.effect == (GameEffect::IncomePerAsset { asset: AssetType::Hay, rate: 100 })
    } else if i == 7 {
        is_entry(
            c,
            209,
            "Weed Infestation"@,
            "Windy spring, didn't get your wheat sprayed. Weeds cut your wheat crop in half. Hold this card through Wheat Harvest for this year."@,
            "Weeds cut your wheat crop in half."@,
            1,
        ) && c.effect == (GameEffect::OneTimeHarvestMultiplier { asset: AssetType::Grain, multiplier: Multiplier { percent: 50 } })
    } else if i == 8 {
        is_entry(
            c,
            210,
            "Cherry Market Crash"@,
            "Some TV talk show host does a show on the dangers of farm control spray use on your cherries. Even though the pseudo-science behind his ill-informed rant made you angrier than a supermarket-rabid, the national cherry market crashes. Cut your cherry crop in half if you haven't already harvested this year."@,
            "TV talking head ruins cherry market. Cut your cherry crop in half."@,
            1,
        ) && c.effect == (GameEffect::OneTimeHarvestMultiplier { asset: AssetType::Fruit, multiplier: Multiplier { percent: 50 } })
    } else if i == 9 {
        is_entry(
            c,
            211,
            "Income Taxes Due"@,
            "Income taxes due. Pay $7,000."@,
            "Income taxes due. Pay $7,000."@,
            1,
        ) && c.effect == (GameEffect::Expense(7000))
    } else if i == 10 {
        is_entry(
            c,
            212,
            "Mt. St. Helens Disaster"@,
            "Mt. St. Helens Blows. You are luckily out of the Ash Path.  Your ash-free hay jumps in price! Collect $500 per Hay acre. Other players must roll to see if they escaped. Odd-escaped, Even-hit! Ash hit players Pay $100 per acre (all crops) to clean up mess."@,
            "Volcano! You are safe and collect $500 per Hay acre. Other players roll to escape or pay."@,
            1,
        ) && c.effect == (GameEffect::MtStHelensDisaster)
    } else if i == 11 {
        is_entry(
            c,
            213,
            "Cut Worms"@,
            "Cut worms eat sprouting Fruit buds. EPA bans control spray. Pay $300 per Fruit acre."@,
            "Worms in the fruit. EPA bans spray. Pay $300 per Fruit acre."@,
            1,
        ) && c.effect == (GameEffect::ExpensePerAsset { asset: AssetType::Fruit, rate: 800 })
    } else if i == 12 {
        is_entry(
            c,
            214,
            "Prime Rate Hike"@,
            "Banks raise Prime Rate. Pay 10% of outstanding loan balance as additional interest."@,
            "Prime Rate Hike. Pay 10% of outstanding loan balance."@,
            1,
        ) && c.effect == (GameEffect::PayInterest)
    } else if i == 13 {
        is_entry(
            c,
            215,
            "PCB Contamination"@,
            "A leaking electrical motor at Feed Mill contaminated your load of feed with PCB. State Ag Inspector requires you slaughter all cows (not cows on lease range land) with no reimbursement."@,
            "Leaky motor contaiminates feed. Slaughter cows without compensation."@,
            1,
        ) && c.effect == (GameEffect::SlaughterCowsWithoutCompensation)
    } else if i == 14 {
        is_entry(
            c,
            216,
            "Cattle Management Bonus"@,
            "Sharp management, testing and your computer record system cause your cattle yearling weights to soar. Receive a 50% bonus after you roll for your Livestock Harvest check each of the next two years."@,
            "You're a cattle management genius. 50% bonus for 2 years."@,
            1,
        ) && c.effect == (GameEffect::AddPersistentEffect { effect_type: EffectType::LivestockHarvestBonus(Multiplier { percent: 150 }), years: 2 })
    } else if i == 15 {
        is_entry(
            c,
            217,
            "Tractor Hire Bill - $3,000"@,
            "Custom hire bill due. If you have no Tractor Pay $3,000."@,
            "Pay $3,000 to hire a tractor."@,
            2,
        ) && c.effect == (GameEffect::PayIfNoAssetDistribute { required_asset: AssetType::Tractor, amount: 3000 })
    } else if i == 16 {
        is_entry(
            c,
            219,
            "Russian Wheat Sale"@,
            "Russian sale boosts wheat prices. Collect $2,000."@,
            "Putin buys your wheat. Collect $2,000."@,
            1,
        ) && c.effect == (GameEffect::Income(2000))
    } else if i == 17 {
        is_entry(
            c,
            220,
            "Apple Maggot Fly"@,
            "The Apple Maggot Fly, cousin of the dreaded Medfly, is found in an insect trap in your Fruit. Your Fruit is quarantined, but you get a lucrative export contract. Pay $500 per Fruit acre."@,
            "Stupid Apple Maggot fly. Pay $500 per Fruit acre."@,
            1,
        ) && c.effect == (GameEffect::ExpensePerAsset { asset: AssetType::Fruit, rate: 500 })
    } else if i == 18 {
        is_entry(
            c,
            221,
            "Grain Embargo"@,
            "The President slaps on a Grain Embargo while you're waiting for the custom harvester to show up. Instant market collapse. Pay $2,500 if you don't own your own Harvester."@,
            "Trump and his grain embargos! Pay $2,500 if you don't own your own Harvester."@,
            1,
        ) && c.effect == (GameEffect::PayIfNoAssetDistribute { required_asset: AssetType::Harvester, amount: 2500 })
    } else {
        is_entry(
            c,
            222,
            "Marketing Co-op Success"@,
            "Marketing Co-op holds out for higher price. Processor gives in! Collect $1,000."@,
            "Marketing Co-op negotiates $1,000 bonus."@,
            1,
        ) && c.effect == (GameEffect::Income(1000))
    }
}

/// The cards of Farmer's Fate: what befalls a farmer.
pub fn farmers_fate_catalog() -> (v: Vec<Card>)
    ensures
        v@.len() == 20,
        forall|i: int| 0 <= i < 20 ==> is_farmers_fate_card(i, #[trigger] v@[i]),
        distinct_ids(v@),
{
    let mut v: Vec<Card> = Vec::new();
    v.push(
        entry(
            200,
            "Calves Market Jump",
            "Held some of your calves and the market jumped. Collect $2,000 if you have cows.",
            "Collect $2,000 if you have cows.",
            GameEffect::IncomeIfHas { asset: AssetType::Cows, amount: 2000 },
            1,
        ),
    );
    v.push(
        entry(
            201,
            "Federal Crop Disaster",
            "Federal Crop Disaster payment saves your bacon. Collect $100 per Grain acre.",
            "Taxpayers bailed you out. Collect $100 per Grain acre.",
            GameEffect::IncomePerAsset { asset: AssetType::Grain, rate: 100 },
            1,
        ),
    );
    v.push(
        entry(
            202,
            "Bad at Taxes",
            "IRS garnishes your income after finding errors on your tax return. Draw an Operating Expense card during Harvest but do not roll for Harvest costs.",
            "No income for you this year - only Operating Expenses!",
            GameEffect::DrawOperatingExpenseNoHarvest,
            1,
        ),
    );
    v.push(
        entry(
            205,
            "Drought Year",
            "Drought year! Go to the 2nd week of January. Do not collect your $5,000 year's wages.",
            "Drought year! Skip to 2nd week of January. Do not collect $5,000.",
            GameEffect::SkipYear,
            2,
        ),
    );
    v.push(
        entry(
            206,
            "Truckers Strike",
            "Truckers strike delays Fruit in transport, lots of spoilage. Pay $1,000 per Fruit acre.",
            "Truckers strike: Transport delays cause spoilage. Pay $1,000 per Fruit acre.",
            GameEffect::ExpensePerAsset { asset: AssetType::Fruit, rate: 1000 },
            1,
        ),
    );
    v.push(
        entry(
            207,
            "Uncle Bert's Legacy",
            "Uncle Bert dies and leaves you 10 acres of Hay, if you can raise the $10,000 cash to pay Inheritance Tax and small remaining mortgage.",
            "Uncle Bert dies: Inherit 10 acres of Hay for $10,000.",
            GameEffect::OptionalBuyAsset { asset: AssetType::Hay, quantity: 10, cost: 10000 },
            1,
        ),
    );
    v.push(
        entry(
            208,
            "Premium Hay Sale",
            "Rich folks from the city bought the neighboring farm and pay you a premium for your best hay to feed their show horses. Collect $100 per Hay Acre.",
            "Premium Hay Sale: Collect $100 per Hay Acre.",
            GameEffect::IncomePerAsset { asset: AssetType::Hay, rate: 100 },
            1,
        ),
    );
    v.push(
        entry(
            209,
            "Weed Infestation",
            "Windy spring, didn't get your wheat sprayed. Weeds cut your wheat crop in half. Hold this card through Wheat Harvest for this year.",
            "Weeds cut your wheat crop in half.",
            GameEffect::OneTimeHarvestMultiplier { asset: AssetType::Grain, multiplier: Multiplier { percent: 50 } },
            1,
        ),
    );
    v.push(
        entry(
            210,
            "Cherry Market Crash",
            "Some TV talk show host does a show on the dangers of farm control spray use on your cherries. Even though the pseudo-science behind his ill-informed rant made you angrier than a supermarket-rabid, the national cherry market crashes. Cut your cherry crop in half if you haven't already harvested this year.",
            "TV talking head ruins cherry market. Cut your cherry crop in half.",
            GameEffect::OneTimeHarvestMultiplier { asset: AssetType::Fruit, multiplier: Multiplier { percent: 50 } },
            1,
        ),
    );
    v.push(
        entry(
            211,
            "Income Taxes Due",
            "Income taxes due. Pay $7,000.",
            "Income taxes due. Pay $7,000.",
            GameEffect::Expense(7000),
            1,
        ),
    );
    v.push(
        entry(
            212,
            "Mt. St. Helens Disaster",
            "Mt. St. Helens Blows. You are luckily out of the Ash Path.  Your ash-free hay jumps in price! Collect $500 per Hay acre. Other players must roll to see if they escaped. Odd-escaped, Even-hit! Ash hit players Pay $100 per acre (all crops) to clean up mess.",
            "Volcano! You are safe and collect $500 per Hay acre. Other players roll to escape or pay.",
            GameEffect::MtStHelensDisaster,
            1,
        ),
    );
    v.push(
        entry(
            213,
            "Cut Worms",
            "Cut worms eat sprouting Fruit buds. EPA bans control spray. Pay $300 per Fruit acre.",
            "Worms in the fruit. EPA bans spray. Pay $300 per Fruit acre.",
            GameEffect::ExpensePerAsset { asset: AssetType::Fruit, rate: 800 },
            1,
        ),
    );
    v.push(
        entry(
            214,
            "Prime Rate Hike",
            "Banks raise Prime Rate. Pay 10% of outstanding loan balance as additional interest.",
            "Prime Rate Hike. Pay 10% of outstanding loan balance.",
            GameEffect::PayInterest,
            1,
        ),
    );
    v.push(
        entry(
            215,
            "PCB Contamination",
            "A leaking electrical motor at Feed Mill contaminated your load of feed with PCB. State Ag Inspector requires you slaughter all cows (not cows on lease range land) with no reimbursement.",
            "Leaky motor contaiminates feed. Slaughter cows without compensation.",
            GameEffect::SlaughterCowsWithoutCompensation,
            1,
        ),
    );
    v.push(
        entry(
            216,
            "Cattle Management Bonus",
            "Sharp management, testing and your computer record system cause your cattle yearling weights to soar. Receive a 50% bonus after you roll for your Livestock Harvest check each of the next two years.",
            "You're a cattle management genius. 50% bonus for 2 years.",
            GameEffect::AddPersistentEffect { effect_type: EffectType::LivestockHarvestBonus(Multiplier { percent: 150 }), years: 2 },
            1,
        ),
    );
    v.push(
        entry(
            217,
            "Tractor Hire Bill - $3,000",
            "Custom hire bill due. If you have no Tractor Pay $3,000.",
            "Pay $3,000 to hire a tractor.",
            GameEffect::PayIfNoAssetDistribute { required_asset: AssetType::Tractor, amount: 3000 },
            2,
        ),
    );
    v.push(
        entry(
            219,
            "Russian Wheat Sale",
            "Russian sale boosts wheat prices. Collect $2,000.",
            "Putin buys your wheat. Collect $2,000.",
            GameEffect::Income(2000),
            1,
        ),
    );
    v.push(
        entry(
            220,
            "Apple Maggot Fly",
            "The Apple Maggot Fly, cousin of the dreaded Medfly, is found in an insect trap in your Fruit. Your Fruit is quarantined, but you get a lucrative export contract. Pay $500 per Fruit acre.",
            "Stupid Apple Maggot fly. Pay $500 per Fruit acre.",
            GameEffect::ExpensePerAsset { asset: AssetType::Fruit, rate: 500 },
            1,
        ),
    );
    v.push(
        entry(
            221,
            "Grain Embargo",
            "The President slaps on a Grain Embargo while you're waiting for the custom harvester to show up. Instant market collapse. Pay $2,500 if you don't own your own Harvester.",
            "Trump and his grain embargos! Pay $2,500 if you don't own your own Harvester.",
            GameEffect::PayIfNoAssetDistribute { required_asset: AssetType::Harvester, amount: 2500 },
            1,
        ),
    );
    v.push(
        entry(
            222,
            "Marketing Co-op Success",
            "Marketing Co-op holds out for higher price. Processor gives in! Collect $1,000.",
            "Marketing Co-op negotiates $1,000 bonus.",
            GameEffect::Income(1000),
            1,
        ),
    );
    v
}

/// What the card at place `i` of the option to buy catalog is.
pub open spec fn is_option_to_buy_card(i: int, c: Card) -> bool {
    if i == 0 {
        is_entry(
            c,
            300,
            "Livestock Auction"@,
            "Livestock auction 10 pregnant cows at $500 each Total $5,000"@,
            "Buy 10 cows for $5,000."@,
            6,
        ) && c.effect == (GameEffect::OptionalBuyAsset { asset: AssetType::Cows, quantity: 10, cost: 5000 })
    } else if i == 1 {
        is_entry(
            c,
            301,
            "Buy Grain Land"@,
            "Neighbor sells out 10 acres of Grain at $2,000 per acre Total $20,000"@,
            "Buy 10 acres of Grain at $2,000 per acre for $20,000."@,
            5,
        ) && c.effect == (GameEffect::OptionalBuyAsset { asset: AssetType::Grain, quantity: 10, cost: 20000 })
    } else if i == 2 {
        is_entry(
            c,
            302,
            "Buy Fruit Land"@,
            "Neighbor goes broke 5 acres of Fruit at $5,000 per acre Total $25,000"@,
            "Buy 5 acres of Fruit at $5,000 per acre for $25,000."@,
            6,
        ) && c.effect == (GameEffect::OptionalBuyAsset { asset: AssetType::Fruit, quantity: 5, cost: 25000 })
    } else if i == 3 {
        is_entry(
            c,
            303,
            "Buy Used Tractor"@,
            "Equipment sale old but useable tractor Total $10,000"@,
            "Buy a used tractor for $10,000."@,
            3,
        ) && c.effect == (GameEffect::OptionalBuyAsset { asset: AssetType::Tractor, quantity: 1, cost: 10000 })
    } else if i == 4 {
        is_entry(
            c,
            304,
            "Buy Used Harvester"@,
            "Equipment sale old but useable harvester Total $10,000"@,
            "Buy a used harvester for $10,000."@,
            3,
        ) && c.effect == (GameEffect::OptionalBuyAsset { asset: AssetType::Harvester, quantity: 1, cost: 10000 })
    } else if i == 5 {
        is_entry(
            c,
            305,
            "Lease Toppenish Ridge"@,
            "Lease Toppenish Ridge for lifetime at $25,000 and buy 50 pregnant cows to stock it at $500 each Total $50,000"@,
            "Lease Toppenish Ridge and buy 50 cows for $50,000."@,
            3,
        ) && is_lease(c.effect, "Toppenish Ridge"@, 50000, 50)
    } else if i == 6 {
        is_entry(
            c,
            306,
            "Lease Rattlesnake Ridge"@,
            "Lease Rattlesnake Ridge for lifetime at $15,000 and buy 30 pregnant cows to stock it at $500 each Total $30,000"@,
            "Lease Rattlesnake Ridge and buy 30 cows for $30,000."@,
            3,
        ) && is_lease(c.effect, "Rattlesnake Ridge"@, 30000, 30)
    } else if i == 7 {
        is_entry(
            c,
            307,
            "Lease Ahtanum Ridge"@,
            "Lease Ahtanum Ridge for lifetime at $10,000 and buy 20 pregnant cows to stock it at $500 each Total $20,000"@,
            "Lease Ahtanum Ridge and buy 20 cows for $20,000."@,
            3,
        ) && is_lease(c.effect, "Ahtanum Ridge"@, 20000, 20)
    } else if i == 8 {
        is_entry(
            c,
            308,
            "Lease Cascade Ridge"@,
            "Lease Cascade Range for lifetime at $20,000 and buy 40 pregnant cows to stock it at $500 each Total $40,000"@,
            "Lease Cascade Range and buy 40 cows for $40,000."@,
            3,
        ) && is_lease(c.effect, "Cascade Ridge"@, 40000, 40)
    } else {
        is_entry(
            c,
            309,
            "Buy Hay Land"@,
            "Neighbor sells out 10 acres of Hay at $2,000 per acre Total $20,000"@,
            "Buy 10 acres of Hay at $2,000 per acre for $20,000."@,
            5,
        ) && c.effect == (GameEffect::OptionalBuyAsset { asset: AssetType::Hay, quantity: 10, cost: 20000 })
    }
}

/// The cards of Option to Buy: purchases and leases on offer.
pub fn option_to_buy_catalog() -> (v: Vec<Card>)
    ensures
        v@.len() == 10,
        forall|i: int| 0 <= i < 10 ==> is_option_to_buy_card(i, #[trigger] v@[i]),
        distinct_ids(v@),
{
    let mut v: Vec<Card> = Vec::new();
    v.push(
        entry(
            300,
            "Livestock Auction",
            "Livestock auction 10 pregnant cows at $500 each Total $5,000",
            "Buy 10 cows for $5,000.",
            GameEffect::OptionalBuyAsset { asset: AssetType::Cows, quantity: 10, cost: 5000 },
            6,
        ),
    );
    v.push(
        entry(
            301,
            "Buy Grain Land",
            "Neighbor sells out 10 acres of Grain at $2,000 per acre Total $20,000",
            "Buy 10 acres of Grain at $2,000 per acre for $20,000.",
            GameEffect::OptionalBuyAsset { asset: AssetType::Grain, quantity: 10, cost: 20000 },
            5,
        ),
    );
    v.push(
        entry(
            302,
            "Buy Fruit Land",
            "Neighbor goes broke 5 acres of Fruit at $5,000 per acre Total $25,000",
            "Buy 5 acres of Fruit at $5,000 per acre for $25,000.",
            GameEffect::OptionalBuyAsset { asset: AssetType::Fruit, quantity: 5, cost: 25000 },
            6,
        ),
    );
    v.push(
        entry(
            303,
            "Buy Used Tractor",
            "Equipment sale old but useable tractor Total $10,000",
            "Buy a used tractor for $10,000.",
            GameEffect::OptionalBuyAsset { asset: AssetType::Tractor, quantity: 1, cost: 10000 },
            3,
        ),
    );
    v.push(
        entry(
            304,
            "Buy Used Harvester",
            "Equipment sale old but useable harvester Total $10,000",
            "Buy a used harvester for $10,000.",
            GameEffect::OptionalBuyAsset { asset: AssetType::Harvester, quantity: 1, cost: 10000 },
            3,
        ),
    );
    v.push(
        entry(
            305,
            "Lease Toppenish Ridge",
            "Lease Toppenish Ridge for lifetime at $25,000 and buy 50 pregnant cows to stock it at $500 each Total $50,000",
            "Lease Toppenish Ridge and buy 50 cows for $50,000.",
            GameEffect::LeaseRidge { name: String::from_str("Toppenish Ridge"), cost: 50000, cow_count: 50 },
            3,
        ),
    );
    v.push(
        entry(
            306,
            "Lease Rattlesnake Ridge",
            "Lease Rattlesnake Ridge for lifetime at $15,000 and buy 30 pregnant cows to stock it at $500 each Total $30,000",
            "Lease Rattlesnake Ridge and buy 30 cows for $30,000.",
            GameEffect::LeaseRidge { name: String::from_str("Rattlesnake Ridge"), cost: 30000, cow_count: 30 },
            3,
        ),
    );
    v.push(
        entry(
            307,
            "Lease Ahtanum Ridge",
            "Lease Ahtanum Ridge for lifetime at $10,000 and buy 20 pregnant cows to stock it at $500 each Total $20,000",
            "Lease Ahtanum Ridge and buy 20 cows for $20,000.",
            GameEffect::LeaseRidge { name: String::from_str("Ahtanum Ridge"), cost: 20000, cow_count: 20 },
            3,
        ),
    );
    v.push(
        entry(
            308,
            "Lease Cascade Ridge",
            "Lease Cascade Range for lifetime at $20,000 and buy 40 pregnant cows to stock it at $500 each Total $40,000",
            "Lease Cascade Range and buy 40 cows for $40,000.",
            GameEffect::LeaseRidge { name: String::from_str("Cascade Ridge"), cost: 40000, cow_count: 40 },
            3,
        ),
    );
    v.push(
        entry(
            309,
            "Buy Hay Land",
            "Neighbor sells out 10 acres of Hay at $2,000 per acre Total $20,000",
            "Buy 10 acres of Hay at $2,000 per acre for $20,000.",
            GameEffect::OptionalBuyAsset { asset: AssetType::Hay, quantity: 10, cost: 20000 },
            5,
        ),
    );
    v
}

} // verus!
