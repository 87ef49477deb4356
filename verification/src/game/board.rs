//! The forty-nine tiles of the board, one for each week of the farming
//! year.

use crate::models::asset::AssetType;
use crate::models::board::{BoardTile, HarvestType, TileEffect, TileType};
use crate::models::multiplier::Multiplier;
use vstd::prelude::*;
use vstd::string::StringExecFns;

verus! {

/// Whether the tile stands at `index` and has this name, these types and
/// these two descriptions.
pub open spec fn is_tile(
    t: BoardTile,
    index: usize,
    name: Seq<char>,
    tile_type: TileType,
    harvest_type: HarvestType,
    description: Seq<char>,
    brief: Seq<char>,
) -> bool {
    &&& t.index == index
    &&& t.name@ == name
    &&& t.tile_type == tile_type
    &&& t.harvest_type == harvest_type
    &&& t.description matches Some(d) && d@ == description
    &&& t.description_brief matches Some(b) && b@ == brief
}

/// A tile of the board.
fn tile(
    index: usize,
    name: &str,
    tile_type: TileType,
    harvest_type: HarvestType,
    effect: TileEffect,
    description: &str,
    brief: &str,
) -> (t: BoardTile)
    ensures
        is_tile(t, index, name@, tile_type, harvest_type, description@, brief@),
        t.effect == effect,
{
    BoardTile {
        index,
        name: String::from_str(name),
        tile_type,
        harvest_type,
        effect,
        description: Some(String::from_str(description)),
        description_brief: Some(String::from_str(brief)),
    }
}

/// What the tile at place `i` of the board is, for the tiles of winter.
pub open spec fn is_winter_tile(i: int, t: BoardTile) -> bool {
    if i == 0 {
        is_tile(
            t,
            0,
            "Christmas Vacation"@,
            TileType::SpecialEvent,
            HarvestType::NoHarvest,
            "COLLECT $1000 Christmas bonus!"@,
            "COLLECT $1000."@,
        ) && t.effect == (TileEffect::GainCash(1000))
    } else if i == 1 {
        is_tile(
            t,
            1,
            "January Week 1"@,
            TileType::PayInterest,
            HarvestType::NoHarvest,
            "PAY 10% interest on Bank Notes"@,
            "PAY 10% interest."@,
        ) && t.effect == (TileEffect::PayInterest)
    } else if i == 2 {
        is_tile(
            t,
            2,
            "January Week 2"@,
            TileType::OptionToBuy,
            HarvestType::NoHarvest,
            "Hibernate. Draw O.T.B."@,
            "Draw O.T.B."@,
        ) && t.effect == (TileEffect::DrawCard(TileType::OptionToBuy))
    } else if i == 3 {
        is_tile(
            t,
            3,
            "January Week 3"@,
            TileType::PayIfAssetOwned,
            HarvestType::NoHarvest,
            "Bitter cold spell. PAY $500 if you own cows."@,
            "PAY $500 if you own cows."@,
        ) && t.effect == (TileEffect::PayCashIfAsset { asset: AssetType::Cows, amount: 500 })
    } else if i == 4 {
        is_tile(
            t,
            4,
            "January Week 4"@,
            TileType::DoubleYieldForCrop,
            HarvestType::NoHarvest,
            "Beautiful Days! Double all your Hay harvests this year."@,
            "Double all your Hay harvests this year."@,
        ) && t.effect == (TileEffect::DoubleYieldForCrop(AssetType::Hay))
    } else if i == 5 {
        is_tile(
            t,
            5,
            "February Week 1"@,
            TileType::CollectBonus,
            HarvestType::NoHarvest,
            "Warm snap, you're in the field 2 weeks early. Collect $1000."@,
            "Collect $1000."@,
        ) && t.effect == (TileEffect::GainCash(1000))
    } else if i == 6 {
        is_tile(
            t,
            6,
            "February Week 2"@,
            TileType::FarmerFate,
            HarvestType::NoHarvest,
            "Stuck in a muddy canal. Draw Farmer's Fate."@,
            "Draw Farmer's Fate."@,
        ) && t.effect == (TileEffect::DrawCard(TileType::FarmerFate))
    } else if i == 7 {
        is_tile(
            t,
            7,
            "February Week 3"@,
            TileType::JumpToTile,
            HarvestType::NoHarvest,
            "Ground thaws. Start planting early crops. Go to Spring Planting."@,
            "Go to Spring Planting."@,
        ) && t.effect == (TileEffect::GoToTile(14))
    } else if i == 8 {
        is_tile(
            t,
            8,
            "February Week 4"@,
            TileType::OptionToBuy,
            HarvestType::NoHarvest,
            "Rainy day. Draw O.T.B."@,
            "Rainy day. Draw O.T.B."@,
        ) && t.effect == (TileEffect::DrawCard(TileType::OptionToBuy))
    } else if i == 9 {
        is_tile(
            t,
            9,
            "March Week 1"@,
            TileType::PayFees,
            HarvestType::NoHarvest,
            "Becomes obvious your wheat has winter killed. PAY $2000 to replant."@,
            "PAY $2000 to replant."@,
        ) && t.effect == (TileEffect::PayCash(2000))
    } else if i == 10 {
        is_tile(
            t,
            10,
            "March Week 2"@,
            TileType::PayFees,
            HarvestType::NoHarvest,
            "Start plowing late. PAY $500."@,
            "PAY $500."@,
        ) && t.effect == (TileEffect::PayCash(500))
    } else if i == 11 {
        is_tile(
            t,
            11,
            "Hurt Back"@,
            TileType::Special,
            HarvestType::NoHarvest,
            "Hurt your back. Skip a year."@,
            "Skip a year."@,
        ) && t.effect == (TileEffect::SkipYear)
    } else {
        is_tile(
            t,
            12,
            "March Week 4"@,
            TileType::PayIfAssetOwned,
            HarvestType::NoHarvest,
            "Frost forces you to heat fruit. PAY $2000 if you own fruit."@,
            "PAY $2000 if you own fruit."@,
        ) && t.effect == (TileEffect::PayCashIfAsset { asset: AssetType::Fruit, amount: 2000 })
    }
}

/// What the tile at place `i` of the board is, for the tiles of spring.
pub open spec fn is_spring_tile(i: int, t: BoardTile) -> bool {
    if i == 13 {
        is_tile(
            t,
            13,
            "April Week 1"@,
            TileType::OptionToBuy,
            HarvestType::NoHarvest,
            "Done plowing. Take a day off. Draw O.T.B."@,
            "Draw O.T.B."@,
        ) && t.effect == (TileEffect::DrawCard(TileType::OptionToBuy))
    } else if i == 14 {
        is_tile(
            t,
            14,
            "Spring Planting"@,
            TileType::DoubleYieldForCrop,
            HarvestType::NoHarvest,
            "Plant corn on time. Double corn yield this year."@,
            "Plant corn on time. Double corn yield this year."@,
        ) && t.effect == (TileEffect::DoubleYieldForCrop(AssetType::Grain))
    } else if i == 15 {
        is_tile(
            t,
            15,
            "April Week 2"@,
            TileType::PayFees,
            HarvestType::NoHarvest,
            "More rain. Field work shut down. PAY $500."@,
            "PAY $500."@,
        ) && t.effect == (TileEffect::PayCash(500))
    } else if i == 16 {
        is_tile(
            t,
            16,
            "April Week 3"@,
            TileType::PayFees,
            HarvestType::NoHarvest,
            "Equipment breakdown. PAY $1000."@,
            "PAY $1000."@,
        ) && t.effect == (TileEffect::PayCash(1000))
    } else if i == 17 {
        is_tile(
            t,
            17,
            "May Week 1"@,
            TileType::CollectBonus,
            HarvestType::NoHarvest,
            "The whole valley is green. COLLECT $500."@,
            "COLLECT $500."@,
        ) && t.effect == (TileEffect::GainCash(500))
    } else if i == 18 {
        is_tile(
            t,
            18,
            "May Week 2"@,
            TileType::PayFees,
            HarvestType::NoHarvest,
            "Windstorm makes you replant corn. PAY $500."@,
            "PAY $500."@,
        ) && t.effect == (TileEffect::PayCash(500))
    } else if i == 19 {
        is_tile(
            t,
            19,
            "May Week 3"@,
            TileType::CollectBonus,
            HarvestType::HayCutting1,
            "Cut your hay just right. COLLECT $1000 bonus."@,
            "COLLECT $1000 bonus."@,
        ) && t.effect == (TileEffect::GainCash(1000))
    } else if i == 20 {
        is_tile(
            t,
            20,
            "May Week 4"@,
            TileType::OptionToBuy,
            HarvestType::HayCutting1,
            "Memorial Day weekend. Draw O.T.B."@,
            "Draw O.T.B."@,
        ) && t.effect == (TileEffect::DrawCard(TileType::OptionToBuy))
    } else if i == 21 {
        is_tile(
            t,
            21,
            "June Week 1"@,
            TileType::Special,
            HarvestType::HayCutting1,
            "Rain storm ruins unbaled hay. Cut your harvest check in half."@,
            "Cut your harvest check in half."@,
        ) && t.effect == (TileEffect::OneTimeHarvestMultiplier { asset: AssetType::Hay, multiplier: Multiplier { percent: 50 } })
    } else if i == 22 {
        is_tile(
            t,
            22,
            "June Week 2"@,
            TileType::CollectBonus,
            HarvestType::HayCutting1,
            "Good growing weather. COLLECT $500 bonus."@,
            "COLLECT $500 bonus."@,
        ) && t.effect == (TileEffect::GainCash(500))
    } else if i == 23 {
        is_tile(
            t,
            23,
            "June Week 3"@,
            TileType::Special,
            HarvestType::Cherry,
            "Rain splits your cherries. Cut your harvest check in half."@,
            "Cut your harvest check in half."@,
        ) && t.effect == (TileEffect::OneTimeHarvestMultiplier { asset: AssetType::Fruit, multiplier: Multiplier { percent: 50 } })
    } else if i == 24 {
        is_tile(
            t,
            24,
            "June Week 4"@,
            TileType::FarmerFate,
            HarvestType::Cherry,
            "Dust storm. Draw Farmer's Fate."@,
            "Draw Farmer's Fate."@,
        ) && t.effect == (TileEffect::DrawCard(TileType::FarmerFate))
    } else {
        is_tile(
            t,
            25,
            "Independence Day Bash"@,
            TileType::Special,
            HarvestType::Cherry,
            "Independence Day Bash"@,
            "Independence Day Bash"@,
        ) && t.effect == (TileEffect::NoEffect)
    }
}

/// What the tile at place `i` of the board is, for the tiles of summer.
pub open spec fn is_summer_tile(i: int, t: BoardTile) -> bool {
    if i == 26 {
        is_tile(
            t,
            26,
            "July Week 1"@,
            TileType::DoubleYieldForCrop,
            HarvestType::HayCutting2,
            "Good weather for your second cutting of hay. Double Hay harvest check."@,
            "Double Hay harvest check."@,
        ) && t.effect == (TileEffect::DoubleYieldForCrop(AssetType::Hay))
    } else if i == 27 {
        is_tile(
            t,
            27,
            "July Week 2"@,
            TileType::OptionToBuy,
            HarvestType::HayCutting2,
            "Hot! Wish you were in the mountains! Draw O.T.B."@,
            "Draw O.T.B."@,
        ) && t.effect == (TileEffect::DrawCard(TileType::OptionToBuy))
    } else if i == 28 {
        is_tile(
            t,
            28,
            "July Week 3"@,
            TileType::JumpToTile,
            HarvestType::HayCutting2,
            "It's a cooker! 114\u{b0} in the shade. Wipe your brow and go to Harvest Moon after getting Hay check."@,
            "Go to Harvest Moon after getting Hay check."@,
        ) && t.effect == (TileEffect::GoToTile(37))
    } else if i == 29 {
        is_tile(
            t,
            29,
            "July Week 4"@,
            TileType::Special,
            HarvestType::Wheat,
            "85\u{b0}, wheat heads filling out beautifully. Add $50 per acre to your harvest check."@,
            "Add $50 per acre to your harvest check."@,
        ) && t.effect == (TileEffect::HarvestBonusPerAcre { asset: AssetType::Grain, bonus: 50 })
    } else if i == 30 {
        is_tile(
            t,
            30,
            "August Week 1"@,
            TileType::JumpToTile,
            HarvestType::Wheat,
            "You're right on time and working like a pro. Go to the fourth week of February. COLLECT your year's wage of $5000."@,
            "COLLECT your year's wage of $5000."@,
        ) && t.effect == (TileEffect::GoToTileAndGainCash { tile_index: 8, amount: 5000 })
    } else if i == 31 {
        is_tile(
            t,
            31,
            "August Week 2"@,
            TileType::PayIfAssetOwned,
            HarvestType::Wheat,
            "Storm clouds brewing. COLLECT $1000 if you have a Harvester."@,
            "COLLECT $1000 if you have a Harvester."@,
        ) && t.effect == (TileEffect::GainCashIfAsset { asset: AssetType::Harvester, amount: 1000 })
    } else if i == 32 {
        is_tile(
            t,
            32,
            "August Week 3"@,
            TileType::CollectBonus,
            HarvestType::Wheat,
            "Finish wheat harvesting with no breakdowns. COLLECT $500."@,
            "COLLECT $500."@,
        ) && t.effect == (TileEffect::GainCash(500))
    } else if i == 33 {
        is_tile(
            t,
            33,
            "August Week 4"@,
            TileType::Special,
            HarvestType::Wheat,
            "Rain sprouts unharvested wheat. Cut price $50 per acre on harvest check."@,
            "Cut price $50 per acre on harvest check."@,
        ) && t.effect == (TileEffect::HarvestBonusPerAcre { asset: AssetType::Grain, bonus: -50i32 })
    } else if i == 34 {
        is_tile(
            t,
            34,
            "September Week 1"@,
            TileType::Special,
            HarvestType::HayCutting3,
            "Tractor owners: bale Hay, then go to third week of November. COLLECT $1000 there, then harvest your fruit."@,
            "Tractor owners: bale Hay, then go to third week of November. COLLECT $1000 there, then harvest your fruit."@,
        ) && t.effect == (TileEffect::MoveAndHarvestIfAsset { asset: AssetType::Tractor, destination: 45, bonus: 1000, harvest_type: HarvestType::Apple, })
    } else if i == 35 {
        is_tile(
            t,
            35,
            "September Week 2"@,
            TileType::OptionToBuy,
            HarvestType::HayCutting3,
            "Sunny skies at the County Fair. Draw O.T.B."@,
            "Draw O.T.B."@,
        ) && t.effect == (TileEffect::DrawCard(TileType::OptionToBuy))
    } else if i == 36 {
        is_tile(
            t,
            36,
            "September Week 3"@,
            TileType::Special,
            HarvestType::Livestock,
            "Market collapse. Cut livestock check in half."@,
            "Cut livestock check in half."@,
        ) && t.effect == (TileEffect::OneTimeHarvestMultiplier { asset: AssetType::Cows, multiplier: Multiplier { percent: 50 } })
    } else {
        is_tile(
            t,
            37,
            "Harvest Moon"@,
            TileType::Special,
            HarvestType::Livestock,
            "Harvest Moon smiles on you. Collect $500."@,
            "Collect $500."@,
        ) && t.effect == (TileEffect::GainCash(500))
    }
}

/// What the tile at place `i` of the board is, for the tiles of autumn.
pub open spec fn is_autumn_tile(i: int, t: BoardTile) -> bool {
    if i == 38 {
        is_tile(
            t,
            38,
            "September Week 4"@,
            TileType::PayIfAssetOwned,
            HarvestType::Livestock,
            "Codling Moth damage to apples lowers fruit grade. PAY $2000 if you own fruit."@,
            "PAY $2000 if you own fruit."@,
        ) && t.effect == (TileEffect::PayCashIfAsset { asset: AssetType::Fruit, amount: 2000 })
    } else if i == 39 {
        is_tile(
            t,
            39,
            "October Week 1"@,
            TileType::CollectBonus,
            HarvestType::Livestock,
            "Indian Summer. Collect $500."@,
            "COLLECT $500."@,
        ) && t.effect == (TileEffect::GainCash(500))
    } else if i == 40 {
        is_tile(
            t,
            40,
            "October Week 2"@,
            TileType::FarmerFate,
            HarvestType::HayCutting4,
            "Good Pheasant Hunting. Draw Farmer's Fate."@,
            "Draw Farmer's Fate."@,
        ) && t.effect == (TileEffect::DrawCard(TileType::FarmerFate))
    } else if i == 41 {
        is_tile(
            t,
            41,
            "October Week 3"@,
            TileType::OptionToBuy,
            HarvestType::HayCutting4,
            "Park your baler for the Winter. Draw O.T.B."@,
            "Draw O.T.B."@,
        ) && t.effect == (TileEffect::DrawCard(TileType::OptionToBuy))
    } else if i == 42 {
        is_tile(
            t,
            42,
            "October Week 4"@,
            TileType::FarmerFate,
            HarvestType::Apple,
            "Annual Deer Hunt. Draw Farmer's Fate."@,
            "Draw Farmer's Fate."@,
        ) && t.effect == (TileEffect::DrawCard(TileType::FarmerFate))
    } else if i == 43 {
        is_tile(
            t,
            43,
            "November Week 1"@,
            TileType::OptionToBuy,
            HarvestType::Apple,
            "Irrigation Season over. Draw O.T.B."@,
            "Draw O.T.B."@,
        ) && t.effect == (TileEffect::DrawCard(TileType::OptionToBuy))
    } else if i == 44 {
        is_tile(
            t,
            44,
            "November Week 2"@,
            TileType::CollectBonus,
            HarvestType::Apple,
            "Good weather, harvest winding up. COLLECT $500."@,
            "COLLECT $500."@,
        ) && t.effect == (TileEffect::GainCash(500))
    } else if i == 45 {
        is_tile(
            t,
            45,
            "November Week 3"@,
            TileType::CollectBonus,
            HarvestType::Corn,
            "Good weather holding, COLLECT $1000."@,
            "COLLECT $1000."@,
        ) && t.effect == (TileEffect::GainCash(1000))
    } else if i == 46 {
        is_tile(
            t,
            46,
            "November Week 4"@,
            TileType::PayIfAssetOwned,
            HarvestType::Corn,
            "Early freeze kills fruit buds. PAY $1000 if you have Fruit."@,
            "PAY $1000 if you have Fruit."@,
        ) && t.effect == (TileEffect::PayCashIfAsset { asset: AssetType::Fruit, amount: 1000 })
    } else if i == 47 {
        is_tile(
            t,
            47,
            "December Week 1"@,
            TileType::CollectBonus,
            HarvestType::Corn,
            "Cold and dry, perfect Field Corn Harvesting. COLLECT $500."@,
            "COLLECT $500."@,
        ) && t.effect == (TileEffect::GainCash(500))
    } else {
        is_tile(
            t,
            48,
            "December Week 2"@,
            TileType::FarmerFate,
            HarvestType::Corn,
            "First Snow. Draw Farmer's Fate."@,
            "Draw Farmer's Fate."@,
        ) && t.effect == (TileEffect::DrawCard(TileType::FarmerFate))
    }
}

/// What the tile at place `i` of the board is.
pub open spec fn is_board_tile(i: int, t: BoardTile) -> bool {
    if i < 13 {
        is_winter_tile(i, t)
    } else if i < 26 {
        is_spring_tile(i, t)
    } else if i < 38 {
        is_summer_tile(i, t)
    } else {
        is_autumn_tile(i, t)
    }
}

/// Puts the tiles of winter on the board.
fn lay_winter(board: &mut Vec<BoardTile>)
    requires
        old(board)@.len() == 0,
    ensures
        final(board)@.len() == 13,
        forall|i: int| 0 <= i < 0 ==> final(board)@[i] == old(board)@[i],
        forall|i: int| 0 <= i < 13 ==> is_winter_tile(i, #[trigger] final(board)@[i]),
{
    board.push(
        tile(
            0,
            "Christmas Vacation",
            TileType::SpecialEvent,
            HarvestType::NoHarvest,
            TileEffect::GainCash(1000),
            "COLLECT $1000 Christmas bonus!",
            "COLLECT $1000.",
        ),
    );
    board.push(
        tile(
            1,
            "January Week 1",
            TileType::PayInterest,
            HarvestType::NoHarvest,
            TileEffect::PayInterest,
            "PAY 10% interest on Bank Notes",
            "PAY 10% interest.",
        ),
    );
    board.push(
        tile(
            2,
            "January Week 2",
            TileType::OptionToBuy,
            HarvestType::NoHarvest,
            TileEffect::DrawCard(TileType::OptionToBuy),
            "Hibernate. Draw O.T.B.",
            "Draw O.T.B.",
        ),
    );
    board.push(
        tile(
            3,
            "January Week 3",
            TileType::PayIfAssetOwned,
            HarvestType::NoHarvest,
            TileEffect::PayCashIfAsset { asset: AssetType::Cows, amount: 500 },
            "Bitter cold spell. PAY $500 if you own cows.",
            "PAY $500 if you own cows.",
        ),
    );
    board.push(
        tile(
            4,
            "January Week 4",
            TileType::DoubleYieldForCrop,
            HarvestType::NoHarvest,
            TileEffect::DoubleYieldForCrop(AssetType::Hay),
            "Beautiful Days! Double all your Hay harvests this year.",
            "Double all your Hay harvests this year.",
        ),
    );
    board.push(
        tile(
            5,
            "February Week 1",
            TileType::CollectBonus,
            HarvestType::NoHarvest,
            TileEffect::GainCash(1000),
            "Warm snap, you're in the field 2 weeks early. Collect $1000.",
            "Collect $1000.",
        ),
    );
    board.push(
        tile(
            6,
            "February Week 2",
            TileType::FarmerFate,
            HarvestType::NoHarvest,
            TileEffect::DrawCard(TileType::FarmerFate),
            "Stuck in a muddy canal. Draw Farmer's Fate.",
            "Draw Farmer's Fate.",
        ),
    );
    board.push(
        tile(
            7,
            "February Week 3",
            TileType::JumpToTile,
            HarvestType::NoHarvest,
            TileEffect::GoToTile(14),
            "Ground thaws. Start planting early crops. Go to Spring Planting.",
            "Go to Spring Planting.",
        ),
    );
    board.push(
        tile(
            8,
            "February Week 4",
            TileType::OptionToBuy,
            HarvestType::NoHarvest,
            TileEffect::DrawCard(TileType::OptionToBuy),
            "Rainy day. Draw O.T.B.",
            "Rainy day. Draw O.T.B.",
        ),
    );
    board.push(
        tile(
            9,
            "March Week 1",
            TileType::PayFees,
            HarvestType::NoHarvest,
            TileEffect::PayCash(2000),
            "Becomes obvious your wheat has winter killed. PAY $2000 to replant.",
            "PAY $2000 to replant.",
        ),
    );
    board.push(
        tile(
            10,
            "March Week 2",
            TileType::PayFees,
            HarvestType::NoHarvest,
            TileEffect::PayCash(500),
            "Start plowing late. PAY $500.",
            "PAY $500.",
        ),
    );
    board.push(
        tile(
            11,
            "Hurt Back",
            TileType::Special,
            HarvestType::NoHarvest,
            TileEffect::SkipYear,
            "Hurt your back. Skip a year.",
            "Skip a year.",
        ),
    );
    board.push(
        tile(
            12,
            "March Week 4",
            TileType::PayIfAssetOwned,
            HarvestType::NoHarvest,
            TileEffect::PayCashIfAsset { asset: AssetType::Fruit, amount: 2000 },
            "Frost forces you to heat fruit. PAY $2000 if you own fruit.",
            "PAY $2000 if you own fruit.",
        ),
    );
}

/// Puts the tiles of spring on the board.
fn lay_spring(board: &mut Vec<BoardTile>)
    requires
        old(board)@.len() == 13,
    ensures
        final(board)@.len() == 26,
        forall|i: int| 0 <= i < 13 ==> final(board)@[i] == old(board)@[i],
        forall|i: int| 13 <= i < 26 ==> is_spring_tile(i, #[trigger] final(board)@[i]),
{
    board.push(
        tile(
            13,
            "April Week 1",
            TileType::OptionToBuy,
            HarvestType::NoHarvest,
            TileEffect::DrawCard(TileType::OptionToBuy),
            "Done plowing. Take a day off. Draw O.T.B.",
            "Draw O.T.B.",
        ),
    );
    board.push(
        tile(
            14,
            "Spring Planting",
            TileType::DoubleYieldForCrop,
            HarvestType::NoHarvest,
            TileEffect::DoubleYieldForCrop(AssetType::Grain),
            "Plant corn on time. Double corn yield this year.",
            "Plant corn on time. Double corn yield this year.",
        ),
    );
    board.push(
        tile(
            15,
            "April Week 2",
            TileType::PayFees,
            HarvestType::NoHarvest,
            TileEffect::PayCash(500),
            "More rain. Field work shut down. PAY $500.",
            "PAY $500.",
        ),
    );
    board.push(
        tile(
            16,
            "April Week 3",
            TileType::PayFees,
            HarvestType::NoHarvest,
            TileEffect::PayCash(1000),
            "Equipment breakdown. PAY $1000.",
            "PAY $1000.",
        ),
    );
    board.push(
        tile(
            17,
            "May Week 1",
            TileType::CollectBonus,
            HarvestType::NoHarvest,
            TileEffect::GainCash(500),
            "The whole valley is green. COLLECT $500.",
            "COLLECT $500.",
        ),
    );
    board.push(
        tile(
            18,
            "May Week 2",
            TileType::PayFees,
            HarvestType::NoHarvest,
            TileEffect::PayCash(500),
            "Windstorm makes you replant corn. PAY $500.",
            "PAY $500.",
        ),
    );
    board.push(
        tile(
            19,
            "May Week 3",
            TileType::CollectBonus,
            HarvestType::HayCutting1,
            TileEffect::GainCash(1000),
            "Cut your hay just right. COLLECT $1000 bonus.",
            "COLLECT $1000 bonus.",
        ),
    );
    board.push(
        tile(
            20,
            "May Week 4",
            TileType::OptionToBuy,
            HarvestType::HayCutting1,
            TileEffect::DrawCard(TileType::OptionToBuy),
            "Memorial Day weekend. Draw O.T.B.",
            "Draw O.T.B.",
        ),
    );
    board.push(
        tile(
            21,
            "June Week 1",
            TileType::Special,
            HarvestType::HayCutting1,
            TileEffect::OneTimeHarvestMultiplier { asset: AssetType::Hay, multiplier: Multiplier { percent: 50 } },
            "Rain storm ruins unbaled hay. Cut your harvest check in half.",
            "Cut your harvest check in half.",
        ),
    );
    board.push(
        tile(
            22,
            "June Week 2",
            TileType::CollectBonus,
            HarvestType::HayCutting1,
            TileEffect::GainCash(500),
            "Good growing weather. COLLECT $500 bonus.",
            "COLLECT $500 bonus.",
        ),
    );
    board.push(
        tile(
            23,
            "June Week 3",
            TileType::Special,
            HarvestType::Cherry,
            TileEffect::OneTimeHarvestMultiplier { asset: AssetType::Fruit, multiplier: Multiplier { percent: 50 } },
            "Rain splits your cherries. Cut your harvest check in half.",
            "Cut your harvest check in half.",
        ),
    );
    board.push(
        tile(
            24,
            "June Week 4",
            TileType::FarmerFate,
            HarvestType::Cherry,
            TileEffect::DrawCard(TileType::FarmerFate),
            "Dust storm. Draw Farmer's Fate.",
            "Draw Farmer's Fate.",
        ),
    );
    board.push(
        tile(
            25,
            "Independence Day Bash",
            TileType::Special,
            HarvestType::Cherry,
            TileEffect::NoEffect,
            "Independence Day Bash",
            "Independence Day Bash",
        ),
    );
}

/// Puts the tiles of summer on the board.
fn lay_summer(board: &mut Vec<BoardTile>)
    requires
        old(board)@.len() == 26,
    ensures
        final(board)@.len() == 38,
        forall|i: int| 0 <= i < 26 ==> final(board)@[i] == old(board)@[i],
        forall|i: int| 26 <= i < 38 ==> is_summer_tile(i, #[trigger] final(board)@[i]),
{
    board.push(
        tile(
            26,
            "July Week 1",
            TileType::DoubleYieldForCrop,
            HarvestType::HayCutting2,
            TileEffect::DoubleYieldForCrop(AssetType::Hay),
            "Good weather for your second cutting of hay. Double Hay harvest check.",
            "Double Hay harvest check.",
        ),
    );
    board.push(
        tile(
            27,
            "July Week 2",
            TileType::OptionToBuy,
            HarvestType::HayCutting2,
            TileEffect::DrawCard(TileType::OptionToBuy),
            "Hot! Wish you were in the mountains! Draw O.T.B.",
            "Draw O.T.B.",
        ),
    );
    board.push(
        tile(
            28,
            "July Week 3",
            TileType::JumpToTile,
            HarvestType::HayCutting2,
            TileEffect::GoToTile(37),
            "It's a cooker! 114\u{b0} in the shade. Wipe your brow and go to Harvest Moon after getting Hay check.",
            "Go to Harvest Moon after getting Hay check.",
        ),
    );
    board.push(
        tile(
            29,
            "July Week 4",
            TileType::Special,
            HarvestType::Wheat,
            TileEffect::HarvestBonusPerAcre { asset: AssetType::Grain, bonus: 50 },
            "85\u{b0}, wheat heads filling out beautifully. Add $50 per acre to your harvest check.",
            "Add $50 per acre to your harvest check.",
        ),
    );
    board.push(
        tile(
            30,
            "August Week 1",
            TileType::JumpToTile,
            HarvestType::Wheat,
            TileEffect::GoToTileAndGainCash { tile_index: 8, amount: 5000 },
            "You're right on time and working like a pro. Go to the fourth week of February. COLLECT your year's wage of $5000.",
            "COLLECT your year's wage of $5000.",
        ),
    );
    board.push(
        tile(
            31,
            "August Week 2",
            TileType::PayIfAssetOwned,
            HarvestType::Wheat,
            TileEffect::GainCashIfAsset { asset: AssetType::Harvester, amount: 1000 },
            "Storm clouds brewing. COLLECT $1000 if you have a Harvester.",
            "COLLECT $1000 if you have a Harvester.",
        ),
    );
    board.push(
        tile(
            32,
            "August Week 3",
            TileType::CollectBonus,
            HarvestType::Wheat,
            TileEffect::GainCash(500),
            "Finish wheat harvesting with no breakdowns. COLLECT $500.",
            "COLLECT $500.",
        ),
    );
    board.push(
        tile(
            33,
            "August Week 4",
            TileType::Special,
            HarvestType::Wheat,
            TileEffect::HarvestBonusPerAcre { asset: AssetType::Grain, bonus: -50i32 },
            "Rain sprouts unharvested wheat. Cut price $50 per acre on harvest check.",
            "Cut price $50 per acre on harvest check.",
        ),
    );
    board.push(
        tile(
            34,
            "September Week 1",
            TileType::Special,
            HarvestType::HayCutting3,
            TileEffect::MoveAndHarvestIfAsset { asset: AssetType::Tractor, destination: 45, bonus: 1000, harvest_type: HarvestType::Apple, },
            "Tractor owners: bale Hay, then go to third week of November. COLLECT $1000 there, then harvest your fruit.",
            "Tractor owners: bale Hay, then go to third week of November. COLLECT $1000 there, then harvest your fruit.",
        ),
    );
    board.push(
        tile(
            35,
            "September Week 2",
            TileType::OptionToBuy,
            HarvestType::HayCutting3,
            TileEffect::DrawCard(TileType::OptionToBuy),
            "Sunny skies at the County Fair. Draw O.T.B.",
            "Draw O.T.B.",
        ),
    );
    board.push(
        tile(
            36,
            "September Week 3",
            TileType::Special,
            HarvestType::Livestock,
            TileEffect::OneTimeHarvestMultiplier { asset: AssetType::Cows, multiplier: Multiplier { percent: 50 } },
            "Market collapse. Cut livestock check in half.",
            "Cut livestock check in half.",
        ),
    );
    board.push(
        tile(
            37,
            "Harvest Moon",
            TileType::Special,
            HarvestType::Livestock,
            TileEffect::GainCash(500),
            "Harvest Moon smiles on you. Collect $500.",
            "Collect $500.",
        ),
    );
}

/// Puts the tiles of autumn on the board.
fn lay_autumn(board: &mut Vec<BoardTile>)
    requires
        old(board)@.len() == 38,
    ensures
        final(board)@.len() == 49,
        forall|i: int| 0 <= i < 38 ==> final(board)@[i] == old(board)@[i],
        forall|i: int| 38 <= i < 49 ==> is_autumn_tile(i, #[trigger] final(board)@[i]),
{
    board.push(
        tile(
            38,
            "September Week 4",
            TileType::PayIfAssetOwned,
            HarvestType::Livestock,
            TileEffect::PayCashIfAsset { asset: AssetType::Fruit, amount: 2000 },
            "Codling Moth damage to apples lowers fruit grade. PAY $2000 if you own fruit.",
            "PAY $2000 if you own fruit.",
        ),
    );
    board.push(
        tile(
            39,
            "October Week 1",
            TileType::CollectBonus,
            HarvestType::Livestock,
            TileEffect::GainCash(500),
            "Indian Summer. Collect $500.",
            "COLLECT $500.",
        ),
    );
    board.push(
        tile(
            40,
            "October Week 2",
            TileType::FarmerFate,
            HarvestType::HayCutting4,
            TileEffect::DrawCard(TileType::FarmerFate),
            "Good Pheasant Hunting. Draw Farmer's Fate.",
            "Draw Farmer's Fate.",
        ),
    );
    board.push(
        tile(
            41,
            "October Week 3",
            TileType::OptionToBuy,
            HarvestType::HayCutting4,
            TileEffect::DrawCard(TileType::OptionToBuy),
            "Park your baler for the Winter. Draw O.T.B.",
            "Draw O.T.B.",
        ),
    );
    board.push(
        tile(
            42,
            "October Week 4",
            TileType::FarmerFate,
            HarvestType::Apple,
            TileEffect::DrawCard(TileType::FarmerFate),
            "Annual Deer Hunt. Draw Farmer's Fate.",
            "Draw Farmer's Fate.",
        ),
    );
    board.push(
        tile(
            43,
            "November Week 1",
            TileType::OptionToBuy,
            HarvestType::Apple,
            TileEffect::DrawCard(TileType::OptionToBuy),
            "Irrigation Season over. Draw O.T.B.",
            "Draw O.T.B.",
        ),
    );
    board.push(
        tile(
            44,
            "November Week 2",
            TileType::CollectBonus,
            HarvestType::Apple,
            TileEffect::GainCash(500),
            "Good weather, harvest winding up. COLLECT $500.",
            "COLLECT $500.",
        ),
    );
    board.push(
        tile(
            45,
            "November Week 3",
            TileType::CollectBonus,
            HarvestType::Corn,
            TileEffect::GainCash(1000),
            "Good weather holding, COLLECT $1000.",
            "COLLECT $1000.",
        ),
    );
    board.push(
        tile(
            46,
            "November Week 4",
            TileType::PayIfAssetOwned,
            HarvestType::Corn,
            TileEffect::PayCashIfAsset { asset: AssetType::Fruit, amount: 1000 },
            "Early freeze kills fruit buds. PAY $1000 if you have Fruit.",
            "PAY $1000 if you have Fruit.",
        ),
    );
    board.push(
        tile(
            47,
            "December Week 1",
            TileType::CollectBonus,
            HarvestType::Corn,
            TileEffect::GainCash(500),
            "Cold and dry, perfect Field Corn Harvesting. COLLECT $500.",
            "COLLECT $500.",
        ),
    );
    board.push(
        tile(
            48,
            "December Week 2",
            TileType::FarmerFate,
            HarvestType::Corn,
            TileEffect::DrawCard(TileType::FarmerFate),
            "First Snow. Draw Farmer's Fate.",
            "Draw Farmer's Fate.",
        ),
    );
}

/// The board: forty-nine tiles, each at the place that its index names.
pub fn create_full_board() -> (board: Vec<BoardTile>)
    ensures
        board@.len() == 49,
        forall|i: int| 0 <= i < 49 ==> is_board_tile(i, #[trigger] board@[i]),
        forall|i: int| 0 <= i < 49 ==> (#[trigger] board@[i]).index == i,
{
    let mut board: Vec<BoardTile> = Vec::new();
    lay_winter(&mut board);
    lay_spring(&mut board);
    lay_summer(&mut board);
    lay_autumn(&mut board);
    board
}

} // verus!
