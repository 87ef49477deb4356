//! The tiles of the board and what landing on one does.

use crate::models::asset::AssetType;
use crate::models::multiplier::Multiplier;
use vstd::prelude::*;

verus! {

/// What sort of tile it is.
#[derive(Debug, Clone, Copy, PartialEq, Eq, Hash, Structural)]
pub enum TileType {
    FarmerFate,
    CropIncome,
    LivestockIncome,
    SpecialEvent,
    PayInterest,
    PayIfAssetOwned,
    DoubleYieldForCrop,
    CollectBonus,
    JumpToTile,
    PayFees,
    OptionToBuy,
    SkipYear,
    Special,
    Blank,
}

impl TileType {
    /// The type's name as it stands in messages.
    pub open spec fn label_text(self) -> Seq<char> {
        match self {
            TileType::FarmerFate => "FarmerFate"@,
            TileType::CropIncome => "CropIncome"@,
            TileType::LivestockIncome => "LivestockIncome"@,
            TileType::SpecialEvent => "SpecialEvent"@,
            TileType::PayInterest => "PayInterest"@,
            TileType::PayIfAssetOwned => "PayIfAssetOwned"@,
            TileType::DoubleYieldForCrop => "DoubleYieldForCrop"@,
            TileType::CollectBonus => "CollectBonus"@,
            TileType::JumpToTile => "JumpToTile"@,
            TileType::PayFees => "PayFees"@,
            TileType::OptionToBuy => "OptionToBuy"@,
            TileType::SkipYear => "SkipYear"@,
            TileType::Special => "Special"@,
            TileType::Blank => "Blank"@,
        }
    }

    /// The type's name as it stands in messages.
    pub fn label(&self) -> (s: &'static str)
        ensures
            s@ == self.label_text(),
    {
        match self {
            TileType::FarmerFate => "FarmerFate",
            TileType::CropIncome => "CropIncome",
            TileType::LivestockIncome => "LivestockIncome",
            TileType::SpecialEvent => "SpecialEvent",
            TileType::PayInterest => "PayInterest",
            TileType::PayIfAssetOwned => "PayIfAssetOwned",
            TileType::DoubleYieldForCrop => "DoubleYieldForCrop",
            TileType::CollectBonus => "CollectBonus",
            TileType::JumpToTile => "JumpToTile",
            TileType::PayFees => "PayFees",
            TileType::OptionToBuy => "OptionToBuy",
            TileType::SkipYear => "SkipYear",
            TileType::Special => "Special",
            TileType::Blank => "Blank",
        }
    }
}

/// Which harvest a tile belongs to.
#[derive(Debug, Clone, Copy, PartialEq, Eq, Hash, Structural)]
pub enum HarvestType {
    /// The tile belongs to no harvest.
    NoHarvest,
    Corn,
    Apple,
    Cherry,
    Livestock,
    HayCutting1,
    HayCutting2,
    HayCutting3,
    HayCutting4,
    Wheat,
}

impl HarvestType {
    /// The asset that the harvest is taken from, if the tile has a harvest.
    pub open spec fn spec_required_asset(&self) -> Option<AssetType> {
        match self {
            HarvestType::Corn | HarvestType::Wheat => Some(AssetType::Grain),
            HarvestType::Apple | HarvestType::Cherry => Some(AssetType::Fruit),
            HarvestType::Livestock => Some(AssetType::Cows),
            HarvestType::HayCutting1
            | HarvestType::HayCutting2
            | HarvestType::HayCutting3
            | HarvestType::HayCutting4 => Some(AssetType::Hay),
            HarvestType::NoHarvest => None,
        }
    }

    /// The asset that the harvest is taken from, if the tile has a harvest.
    #[verifier::when_used_as_spec(spec_required_asset)]
    pub fn required_asset(&self) -> (r: Option<AssetType>)
        ensures
            r == self.spec_required_asset(),
    {
        match self {
            HarvestType::Corn | HarvestType::Wheat => Some(AssetType::Grain),
            HarvestType::Apple | HarvestType::Cherry => Some(AssetType::Fruit),
            HarvestType::Livestock => Some(AssetType::Cows),
            HarvestType::HayCutting1
            | HarvestType::HayCutting2
            | HarvestType::HayCutting3
            | HarvestType::HayCutting4 => Some(AssetType::Hay),
            HarvestType::NoHarvest => None,
        }
    }

    /// The harvest's name as it stands in messages.
    pub open spec fn title_text(self) -> Seq<char> {
        match self {
            HarvestType::HayCutting1 => "Hay: First Cutting"@,
            HarvestType::HayCutting2 => "Hay: Second Cutting"@,
            HarvestType::HayCutting3 => "Hay: Third Cutting"@,
            HarvestType::HayCutting4 => "Hay: Fourth Cutting"@,
            HarvestType::Wheat => "Wheat"@,
            HarvestType::Corn => "Corn"@,
            HarvestType::Apple => "Apple"@,
            HarvestType::Cherry => "Cherry"@,
            HarvestType::Livestock => "Livestock Sales"@,
            HarvestType::NoHarvest => "Unknown Harvest"@,
        }
    }

    /// The harvest's name as it stands in messages.
    pub fn title(&self) -> (s: &'static str)
        ensures
            s@ == self.title_text(),
    {
        match self {
            HarvestType::HayCutting1 => "Hay: First Cutting",
            HarvestType::HayCutting2 => "Hay: Second Cutting",
            HarvestType::HayCutting3 => "Hay: Third Cutting",
            HarvestType::HayCutting4 => "Hay: Fourth Cutting",
            HarvestType::Wheat => "Wheat",
            HarvestType::Corn => "Corn",
            HarvestType::Apple => "Apple",
            HarvestType::Cherry => "Cherry",
            HarvestType::Livestock => "Livestock Sales",
            HarvestType::NoHarvest => "Unknown Harvest",
        }
    }

    /// The variant's name.
    pub open spec fn label_text(self) -> Seq<char> {
        match self {
            HarvestType::NoHarvest => "None"@,
            HarvestType::Corn => "Corn"@,
            HarvestType::Apple => "Apple"@,
            HarvestType::Cherry => "Cherry"@,
            HarvestType::Livestock => "Livestock"@,
            HarvestType::HayCutting1 => "HayCutting1"@,
            HarvestType::HayCutting2 => "HayCutting2"@,
            HarvestType::HayCutting3 => "HayCutting3"@,
            HarvestType::HayCutting4 => "HayCutting4"@,
            HarvestType::Wheat => "Wheat"@,
        }
    }

    /// The variant's name.
    pub fn label(&self) -> (s: &'static str)
        ensures
            s@ == self.label_text(),
    {
        match self {
            HarvestType::NoHarvest => "None",
            HarvestType::Corn => "Corn",
            HarvestType::Apple => "Apple",
            HarvestType::Cherry => "Cherry",
            HarvestType::Livestock => "Livestock",
            HarvestType::HayCutting1 => "HayCutting1",
            HarvestType::HayCutting2 => "HayCutting2",
            HarvestType::HayCutting3 => "HayCutting3",
            HarvestType::HayCutting4 => "HayCutting4",
            HarvestType::Wheat => "Wheat",
        }
    }
}

/// What landing on a tile does.
#[derive(Debug, PartialEq)]
pub enum TileEffect {
    /// Nothing happens.
    NoEffect,
    DrawCard(TileType),
    GainCash(i32),
    PayCash(i32),
    SkipYear,
    GoToTile(usize),
    Special(String),
    ExpensePerAsset { asset: AssetType, rate: i32 },
    DoubleYieldForCrop(AssetType),
    PayInterest,
    GoToTileAndGainCash { tile_index: usize, amount: i32 },
    GainCashIfAsset { asset: AssetType, amount: i32 },
    PayCashIfAsset { asset: AssetType, amount: i32 },
    HarvestBonusPerAcre { asset: AssetType, bonus: i32 },
    MoveAndHarvestIfAsset {
        asset: AssetType,
        destination: usize,
        bonus: i32,
        harvest_type: HarvestType,
    },
    OneTimeHarvestMultiplier { asset: AssetType, multiplier: Multiplier },
}

impl Clone for TileEffect {
    fn clone(&self) -> (r: Self)
        ensures
            r == *self,
    {
        match self {
            TileEffect::NoEffect => TileEffect::NoEffect,
            TileEffect::DrawCard(t) => TileEffect::DrawCard(*t),
            TileEffect::GainCash(a) => TileEffect::GainCash(*a),
            TileEffect::PayCash(a) => TileEffect::PayCash(*a),
            TileEffect::SkipYear => TileEffect::SkipYear,
            TileEffect::GoToTile(i) => TileEffect::GoToTile(*i),
            TileEffect::Special(s) => TileEffect::Special(s.clone()),
            TileEffect::ExpensePerAsset { asset, rate } => TileEffect::ExpensePerAsset {
                asset: *asset,
                rate: *rate,
            },
            TileEffect::DoubleYieldForCrop(a) => TileEffect::DoubleYieldForCrop(*a),
            TileEffect::PayInterest => TileEffect::PayInterest,
            TileEffect::GoToTileAndGainCash { tile_index, amount } => TileEffect::GoToTileAndGainCash {
                tile_index: *tile_index,
                amount: *amount,
            },
            TileEffect::GainCashIfAsset { asset, amount } => TileEffect::GainCashIfAsset {
                asset: *asset,
                amount: *amount,
            },
            TileEffect::PayCashIfAsset { asset, amount } => TileEffect::PayCashIfAsset {
                asset: *asset,
                amount: *amount,
            },
            TileEffect::HarvestBonusPerAcre { asset, bonus } => TileEffect::HarvestBonusPerAcre {
                asset: *asset,
                bonus: *bonus,
            },
            TileEffect::MoveAndHarvestIfAsset { asset, destination, bonus, harvest_type } =>
                TileEffect::MoveAndHarvestIfAsset {
                    asset: *asset,
                    destination: *destination,
                    bonus: *bonus,
                    harvest_type: *harvest_type,
                },
            TileEffect::OneTimeHarvestMultiplier { asset, multiplier } =>
                TileEffect::OneTimeHarvestMultiplier { asset: *asset, multiplier: *multiplier },
        }
    }
}

/// A copy of an optional string.
pub fn copy_optional_text(t: &Option<String>) -> (r: Option<String>)
    ensures
        r == *t,
{
    match t {
        Some(s) => Some(s.clone()),
        None => None,
    }
}

/// One tile of the board.
#[derive(Debug, PartialEq)]
pub struct BoardTile {
    pub index: usize,
    pub name: String,
    pub tile_type: TileType,
    pub harvest_type: HarvestType,
    pub effect: TileEffect,
    pub description: Option<String>,
    pub description_brief: Option<String>,
}

impl Clone for BoardTile {
    fn clone(&self) -> (r: Self)
        ensures
            r == *self,
    {
        BoardTile {
            index: self.index,
            name: self.name.clone(),
            tile_type: self.tile_type,
            harvest_type: self.harvest_type,
            effect: self.effect.clone(),
            description: copy_optional_text(&self.description),
            description_brief: copy_optional_text(&self.description_brief),
        }
    }
}

/// A ridge as the board names it: its name, the herd it has room for, and
/// its lessee.
#[derive(Debug, PartialEq)]
pub struct Ridge {
    pub name: String,
    pub cow_capacity: u32,
    pub leased_by: Option<usize>,
}

impl Clone for Ridge {
    fn clone(&self) -> (r: Self)
        ensures
            r == *self,
    {
        Ridge { name: self.name.clone(), cow_capacity: self.cow_capacity, leased_by: self.leased_by }
    }
}

} // verus!
