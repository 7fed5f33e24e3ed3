//! The game's own numbering of battle results, encounters, maps and key items.

use crate::enum_set::EnumSetMember;
use crate::watcher::Sample;
use vstd::prelude::*;

verus! {

/// A number read from the game that names nothing the tracker knows.
#[derive(Copy, Clone, Debug, PartialEq, Eq, Structural)]
pub struct UnknownId {
    pub number: u32,
}

/// How a battle ended, as the game records it.
#[derive(Copy, Clone, Debug, PartialEq, Eq, Structural)]
pub enum BattleResult {
    Undecided,
    Win,
    Lose,
    Escape,
    Forced,
    Restart,
    Unknown,
}

impl BattleResult {
    /// The number by which the game records this result; `Unknown` stands for every other number
    /// and is written back as the largest one.
    pub open spec fn spec_id(self) -> u32 {
        match self {
            BattleResult::Undecided => 0,
            BattleResult::Win => 1,
            BattleResult::Lose => 2,
            BattleResult::Escape => 3,
            BattleResult::Forced => 4,
            BattleResult::Restart => 5,
            BattleResult::Unknown => u32::MAX,
        }
    }

    /// The number by which the game records this result.
    #[verifier::when_used_as_spec(spec_id)]
    pub fn id(self) -> (id: u32)
        ensures
            id == self.spec_id(),
    {
        match self {
            BattleResult::Undecided => 0,
            BattleResult::Win => 1,
            BattleResult::Lose => 2,
            BattleResult::Escape => 3,
            BattleResult::Forced => 4,
            BattleResult::Restart => 5,
            BattleResult::Unknown => u32::MAX,
        }
    }

    /// The result that `number` records: the one with that number, `Unknown` where there is none.
    pub open spec fn of(number: u32) -> BattleResult {
        if exists|it: BattleResult| it.id() == number {
            choose|it: BattleResult| it.id() == number
        } else {
            BattleResult::Unknown
        }
    }

    /// Reads a recorded number. Every number has a result: the ones the game does not use are
    /// `Unknown`.
    pub fn from_primitive(number: u32) -> (result: BattleResult)
        ensures
            result == BattleResult::of(number),
            result != BattleResult::Unknown ==> result.id() == number,
    {
        match number {
            0 => BattleResult::Undecided,
            1 => BattleResult::Win,
            2 => BattleResult::Lose,
            3 => BattleResult::Escape,
            4 => BattleResult::Forced,
            5 => BattleResult::Restart,
            _ => BattleResult::Unknown,
        }
    }

    /// No two results share a number.
    pub proof fn id_is_injective(a: BattleResult, b: BattleResult)
        requires
            a.id() == b.id(),
        ensures
            a == b,
    {
    }

    /// `of` finds the one result with the number, and `Unknown` where no result has it.
    pub proof fn of_is_exact(number: u32)
        ensures
            forall|it: BattleResult| it.id() == number ==> BattleResult::of(number) == it,
            (forall|it: BattleResult| it.id() != number) ==> BattleResult::of(number)
                == BattleResult::Unknown,
    {
        assert forall|it: BattleResult| it.id() == number implies BattleResult::of(number) == it by {
            let found = choose|other: BattleResult| other.id() == number;
            BattleResult::id_is_injective(found, it);
        }
    }
}

/// The boss encounters that the tracker tells apart.
#[derive(Copy, Clone, Debug, PartialEq, Eq, Structural)]
#[allow(non_camel_case_types)]
pub enum Monster {
    Garland,
    Pirates,
    Piscodemons,
    Astos,
    Vampire,
    Lich,
    EvilEye,
    Kraken,
    BlueDragon,
    Tiamat,
    Marilith,
    DeathEye,
    Lich2,
    Marilith2,
    Kraken2,
    Tiamat2,
    Chaos,
}

impl Monster {
    /// The number by which the game names this encounter.
    pub open spec fn spec_id(self) -> u32 {
        match self {
            Monster::Garland => 350,
            Monster::Pirates => 349,
            Monster::Piscodemons => 88,
            Monster::Astos => 348,
            Monster::Vampire => 347,
            Monster::Lich => 345,
            Monster::EvilEye => 312,
            Monster::Kraken => 343,
            Monster::BlueDragon => 239,
            Monster::Tiamat => 342,
            Monster::Marilith => 344,
            Monster::DeathEye => 197,
            Monster::Lich2 => 338,
            Monster::Marilith2 => 339,
            Monster::Kraken2 => 340,
            Monster::Tiamat2 => 341,
            Monster::Chaos => 346,
        }
    }

    /// The number by which the game names this encounter.
    #[verifier::when_used_as_spec(spec_id)]
    pub fn id(self) -> (id: u32)
        ensures
            id == self.spec_id(),
    {
        match self {
            Monster::Garland => 350,
            Monster::Pirates => 349,
            Monster::Piscodemons => 88,
            Monster::Astos => 348,
            Monster::Vampire => 347,
            Monster::Lich => 345,
            Monster::EvilEye => 312,
            Monster::Kraken => 343,
            Monster::BlueDragon => 239,
            Monster::Tiamat => 342,
            Monster::Marilith => 344,
            Monster::DeathEye => 197,
            Monster::Lich2 => 338,
            Monster::Marilith2 => 339,
            Monster::Kraken2 => 340,
            Monster::Tiamat2 => 341,
            Monster::Chaos => 346,
        }
    }

    /// The encounter that the game names by `number`, if it names one.
    pub open spec fn of(number: u32) -> Option<Monster> {
        if exists|it: Monster| it.id() == number {
            Some(choose|it: Monster| it.id() == number)
        } else {
            None
        }
    }

    /// The encounter that the game names by `number`, and the number back where it names none.
    pub fn try_from_primitive(number: u32) -> (found: Result<Monster, UnknownId>)
        ensures
            found == match Monster::of(number) {
                Some(it) => Ok::<_, UnknownId>(it),
                None => Err(UnknownId { number }),
            },
            found matches Ok(it) ==> it.id() == number,
    {
        match number {
            88 => Ok(Monster::Piscodemons),
            197 => Ok(Monster::DeathEye),
            239 => Ok(Monster::BlueDragon),
            312 => Ok(Monster::EvilEye),
            338 => Ok(Monster::Lich2),
            339 => Ok(Monster::Marilith2),
            340 => Ok(Monster::Kraken2),
            341 => Ok(Monster::Tiamat2),
            342 => Ok(Monster::Tiamat),
            343 => Ok(Monster::Kraken),
            344 => Ok(Monster::Marilith),
            345 => Ok(Monster::Lich),
            346 => Ok(Monster::Chaos),
            347 => Ok(Monster::Vampire),
            348 => Ok(Monster::Astos),
            349 => Ok(Monster::Pirates),
            350 => Ok(Monster::Garland),
            _ => Err(UnknownId { number }),
        }
    }

    /// No two encounters share a number.
    pub proof fn id_is_injective(a: Monster, b: Monster)
        requires
            a.id() == b.id(),
        ensures
            a == b,
    {
    }

    /// `of` finds the one encounter with the number, and nothing where no encounter has it.
    pub proof fn of_is_exact(number: u32)
        ensures
            forall|it: Monster| (Monster::of(number) == Some(it)) <==> it.id() == number,
    {
        assert forall|it: Monster| it.id() == number implies Monster::of(number) == Some(it) by {
            let found = choose|other: Monster| other.id() == number;
            Monster::id_is_injective(found, it);
        }
    }
}

/// The maps that the tracker tells apart.
#[derive(Copy, Clone, Debug, PartialEq, Eq, Structural)]
#[allow(non_camel_case_types)]
pub enum Location {
    WorldMap,
    CastleCornelia,
    CorneliaThrone,
    Cornelia,
    CorneliaItemShop,
    MatoyaCave,
    Pravoka,
    Elfenheim,
    ElfenheimItemShop,
    _ElfenheimBMShop,
    ElvenCastle,
    WesternKeep,
    Melmond,
    _MelmondArmorShop,
    MelmondBMShop,
    SageCave,
    CrescentLake,
    CLItemShop,
    _CrescentLakeBMShop,
    Onrac,
    OnracItemShop,
    OasisShop,
    Gaia,
    GaiaItemShop,
    _GaiaBMShop,
    Lufenia,
    MarshCave1,
    MarshCave3,
    EarthCave3,
    IceCave1,
    IceCave2,
    Underwater5,
    WaterfallCave,
    MirageTower3,
    FlyingFortress,
    ChaosShrine2,
    ChaosShrine3,
    AirHangar,
}

impl Location {
    /// The number by which the game names this map.
    pub open spec fn spec_id(self) -> u32 {
        match self {
            Location::WorldMap => 1,
            Location::CastleCornelia => 2,
            Location::CorneliaThrone => 3,
            Location::Cornelia => 4,
            Location::CorneliaItemShop => 6,
            Location::MatoyaCave => 12,
            Location::Pravoka => 13,
            Location::Elfenheim => 22,
            Location::ElfenheimItemShop => 24,
            Location::_ElfenheimBMShop => 31,
            Location::ElvenCastle => 32,
            Location::WesternKeep => 33,
            Location::Melmond => 34,
            Location::_MelmondArmorShop => 37,
            Location::MelmondBMShop => 39,
            Location::SageCave => 40,
            Location::CrescentLake => 41,
            Location::CLItemShop => 43,
            Location::_CrescentLakeBMShop => 48,
            Location::Onrac => 52,
            Location::OnracItemShop => 54,
            Location::OasisShop => 59,
            Location::Gaia => 60,
            Location::GaiaItemShop => 62,
            Location::_GaiaBMShop => 67,
            Location::Lufenia => 70,
            Location::MarshCave1 => 73,
            Location::MarshCave3 => 75,
            Location::EarthCave3 => 78,
            Location::IceCave1 => 88,
            Location::IceCave2 => 91,
            Location::Underwater5 => 103,
            Location::WaterfallCave => 104,
            Location::MirageTower3 => 107,
            Location::FlyingFortress => 108,
            Location::ChaosShrine2 => 114,
            Location::ChaosShrine3 => 115,
            Location::AirHangar => 122,
        }
    }

    /// The number by which the game names this map.
    #[verifier::when_used_as_spec(spec_id)]
    pub fn id(self) -> (id: u32)
        ensures
            id == self.spec_id(),
    {
        match self {
            Location::WorldMap => 1,
            Location::CastleCornelia => 2,
            Location::CorneliaThrone => 3,
            Location::Cornelia => 4,
            Location::CorneliaItemShop => 6,
            Location::MatoyaCave => 12,
            Location::Pravoka => 13,
            Location::Elfenheim => 22,
            Location::ElfenheimItemShop => 24,
            Location::_ElfenheimBMShop => 31,
            Location::ElvenCastle => 32,
            Location::WesternKeep => 33,
            Location::Melmond => 34,
            Location::_MelmondArmorShop => 37,
            Location::MelmondBMShop => 39,
            Location::SageCave => 40,
            Location::CrescentLake => 41,
            Location::CLItemShop => 43,
            Location::_CrescentLakeBMShop => 48,
            Location::Onrac => 52,
            Location::OnracItemShop => 54,
            Location::OasisShop => 59,
            Location::Gaia => 60,
            Location::GaiaItemShop => 62,
            Location::_GaiaBMShop => 67,
            Location::Lufenia => 70,
            Location::MarshCave1 => 73,
            Location::MarshCave3 => 75,
            Location::EarthCave3 => 78,
            Location::IceCave1 => 88,
            Location::IceCave2 => 91,
            Location::Underwater5 => 103,
            Location::WaterfallCave => 104,
            Location::MirageTower3 => 107,
            Location::FlyingFortress => 108,
            Location::ChaosShrine2 => 114,
            Location::ChaosShrine3 => 115,
            Location::AirHangar => 122,
        }
    }

    /// The map that the game names by `number`, if it names one.
    pub open spec fn of(number: u32) -> Option<Location> {
        if exists|it: Location| it.id() == number {
            Some(choose|it: Location| it.id() == number)
        } else {
            None
        }
    }

    /// The map that the game names by `number`, and the number back where it names none.
    pub fn try_from_primitive(number: u32) -> (found: Result<Location, UnknownId>)
        ensures
            found == match Location::of(number) {
                Some(it) => Ok::<_, UnknownId>(it),
                None => Err(UnknownId { number }),
            },
            found matches Ok(it) ==> it.id() == number,
    {
        match number {
            1 => Ok(Location::WorldMap),
            2 => Ok(Location::CastleCornelia),
            3 => Ok(Location::CorneliaThrone),
            4 => Ok(Location::Cornelia),
            6 => Ok(Location::CorneliaItemShop),
            12 => Ok(Location::MatoyaCave),
            13 => Ok(Location::Pravoka),
            22 => Ok(Location::Elfenheim),
            24 => Ok(Location::ElfenheimItemShop),
            31 => Ok(Location::_ElfenheimBMShop),
            32 => Ok(Location::ElvenCastle),
            33 => Ok(Location::WesternKeep),
            34 => Ok(Location::Melmond),
            37 => Ok(Location::_MelmondArmorShop),
            39 => Ok(Location::MelmondBMShop),
            40 => Ok(Location::SageCave),
            41 => Ok(Location::CrescentLake),
            43 => Ok(Location::CLItemShop),
            48 => Ok(Location::_CrescentLakeBMShop),
            52 => Ok(Location::Onrac),
            54 => Ok(Location::OnracItemShop),
            59 => Ok(Location::OasisShop),
            60 => Ok(Location::Gaia),
            62 => Ok(Location::GaiaItemShop),
            67 => Ok(Location::_GaiaBMShop),
            70 => Ok(Location::Lufenia),
            73 => Ok(Location::MarshCave1),
            75 => Ok(Location::MarshCave3),
            78 => Ok(Location::EarthCave3),
            88 => Ok(Location::IceCave1),
            91 => Ok(Location::IceCave2),
            103 => Ok(Location::Underwater5),
            104 => Ok(Location::WaterfallCave),
            107 => Ok(Location::MirageTower3),
            108 => Ok(Location::FlyingFortress),
            114 => Ok(Location::ChaosShrine2),
            115 => Ok(Location::ChaosShrine3),
            122 => Ok(Location::AirHangar),
            _ => Err(UnknownId { number }),
        }
    }

    /// No two maps share a number.
    pub proof fn id_is_injective(a: Location, b: Location)
        requires
            a.id() == b.id(),
        ensures
            a == b,
    {
    }

    /// `of` finds the one map with the number, and nothing where no map has it.
    pub proof fn of_is_exact(number: u32)
        ensures
            forall|it: Location| (Location::of(number) == Some(it)) <==> it.id() == number,
    {
        assert forall|it: Location| it.id() == number implies Location::of(number) == Some(it) by {
            let found = choose|other: Location| other.id() == number;
            Location::id_is_injective(found, it);
        }
    }

    /// Whether a key item or a vehicle can be obtained on this map.
    pub open spec fn spec_has_key_item(self) -> bool {
        ||| self == Location::CorneliaThrone
        ||| self == Location::Pravoka
        ||| self == Location::MarshCave3
        ||| self == Location::WesternKeep
        ||| self == Location::MatoyaCave
        ||| self == Location::ElvenCastle
        ||| self == Location::CastleCornelia
        ||| self == Location::EarthCave3
        ||| self == Location::SageCave
        ||| self == Location::CrescentLake
        ||| self == Location::IceCave2
        ||| self == Location::AirHangar
        ||| self == Location::WaterfallCave
        ||| self == Location::OasisShop
        ||| self == Location::Gaia
        ||| self == Location::Underwater5
        ||| self == Location::Lufenia
    }

    /// Whether a key item or a vehicle can be obtained on this map.
    #[verifier::when_used_as_spec(spec_has_key_item)]
    pub fn has_key_item(self) -> (has: bool)
        ensures
            has == self.spec_has_key_item(),
    {
        match self {
            Location::CorneliaThrone
            | Location::Pravoka
            | Location::MarshCave3
            | Location::WesternKeep
            | Location::MatoyaCave
            | Location::ElvenCastle
            | Location::CastleCornelia
            | Location::EarthCave3
            | Location::SageCave
            | Location::CrescentLake
            | Location::IceCave2
            | Location::AirHangar
            | Location::WaterfallCave
            | Location::OasisShop
            | Location::Gaia
            | Location::Underwater5
            | Location::Lufenia => true,
            _ => false,
        }
    }
}

/// The key items and vehicles whose pickup the tracker reports.
#[derive(Copy, Clone, Debug, PartialEq, Eq, Structural)]
#[allow(non_camel_case_types)]
pub enum Item {
    Lute,
    Ship,
    Crown,
    CrystalEye,
    Tonic,
    MysticKey,
    Nitro,
    StarRuby,
    EarthRod,
    Canoe,
    LeviStone,
    AirShip,
    WarpCube,
    BottledFaerie,
    Oxyale,
    RosettaStone,
    Chime,
}

impl Item {
    /// The number by which the game names this item.
    pub open spec fn spec_id(self) -> u32 {
        match self {
            Item::Lute => 44,
            Item::Ship => 4,
            Item::Crown => 45,
            Item::CrystalEye => 46,
            Item::Tonic => 47,
            Item::MysticKey => 48,
            Item::Nitro => 49,
            Item::StarRuby => 52,
            Item::EarthRod => 53,
            Item::Canoe => 60,
            Item::LeviStone => 54,
            Item::AirShip => 3,
            Item::WarpCube => 57,
            Item::BottledFaerie => 58,
            Item::Oxyale => 59,
            Item::RosettaStone => 51,
            Item::Chime => 55,
        }
    }

    /// The number by which the game names this item.
    #[verifier::when_used_as_spec(spec_id)]
    pub fn id(self) -> (id: u32)
        ensures
            id == self.spec_id(),
    {
        match self {
            Item::Lute => 44,
            Item::Ship => 4,
            Item::Crown => 45,
            Item::CrystalEye => 46,
            Item::Tonic => 47,
            Item::MysticKey => 48,
            Item::Nitro => 49,
            Item::StarRuby => 52,
            Item::EarthRod => 53,
            Item::Canoe => 60,
            Item::LeviStone => 54,
            Item::AirShip => 3,
            Item::WarpCube => 57,
            Item::BottledFaerie => 58,
            Item::Oxyale => 59,
            Item::RosettaStone => 51,
            Item::Chime => 55,
        }
    }

    /// The item that the game names by `number`, if it names one.
    pub open spec fn of(number: u32) -> Option<Item> {
        if exists|it: Item| it.id() == number {
            Some(choose|it: Item| it.id() == number)
        } else {
            None
        }
    }

    /// The item that the game names by `number`, and the number back where it names none.
    pub fn try_from_primitive(number: u32) -> (found: Result<Item, UnknownId>)
        ensures
            found == match Item::of(number) {
                Some(it) => Ok::<_, UnknownId>(it),
                None => Err(UnknownId { number }),
            },
            found matches Ok(it) ==> it.id() == number,
    {
        match number {
            3 => Ok(Item::AirShip),
            4 => Ok(Item::Ship),
            44 => Ok(Item::Lute),
            45 => Ok(Item::Crown),
            46 => Ok(Item::CrystalEye),
            47 => Ok(Item::Tonic),
            48 => Ok(Item::MysticKey),
            49 => Ok(Item::Nitro),
            51 => Ok(Item::RosettaStone),
            52 => Ok(Item::StarRuby),
            53 => Ok(Item::EarthRod),
            54 => Ok(Item::LeviStone),
            55 => Ok(Item::Chime),
            57 => Ok(Item::WarpCube),
            58 => Ok(Item::BottledFaerie),
            59 => Ok(Item::Oxyale),
            60 => Ok(Item::Canoe),
            _ => Err(UnknownId { number }),
        }
    }

    /// No two items share a number.
    pub proof fn id_is_injective(a: Item, b: Item)
        requires
            a.id() == b.id(),
        ensures
            a == b,
    {
    }

    /// `of` finds the one item with the number, and nothing where no item has it.
    pub proof fn of_is_exact(number: u32)
        ensures
            forall|it: Item| (Item::of(number) == Some(it)) <==> it.id() == number,
    {
        assert forall|it: Item| it.id() == number implies Item::of(number) == Some(it) by {
            let found = choose|other: Item| other.id() == number;
            Item::id_is_injective(found, it);
        }
    }
}

impl Sample for BattleResult {
    fn same(self, other: Self) -> (same: bool) {
        self == other
    }
}

impl Sample for Location {
    fn same(self, other: Self) -> (same: bool) {
        self == other
    }
}

impl EnumSetMember for Item {
    /// An item stands in a set at its own number, which is below 64 for every item.
    open spec fn spec_ordinal(&self) -> Option<u8> {
        if self.id() <= u8::MAX {
            Some(self.id() as u8)
        } else {
            None
        }
    }

    fn ordinal(&self) -> (ordinal: Option<u8>) {
        let id: u32 = self.id();
        if id <= 255 {
            Some(id as u8)
        } else {
            None
        }
    }
}

} // verus!
