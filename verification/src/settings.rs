//! The splits a runner can ask for, and the settings that choose among them.

use crate::data::{Item, Location, Monster};
use crate::enum_set::EnumSetMember;
use crate::watcher::Pair;
use vstd::prelude::*;

verus! {

/// When a won battle counts as over.
#[derive(Debug, Copy, Clone, PartialEq, Eq, Structural)]
pub enum BattleSplit {
    /// Split battles as soon as the death animation starts
    DeathAnimation,
    /// Split battles after all spoils are collected and the battle fades out
    BattleEnd,
}

impl Default for BattleSplit {
    fn default() -> (choice: Self)
        ensures
            choice == BattleSplit::BattleEnd,
    {
        BattleSplit::BattleEnd
    }
}

/// A moment of the run that can end a segment.
#[derive(Copy, Clone, Debug, PartialEq, Eq, Structural)]
pub enum SplitOn {
    Garland,
    Lute,
    Pirates,
    Ship,
    MarshShop,
    MarshCave,
    Piscodemons,
    Crown,
    Astos,
    CrystalEye,
    Tonic,
    MysticKey,
    Nitro,
    Firaga,
    Vampire,
    StarRuby,
    EarthRod,
    Lich,
    Canoe,
    EvilEye,
    LeviStone,
    IceCave,
    AirShip,
    WarpCube,
    WaterfallCave,
    BottledFaerie,
    Oxyale,
    RosettaStone,
    Kraken,
    Chime,
    BlueDragon,
    FlyingFortress,
    Tiamat,
    Marilith,
    DeathEye,
    ChaosShrine,
    Lich2,
    Marilith2,
    Kraken2,
    Tiamat2,
    Chaos,
}

impl SplitOn {
    /// The place of this split in the order in which a run meets them, from 0.
    pub open spec fn index(self) -> u8 {
        match self {
            SplitOn::Garland => 0,
            SplitOn::Lute => 1,
            SplitOn::Pirates => 2,
            SplitOn::Ship => 3,
            SplitOn::MarshShop => 4,
            SplitOn::MarshCave => 5,
            SplitOn::Piscodemons => 6,
            SplitOn::Crown => 7,
            SplitOn::Astos => 8,
            SplitOn::CrystalEye => 9,
            SplitOn::Tonic => 10,
            SplitOn::MysticKey => 11,
            SplitOn::Nitro => 12,
            SplitOn::Firaga => 13,
            SplitOn::Vampire => 14,
            SplitOn::StarRuby => 15,
            SplitOn::EarthRod => 16,
            SplitOn::Lich => 17,
            SplitOn::Canoe => 18,
            SplitOn::EvilEye => 19,
            SplitOn::LeviStone => 20,
            SplitOn::IceCave => 21,
            SplitOn::AirShip => 22,
            SplitOn::WarpCube => 23,
            SplitOn::WaterfallCave => 24,
            SplitOn::BottledFaerie => 25,
            SplitOn::Oxyale => 26,
            SplitOn::RosettaStone => 27,
            SplitOn::Kraken => 28,
            SplitOn::Chime => 29,
            SplitOn::BlueDragon => 30,
            SplitOn::FlyingFortress => 31,
            SplitOn::Tiamat => 32,
            SplitOn::Marilith => 33,
            SplitOn::DeathEye => 34,
            SplitOn::ChaosShrine => 35,
            SplitOn::Lich2 => 36,
            SplitOn::Marilith2 => 37,
            SplitOn::Kraken2 => 38,
            SplitOn::Tiamat2 => 39,
            SplitOn::Chaos => 40,
        }
    }

    /// The split for winning against `monster`.
    pub open spec fn spec_from_monster(monster: Monster) -> SplitOn {
        match monster {
            Monster::Garland => SplitOn::Garland,
            Monster::Pirates => SplitOn::Pirates,
            Monster::Piscodemons => SplitOn::Piscodemons,
            Monster::Astos => SplitOn::Astos,
            Monster::Vampire => SplitOn::Vampire,
            Monster::Lich => SplitOn::Lich,
            Monster::EvilEye => SplitOn::EvilEye,
            Monster::Kraken => SplitOn::Kraken,
            Monster::BlueDragon => SplitOn::BlueDragon,
            Monster::Tiamat => SplitOn::Tiamat,
            Monster::Marilith => SplitOn::Marilith,
            Monster::DeathEye => SplitOn::DeathEye,
            Monster::Lich2 => SplitOn::Lich2,
            Monster::Marilith2 => SplitOn::Marilith2,
            Monster::Kraken2 => SplitOn::Kraken2,
            Monster::Tiamat2 => SplitOn::Tiamat2,
            Monster::Chaos => SplitOn::Chaos,
        }
    }

    /// The split for winning against `monster`.
    #[verifier::when_used_as_spec(spec_from_monster)]
    pub fn from_monster(monster: Monster) -> (split: SplitOn)
        ensures
            split == SplitOn::spec_from_monster(monster),
    {
        match monster {
            Monster::Garland => SplitOn::Garland,
            Monster::Pirates => SplitOn::Pirates,
            Monster::Piscodemons => SplitOn::Piscodemons,
            Monster::Astos => SplitOn::Astos,
            Monster::Vampire => SplitOn::Vampire,
            Monster::Lich => SplitOn::Lich,
            Monster::EvilEye => SplitOn::EvilEye,
            Monster::Kraken => SplitOn::Kraken,
            Monster::BlueDragon => SplitOn::BlueDragon,
            Monster::Tiamat => SplitOn::Tiamat,
            Monster::Marilith => SplitOn::Marilith,
            Monster::DeathEye => SplitOn::DeathEye,
            Monster::Lich2 => SplitOn::Lich2,
            Monster::Marilith2 => SplitOn::Marilith2,
            Monster::Kraken2 => SplitOn::Kraken2,
            Monster::Tiamat2 => SplitOn::Tiamat2,
            Monster::Chaos => SplitOn::Chaos,
        }
    }

    /// The split for picking up `item`.
    pub open spec fn spec_from_item(item: Item) -> SplitOn {
        match item {
            Item::Lute => SplitOn::Lute,
            Item::Ship => SplitOn::Ship,
            Item::Crown => SplitOn::Crown,
            Item::CrystalEye => SplitOn::CrystalEye,
            Item::Tonic => SplitOn::Tonic,
            Item::MysticKey => SplitOn::MysticKey,
            Item::Nitro => SplitOn::Nitro,
            Item::StarRuby => SplitOn::StarRuby,
            Item::EarthRod => SplitOn::EarthRod,
            Item::Canoe => SplitOn::Canoe,
            Item::LeviStone => SplitOn::LeviStone,
            Item::AirShip => SplitOn::AirShip,
            Item::WarpCube => SplitOn::WarpCube,
            Item::BottledFaerie => SplitOn::BottledFaerie,
            Item::Oxyale => SplitOn::Oxyale,
            Item::RosettaStone => SplitOn::RosettaStone,
            Item::Chime => SplitOn::Chime,
        }
    }

    /// The split for picking up `item`.
    #[verifier::when_used_as_spec(spec_from_item)]
    pub fn from_item(item: Item) -> (split: SplitOn)
        ensures
            split == SplitOn::spec_from_item(item),
    {
        match item {
            Item::Lute => SplitOn::Lute,
            Item::Ship => SplitOn::Ship,
            Item::Crown => SplitOn::Crown,
            Item::CrystalEye => SplitOn::CrystalEye,
            Item::Tonic => SplitOn::Tonic,
            Item::MysticKey => SplitOn::MysticKey,
            Item::Nitro => SplitOn::Nitro,
            Item::StarRuby => SplitOn::StarRuby,
            Item::EarthRod => SplitOn::EarthRod,
            Item::Canoe => SplitOn::Canoe,
            Item::LeviStone => SplitOn::LeviStone,
            Item::AirShip => SplitOn::AirShip,
            Item::WarpCube => SplitOn::WarpCube,
            Item::BottledFaerie => SplitOn::BottledFaerie,
            Item::Oxyale => SplitOn::Oxyale,
            Item::RosettaStone => SplitOn::RosettaStone,
            Item::Chime => SplitOn::Chime,
        }
    }

    /// The split for walking from map `old` to map `current`, for the seven walks that have one.
    pub open spec fn travel(old: Location, current: Location) -> Option<SplitOn> {
        if old == Location::ElfenheimItemShop && current == Location::Elfenheim {
            Some(SplitOn::MarshShop)
        } else if old == Location::WorldMap && current == Location::MarshCave1 {
            Some(SplitOn::MarshCave)
        } else if old == Location::MelmondBMShop && current == Location::Melmond {
            Some(SplitOn::Firaga)
        } else if old == Location::IceCave1 && current == Location::WorldMap {
            Some(SplitOn::IceCave)
        } else if old == Location::WaterfallCave && current == Location::WorldMap {
            Some(SplitOn::WaterfallCave)
        } else if old == Location::MirageTower3 && current == Location::FlyingFortress {
            Some(SplitOn::FlyingFortress)
        } else if old == Location::ChaosShrine3 && current == Location::ChaosShrine2 {
            Some(SplitOn::ChaosShrine)
        } else {
            None
        }
    }

    /// The split that two samples of the map stand for, if the walk between them has one.
    pub fn from_watcher(watcher: &Pair<Location>) -> (split: Option<SplitOn>)
        ensures
            split == SplitOn::travel(watcher.old, watcher.current),
    {
        match (watcher.old, watcher.current) {
            (Location::ElfenheimItemShop, Location::Elfenheim) => Some(SplitOn::MarshShop),
            (Location::WorldMap, Location::MarshCave1) => Some(SplitOn::MarshCave),
            (Location::MelmondBMShop, Location::Melmond) => Some(SplitOn::Firaga),
            (Location::IceCave1, Location::WorldMap) => Some(SplitOn::IceCave),
            (Location::WaterfallCave, Location::WorldMap) => Some(SplitOn::WaterfallCave),
            (Location::MirageTower3, Location::FlyingFortress) => Some(SplitOn::FlyingFortress),
            (Location::ChaosShrine3, Location::ChaosShrine2) => Some(SplitOn::ChaosShrine),
            _ => None,
        }
    }
}

impl EnumSetMember for SplitOn {
    open spec fn spec_ordinal(&self) -> Option<u8> {
        Some(self.index())
    }

    fn ordinal(&self) -> (ordinal: Option<u8>) {
        Some(
            match self {
                SplitOn::Garland => 0,
                SplitOn::Lute => 1,
                SplitOn::Pirates => 2,
                SplitOn::Ship => 3,
                SplitOn::MarshShop => 4,
                SplitOn::MarshCave => 5,
                SplitOn::Piscodemons => 6,
                SplitOn::Crown => 7,
                SplitOn::Astos => 8,
                SplitOn::CrystalEye => 9,
                SplitOn::Tonic => 10,
                SplitOn::MysticKey => 11,
                SplitOn::Nitro => 12,
                SplitOn::Firaga => 13,
                SplitOn::Vampire => 14,
                SplitOn::StarRuby => 15,
                SplitOn::EarthRod => 16,
                SplitOn::Lich => 17,
                SplitOn::Canoe => 18,
                SplitOn::EvilEye => 19,
                SplitOn::LeviStone => 20,
                SplitOn::IceCave => 21,
                SplitOn::AirShip => 22,
                SplitOn::WarpCube => 23,
                SplitOn::WaterfallCave => 24,
                SplitOn::BottledFaerie => 25,
                SplitOn::Oxyale => 26,
                SplitOn::RosettaStone => 27,
                SplitOn::Kraken => 28,
                SplitOn::Chime => 29,
                SplitOn::BlueDragon => 30,
                SplitOn::FlyingFortress => 31,
                SplitOn::Tiamat => 32,
                SplitOn::Marilith => 33,
                SplitOn::DeathEye => 34,
                SplitOn::ChaosShrine => 35,
                SplitOn::Lich2 => 36,
                SplitOn::Marilith2 => 37,
                SplitOn::Kraken2 => 38,
                SplitOn::Tiamat2 => 39,
                SplitOn::Chaos => 40,
            },
        )
    }
}

/// What the runner has switched on.
#[derive(Copy, Clone, Debug, PartialEq, Eq, Structural)]
pub struct Settings {
    /// Start the timer on party confirmation
    pub start: bool,
    /// When to split on battles.
    pub battle_split: BattleSplit,
    /// Split when defeating Garland
    pub garland: bool,
    /// Split when obtaining the Lute
    pub lute: bool,
    /// Split when defeating the Pirates
    pub pirates: bool,
    /// Split when obtaining the Ship
    pub ship: bool,
    /// Split after shopping in Elfenheim
    pub elfen_shop: bool,
    /// Split when entering the Marsh Cave
    pub marsh_cave: bool,
    /// Split when defeating Piscodemons
    pub piscodemons: bool,
    /// Split when obtaining the Crown
    pub crown: bool,
    /// Split when defeating Astos
    pub astos: bool,
    /// Split when obtaining the Crystal Eye
    pub crystal_eye: bool,
    /// Split when obtaining the Tonic
    pub tonic: bool,
    /// Split when obtaining the Mystic Key
    pub mystic_key: bool,
    /// Split when obtaining the Nitro
    pub nitro: bool,
    /// Split when having bought Firaga
    pub firaga: bool,
    /// Split when defeating Vampire
    pub vampire: bool,
    /// Split when obtaining the Star Ruby
    pub star_ruby: bool,
    /// Split when obtaining the Earth Rod
    pub earth_rod: bool,
    /// Split when defeating Lich
    pub lich: bool,
    /// Split when obtaining the Canoe
    pub canoe: bool,
    /// Split when defeating Evil Eye
    pub evil_eye: bool,
    /// Split when obtaining the Levi Stone
    pub levi_stone: bool,
    /// Split when leaving the Ice Cave
    pub ice_cave: bool,
    /// Split when obtaining the Air Ship
    pub air_ship: bool,
    /// Split when obtaining the Warp Cube
    pub warp_cube: bool,
    /// Split when leaving the Waterfall Cave
    pub waterfall_cave: bool,
    /// Split when obtaining the Bottled Faerie
    pub bottled_faerie: bool,
    /// Split when obtaining the Oxyale
    pub oxyale: bool,
    /// Split when obtaining the Rosetta Stone
    pub rosetta_stone: bool,
    /// Split when defeating Kraken
    pub kraken: bool,
    /// Split when obtaining the Chime
    pub chime: bool,
    /// Split when defeating Blue Dragon
    pub blue_dragon: bool,
    /// Split when entering the Flying Fortress
    pub flying_fortress: bool,
    /// Split when defeating Tiamat
    pub tiamat: bool,
    /// Split when defeating Marilith
    pub marilith: bool,
    /// Split when defeating Death Eye
    pub death_eye: bool,
    /// Split when opening the Chaos Shrine with the Lute
    pub chaos_shrine: bool,
    /// Split when defeating Lich 2
    pub lich2: bool,
    /// Split when defeating Marilith 2
    pub marilith2: bool,
    /// Split when defeating Kraken 2
    pub kraken2: bool,
    /// Split when defeating Tiamat 2
    pub tiamat2: bool,
    /// Split when defeating Chaos
    pub chaos: bool,
}

impl Settings {
    /// Whether the runner has switched `split` on.
    pub open spec fn enabled(&self, split: SplitOn) -> bool {
        match split {
            SplitOn::Garland => self.garland,
            SplitOn::Lute => self.lute,
            SplitOn::Pirates => self.pirates,
            SplitOn::Ship => self.ship,
            SplitOn::MarshShop => self.elfen_shop,
            SplitOn::MarshCave => self.marsh_cave,
            SplitOn::Piscodemons => self.piscodemons,
            SplitOn::Crown => self.crown,
            SplitOn::Astos => self.astos,
            SplitOn::CrystalEye => self.crystal_eye,
            SplitOn::Tonic => self.tonic,
            SplitOn::MysticKey => self.mystic_key,
            SplitOn::Nitro => self.nitro,
            SplitOn::Firaga => self.firaga,
            SplitOn::Vampire => self.vampire,
            SplitOn::StarRuby => self.star_ruby,
            SplitOn::EarthRod => self.earth_rod,
            SplitOn::Lich => self.lich,
            SplitOn::Canoe => self.canoe,
            SplitOn::EvilEye => self.evil_eye,
            SplitOn::LeviStone => self.levi_stone,
            SplitOn::IceCave => self.ice_cave,
            SplitOn::AirShip => self.air_ship,
            SplitOn::WarpCube => self.warp_cube,
            SplitOn::WaterfallCave => self.waterfall_cave,
            SplitOn::BottledFaerie => self.bottled_faerie,
            SplitOn::Oxyale => self.oxyale,
            SplitOn::RosettaStone => self.rosetta_stone,
            SplitOn::Kraken => self.kraken,
            SplitOn::Chime => self.chime,
            SplitOn::BlueDragon => self.blue_dragon,
            SplitOn::FlyingFortress => self.flying_fortress,
            SplitOn::Tiamat => self.tiamat,
            SplitOn::Marilith => self.marilith,
            SplitOn::DeathEye => self.death_eye,
            SplitOn::ChaosShrine => self.chaos_shrine,
            SplitOn::Lich2 => self.lich2,
            SplitOn::Marilith2 => self.marilith2,
            SplitOn::Kraken2 => self.kraken2,
            SplitOn::Tiamat2 => self.tiamat2,
            SplitOn::Chaos => self.chaos,
        }
    }

    /// Whether the runner has switched `split` on.
    pub fn filter(&self, split: SplitOn) -> (pass: bool)
        ensures
            pass == self.enabled(split),
    {
        match split {
            SplitOn::Garland => self.garland,
            SplitOn::Lute => self.lute,
            SplitOn::Pirates => self.pirates,
            SplitOn::Ship => self.ship,
            SplitOn::MarshShop => self.elfen_shop,
            SplitOn::MarshCave => self.marsh_cave,
            SplitOn::Piscodemons => self.piscodemons,
            SplitOn::Crown => self.crown,
            SplitOn::Astos => self.astos,
            SplitOn::CrystalEye => self.crystal_eye,
            SplitOn::Tonic => self.tonic,
            SplitOn::MysticKey => self.mystic_key,
            SplitOn::Nitro => self.nitro,
            SplitOn::Firaga => self.firaga,
            SplitOn::Vampire => self.vampire,
            SplitOn::StarRuby => self.star_ruby,
            SplitOn::EarthRod => self.earth_rod,
            SplitOn::Lich => self.lich,
            SplitOn::Canoe => self.canoe,
            SplitOn::EvilEye => self.evil_eye,
            SplitOn::LeviStone => self.levi_stone,
            SplitOn::IceCave => self.ice_cave,
            SplitOn::AirShip => self.air_ship,
            SplitOn::WarpCube => self.warp_cube,
            SplitOn::WaterfallCave => self.waterfall_cave,
            SplitOn::BottledFaerie => self.bottled_faerie,
            SplitOn::Oxyale => self.oxyale,
            SplitOn::RosettaStone => self.rosetta_stone,
            SplitOn::Kraken => self.kraken,
            SplitOn::Chime => self.chime,
            SplitOn::BlueDragon => self.blue_dragon,
            SplitOn::FlyingFortress => self.flying_fortress,
            SplitOn::Tiamat => self.tiamat,
            SplitOn::Marilith => self.marilith,
            SplitOn::DeathEye => self.death_eye,
            SplitOn::ChaosShrine => self.chaos_shrine,
            SplitOn::Lich2 => self.lich2,
            SplitOn::Marilith2 => self.marilith2,
            SplitOn::Kraken2 => self.kraken2,
            SplitOn::Tiamat2 => self.tiamat2,
            SplitOn::Chaos => self.chaos,
        }
    }
}

impl Default for Settings {
    /// The timer starts by itself, battles end when they fade out, and Chaos is the one split
    /// that is on.
    fn default() -> (settings: Self)
        ensures
            settings.start,
            settings.battle_split == BattleSplit::BattleEnd,
            forall|split: SplitOn| settings.enabled(split) == (split == SplitOn::Chaos),
    {
        Settings {
            start: true,
            battle_split: BattleSplit::BattleEnd,
            garland: false,
            lute: false,
            pirates: false,
            ship: false,
            elfen_shop: false,
            marsh_cave: false,
            piscodemons: false,
            crown: false,
            astos: false,
            crystal_eye: false,
            tonic: false,
            mystic_key: false,
            nitro: false,
            firaga: false,
            vampire: false,
            star_ruby: false,
            earth_rod: false,
            lich: false,
            canoe: false,
            evil_eye: false,
            levi_stone: false,
            ice_cave: false,
            air_ship: false,
            warp_cube: false,
            waterfall_cave: false,
            bottled_faerie: false,
            oxyale: false,
            rosetta_stone: false,
            kraken: false,
            chime: false,
            blue_dragon: false,
            flying_fortress: false,
            tiamat: false,
            marilith: false,
            death_eye: false,
            chaos_shrine: false,
            lich2: false,
            marilith2: false,
            kraken2: false,
            tiamat2: false,
            chaos: true,
        }
    }
}

} // verus!
