//! Where the game keeps what the tracker watches, and how one sample of it is read.

use crate::data::{BattleResult, Item, Location, Monster};
use crate::game::{identity_of, RemoteWorld, WorldView};
use crate::memory::{read_value, value_at, MemReader};
use crate::path::PointerPath;
use crate::remote::{array_element, list_items, map_items, RemoteArray, RemoteList, RemoteMap, RemotePtr};
use vstd::prelude::*;

verus! {

/// The path from `class` through `fields`, all of them declared in that class.
fn ptr_path(class: &'static str, fields: Vec<&'static str>) -> (path: PointerPath)
    ensures
        path.class() == class,
        path.parents() == 0,
        path.fields() == fields@,
        path.offsets() is None,
{
    PointerPath::new(class, 0, fields)
}

/// What shows that a new game begins.
#[derive(Debug)]
pub struct NewGame {
    /// The callback that the screen's fade-out runs when it is done: set while one is under way.
    pub fade_out_finish: PointerPath,
}

impl NewGame {
    /// The path is the one that the game's classes name, and its offsets are not known yet.
    pub open spec fn fresh(&self) -> bool {
        &&& self.fade_out_finish.class() == "FadeManager"
        &&& self.fade_out_finish.parents() == 1
        &&& self.fade_out_finish.fields() == seq!["instance", "fadeOutFinishedCallback"]
        &&& self.fade_out_finish.offsets() is None
    }

    /// The path to the fade-out's callback, with its offsets still unknown.
    pub fn new() -> (new_game: Self)
        ensures
            new_game.fresh(),
    {
        NewGame {
            fade_out_finish: PointerPath::new(
                "FadeManager",
                1,
                vec!["instance", "fadeOutFinishedCallback"],
            ),
        }
    }
}

/// Where the game keeps the state of a battle.
#[derive(Debug)]
pub struct BattleData {
    /// Whether a battle is under way.
    pub active: PointerPath,
    /// Whether the battle is still being fought.
    pub playing: PointerPath,
    /// The list of the numbers of the monsters fought; the first stands for the encounter.
    pub monster_party: PointerPath,
    /// The recorded outcome.
    pub end_result: PointerPath,
}

/// `path` starts at the class `class`, goes through `fields`, all of them declared in that
/// class, and has no offsets yet.
pub open spec fn unresolved_path(path: &PointerPath, class: &'static str, fields: Seq<&'static str>) -> bool {
    &&& path.class() == class
    &&& path.parents() == 0
    &&& path.fields() == fields
    &&& path.offsets() is None
}

impl BattleData {
    /// The paths are those that the game's classes name, and their offsets are not known yet.
    pub open spec fn fresh(&self) -> bool {
        &&& unresolved_path(&self.active, "BattlePlugManager", seq!["instance", "isBattle"])
        &&& unresolved_path(
            &self.playing,
            "BattlePlugManager",
            seq!["instance", "<IsPlaying>k__BackingField"],
        )
        &&& unresolved_path(
            &self.monster_party,
            "BattlePlugManager",
            seq![
                "instance",
                "<InstantiateManager>k__BackingField",
                "<battleEnemyInstanceData>k__BackingField",
                "<monsterParty>k__BackingField",
                "valueIntList",
            ],
        )
        &&& unresolved_path(
            &self.end_result,
            "BattlePlugManager",
            seq!["instance", "<BattleEndJugment>k__BackingField", "resultType"],
        )
    }

    /// The paths to the state of a battle, with their offsets still unknown.
    pub fn new() -> (battles: Self)
        ensures
            battles.fresh(),
    {
        let active = ptr_path("BattlePlugManager", vec!["instance", "isBattle"]);
        let playing = ptr_path("BattlePlugManager", vec!["instance", "<IsPlaying>k__BackingField"]);
        let monster_party = ptr_path(
            "BattlePlugManager",
            vec![
                "instance",
                "<InstantiateManager>k__BackingField",
                "<battleEnemyInstanceData>k__BackingField",
                "<monsterParty>k__BackingField",
                "valueIntList",
            ],
        );
        let end_result = ptr_path(
            "BattlePlugManager",
            vec!["instance", "<BattleEndJugment>k__BackingField", "resultType"],
        );

        BattleData { active, playing, monster_party, end_result }
    }
}

/// A vehicle as the game lists it: it points to what is saved of the vehicle.
#[derive(Debug)]
pub struct OwnedTransportationData {
    pub data: RemotePtr<SaveTransportationData>,
}

/// What is saved of a vehicle: its number, and the map it stands on, which is negative as long
/// as the party does not own it.
#[derive(Copy, Clone, Debug, PartialEq, Eq, Structural)]
pub struct SaveTransportationData {
    pub id: u32,
    pub map_id: i32,
}

/// Where in a listed vehicle its field stands.
#[derive(Copy, Clone, Debug)]
pub struct OwnedTransportationDataBinding {
    /// The offset of the pointer to the saved data.
    pub data: u64,
}

impl OwnedTransportationDataBinding {
    /// The listed vehicle at `addr`, if its field can be read.
    pub open spec fn bound<R: MemReader>(&self, reader: &R, addr: u64) -> Option<
        OwnedTransportationData,
    > {
        if addr + self.data <= u64::MAX {
            match value_at::<RemotePtr<SaveTransportationData>, R>(reader, (addr + self.data) as u64) {
                Some(data) => Some(OwnedTransportationData { data }),
                None => None,
            }
        } else {
            None
        }
    }

    /// Reads the listed vehicle at `addr`.
    pub fn read<R: MemReader>(&self, reader: &R, addr: u64) -> (owned: Option<OwnedTransportationData>)
        ensures
            owned == self.bound(reader, addr),
    {
        let at: u64 = match addr.checked_add(self.data) {
            Some(at) => at,
            None => {
                return None;
            },
        };
        match read_value::<RemotePtr<SaveTransportationData>, R>(reader, at) {
            Some(data) => Some(OwnedTransportationData { data }),
            None => None,
        }
    }
}

/// Where in a vehicle's saved data its fields stand.
#[derive(Copy, Clone, Debug)]
pub struct SaveTransportationDataBinding {
    /// The offset of the vehicle's number.
    pub id: u64,
    /// The offset of the map's number.
    pub map_id: u64,
}

impl SaveTransportationDataBinding {
    /// The saved data at `addr`, if both fields can be read.
    pub open spec fn bound<R: MemReader>(&self, reader: &R, addr: u64) -> Option<
        SaveTransportationData,
    > {
        if addr + self.id <= u64::MAX && addr + self.map_id <= u64::MAX {
            match (
                value_at::<u32, R>(reader, (addr + self.id) as u64),
                value_at::<i32, R>(reader, (addr + self.map_id) as u64),
            ) {
                (Some(id), Some(map_id)) => Some(SaveTransportationData { id, map_id }),
                _ => None,
            }
        } else {
            None
        }
    }

    /// Reads the saved data at `addr`.
    pub fn read<R: MemReader>(&self, reader: &R, addr: u64) -> (saved: Option<SaveTransportationData>)
        ensures
            saved == self.bound(reader, addr),
    {
        let id_at: u64 = match addr.checked_add(self.id) {
            Some(at) => at,
            None => {
                return None;
            },
        };
        let map_id_at: u64 = match addr.checked_add(self.map_id) {
            Some(at) => at,
            None => {
                return None;
            },
        };
        let id: u32 = match read_value::<u32, R>(reader, id_at) {
            Some(id) => id,
            None => {
                return None;
            },
        };
        match read_value::<i32, R>(reader, map_id_at) {
            Some(map_id) => Some(SaveTransportationData { id, map_id }),
            None => None,
        }
    }
}

/// Where the game keeps what the party owns.
#[derive(Debug)]
pub struct ItemsData {
    /// The table of the key items, from each item's number plus one to the item.
    pub key_items: PointerPath,
    /// The list of the vehicles.
    pub vehicles: PointerPath,
    pub transport_data: OwnedTransportationDataBinding,
    pub save_transport: SaveTransportationDataBinding,
}

impl ItemsData {
    /// The paths are those that the game's classes name, and their offsets are not known yet.
    pub open spec fn fresh(&self) -> bool {
        &&& unresolved_path(
            &self.key_items,
            "UserDataManager",
            seq!["instance", "importantOwendItems"],
        )
        &&& unresolved_path(
            &self.vehicles,
            "UserDataManager",
            seq!["instance", "<OwnedTransportationList>k__BackingField"],
        )
    }

    /// The paths to what the party owns, with their offsets still unknown, and the places of
    /// a vehicle's fields as they are handed in.
    pub fn new(
        transport_data: OwnedTransportationDataBinding,
        save_transport: SaveTransportationDataBinding,
    ) -> (items: Self)
        ensures
            items.fresh(),
            items.transport_data == transport_data,
            items.save_transport == save_transport,
    {
        let key_items = ptr_path("UserDataManager", vec!["instance", "importantOwendItems"]);
        let vehicles = ptr_path(
            "UserDataManager",
            vec!["instance", "<OwnedTransportationList>k__BackingField"],
        );

        ItemsData { key_items, vehicles, transport_data, save_transport }
    }
}

/// Where the game keeps where the party is.
#[derive(Debug)]
pub struct UserData {
    /// The number of the map the party stands on.
    pub map_id: PointerPath,
}

impl UserData {
    /// The path is the one that the game's classes name, and its offsets are not known yet.
    pub open spec fn fresh(&self) -> bool {
        unresolved_path(
            &self.map_id,
            "UserDataManager",
            seq!["instance", "<CurrentMapId>k__BackingField"],
        )
    }

    /// The path to the party's map, with its offsets still unknown.
    pub fn new() -> (user: Self)
        ensures
            user.fresh(),
    {
        let map_id = ptr_path("UserDataManager", vec!["instance", "<CurrentMapId>k__BackingField"]);

        UserData { map_id }
    }
}

/// The numbers of the key items in a table of them: each key of the table, less one. A key of
/// 0 stands for no item.
pub open spec fn key_item_numbers(entries: Seq<(u32, RemotePtr<()>)>) -> Seq<u32>
    decreases entries.len(),
{
    if entries.len() == 0 {
        Seq::empty()
    } else if entries.last().0 > 0 {
        key_item_numbers(entries.drop_last()).push((entries.last().0 - 1) as u32)
    } else {
        key_item_numbers(entries.drop_last())
    }
}

/// The number of a listed vehicle, if the party owns it: its saved data can be read and names
/// a map.
pub open spec fn vehicle_number<R: MemReader>(
    reader: &R,
    items: &ItemsData,
    vehicle: RemotePtr<OwnedTransportationData>,
) -> Option<u32> {
    match items.transport_data.bound(reader, vehicle.address) {
        Some(owned) => match items.save_transport.bound(reader, owned.data.address) {
            Some(saved) if saved.map_id >= 0 => Some(saved.id),
            _ => None,
        },
        None => None,
    }
}

/// The numbers of the vehicles in a list of them that the party owns, in the list's order.
pub open spec fn vehicle_numbers<R: MemReader>(
    reader: &R,
    items: &ItemsData,
    vehicles: Seq<RemotePtr<OwnedTransportationData>>,
) -> Seq<u32>
    decreases vehicles.len(),
{
    if vehicles.len() == 0 {
        Seq::empty()
    } else {
        match vehicle_number(reader, items, vehicles.last()) {
            Some(number) => vehicle_numbers(reader, items, vehicles.drop_last()).push(number),
            None => vehicle_numbers(reader, items, vehicles.drop_last()),
        }
    }
}

/// The items that `numbers` name, in their order; a number that names no item is left out.
pub open spec fn known_items(numbers: Seq<u32>) -> Seq<Item>
    decreases numbers.len(),
{
    if numbers.len() == 0 {
        Seq::empty()
    } else {
        match Item::of(numbers.last()) {
            Some(item) => known_items(numbers.drop_last()).push(item),
            None => known_items(numbers.drop_last()),
        }
    }
}

/// The items that `numbers` name, in their order.
fn items_of(numbers: &Vec<u32>) -> (items: Vec<Item>)
    ensures
        items@ == known_items(numbers@),
{
    let mut items: Vec<Item> = Vec::new();
    let mut at: usize = 0;
    while at < numbers.len()
        invariant
            at <= numbers.len(),
            items@ == known_items(numbers@.take(at as int)),
        decreases numbers.len() - at,
    {
        assert(numbers@.take(at + 1).drop_last() =~= numbers@.take(at as int));
        match Item::try_from_primitive(numbers[at]) {
            Ok(item) => {
                items.push(item);
            },
            Err(_) => {},
        }
        at += 1;
    }
    assert(numbers@.take(at as int) =~= numbers@);
    items
}

/// The game as the tracker reads it: the places to read, and the reader to read them with.
pub struct Data<'a, R> {
    pub new_game: NewGame,
    pub battles: BattleData,
    pub items: ItemsData,
    pub user: UserData,
    pub reader: &'a R,
}

impl<'a, R: MemReader> Data<'a, R> {
    /// The place of the encounter's number in the list of the monsters fought.
    pub const ENCOUNTER_ID_INDEX: usize = 0;

    /// The places to read, none of them with its offsets known yet, and the reader to read
    /// them with.
    pub fn new(
        reader: &'a R,
        transport_data: OwnedTransportationDataBinding,
        save_transport: SaveTransportationDataBinding,
    ) -> (data: Self)
        ensures
            data.reader == reader,
            data.new_game.fresh(),
            data.battles.fresh(),
            data.items.fresh(),
            data.user.fresh(),
            data.items.transport_data == transport_data,
            data.items.save_transport == save_transport,
    {
        Data {
            new_game: NewGame::new(),
            battles: BattleData::new(),
            items: ItemsData::new(transport_data, save_transport),
            user: UserData::new(),
            reader,
        }
    }

    /// Whether a battle is under way: `false` where that cannot be read.
    pub open spec fn spec_battle_active(&self) -> bool {
        match self.battles.active.target::<bool, R>(self.reader) {
            Ok(active) => active,
            Err(_) => false,
        }
    }

    /// Whether a battle is under way: `false` where that cannot be read.
    #[verifier::when_used_as_spec(spec_battle_active)]
    pub fn battle_active(&self) -> (active: bool)
        ensures
            active == self.spec_battle_active(),
    {
        match self.battles.active.deref::<bool, R>(self.reader) {
            Ok(active) => active,
            Err(_) => false,
        }
    }

    /// Whether the battle is still being fought: `false` where that cannot be read.
    pub open spec fn spec_battle_playing(&self) -> bool {
        match self.battles.playing.target::<bool, R>(self.reader) {
            Ok(playing) => playing,
            Err(_) => false,
        }
    }

    /// Whether the battle is still being fought: `false` where that cannot be read.
    #[verifier::when_used_as_spec(spec_battle_playing)]
    pub fn battle_playing(&self) -> (playing: bool)
        ensures
            playing == self.spec_battle_playing(),
    {
        match self.battles.playing.deref::<bool, R>(self.reader) {
            Ok(playing) => playing,
            Err(_) => false,
        }
    }

    /// The number of the encounter: the first in the list of the monsters fought.
    pub open spec fn spec_encounter_id(&self) -> Option<u32> {
        match self.battles.monster_party.target::<RemotePtr<RemoteArray<u32>>, R>(self.reader) {
            Ok(party) => array_element::<u32, R>(self.reader, party.address, 0),
            Err(_) => None,
        }
    }

    /// The number of the encounter, where it can be read.
    #[verifier::when_used_as_spec(spec_encounter_id)]
    pub fn encounter_id(&self) -> (number: Option<u32>)
        ensures
            number == self.spec_encounter_id(),
    {
        match self.battles.monster_party.deref::<RemotePtr<RemoteArray<u32>>, R>(self.reader) {
            Ok(party) => party.get(self.reader, Self::ENCOUNTER_ID_INDEX),
            Err(_) => None,
        }
    }

    /// The encounter, where its number can be read and is one the tracker knows.
    pub fn encounter(&self) -> (monster: Option<Monster>)
        ensures
            monster == identity_of(self.spec_encounter_id()),
    {
        match self.encounter_id() {
            Some(number) => match Monster::try_from_primitive(number) {
                Ok(monster) => Some(monster),
                Err(_) => None,
            },
            None => None,
        }
    }

    /// The recorded outcome of the battle: `Unknown` where it cannot be read.
    pub open spec fn spec_battle_result(&self) -> BattleResult {
        match self.battles.end_result.target::<u32, R>(self.reader) {
            Ok(number) => BattleResult::of(number),
            Err(_) => BattleResult::Unknown,
        }
    }

    /// The recorded outcome of the battle: `Unknown` where it cannot be read.
    #[verifier::when_used_as_spec(spec_battle_result)]
    pub fn battle_result(&self) -> (result: BattleResult)
        ensures
            result == self.spec_battle_result(),
    {
        match self.battles.end_result.deref::<u32, R>(self.reader) {
            Ok(number) => BattleResult::from_primitive(number),
            Err(_) => BattleResult::Unknown,
        }
    }

    /// The numbers of the key items held, in the order of the table's slots: none where the
    /// table cannot be read.
    pub open spec fn spec_key_item_numbers(&self) -> Seq<u32> {
        match self.items.key_items.target::<RemotePtr<RemoteMap<u32, RemotePtr<()>>>, R>(
            self.reader,
        ) {
            Ok(table) => match map_items::<u32, RemotePtr<()>, R>(self.reader, table.address) {
                Some(entries) => key_item_numbers(entries),
                None => Seq::empty(),
            },
            Err(_) => Seq::empty(),
        }
    }

    /// The numbers of the key items held, in the order of the table's slots.
    pub fn key_item_numbers(&self) -> (numbers: Vec<u32>)
        ensures
            numbers@ == self.spec_key_item_numbers(),
    {
        let mut numbers: Vec<u32> = Vec::new();
        let table = match self.items.key_items.deref::<RemotePtr<RemoteMap<u32, RemotePtr<()>>>, R>(
            self.reader,
        ) {
            Ok(table) => table,
            Err(_) => {
                return numbers;
            },
        };
        let mut walk = match table.iter(self.reader) {
            Some(walk) => walk,
            None => {
                return numbers;
            },
        };
        let ghost all = walk.rest();
        let ghost mut passed: Seq<(u32, RemotePtr<()>)> = Seq::empty();
        loop
            invariant
                passed + walk.rest() == all,
                numbers@ == key_item_numbers(passed),
                self.spec_key_item_numbers() == key_item_numbers(all),
            decreases walk.rest().len(),
        {
            let entry = match walk.next() {
                Some(entry) => entry,
                None => {
                    return numbers;
                },
            };
            proof {
                assert(passed.push(entry).drop_last() =~= passed);
                passed = passed.push(entry);
            }
            let item_id_plus_1: u32 = entry.0;
            if item_id_plus_1 > 0 {
                numbers.push(item_id_plus_1 - 1);
            }
        }
    }

    /// The key items held, in the order of the table's slots.
    pub fn key_item_ids(&self) -> (items: Vec<Item>)
        ensures
            items@ == known_items(self.spec_key_item_numbers()),
    {
        items_of(&self.key_item_numbers())
    }

    /// The numbers of the vehicles owned, in the order of the game's list: none where the list
    /// cannot be read.
    pub open spec fn spec_vehicle_numbers(&self) -> Seq<u32> {
        match self.items.vehicles.target::<RemotePtr<RemoteList<RemotePtr<OwnedTransportationData>>>, R>(
            self.reader,
        ) {
            Ok(list) => match list_items::<RemotePtr<OwnedTransportationData>, R>(
                self.reader,
                list.address,
            ) {
                Some(vehicles) => vehicle_numbers(self.reader, &self.items, vehicles),
                None => Seq::empty(),
            },
            Err(_) => Seq::empty(),
        }
    }

    /// The numbers of the vehicles owned, in the order of the game's list.
    pub fn vehicle_numbers(&self) -> (numbers: Vec<u32>)
        ensures
            numbers@ == self.spec_vehicle_numbers(),
    {
        let mut numbers: Vec<u32> = Vec::new();
        let list = match self.items.vehicles.deref::<
            RemotePtr<RemoteList<RemotePtr<OwnedTransportationData>>>,
            R,
        >(self.reader) {
            Ok(list) => list,
            Err(_) => {
                return numbers;
            },
        };
        let mut walk = match list.iter(self.reader) {
            Some(walk) => walk,
            None => {
                return numbers;
            },
        };
        let ghost all = walk.rest();
        let ghost mut passed: Seq<RemotePtr<OwnedTransportationData>> = Seq::empty();
        loop
            invariant
                passed + walk.rest() == all,
                numbers@ == vehicle_numbers(self.reader, &self.items, passed),
                self.spec_vehicle_numbers() == vehicle_numbers(self.reader, &self.items, all),
            decreases walk.rest().len(),
        {
            let vehicle = match walk.next() {
                Some(vehicle) => vehicle,
                None => {
                    return numbers;
                },
            };
            proof {
                assert(passed.push(vehicle).drop_last() =~= passed);
                passed = passed.push(vehicle);
            }
            let owned = self.items.transport_data.read(self.reader, vehicle.address());
            if let Some(owned) = owned {
                let saved = self.items.save_transport.read(self.reader, owned.data.address());
                if let Some(saved) = saved {
                    if saved.map_id >= 0 {
                        numbers.push(saved.id);
                    }
                }
            }
        }
    }

    /// The vehicles owned, in the order of the game's list.
    pub fn vehicle_ids(&self) -> (items: Vec<Item>)
        ensures
            items@ == known_items(self.spec_vehicle_numbers()),
    {
        items_of(&self.vehicle_numbers())
    }

    /// The map the party stands on, where its number can be read and is one the tracker knows.
    pub open spec fn spec_location(&self) -> Option<Location> {
        match self.user.map_id.target::<u32, R>(self.reader) {
            Ok(number) => Location::of(number),
            Err(_) => None,
        }
    }

    /// The map the party stands on, where its number can be read and is one the tracker knows.
    #[verifier::when_used_as_spec(spec_location)]
    pub fn location(&self) -> (location: Option<Location>)
        ensures
            location == self.spec_location(),
    {
        match self.user.map_id.deref::<u32, R>(self.reader) {
            Ok(number) => match Location::try_from_primitive(number) {
                Ok(location) => Some(location),
                Err(_) => None,
            },
            Err(_) => None,
        }
    }

    /// Whether the screen is fading out: `false` where that cannot be read.
    pub open spec fn spec_has_fade_out(&self) -> bool {
        match self.new_game.fade_out_finish.target::<u64, R>(self.reader) {
            Ok(callback) => callback != 0,
            Err(_) => false,
        }
    }

    /// Whether the screen is fading out: `false` where that cannot be read.
    #[verifier::when_used_as_spec(spec_has_fade_out)]
    pub fn has_fade_out(&self) -> (fading: bool)
        ensures
            fading == self.spec_has_fade_out(),
    {
        match self.new_game.fade_out_finish.deref::<u64, R>(self.reader) {
            Ok(callback) => callback != 0,
            Err(_) => false,
        }
    }

    /// One sample of the running game, as the memory shows it now: the battle's signals first,
    /// `active`, then `subphase`, then the outcome, then the encounter, and the inventory last,
    /// the key items before the vehicles.
    pub open spec fn spec_world(&self) -> WorldView {
        WorldView {
            active: self.spec_battle_active(),
            subphase: self.spec_battle_playing(),
            outcome: self.spec_battle_result(),
            identity: self.spec_encounter_id(),
            key_items: self.spec_key_item_numbers(),
            vehicles: self.spec_vehicle_numbers(),
        }
    }

    /// Takes one sample of the running game, each part read in the order given above.
    pub fn world(&self) -> (world: RemoteWorld)
        ensures
            world@ == self.spec_world(),
    {
        RemoteWorld {
            active: self.battle_active(),
            subphase: self.battle_playing(),
            outcome: self.battle_result(),
            identity: self.encounter_id(),
            key_items: self.key_item_numbers(),
            vehicles: self.vehicle_numbers(),
        }
    }
}

} // verus!
