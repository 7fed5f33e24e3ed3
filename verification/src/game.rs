//! The battle and inventory state machine: what one sample of the game adds to what is known,
//! and which single event it amounts to.

use crate::data::{BattleResult, Item, Monster};
use crate::seen::{seen_ids, seen_insert, seen_new};
use crate::watcher::{next_pair, Pair, Watcher};
use ahash::AHashSet;
use vstd::prelude::*;

verus! {

/// What a poll can report.
#[derive(Copy, Clone, Debug, PartialEq, Eq, Structural)]
pub enum Event {
    /// The battle against `identity` is over and has faded out.
    ActivityEnded { identity: Monster },
    /// The battle against `identity` was won: its death animation has started.
    ActivityConcluded { identity: Monster },
    /// `item` is in the inventory for the first time.
    Pickup { item: Item },
}

/// One sample of the game, taken at one tick: the three signals of the battle, the encounter,
/// and what the party holds. A value that could not be read is not left out: it is sampled as
/// `false`, as `Unknown`, as `None` or as an empty list.
#[derive(Clone, Debug)]
pub struct RemoteWorld {
    /// A battle is under way.
    pub active: bool,
    /// The battle is still being fought: this falls when its outcome is settled.
    pub subphase: bool,
    /// The outcome the game has recorded for the battle.
    pub outcome: BattleResult,
    /// The number of the encounter, where it could be read.
    pub identity: Option<u32>,
    /// The numbers of the key items held, in the order in which the game's table yields them.
    pub key_items: Vec<u32>,
    /// The numbers of the vehicles held, in the order of the game's list.
    pub vehicles: Vec<u32>,
}

/// A [`RemoteWorld`] as plain values.
#[verifier::ext_equal]
pub struct WorldView {
    pub active: bool,
    pub subphase: bool,
    pub outcome: BattleResult,
    pub identity: Option<u32>,
    pub key_items: Seq<u32>,
    pub vehicles: Seq<u32>,
}

impl View for RemoteWorld {
    type V = WorldView;

    open spec fn view(&self) -> WorldView {
        WorldView {
            active: self.active,
            subphase: self.subphase,
            outcome: self.outcome,
            identity: self.identity,
            key_items: self.key_items@,
            vehicles: self.vehicles@,
        }
    }
}

/// Where the tracker stands between battles.
#[derive(Copy, Clone, Debug, PartialEq, Eq, Structural)]
pub enum Phase {
    /// No battle has been seen to start.
    Idle,
    /// A battle was seen to start; `identity` is the encounter sampled at that moment, if it was
    /// one the tracker knows.
    ActivityInProgress { identity: Option<Monster> },
    /// The last battle was seen to end.
    ActivityEnded,
}

impl Phase {
    /// The encounter of the battle under way, where one was recorded.
    pub open spec fn identity(self) -> Option<Monster> {
        match self {
            Phase::ActivityInProgress { identity } => identity,
            _ => None,
        }
    }
}

/// What a [`Game`] knows: the last two samples of each watched signal, the phase, and the
/// numbers of the items already reported.
#[verifier::ext_equal]
pub struct GameState {
    pub active: Option<Pair<bool>>,
    pub subphase: Option<Pair<bool>>,
    pub outcome: Option<Pair<BattleResult>>,
    pub phase: Phase,
    pub items: Set<u32>,
}

impl GameState {
    /// Nothing sampled, nothing reported.
    pub open spec fn initial() -> GameState {
        GameState {
            active: None,
            subphase: None,
            outcome: None,
            phase: Phase::Idle,
            items: Set::empty(),
        }
    }
}

/// The encounter that a sampled number names.
pub open spec fn identity_of(raw: Option<u32>) -> Option<Monster> {
    match raw {
        Some(number) => Monster::of(number),
        None => None,
    }
}

/// The battle's part of a poll. All three watchers take their sample. Then the edge of `active`
/// decides:
/// - false to true, the battle starts: the encounter is recorded, nothing is reported;
/// - true to false, the battle ends: the recorded encounter is reported as ended, unless
///   `subphase` fell in this same sample (the battle was reset), or the encounter is Chaos,
///   whose end is never reported;
/// - true and unchanged, with `subphase` falling and the outcome a win: the recorded encounter
///   is reported as concluded.
pub open spec fn battle_step(before: GameState, world: WorldView) -> (GameState, Option<Event>) {
    let active = next_pair(before.active, world.active);
    let subphase = next_pair(before.subphase, world.subphase);
    let outcome = next_pair(before.outcome, world.outcome);
    let started = active.changed_to(&true);
    let ended = active.changed_to(&false);
    let settled = subphase.changed_to(&false);
    let phase = if started {
        Phase::ActivityInProgress { identity: identity_of(world.identity) }
    } else if ended {
        Phase::ActivityEnded
    } else {
        before.phase
    };
    let event = if ended && !settled {
        match before.phase.identity() {
            Some(identity) if identity != Monster::Chaos => Some(Event::ActivityEnded { identity }),
            _ => None,
        }
    } else if active.current && active.unchanged() && settled && outcome.current
        == BattleResult::Win {
        match before.phase.identity() {
            Some(identity) => Some(Event::ActivityConcluded { identity }),
            None => None,
        }
    } else {
        None
    };
    (
        GameState {
            active: Some(active),
            subphase: Some(subphase),
            outcome: Some(outcome),
            phase,
            items: before.items,
        },
        event,
    )
}

/// The first number in `ids` that names an item and is not among `seen`, as that item.
pub open spec fn first_new(ids: Seq<u32>, seen: Set<u32>) -> Option<Item>
    decreases ids.len(),
{
    if ids.len() == 0 {
        None
    } else if Item::of(ids[0]) is Some && !seen.contains(ids[0]) {
        Item::of(ids[0])
    } else {
        first_new(ids.skip(1), seen)
    }
}

/// The item that a poll reports as picked up: the first new one among the key items, and only
/// where there is none, the first new one among the vehicles.
pub open spec fn new_pickup(world: WorldView, seen: Set<u32>) -> Option<Item> {
    match first_new(world.key_items, seen) {
        Some(item) => Some(item),
        None => first_new(world.vehicles, seen),
    }
}

/// The inventory's part of a poll: the new pickup, if there is one, is reported and from then
/// on counts as seen. Whatever else is new in this sample stays new.
pub open spec fn inventory_step(before: GameState, world: WorldView) -> (GameState, Option<Event>) {
    match new_pickup(world, before.items) {
        Some(item) => (
            GameState { items: before.items.insert(item.id()), ..before },
            Some(Event::Pickup { item }),
        ),
        None => (before, None),
    }
}

/// One poll of the game: the battle first, and the inventory only where the battle reports
/// nothing.
pub open spec fn game_step(before: GameState, world: WorldView) -> (GameState, Option<Event>) {
    let (watched, event) = battle_step(before, world);
    if event is Some {
        (watched, event)
    } else {
        inventory_step(watched, world)
    }
}

/// The state of one run of the game.
pub struct Game {
    active: Watcher<bool>,
    subphase: Watcher<bool>,
    outcome: Watcher<BattleResult>,
    phase: Phase,
    items: AHashSet<u32>,
}

impl View for Game {
    type V = GameState;

    closed spec fn view(&self) -> GameState {
        GameState {
            active: self.active.pair,
            subphase: self.subphase.pair,
            outcome: self.outcome.pair,
            phase: self.phase,
            items: seen_ids(self.items),
        }
    }
}

impl Game {
    /// A game of which nothing is known yet.
    pub fn new() -> (game: Self)
        ensures
            game@ == GameState::initial(),
    {
        Game {
            active: Watcher::new(),
            subphase: Watcher::new(),
            outcome: Watcher::new(),
            phase: Phase::Idle,
            items: seen_new(),
        }
    }

    /// Where the tracker stands between battles.
    pub fn phase(&self) -> (phase: Phase)
        ensures
            phase == self@.phase,
    {
        self.phase
    }

    /// Takes in one sample and reports the event it amounts to, if any.
    pub fn running(&mut self, world: &RemoteWorld) -> (event: Option<Event>)
        ensures
            (final(self)@, event) == game_step(old(self)@, world@),
    {
        if let Some(event) = self.battle_check(world) {
            return Some(event);
        }
        match self.inventory_check(world) {
            Some(item) => Some(Event::Pickup { item }),
            None => None,
        }
    }

    /// The battle's part of [`running`](Self::running).
    pub fn battle_check(&mut self, world: &RemoteWorld) -> (event: Option<Event>)
        ensures
            (final(self)@, event) == battle_step(old(self)@, world@),
    {
        let active = self.active.update(world.active);
        let subphase = self.subphase.update(world.subphase);
        let outcome = self.outcome.update(world.outcome);
        let recorded = match self.phase {
            Phase::ActivityInProgress { identity } => identity,
            _ => None,
        };

        if active.changed_to(&true) {
            let identity = match world.identity {
                Some(number) => match Monster::try_from_primitive(number) {
                    Ok(monster) => Some(monster),
                    Err(_) => None,
                },
                None => None,
            };
            self.phase = Phase::ActivityInProgress { identity };
            return None;
        }
        if active.changed_to(&false) {
            self.phase = Phase::ActivityEnded;
            if subphase.changed_to(&false) {
                return None;
            }
            return match recorded {
                Some(identity) => if identity != Monster::Chaos {
                    Some(Event::ActivityEnded { identity })
                } else {
                    None
                },
                None => None,
            };
        }
        if active.current && subphase.changed_to(&false) && outcome.current == BattleResult::Win {
            return match recorded {
                Some(identity) => Some(Event::ActivityConcluded { identity }),
                None => None,
            };
        }
        None
    }

    /// The inventory's part of [`running`](Self::running): the key items are looked through
    /// before the vehicles, each list in its own order.
    pub fn inventory_check(&mut self, world: &RemoteWorld) -> (pickup: Option<Item>)
        ensures
            pickup == new_pickup(world@, old(self)@.items),
            final(self)@ == inventory_step(old(self)@, world@).0,
    {
        if let Some(item) = self.find_new(&world.key_items) {
            return Some(item);
        }
        self.find_new(&world.vehicles)
    }

    /// Looks through `ids` for the first item that was not seen before, and marks it seen.
    fn find_new(&mut self, ids: &Vec<u32>) -> (found: Option<Item>)
        ensures
            found == first_new(ids@, old(self)@.items),
            final(self)@ == match found {
                Some(item) => GameState { items: old(self)@.items.insert(item.id()), ..old(self)@ },
                None => old(self)@,
            },
    {
        let ghost seen = self@.items;
        let mut at: usize = 0;
        assert(ids@.skip(0) =~= ids@);
        while at < ids.len()
            invariant
                at <= ids.len(),
                self@ == old(self)@,
                seen == old(self)@.items,
                first_new(ids@, seen) == first_new(ids@.skip(at as int), seen),
            decreases ids.len() - at,
        {
            let id: u32 = ids[at];
            assert(ids@.skip(at as int).skip(1) =~= ids@.skip(at + 1));
            match Item::try_from_primitive(id) {
                Ok(item) => {
                    if seen_insert(&mut self.items, id) {
                        return Some(item);
                    }
                },
                Err(_) => {},
            }
            at += 1;
        }
        None
    }
}

} // verus!
