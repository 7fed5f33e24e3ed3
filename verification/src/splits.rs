//! One poll of a running game: the delayed report of the last battle, then the game itself.

use crate::data::Monster;
use crate::game::{game_step, Event, Game, GameState, RemoteWorld, WorldView};
use crate::memory::MemReader;
use crate::sampling::Data;
use crate::settings::SplitOn;
use vstd::prelude::*;

verus! {

/// What the timer is told after a tick.
#[derive(Copy, Clone, Debug, PartialEq, Eq, Structural)]
pub enum Action {
    /// Leave the timer alone.
    Nothing,
    /// Start the timer.
    Start,
    /// End the running segment.
    Split(SplitOn),
}

/// What a [`Delayed`] holds: the polls left until it reports, none when it is idle, and the
/// event it was last given.
pub struct DelayedState {
    pub remaining: nat,
    pub payload: Option<Event>,
}

impl DelayedState {
    /// A countdown is under way.
    pub open spec fn pending(self) -> bool {
        self.remaining > 0
    }

    /// The state one poll later.
    pub open spec fn ticked(self) -> DelayedState {
        if self.remaining == 0 {
            self
        } else if self.remaining == 1 {
            DelayedState { remaining: 0, payload: None }
        } else {
            DelayedState { remaining: (self.remaining - 1) as nat, payload: self.payload }
        }
    }

    /// What the poll that leads to [`ticked`](Self::ticked) reports: the payload when the
    /// countdown ends with it, nothing otherwise.
    pub open spec fn fires(self) -> Option<Event> {
        if self.remaining == 1 {
            self.payload
        } else {
            None
        }
    }
}

/// An event that is to be reported a number of polls after it happened.
#[derive(Debug)]
pub struct Delayed {
    delay: Option<u32>,
    action: Option<Event>,
}

impl View for Delayed {
    type V = DelayedState;

    closed spec fn view(&self) -> DelayedState {
        DelayedState {
            remaining: match self.delay {
                Some(n) => n as nat,
                None => 0,
            },
            payload: self.action,
        }
    }
}

impl Delayed {
    #[verifier::type_invariant]
    spec fn inv(&self) -> bool {
        self.delay matches Some(n) ==> n > 0 && self.action is Some
    }

    /// Nothing pending, nothing held.
    pub fn new() -> (idle: Self)
        ensures
            idle@ == (DelayedState { remaining: 0, payload: None }),
    {
        Delayed { delay: None, action: None }
    }

    /// Whether a countdown is under way.
    pub fn pending(&self) -> (pending: bool)
        ensures
            pending == self@.pending(),
            pending ==> self@.payload is Some,
    {
        proof {
            use_type_invariant(self);
        }
        self.delay.is_some()
    }

    /// Arms the countdown: `action` is reported by the `amount`-th [`tick`](Self::tick) from
    /// now. With `amount` 0 the countdown is over before it starts and nothing is ever reported.
    /// Only an idle countdown may be armed: a second arming would lose the event that waits.
    pub fn set(&mut self, amount: u32, action: Event)
        requires
            !old(self)@.pending(),
        ensures
            final(self)@ == (DelayedState { remaining: amount as nat, payload: Some(action) }),
    {
        proof {
            use_type_invariant(&*self);
        }
        self.action = Some(action);
        self.delay = if amount > 0 {
            Some(amount)
        } else {
            None
        };
    }

    /// Counts one poll. The poll on which the countdown ends reports the event and leaves the
    /// countdown idle; every other poll reports nothing.
    pub fn tick(&mut self) -> (fired: Option<Event>)
        ensures
            final(self)@ == old(self)@.ticked(),
            fired == old(self)@.fires(),
            old(self)@.remaining == 1 ==> fired is Some,
    {
        proof {
            use_type_invariant(&*self);
        }
        let n: u32 = match self.delay {
            Some(n) => n,
            None => {
                return None;
            },
        };
        if n > 1 {
            self.delay = Some(n - 1);
            None
        } else {
            self.delay = None;
            let fired = self.action;
            self.action = None;
            fired
        }
    }
}

impl Default for Delayed {
    /// Nothing pending, nothing held.
    fn default() -> (idle: Self)
        ensures
            idle@ == (DelayedState { remaining: 0, payload: None }),
    {
        Delayed::new()
    }
}

/// The frames that the last boss takes to die after the winning blow.
pub const CHAOS_FRAMES: u32 = 113;

/// The frames the game shows in a second.
pub const GAME_FPS: u32 = 60;

/// The polls made in a second.
pub const TICK_RATE: u32 = 60;

/// The polls between the winning blow against the last boss and its report: the frames of its
/// death, in polls, rounded up.
pub const CHAOS_DELAY: u32 = (CHAOS_FRAMES * TICK_RATE + GAME_FPS - 1) / GAME_FPS;

/// The one event that is reported late: the win against the last boss.
pub open spec fn final_event() -> Event {
    Event::ActivityConcluded { identity: Monster::Chaos }
}

/// What a [`Progress`] knows: the game, and the countdown to the late report.
#[verifier::ext_equal]
pub struct ProgressState {
    pub game: GameState,
    pub chaos: DelayedState,
}

impl ProgressState {
    /// Nothing sampled, nothing pending.
    pub open spec fn initial() -> ProgressState {
        ProgressState {
            game: GameState::initial(),
            chaos: DelayedState { remaining: 0, payload: None },
        }
    }
}

/// What a poll makes of its sample once the countdown has moved on: the game takes the sample,
/// and what it reports is passed on, but for the win against the last boss. That arms the
/// countdown and is reported by it, [`CHAOS_DELAY`] polls later. While a countdown is under way
/// another such win changes nothing.
pub open spec fn absorb_step(ticked: ProgressState, world: WorldView) -> (ProgressState, Option<Event>) {
    let (game, event) = game_step(ticked.game, world);
    if event == Some(final_event()) {
        let armed = DelayedState { remaining: CHAOS_DELAY as nat, payload: event };
        (
            ProgressState {
                game,
                chaos: if ticked.chaos.pending() {
                    ticked.chaos
                } else {
                    armed
                },
            },
            None,
        )
    } else {
        (ProgressState { game, chaos: ticked.chaos }, event)
    }
}

/// One poll. A countdown that ends with this poll has the floor: its event is reported and the
/// sample is not looked at. Otherwise the countdown moves on and the sample is taken in.
pub open spec fn progress_step(before: ProgressState, world: WorldView) -> (
    ProgressState,
    Option<Event>,
) {
    if before.chaos.remaining == 1 {
        (ProgressState { game: before.game, chaos: before.chaos.ticked() }, before.chaos.payload)
    } else {
        absorb_step(ProgressState { game: before.game, chaos: before.chaos.ticked() }, world)
    }
}

/// A run in progress: the game, and the late report of its last battle.
pub struct Progress {
    game: Game,
    chaos: Delayed,
}

impl View for Progress {
    type V = ProgressState;

    closed spec fn view(&self) -> ProgressState {
        ProgressState { game: self.game@, chaos: self.chaos@ }
    }
}

impl Progress {
    /// A run of which nothing is known yet.
    pub fn new() -> (progress: Self)
        ensures
            progress@ == ProgressState::initial(),
    {
        Progress { game: Game::new(), chaos: Delayed::new() }
    }

    /// One poll on a sample that was taken already: reports the event of this poll, if there
    /// is one.
    pub fn poll(&mut self, world: &RemoteWorld) -> (event: Option<Event>)
        ensures
            (final(self)@, event) == progress_step(old(self)@, world@),
    {
        if let Some(event) = self.chaos.tick() {
            return Some(event);
        }
        self.absorb(world)
    }

    /// One poll of the game itself: like [`poll`](Self::poll), on the sample that the game
    /// shows now. The game is read only where the sample is looked at: on the poll that
    /// reports the countdown's event nothing is read.
    pub fn running<R: MemReader>(&mut self, data: &Data<R>) -> (event: Option<Event>)
        ensures
            (final(self)@, event) == progress_step(old(self)@, data.spec_world()),
    {
        if let Some(event) = self.chaos.tick() {
            return Some(event);
        }
        let world = data.world();
        self.absorb(&world)
    }

    /// Hands the sample to the game, and its win against the last boss to the countdown.
    fn absorb(&mut self, world: &RemoteWorld) -> (event: Option<Event>)
        ensures
            (final(self)@, event) == absorb_step(old(self)@, world@),
    {
        match self.game.running(world) {
            Some(Event::ActivityConcluded { identity: Monster::Chaos }) => {
                if !self.chaos.pending() {
                    self.chaos.set(
                        CHAOS_DELAY,
                        Event::ActivityConcluded { identity: Monster::Chaos },
                    );
                }
                None
            },
            event => event,
        }
    }
}

} // verus!
