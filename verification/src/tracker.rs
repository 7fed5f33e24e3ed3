//! One tick of the tracker: the title screen until a run starts, then the run's splits.

use crate::data::{Location, Monster};
use crate::enum_set::EnumSet;
use crate::game::{Event, WorldView};
use crate::memory::MemReader;
use crate::sampling::Data;
use crate::settings::{BattleSplit, SplitOn};
use crate::splits::{progress_step, Action, Progress, ProgressState};
use crate::watcher::{next_pair, Pair, Watcher};
use core::ops::ControlFlow;
use vstd::prelude::*;

verus! {

/// What the timer is doing.
#[derive(Copy, Clone, Debug, PartialEq, Eq, Structural)]
pub enum TimerState {
    /// The timer has not been started, or was reset.
    NotRunning,
    /// The timer runs.
    Running,
    /// The timer was started and is halted for now.
    Paused,
    /// The run is over.
    Ended,
    /// The timer is in a state that the tracker does not know.
    Unknown,
}

/// The splits that were reported in this run.
pub type SeenSplits = EnumSet<SplitOn>;

/// Watches the title screen for the start of a new game.
#[derive(Debug)]
pub struct Title {
    fade_out: Watcher<bool>,
}

impl View for Title {
    type V = Option<Pair<bool>>;

    closed spec fn view(&self) -> Option<Pair<bool>> {
        self.fade_out.pair
    }
}

impl Title {
    /// A title screen of which nothing was seen yet.
    pub fn new() -> (title: Self)
        ensures
            title@ is None,
    {
        Title { fade_out: Watcher::new() }
    }

    /// Takes a sample of the fade-out and says whether one has just begun: that is how a new
    /// game begins.
    pub fn new_game<R: MemReader>(&mut self, data: &Data<R>) -> (begun: bool)
        ensures
            final(self)@ == Some(next_pair(old(self)@, data.has_fade_out())),
            begun == next_pair(old(self)@, data.has_fade_out()).changed_to(&true),
    {
        let fade_out = self.fade_out.update(data.has_fade_out());
        fade_out.changed_to(&true)
    }
}

/// The split that an event stands for. A battle counts as over where the runner has said so:
/// with its death animation, or when it has faded out. The last boss always counts with its
/// death animation.
pub open spec fn split_of(event: Event, battle_split: BattleSplit) -> Option<SplitOn> {
    match event {
        Event::ActivityEnded { identity } => if battle_split == BattleSplit::BattleEnd {
            Some(SplitOn::from_monster(identity))
        } else {
            None
        },
        Event::ActivityConcluded { identity } => if battle_split == BattleSplit::DeathAnimation
            || identity == Monster::Chaos {
            Some(SplitOn::from_monster(identity))
        } else {
            None
        },
        Event::Pickup { item } => Some(SplitOn::from_item(item)),
    }
}

/// What a [`Splits`] knows: the run, the last two samples of the map, and the ordinals of the
/// splits already reported.
#[verifier::ext_equal]
pub struct SplitsState {
    pub progress: ProgressState,
    pub location: Option<Pair<Location>>,
    pub seen: Set<u8>,
}

impl SplitsState {
    /// Nothing sampled, nothing reported.
    pub open spec fn initial() -> SplitsState {
        SplitsState { progress: ProgressState::initial(), location: None, seen: Set::empty() }
    }
}

/// The map's part of a tick: a map that could be read is taken in, and the walk from the map
/// before to this one is reported if it has a split. A map that could not be read changes
/// nothing.
pub open spec fn field_step(before: Option<Pair<Location>>, sample: Option<Location>) -> (
    Option<Pair<Location>>,
    Option<SplitOn>,
) {
    match sample {
        Some(location) => {
            let pair = next_pair(before, location);
            (Some(pair), SplitOn::travel(pair.old, pair.current))
        },
        None => (before, None),
    }
}

/// The split that a tick finds. The run is polled first. An event of the run decides the tick:
/// its split is found, or nothing where the runner's choice rules the event out, and the map is
/// not looked at. Only a tick without an event looks at the map.
pub open spec fn split_step(
    before: SplitsState,
    world: WorldView,
    location: Option<Location>,
    battle_split: BattleSplit,
) -> (SplitsState, Option<SplitOn>) {
    let (progress, event) = progress_step(before.progress, world);
    match event {
        Some(event) => (SplitsState { progress, ..before }, split_of(event, battle_split)),
        None => {
            let (location, split) = field_step(before.location, location);
            (SplitsState { progress, location, ..before }, split)
        },
    }
}

/// The split that a tick reports: the one it finds, unless that one was reported before.
pub open spec fn check_step(
    before: SplitsState,
    world: WorldView,
    location: Option<Location>,
    battle_split: BattleSplit,
) -> (SplitsState, Option<SplitOn>) {
    let (found, split) = split_step(before, world, location, battle_split);
    match split {
        Some(split) => (
            SplitsState { seen: found.seen.insert(split.index()), ..found },
            if found.seen.contains(split.index()) {
                None
            } else {
                Some(split)
            },
        ),
        None => (found, None),
    }
}

/// The splits of one run.
pub struct Splits {
    progress: Progress,
    location: Watcher<Location>,
    seen: SeenSplits,
}

impl View for Splits {
    type V = SplitsState;

    closed spec fn view(&self) -> SplitsState {
        SplitsState { progress: self.progress@, location: self.location.pair, seen: self.seen@ }
    }
}

impl Splits {
    /// A run of which nothing is known yet.
    pub fn new() -> (splits: Self)
        ensures
            splits@ == SplitsState::initial(),
    {
        Splits { progress: Progress::new(), location: Watcher::new(), seen: SeenSplits::empty() }
    }

    /// Polls the game and reports the split of this tick, if there is one and it was not
    /// reported before.
    pub fn check<R: MemReader>(&mut self, data: &Data<R>, split: BattleSplit) -> (reported: Option<
        SplitOn,
    >)
        ensures
            (final(self)@, reported) == check_step(
                old(self)@,
                data.spec_world(),
                data.location(),
                split,
            ),
    {
        let split = match self.split_check(data, split) {
            Some(split) => split,
            None => {
                return None;
            },
        };
        if self.seen.insert(&split) {
            Some(split)
        } else {
            None
        }
    }

    /// Polls the game and finds the split of this tick, reported before or not.
    pub fn split_check<R: MemReader>(&mut self, data: &Data<R>, split: BattleSplit) -> (found: Option<
        SplitOn,
    >)
        ensures
            (final(self)@, found) == split_step(
                old(self)@,
                data.spec_world(),
                data.location(),
                split,
            ),
    {
        match self.progress.running(data) {
            Some(Event::ActivityEnded { identity }) => {
                if split == BattleSplit::BattleEnd {
                    Some(SplitOn::from_monster(identity))
                } else {
                    None
                }
            },
            Some(Event::ActivityConcluded { identity }) => {
                // Chaos is always split on animation
                if split == BattleSplit::DeathAnimation || identity == Monster::Chaos {
                    Some(SplitOn::from_monster(identity))
                } else {
                    None
                }
            },
            Some(Event::Pickup { item }) => Some(SplitOn::from_item(item)),
            None => self.field_check(data),
        }
    }

    /// The map's part of [`split_check`](Self::split_check).
    pub fn field_check<R: MemReader>(&mut self, data: &Data<R>) -> (found: Option<SplitOn>)
        ensures
            final(self)@.progress == old(self)@.progress,
            final(self)@.seen == old(self)@.seen,
            (final(self)@.location, found) == field_step(old(self)@.location, data.location()),
    {
        let location = match data.location() {
            Some(location) => location,
            None => {
                return None;
            },
        };
        let location = self.location.update(location);
        SplitOn::from_watcher(&location)
    }
}

/// What the tracker is doing.
pub enum State {
    /// No run is under way: the title screen is watched.
    NotRunning(Title),
    /// A run is under way.
    Running(Splits),
}

/// A [`State`] as plain values.
#[verifier::ext_equal]
pub enum StateView {
    NotRunning(Option<Pair<bool>>),
    Running(SplitsState),
}

impl View for State {
    type V = StateView;

    open spec fn view(&self) -> StateView {
        match self {
            State::NotRunning(title) => StateView::NotRunning(title@),
            State::Running(splits) => StateView::Running(splits@),
        }
    }
}

/// One tick. The tracker follows the timer: where the timer runs and the tracker does not, or
/// the other way round, the tracker changes over, starts afresh and asks to be run again at
/// once. Where neither runs, the title screen is sampled and the start of a new game starts
/// both. Where both run, the game is polled and its split, if any, is handed on. A timer that
/// is halted, over or unknown leaves everything as it is.
pub open spec fn main_step(
    before: StateView,
    timer: TimerState,
    fade_out: bool,
    world: WorldView,
    location: Option<Location>,
    battle_split: BattleSplit,
) -> (StateView, ControlFlow<Action>) {
    match (before, timer) {
        (StateView::NotRunning(_), TimerState::Running) => (
            StateView::Running(SplitsState::initial()),
            ControlFlow::Continue(()),
        ),
        (StateView::NotRunning(title), TimerState::NotRunning) => {
            let fade = next_pair(title, fade_out);
            if fade.changed_to(&true) {
                (StateView::Running(SplitsState::initial()), ControlFlow::Break(Action::Start))
            } else {
                (StateView::NotRunning(Some(fade)), ControlFlow::Break(Action::Nothing))
            }
        },
        (StateView::Running(_), TimerState::NotRunning) => (
            StateView::NotRunning(None),
            ControlFlow::Continue(()),
        ),
        (StateView::Running(splits), TimerState::Running) => {
            let (after, split) = check_step(splits, world, location, battle_split);
            (
                StateView::Running(after),
                match split {
                    Some(split) => ControlFlow::Break(Action::Split(split)),
                    None => ControlFlow::Break(Action::Nothing),
                },
            )
        },
        _ => (before, ControlFlow::Break(Action::Nothing)),
    }
}

/// Runs one tick: reads what the tick needs, changes `state`, and says what the timer is to
/// be told. `Continue` asks for the next tick at once, without a word to the timer.
pub fn main_loop<R: MemReader>(
    data: &Data<R>,
    state: &mut State,
    timer: TimerState,
    battle_split: BattleSplit,
) -> (flow: ControlFlow<Action>)
    ensures
        (final(state)@, flow) == main_step(
            old(state)@,
            timer,
            data.has_fade_out(),
            data.spec_world(),
            data.location(),
            battle_split,
        ),
{
    match state {
        State::NotRunning(title) => match timer {
            TimerState::Running => {
                *state = State::Running(Splits::new());
                return ControlFlow::Continue(());
            },
            TimerState::NotRunning => {
                if title.new_game(data) {
                    *state = State::Running(Splits::new());
                    return ControlFlow::Break(Action::Start);
                }
            },
            _ => {},
        },
        State::Running(splits) => match timer {
            TimerState::NotRunning => {
                *state = State::NotRunning(Title::new());
                return ControlFlow::Continue(());
            },
            TimerState::Running => {
                if let Some(split) = splits.check(data, battle_split) {
                    return ControlFlow::Break(Action::Split(split));
                }
            },
            _ => {},
        },
    };
    ControlFlow::Break(Action::Nothing)
}

} // verus!
