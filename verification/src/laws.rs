//! What holds of every run, whatever the game's memory shows.

use crate::data::{BattleResult, Item, Location, Monster};
use crate::game::{game_step, new_pickup, first_new, Event, GameState, WorldView};
use crate::settings::{BattleSplit, SplitOn};
use crate::splits::{final_event, progress_step, DelayedState, ProgressState, CHAOS_DELAY};
use crate::tracker::{check_step, SplitsState};
use vstd::prelude::*;

verus! {

/// The state after polling each of `worlds` in turn.
pub open spec fn state_after(start: ProgressState, worlds: Seq<WorldView>) -> ProgressState
    decreases worlds.len(),
{
    if worlds.len() == 0 {
        start
    } else {
        progress_step(state_after(start, worlds.drop_last()), worlds.last()).0
    }
}

/// What poll number `at` of `worlds` reports, counting from 0.
pub open spec fn event_at(start: ProgressState, worlds: Seq<WorldView>, at: int) -> Option<Event> {
    progress_step(state_after(start, worlds.take(at)), worlds[at]).1
}

/// The signal was up in the sample before and is down in this one.
pub open spec fn fell(before: bool, now: bool) -> bool {
    before && !now
}

/// A countdown that is due reports its event whatever the sample shows, and the sample is not
/// taken in: the game's state stays as it was.
pub proof fn due_countdown_has_the_floor(before: ProgressState, world: WorldView)
    requires
        before.chaos.remaining == 1,
    ensures
        progress_step(before, world).1 == before.chaos.payload,
        progress_step(before, world).0.game == before.game,
        !progress_step(before, world).0.chaos.pending(),
{
}

/// A poll on which no countdown is due takes its sample: the three watchers then hold it as
/// their latest.
pub proof fn poll_takes_its_sample(before: ProgressState, world: WorldView)
    requires
        before.chaos.remaining != 1,
    ensures
        ({
            let after = progress_step(before, world).0.game;
            &&& after.active matches Some(pair) && pair.current == world.active
            &&& after.subphase matches Some(pair) && pair.current == world.subphase
            &&& after.outcome matches Some(pair) && pair.current == world.outcome
        }),
{
}

/// Of two polls in a row that both take their sample, the second reports the end of a battle
/// only if `active` fell between the two samples and `subphase` did not fall with it. Where the
/// encounter was recorded and is not the last boss, it reports that end if and only if so, and
/// for the recorded encounter.
pub proof fn activity_ended_iff_active_fell_alone(
    before: ProgressState,
    first: WorldView,
    second: WorldView,
)
    requires
        before.chaos.remaining != 1,
        progress_step(before, first).0.chaos.remaining != 1,
    ensures
        ({
            let between = progress_step(before, first).0;
            let event = progress_step(between, second).1;
            let alone = fell(first.active, second.active) && !fell(first.subphase, second.subphase);
            &&& event matches Some(Event::ActivityEnded { .. }) ==> alone
            &&& between.game.phase.identity() matches Some(identity) ==> identity != Monster::Chaos
                ==> (event == Some(Event::ActivityEnded { identity }) <==> alone)
        }),
{
}

/// Of two polls in a row that both take their sample: where `active` stays up, `subphase` falls
/// with the outcome a win, and the recorded encounter is not the last boss, the second poll
/// reports that encounter as concluded.
pub proof fn win_is_reported_on_its_poll(
    before: ProgressState,
    first: WorldView,
    second: WorldView,
    identity: Monster,
)
    requires
        before.chaos.remaining != 1,
        progress_step(before, first).0.chaos.remaining != 1,
        first.active && second.active,
        fell(first.subphase, second.subphase),
        second.outcome == BattleResult::Win,
        progress_step(before, first).0.game.phase.identity() == Some(identity),
        identity != Monster::Chaos,
    ensures
        progress_step(progress_step(before, first).0, second).1 == Some(
            Event::ActivityConcluded { identity },
        ),
{
}

/// The same win against the last boss is not reported on its poll: it arms the countdown, if
/// none is under way.
pub proof fn final_win_arms_the_countdown(
    before: ProgressState,
    first: WorldView,
    second: WorldView,
)
    requires
        before.chaos.remaining != 1,
        !progress_step(before, first).0.chaos.pending(),
        first.active && second.active,
        fell(first.subphase, second.subphase),
        second.outcome == BattleResult::Win,
        progress_step(before, first).0.game.phase.identity() == Some(Monster::Chaos),
    ensures
        progress_step(progress_step(before, first).0, second).1 is None,
        progress_step(progress_step(before, first).0, second).0.chaos == (DelayedState {
            remaining: CHAOS_DELAY as nat,
            payload: Some(final_event()),
        }),
        CHAOS_DELAY == 113,
{
}

/// While a countdown is under way and not yet due, a poll leaves it one shorter and never
/// reports the win against the last boss.
proof fn countdown_moves_on(before: ProgressState, world: WorldView)
    requires
        before.chaos.remaining > 1,
    ensures
        progress_step(before, world).1 != Some(final_event()),
        progress_step(before, world).0.chaos == (DelayedState {
            remaining: (before.chaos.remaining - 1) as nat,
            payload: before.chaos.payload,
        }),
{
}

/// The state that a countdown has reached after `at` of its polls, none of which reported the
/// win against the last boss.
proof fn countdown_runs_down(armed: ProgressState, worlds: Seq<WorldView>, at: int)
    requires
        armed.chaos.remaining == worlds.len(),
        armed.chaos.payload == Some(final_event()),
        0 <= at < worlds.len(),
    ensures
        state_after(armed, worlds.take(at)).chaos == (DelayedState {
            remaining: (worlds.len() - at) as nat,
            payload: Some(final_event()),
        }),
        forall|earlier: int| 0 <= earlier < at ==> event_at(armed, worlds, earlier) != Some(final_event()),
    decreases at,
{
    if at > 0 {
        countdown_runs_down(armed, worlds, at - 1);
        let so_far = worlds.take(at);
        assert(so_far.drop_last() =~= worlds.take(at - 1));
        countdown_moves_on(state_after(armed, worlds.take(at - 1)), worlds[at - 1]);
    }
}

/// A countdown armed with `worlds.len()` polls to go reports the win against the last boss on
/// the last of these polls, on none before it, and is idle afterwards: whatever the samples
/// show.
pub proof fn countdown_fires_on_schedule(armed: ProgressState, worlds: Seq<WorldView>)
    requires
        worlds.len() > 0,
        armed.chaos.remaining == worlds.len(),
        armed.chaos.payload == Some(final_event()),
    ensures
        forall|at: int| 0 <= at < worlds.len() - 1 ==> event_at(armed, worlds, at) != Some(final_event()),
        event_at(armed, worlds, worlds.len() - 1) == Some(final_event()),
        !state_after(armed, worlds).chaos.pending(),
{
    let last = worlds.len() - 1;
    countdown_runs_down(armed, worlds, last);
}

/// In a run of polls: where poll `at` and the poll before it both take their sample, poll `at`
/// reports the end of a battle only if `active` fell between the two samples and `subphase`
/// did not fall with it.
pub proof fn activity_ended_in_a_run(start: ProgressState, worlds: Seq<WorldView>, at: int)
    requires
        1 <= at < worlds.len(),
        state_after(start, worlds.take(at - 1)).chaos.remaining != 1,
        state_after(start, worlds.take(at)).chaos.remaining != 1,
    ensures
        event_at(start, worlds, at) matches Some(Event::ActivityEnded { .. }) ==> fell(
            worlds[at - 1].active,
            worlds[at].active,
        ) && !fell(worlds[at - 1].subphase, worlds[at].subphase),
{
    let before = state_after(start, worlds.take(at - 1));
    assert(worlds.take(at).drop_last() =~= worlds.take(at - 1));
    activity_ended_iff_active_fell_alone(before, worlds[at - 1], worlds[at]);
}

/// The win against the last boss is reported [`CHAOS_DELAY`] polls after the poll that saw it:
/// not by that poll, by none of the polls between, and whatever these polls are shown.
pub proof fn final_win_is_reported_after_the_delay(
    before: ProgressState,
    first: WorldView,
    second: WorldView,
    later: Seq<WorldView>,
)
    requires
        before.chaos.remaining != 1,
        !progress_step(before, first).0.chaos.pending(),
        first.active && second.active,
        fell(first.subphase, second.subphase),
        second.outcome == BattleResult::Win,
        progress_step(before, first).0.game.phase.identity() == Some(Monster::Chaos),
        later.len() == CHAOS_DELAY,
    ensures
        ({
            let armed = progress_step(progress_step(before, first).0, second).0;
            &&& progress_step(progress_step(before, first).0, second).1 is None
            &&& forall|at: int|
                0 <= at < CHAOS_DELAY - 1 ==> event_at(armed, later, at) != Some(final_event())
            &&& event_at(armed, later, CHAOS_DELAY - 1) == Some(final_event())
            &&& !state_after(armed, later).chaos.pending()
        }),
{
    final_win_arms_the_countdown(before, first, second);
    countdown_fires_on_schedule(progress_step(progress_step(before, first).0, second).0, later);
}

/// Polling the same sample a second time reports nothing of the battle. The second poll
/// reports the countdown's event where that is due, else nothing but a pickup, and no pickup
/// either where the first poll left nothing new in the sample. So it never reports again what
/// the first poll reported, and reports nothing at all where the game had no event for the
/// first.
pub proof fn same_sample_again(before: ProgressState, world: WorldView)
    requires
        before.chaos.remaining != 1,
    ensures
        ({
            let first = progress_step(before, world).1;
            let between = progress_step(before, world).0;
            let again = progress_step(between, world).1;
            &&& between.chaos.remaining == 1 ==> again == between.chaos.payload
            &&& between.chaos.remaining != 1 ==> {
                &&& again == match new_pickup(world, between.game.items) {
                    Some(item) => Some(Event::Pickup { item }),
                    None => None,
                }
                &&& first is Some ==> again != first
                &&& game_step(before.game, world).1 is None ==> again is None
            }
        }),
{
    pickup_is_new(before.game, world);
    pickup_is_new(progress_step(before, world).0.game, world);
}

/// What `first_new` finds is in the list, names the item found, and was not seen; a list in
/// which nothing is found holds no item that was not seen.
pub proof fn first_new_is_the_first(ids: Seq<u32>, seen: Set<u32>)
    ensures
        match first_new(ids, seen) {
            Some(item) => exists|at: int|
                {
                    &&& 0 <= at < ids.len()
                    &&& #[trigger] ids[at] == item.id()
                    &&& !seen.contains(ids[at])
                    &&& forall|earlier: int|
                        0 <= earlier < at ==> Item::of(#[trigger] ids[earlier]) is None
                            || seen.contains(ids[earlier])
                },
            None => forall|at: int|
                0 <= at < ids.len() ==> Item::of(#[trigger] ids[at]) is None || seen.contains(ids[at]),
        },
    decreases ids.len(),
{
    if ids.len() > 0 {
        Item::of_is_exact(ids[0]);
        if Item::of(ids[0]) is None || seen.contains(ids[0]) {
            let rest = ids.skip(1);
            first_new_is_the_first(rest, seen);
            assert forall|at: int| 0 <= at < rest.len() implies rest[at] == ids[at + 1] by {}
            match first_new(rest, seen) {
                Some(item) => {
                    let at = choose|at: int|
                        {
                            &&& 0 <= at < rest.len()
                            &&& #[trigger] rest[at] == item.id()
                            &&& !seen.contains(rest[at])
                            &&& forall|earlier: int|
                                0 <= earlier < at ==> Item::of(#[trigger] rest[earlier]) is None
                                    || seen.contains(rest[earlier])
                        };
                    assert forall|earlier: int| 0 <= earlier < at + 1 implies Item::of(
                        #[trigger] ids[earlier],
                    ) is None || seen.contains(ids[earlier]) by {
                        if earlier > 0 {
                            assert(rest[earlier - 1] == ids[earlier]);
                        }
                    }
                },
                None => {
                    assert forall|at: int| 0 <= at < ids.len() implies Item::of(#[trigger] ids[at])
                        is None || seen.contains(ids[at]) by {
                        if at > 0 {
                            assert(rest[at - 1] == ids[at]);
                        }
                    }
                },
            }
        }
    }
}

/// An item is picked up once: the poll that reports it had not seen it and leaves it seen, and
/// nothing that was seen is ever forgotten.
pub proof fn pickup_is_new(before: GameState, world: WorldView)
    ensures
        game_step(before, world).1 matches Some(Event::Pickup { item }) ==> {
            &&& !before.items.contains(item.id())
            &&& game_step(before, world).0.items.contains(item.id())
        },
        before.items.subset_of(game_step(before, world).0.items),
{
    first_new_is_the_first(world.key_items, before.items);
    first_new_is_the_first(world.vehicles, before.items);
}

/// One tick of a run's splits: the sample, the map, and the runner's choice at that moment.
pub struct Tick {
    pub world: WorldView,
    pub location: Option<Location>,
    pub battle_split: BattleSplit,
}

/// The state after each of `ticks` in turn.
pub open spec fn splits_after(start: SplitsState, ticks: Seq<Tick>) -> SplitsState
    decreases ticks.len(),
{
    if ticks.len() == 0 {
        start
    } else {
        check_step(
            splits_after(start, ticks.drop_last()),
            ticks.last().world,
            ticks.last().location,
            ticks.last().battle_split,
        ).0
    }
}

/// What tick number `at` of `ticks` reports, counting from 0.
pub open spec fn split_at(start: SplitsState, ticks: Seq<Tick>, at: int) -> Option<SplitOn> {
    check_step(
        splits_after(start, ticks.take(at)),
        ticks[at].world,
        ticks[at].location,
        ticks[at].battle_split,
    ).1
}

/// A tick reports only a split that was not reported before, and leaves it marked as
/// reported; no mark is ever taken back.
pub proof fn reported_split_is_new(
    before: SplitsState,
    world: WorldView,
    location: Option<Location>,
    battle_split: BattleSplit,
)
    ensures
        check_step(before, world, location, battle_split).1 matches Some(split) ==> {
            &&& !before.seen.contains(split.index())
            &&& check_step(before, world, location, battle_split).0.seen.contains(split.index())
        },
        before.seen.subset_of(check_step(before, world, location, battle_split).0.seen),
{
}

/// The marks of the splits reported up to tick `early` are still there at every later tick.
proof fn marks_stay(start: SplitsState, ticks: Seq<Tick>, early: int, late: int)
    requires
        0 <= early <= late <= ticks.len(),
    ensures
        splits_after(start, ticks.take(early)).seen.subset_of(
            splits_after(start, ticks.take(late)).seen,
        ),
    decreases late - early,
{
    if early < late {
        marks_stay(start, ticks, early, late - 1);
        assert(ticks.take(late).drop_last() =~= ticks.take(late - 1));
        reported_split_is_new(
            splits_after(start, ticks.take(late - 1)),
            ticks[late - 1].world,
            ticks[late - 1].location,
            ticks[late - 1].battle_split,
        );
    }
}

/// No split is reported twice in a run, whatever the samples show and however the runner's
/// choice changes on the way.
pub proof fn split_is_reported_once(start: SplitsState, ticks: Seq<Tick>, early: int, late: int)
    requires
        0 <= early < late < ticks.len(),
        split_at(start, ticks, early) is Some,
    ensures
        split_at(start, ticks, late) != split_at(start, ticks, early),
{
    reported_split_is_new(
        splits_after(start, ticks.take(early)),
        ticks[early].world,
        ticks[early].location,
        ticks[early].battle_split,
    );
    assert(ticks.take(early + 1).drop_last() =~= ticks.take(early));
    marks_stay(start, ticks, early + 1, late);
    reported_split_is_new(
        splits_after(start, ticks.take(late)),
        ticks[late].world,
        ticks[late].location,
        ticks[late].battle_split,
    );
}

} // verus!
