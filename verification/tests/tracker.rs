use core::cell::RefCell;
use core::ops::ControlFlow;
use ff1_autosplitter::data::{Item, Monster};
use ff1_autosplitter::game::Event;
use ff1_autosplitter::memory::{MemReader, Snapshot};
use ff1_autosplitter::sampling::{Data, OwnedTransportationDataBinding, SaveTransportationDataBinding};
use ff1_autosplitter::settings::{BattleSplit, SplitOn};
use ff1_autosplitter::splits::{Action, Progress, CHAOS_DELAY};
use ff1_autosplitter::tracker::{main_loop, Splits, State, TimerState, Title};

const TRANSPORT: OwnedTransportationDataBinding = OwnedTransportationDataBinding { data: 0x10 };
const SAVED: SaveTransportationDataBinding = SaveTransportationDataBinding { id: 0x10, map_id: 0x14 };

#[derive(Clone, Default)]
struct Shown {
    active: bool,
    playing: bool,
    result: u32,
    identity: Option<u32>,
    key_items: Vec<u32>,
    vehicles: Vec<u32>,
    map: Option<u32>,
    fading: bool,
}

fn word(value: u64) -> Vec<u8> {
    value.to_le_bytes().to_vec()
}

fn half(value: u32) -> Vec<u8> {
    value.to_le_bytes().to_vec()
}

fn array_header(size: u32) -> Vec<u8> {
    let mut bytes = vec![0; 0x18];
    bytes.extend_from_slice(&size.to_le_bytes());
    bytes.extend_from_slice(&[0; 4]);
    bytes
}

fn memory(shown: &Shown) -> Snapshot {
    let mut snapshot = Snapshot::new();
    snapshot.map(0x1008, word(0x2000));
    snapshot.map(0x2010, vec![shown.active as u8, shown.playing as u8]);
    snapshot.map(0x2018, word(0x3000));
    snapshot.map(0x3008, word(0x4000));
    snapshot.map(0x4010, word(0x5000));
    snapshot.map(0x5018, word(0x6000));
    if let Some(identity) = shown.identity {
        let mut party = array_header(1);
        party.extend_from_slice(&half(identity));
        snapshot.map(0x6000, party);
    }
    snapshot.map(0x2020, word(0x7000));
    snapshot.map(0x7010, half(shown.result));

    snapshot.map(0x1_1000, word(0x1_2000));
    if let Some(map) = shown.map {
        snapshot.map(0x1_2030, half(map));
    }
    snapshot.map(0x1_2040, word(0x1_3000));
    let mut table = vec![0; 0x18];
    table.extend_from_slice(&word(0x1_4000));
    table.extend_from_slice(&half(shown.key_items.len() as u32));
    table.extend_from_slice(&[0; 4]);
    snapshot.map(0x1_3000, table);
    let mut slots = array_header(shown.key_items.len() as u32);
    for (at, number) in shown.key_items.iter().enumerate() {
        slots.extend_from_slice(&half(0x100 + at as u32));
        slots.extend_from_slice(&half(at as u32));
        slots.extend_from_slice(&half(number + 1));
        slots.extend_from_slice(&[0; 4]);
        slots.extend_from_slice(&word(0x9000));
    }
    snapshot.map(0x1_4000, slots);
    snapshot.map(0x1_2048, word(0x1_5000));
    let mut list = vec![0; 0x10];
    list.extend_from_slice(&word(0x1_6000));
    list.extend_from_slice(&half(shown.vehicles.len() as u32));
    list.extend_from_slice(&[0; 4]);
    snapshot.map(0x1_5000, list);
    let mut vehicles = array_header(shown.vehicles.len() as u32);
    for (at, number) in shown.vehicles.iter().enumerate() {
        let vehicle = 0x1_7000 + 0x100 * at as u64;
        let saved = 0x1_8000 + 0x100 * at as u64;
        vehicles.extend_from_slice(&word(vehicle));
        snapshot.map(vehicle + 0x10, word(saved));
        snapshot.map(saved + 0x10, half(*number));
        snapshot.map(saved + 0x14, half(1));
    }
    snapshot.map(0x1_6000, vehicles);

    snapshot.map(0x2_1000, word(0x2_2000));
    snapshot.map(0x2_2028, word(if shown.fading { 0x5000 } else { 0 }));
    snapshot
}

fn resolved<R: MemReader>(reader: &R) -> Data<'_, R> {
    let mut data = Data::new(reader, TRANSPORT, SAVED);
    assert!(data.battles.active.resolve(0x1000, vec![8, 0x10]));
    assert!(data.battles.playing.resolve(0x1000, vec![8, 0x11]));
    assert!(data.battles.monster_party.resolve(0x1000, vec![8, 0x18, 8, 0x10, 0x18]));
    assert!(data.battles.end_result.resolve(0x1000, vec![8, 0x20, 0x10]));
    assert!(data.user.map_id.resolve(0x1_1000, vec![0, 0x30]));
    assert!(data.items.key_items.resolve(0x1_1000, vec![0, 0x40]));
    assert!(data.items.vehicles.resolve(0x1_1000, vec![0, 0x48]));
    assert!(data.new_game.fade_out_finish.resolve(0x2_1000, vec![0, 0x28]));
    data
}

fn quiet() -> Shown {
    Shown::default()
}

fn battle(identity: u32, playing: bool, result: u32) -> Shown {
    Shown { active: true, playing, result, identity: Some(identity), ..quiet() }
}

fn on(map: u32) -> Shown {
    Shown { map: Some(map), ..quiet() }
}

fn check(splits: &mut Splits, shown: &Shown, choice: BattleSplit) -> Option<SplitOn> {
    let snapshot = memory(shown);
    splits.check(&resolved(&snapshot), choice)
}

fn tick(state: &mut State, shown: &Shown, timer: TimerState) -> ControlFlow<Action> {
    let snapshot = memory(shown);
    main_loop(&resolved(&snapshot), state, timer, BattleSplit::BattleEnd)
}

struct Recording {
    memory: Snapshot,
    log: RefCell<Vec<u64>>,
}

impl Recording {
    fn of(shown: &Shown) -> Self {
        Recording { memory: memory(shown), log: RefCell::new(Vec::new()) }
    }

    fn first(&self, addr: u64) -> usize {
        let log = self.log.borrow();
        match log.iter().position(|read| *read == addr) {
            Some(at) => at,
            None => panic!("{addr:#x} was not read"),
        }
    }
}

impl MemReader for Recording {
    fn byte(&self, addr: u64) -> Option<u8> {
        self.memory.byte_at(addr)
    }

    fn read(&self, addr: u64, len: usize) -> Option<Vec<u8>> {
        self.log.borrow_mut().push(addr);
        self.memory.read(addr, len)
    }
}

#[test]
fn title_reports_the_start_of_a_fade_out() {
    let dark = memory(&quiet());
    let fading = memory(&Shown { fading: true, ..quiet() });
    let mut title = Title::new();
    assert!(!title.new_game(&resolved(&dark)));
    assert!(!title.new_game(&resolved(&dark)));
    assert!(title.new_game(&resolved(&fading)));
    assert!(!title.new_game(&resolved(&fading)));
    assert!(!title.new_game(&resolved(&dark)));
    assert!(title.new_game(&resolved(&fading)));
}

#[test]
fn title_first_seen_fading_reports_nothing() {
    let fading = memory(&Shown { fading: true, ..quiet() });
    let mut title = Title::new();
    assert!(!title.new_game(&resolved(&fading)));
    assert!(!title.new_game(&resolved(&fading)));
}

#[test]
fn progress_polls_the_game_it_is_shown() {
    let mut progress = Progress::new();
    let poll = |progress: &mut Progress, shown: &Shown| {
        let snapshot = memory(shown);
        progress.running(&resolved(&snapshot))
    };
    assert_eq!(poll(&mut progress, &quiet()), None);
    assert_eq!(poll(&mut progress, &battle(345, true, 0)), None);
    assert_eq!(
        poll(&mut progress, &battle(345, false, 1)),
        Some(Event::ActivityConcluded { identity: Monster::Lich })
    );
    let found = Shown { key_items: vec![44], playing: true, ..quiet() };
    assert_eq!(
        poll(&mut progress, &found),
        Some(Event::ActivityEnded { identity: Monster::Lich })
    );
    assert_eq!(poll(&mut progress, &found), Some(Event::Pickup { item: Item::Lute }));
    assert_eq!(poll(&mut progress, &found), None);
}

#[test]
fn signals_are_read_in_their_order() {
    let shown = Shown {
        key_items: vec![7],
        vehicles: vec![5],
        map: Some(1),
        ..battle(345, true, 0)
    };
    let reader = Recording::of(&shown);
    let mut splits = Splits::new();
    assert_eq!(splits.check(&resolved(&reader), BattleSplit::BattleEnd), None);
    let active = reader.first(0x2010);
    let playing = reader.first(0x2011);
    let result = reader.first(0x7010);
    let identity = reader.first(0x6020);
    let key_items = reader.first(0x1_3000);
    let vehicles = reader.first(0x1_5000);
    let map = reader.first(0x1_2030);
    assert!(active < playing);
    assert!(playing < result);
    assert!(result < identity);
    assert!(identity < key_items);
    assert!(key_items < vehicles);
    assert!(vehicles < map);
}

#[test]
fn due_countdown_reads_nothing() {
    let mut splits = Splits::new();
    let choice = BattleSplit::BattleEnd;
    assert_eq!(check(&mut splits, &quiet(), choice), None);
    assert_eq!(check(&mut splits, &battle(346, true, 0), choice), None);
    for _ in 0..CHAOS_DELAY {
        assert_eq!(check(&mut splits, &battle(346, false, 1), choice), None);
    }
    let reader = Recording::of(&Shown { key_items: vec![44], map: Some(1), ..battle(346, false, 1) });
    assert_eq!(splits.check(&resolved(&reader), choice), Some(SplitOn::Chaos));
    assert!(reader.log.borrow().is_empty());
    assert_eq!(splits.check(&resolved(&reader), choice), Some(SplitOn::Lute));
    assert!(!reader.log.borrow().is_empty());
}

#[test]
fn event_of_the_run_leaves_the_map_unread() {
    let mut splits = Splits::new();
    let reader = Recording::of(&Shown { key_items: vec![44], map: Some(1), ..quiet() });
    assert_eq!(splits.check(&resolved(&reader), BattleSplit::BattleEnd), Some(SplitOn::Lute));
    assert!(!reader.log.borrow().contains(&0x1_2030));
    assert_eq!(splits.check(&resolved(&reader), BattleSplit::BattleEnd), None);
    assert!(reader.log.borrow().contains(&0x1_2030));
}

#[test]
fn battle_end_splits_where_battles_end_on_fade_out() {
    let mut splits = Splits::new();
    let choice = BattleSplit::BattleEnd;
    assert_eq!(check(&mut splits, &quiet(), choice), None);
    assert_eq!(check(&mut splits, &battle(350, true, 0), choice), None);
    assert_eq!(check(&mut splits, &battle(350, false, 1), choice), None);
    assert_eq!(check(&mut splits, &quiet(), choice), Some(SplitOn::Garland));
    assert_eq!(check(&mut splits, &quiet(), choice), None);
}

#[test]
fn win_splits_where_battles_end_on_the_death_animation() {
    let mut splits = Splits::new();
    let choice = BattleSplit::DeathAnimation;
    assert_eq!(check(&mut splits, &quiet(), choice), None);
    assert_eq!(check(&mut splits, &battle(350, true, 0), choice), None);
    assert_eq!(check(&mut splits, &battle(350, false, 1), choice), Some(SplitOn::Garland));
    assert_eq!(check(&mut splits, &quiet(), choice), None);
}

#[test]
fn last_boss_splits_on_the_death_animation_whatever_the_choice() {
    for choice in [BattleSplit::BattleEnd, BattleSplit::DeathAnimation] {
        let mut splits = Splits::new();
        assert_eq!(check(&mut splits, &quiet(), choice), None);
        assert_eq!(check(&mut splits, &battle(346, true, 0), choice), None);
        for _ in 0..CHAOS_DELAY {
            assert_eq!(check(&mut splits, &battle(346, false, 1), choice), None);
        }
        assert_eq!(check(&mut splits, &battle(346, false, 1), choice), Some(SplitOn::Chaos));
        assert_eq!(check(&mut splits, &quiet(), choice), None);
    }
}

#[test]
fn pickups_split_on_their_items() {
    let mut splits = Splits::new();
    let shown = Shown { key_items: vec![44, 45], vehicles: vec![4], ..quiet() };
    assert_eq!(check(&mut splits, &shown, BattleSplit::BattleEnd), Some(SplitOn::Lute));
    assert_eq!(check(&mut splits, &shown, BattleSplit::BattleEnd), Some(SplitOn::Crown));
    assert_eq!(check(&mut splits, &shown, BattleSplit::BattleEnd), Some(SplitOn::Ship));
    assert_eq!(check(&mut splits, &shown, BattleSplit::BattleEnd), None);
}

#[test]
fn walks_split_once() {
    let mut splits = Splits::new();
    let choice = BattleSplit::BattleEnd;
    assert_eq!(check(&mut splits, &on(1), choice), None);
    assert_eq!(check(&mut splits, &on(73), choice), Some(SplitOn::MarshCave));
    assert_eq!(check(&mut splits, &on(73), choice), None);
    assert_eq!(check(&mut splits, &on(1), choice), None);
    assert_eq!(check(&mut splits, &on(73), choice), None);
    let outside = memory(&on(1));
    let inside = memory(&on(73));
    assert_eq!(splits.split_check(&resolved(&outside), choice), None);
    assert_eq!(splits.split_check(&resolved(&inside), choice), Some(SplitOn::MarshCave));
    assert_eq!(check(&mut splits, &on(88), choice), None);
    assert_eq!(check(&mut splits, &on(1), choice), Some(SplitOn::IceCave));
}

#[test]
fn second_battle_against_the_same_monster_does_not_split_again() {
    let mut splits = Splits::new();
    let choice = BattleSplit::BattleEnd;
    for round in 0..2 {
        assert_eq!(check(&mut splits, &quiet(), choice), None);
        assert_eq!(check(&mut splits, &battle(345, true, 0), choice), None);
        assert_eq!(check(&mut splits, &battle(345, false, 1), choice), None);
        let expected = if round == 0 { Some(SplitOn::Lich) } else { None };
        assert_eq!(check(&mut splits, &quiet(), choice), expected);
    }
}

#[test]
fn unreadable_map_leaves_the_walk_open() {
    let mut splits = Splits::new();
    let choice = BattleSplit::BattleEnd;
    assert_eq!(check(&mut splits, &on(88), choice), None);
    assert_eq!(check(&mut splits, &quiet(), choice), None);
    assert_eq!(check(&mut splits, &on(5), choice), None);
    let nowhere = memory(&quiet());
    assert_eq!(splits.field_check(&resolved(&nowhere)), None);
    assert_eq!(check(&mut splits, &on(1), choice), Some(SplitOn::IceCave));
}

#[test]
fn event_of_the_run_decides_the_tick_and_the_walk_waits() {
    let mut splits = Splits::new();
    let choice = BattleSplit::BattleEnd;
    assert_eq!(check(&mut splits, &on(104), choice), None);
    let found = Shown { key_items: vec![57], ..on(1) };
    assert_eq!(check(&mut splits, &found, choice), Some(SplitOn::WarpCube));
    assert_eq!(check(&mut splits, &found, choice), Some(SplitOn::WaterfallCave));
    assert_eq!(check(&mut splits, &found, choice), None);
}

#[test]
fn event_that_the_choice_rules_out_is_no_split() {
    let mut splits = Splits::new();
    let choice = BattleSplit::DeathAnimation;
    assert_eq!(check(&mut splits, &on(88), choice), None);
    assert_eq!(check(&mut splits, &battle(345, true, 0), choice), None);
    let over = Shown { playing: true, ..on(1) };
    assert_eq!(check(&mut splits, &over, choice), None);
    assert_eq!(check(&mut splits, &over, choice), Some(SplitOn::IceCave));
}

#[test]
fn tracker_follows_a_timer_that_was_started_by_hand() {
    let mut state = State::NotRunning(Title::new());
    assert_eq!(tick(&mut state, &quiet(), TimerState::Running), ControlFlow::Continue(()));
    assert!(matches!(state, State::Running(_)));
}

#[test]
fn tracker_follows_a_timer_that_was_reset() {
    let mut state = State::Running(Splits::new());
    assert_eq!(tick(&mut state, &quiet(), TimerState::NotRunning), ControlFlow::Continue(()));
    assert!(matches!(state, State::NotRunning(_)));
}

#[test]
fn new_game_starts_the_timer() {
    let mut state = State::NotRunning(Title::new());
    let flow = tick(&mut state, &quiet(), TimerState::NotRunning);
    assert_eq!(flow, ControlFlow::Break(Action::Nothing));
    assert!(matches!(state, State::NotRunning(_)));
    let fading = Shown { fading: true, ..quiet() };
    let flow = tick(&mut state, &fading, TimerState::NotRunning);
    assert_eq!(flow, ControlFlow::Break(Action::Start));
    assert!(matches!(state, State::Running(_)));
}

#[test]
fn running_tracker_hands_on_the_splits() {
    let mut state = State::Running(Splits::new());
    let flow = tick(&mut state, &on(1), TimerState::Running);
    assert_eq!(flow, ControlFlow::Break(Action::Nothing));
    let flow = tick(&mut state, &on(73), TimerState::Running);
    assert_eq!(flow, ControlFlow::Break(Action::Split(SplitOn::MarshCave)));
    let flow = tick(&mut state, &on(73), TimerState::Running);
    assert_eq!(flow, ControlFlow::Break(Action::Nothing));
    assert!(matches!(state, State::Running(_)));
}

#[test]
fn a_run_of_ticks_from_title_to_first_split() {
    let mut state = State::NotRunning(Title::new());
    assert_eq!(tick(&mut state, &quiet(), TimerState::NotRunning), ControlFlow::Break(Action::Nothing));
    let fading = Shown { fading: true, map: Some(4), ..quiet() };
    assert_eq!(tick(&mut state, &fading, TimerState::NotRunning), ControlFlow::Break(Action::Start));
    assert_eq!(tick(&mut state, &fading, TimerState::Running), ControlFlow::Break(Action::Nothing));
    assert_eq!(
        tick(&mut state, &Shown { map: Some(4), ..battle(350, true, 0) }, TimerState::Running),
        ControlFlow::Break(Action::Nothing)
    );
    assert_eq!(
        tick(&mut state, &Shown { map: Some(4), ..battle(350, false, 1) }, TimerState::Running),
        ControlFlow::Break(Action::Nothing)
    );
    assert_eq!(
        tick(&mut state, &on(4), TimerState::Running),
        ControlFlow::Break(Action::Split(SplitOn::Garland))
    );
    assert_eq!(tick(&mut state, &on(4), TimerState::NotRunning), ControlFlow::Continue(()));
    assert!(matches!(state, State::NotRunning(_)));
}

#[test]
fn halted_timer_leaves_the_tracker_alone() {
    let shown = Shown { fading: true, map: Some(73), key_items: vec![44], ..quiet() };
    for timer in [TimerState::Paused, TimerState::Ended, TimerState::Unknown] {
        let mut state = State::NotRunning(Title::new());
        assert_eq!(tick(&mut state, &shown, timer), ControlFlow::Break(Action::Nothing));
        assert!(matches!(state, State::NotRunning(_)));
        let mut state = State::Running(Splits::new());
        assert_eq!(tick(&mut state, &shown, timer), ControlFlow::Break(Action::Nothing));
        assert!(matches!(state, State::Running(_)));
        assert_eq!(
            tick(&mut state, &shown, TimerState::Running),
            ControlFlow::Break(Action::Split(SplitOn::Lute))
        );
    }
}
