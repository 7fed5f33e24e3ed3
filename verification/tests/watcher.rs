use ff1_autosplitter::data::{BattleResult, Location};
use ff1_autosplitter::watcher::{Pair, Sample, Watcher};

#[test]
fn first_sample_fills_both_halves() {
    let mut watcher: Watcher<bool> = Watcher::new();
    assert!(!watcher.observed());
    let pair = watcher.update(true);
    assert_eq!((pair.old, pair.current), (true, true));
    assert!(watcher.observed());
    assert!(!watcher.changed());
    assert!(watcher.unchanged());
}

#[test]
fn later_samples_shift_the_pair() {
    let mut watcher: Watcher<BattleResult> = Watcher::new();
    watcher.update(BattleResult::Undecided);
    let pair = watcher.update(BattleResult::Win);
    assert_eq!((pair.old, pair.current), (BattleResult::Undecided, BattleResult::Win));
    let pair = watcher.update(BattleResult::Lose);
    assert_eq!((pair.old, pair.current), (BattleResult::Win, BattleResult::Lose));
    let stored = watcher.pair.unwrap();
    assert_eq!((stored.old, stored.current), (BattleResult::Win, BattleResult::Lose));
}

#[test]
fn unobserved_watcher_is_unchanged() {
    let watcher: Watcher<bool> = Watcher::new();
    assert!(watcher.unchanged());
    assert!(!watcher.changed());
    assert!(!watcher.changed_to(&true));
    assert!(!watcher.changed_to(&false));
    assert!(!watcher.changed_from(&true));
    assert!(!watcher.changed_from(&false));
}

#[test]
fn changed_to_and_from_name_the_right_half() {
    let mut watcher: Watcher<Location> = Watcher::new();
    watcher.update(Location::WorldMap);
    watcher.update(Location::MarshCave1);
    assert!(watcher.changed());
    assert!(!watcher.unchanged());
    assert!(watcher.changed_to(&Location::MarshCave1));
    assert!(!watcher.changed_to(&Location::WorldMap));
    assert!(watcher.changed_from(&Location::WorldMap));
    assert!(!watcher.changed_from(&Location::MarshCave1));
    watcher.update(Location::MarshCave1);
    assert!(watcher.unchanged());
    assert!(!watcher.changed_to(&Location::MarshCave1));
    assert!(!watcher.changed_from(&Location::MarshCave1));
}

#[test]
fn pair_queries_agree_with_its_halves() {
    let pair = Pair { old: false, current: true };
    assert!(pair.changed());
    assert!(!pair.unchanged());
    assert!(pair.changed_to(&true));
    assert!(!pair.changed_to(&false));
    assert!(pair.changed_from(&false));
    assert!(!pair.changed_from(&true));
    let still = Pair { old: true, current: true };
    assert!(!still.changed());
    assert!(still.unchanged());
    assert!(!still.changed_to(&true));
    assert!(!still.changed_from(&true));
}

#[test]
fn samples_compare_by_value() {
    assert!(true.same(true));
    assert!(!true.same(false));
    assert!(BattleResult::Win.same(BattleResult::Win));
    assert!(!BattleResult::Win.same(BattleResult::Lose));
    assert!(Location::Gaia.same(Location::Gaia));
    assert!(!Location::Gaia.same(Location::Onrac));
}
