//! Change detection on one observed quantity: the last two samples and what they say.

use vstd::prelude::*;

verus! {

/// A value that can be sampled and compared with the sample before it.
pub trait Sample: Copy {
    /// Whether the two samples hold the same value.
    fn same(self, other: Self) -> (same: bool)
        ensures
            same == (self == other),
    ;
}

impl Sample for bool {
    fn same(self, other: Self) -> (same: bool) {
        self == other
    }
}

/// Two samples of one quantity: the one before the latest, and the latest.
#[derive(Clone, Copy, Debug)]
pub struct Pair<T> {
    pub old: T,
    pub current: T,
}

impl<T: Sample> Pair<T> {
    /// The latest sample differs from the one before it.
    pub open spec fn spec_changed(&self) -> bool {
        self.old != self.current
    }

    /// The latest sample differs from the one before it.
    #[verifier::when_used_as_spec(spec_changed)]
    pub fn changed(&self) -> (changed: bool)
        ensures
            changed == (self.old != self.current),
    {
        !self.old.same(self.current)
    }

    /// The latest sample equals the one before it.
    pub open spec fn spec_unchanged(&self) -> bool {
        self.old == self.current
    }

    /// The latest sample equals the one before it.
    #[verifier::when_used_as_spec(spec_unchanged)]
    pub fn unchanged(&self) -> (unchanged: bool)
        ensures
            unchanged == !self.changed(),
    {
        self.old.same(self.current)
    }

    /// The quantity changed, and `value` is what it changed to.
    pub open spec fn spec_changed_to(&self, value: &T) -> bool {
        self.old != self.current && self.current == *value
    }

    /// The quantity changed, and `value` is what it changed to.
    #[verifier::when_used_as_spec(spec_changed_to)]
    pub fn changed_to(&self, value: &T) -> (hit: bool)
        ensures
            hit == (self.changed() && self.current == *value),
    {
        !self.old.same(self.current) && self.current.same(*value)
    }

    /// The quantity changed, and `value` is what it changed from.
    pub open spec fn spec_changed_from(&self, value: &T) -> bool {
        self.old != self.current && self.old == *value
    }

    /// The quantity changed, and `value` is what it changed from.
    #[verifier::when_used_as_spec(spec_changed_from)]
    pub fn changed_from(&self, value: &T) -> (hit: bool)
        ensures
            hit == (self.changed() && self.old == *value),
    {
        !self.old.same(self.current) && self.old.same(*value)
    }
}

/// The pair that a watcher holds after it has taken in `value`: on the first sample both halves
/// are that sample, later the latest sample moves to `old`.
pub open spec fn next_pair<T>(before: Option<Pair<T>>, value: T) -> Pair<T> {
    match before {
        Some(pair) => Pair { old: pair.current, current: value },
        None => Pair { old: value, current: value },
    }
}

/// Watches one quantity. Until the first sample it is unobserved and holds no pair.
#[derive(Clone, Copy, Debug)]
pub struct Watcher<T> {
    pub pair: Option<Pair<T>>,
}

impl<T: Sample> Watcher<T> {
    /// A watcher that has seen no sample yet.
    pub fn new() -> (watcher: Self)
        ensures
            watcher.pair is None,
    {
        Watcher { pair: None }
    }

    /// Takes in the next sample and hands out the pair it now holds.
    pub fn update(&mut self, value: T) -> (pair: Pair<T>)
        ensures
            pair == next_pair(old(self).pair, value),
            final(self).pair == Some(pair),
    {
        let pair = match self.pair {
            Some(before) => Pair { old: before.current, current: value },
            None => Pair { old: value, current: value },
        };
        self.pair = Some(pair);
        pair
    }

    /// Whether a sample has been taken in.
    pub open spec fn spec_observed(&self) -> bool {
        self.pair is Some
    }

    /// Whether a sample has been taken in. The next sample is the first observation exactly
    /// when this is `false`.
    #[verifier::when_used_as_spec(spec_observed)]
    pub fn observed(&self) -> (observed: bool)
        ensures
            observed == (self.pair is Some),
    {
        self.pair.is_some()
    }

    /// The latest sample differs from the one before it. Never so while unobserved.
    pub open spec fn spec_changed(&self) -> bool {
        self.pair matches Some(pair) && pair.changed()
    }

    /// The latest sample differs from the one before it. Never so while unobserved.
    #[verifier::when_used_as_spec(spec_changed)]
    pub fn changed(&self) -> (changed: bool)
        ensures
            changed == (self.pair matches Some(pair) && pair.changed()),
    {
        match &self.pair {
            Some(pair) => pair.changed(),
            None => false,
        }
    }

    /// Not [`changed`](Self::changed): so it holds of every unobserved watcher.
    pub open spec fn spec_unchanged(&self) -> bool {
        !self.spec_changed()
    }

    /// Not [`changed`](Self::changed): so it holds of every unobserved watcher.
    #[verifier::when_used_as_spec(spec_unchanged)]
    pub fn unchanged(&self) -> (unchanged: bool)
        ensures
            unchanged == !self.changed(),
    {
        !self.changed()
    }

    /// The quantity changed, and `value` is what it changed to.
    pub open spec fn spec_changed_to(&self, value: &T) -> bool {
        self.pair matches Some(pair) && pair.changed_to(value)
    }

    /// The quantity changed, and `value` is what it changed to.
    #[verifier::when_used_as_spec(spec_changed_to)]
    pub fn changed_to(&self, value: &T) -> (hit: bool)
        ensures
            hit == (self.pair matches Some(pair) && pair.changed() && pair.current == *value),
    {
        match &self.pair {
            Some(pair) => pair.changed_to(value),
            None => false,
        }
    }

    /// The quantity changed, and `value` is what it changed from.
    pub open spec fn spec_changed_from(&self, value: &T) -> bool {
        self.pair matches Some(pair) && pair.changed_from(value)
    }

    /// The quantity changed, and `value` is what it changed from.
    #[verifier::when_used_as_spec(spec_changed_from)]
    pub fn changed_from(&self, value: &T) -> (hit: bool)
        ensures
            hit == (self.pair matches Some(pair) && pair.changed() && pair.old == *value),
    {
        match &self.pair {
            Some(pair) => pair.changed_from(value),
            None => false,
        }
    }
}

} // verus!
