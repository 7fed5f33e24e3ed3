//! A set of up to 64 members of an enumeration, kept in one machine word.

use core::marker::PhantomData;
use vstd::prelude::*;

verus! {

/// A value that an [`EnumSet`] can hold: it has a small number of its own, or none.
pub trait EnumSetMember {
    /// The position that stands for this value in a set, if it has one.
    spec fn spec_ordinal(&self) -> Option<u8>;

    /// The position that stands for this value in a set, if it has one.
    fn ordinal(&self) -> (ordinal: Option<u8>)
        ensures
            ordinal == self.spec_ordinal(),
    ;
}

/// Whether position `at` is marked in `bits`. Positions from 64 on are never marked.
pub open spec fn has_bit(bits: u64, at: u64) -> bool {
    at < 64 && (bits >> at) & 1 == 1
}

proof fn lemma_no_bit(at: u64)
    ensures
        !has_bit(0, at),
{
    if at < 64 {
        assert((0u64 >> at) & 1 == 0) by (bit_vector);
    }
}

proof fn lemma_mark_bit(bits: u64, at: u64)
    requires
        at < 64,
    ensures
        has_bit(bits | (1u64 << at), at),
        forall|other: u64| other != at ==> has_bit(bits | (1u64 << at), other) == has_bit(bits, other),
        (bits & (1u64 << at) == 0) == !has_bit(bits, at),
{
    assert(((bits | (1u64 << at)) >> at) & 1 == 1) by (bit_vector)
        requires
            at < 64,
    ;
    assert forall|other: u64| other != at implies has_bit(bits | (1u64 << at), other) == has_bit(
        bits,
        other,
    ) by {
        if other < 64 {
            assert(((bits | (1u64 << at)) >> other) & 1 == (bits >> other) & 1) by (bit_vector)
                requires
                    at < 64,
                    other < 64,
                    other != at,
            ;
        }
    }
    assert((bits & (1u64 << at) == 0) == ((bits >> at) & 1 != 1)) by (bit_vector)
        requires
            at < 64,
    ;
}

/// The members seen so far, each stood for by its ordinal.
#[derive(Debug)]
pub struct EnumSet<T>(u64, PhantomData<T>);

impl<T: EnumSetMember> EnumSet<T> {
    /// The ordinals that the set holds.
    pub closed spec fn view(&self) -> Set<u8> {
        Set::new(|ordinal: u8| has_bit(self.0, ordinal as u64))
    }

    /// The set that holds nothing.
    pub fn empty() -> (set: Self)
        ensures
            set@ == Set::<u8>::empty(),
    {
        let set = Self(0, PhantomData);
        proof {
            assert forall|ordinal: u8| !set@.contains(ordinal) by {
                lemma_no_bit(ordinal as u64);
            }
        }
        set
    }

    /// Puts `item` into the set and says whether it was new. An item without an ordinal, or with
    /// one from 64 on, has no place in the set: the set stays as it is and the answer is `false`.
    pub fn insert(&mut self, item: &T) -> (fresh: bool)
        ensures
            match item.spec_ordinal() {
                Some(ordinal) if ordinal < 64 => {
                    &&& final(self)@ == old(self)@.insert(ordinal)
                    &&& fresh == !old(self)@.contains(ordinal)
                },
                _ => final(self)@ == old(self)@ && !fresh,
            },
    {
        let ord: u8 = match item.ordinal() {
            Some(ord) => ord,
            None => {
                return false;
            },
        };
        if ord >= 64 {
            return false;
        }
        let mask: u64 = 1_u64 << (ord as u64);
        let previous: u64 = self.0 & mask;
        self.0 = self.0 | mask;
        proof {
            lemma_mark_bit(old(self).0, ord as u64);
        }
        previous == 0
    }
}

} // verus!
