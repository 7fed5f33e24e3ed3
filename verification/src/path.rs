//! Paths from a class of the game to one of its values: named once, turned into offsets by
//! whoever knows the game's classes, and walked anew at every read.

use crate::memory::{read_value, value_at, MemReader, Remote};
use vstd::prelude::*;

verus! {

/// Why a path led to no value. Each of these can be over by the next tick.
#[derive(Copy, Clone, Debug, PartialEq, Eq, Structural)]
pub enum Unresolved {
    /// The offsets of the path's fields are not known yet.
    Offsets,
    /// An object on the way does not exist: its pointer could not be read, or is null.
    Pointer,
    /// The value at the end could not be read, or its bytes stand for no value.
    Value,
}

/// The address that a walk reaches: it starts at `from` and takes the offsets in turn. But
/// for the last, each offset leads to a pointer, which is read and followed; the last leads to
/// the value itself. None where a pointer cannot be read or is null, where an address would lie
/// beyond the last one there is, and for no offsets at all.
pub open spec fn follow<R: MemReader>(reader: &R, from: u64, offsets: Seq<u64>) -> Option<u64>
    decreases offsets.len(),
{
    if offsets.len() == 0 || from + offsets[0] > u64::MAX {
        None
    } else if offsets.len() == 1 {
        Some((from + offsets[0]) as u64)
    } else {
        match value_at::<u64, R>(reader, (from + offsets[0]) as u64) {
            Some(next) if next != 0 => follow(reader, next, offsets.skip(1)),
            _ => None,
        }
    }
}

/// The value of type `T` that the offsets lead to from `base`, or the reason why there is none.
pub open spec fn value_behind<T: Remote, R: MemReader>(
    reader: &R,
    base: u64,
    offsets: Seq<u64>,
) -> Result<T, Unresolved> {
    match follow(reader, base, offsets) {
        Some(leaf) => match value_at::<T, R>(reader, leaf) {
            Some(value) => Ok(value),
            None => Err(Unresolved::Value),
        },
        None => Err(Unresolved::Pointer),
    }
}

/// The offsets that stand for a path's names: the address of the class's static fields, and
/// the offset of each field in turn.
#[verifier::ext_equal]
pub struct Offsets {
    pub base: u64,
    pub fields: Seq<u64>,
}

/// A path from a class to a value: the name of the class and the names of the fields to go
/// through, the last of which holds the value. The names never change; the offsets that stand
/// for them are supplied once and kept.
#[derive(Debug)]
pub struct PointerPath {
    class: &'static str,
    parents: usize,
    fields: Vec<&'static str>,
    base: u64,
    offsets: Option<Vec<u64>>,
}

impl PointerPath {
    #[verifier::type_invariant]
    spec fn inv(&self) -> bool {
        self.offsets matches Some(offsets) ==> offsets@.len() == self.fields@.len()
    }

    /// The name of the class that the path starts at.
    pub closed spec fn class(&self) -> &'static str {
        self.class
    }

    /// How many classes above the named one the first field is declared.
    pub closed spec fn parents(&self) -> usize {
        self.parents
    }

    /// The names of the fields that the path goes through.
    pub closed spec fn fields(&self) -> Seq<&'static str> {
        self.fields@
    }

    /// The offsets that were supplied for the names, if any were.
    pub closed spec fn offsets(&self) -> Option<Offsets> {
        match self.offsets {
            Some(offsets) => Some(Offsets { base: self.base, fields: offsets@ }),
            None => None,
        }
    }

    /// The value of type `T` at the end of the path, or the reason why there is none.
    pub open spec fn target<T: Remote, R: MemReader>(&self, reader: &R) -> Result<T, Unresolved> {
        match self.offsets() {
            Some(offsets) => value_behind::<T, R>(reader, offsets.base, offsets.fields),
            None => Err(Unresolved::Offsets),
        }
    }

    /// The path from `class` through `fields`, with its offsets still unknown. The first
    /// field is declared `parents` classes above `class`.
    pub fn new(class: &'static str, parents: usize, fields: Vec<&'static str>) -> (path: Self)
        ensures
            path.class() == class,
            path.parents() == parents,
            path.fields() == fields@,
            path.offsets() is None,
    {
        PointerPath { class, parents, fields, base: 0, offsets: None }
    }

    /// The name of the class that the path starts at.
    pub fn class_name(&self) -> (class: &'static str)
        ensures
            class == self.class(),
    {
        self.class
    }

    /// How many classes above the named one the first field is declared.
    pub fn parent_count(&self) -> (parents: usize)
        ensures
            parents == self.parents(),
    {
        self.parents
    }

    /// The names of the fields that the path goes through.
    pub fn field_names(&self) -> (fields: &Vec<&'static str>)
        ensures
            fields@ == self.fields(),
    {
        &self.fields
    }

    /// Whether the offsets are known.
    pub fn is_resolved(&self) -> (resolved: bool)
        ensures
            resolved == self.offsets() is Some,
    {
        self.offsets.is_some()
    }

    /// Supplies the offsets that stand for the names: `base` for the class, one offset for
    /// each field. They are kept if none were known and there is one for each field; the
    /// answer says whether they were kept.
    pub fn resolve(&mut self, base: u64, offsets: Vec<u64>) -> (kept: bool)
        ensures
            final(self).class() == old(self).class(),
            final(self).parents() == old(self).parents(),
            final(self).fields() == old(self).fields(),
            kept == (old(self).offsets() is None && offsets@.len() == old(self).fields().len()),
            final(self).offsets() == if kept {
                Some(Offsets { base, fields: offsets@ })
            } else {
                old(self).offsets()
            },
    {
        proof {
            use_type_invariant(&*self);
        }
        if self.offsets.is_some() || offsets.len() != self.fields.len() {
            return false;
        }
        self.base = base;
        self.offsets = Some(offsets);
        true
    }

    /// Walks the path and reads the value at its end.
    pub fn deref<T: Remote, R: MemReader>(&self, reader: &R) -> (value: Result<T, Unresolved>)
        ensures
            value == self.target::<T, R>(reader),
    {
        let offsets = match &self.offsets {
            Some(offsets) => offsets,
            None => {
                return Err(Unresolved::Offsets);
            },
        };
        let mut from: u64 = self.base;
        let mut at: usize = 0;
        assert(offsets@.skip(0) =~= offsets@);
        while at < offsets.len()
            invariant
                at <= offsets.len(),
                self.offsets() == Some(Offsets { base: self.base, fields: offsets@ }),
                follow(reader, self.base, offsets@) == follow(reader, from, offsets@.skip(at as int)),
            decreases offsets.len() - at,
        {
            assert(offsets@.skip(at as int).skip(1) =~= offsets@.skip(at + 1));
            let here: u64 = match from.checked_add(offsets[at]) {
                Some(here) => here,
                None => {
                    return Err(Unresolved::Pointer);
                },
            };
            if at + 1 == offsets.len() {
                return match read_value::<T, R>(reader, here) {
                    Some(value) => Ok(value),
                    None => Err(Unresolved::Value),
                };
            }
            from = match read_value::<u64, R>(reader, here) {
                Some(next) => next,
                None => {
                    return Err(Unresolved::Pointer);
                },
            };
            if from == 0 {
                return Err(Unresolved::Pointer);
            }
            at += 1;
        }
        Err(Unresolved::Pointer)
    }
}

} // verus!
