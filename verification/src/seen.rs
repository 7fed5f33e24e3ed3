//! The set of item numbers already reported, kept in a hash set.

use ahash::AHashSet;
use ahash::RandomState;
use vstd::prelude::*;

verus! {

/// `ahash::RandomState`, the hasher that an `AHashSet` is built with. Nothing is said of it.
#[verifier::external_type_specification]
#[verifier::external_body]
pub struct ExRandomState(RandomState);

/// `ahash::AHashSet`, a `std::collections::HashSet` with that hasher. What it holds is named by
/// [`seen_ids`].
#[verifier::external_type_specification]
#[verifier::external_body]
#[verifier::reject_recursive_types(T)]
#[verifier::reject_recursive_types(S)]
pub struct ExAHashSet<T, S>(AHashSet<T, S>);

/// The numbers that the set holds.
pub uninterp spec fn seen_ids(set: AHashSet<u32>) -> Set<u32>;

/// Calls `AHashSet::new`, which builds an empty `HashSet`: the new set holds no number.
#[verifier::external_body]
pub(crate) fn seen_new() -> (set: AHashSet<u32>)
    ensures
        seen_ids(set) == Set::<u32>::empty(),
{
    AHashSet::new()
}

/// Calls `HashSet::insert` on the set, reached through `AHashSet`'s `DerefMut`. The set then
/// holds `id` beside what it held, and the answer is whether `id` was missing before.
#[verifier::external_body]
pub(crate) fn seen_insert(set: &mut AHashSet<u32>, id: u32) -> (fresh: bool)
    ensures
        seen_ids(*final(set)) == seen_ids(*old(set)).insert(id),
        fresh == !seen_ids(*old(set)).contains(id),
{
    set.insert(id)
}

} // verus!
