//! The set of client identifiers met during a scan, kept in the hash set
//! that the game engine provides.

use vstd::prelude::*;

verus! {

/// A set of client identifiers, held in a `bevy::utils::HashSet<u64>`.
///
/// The engine's set is a `hashbrown::HashSet` whose allocator parameter is
/// bound by a trait that `hashbrown` does not export, so the set cannot be
/// described to the verifier as a type: it is kept behind this struct, and
/// what it holds is named by [`seen_ids`].
#[verifier::external_body]
pub struct SeenClients {
    ids: bevy::utils::HashSet<u64>,
}

/// The identifiers that the set holds.
pub uninterp spec fn seen_ids(seen: SeenClients) -> Set<u64>;

/// `HashSet::default`: a new set holds nothing.
#[verifier::external_body]
pub(crate) fn seen_new() -> (seen: SeenClients)
    ensures
        seen_ids(seen) == Set::<u64>::empty(),
{
    SeenClients { ids: bevy::utils::HashSet::default() }
}

/// `HashSet::contains`: whether the set holds `id`. The set is unchanged.
#[verifier::external_body]
pub(crate) fn seen_contains(seen: &SeenClients, id: u64) -> (found: bool)
    ensures
        found == seen_ids(*seen).contains(id),
{
    seen.ids.contains(&id)
}

/// `HashSet::insert`: afterwards the set holds `id` besides what it held;
/// the result says whether `id` was new to it.
#[verifier::external_body]
pub(crate) fn seen_insert(seen: &mut SeenClients, id: u64) -> (fresh: bool)
    ensures
        seen_ids(*final(seen)) == seen_ids(*old(seen)).insert(id),
        fresh == !seen_ids(*old(seen)).contains(id),
{
    seen.ids.insert(id)
}

} // verus!
