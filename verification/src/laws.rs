//! The guarantees of the primitive, stated and proved over the specification
//! model in [`crate::state`].

use vstd::prelude::*;

use crate::state::poll_outcome;
use crate::state::observed_after;
use crate::state::UpdateResult;

verus! {

/// The version the shared state holds after a run of `set_version` calls,
/// starting from `initial`: each call overwrites unconditionally, so the
/// result is the last value set, or the initial one when nothing was set.
pub open spec fn version_after(initial: u64, sets: Seq<u64>) -> u64
    decreases sets.len(),
{
    if sets.len() == 0 {
        initial
    } else {
        version_after(sets[0], sets.drop_first())
    }
}

/// Setting the version is last-write-wins: after any non-empty run of
/// `set_version` calls, the current version is the last value set.
pub proof fn lemma_version_after_is_last(initial: u64, sets: Seq<u64>)
    requires
        sets.len() > 0,
    ensures
        version_after(initial, sets) == sets.last(),
    decreases sets.len(),
{
    if sets.len() == 1 {
        reveal_with_fuel(version_after, 2);
        assert(sets.drop_first().len() == 0);
        assert(version_after(initial, sets) == sets[0]);
    } else {
        lemma_version_after_is_last(sets[0], sets.drop_first());
        assert(sets.drop_first().last() == sets.last());
    }
}

/// Strictly increasing nonzero sets deliver the latest version: after any
/// non-empty, strictly increasing run of nonzero `set_version` values, an
/// observer that started below the first value resolves in one poll with an
/// update carrying the last value set — which is at least every version set
/// along the way — and has then observed exactly that last value.
pub proof fn lemma_increasing_sets_observe_latest(initial: u64, sets: Seq<u64>, observed: u64)
    requires
        sets.len() > 0,
        forall|i: int| 0 <= i < sets.len() ==> sets[i] != 0,
        forall|i: int, j: int| 0 <= i < j < sets.len() ==> sets[i] < sets[j],
        observed < sets[0],
    ensures
        version_after(initial, sets) == sets.last(),
        poll_outcome(sets.last(), observed) == UpdateResult::Updated(sets.last()),
        observed_after(sets.last(), observed) == sets.last(),
        forall|i: int| 0 <= i < sets.len() ==> sets.last() >= sets[i],
{
    lemma_version_after_is_last(initial, sets);
    assert(observed < sets.last());
}

/// Coalescing: when two versions are set, in order, before a suspended
/// observer is ever re-evaluated, its single poll resolves once with the
/// later version; the intermediate one is never independently observable.
pub proof fn lemma_coalescing(initial: u64, first: u64, second: u64, observed: u64)
    requires
        first != 0,
        second != 0,
        observed < second,
    ensures
        version_after(initial, seq![first, second]) == second,
        poll_outcome(second, observed) == UpdateResult::Updated(second),
        first != second ==> poll_outcome(second, observed) != UpdateResult::Updated(first),
{
    lemma_version_after_is_last(initial, seq![first, second]);
}

/// Closed is terminal for polling: whatever any observer — fresh or long
/// suspended — has observed, a poll against version `0` reports closed,
/// never an update, and the waiters play no part in it.
pub proof fn lemma_closed_never_updates(observed: u64)
    ensures
        poll_outcome(0, observed) == UpdateResult::Closed,
        forall|v: u64| poll_outcome(0, observed) != UpdateResult::Updated(v),
{
}

/// Repeating a wait after closed keeps returning closed: a poll against
/// version `0` leaves the observed version as it was, so the next poll — and
/// by the same token every later one — reports closed again.
pub proof fn lemma_closed_repeats(observed: u64)
    ensures
        poll_outcome(0, observed) == UpdateResult::Closed,
        observed_after(0, observed) == observed,
        poll_outcome(0, observed_after(0, observed)) == UpdateResult::Closed,
{
}

/// Equality is not progress: an observer whose observed version equals the
/// current (live) version polls as still pending, and stays so under any
/// live version no greater than what it observed; only a strictly greater
/// version resolves it with an update, and only `0` resolves it as closed.
pub proof fn lemma_equality_is_not_progress(version: u64, observed: u64)
    requires
        version != 0,
        observed == version,
    ensures
        poll_outcome(version, observed) == UpdateResult::StillPending,
        forall|v: u64| v != 0 && v <= observed ==> poll_outcome(v, observed)
            == UpdateResult::StillPending,
        forall|v: u64| v > observed ==> poll_outcome(v, observed) == UpdateResult::Updated(v),
        poll_outcome(0, observed) == UpdateResult::Closed,
{
}

/// Fan-out: one version set above what two observers have each observed
/// resolves both; each one's poll reports the same update, and each
/// independently catches its own record up to the new version.
pub proof fn lemma_one_set_resolves_all_pending(version: u64, observed_a: u64, observed_b: u64)
    requires
        version != 0,
        observed_a < version,
        observed_b < version,
    ensures
        poll_outcome(version, observed_a) == UpdateResult::Updated(version),
        poll_outcome(version, observed_b) == UpdateResult::Updated(version),
        observed_after(version, observed_a) == version,
        observed_after(version, observed_b) == version,
{
}

} // verus!
