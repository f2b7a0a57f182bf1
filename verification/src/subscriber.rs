//! The observing side of the primitive: one subscriber's own record of what
//! it has seen, and the single poll step its suspending wait is built from.

use vstd::prelude::*;

use crate::state::observed_after;
use crate::state::poll_outcome;
use crate::state::State;
use crate::state::UpdateResult;

verus! {

/// One logical observer of a [`crate::state::State`]. It keeps only its own
/// data; the shared state is handed to [`Subscriber::poll_wait`] by whoever
/// drives the suspension, under that caller's exclusive access.
pub struct Subscriber {
    /// The last version this subscriber has confirmed seeing.
    pub observed_version: u64,
    /// Identifies this subscriber's entry among the registered wake handles
    /// while it is suspended; `None` when it is not.
    pub waker_key: Option<usize>,
}

impl Subscriber {
    /// A subscriber that starts out having observed `version`. The starting
    /// point may lie below, at, or above the shared state's current version;
    /// a wait resolves only once the shared version is strictly greater (or
    /// the state is closed).
    pub fn new(version: u64) -> (s: Subscriber)
        ensures
            s.observed_version == version,
            s.waker_key is None,
    {
        Subscriber { observed_version: version, waker_key: None }
    }

    /// One step of the suspending wait: a single evaluation against the
    /// shared state, with `waker` as the handle to register should the wait
    /// stay pending. The caller suspends on [`UpdateResult::StillPending`]
    /// and re-invokes this step when woken; any other result completes the
    /// wait. On [`UpdateResult::Updated`] the subscriber has caught up to the
    /// state's current version — intermediate versions set while it was
    /// suspended are coalesced away, never observed.
    pub fn poll_wait(&mut self, state: &mut State, waker: core::task::Waker) -> (r: UpdateResult)
        ensures
            r == poll_outcome(old(state).version, old(self).observed_version),
            final(state).version == old(state).version,
            final(self).observed_version == observed_after(
                old(state).version,
                old(self).observed_version,
            ),
            r is StillPending ==> final(state).wakers@ == old(state).wakers@.push(waker)
                && final(self).waker_key == Some(final(state).wakers@.len() as usize),
            !(r is StillPending) ==> final(state).wakers@ == old(state).wakers@
                && final(self).waker_key is None,
    {
        state.poll_update(&mut self.observed_version, &mut self.waker_key, waker)
    }
}

} // verus!
