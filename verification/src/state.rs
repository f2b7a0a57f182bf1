//! The shared side of the primitive: the current version number together with
//! the wake handles of every observer currently suspended on it.

use vstd::prelude::*;

verus! {

/// The task wake handle of the standard library. It is opaque here: the
/// library only stores handles and invokes them, it never looks inside one.
#[verifier::external_type_specification]
#[verifier::external_body]
pub struct ExWaker(core::task::Waker);

/// Relies on core::task::Waker::wake: consumes the handle and schedules the
/// associated task to be polled again. Nothing observable is returned, and
/// waking a handle whose task is gone is documented as a no-op.
pub assume_specification[ core::task::Waker::wake ](w: core::task::Waker);

/// What one poll of the shared state reports to an observer.
#[derive(Clone, Copy, Debug, PartialEq, Eq, Structural)]
pub enum UpdateResult {
    /// The version is `0`: the state is closed, no update will ever come.
    Closed,
    /// The version moved strictly past the observer's last observed one; the
    /// payload is the version the observer has now caught up to.
    Updated(u64),
    /// No strictly newer version yet: the observer stays suspended, its wake
    /// handle registered.
    StillPending,
}

/// The decision one poll makes, as a function of the current version and the
/// observer's last observed version. Equality is not progress: only a
/// strictly greater version resolves an observer, and `0` always means
/// closed, whatever was observed before.
pub open spec fn poll_outcome(version: u64, observed: u64) -> UpdateResult {
    if version == 0 {
        UpdateResult::Closed
    } else if observed < version {
        UpdateResult::Updated(version)
    } else {
        UpdateResult::StillPending
    }
}

/// The observer's observed version after one poll: it catches up to the
/// current version exactly when the poll reports an update, and is untouched
/// otherwise.
pub open spec fn observed_after(version: u64, observed: u64) -> u64 {
    if version != 0 && observed < version {
        version
    } else {
        observed
    }
}

/// The single source of truth: the current version and the wake handles of
/// all currently suspended observers, in registration order.
pub struct State {
    /// `0` means closed; any other value is a live version number.
    pub version: u64,
    /// One handle per suspended observer; drained as a whole whenever the
    /// version is set.
    pub wakers: Vec<core::task::Waker>,
}

impl State {
    /// A fresh state: live at version `1`, with no suspended observers.
    pub fn new() -> (s: State)
        ensures
            s.version == 1,
            s.wakers@.len() == 0,
    {
        State { version: 1, wakers: Vec::new() }
    }

    /// One evaluation of a suspended wait against the current state, made
    /// under exclusive access to `self`. The result, and the way it updates
    /// the observer's record, is exactly [`poll_outcome`] and
    /// [`observed_after`] of the current version and `*observed_version`:
    /// closed beats everything, a strictly newer version is delivered as one
    /// coalesced update, and anything else leaves the observer registered,
    /// its handle appended to the waiters.
    pub fn poll_update(
        &mut self,
        observed_version: &mut u64,
        waker_key: &mut Option<usize>,
        waker: core::task::Waker,
    ) -> (r: UpdateResult)
        ensures
            r == poll_outcome(old(self).version, *old(observed_version)),
            final(self).version == old(self).version,
            *final(observed_version) == observed_after(old(self).version, *old(observed_version)),
            r is StillPending ==> final(self).wakers@ == old(self).wakers@.push(waker)
                && *final(waker_key) == Some(final(self).wakers@.len() as usize),
            !(r is StillPending) ==> final(self).wakers@ == old(self).wakers@
                && *final(waker_key) == None::<usize>,
    {
        if self.version == 0 {
            *waker_key = None;
            UpdateResult::Closed
        } else if *observed_version < self.version {
            *waker_key = None;
            *observed_version = self.version;
            UpdateResult::Updated(self.version)
        } else {
            self.wakers.push(waker);
            *waker_key = Some(self.wakers.len());
            UpdateResult::StillPending
        }
    }

    /// Unconditionally overwrite the current version — lower, equal, or `0`
    /// to close the state for good — then wake every suspended observer and
    /// drain the waiters. Waking only schedules the observers to be polled
    /// again; each will catch up through its own later [`Self::poll_update`].
    pub fn set_version(&mut self, version: u64)
        ensures
            final(self).version == version,
            final(self).wakers@.len() == 0,
    {
        self.version = version;
        while self.wakers.len() > 0
            invariant
                self.version == version,
            decreases self.wakers@.len(),
        {
            if let Some(w) = self.wakers.pop() {
                w.wake();
            }
        }
    }
}

} // verus!
