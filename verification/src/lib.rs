//! A minimal version-watch notification primitive.
//!
//! A shared counter (the "version") is mutated by external drivers through
//! [`state::State::set_version`]; any number of [`subscriber::Subscriber`]s
//! suspend until the version moves strictly past the one they last observed,
//! or until the version is set to `0`, which means the state is closed and no
//! further updates will ever be delivered.
//!
//! The crate verifies the decision logic of the primitive: what a poll
//! returns, how it updates the observer, and what setting the version does to
//! the registered wake handles. The asynchronous plumbing (an executor, the
//! suspension itself) lives with the caller, which drives
//! [`subscriber::Subscriber::poll_wait`] once per scheduling of the suspended
//! task.

pub mod laws;
pub mod state;
pub mod subscriber;
