//! Starting and stopping a watcher.
//!
//! The caller holds one token for each running watcher. The token owns the
//! transmitter of the watcher's stop signal, a signal that is sent once at
//! most; what the transmitter is made of is the host's matter.

use vstd::prelude::*;
use crate::lifecycle::{next, step, WatcherEvent, WatcherPhase, WatcherState};

verus! {

/// The caller's handle on a running watcher.
///
/// A start makes it and a stop takes it back. It cannot be copied, so the stop
/// signal is fired once at most.
#[derive(Debug)]
pub struct CosmicWatcherToken<S> {
    stop_signal: S,
}

impl<S> CosmicWatcherToken<S> {
    /// The transmitter that the token owns.
    pub closed spec fn stop_signal(self) -> S {
        self.stop_signal
    }
}

/// Starts a watcher around the transmitter of its stop signal.
///
/// Gives the caller's token, and the state in which the worker begins: that of
/// a created watcher that has taken `Start`. The host spawns the worker thread
/// with it; the call does not wait for the subscriptions to be set up.
pub fn libcosmic_watcher_start<S>(stop_signal: S) -> (started: (
    CosmicWatcherToken<S>,
    WatcherState,
))
    ensures
        started.0.stop_signal() == stop_signal,
        started.1 == next(WatcherState::created(), WatcherEvent::Start).0,
        started.1 == (WatcherState { phase: WatcherPhase::Running, delivering: false }),
{
    let (state, _) = step(WatcherState::new(), WatcherEvent::Start);
    (CosmicWatcherToken { stop_signal }, state)
}

/// Stops a watcher: takes the token and hands out the transmitter, for the host
/// to fire.
///
/// The call does not wait for the worker, and a callback that is under way is
/// not interrupted.
pub fn libcosmic_watcher_stop<S>(token: CosmicWatcherToken<S>) -> (stop_signal: S)
    ensures
        stop_signal == token.stop_signal(),
{
    token.stop_signal
}

} // verus!
