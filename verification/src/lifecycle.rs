//! The life cycle of a watcher.
//!
//! One watcher is one worker thread. On that thread a run loop sleeps until a
//! subscribed entry has changed or the stop signal has come, whichever is
//! first, and answers each change with one call of the foreign callback, made
//! on the worker thread. The caller's side only starts the watcher and, later,
//! requests its stop; it does not wait for the worker.
//!
//! The threads, the sources and the signal belong to the host. What is decided
//! here is what each event leads to: the host reports the event, does what it
//! is told, and keeps the state.

use vstd::prelude::*;

verus! {

/// Where a watcher stands in its life.
#[derive(Clone, Copy, Debug, PartialEq, Eq, Structural)]
pub enum WatcherPhase {
    /// Not started yet.
    Created,
    /// The worker runs and the subscriptions are live.
    Running,
    /// The stop is requested; the worker has not left its loop yet.
    Stopping,
    /// The worker has left its loop.
    Stopped,
}

/// The state of one watcher.
#[derive(Clone, Copy, Debug, PartialEq, Eq, Structural)]
pub struct WatcherState {
    pub phase: WatcherPhase,
    /// A call of the foreign callback is under way on the worker thread.
    pub delivering: bool,
}

/// What happens to a watcher.
#[derive(Clone, Copy, Debug, PartialEq, Eq, Structural)]
pub enum WatcherEvent {
    /// The caller starts the watcher.
    Start,
    /// A subscribed entry has changed, and the run loop takes the change up.
    /// Which entry it was, and what it holds now, is not told.
    Change,
    /// The foreign callback has returned.
    CallbackReturned,
    /// The caller hands its token back.
    StopRequested,
    /// The run loop finds the stop signal.
    StopObserved,
}

/// What the host has to do in answer to an event.
#[derive(Clone, Copy, Debug, PartialEq, Eq, Structural)]
pub enum WatcherAction {
    /// Nothing.
    Nothing,
    /// Spawn the worker thread.
    SpawnWorker,
    /// Call the foreign callback once, with the caller's context and nothing
    /// else.
    InvokeCallback,
    /// Fire the stop signal.
    SendStop,
    /// Leave the run loop and end the worker thread.
    ExitWorker,
}

impl WatcherState {
    /// The state of a watcher that has not been started.
    pub open spec fn created() -> WatcherState {
        WatcherState { phase: WatcherPhase::Created, delivering: false }
    }

    /// A callback can be under way only while there is a worker.
    pub open spec fn well_formed(self) -> bool {
        self.delivering ==> self.phase is Running || self.phase is Stopping
    }

    /// A watcher that has not been started.
    pub fn new() -> (state: WatcherState)
        ensures
            state == WatcherState::created(),
            state.well_formed(),
    {
        WatcherState { phase: WatcherPhase::Created, delivering: false }
    }
}

/// The state after an event, and the action that the event asks for.
///
/// - `Start` takes a created watcher to `Running` and has the worker spawned.
/// - `Change` is taken up by a running worker that is not inside the callback,
///   and asks for one call of it. Once the stop is requested no change is taken
///   up any more.
/// - `CallbackReturned` ends the call that is under way.
/// - `StopRequested` takes a running watcher to `Stopping` and has the signal
///   fired. It does not interrupt a call that is under way.
/// - `StopObserved` takes a stopping worker that is outside the callback to
///   `Stopped`.
///
/// An event that the watcher cannot take in its state changes nothing and asks
/// for nothing.
pub open spec fn next(state: WatcherState, event: WatcherEvent) -> (WatcherState, WatcherAction) {
    match event {
        WatcherEvent::Start => if state.phase is Created && !state.delivering {
            (
                WatcherState { phase: WatcherPhase::Running, delivering: false },
                WatcherAction::SpawnWorker,
            )
        } else {
            (state, WatcherAction::Nothing)
        },
        WatcherEvent::Change => if state.phase is Running && !state.delivering {
            (
                WatcherState { phase: WatcherPhase::Running, delivering: true },
                WatcherAction::InvokeCallback,
            )
        } else {
            (state, WatcherAction::Nothing)
        },
        WatcherEvent::CallbackReturned => if state.delivering {
            (WatcherState { phase: state.phase, delivering: false }, WatcherAction::Nothing)
        } else {
            (state, WatcherAction::Nothing)
        },
        WatcherEvent::StopRequested => if state.phase is Running {
            (
                WatcherState { phase: WatcherPhase::Stopping, delivering: state.delivering },
                WatcherAction::SendStop,
            )
        } else {
            (state, WatcherAction::Nothing)
        },
        WatcherEvent::StopObserved => if state.phase is Stopping && !state.delivering {
            (
                WatcherState { phase: WatcherPhase::Stopped, delivering: false },
                WatcherAction::ExitWorker,
            )
        } else {
            (state, WatcherAction::Nothing)
        },
    }
}

/// What a waking run loop comes to. The loop looks for the stop signal first:
/// where it finds it, the stop is taken as requested and observed at once, and
/// a change that is ready as well is left alone. Without the signal, a change
/// that is ready is taken up.
pub open spec fn next_wake(state: WatcherState, stop_signalled: bool, change_ready: bool) -> (
    WatcherState,
    WatcherAction,
) {
    if stop_signalled {
        next(next(state, WatcherEvent::StopRequested).0, WatcherEvent::StopObserved)
    } else if change_ready {
        next(state, WatcherEvent::Change)
    } else {
        (state, WatcherAction::Nothing)
    }
}

/// Takes one event: gives the state after it and what the host has to do.
pub fn step(state: WatcherState, event: WatcherEvent) -> (taken: (WatcherState, WatcherAction))
    ensures
        taken == next(state, event),
        state.well_formed() ==> taken.0.well_formed(),
{
    let idle = !state.delivering;
    match (event, state.phase) {
        (WatcherEvent::Start, WatcherPhase::Created) if idle => (
            WatcherState { phase: WatcherPhase::Running, delivering: false },
            WatcherAction::SpawnWorker,
        ),
        (WatcherEvent::Change, WatcherPhase::Running) if idle => (
            WatcherState { phase: WatcherPhase::Running, delivering: true },
            WatcherAction::InvokeCallback,
        ),
        (WatcherEvent::CallbackReturned, phase) if !idle => (
            WatcherState { phase, delivering: false },
            WatcherAction::Nothing,
        ),
        (WatcherEvent::StopRequested, WatcherPhase::Running) => (
            WatcherState { phase: WatcherPhase::Stopping, delivering: state.delivering },
            WatcherAction::SendStop,
        ),
        (WatcherEvent::StopObserved, WatcherPhase::Stopping) if idle => (
            WatcherState { phase: WatcherPhase::Stopped, delivering: false },
            WatcherAction::ExitWorker,
        ),
        _ => (state, WatcherAction::Nothing),
    }
}

/// The run loop wakes: tells whether to call the callback, to leave the loop,
/// or to go back to sleep.
///
/// `stop_signalled` says whether the stop signal was found, `change_ready`
/// whether a subscribed entry has a change to report.
pub fn wake(state: WatcherState, stop_signalled: bool, change_ready: bool) -> (taken: (
    WatcherState,
    WatcherAction,
))
    ensures
        taken == next_wake(state, stop_signalled, change_ready),
        state.well_formed() ==> taken.0.well_formed(),
{
    if stop_signalled {
        let (requested, _) = step(state, WatcherEvent::StopRequested);
        step(requested, WatcherEvent::StopObserved)
    } else if change_ready {
        step(state, WatcherEvent::Change)
    } else {
        (state, WatcherAction::Nothing)
    }
}

} // verus!
