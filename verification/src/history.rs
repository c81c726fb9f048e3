//! What holds of a watcher over its whole history of events.
//!
//! A history is the sequence of events that a watcher takes, oldest first. The
//! laws below speak of every history, and so of every interleaving of what the
//! caller does with what happens on the worker thread.

use vstd::prelude::*;
use crate::lifecycle::{next, next_wake, WatcherAction, WatcherEvent, WatcherPhase, WatcherState};

verus! {

/// The state after the events of `history`, taken in order.
pub open spec fn run(state: WatcherState, history: Seq<WatcherEvent>) -> WatcherState
    decreases history.len(),
{
    if history.len() == 0 {
        state
    } else {
        next(run(state, history.drop_last()), history.last()).0
    }
}

/// One where `event`, taken in `state`, asks for `action`; zero where not.
pub open spec fn asks(state: WatcherState, event: WatcherEvent, action: WatcherAction) -> nat {
    if next(state, event).1 == action {
        1
    } else {
        0
    }
}

/// One where `event`, taken in `state`, ends a call of the callback; zero
/// where not.
pub open spec fn ends_callback(state: WatcherState, event: WatcherEvent) -> nat {
    if event is CallbackReturned && state.delivering {
        1
    } else {
        0
    }
}

/// How often the events of `history` ask for `action`.
pub open spec fn times_asked(
    state: WatcherState,
    history: Seq<WatcherEvent>,
    action: WatcherAction,
) -> nat
    decreases history.len(),
{
    if history.len() == 0 {
        0
    } else {
        times_asked(state, history.drop_last(), action) + asks(
            run(state, history.drop_last()),
            history.last(),
            action,
        )
    }
}

/// How many calls of the foreign callback the events of `history` ask for.
pub open spec fn callbacks_started(state: WatcherState, history: Seq<WatcherEvent>) -> nat {
    times_asked(state, history, WatcherAction::InvokeCallback)
}

/// How many calls of the foreign callback come to their end in `history`.
pub open spec fn callbacks_returned(state: WatcherState, history: Seq<WatcherEvent>) -> nat
    decreases history.len(),
{
    if history.len() == 0 {
        0
    } else {
        callbacks_returned(state, history.drop_last()) + ends_callback(
            run(state, history.drop_last()),
            history.last(),
        )
    }
}

/// How far a phase is along the life cycle.
pub open spec fn phase_rank(phase: WatcherPhase) -> nat {
    match phase {
        WatcherPhase::Created => 0,
        WatcherPhase::Running => 1,
        WatcherPhase::Stopping => 2,
        WatcherPhase::Stopped => 3,
    }
}

/// The history of a worker that takes up `changes` changes one after the
/// other, each followed by the return of its callback.
pub open spec fn serial_changes(changes: nat) -> Seq<WatcherEvent>
    decreases changes,
{
    if changes == 0 {
        seq![]
    } else {
        serial_changes((changes - 1) as nat).push(WatcherEvent::Change).push(
            WatcherEvent::CallbackReturned,
        )
    }
}

/// One more event at the end of a history: the state moves one step on, and
/// the counts grow by what that step brings.
pub proof fn lemma_run_one_more(
    state: WatcherState,
    history: Seq<WatcherEvent>,
    event: WatcherEvent,
)
    ensures
        run(state, history.push(event)) == next(run(state, history), event).0,
        forall|action: WatcherAction|
            #[trigger] times_asked(state, history.push(event), action) == times_asked(
                state,
                history,
                action,
            ) + asks(run(state, history), event, action),
        callbacks_returned(state, history.push(event)) == callbacks_returned(state, history)
            + ends_callback(run(state, history), event),
{
    assert(history.push(event).drop_last() == history);
    assert(history.push(event).last() == event);
}

/// A history can be taken in two parts: the second part starts where the first
/// has ended, and the counts of both add up.
pub proof fn lemma_run_in_parts(
    state: WatcherState,
    first: Seq<WatcherEvent>,
    second: Seq<WatcherEvent>,
)
    ensures
        run(state, first + second) == run(run(state, first), second),
        forall|action: WatcherAction|
            #[trigger] times_asked(state, first + second, action) == times_asked(
                state,
                first,
                action,
            ) + times_asked(run(state, first), second, action),
        callbacks_returned(state, first + second) == callbacks_returned(state, first)
            + callbacks_returned(run(state, first), second),
    decreases second.len(),
{
    if second.len() == 0 {
        assert(first + second == first);
    } else {
        lemma_run_in_parts(state, first, second.drop_last());
        assert((first + second).drop_last() == first + second.drop_last());
        assert((first + second).last() == second.last());
        assert forall|action: WatcherAction|
            #[trigger] times_asked(state, first + second, action) == times_asked(
                state,
                first,
                action,
            ) + times_asked(run(state, first), second, action) by {
            assert(times_asked(state, first + second.drop_last(), action) == times_asked(
                state,
                first,
                action,
            ) + times_asked(run(state, first), second.drop_last(), action));
        }
    }
}

/// No event takes a well-formed state to one that is not.
pub proof fn lemma_run_well_formed(state: WatcherState, history: Seq<WatcherEvent>)
    requires
        state.well_formed(),
    ensures
        run(state, history).well_formed(),
    decreases history.len(),
{
    if history.len() > 0 {
        lemma_run_well_formed(state, history.drop_last());
    }
}

/// A watcher never goes back in its life cycle, and one that has stopped stays
/// as it is.
pub proof fn lemma_phase_never_goes_back(state: WatcherState, history: Seq<WatcherEvent>)
    ensures
        phase_rank(state.phase) <= phase_rank(run(state, history).phase),
        state.phase is Stopped && state.well_formed() ==> run(state, history) == state,
    decreases history.len(),
{
    if history.len() > 0 {
        lemma_phase_never_goes_back(state, history.drop_last());
    }
}

/// In its whole life a watcher has one worker thread spawned at most, its stop
/// signal fired once at most, and its worker told to leave once at most. Each
/// has happened exactly when the watcher has reached the phase that follows
/// from it.
pub proof fn lemma_one_worker_one_signal(history: Seq<WatcherEvent>)
    ensures
        times_asked(WatcherState::created(), history, WatcherAction::SpawnWorker) <= 1,
        times_asked(WatcherState::created(), history, WatcherAction::SpawnWorker) == 1 <==> !(run(
            WatcherState::created(),
            history,
        ).phase is Created),
        times_asked(WatcherState::created(), history, WatcherAction::SendStop) <= 1,
        times_asked(WatcherState::created(), history, WatcherAction::SendStop) == 1 <==> run(
            WatcherState::created(),
            history,
        ).phase is Stopping || run(WatcherState::created(), history).phase is Stopped,
        times_asked(WatcherState::created(), history, WatcherAction::ExitWorker) <= 1,
        times_asked(WatcherState::created(), history, WatcherAction::ExitWorker) == 1 <==> run(
            WatcherState::created(),
            history,
        ).phase is Stopped,
    decreases history.len(),
{
    if history.len() > 0 {
        lemma_one_worker_one_signal(history.drop_last());
    }
}

/// A change that a running worker takes up outside the callback asks for
/// exactly one call of it, and for nothing else; the return of that call
/// leaves the worker as it was, ready for the next change.
pub proof fn lemma_change_invokes_callback_once(state: WatcherState)
    requires
        state.phase is Running,
        !state.delivering,
    ensures
        next(state, WatcherEvent::Change).1 == WatcherAction::InvokeCallback,
        next(state, WatcherEvent::Change).0.delivering,
        next(next(state, WatcherEvent::Change).0, WatcherEvent::CallbackReturned) == (
            state,
            WatcherAction::Nothing,
        ),
{
}

/// While a watcher runs, every change is answered by one callback: after
/// `changes` changes, as many calls were asked for, and as many have returned.
pub proof fn lemma_one_callback_for_each_change(state: WatcherState, changes: nat)
    requires
        state.phase is Running,
        !state.delivering,
    ensures
        run(state, serial_changes(changes)) == state,
        callbacks_started(state, serial_changes(changes)) == changes,
        callbacks_returned(state, serial_changes(changes)) == changes,
    decreases changes,
{
    if changes > 0 {
        let earlier = serial_changes((changes - 1) as nat);
        let taken = earlier.push(WatcherEvent::Change);
        lemma_one_callback_for_each_change(state, (changes - 1) as nat);
        lemma_run_one_more(state, earlier, WatcherEvent::Change);
        lemma_run_one_more(state, taken, WatcherEvent::CallbackReturned);
    }
}

/// The worker is inside one callback at most: the calls asked for are the
/// calls that have returned, and the one under way.
pub proof fn lemma_one_callback_at_a_time(history: Seq<WatcherEvent>)
    ensures
        run(WatcherState::created(), history).delivering ==> callbacks_started(
            WatcherState::created(),
            history,
        ) == callbacks_returned(WatcherState::created(), history) + 1,
        !run(WatcherState::created(), history).delivering ==> callbacks_started(
            WatcherState::created(),
            history,
        ) == callbacks_returned(WatcherState::created(), history),
    decreases history.len(),
{
    if history.len() > 0 {
        lemma_one_callback_at_a_time(history.drop_last());
    }
}

/// Once the stop is requested no further callback is asked for, and one
/// callback at most still returns: the one that was under way when the stop
/// was requested.
pub proof fn lemma_stop_bounds_callbacks(state: WatcherState, later: Seq<WatcherEvent>)
    requires
        state.phase is Stopping || state.phase is Stopped,
    ensures
        run(state, later).phase is Stopping || run(state, later).phase is Stopped,
        callbacks_started(state, later) == 0,
        callbacks_returned(state, later) <= 1,
        callbacks_returned(state, later) == 1 ==> state.delivering && !run(state, later).delivering,
        !state.delivering ==> !run(state, later).delivering,
    decreases later.len(),
{
    if later.len() > 0 {
        lemma_stop_bounds_callbacks(state, later.drop_last());
    }
}

/// Whatever happened to a running watcher before its token was handed back,
/// and whatever happens after: no callback is asked for after the stop, and of
/// all the callbacks of the watcher's life one at most has not returned when
/// the stop is requested. That one may still run when the stop call is over;
/// no second one does.
pub proof fn lemma_at_most_one_callback_after_stop(
    earlier: Seq<WatcherEvent>,
    later: Seq<WatcherEvent>,
)
    requires
        run(WatcherState::created(), earlier).phase is Running,
    ensures
        callbacks_started(
            WatcherState::created(),
            earlier.push(WatcherEvent::StopRequested) + later,
        ) == callbacks_started(WatcherState::created(), earlier),
        callbacks_started(
            WatcherState::created(),
            earlier.push(WatcherEvent::StopRequested) + later,
        ) <= callbacks_returned(WatcherState::created(), earlier) + 1,
        callbacks_returned(
            WatcherState::created(),
            earlier.push(WatcherEvent::StopRequested) + later,
        ) <= callbacks_returned(WatcherState::created(), earlier) + 1,
{
    let created = WatcherState::created();
    let stopped = earlier.push(WatcherEvent::StopRequested);
    lemma_run_one_more(created, earlier, WatcherEvent::StopRequested);
    lemma_run_in_parts(created, stopped, later);
    lemma_stop_bounds_callbacks(run(created, stopped), later);
    lemma_one_callback_at_a_time(earlier);
}

/// A run loop that finds the stop signal calls no callback, whatever else is
/// ready; and a worker that is outside the callback leaves its loop then.
pub proof fn lemma_wake_stops_first(state: WatcherState, change_ready: bool)
    ensures
        next_wake(state, true, change_ready).1 != WatcherAction::InvokeCallback,
        (state.phase is Running || state.phase is Stopping) && !state.delivering ==> next_wake(
            state,
            true,
            change_ready,
        ) == (
            WatcherState { phase: WatcherPhase::Stopped, delivering: false },
            WatcherAction::ExitWorker,
        ),
{
}

/// What the worker knows of its watcher. The worker learns of a requested stop
/// only when it looks for the signal, so until then its view is that of a
/// running watcher; in everything else view and state are one.
pub open spec fn lags_behind(view: WatcherState, state: WatcherState) -> bool {
    view == state || (view.phase is Running && state.phase is Stopping && view.delivering
        == state.delivering)
}

/// A worker decides by its view as the state of its watcher has it. While no
/// stop is requested the view is the state. Once it is, the waking loop finds
/// the signal and does what the observed stop asks for. The return of a
/// callback is taken alike by both, and leaves the view behind the state as
/// before.
pub proof fn lemma_worker_view_decides_alike(
    view: WatcherState,
    state: WatcherState,
    change_ready: bool,
)
    requires
        lags_behind(view, state),
    ensures
        !(state.phase is Stopping) ==> view == state,
        state.phase is Stopping ==> next_wake(view, true, change_ready) == next(
            state,
            WatcherEvent::StopObserved,
        ),
        next(view, WatcherEvent::CallbackReturned).1 == next(
            state,
            WatcherEvent::CallbackReturned,
        ).1,
        lags_behind(
            next(view, WatcherEvent::CallbackReturned).0,
            next(state, WatcherEvent::CallbackReturned).0,
        ),
{
}

/// A worker whose stop is requested leaves its loop as soon as it looks for the
/// signal: after the return of the callback that may be under way.
pub proof fn lemma_stopping_worker_exits(state: WatcherState)
    requires
        state.phase is Stopping,
    ensures
        run(state, seq![WatcherEvent::CallbackReturned, WatcherEvent::StopObserved])
            == (WatcherState { phase: WatcherPhase::Stopped, delivering: false }),
        !state.delivering ==> next(state, WatcherEvent::StopObserved) == (
            WatcherState { phase: WatcherPhase::Stopped, delivering: false },
            WatcherAction::ExitWorker,
        ),
{
    let none = Seq::<WatcherEvent>::empty();
    let first = none.push(WatcherEvent::CallbackReturned);
    lemma_run_one_more(state, none, WatcherEvent::CallbackReturned);
    lemma_run_one_more(state, first, WatcherEvent::StopObserved);
    assert(first.push(WatcherEvent::StopObserved) == seq![
        WatcherEvent::CallbackReturned,
        WatcherEvent::StopObserved,
    ]);
}

/// A stop that follows the start at once ends the watcher, and no callback was
/// called.
pub proof fn lemma_stop_right_after_start()
    ensures
        run(
            WatcherState::created(),
            seq![WatcherEvent::Start, WatcherEvent::StopRequested, WatcherEvent::StopObserved],
        ) == (WatcherState { phase: WatcherPhase::Stopped, delivering: false }),
        callbacks_started(
            WatcherState::created(),
            seq![WatcherEvent::Start, WatcherEvent::StopRequested, WatcherEvent::StopObserved],
        ) == 0,
{
    let created = WatcherState::created();
    let none = Seq::<WatcherEvent>::empty();
    let one = none.push(WatcherEvent::Start);
    let two = one.push(WatcherEvent::StopRequested);
    lemma_run_one_more(created, none, WatcherEvent::Start);
    lemma_run_one_more(created, one, WatcherEvent::StopRequested);
    lemma_run_one_more(created, two, WatcherEvent::StopObserved);
    assert(two.push(WatcherEvent::StopObserved) == seq![
        WatcherEvent::Start,
        WatcherEvent::StopRequested,
        WatcherEvent::StopObserved,
    ]);
}

/// An event, and the watcher that it happens to.
pub struct Addressed {
    pub watcher: int,
    pub event: WatcherEvent,
}

/// The states of several watchers after a common history. Each event moves the
/// watcher that it is addressed to; one addressed to no watcher moves none.
pub open spec fn run_all(watchers: Seq<WatcherState>, history: Seq<Addressed>) -> Seq<
    WatcherState,
>
    decreases history.len(),
{
    if history.len() == 0 {
        watchers
    } else {
        let before = run_all(watchers, history.drop_last());
        let last = history.last();
        if 0 <= last.watcher < before.len() {
            before.update(last.watcher, next(before[last.watcher], last.event).0)
        } else {
            before
        }
    }
}

/// How many calls of its callback the watcher `watcher` is asked for in a
/// common history.
pub open spec fn callbacks_started_by(
    watchers: Seq<WatcherState>,
    history: Seq<Addressed>,
    watcher: int,
) -> nat
    decreases history.len(),
{
    if history.len() == 0 {
        0
    } else {
        let before = run_all(watchers, history.drop_last());
        let last = history.last();
        callbacks_started_by(watchers, history.drop_last(), watcher) + if last.watcher == watcher
            && 0 <= watcher < before.len() {
            asks(before[watcher], last.event, WatcherAction::InvokeCallback)
        } else {
            0
        }
    }
}

/// The events of a common history that are addressed to `watcher`, in order.
pub open spec fn events_of(history: Seq<Addressed>, watcher: int) -> Seq<WatcherEvent>
    decreases history.len(),
{
    if history.len() == 0 {
        seq![]
    } else {
        let earlier = events_of(history.drop_last(), watcher);
        if history.last().watcher == watcher {
            earlier.push(history.last().event)
        } else {
            earlier
        }
    }
}

/// Among several watchers each one fares as if it were alone: its state and
/// its callbacks are those that its own events give.
pub proof fn lemma_watcher_runs_alone(
    watchers: Seq<WatcherState>,
    history: Seq<Addressed>,
    watcher: int,
)
    requires
        0 <= watcher < watchers.len(),
    ensures
        run_all(watchers, history).len() == watchers.len(),
        run_all(watchers, history)[watcher] == run(watchers[watcher], events_of(history, watcher)),
        callbacks_started_by(watchers, history, watcher) == callbacks_started(
            watchers[watcher],
            events_of(history, watcher),
        ),
    decreases history.len(),
{
    if history.len() > 0 {
        let earlier = history.drop_last();
        let last = history.last();
        lemma_watcher_runs_alone(watchers, earlier, watcher);
        if last.watcher == watcher {
            lemma_run_one_more(watchers[watcher], events_of(earlier, watcher), last.event);
        } else if 0 <= last.watcher < watchers.len() {
            lemma_watcher_runs_alone(watchers, earlier, last.watcher);
        }
    }
}

/// What happens to the other watchers does not reach a watcher: two histories
/// that hold the same events for it, whatever they hold for the others (the
/// stop of another watcher, say), leave it in the same state with the same
/// callbacks.
pub proof fn lemma_watchers_isolated(
    watchers: Seq<WatcherState>,
    one: Seq<Addressed>,
    other: Seq<Addressed>,
    watcher: int,
)
    requires
        0 <= watcher < watchers.len(),
        events_of(one, watcher) == events_of(other, watcher),
    ensures
        run_all(watchers, one)[watcher] == run_all(watchers, other)[watcher],
        callbacks_started_by(watchers, one, watcher) == callbacks_started_by(
            watchers,
            other,
            watcher,
        ),
{
    lemma_watcher_runs_alone(watchers, one, watcher);
    lemma_watcher_runs_alone(watchers, other, watcher);
}

} // verus!
