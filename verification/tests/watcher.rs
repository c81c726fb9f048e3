use cutecosmic::lifecycle::{
    step, wake, WatcherAction, WatcherEvent, WatcherPhase, WatcherState,
};
use cutecosmic::subscription::{
    plan_subscriptions, watch_config, ConfigEntry, ConfigurationSubscription, WatchBackend,
};
use cutecosmic::watcher::{libcosmic_watcher_start, libcosmic_watcher_stop};

const PHASES: [WatcherPhase; 4] =
    [WatcherPhase::Created, WatcherPhase::Running, WatcherPhase::Stopping, WatcherPhase::Stopped];

const EVENTS: [WatcherEvent; 5] = [
    WatcherEvent::Start,
    WatcherEvent::Change,
    WatcherEvent::CallbackReturned,
    WatcherEvent::StopRequested,
    WatcherEvent::StopObserved,
];

fn state(phase: WatcherPhase, delivering: bool) -> WatcherState {
    WatcherState { phase, delivering }
}

/// Feeds the events in order; gives the last state and the callbacks asked for.
fn play(mut current: WatcherState, events: &[WatcherEvent]) -> (WatcherState, usize) {
    let mut callbacks = 0;
    for event in events {
        let (after, action) = step(current, *event);
        if action == WatcherAction::InvokeCallback {
            callbacks += 1;
        }
        current = after;
    }
    (current, callbacks)
}

#[test]
fn watch_config_uses_the_daemon_where_it_answers() {
    assert_eq!(
        watch_config(true, ConfigEntry::DarkTheme),
        ConfigurationSubscription {
            entry: ConfigEntry::DarkTheme,
            backend: WatchBackend::SettingsDaemon,
        }
    );
}

#[test]
fn watch_config_falls_back_to_the_local_watch() {
    assert_eq!(
        watch_config(false, ConfigEntry::ToolkitPreferences),
        ConfigurationSubscription {
            entry: ConfigEntry::ToolkitPreferences,
            backend: WatchBackend::LocalWatch,
        }
    );
}

#[test]
fn plan_holds_the_four_entries_in_order() {
    for (daemon_available, backend) in
        [(true, WatchBackend::SettingsDaemon), (false, WatchBackend::LocalWatch)]
    {
        assert_eq!(
            plan_subscriptions(daemon_available),
            vec![
                ConfigurationSubscription { entry: ConfigEntry::ThemeMode, backend },
                ConfigurationSubscription { entry: ConfigEntry::DarkTheme, backend },
                ConfigurationSubscription { entry: ConfigEntry::LightTheme, backend },
                ConfigurationSubscription { entry: ConfigEntry::ToolkitPreferences, backend },
            ]
        );
    }
}

#[test]
fn new_watcher_is_created_and_idle() {
    assert_eq!(WatcherState::new(), state(WatcherPhase::Created, false));
}

#[test]
fn start_spawns_the_worker() {
    assert_eq!(
        step(state(WatcherPhase::Created, false), WatcherEvent::Start),
        (state(WatcherPhase::Running, false), WatcherAction::SpawnWorker)
    );
}

#[test]
fn change_asks_for_one_callback() {
    assert_eq!(
        step(state(WatcherPhase::Running, false), WatcherEvent::Change),
        (state(WatcherPhase::Running, true), WatcherAction::InvokeCallback)
    );
}

#[test]
fn callback_return_ends_the_call() {
    assert_eq!(
        step(state(WatcherPhase::Running, true), WatcherEvent::CallbackReturned),
        (state(WatcherPhase::Running, false), WatcherAction::Nothing)
    );
    assert_eq!(
        step(state(WatcherPhase::Stopping, true), WatcherEvent::CallbackReturned),
        (state(WatcherPhase::Stopping, false), WatcherAction::Nothing)
    );
}

#[test]
fn stop_request_sends_the_signal_and_keeps_the_call() {
    assert_eq!(
        step(state(WatcherPhase::Running, false), WatcherEvent::StopRequested),
        (state(WatcherPhase::Stopping, false), WatcherAction::SendStop)
    );
    assert_eq!(
        step(state(WatcherPhase::Running, true), WatcherEvent::StopRequested),
        (state(WatcherPhase::Stopping, true), WatcherAction::SendStop)
    );
}

#[test]
fn stop_observed_ends_the_worker() {
    assert_eq!(
        step(state(WatcherPhase::Stopping, false), WatcherEvent::StopObserved),
        (state(WatcherPhase::Stopped, false), WatcherAction::ExitWorker)
    );
}

#[test]
fn every_other_event_changes_nothing() {
    let taken = [
        (WatcherPhase::Created, false, WatcherEvent::Start),
        (WatcherPhase::Running, false, WatcherEvent::Change),
        (WatcherPhase::Running, true, WatcherEvent::CallbackReturned),
        (WatcherPhase::Stopping, true, WatcherEvent::CallbackReturned),
        (WatcherPhase::Running, false, WatcherEvent::StopRequested),
        (WatcherPhase::Running, true, WatcherEvent::StopRequested),
        (WatcherPhase::Stopping, false, WatcherEvent::StopObserved),
    ];
    for phase in PHASES {
        for delivering in [false, true] {
            let well_formed = !delivering
                || phase == WatcherPhase::Running
                || phase == WatcherPhase::Stopping;
            if !well_formed {
                continue;
            }
            for event in EVENTS {
                if taken.contains(&(phase, delivering, event)) {
                    continue;
                }
                assert_eq!(
                    step(state(phase, delivering), event),
                    (state(phase, delivering), WatcherAction::Nothing)
                );
            }
        }
    }
}

#[test]
fn no_change_is_taken_up_once_the_stop_is_requested() {
    for phase in [WatcherPhase::Stopping, WatcherPhase::Stopped, WatcherPhase::Created] {
        assert_eq!(
            step(state(phase, false), WatcherEvent::Change),
            (state(phase, false), WatcherAction::Nothing)
        );
    }
    assert_eq!(
        step(state(WatcherPhase::Stopping, true), WatcherEvent::Change),
        (state(WatcherPhase::Stopping, true), WatcherAction::Nothing)
    );
}

#[test]
fn start_and_stop_hand_the_transmitter_through() {
    let (token, worker) = libcosmic_watcher_start(String::from("transmitter"));
    assert_eq!(worker, state(WatcherPhase::Running, false));
    assert_eq!(libcosmic_watcher_stop(token), "transmitter");
}

#[test]
fn stop_right_after_start_ends_the_worker_without_a_callback() {
    let (token, worker) = libcosmic_watcher_start(7u32);
    assert_eq!(libcosmic_watcher_stop(token), 7);
    let (last, callbacks) =
        play(worker, &[WatcherEvent::StopRequested, WatcherEvent::StopObserved]);
    assert_eq!(last, state(WatcherPhase::Stopped, false));
    assert_eq!(callbacks, 0);
}

#[test]
fn each_change_of_the_four_entries_gives_one_callback() {
    let (_token, worker) = libcosmic_watcher_start(());
    let mut events = Vec::new();
    for _subscription in plan_subscriptions(false) {
        events.push(WatcherEvent::Change);
        events.push(WatcherEvent::CallbackReturned);
    }
    let (last, callbacks) = play(worker, &events);
    assert_eq!(callbacks, 4);
    assert_eq!(last, state(WatcherPhase::Running, false));
}

#[test]
fn a_stop_during_a_callback_lets_that_one_return_and_no_other_start() {
    let (_token, worker) = libcosmic_watcher_start(());
    let (during, before_stop) = play(worker, &[WatcherEvent::Change]);
    assert_eq!(before_stop, 1);
    assert_eq!(during, state(WatcherPhase::Running, true));

    let (last, after_stop) = play(
        during,
        &[
            WatcherEvent::StopRequested,
            WatcherEvent::Change,
            WatcherEvent::StopObserved,
            WatcherEvent::CallbackReturned,
            WatcherEvent::Change,
            WatcherEvent::StopObserved,
            WatcherEvent::Change,
            WatcherEvent::Start,
        ],
    );
    assert_eq!(after_stop, 0);
    assert_eq!(last, state(WatcherPhase::Stopped, false));
}

#[test]
fn a_stopped_watcher_takes_no_event() {
    for event in EVENTS {
        assert_eq!(
            step(state(WatcherPhase::Stopped, false), event),
            (state(WatcherPhase::Stopped, false), WatcherAction::Nothing)
        );
    }
}

#[test]
fn stopping_one_watcher_leaves_the_other_delivering() {
    let (first_token, mut first) = libcosmic_watcher_start(1u8);
    let (_second_token, mut second) = libcosmic_watcher_start(2u8);
    let mut second_callbacks = 0;

    assert_eq!(libcosmic_watcher_stop(first_token), 1);
    first = step(first, WatcherEvent::StopRequested).0;
    first = step(first, WatcherEvent::StopObserved).0;
    assert_eq!(first, state(WatcherPhase::Stopped, false));

    for _ in 0..3 {
        let (after, action) = step(second, WatcherEvent::Change);
        assert_eq!(action, WatcherAction::InvokeCallback);
        second_callbacks += 1;
        second = step(after, WatcherEvent::CallbackReturned).0;
    }
    assert_eq!(second_callbacks, 3);
    assert_eq!(second, state(WatcherPhase::Running, false));
    assert_eq!(step(first, WatcherEvent::Change).1, WatcherAction::Nothing);
}

#[test]
fn wake_without_signal_or_change_goes_back_to_sleep() {
    for phase in PHASES {
        assert_eq!(wake(state(phase, false), false, false), (state(phase, false), WatcherAction::Nothing));
    }
}

#[test]
fn wake_with_a_change_calls_the_callback() {
    assert_eq!(
        wake(state(WatcherPhase::Running, false), false, true),
        (state(WatcherPhase::Running, true), WatcherAction::InvokeCallback)
    );
}

#[test]
fn wake_with_the_signal_leaves_the_loop() {
    for change_ready in [false, true] {
        assert_eq!(
            wake(state(WatcherPhase::Running, false), true, change_ready),
            (state(WatcherPhase::Stopped, false), WatcherAction::ExitWorker)
        );
        assert_eq!(
            wake(state(WatcherPhase::Stopping, false), true, change_ready),
            (state(WatcherPhase::Stopped, false), WatcherAction::ExitWorker)
        );
    }
}

#[test]
fn wake_of_a_stopped_worker_does_nothing() {
    for stop_signalled in [false, true] {
        for change_ready in [false, true] {
            assert_eq!(
                wake(state(WatcherPhase::Stopped, false), stop_signalled, change_ready),
                (state(WatcherPhase::Stopped, false), WatcherAction::Nothing)
            );
        }
    }
}

#[test]
fn worker_loop_calls_back_until_the_signal_is_found() {
    let (token, mut worker) = libcosmic_watcher_start("signal");
    let mut callbacks = 0;
    let mut signalled = false;
    let mut token = Some(token);
    // Five changes arrive; the caller stops the watcher after the third.
    for change in 0..5 {
        if change == 3 {
            assert_eq!(libcosmic_watcher_stop(token.take().unwrap()), "signal");
            signalled = true;
        }
        let (taken, action) = wake(worker, signalled, true);
        worker = taken;
        if action == WatcherAction::InvokeCallback {
            callbacks += 1;
            worker = step(worker, WatcherEvent::CallbackReturned).0;
        }
    }
    assert_eq!(callbacks, 3);
    assert_eq!(worker, state(WatcherPhase::Stopped, false));
}
