use pcunifier::platform::macos::capture::event_key_state;
use pcunifier::platform::macos::capture::event_tap_callback;
use pcunifier::platform::macos::capture::MacOSCapture;
use pcunifier::platform::macos::capture::TapVerdict;
use pcunifier::platform::macos::capture::Teardown;
use pcunifier::platform::macos::capture::TeardownStep;
use pcunifier::platform::macos::capture::CG_EVENT_KEY_DOWN;
use pcunifier::platform::macos::capture::CG_EVENT_KEY_UP;
use pcunifier::platform::macos::capture::CG_HID_EVENT_TAP;
use pcunifier::platform::macos::capture::EVENT_MASK;
use pcunifier::platform::macos::create_action_executor;
use pcunifier::platform::macos::create_input_capture;
use pcunifier::platform::macos::executor::KeyPost;
use pcunifier::platform::macos::executor::MacOSExecutor;
use pcunifier::platform::macos::executor::PostOutcome;
use pcunifier::platform::macos::executor::CG_SESSION_EVENT_TAP;
use pcunifier::platform::Action;
use pcunifier::platform::InputEvent;
use pcunifier::platform::KeyCode;
use pcunifier::platform::KeyState;
use pcunifier::platform::PlatformError;

fn running_capture() -> MacOSCapture {
    let mut capture = MacOSCapture::new();
    let gate = capture.start().expect("an idle capture admits a start");
    let gate = gate.resolve(true).expect("trusted");
    let gate = gate.resolve(true).expect("tap created");
    let end = gate.resolve(&mut capture, true);
    assert_eq!(end.result, Ok(()));
    assert_eq!(end.undo, Teardown { stop_run_loop: false, join_worker: false });
    capture
}

#[test]
fn mac_event_mask_asks_for_key_down_and_key_up() {
    assert_eq!(EVENT_MASK, (1u64 << CG_EVENT_KEY_DOWN) | (1u64 << CG_EVENT_KEY_UP));
}

#[test]
fn mac_executor_posts_downstream_of_the_tap() {
    assert!(CG_SESSION_EVENT_TAP > CG_HID_EVENT_TAP);
}

#[test]
fn mac_start_without_permission_is_denied() {
    let capture = MacOSCapture::new();
    let gate = capture.start().expect("an idle capture admits a start");
    match gate.resolve(false) {
        Err(e) => assert_eq!(
            e,
            PlatformError::PermissionDenied(
                "Accessibility permission required. Grant it in System Settings > Privacy & Security > Accessibility."
                    .into()
            )
        ),
        Ok(_) => panic!("an untrusted process must be refused"),
    }
}

#[test]
fn mac_start_without_tap_is_denied() {
    let capture = MacOSCapture::new();
    let gate = capture.start().expect("admitted").resolve(true).expect("trusted");
    match gate.resolve(false) {
        Err(e) => assert_eq!(
            e,
            PlatformError::PermissionDenied(
                "CGEventTapCreate returned null. Verify Accessibility permission is active.".into()
            )
        ),
        Ok(_) => panic!("a null tap must be refused"),
    }
}

#[test]
fn mac_start_with_lost_worker_fails_and_stays_idle() {
    let mut capture = MacOSCapture::new();
    let gate = capture
        .start()
        .expect("admitted")
        .resolve(true)
        .expect("trusted")
        .resolve(true)
        .expect("tap created");
    let end = gate.resolve(&mut capture, false);
    assert_eq!(
        end.result,
        Err(PlatformError::Other("background thread exited before run loop was ready".into()))
    );
    assert_eq!(end.undo, Teardown { stop_run_loop: false, join_worker: true });
    assert_eq!(capture.stop(), Ok(Teardown { stop_run_loop: false, join_worker: false }));
    assert!(capture.start().is_ok());
}

#[test]
fn mac_start_that_ends_on_a_running_capture_is_refused() {
    let mut capture = MacOSCapture::new();
    let through_the_gates = |capture: &MacOSCapture| {
        capture
            .start()
            .expect("admitted")
            .resolve(true)
            .expect("trusted")
            .resolve(true)
            .expect("tap created")
    };
    let first = through_the_gates(&capture);
    let second = through_the_gates(&capture);
    let third = through_the_gates(&capture);
    assert_eq!(first.resolve(&mut capture, true).result, Ok(()));

    let end = second.resolve(&mut capture, true);
    assert_eq!(end.result, Err(PlatformError::Other("capture is already running".into())));
    assert_eq!(end.undo, Teardown { stop_run_loop: true, join_worker: true });

    let end = third.resolve(&mut capture, false);
    assert_eq!(end.result, Err(PlatformError::Other("capture is already running".into())));
    assert_eq!(end.undo, Teardown { stop_run_loop: false, join_worker: true });

    assert_eq!(capture.stop(), Ok(Teardown { stop_run_loop: true, join_worker: true }));
}

#[test]
fn mac_start_on_running_capture_fails() {
    let capture = running_capture();
    match capture.start() {
        Err(e) => assert_eq!(e, PlatformError::Other("capture is already running".into())),
        Ok(_) => panic!("a running capture admits no start"),
    }
}

#[test]
fn mac_stop_undoes_a_start_and_twice_is_once() {
    let mut capture = running_capture();
    assert_eq!(capture.stop(), Ok(Teardown { stop_run_loop: true, join_worker: true }));
    assert_eq!(capture.stop(), Ok(Teardown { stop_run_loop: false, join_worker: false }));
    assert!(capture.start().is_ok());
}

#[test]
fn mac_worker_releases_callback_state_last() {
    assert_eq!(
        MacOSCapture::worker_teardown(),
        vec![TeardownStep::DisableTap, TeardownStep::ReleaseTap, TeardownStep::ReleaseCallbackState]
    );
}

#[test]
fn mac_tap_forwards_and_suppresses_known_keys() {
    assert_eq!(
        event_tap_callback(CG_EVENT_KEY_DOWN, 0x00, 0),
        TapVerdict::ForwardAndSuppress(InputEvent::bare(KeyCode::A, KeyState::Down))
    );
    assert_eq!(
        event_tap_callback(CG_EVENT_KEY_UP, 0x24, 0),
        TapVerdict::ForwardAndSuppress(InputEvent::bare(KeyCode::Enter, KeyState::Up))
    );
    assert_eq!(
        event_tap_callback(10, 0x3E, 0),
        TapVerdict::ForwardAndSuppress(InputEvent::bare(KeyCode::Ctrl, KeyState::Down))
    );
    assert_eq!(
        event_tap_callback(11, 0x69, 0),
        TapVerdict::ForwardAndSuppress(InputEvent::bare(KeyCode::F13, KeyState::Up))
    );
}

#[test]
fn mac_tap_lets_everything_else_through() {
    assert_eq!(event_tap_callback(CG_EVENT_KEY_DOWN, 0xFF, 0), TapVerdict::PassThrough);
    assert_eq!(event_tap_callback(CG_EVENT_KEY_DOWN, 0x41, 0), TapVerdict::PassThrough);
    assert_eq!(event_tap_callback(12, 0x00, 0), TapVerdict::PassThrough);
    assert_eq!(event_tap_callback(0, 0x00, 0), TapVerdict::PassThrough);
    assert_eq!(event_tap_callback(0xFFFF_FFFE, 0x00, 0), TapVerdict::PassThrough);
}

#[test]
fn mac_event_types() {
    assert_eq!(event_key_state(10), Some(KeyState::Down));
    assert_eq!(event_key_state(11), Some(KeyState::Up));
    assert_eq!(event_key_state(12), None);
    assert_eq!(event_key_state(9), None);
}

#[test]
fn mac_plan_lowers_inject_key() {
    let executor = MacOSExecutor::new();
    assert_eq!(
        executor.plan(&Action::InjectKey { key: KeyCode::A, state: KeyState::Down }),
        Some(KeyPost { vkcode: 0x00, key_down: true })
    );
    assert_eq!(
        executor.plan(&Action::InjectKey { key: KeyCode::Meta, state: KeyState::Up }),
        Some(KeyPost { vkcode: 0x37, key_down: false })
    );
    assert_eq!(
        executor.plan(&Action::InjectKey { key: KeyCode::F15, state: KeyState::Down }),
        Some(KeyPost { vkcode: 0x71, key_down: true })
    );
}

#[test]
fn mac_plan_skips_keys_without_code() {
    let executor = MacOSExecutor::new();
    for key in [
        KeyCode::F21,
        KeyCode::F22,
        KeyCode::F23,
        KeyCode::F24,
        KeyCode::PrintScreen,
        KeyCode::ScrollLock,
        KeyCode::Pause,
    ] {
        assert_eq!(executor.plan(&Action::InjectKey { key, state: KeyState::Down }), None);
        assert_eq!(executor.plan(&Action::InjectKey { key, state: KeyState::Up }), None);
    }
}

#[test]
fn mac_plan_skips_type_string() {
    let executor = MacOSExecutor::new();
    assert_eq!(executor.plan(&Action::TypeString { text: "hi".into() }), None);
}

#[test]
fn mac_settle_names_what_failed() {
    let executor = MacOSExecutor::new();
    assert_eq!(executor.settle(PostOutcome::Posted), Ok(()));
    assert_eq!(
        executor.settle(PostOutcome::NoEventSource),
        Err(PlatformError::Other("CGEventSourceCreate returned null".into()))
    );
    assert_eq!(
        executor.settle(PostOutcome::NoEvent),
        Err(PlatformError::Other("CGEventCreateKeyboardEvent returned null".into()))
    );
}

#[test]
fn mac_factories_succeed() {
    let mut capture = create_input_capture().expect("the factory cannot fail");
    assert_eq!(capture.stop(), Ok(Teardown { stop_run_loop: false, join_worker: false }));
    assert_eq!(create_action_executor(), Ok(MacOSExecutor::new()));
}

#[test]
fn mac_tap_drops_the_repeats_of_a_held_key() {
    assert_eq!(event_tap_callback(CG_EVENT_KEY_DOWN, 0x00, 1), TapVerdict::Suppress);
    assert_eq!(event_tap_callback(CG_EVENT_KEY_DOWN, 0x24, 1), TapVerdict::Suppress);
    assert_eq!(event_tap_callback(CG_EVENT_KEY_DOWN, 0x00, -1), TapVerdict::Suppress);
    assert_eq!(event_tap_callback(CG_EVENT_KEY_DOWN, 0x00, i64::MAX), TapVerdict::Suppress);
    assert_eq!(
        event_tap_callback(CG_EVENT_KEY_DOWN, 0x00, 0),
        TapVerdict::ForwardAndSuppress(InputEvent::bare(KeyCode::A, KeyState::Down))
    );
}

#[test]
fn mac_tap_lets_repeats_of_unknown_keys_through() {
    assert_eq!(event_tap_callback(CG_EVENT_KEY_DOWN, 0xFF, 1), TapVerdict::PassThrough);
    assert_eq!(event_tap_callback(12, 0x00, 1), TapVerdict::PassThrough);
}

#[test]
fn mac_finish_succeeds_when_nothing_was_planned() {
    let executor = MacOSExecutor::new();
    assert_eq!(executor.finish(None), Ok(()));
    assert_eq!(executor.finish(Some(PostOutcome::Posted)), Ok(()));
    assert_eq!(
        executor.finish(Some(PostOutcome::NoEvent)),
        Err(PlatformError::Other("CGEventCreateKeyboardEvent returned null".into()))
    );
}

#[test]
fn mac_execute_posts_inject_key_once() {
    let executor = MacOSExecutor::new();
    let mut posted = Vec::new();
    let done = executor.execute(
        &Action::InjectKey { key: KeyCode::A, state: KeyState::Down },
        |event| {
            posted.push(event);
            PostOutcome::Posted
        },
    );
    assert_eq!(done, Ok(()));
    assert_eq!(posted, vec![KeyPost { vkcode: 0x00, key_down: true }]);
}

#[test]
fn mac_execute_reports_a_failed_post() {
    let executor = MacOSExecutor::new();
    assert_eq!(
        executor.execute(&Action::InjectKey { key: KeyCode::A, state: KeyState::Up }, |_| {
            PostOutcome::NoEventSource
        }),
        Err(PlatformError::Other("CGEventSourceCreate returned null".into()))
    );
}

#[test]
fn mac_execute_of_other_actions_posts_nothing() {
    let executor = MacOSExecutor::new();
    let mut calls = 0;
    for action in [
        Action::Passthrough,
        Action::Suppress,
        Action::Exec { command: "ls".into() },
        Action::Remap { from: KeyCode::A, to: KeyCode::B },
        Action::TypeString { text: "hi".into() },
        Action::InjectKey { key: KeyCode::F24, state: KeyState::Down },
        Action::InjectKey { key: KeyCode::Pause, state: KeyState::Up },
    ] {
        let done = executor.execute(&action, |_| {
            calls += 1;
            PostOutcome::NoEvent
        });
        assert_eq!(done, Ok(()));
    }
    assert_eq!(calls, 0);
}
