use pcunifier::platform::windows::capture::hook_report;
use pcunifier::platform::windows::capture::HookEvent;
use pcunifier::platform::windows::capture::HookGate;
use pcunifier::platform::windows::capture::HookState;
use pcunifier::platform::windows::capture::HookVerdict;
use pcunifier::platform::windows::capture::Teardown;
use pcunifier::platform::windows::capture::WindowsCapture;
use pcunifier::platform::windows::capture::HC_ACTION;
use pcunifier::platform::windows::capture::LLKHF_EXTENDED;
use pcunifier::platform::windows::capture::LLKHF_INJECTED;
use pcunifier::platform::windows::capture::WM_KEYDOWN;
use pcunifier::platform::windows::capture::WM_KEYUP;
use pcunifier::platform::windows::capture::WM_SYSKEYDOWN;
use pcunifier::platform::windows::capture::WM_SYSKEYUP;
use pcunifier::platform::windows::create_action_executor;
use pcunifier::platform::windows::create_input_capture;
use pcunifier::platform::windows::executor::KeyboardInput;
use pcunifier::platform::windows::executor::WindowsExecutor;
use pcunifier::platform::windows::executor::KEYEVENTF_KEYUP;
use pcunifier::platform::windows::keycodes::EXTENDED;
use pcunifier::platform::Action;
use pcunifier::platform::InputEvent;
use pcunifier::platform::KeyCode;
use pcunifier::platform::KeyState;
use pcunifier::platform::PlatformError;

const IDLE: Teardown =
    Teardown { unhook: None, clear_callback: false, post_quit_to: None, join_worker: false };

fn hook_proc(event: HookEvent) -> HookVerdict {
    HookState::new().hook_proc(event)
}

fn admitted(capture: &WindowsCapture) -> HookGate {
    capture.start().expect("an idle capture admits a start").resolve(true).expect("callback stored")
}

fn typed(message: u32, vk_code: u32, flags: u32) -> HookEvent {
    HookEvent { n_code: HC_ACTION, message, vk_code, flags }
}

#[test]
fn hook_forwards_and_suppresses_typed_keys() {
    assert_eq!(
        hook_proc(typed(WM_KEYDOWN, 0x41, 0)),
        HookVerdict::ForwardAndSuppress(InputEvent::bare(KeyCode::A, KeyState::Down))
    );
    assert_eq!(
        hook_proc(typed(WM_KEYUP, 0x41, 0x80)),
        HookVerdict::ForwardAndSuppress(InputEvent::bare(KeyCode::A, KeyState::Up))
    );
    assert_eq!(
        hook_proc(typed(WM_SYSKEYDOWN, 0x09, 0x20)),
        HookVerdict::ForwardAndSuppress(InputEvent::bare(KeyCode::Tab, KeyState::Down))
    );
    assert_eq!(
        hook_proc(typed(WM_SYSKEYUP, 0xA5, LLKHF_EXTENDED)),
        HookVerdict::ForwardAndSuppress(InputEvent::bare(KeyCode::Alt, KeyState::Up))
    );
}

#[test]
fn hook_reads_the_extended_bit() {
    assert_eq!(
        hook_proc(typed(WM_KEYDOWN, 0x0D, 0)),
        HookVerdict::ForwardAndSuppress(InputEvent::bare(KeyCode::Enter, KeyState::Down))
    );
    assert_eq!(
        hook_proc(typed(WM_KEYDOWN, 0x0D, LLKHF_EXTENDED)),
        HookVerdict::ForwardAndSuppress(InputEvent::bare(KeyCode::NumpadEnter, KeyState::Down))
    );
    assert_eq!(
        hook_proc(typed(WM_KEYDOWN, 0x0D, LLKHF_EXTENDED | 0x80)),
        HookVerdict::ForwardAndSuppress(InputEvent::bare(KeyCode::NumpadEnter, KeyState::Down))
    );
}

#[test]
fn hook_lets_injected_events_through() {
    assert_eq!(hook_proc(typed(WM_KEYDOWN, 0x41, LLKHF_INJECTED)), HookVerdict::CallNext);
    assert_eq!(hook_proc(typed(WM_KEYUP, 0x41, LLKHF_INJECTED | 0x80)), HookVerdict::CallNext);
    assert_eq!(
        hook_proc(typed(WM_KEYDOWN, 0x0D, LLKHF_INJECTED | LLKHF_EXTENDED)),
        HookVerdict::CallNext
    );
    assert_eq!(hook_proc(typed(WM_KEYDOWN, 0x41, 0xFFFF_FFFF)), HookVerdict::CallNext);
}

#[test]
fn hook_passes_what_it_does_not_know() {
    assert_eq!(hook_proc(typed(WM_KEYDOWN, 0xFF, 0)), HookVerdict::CallNext);
    assert_eq!(hook_proc(typed(WM_KEYDOWN, 0x07, 0)), HookVerdict::CallNext);
    assert_eq!(hook_proc(typed(0x0102, 0x41, 0)), HookVerdict::CallNext);
    assert_eq!(hook_proc(typed(0, 0x41, 0)), HookVerdict::CallNext);
    assert_eq!(
        hook_proc(HookEvent { n_code: -1, message: WM_KEYDOWN, vk_code: 0x41, flags: 0 }),
        HookVerdict::CallNext
    );
    assert_eq!(
        hook_proc(HookEvent { n_code: 3, message: WM_KEYDOWN, vk_code: 0x41, flags: 0 }),
        HookVerdict::CallNext
    );
}

#[test]
fn hook_takes_the_low_half_of_the_code() {
    assert_eq!(
        hook_proc(typed(WM_KEYDOWN, 0x0001_0041, 0)),
        HookVerdict::ForwardAndSuppress(InputEvent::bare(KeyCode::A, KeyState::Down))
    );
}

#[test]
fn hook_report_refuses_a_null_handle() {
    assert_eq!(hook_report(0x1234, 77), Ok((0x1234, 77)));
    assert_eq!(hook_report(-5, 77), Ok((-5, 77)));
    assert_eq!(hook_report(0, 77), Err(PlatformError::Other("SetWindowsHookExW failed".into())));
}

#[test]
fn windows_start_with_poisoned_slot_fails() {
    let capture = WindowsCapture::new();
    let gate = capture.start().expect("an idle capture admits a start");
    match gate.resolve(false) {
        Err(e) => assert_eq!(e, PlatformError::Other("callback mutex poisoned".into())),
        Ok(_) => panic!("a poisoned slot must be refused"),
    }
}

#[test]
fn windows_start_holds_what_the_worker_reports() {
    let mut capture = WindowsCapture::new();
    let gate = admitted(&capture);
    let end = gate.resolve(&mut capture, Some(hook_report(0x1234, 77)));
    assert_eq!(end.result, Ok(()));
    assert_eq!(end.undo, IDLE);
    assert_eq!(
        capture.stop(),
        Ok(Teardown {
            unhook: Some(0x1234),
            clear_callback: true,
            post_quit_to: Some(77),
            join_worker: true
        })
    );
    assert_eq!(capture.stop(), Ok(IDLE));
    assert_eq!(capture.stop(), Ok(IDLE));
}

#[test]
fn windows_start_with_failed_hook_clears_the_callback() {
    let mut capture = WindowsCapture::new();
    let gate = admitted(&capture);
    let end = gate.resolve(&mut capture, Some(hook_report(0, 77)));
    assert_eq!(end.result, Err(PlatformError::Other("SetWindowsHookExW failed".into())));
    assert_eq!(end.undo, Teardown { clear_callback: true, ..IDLE });
    assert_eq!(capture.stop(), Ok(IDLE));
}

#[test]
fn windows_start_with_lost_worker_fails() {
    let mut capture = WindowsCapture::new();
    let gate = admitted(&capture);
    let end = gate.resolve(&mut capture, None);
    assert_eq!(
        end.result,
        Err(PlatformError::Other("capture thread exited before reporting hook status".into()))
    );
    assert_eq!(end.undo, Teardown { clear_callback: true, ..IDLE });
    assert_eq!(capture.stop(), Ok(IDLE));
}

#[test]
fn windows_plan_sets_key_up_and_extended() {
    let executor = WindowsExecutor::new();
    assert_eq!(KEYEVENTF_KEYUP, 2);
    assert_eq!(
        executor.plan(&Action::InjectKey { key: KeyCode::A, state: KeyState::Down }),
        Some(KeyboardInput { vk: 0x41, flags: 0 })
    );
    assert_eq!(
        executor.plan(&Action::InjectKey { key: KeyCode::A, state: KeyState::Up }),
        Some(KeyboardInput { vk: 0x41, flags: 2 })
    );
    assert_eq!(
        executor.plan(&Action::InjectKey { key: KeyCode::NumpadEnter, state: KeyState::Down }),
        Some(KeyboardInput { vk: 0x0D, flags: EXTENDED })
    );
    assert_eq!(
        executor.plan(&Action::InjectKey { key: KeyCode::Delete, state: KeyState::Up }),
        Some(KeyboardInput { vk: 0x2E, flags: 3 })
    );
    assert_eq!(
        executor.plan(&Action::InjectKey { key: KeyCode::Ctrl, state: KeyState::Down }),
        Some(KeyboardInput { vk: 0xA2, flags: 0 })
    );
}

#[test]
fn windows_plan_skips_type_string() {
    let executor = WindowsExecutor::new();
    assert_eq!(executor.plan(&Action::TypeString { text: "hi".into() }), None);
}

#[test]
fn windows_settle_fails_when_nothing_was_sent() {
    let executor = WindowsExecutor::new();
    assert_eq!(executor.settle(1), Ok(()));
    assert_eq!(executor.settle(2), Ok(()));
    assert_eq!(executor.settle(0), Err(PlatformError::Other("SendInput returned 0".into())));
}

#[test]
fn windows_factories_are_unavailable() {
    match create_input_capture() {
        Err(e) => assert_eq!(
            e,
            PlatformError::Unavailable("Windows input capture is not yet implemented (M5).".into())
        ),
        Ok(_) => panic!("the factory hands out nothing yet"),
    }
    assert_eq!(
        create_action_executor(),
        Err(PlatformError::Unavailable(
            "Windows action executor is not yet implemented (M5).".into()
        ))
    );
}

#[test]
fn windows_stop_on_idle_capture_leaves_the_callback_slot_alone() {
    let mut capture = WindowsCapture::new();
    let teardown = capture.stop().expect("stop never fails");
    assert!(!teardown.clear_callback);
    assert_eq!(teardown, IDLE);
}

#[test]
fn windows_stop_clears_the_slot_of_a_capture_that_ran() {
    let mut capture = WindowsCapture::new();
    let gate = admitted(&capture);
    let end = gate.resolve(&mut capture, Some(hook_report(0x10, 5)));
    assert_eq!(end.result, Ok(()));
    let teardown = capture.stop().expect("stop never fails");
    assert!(teardown.clear_callback);
    assert!(!capture.stop().expect("stop never fails").clear_callback);
}

#[test]
fn windows_start_on_running_capture_is_refused() {
    let mut capture = WindowsCapture::new();
    let gate = admitted(&capture);
    let end = gate.resolve(&mut capture, Some(hook_report(0x1234, 77)));
    assert_eq!(end.result, Ok(()));
    match capture.start() {
        Err(e) => assert_eq!(e, PlatformError::Other("capture is already running".into())),
        Ok(_) => panic!("a running capture must refuse a start"),
    }
    assert_eq!(
        capture.stop(),
        Ok(Teardown {
            unhook: Some(0x1234),
            clear_callback: true,
            post_quit_to: Some(77),
            join_worker: true
        })
    );
    assert!(capture.start().is_ok());
}

#[test]
fn hook_drops_the_repeats_of_a_held_key() {
    let mut state = HookState::new();
    assert_eq!(
        state.hook_proc(typed(WM_KEYDOWN, 0x41, 0)),
        HookVerdict::ForwardAndSuppress(InputEvent::bare(KeyCode::A, KeyState::Down))
    );
    for _ in 0..5 {
        assert_eq!(state.hook_proc(typed(WM_KEYDOWN, 0x41, 0)), HookVerdict::Suppress);
    }
    assert_eq!(
        state.hook_proc(typed(WM_KEYUP, 0x41, 0x80)),
        HookVerdict::ForwardAndSuppress(InputEvent::bare(KeyCode::A, KeyState::Up))
    );
    assert_eq!(
        state.hook_proc(typed(WM_KEYDOWN, 0x41, 0)),
        HookVerdict::ForwardAndSuppress(InputEvent::bare(KeyCode::A, KeyState::Down))
    );
}

#[test]
fn hook_holds_each_physical_key_by_itself() {
    let mut state = HookState::new();
    assert_eq!(
        state.hook_proc(typed(WM_KEYDOWN, 0xA0, 0)),
        HookVerdict::ForwardAndSuppress(InputEvent::bare(KeyCode::Shift, KeyState::Down))
    );
    assert_eq!(
        state.hook_proc(typed(WM_KEYDOWN, 0xA1, 0)),
        HookVerdict::ForwardAndSuppress(InputEvent::bare(KeyCode::Shift, KeyState::Down))
    );
    assert_eq!(state.hook_proc(typed(WM_KEYDOWN, 0xA0, 0)), HookVerdict::Suppress);
    assert_eq!(
        state.hook_proc(typed(WM_KEYDOWN, 0x0D, 0)),
        HookVerdict::ForwardAndSuppress(InputEvent::bare(KeyCode::Enter, KeyState::Down))
    );
    assert_eq!(
        state.hook_proc(typed(WM_KEYDOWN, 0x0D, LLKHF_EXTENDED)),
        HookVerdict::ForwardAndSuppress(InputEvent::bare(KeyCode::NumpadEnter, KeyState::Down))
    );
    assert_eq!(state.hook_proc(typed(WM_KEYDOWN, 0x0D, 0)), HookVerdict::Suppress);
    assert_eq!(
        state.hook_proc(typed(WM_SYSKEYUP, 0x0D, 0)),
        HookVerdict::ForwardAndSuppress(InputEvent::bare(KeyCode::Enter, KeyState::Up))
    );
    assert_eq!(state.hook_proc(typed(WM_KEYDOWN, 0x0D, LLKHF_EXTENDED)), HookVerdict::Suppress);
}

#[test]
fn hook_does_not_take_injected_events_for_held_keys() {
    let mut state = HookState::new();
    assert_eq!(state.hook_proc(typed(WM_KEYDOWN, 0x41, LLKHF_INJECTED)), HookVerdict::CallNext);
    assert_eq!(
        state.hook_proc(typed(WM_KEYDOWN, 0x41, 0)),
        HookVerdict::ForwardAndSuppress(InputEvent::bare(KeyCode::A, KeyState::Down))
    );
    assert_eq!(state.hook_proc(typed(WM_KEYUP, 0x41, LLKHF_INJECTED)), HookVerdict::CallNext);
    assert_eq!(state.hook_proc(typed(WM_KEYDOWN, 0x41, 0)), HookVerdict::Suppress);
}

#[test]
fn hook_lets_repeats_of_unknown_keys_through() {
    let mut state = HookState::new();
    assert_eq!(state.hook_proc(typed(WM_KEYDOWN, 0xFF, 0)), HookVerdict::CallNext);
    assert_eq!(state.hook_proc(typed(WM_KEYDOWN, 0xFF, 0)), HookVerdict::CallNext);
}

#[test]
fn windows_finish_succeeds_when_nothing_was_planned() {
    let executor = WindowsExecutor::new();
    assert_eq!(executor.finish(None), Ok(()));
    assert_eq!(executor.finish(Some(1)), Ok(()));
    assert_eq!(
        executor.finish(Some(0)),
        Err(PlatformError::Other("SendInput returned 0".into()))
    );
}

#[test]
fn windows_start_that_ends_on_a_running_capture_is_refused() {
    let mut capture = WindowsCapture::new();
    let first = admitted(&capture);
    let second = admitted(&capture);
    let third = admitted(&capture);
    assert_eq!(first.resolve(&mut capture, Some(hook_report(0x1234, 77))).result, Ok(()));

    let end = second.resolve(&mut capture, Some(hook_report(0x5678, 88)));
    assert_eq!(end.result, Err(PlatformError::Other("capture is already running".into())));
    assert_eq!(
        end.undo,
        Teardown {
            unhook: Some(0x5678),
            clear_callback: false,
            post_quit_to: Some(88),
            join_worker: true
        }
    );

    let end = third.resolve(&mut capture, None);
    assert_eq!(end.result, Err(PlatformError::Other("capture is already running".into())));
    assert_eq!(end.undo, IDLE);

    assert_eq!(
        capture.stop(),
        Ok(Teardown {
            unhook: Some(0x1234),
            clear_callback: true,
            post_quit_to: Some(77),
            join_worker: true
        })
    );
}

#[test]
fn windows_execute_sends_inject_key_once() {
    let executor = WindowsExecutor::new();
    let mut sent = Vec::new();
    let done = executor.execute(
        &Action::InjectKey { key: KeyCode::Delete, state: KeyState::Up },
        |event| {
            sent.push(event);
            1
        },
    );
    assert_eq!(done, Ok(()));
    assert_eq!(sent, vec![KeyboardInput { vk: 0x2E, flags: 3 }]);
}

#[test]
fn windows_execute_fails_when_nothing_was_sent() {
    let executor = WindowsExecutor::new();
    assert_eq!(
        executor.execute(&Action::InjectKey { key: KeyCode::A, state: KeyState::Down }, |_| 0),
        Err(PlatformError::Other("SendInput returned 0".into()))
    );
}

#[test]
fn windows_execute_of_other_actions_sends_nothing() {
    let executor = WindowsExecutor::new();
    let mut calls = 0;
    for action in [
        Action::Passthrough,
        Action::Suppress,
        Action::Exec { command: "cmd".into() },
        Action::Remap { from: KeyCode::A, to: KeyCode::B },
        Action::TypeString { text: "hi".into() },
    ] {
        let done = executor.execute(&action, |_| {
            calls += 1;
            0
        });
        assert_eq!(done, Ok(()));
    }
    assert_eq!(calls, 0);
}
