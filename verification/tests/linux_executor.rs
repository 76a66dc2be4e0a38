use pcunifier::platform::linux::create_action_executor;
use pcunifier::platform::linux::evdev::capture::handle_evdev_event;
use pcunifier::platform::linux::evdev::capture::EvdevEvent;
use pcunifier::platform::linux::evdev::capture::EvdevEventKind;
use pcunifier::platform::linux::wayland::executor::load_restore_token;
use pcunifier::platform::linux::wayland::executor::lower_action;
use pcunifier::platform::linux::wayland::executor::settle;
use pcunifier::platform::linux::wayland::executor::token_from_trimmed;
use pcunifier::platform::linux::wayland::executor::token_path;
use pcunifier::platform::linux::wayland::executor::ExecutorEnd;
use pcunifier::platform::linux::wayland::executor::ExecutorEvent;
use pcunifier::platform::linux::wayland::executor::ExecutorPhase;
use pcunifier::platform::linux::wayland::executor::ExecutorRequest;
use pcunifier::platform::linux::wayland::executor::ExecutorSession;
use pcunifier::platform::linux::wayland::executor::InjectionCmd;
use pcunifier::platform::linux::wayland::executor::LinuxWaylandExecutor;
use pcunifier::platform::linux::wayland::executor::QueueOutcome;
use pcunifier::platform::linux::wayland::executor::TokenPath;
use pcunifier::platform::linux::wayland::executor::CMD_CAPACITY;
use pcunifier::platform::macos::executor::MacOSExecutor;
use pcunifier::platform::windows::executor::WindowsExecutor;
use pcunifier::platform::Action;
use pcunifier::platform::ActionExecutor;
use pcunifier::platform::KeyCode;
use pcunifier::platform::KeyState;
use pcunifier::platform::PlatformError;
use tokio::sync::mpsc;

fn other_actions() -> Vec<Action> {
    vec![
        Action::Passthrough,
        Action::Suppress,
        Action::Exec { command: "ls".into() },
        Action::Exec { command: "cmd".into() },
        Action::Remap { from: KeyCode::A, to: KeyCode::B },
        Action::TypeString { text: "hello".into() },
    ]
}

#[test]
fn executor_other_actions_are_noop() {
    let (cmd_tx, _cmd_rx) = mpsc::channel::<InjectionCmd>(1);
    let executor = LinuxWaylandExecutor::from_sender(cmd_tx);
    assert!(executor.execute(&Action::Passthrough).is_ok());
    assert!(executor.execute(&Action::Suppress).is_ok());
    assert!(executor.execute(&Action::Exec { command: "ls".into() }).is_ok());
    assert!(executor.execute(&Action::Remap { from: KeyCode::A, to: KeyCode::B }).is_ok());

    let executor = MacOSExecutor::new();
    assert_eq!(executor.plan(&Action::Passthrough), None);
    assert_eq!(executor.plan(&Action::Suppress), None);
    assert_eq!(executor.plan(&Action::Exec { command: "ls".into() }), None);
    assert_eq!(executor.plan(&Action::Remap { from: KeyCode::A, to: KeyCode::B }), None);

    let executor = WindowsExecutor::new();
    assert_eq!(executor.plan(&Action::Passthrough), None);
    assert_eq!(executor.plan(&Action::Suppress), None);
    assert_eq!(executor.plan(&Action::Exec { command: "cmd".into() }), None);
    assert_eq!(executor.plan(&Action::Remap { from: KeyCode::A, to: KeyCode::B }), None);
}

#[test]
fn other_actions_leave_the_queue_untouched() {
    let (cmd_tx, mut cmd_rx) = mpsc::channel::<InjectionCmd>(4);
    let executor = LinuxWaylandExecutor::from_sender(cmd_tx);
    for action in other_actions() {
        assert_eq!(executor.execute(&action), Ok(()));
        assert_eq!(lower_action(&action), None);
    }
    assert!(cmd_rx.try_recv().is_err());
}

#[test]
fn other_actions_succeed_even_on_a_closed_queue() {
    let (cmd_tx, cmd_rx) = mpsc::channel::<InjectionCmd>(1);
    drop(cmd_rx);
    let executor = LinuxWaylandExecutor::from_sender(cmd_tx);
    for action in other_actions() {
        assert_eq!(executor.execute(&action), Ok(()));
    }
}

#[test]
fn inject_key_on_full_channel_returns_ok() {
    let (cmd_tx, _cmd_rx) = mpsc::channel::<InjectionCmd>(1);
    cmd_tx.try_send(InjectionCmd { keycode: 30, state: KeyState::Down }).unwrap();
    let executor = LinuxWaylandExecutor::from_sender(cmd_tx);

    let result = executor.execute(&Action::InjectKey { key: KeyCode::A, state: KeyState::Down });
    assert!(result.is_ok());
}

#[test]
fn inject_key_on_closed_channel_returns_error() {
    let (cmd_tx, cmd_rx) = mpsc::channel::<InjectionCmd>(1);
    drop(cmd_rx);
    let executor = LinuxWaylandExecutor::from_sender(cmd_tx);

    let result = executor.execute(&Action::InjectKey { key: KeyCode::A, state: KeyState::Down });
    assert!(result.is_err());
    assert_eq!(result, Err(PlatformError::Other("executor session closed".into())));
}

#[test]
fn overflow_drops_the_newest_injection() {
    let (cmd_tx, mut cmd_rx) = mpsc::channel::<InjectionCmd>(1);
    let executor = LinuxWaylandExecutor::from_sender(cmd_tx);
    assert_eq!(executor.execute(&Action::InjectKey { key: KeyCode::A, state: KeyState::Down }), Ok(()));
    assert_eq!(executor.execute(&Action::InjectKey { key: KeyCode::B, state: KeyState::Down }), Ok(()));
    assert_eq!(cmd_rx.try_recv(), Ok(InjectionCmd { keycode: 30, state: KeyState::Down }));
    assert!(cmd_rx.try_recv().is_err());
}

#[test]
fn injections_are_queued_in_order() {
    let (executor, mut cmd_rx) = match LinuxWaylandExecutor::new() {
        Ok(made) => made,
        Err(e) => panic!("new failed: {e:?}"),
    };
    assert_eq!(executor.execute(&Action::InjectKey { key: KeyCode::Shift, state: KeyState::Down }), Ok(()));
    assert_eq!(executor.execute(&Action::InjectKey { key: KeyCode::A, state: KeyState::Down }), Ok(()));
    assert_eq!(executor.execute(&Action::InjectKey { key: KeyCode::A, state: KeyState::Up }), Ok(()));
    assert_eq!(cmd_rx.try_recv(), Ok(InjectionCmd { keycode: 42, state: KeyState::Down }));
    assert_eq!(cmd_rx.try_recv(), Ok(InjectionCmd { keycode: 30, state: KeyState::Down }));
    assert_eq!(cmd_rx.try_recv(), Ok(InjectionCmd { keycode: 30, state: KeyState::Up }));
    assert!(cmd_rx.try_recv().is_err());
}

#[test]
fn queue_holds_the_stated_capacity() {
    assert_eq!(CMD_CAPACITY, 256);
    let (executor, mut cmd_rx) = match LinuxWaylandExecutor::new() {
        Ok(made) => made,
        Err(e) => panic!("new failed: {e:?}"),
    };
    for _ in 0..300 {
        assert_eq!(
            executor.execute(&Action::InjectKey { key: KeyCode::Z, state: KeyState::Down }),
            Ok(())
        );
    }
    let mut queued = 0;
    while cmd_rx.try_recv().is_ok() {
        queued += 1;
    }
    assert_eq!(queued, 256);
}

#[test]
fn executor_reports_a_dropped_worker() {
    let (executor, cmd_rx) = match LinuxWaylandExecutor::new() {
        Ok(made) => made,
        Err(e) => panic!("new failed: {e:?}"),
    };
    drop(cmd_rx);
    assert_eq!(
        executor.execute(&Action::InjectKey { key: KeyCode::A, state: KeyState::Up }),
        Err(PlatformError::Other("executor session closed".into()))
    );
}

#[test]
fn injecting_a_down_reproduces_the_captured_native_transition() {
    let captured = handle_evdev_event(EvdevEvent { kind: EvdevEventKind::Key(30), value: 1 })
        .expect("a key-down of A is captured");
    assert_eq!(captured.key, KeyCode::A);
    assert_eq!(captured.state, KeyState::Down);
    let cmd = lower_action(&Action::InjectKey { key: captured.key, state: captured.state });
    assert_eq!(cmd, Some(InjectionCmd { keycode: 30, state: KeyState::Down }));
}

#[test]
fn lowering_uses_the_evdev_code() {
    assert_eq!(
        lower_action(&Action::InjectKey { key: KeyCode::F24, state: KeyState::Up }),
        Some(InjectionCmd { keycode: 194, state: KeyState::Up })
    );
    assert_eq!(
        lower_action(&Action::InjectKey { key: KeyCode::Escape, state: KeyState::Down }),
        Some(InjectionCmd { keycode: 1, state: KeyState::Down })
    );
}

#[test]
fn only_a_closed_queue_is_an_error() {
    assert_eq!(settle(QueueOutcome::Queued), Ok(()));
    assert_eq!(settle(QueueOutcome::Full), Ok(()));
    assert_eq!(
        settle(QueueOutcome::Closed),
        Err(PlatformError::Other("executor session closed".into()))
    );
}

#[test]
fn factory_picks_the_executor_by_session() {
    assert!(create_action_executor(Some("wayland-0".as_bytes()), None).is_ok());
    assert!(create_action_executor(Some("wayland-0".as_bytes()), Some(":0".as_bytes())).is_ok());
    match create_action_executor(None, Some(":0".as_bytes())) {
        Err(e) => assert_eq!(
            e,
            PlatformError::Unavailable("Pure X11 sessions are not yet supported.".into())
        ),
        Ok(_) => panic!("X11 must be refused"),
    }
    match create_action_executor(None, None) {
        Err(e) => assert_eq!(e, PlatformError::Unavailable("No display server detected.".into())),
        Ok(_) => panic!("no session must be refused"),
    }
    match create_action_executor(Some("".as_bytes()), Some("".as_bytes())) {
        Err(e) => assert_eq!(e, PlatformError::Unavailable("No display server detected.".into())),
        Ok(_) => panic!("empty values must be refused"),
    }
}

#[test]
fn whitespace_only_token_file_is_like_an_absent_one() {
    assert_eq!(load_restore_token(None), None);
    assert_eq!(load_restore_token(Some("")), None);
    assert_eq!(load_restore_token(Some("   ")), None);
    assert_eq!(load_restore_token(Some(" \t\r\n ")), None);
    assert_eq!(load_restore_token(Some("\u{a0}\u{2003}\n")), None);
}

#[test]
fn token_is_trimmed() {
    assert_eq!(load_restore_token(Some("abc123")), Some("abc123".to_string()));
    assert_eq!(load_restore_token(Some("  abc123\n")), Some("abc123".to_string()));
    assert_eq!(load_restore_token(Some("\tto ken \r\n")), Some("to ken".to_string()));
}

#[test]
fn token_from_trimmed_contents() {
    assert_eq!(token_from_trimmed(""), None);
    assert_eq!(token_from_trimmed("t"), Some("t".to_string()));
    assert_eq!(token_from_trimmed(" t "), Some(" t ".to_string()));
}

fn segments(names: &[&str]) -> Vec<String> {
    names.iter().map(|name| name.to_string()).collect()
}

#[test]
fn token_path_prefers_the_configuration_directory() {
    assert_eq!(
        token_path(Some("/cfg"), Some("/home/u")),
        Some(TokenPath { root: "/cfg", segments: segments(&["pc-unifier", "remote-desktop-token"]) })
    );
    assert_eq!(
        token_path(Some("/cfg"), None),
        Some(TokenPath { root: "/cfg", segments: segments(&["pc-unifier", "remote-desktop-token"]) })
    );
    assert_eq!(
        token_path(Some(""), Some("/home/u")),
        Some(TokenPath { root: "", segments: segments(&["pc-unifier", "remote-desktop-token"]) })
    );
}

#[test]
fn token_path_falls_back_to_home() {
    assert_eq!(
        token_path(None, Some("/home/u")),
        Some(TokenPath {
            root: "/home/u",
            segments: segments(&[".config", "pc-unifier", "remote-desktop-token"])
        })
    );
    assert_eq!(token_path::<&str>(None, None), None);
}

#[test]
fn token_path_hands_the_root_through_as_it_came() {
    let root = std::path::PathBuf::from("/weird");
    let found = token_path(None, Some(root.clone())).expect("home is set");
    assert_eq!(found.root, root);
    let mut path = found.root;
    for segment in &found.segments {
        path.push(segment);
    }
    assert_eq!(path, std::path::PathBuf::from("/weird/.config/pc-unifier/remote-desktop-token"));
}

#[test]
fn token_file_of_one_newline_holds_no_token() {
    assert_eq!(load_restore_token(Some("\n")), None);
    assert_eq!(load_restore_token(Some("\u{3000}\u{2028}\u{85}\u{1680}\u{205f}")), None);
}

#[test]
fn token_without_white_space_at_the_ends_comes_back_whole() {
    assert_eq!(load_restore_token(Some("abc")), Some("abc".to_string()));
    assert_eq!(load_restore_token(Some("a b\tc")), Some("a b\tc".to_string()));
    assert_eq!(load_restore_token(Some("\u{200b}x")), Some("\u{200b}x".to_string()));
}

#[test]
fn executor_session_runs_its_course() {
    let mut session = ExecutorSession::new();
    assert_eq!(session.phase(), ExecutorPhase::Unopened);
    assert_eq!(session.advance(ExecutorEvent::Begin), ExecutorRequest::Connect);
    assert_eq!(session.advance(ExecutorEvent::Completed), ExecutorRequest::CreateSession);
    assert_eq!(session.advance(ExecutorEvent::Completed), ExecutorRequest::LoadToken);
    assert_eq!(
        session.advance(ExecutorEvent::TokenLoaded { restore_token: Some("old".into()) }),
        ExecutorRequest::SelectKeyboard { restore_token: Some("old".into()) }
    );
    assert_eq!(session.advance(ExecutorEvent::Completed), ExecutorRequest::Start);
    assert_eq!(
        session.advance(ExecutorEvent::Started { restore_token: Some("new".into()) }),
        ExecutorRequest::SaveToken("new".into())
    );
    assert_eq!(session.advance(ExecutorEvent::Completed), ExecutorRequest::NextCommand);
    assert_eq!(session.phase(), ExecutorPhase::Serving);
    let cmd = InjectionCmd { keycode: 30, state: KeyState::Down };
    assert_eq!(session.advance(ExecutorEvent::Command(cmd)), ExecutorRequest::Inject(cmd));
    assert_eq!(session.advance(ExecutorEvent::Completed), ExecutorRequest::NextCommand);
    assert_eq!(
        session.advance(ExecutorEvent::QueueClosed),
        ExecutorRequest::Finish(ExecutorEnd::Drained)
    );
    assert_eq!(session.phase(), ExecutorPhase::Closed);
}

#[test]
fn executor_session_without_tokens() {
    let mut session = ExecutorSession::new();
    session.advance(ExecutorEvent::Begin);
    session.advance(ExecutorEvent::Completed);
    session.advance(ExecutorEvent::Completed);
    assert_eq!(
        session.advance(ExecutorEvent::TokenLoaded { restore_token: None }),
        ExecutorRequest::SelectKeyboard { restore_token: None }
    );
    session.advance(ExecutorEvent::Completed);
    assert_eq!(
        session.advance(ExecutorEvent::Started { restore_token: None }),
        ExecutorRequest::NextCommand
    );
    assert_eq!(session.phase(), ExecutorPhase::Serving);
}

#[test]
fn executor_session_absorbs_failures_while_serving() {
    let mut session = ExecutorSession::new();
    session.advance(ExecutorEvent::Begin);
    session.advance(ExecutorEvent::Completed);
    session.advance(ExecutorEvent::Completed);
    session.advance(ExecutorEvent::TokenLoaded { restore_token: None });
    session.advance(ExecutorEvent::Completed);
    assert_eq!(
        session.advance(ExecutorEvent::Started { restore_token: Some("t".into()) }),
        ExecutorRequest::SaveToken("t".into())
    );
    assert_eq!(session.advance(ExecutorEvent::Failed), ExecutorRequest::NextCommand);
    let cmd = InjectionCmd { keycode: 57, state: KeyState::Up };
    assert_eq!(session.advance(ExecutorEvent::Command(cmd)), ExecutorRequest::Inject(cmd));
    assert_eq!(session.advance(ExecutorEvent::Failed), ExecutorRequest::NextCommand);
    assert_eq!(session.phase(), ExecutorPhase::Serving);
}

#[test]
fn executor_session_fails_before_it_serves() {
    let mut session = ExecutorSession::new();
    session.advance(ExecutorEvent::Begin);
    assert_eq!(session.advance(ExecutorEvent::Failed), ExecutorRequest::Finish(ExecutorEnd::Failed));
    assert_eq!(session.phase(), ExecutorPhase::Closed);
    assert_eq!(
        session.advance(ExecutorEvent::QueueClosed),
        ExecutorRequest::Finish(ExecutorEnd::Failed)
    );

    let mut session = ExecutorSession::new();
    session.advance(ExecutorEvent::Begin);
    session.advance(ExecutorEvent::Completed);
    session.advance(ExecutorEvent::Completed);
    session.advance(ExecutorEvent::TokenLoaded { restore_token: None });
    session.advance(ExecutorEvent::Completed);
    assert_eq!(session.advance(ExecutorEvent::Failed), ExecutorRequest::Finish(ExecutorEnd::Failed));
}

#[test]
fn new_queue_is_made_for_the_stated_capacity() {
    let (_executor, cmd_rx) = match LinuxWaylandExecutor::new() {
        Ok(made) => made,
        Err(e) => panic!("new failed: {e:?}"),
    };
    assert_eq!(cmd_rx.max_capacity(), CMD_CAPACITY);
    assert_eq!(cmd_rx.capacity(), 256);
}

#[test]
fn token_is_a_part_of_the_file() {
    let contents = "\n  abc def \t";
    let token = load_restore_token(Some(contents)).expect("the file holds a token");
    assert!(!token.is_empty());
    assert!(contents.contains(&token));
    assert_eq!(token, "abc def");
}
