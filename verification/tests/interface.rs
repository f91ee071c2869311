use fsociety::ui::{next_tick, AppEvent, AppState, KeyInput, LoopControl, Progress};

fn state() -> AppState {
    AppState::new(
        "123456".to_string(),
        "A3D2-E409".to_string(),
        "BLIND RELAY (WS)".to_string(),
        "alice".to_string(),
    )
}

#[test]
fn new_state() {
    let s = state();
    assert!(s.messages.is_empty());
    assert_eq!(s.system_logs, vec!["[INFO] Ephemeral tunnel established.".to_string()]);
    assert_eq!(s.input, "");
    assert_eq!(s.peer_username, "Peer");
    assert!(s.transfer_filename.is_none());
    assert!(s.transfer_progress == Progress { done: 0, total: 1 });
    assert!(s.loop_control() == LoopControl::Continue);
}

#[test]
fn chat_events() {
    let mut s = state();
    s.apply_event(AppEvent::Input("hi".to_string()));
    s.apply_event(AppEvent::MessageReceived("Peer".to_string(), "hello".to_string()));
    s.apply_event(AppEvent::PeerUsername("bob".to_string()));
    s.apply_event(AppEvent::MessageReceived("Peer".to_string(), "again".to_string()));
    s.apply_event(AppEvent::MessageReceived("carol".to_string(), "x".to_string()));
    assert_eq!(
        s.messages,
        vec![
            ("alice".to_string(), "hi".to_string()),
            ("Peer".to_string(), "hello".to_string()),
            ("bob".to_string(), "again".to_string()),
            ("carol".to_string(), "x".to_string()),
        ]
    );
    assert_eq!(s.peer_username, "bob");
    assert_eq!(s.system_logs.last().unwrap(), "[INFO] Peer identified as: bob");
    assert_eq!(s.chat_text(), "[alice] hi\n[Peer] hello\n[bob] again\n[carol] x\n");
}

#[test]
fn empty_chat_placeholder() {
    assert_eq!(state().chat_text(), "\n\n  --- No messages in this session ---");
}

#[test]
fn transfer_events() {
    let mut s = state();
    s.apply_event(AppEvent::FileProgress("f.bin".to_string(), Progress { done: 3, total: 10 }));
    assert_eq!(s.transfer_filename.as_deref(), Some("f.bin"));
    assert!(s.transfer_progress == Progress { done: 3, total: 10 });
    s.apply_event(AppEvent::FileComplete("f.bin".to_string()));
    assert!(s.transfer_filename.is_none());
    assert!(s.transfer_progress == Progress { done: 0, total: 1 });
    assert_eq!(s.system_logs.last().unwrap(), "[SUCCESS] File saved: f.bin");
    s.apply_event(AppEvent::SystemMessage("[FILE] x".to_string()));
    assert_eq!(s.system_logs.last().unwrap(), "[FILE] x");
}

#[test]
fn disconnect_ends_the_loop_after_a_pause() {
    let mut s = state();
    s.apply_event(AppEvent::ConnectionClosed);
    assert_eq!(s.conn_status, "DISCONNECTED");
    assert_eq!(s.system_logs.last().unwrap(), "[ERROR] Peer disconnected.");
    assert!(s.loop_control() == LoopControl::ExitAfterPause);
    s.conn_status = "CLOSED_BY_USER".to_string();
    assert!(s.loop_control() == LoopControl::Exit);
}

#[test]
fn typing_and_sending() {
    let mut s = state();
    for c in "hey".chars() {
        assert!(s.handle_key(KeyInput::Char(c)).is_none());
    }
    assert_eq!(s.input, "hey");
    assert!(s.handle_key(KeyInput::Backspace).is_none());
    assert_eq!(s.input, "he");
    assert_eq!(s.handle_key(KeyInput::Enter), Some("he".to_string()));
    assert_eq!(s.input, "");
    assert!(s.handle_key(KeyInput::Backspace).is_none());
    assert_eq!(s.input, "");
    assert!(s.handle_key(KeyInput::Other).is_none());
}

#[test]
fn blank_line_is_not_sent() {
    let mut s = state();
    assert!(s.handle_key(KeyInput::Enter).is_none());
    s.handle_key(KeyInput::Char(' '));
    s.handle_key(KeyInput::Char('\t'));
    assert!(s.handle_key(KeyInput::Enter).is_none());
    assert_eq!(s.input, " \t");
    s.handle_key(KeyInput::Char('x'));
    assert_eq!(s.handle_key(KeyInput::Enter), Some(" \tx".to_string()));
}

#[test]
fn escape_asks_to_leave() {
    let mut s = state();
    s.handle_key(KeyInput::Char('a'));
    assert_eq!(s.handle_key(KeyInput::Esc), Some("/exit".to_string()));
    assert_eq!(s.input, "a");
    assert_eq!(s.conn_status, "CLOSED_BY_USER");
    assert!(s.loop_control() == LoopControl::Exit);
}

#[test]
fn typing_exit_quits_the_interface() {
    let mut s = state();
    for c in "/exit".chars() {
        s.handle_key(KeyInput::Char(c));
    }
    assert_eq!(s.handle_key(KeyInput::Enter), Some("/exit".to_string()));
    assert_eq!(s.conn_status, "CLOSED_BY_USER");
    assert!(s.loop_control() == LoopControl::Exit);
}

#[test]
fn other_lines_keep_the_session() {
    let mut s = state();
    for c in "/exit now".chars() {
        s.handle_key(KeyInput::Char(c));
    }
    assert_eq!(s.handle_key(KeyInput::Enter), Some("/exit now".to_string()));
    assert_eq!(s.conn_status, "BLIND RELAY (WS)");
    assert!(s.loop_control() == LoopControl::Continue);
}

#[test]
fn progress_never_passes_completion() {
    let mut s = state();
    s.apply_event(AppEvent::FileProgress("f".to_string(), Progress { done: 12, total: 10 }));
    assert!(s.transfer_progress == Progress { done: 10, total: 10 });
    assert!(Progress::of(3, 2) == Progress { done: 2, total: 2 });
    assert!(Progress::of(1, 2) == Progress { done: 1, total: 2 });
    assert!(Progress::of(5, 0) == Progress { done: 0, total: 0 });
}

#[test]
fn side_pane_text() {
    let mut s = state();
    assert_eq!(
        s.status_text(),
        "📶 Connection Status\n  BLIND RELAY (WS)\n\n🗝️ Room Access Code\n  123456\n\n🔒 Fingerprint\n  A3D2-E409\n\n"
    );
    for i in 1..=6 {
        s.apply_event(AppEvent::SystemMessage(format!("l{}", i)));
    }
    assert_eq!(s.diagnostics_text(), "⚡ System Diagnostics\n  l6\n  l5\n  l4\n  l3\n  l2\n");
    assert_eq!(
        state().diagnostics_text(),
        "⚡ System Diagnostics\n  [INFO] Ephemeral tunnel established.\n"
    );
}

#[test]
fn cursor_blinks() {
    let mut s = state();
    s.input = "ab".to_string();
    assert_eq!(s.input_line(0), "ab_");
    assert_eq!(s.input_line(1), "ab ");
    assert_eq!(next_tick(0), 1);
    assert_eq!(next_tick(100), 0);
    assert_eq!(next_tick(99), 100);
}
