use tgt_core::event::{
    Event, KeyCode, KeyEvent, KeyEventKind, MouseButton, MouseEvent, MouseEventKind, TerminalEvent,
};
use tgt_core::tui_backend::{
    decide, forward_all, Diagnostic, Ready, Step, TerminalCommand, TuiBackend, QUIT_KEY,
};

fn key(code: KeyCode, kind: KeyEventKind) -> KeyEvent {
    KeyEvent { code, modifiers: 0, kind, state: 0 }
}

fn mouse(column: u16, row: u16) -> MouseEvent {
    MouseEvent { kind: MouseEventKind::Down(MouseButton::Left), column, row, modifiers: 0 }
}

#[test]
fn new_backend_has_mouse_and_paste_disabled() {
    let backend = TuiBackend::new();
    assert!(!backend.mouse);
    assert!(!backend.paste);
}

#[test]
fn with_mouse_and_with_paste_set_their_own_flag() {
    let backend = TuiBackend::new().with_mouse(true);
    assert_eq!(backend, TuiBackend { mouse: true, paste: false });
    let backend = backend.with_paste(true);
    assert_eq!(backend, TuiBackend { mouse: true, paste: true });
    let backend = backend.with_mouse(false);
    assert_eq!(backend, TuiBackend { mouse: false, paste: true });
}

#[test]
fn enter_without_captures() {
    assert_eq!(
        TuiBackend::new().enter(),
        vec![
            TerminalCommand::EnableRawMode,
            TerminalCommand::EnterAlternateScreen,
            TerminalCommand::HideCursor,
            TerminalCommand::StartEvents,
        ]
    );
}

#[test]
fn enter_with_both_captures() {
    assert_eq!(
        TuiBackend::new().with_mouse(true).with_paste(true).enter(),
        vec![
            TerminalCommand::EnableRawMode,
            TerminalCommand::EnterAlternateScreen,
            TerminalCommand::HideCursor,
            TerminalCommand::EnableMouseCapture,
            TerminalCommand::EnableBracketedPaste,
            TerminalCommand::StartEvents,
        ]
    );
}

#[test]
fn enter_with_one_capture() {
    assert_eq!(
        TuiBackend::new().with_mouse(true).enter(),
        vec![
            TerminalCommand::EnableRawMode,
            TerminalCommand::EnterAlternateScreen,
            TerminalCommand::HideCursor,
            TerminalCommand::EnableMouseCapture,
            TerminalCommand::StartEvents,
        ]
    );
    assert_eq!(
        TuiBackend::new().with_paste(true).enter(),
        vec![
            TerminalCommand::EnableRawMode,
            TerminalCommand::EnterAlternateScreen,
            TerminalCommand::HideCursor,
            TerminalCommand::EnableBracketedPaste,
            TerminalCommand::StartEvents,
        ]
    );
}

#[test]
fn exit_restores_the_terminal_and_does_not_stop_the_events() {
    assert_eq!(
        TuiBackend::new().exit(),
        vec![
            TerminalCommand::DisableRawMode,
            TerminalCommand::LeaveAlternateScreen,
            TerminalCommand::ShowCursor,
        ]
    );
    assert_eq!(
        TuiBackend::new().with_mouse(true).with_paste(true).exit(),
        vec![
            TerminalCommand::DisableRawMode,
            TerminalCommand::LeaveAlternateScreen,
            TerminalCommand::ShowCursor,
            TerminalCommand::DisableMouseCapture,
            TerminalCommand::DisableBracketedPaste,
        ]
    );
}

#[test]
fn suspend_leaves_and_then_stops_the_process() {
    let backend = TuiBackend::new().with_paste(true);
    let mut expected = backend.exit();
    expected.push(TerminalCommand::RaiseStop);
    assert_eq!(backend.suspend(), expected);
    assert_eq!(
        backend.suspend(),
        vec![
            TerminalCommand::DisableRawMode,
            TerminalCommand::LeaveAlternateScreen,
            TerminalCommand::ShowCursor,
            TerminalCommand::DisableBracketedPaste,
            TerminalCommand::RaiseStop,
        ]
    );
}

#[test]
fn resume_enters_again() {
    for m in [false, true] {
        for p in [false, true] {
            let backend = TuiBackend::new().with_mouse(m).with_paste(p);
            assert_eq!(backend.resume(), backend.enter());
        }
    }
}

#[test]
fn exit_has_one_command_for_each_terminal_change_of_enter() {
    for m in [false, true] {
        for p in [false, true] {
            let backend = TuiBackend::new().with_mouse(m).with_paste(p);
            assert_eq!(backend.enter().len(), backend.exit().len() + 1);
        }
    }
}

#[test]
fn the_stream_opens_with_init() {
    assert_eq!(TuiBackend::new().start(), Event::Init);
}

#[test]
fn quit_key_is_q() {
    assert_eq!(QUIT_KEY, 'q');
}

#[test]
fn key_press_is_forwarded() {
    let k = key(KeyCode::Char('a'), KeyEventKind::Press);
    assert_eq!(decide(&Ready::Notification(TerminalEvent::Key(k))), Step::Send(Event::Key(k)));
    let enter = key(KeyCode::Enter, KeyEventKind::Press);
    assert_eq!(
        decide(&Ready::Notification(TerminalEvent::Key(enter))),
        Step::Send(Event::Key(enter))
    );
}

#[test]
fn key_repeat_and_release_are_suppressed() {
    for kind in [KeyEventKind::Repeat, KeyEventKind::Release] {
        let k = key(KeyCode::Char('a'), kind);
        assert_eq!(decide(&Ready::Notification(TerminalEvent::Key(k))), Step::Skip);
        let q = key(KeyCode::Char('q'), kind);
        assert_eq!(decide(&Ready::Notification(TerminalEvent::Key(q))), Step::Skip);
    }
}

#[test]
fn quit_key_press_becomes_quit() {
    let q = key(KeyCode::Char('q'), KeyEventKind::Press);
    assert_eq!(decide(&Ready::Notification(TerminalEvent::Key(q))), Step::Send(Event::Quit));
}

#[test]
fn quit_key_press_with_modifiers_is_still_quit() {
    let q = KeyEvent { code: KeyCode::Char('q'), modifiers: 2, kind: KeyEventKind::Press, state: 1 };
    assert_eq!(decide(&Ready::Notification(TerminalEvent::Key(q))), Step::Send(Event::Quit));
}

#[test]
fn capital_q_is_an_ordinary_key() {
    let k = key(KeyCode::Char('Q'), KeyEventKind::Press);
    assert_eq!(decide(&Ready::Notification(TerminalEvent::Key(k))), Step::Send(Event::Key(k)));
}

#[test]
fn mouse_and_resize_are_forwarded_as_they_are() {
    let m = mouse(3, 4);
    assert_eq!(decide(&Ready::Notification(TerminalEvent::Mouse(m))), Step::Send(Event::Mouse(m)));
    assert_eq!(
        decide(&Ready::Notification(TerminalEvent::Resize(80, 24))),
        Step::Send(Event::Resize(80, 24))
    );
}

#[test]
fn focus_changes_produce_nothing() {
    assert_eq!(decide(&Ready::Notification(TerminalEvent::FocusLost)), Step::Skip);
    assert_eq!(decide(&Ready::Notification(TerminalEvent::FocusGained)), Step::Skip);
}

#[test]
fn tick_becomes_render() {
    assert_eq!(decide(&Ready::Tick), Step::Send(Event::Render));
}

#[test]
fn unexpected_sources_are_reported_not_sent() {
    assert_eq!(
        decide(&Ready::Notification(TerminalEvent::Paste("text".to_string()))),
        Step::Report(Diagnostic::UnexpectedPaste)
    );
    assert_eq!(decide(&Ready::ReadFailed), Step::Report(Diagnostic::ReadFailed));
    assert_eq!(decide(&Ready::StreamEnded), Step::Report(Diagnostic::StreamEnded));
}

#[test]
fn forward_all_of_nothing_is_nothing() {
    assert!(forward_all(&Vec::new()).is_empty());
}

#[test]
fn forward_all_keeps_the_order_and_drops_what_is_filtered() {
    let a = key(KeyCode::Char('a'), KeyEventKind::Press);
    let run = vec![
        Ready::Tick,
        Ready::Notification(TerminalEvent::Key(a)),
        Ready::Notification(TerminalEvent::Key(key(KeyCode::Char('a'), KeyEventKind::Release))),
        Ready::Notification(TerminalEvent::FocusLost),
        Ready::Notification(TerminalEvent::Resize(10, 20)),
        Ready::Notification(TerminalEvent::Paste("x".to_string())),
        Ready::Tick,
        Ready::Notification(TerminalEvent::Key(key(KeyCode::Char('q'), KeyEventKind::Press))),
    ];
    assert_eq!(
        forward_all(&run),
        vec![
            Event::Render,
            Event::Key(a),
            Event::Resize(10, 20),
            Event::Render,
            Event::Quit,
        ]
    );
}

#[test]
fn no_resize_or_pointer_notification_is_dropped_between_ticks() {
    // Interleave notifications and ticks in a scrambled but fixed order.
    let notifications = 300usize;
    let ticks = 200usize;
    let mut run: Vec<Ready> = Vec::new();
    let mut sent: Vec<Event> = Vec::new();
    let mut left_n = notifications;
    let mut left_t = ticks;
    let mut seed: u32 = 12345;
    let mut serial: u16 = 0;
    while left_n + left_t > 0 {
        seed = seed.wrapping_mul(1664525).wrapping_add(1013904223);
        let pick_tick = left_n == 0 || (left_t > 0 && (seed >> 16) % 5 < 2);
        if pick_tick {
            run.push(Ready::Tick);
            left_t -= 1;
        } else {
            serial += 1;
            if serial % 2 == 0 {
                run.push(Ready::Notification(TerminalEvent::Resize(serial, 1)));
                sent.push(Event::Resize(serial, 1));
            } else {
                let m = mouse(serial, 2);
                run.push(Ready::Notification(TerminalEvent::Mouse(m)));
                sent.push(Event::Mouse(m));
            }
            left_n -= 1;
        }
    }
    let events = forward_all(&run);
    assert_eq!(events.len(), notifications + ticks);
    let renders = events.iter().filter(|e| matches!(e, Event::Render)).count();
    assert_eq!(renders, ticks);
    let inputs: Vec<Event> =
        events.iter().filter(|e| !matches!(e, Event::Render)).copied().collect();
    assert_eq!(inputs, sent);
    for (ready, event) in run.iter().zip(events.iter()) {
        assert_eq!(decide(ready), Step::Send(*event));
    }
}

#[test]
fn back_to_back_notifications_without_ticks_all_arrive() {
    let run: Vec<Ready> =
        (0..50u16).map(|i| Ready::Notification(TerminalEvent::Resize(i, i))).collect();
    let events = forward_all(&run);
    let expected: Vec<Event> = (0..50u16).map(|i| Event::Resize(i, i)).collect();
    assert_eq!(events, expected);
}
