use hello_gl::frame::{handle_window_event, keeps_running, InputEvent, KeyAction, LoopState, KEY_ESCAPE};

const KEY_SPACE: i32 = 32;

#[test]
fn escape_press_closes_running_loop() {
    let ev = InputEvent::Key { key: KEY_ESCAPE, action: KeyAction::Press };
    assert_eq!(handle_window_event(LoopState::Running, ev), LoopState::Closing);
}

#[test]
fn escape_release_and_repeat_do_nothing() {
    for action in [KeyAction::Release, KeyAction::Repeat] {
        let ev = InputEvent::Key { key: KEY_ESCAPE, action };
        assert_eq!(handle_window_event(LoopState::Running, ev), LoopState::Running);
    }
}

#[test]
fn other_keys_do_nothing() {
    for key in [KEY_SPACE, 65, 257, -1, 0, 348] {
        for action in [KeyAction::Press, KeyAction::Release, KeyAction::Repeat] {
            let ev = InputEvent::Key { key, action };
            assert_eq!(handle_window_event(LoopState::Running, ev), LoopState::Running);
        }
    }
}

#[test]
fn close_request_closes() {
    assert_eq!(
        handle_window_event(LoopState::Running, InputEvent::CloseRequested),
        LoopState::Closing
    );
}

#[test]
fn unrelated_event_does_nothing() {
    assert_eq!(handle_window_event(LoopState::Running, InputEvent::Other), LoopState::Running);
}

#[test]
fn closing_stays_closing() {
    let events = [
        InputEvent::Other,
        InputEvent::CloseRequested,
        InputEvent::Key { key: KEY_SPACE, action: KeyAction::Press },
        InputEvent::Key { key: KEY_ESCAPE, action: KeyAction::Release },
    ];
    for ev in events {
        assert_eq!(handle_window_event(LoopState::Closing, ev), LoopState::Closing);
    }
}

#[test]
fn loop_runs_until_escape() {
    let events = [
        InputEvent::Key { key: KEY_SPACE, action: KeyAction::Press },
        InputEvent::Other,
        InputEvent::Key { key: KEY_ESCAPE, action: KeyAction::Press },
        InputEvent::Key { key: KEY_SPACE, action: KeyAction::Press },
    ];
    let mut state = LoopState::Running;
    let mut frames = 0;
    for ev in events {
        if !keeps_running(state) {
            break;
        }
        frames += 1;
        state = handle_window_event(state, ev);
    }
    assert_eq!(frames, 3);
    assert!(!keeps_running(state));
    assert!(keeps_running(LoopState::Running));
}
