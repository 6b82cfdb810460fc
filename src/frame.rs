//! The frame loop's two states and how input events move between them.
use vstd::prelude::*;

verus! {

/// The windowing library's key code for the Escape key.
pub const KEY_ESCAPE: i32 = 256;

/// Whether the frame loop keeps drawing or is shutting down.
#[derive(Clone, Copy, Debug, PartialEq, Eq, Structural)]
pub enum LoopState {
    Running,
    Closing,
}

/// What happened to a key.
#[derive(Clone, Copy, Debug, PartialEq, Eq, Structural)]
pub enum KeyAction {
    Press,
    Release,
    Repeat,
}

/// An input notification taken from the window's event queue.
#[derive(Clone, Copy, Debug, PartialEq, Eq, Structural)]
pub enum InputEvent {
    /// A key changed state; `key` is the windowing library's key code.
    Key { key: i32, action: KeyAction },
    /// The window manager asked for the window to close.
    CloseRequested,
    /// Any other notification.
    Other,
}

/// The events that end the loop: an Escape press or a close request.
pub open spec fn requests_close(event: InputEvent) -> bool {
    match event {
        InputEvent::Key { key, action } => key == KEY_ESCAPE && action == KeyAction::Press,
        InputEvent::CloseRequested => true,
        InputEvent::Other => false,
    }
}

/// The state after `event` is handled in `state`: closing is final, and a
/// running loop starts closing exactly on an event that requests it.
pub open spec fn next_state(state: LoopState, event: InputEvent) -> LoopState {
    if state == LoopState::Closing || requests_close(event) {
        LoopState::Closing
    } else {
        LoopState::Running
    }
}

/// Handles one polled event.
pub fn handle_window_event(state: LoopState, event: InputEvent) -> (r: LoopState)
    ensures
        r == next_state(state, event),
{
    match state {
        LoopState::Closing => LoopState::Closing,
        LoopState::Running => {
            let close = match event {
                InputEvent::Key { key, action } => key == KEY_ESCAPE && action
                    == KeyAction::Press,
                InputEvent::CloseRequested => true,
                InputEvent::Other => false,
            };
            if close {
                LoopState::Closing
            } else {
                LoopState::Running
            }
        },
    }
}

/// Whether another frame is drawn in `state`.
pub fn keeps_running(state: LoopState) -> (r: bool)
    ensures
        r == (state == LoopState::Running),
{
    state == LoopState::Running
}

/// Pressing Escape while running moves the loop to closing.
pub proof fn lemma_escape_press_closes()
    ensures
        next_state(
            LoopState::Running,
            InputEvent::Key { key: KEY_ESCAPE, action: KeyAction::Press },
        ) == LoopState::Closing,
{
}

/// A key event on any other key, or any release or repeat, leaves the state
/// as it was.
pub proof fn lemma_other_keys_have_no_effect(state: LoopState, key: i32, action: KeyAction)
    requires
        key != KEY_ESCAPE || action != KeyAction::Press,
    ensures
        next_state(state, InputEvent::Key { key, action }) == state,
{
}

/// Once closing, no event brings the loop back to running.
pub proof fn lemma_closing_is_final(event: InputEvent)
    ensures
        next_state(LoopState::Closing, event) == LoopState::Closing,
{
}

} // verus!
