//! Keys, the events they mean in each state of the session, and what the host is
//! asked to do in return.

use crate::game::GameState;
use vstd::prelude::*;

verus! {

/// The keys the session knows.
#[derive(Clone, Copy, Debug, PartialEq, Eq, Structural)]
pub enum Key {
    Space,
    Up,
    Down,
    Left,
    Right,
    Return,
}

/// What a key means to the session.
#[derive(Clone, Copy, Debug, PartialEq, Eq, Structural)]
pub enum InputEvent {
    MoveLeftPressed,
    MoveLeftReleased,
    MoveRightPressed,
    MoveRightReleased,
    JumpPressed,
    FirePressed,
    ConfirmPressed,
    StartPressed,
    MenuUp,
    MenuDown,
    MenuLeft,
    MenuRight,
    /// The menu's entry for the window size was chosen.
    ResizeChosen,
    /// The menu's entry for leaving was chosen.
    QuitChosen,
}

/// What the host is asked to do after an event.
#[derive(Clone, Copy, Debug, PartialEq, Eq, Structural)]
pub enum Action {
    /// Nothing.
    Nothing,
    /// Start the music.
    StartMusic,
    /// Give the window this width and height, in pixels.
    ResizeWindow(u32, u32),
    /// End the program.
    Quit,
}

/// The event that the return key means in the menu: it confirms the start of an
/// attempt on the first entry and chooses the entry it stands on otherwise.
pub open spec fn chosen_event(selected: nat) -> Option<InputEvent> {
    if selected == 0 {
        Some(InputEvent::ConfirmPressed)
    } else if selected == 1 {
        Some(InputEvent::ResizeChosen)
    } else if selected == 2 {
        Some(InputEvent::QuitChosen)
    } else {
        None
    }
}

/// The event that pressing `key` means in `state`, if it means any, with the menu
/// standing on its entry `selected`.
pub open spec fn pressed_event(state: GameState, selected: nat, key: Key) -> Option<InputEvent> {
    match state {
        GameState::Menu => match key {
            Key::Space => Some(InputEvent::StartPressed),
            Key::Up => Some(InputEvent::MenuUp),
            Key::Down => Some(InputEvent::MenuDown),
            Key::Left => Some(InputEvent::MenuLeft),
            Key::Right => Some(InputEvent::MenuRight),
            Key::Return => chosen_event(selected),
        },
        GameState::Play => match key {
            Key::Space => Some(InputEvent::FirePressed),
            Key::Left => Some(InputEvent::MoveLeftPressed),
            Key::Right => Some(InputEvent::MoveRightPressed),
            Key::Up => Some(InputEvent::JumpPressed),
            _ => None,
        },
        GameState::GameOver => match key {
            Key::Space => Some(InputEvent::StartPressed),
            _ => None,
        },
    }
}

/// The event that releasing `key` means in `state`, if it means any.
pub open spec fn released_event(state: GameState, key: Key) -> Option<InputEvent> {
    match (state, key) {
        (GameState::Play, Key::Left) => Some(InputEvent::MoveLeftReleased),
        (GameState::Play, Key::Right) => Some(InputEvent::MoveRightReleased),
        _ => None,
    }
}

/// Turns a key press into the event it means in `state`, with the menu standing
/// on its entry `selected`.
pub fn key_pressed(state: GameState, selected: usize, key: Key) -> (event: Option<InputEvent>)
    ensures
        event == pressed_event(state, selected as nat, key),
{
    match state {
        GameState::Menu => match key {
            Key::Space => Some(InputEvent::StartPressed),
            Key::Up => Some(InputEvent::MenuUp),
            Key::Down => Some(InputEvent::MenuDown),
            Key::Left => Some(InputEvent::MenuLeft),
            Key::Right => Some(InputEvent::MenuRight),
            Key::Return => if selected == 0 {
                Some(InputEvent::ConfirmPressed)
            } else if selected == 1 {
                Some(InputEvent::ResizeChosen)
            } else if selected == 2 {
                Some(InputEvent::QuitChosen)
            } else {
                None
            },
        },
        GameState::Play => match key {
            Key::Space => Some(InputEvent::FirePressed),
            Key::Left => Some(InputEvent::MoveLeftPressed),
            Key::Right => Some(InputEvent::MoveRightPressed),
            Key::Up => Some(InputEvent::JumpPressed),
            _ => None,
        },
        GameState::GameOver => match key {
            Key::Space => Some(InputEvent::StartPressed),
            _ => None,
        },
    }
}

/// Turns a key release into the event it means in `state`.
pub fn key_released(state: GameState, key: Key) -> (event: Option<InputEvent>)
    ensures
        event == released_event(state, key),
{
    match (state, key) {
        (GameState::Play, Key::Left) => Some(InputEvent::MoveLeftReleased),
        (GameState::Play, Key::Right) => Some(InputEvent::MoveRightReleased),
        _ => None,
    }
}

} // verus!
