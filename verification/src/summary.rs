use vstd::prelude::*;

use crate::keystate::KeyState;
use crate::message::WindowMessage;
use crate::raw::MousePos;

verus! {

/// A canonical keyboard event, derived from the four key-family tags: the
/// transition (`up`), whether the key event is system-scoped (`sys`), the
/// key code and the decoded key-state field.
#[derive(Debug, Copy, Clone, PartialEq, Eq)]
pub struct KeyMessage {
    pub up: bool,
    pub sys: bool,
    pub code: usize,
    pub info: KeyState,
}

/// The mouse button a mouse-button-family tag names; extended buttons carry
/// their index.
#[derive(Debug, Copy, Clone, PartialEq, Eq, PartialOrd, Ord)]
pub enum MouseButton {
    Left,
    Right,
    Middle,
    X(u16),
}

/// What happened to the button.
#[derive(Debug, Copy, Clone, PartialEq, Eq, PartialOrd, Ord)]
pub enum MouseButtonAction {
    Down,
    Up,
    DoubleClick,
}

/// A canonical mouse-button event, derived from the twelve
/// mouse-button-family tags.
#[derive(Debug, Copy, Clone, PartialEq, Eq)]
pub struct MouseButtonMessage {
    pub action: MouseButtonAction,
    pub button: MouseButton,
    pub pos: MousePos,
    pub modifiers: usize,
}

/// The keyboard event a typed message summarizes to: present for exactly
/// the four key-family tags, absent for every other tag. Family membership
/// is decided by the tag alone, never by payload contents.
pub open spec fn spec_as_key(m: WindowMessage) -> Option<KeyMessage> {
    match m {
        WindowMessage::SysKeyUp { key_code, info } => Some(
            KeyMessage { up: true, sys: true, code: key_code, info },
        ),
        WindowMessage::KeyUp { key_code, info } => Some(
            KeyMessage { up: true, sys: false, code: key_code, info },
        ),
        WindowMessage::SysKeyDown { key_code, info } => Some(
            KeyMessage { up: false, sys: true, code: key_code, info },
        ),
        WindowMessage::KeyDown { key_code, info } => Some(
            KeyMessage { up: false, sys: false, code: key_code, info },
        ),
        _ => None,
    }
}

/// The mouse-button event a typed message summarizes to: present for
/// exactly the twelve mouse-button-family tags, absent for every other tag.
/// Family membership is decided by the tag alone, never by payload contents.
pub open spec fn spec_as_mouse_button(m: WindowMessage) -> Option<MouseButtonMessage> {
    match m {
        WindowMessage::LButtonDown { modifiers, pos } => Some(
            MouseButtonMessage {
                action: MouseButtonAction::Down,
                button: MouseButton::Left,
                pos,
                modifiers,
            },
        ),
        WindowMessage::LButtonUp { modifiers, pos } => Some(
            MouseButtonMessage {
                action: MouseButtonAction::Up,
                button: MouseButton::Left,
                pos,
                modifiers,
            },
        ),
        WindowMessage::LButtonDblClk { modifiers, pos } => Some(
            MouseButtonMessage {
                action: MouseButtonAction::DoubleClick,
                button: MouseButton::Left,
                pos,
                modifiers,
            },
        ),
        WindowMessage::RButtonDown { modifiers, pos } => Some(
            MouseButtonMessage {
                action: MouseButtonAction::Down,
                button: MouseButton::Right,
                pos,
                modifiers,
            },
        ),
        WindowMessage::RButtonUp { modifiers, pos } => Some(
            MouseButtonMessage {
                action: MouseButtonAction::Up,
                button: MouseButton::Right,
                pos,
                modifiers,
            },
        ),
        WindowMessage::RButtonDblClk { modifiers, pos } => Some(
            MouseButtonMessage {
                action: MouseButtonAction::DoubleClick,
                button: MouseButton::Right,
                pos,
                modifiers,
            },
        ),
        WindowMessage::MButtonDown { modifiers, pos } => Some(
            MouseButtonMessage {
                action: MouseButtonAction::Down,
                button: MouseButton::Middle,
                pos,
                modifiers,
            },
        ),
        WindowMessage::MButtonUp { modifiers, pos } => Some(
            MouseButtonMessage {
                action: MouseButtonAction::Up,
                button: MouseButton::Middle,
                pos,
                modifiers,
            },
        ),
        WindowMessage::MButtonDblClk { modifiers, pos } => Some(
            MouseButtonMessage {
                action: MouseButtonAction::DoubleClick,
                button: MouseButton::Middle,
                pos,
                modifiers,
            },
        ),
        WindowMessage::XButtonDown { modifiers, button, pos } => Some(
            MouseButtonMessage {
                action: MouseButtonAction::Down,
                button: MouseButton::X(button),
                pos,
                modifiers: modifiers as usize,
            },
        ),
        WindowMessage::XButtonUp { modifiers, button, pos } => Some(
            MouseButtonMessage {
                action: MouseButtonAction::Up,
                button: MouseButton::X(button),
                pos,
                modifiers: modifiers as usize,
            },
        ),
        WindowMessage::XButtonDblClk { modifiers, button, pos } => Some(
            MouseButtonMessage {
                action: MouseButtonAction::DoubleClick,
                button: MouseButton::X(button),
                pos,
                modifiers: modifiers as usize,
            },
        ),
        _ => None,
    }
}

impl WindowMessage {
    /// Summarizes the four key-family tags into one keyboard-event shape;
    /// yields nothing for every other tag.
    pub fn as_key(&self) -> (r: Option<KeyMessage>)
        ensures
            r == spec_as_key(*self),
    {
        match *self {
            WindowMessage::SysKeyUp { key_code, info } => Some(
                KeyMessage { up: true, sys: true, code: key_code, info },
            ),
            WindowMessage::KeyUp { key_code, info } => Some(
                KeyMessage { up: true, sys: false, code: key_code, info },
            ),
            WindowMessage::SysKeyDown { key_code, info } => Some(
                KeyMessage { up: false, sys: true, code: key_code, info },
            ),
            WindowMessage::KeyDown { key_code, info } => Some(
                KeyMessage { up: false, sys: false, code: key_code, info },
            ),
            _ => None,
        }
    }

    /// Summarizes the twelve mouse-button-family tags into one
    /// mouse-button-event shape; yields nothing for every other tag.
    pub fn as_mouse_button(&self) -> (r: Option<MouseButtonMessage>)
        ensures
            r == spec_as_mouse_button(*self),
    {
        match *self {
            WindowMessage::LButtonDown { modifiers, pos } => Some(
                MouseButtonMessage {
                    action: MouseButtonAction::Down,
                    button: MouseButton::Left,
                    pos,
                    modifiers,
                },
            ),
            WindowMessage::LButtonUp { modifiers, pos } => Some(
                MouseButtonMessage {
                    action: MouseButtonAction::Up,
                    button: MouseButton::Left,
                    pos,
                    modifiers,
                },
            ),
            WindowMessage::LButtonDblClk { modifiers, pos } => Some(
                MouseButtonMessage {
                    action: MouseButtonAction::DoubleClick,
                    button: MouseButton::Left,
                    pos,
                    modifiers,
                },
            ),
            WindowMessage::RButtonDown { modifiers, pos } => Some(
                MouseButtonMessage {
                    action: MouseButtonAction::Down,
                    button: MouseButton::Right,
                    pos,
                    modifiers,
                },
            ),
            WindowMessage::RButtonUp { modifiers, pos } => Some(
                MouseButtonMessage {
                    action: MouseButtonAction::Up,
                    button: MouseButton::Right,
                    pos,
                    modifiers,
                },
            ),
            WindowMessage::RButtonDblClk { modifiers, pos } => Some(
                MouseButtonMessage {
                    action: MouseButtonAction::DoubleClick,
                    button: MouseButton::Right,
                    pos,
                    modifiers,
                },
            ),
            WindowMessage::MButtonDown { modifiers, pos } => Some(
                MouseButtonMessage {
                    action: MouseButtonAction::Down,
                    button: MouseButton::Middle,
                    pos,
                    modifiers,
                },
            ),
            WindowMessage::MButtonUp { modifiers, pos } => Some(
                MouseButtonMessage {
                    action: MouseButtonAction::Up,
                    button: MouseButton::Middle,
                    pos,
                    modifiers,
                },
            ),
            WindowMessage::MButtonDblClk { modifiers, pos } => Some(
                MouseButtonMessage {
                    action: MouseButtonAction::DoubleClick,
                    button: MouseButton::Middle,
                    pos,
                    modifiers,
                },
            ),
            WindowMessage::XButtonDown { modifiers, button, pos } => Some(
                MouseButtonMessage {
                    action: MouseButtonAction::Down,
                    button: MouseButton::X(button),
                    pos,
                    modifiers: modifiers as usize,
                },
            ),
            WindowMessage::XButtonUp { modifiers, button, pos } => Some(
                MouseButtonMessage {
                    action: MouseButtonAction::Up,
                    button: MouseButton::X(button),
                    pos,
                    modifiers: modifiers as usize,
                },
            ),
            WindowMessage::XButtonDblClk { modifiers, button, pos } => Some(
                MouseButtonMessage {
                    action: MouseButtonAction::DoubleClick,
                    button: MouseButton::X(button),
                    pos,
                    modifiers: modifiers as usize,
                },
            ),
            _ => None,
        }
    }
}

/// Law: the two summaries are mutually exclusive — no typed message is both
/// a keyboard event and a mouse-button event — and each is present for
/// exactly its own family's tags, whatever the payloads hold.
pub proof fn lemma_summaries_exclusive(m: WindowMessage)
    ensures
        !(spec_as_key(m) is Some && spec_as_mouse_button(m) is Some),
        spec_as_key(m) is Some <==> (m is KeyDown || m is KeyUp || m is SysKeyDown
            || m is SysKeyUp),
        spec_as_mouse_button(m) is Some <==> (m is LButtonDown || m is LButtonUp
            || m is LButtonDblClk || m is RButtonDown || m is RButtonUp || m is RButtonDblClk
            || m is MButtonDown || m is MButtonUp || m is MButtonDblClk || m is XButtonDown
            || m is XButtonUp || m is XButtonDblClk),
{
}

} // verus!
