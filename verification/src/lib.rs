//! Decoders for a native windowing subsystem's event protocol.
//!
//! A received event is a triple of a 32-bit message identifier and two
//! machine-word parameters. This crate bands the identifier into the
//! protocol's ranges, maps each known system-band identifier to a typed
//! payload reconstructed bit-exactly from the two words, and derives two
//! cross-cutting summaries (keyboard events, mouse-button events) from the
//! typed messages. Every operation is a pure total function of its inputs;
//! pointer-valued payload words are carried through as opaque addresses and
//! never dereferenced.

pub mod raw;
pub mod keystate;
pub mod band;
pub mod message;
pub mod event;
pub mod summary;

pub use crate::raw::{MousePos, RawEvent};
pub use crate::keystate::KeyState;
pub use crate::band::Band;
pub use crate::message::{
    DecodeError, GwlStyle, IconSize, MouseActivation, NcSizeParams, PowerEvent, WindowActivation,
    WindowMessage, WindowResizing, WindowShown,
};
pub use crate::event::WindowEvent;
pub use crate::summary::{KeyMessage, MouseButton, MouseButtonAction, MouseButtonMessage};
