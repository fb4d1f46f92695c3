use vstd::prelude::*;

use crate::band::{classify, spec_classify, Band, WM_APP, WM_RESERVED, WM_STRING, WM_USER};
use crate::message::{decode_system, spec_decode_system, DecodeError, WindowMessage};
use crate::raw::RawEvent;

verus! {

/// A parsed event: a typed message for the system band, or the raw triple,
/// identifier rebased, for each of the four other bands.
#[derive(Debug, Copy, Clone, PartialEq, Eq)]
pub enum WindowEvent {
    Message(WindowMessage),
    User(RawEvent),
    App(RawEvent),
    StringMsg(RawEvent),
    Reserved(RawEvent),
}

impl WindowEvent {
    /// Parses a raw triple by band. A system-band identifier goes through
    /// the system-message decoder; every other band carries its triple
    /// verbatim with the identifier rebased by that band's own lower bound —
    /// the string band included, which is rebased by `WM_STRING`.
    pub fn parse(msg: u32, w_param: usize, l_param: isize) -> (r: Result<
        WindowEvent,
        DecodeError,
    >)
        ensures
            spec_classify(msg) == Band::System ==> (match spec_decode_system(
                msg,
                w_param,
                l_param,
            ) {
                Ok(m) => r == Ok::<WindowEvent, DecodeError>(WindowEvent::Message(m)),
                Err(e) => r == Err::<WindowEvent, DecodeError>(e),
            }),
            spec_classify(msg) == Band::User ==> r == Ok::<WindowEvent, DecodeError>(
                WindowEvent::User(RawEvent { msg: (msg - WM_USER) as u32, w_param, l_param }),
            ),
            spec_classify(msg) == Band::App ==> r == Ok::<WindowEvent, DecodeError>(
                WindowEvent::App(RawEvent { msg: (msg - WM_APP) as u32, w_param, l_param }),
            ),
            spec_classify(msg) == Band::StringMsg ==> r == Ok::<WindowEvent, DecodeError>(
                WindowEvent::StringMsg(
                    RawEvent { msg: (msg - WM_STRING) as u32, w_param, l_param },
                ),
            ),
            spec_classify(msg) == Band::Reserved ==> r == Ok::<WindowEvent, DecodeError>(
                WindowEvent::Reserved(
                    RawEvent { msg: (msg - WM_RESERVED) as u32, w_param, l_param },
                ),
            ),
    {
        match classify(msg) {
            Band::System => match decode_system(msg, w_param, l_param) {
                Ok(m) => Ok(WindowEvent::Message(m)),
                Err(e) => Err(e),
            },
            Band::User => Ok(
                WindowEvent::User(RawEvent { msg: msg - WM_USER, w_param, l_param }),
            ),
            Band::App => Ok(WindowEvent::App(RawEvent { msg: msg - WM_APP, w_param, l_param })),
            Band::StringMsg => Ok(
                WindowEvent::StringMsg(RawEvent { msg: msg - WM_STRING, w_param, l_param }),
            ),
            Band::Reserved => Ok(
                WindowEvent::Reserved(RawEvent { msg: msg - WM_RESERVED, w_param, l_param }),
            ),
        }
    }
}

} // verus!
