use vstd::prelude::*;

verus! {

/// First identifier of the user-defined band.
pub const WM_USER: u32 = 0x0400;

/// First identifier of the application band.
pub const WM_APP: u32 = 0x8000;

/// First identifier of the string-message band.
pub const WM_STRING: u32 = 0xC000;

/// First identifier of the reserved band.
pub const WM_RESERVED: u32 = 0xFFFF;

/// The five contiguous bands that partition the 32-bit identifier space:
/// system messages in `[0, WM_USER)`, user-defined messages in
/// `[WM_USER, WM_APP)`, application messages in `[WM_APP, WM_STRING)`,
/// string messages in `[WM_STRING, WM_RESERVED)` and reserved messages from
/// `WM_RESERVED` up.
#[derive(Debug, Copy, Clone, PartialEq, Eq)]
pub enum Band {
    System,
    User,
    App,
    StringMsg,
    Reserved,
}

/// The band an identifier falls in, by the boundaries above.
pub open spec fn spec_classify(id: u32) -> Band {
    if id < WM_USER {
        Band::System
    } else if id < WM_APP {
        Band::User
    } else if id < WM_STRING {
        Band::App
    } else if id < WM_RESERVED {
        Band::StringMsg
    } else {
        Band::Reserved
    }
}

/// Classifies an identifier into its band. The bands are contiguous,
/// exhaustive and non-overlapping, so classification is total.
pub fn classify(id: u32) -> (b: Band)
    ensures
        b == spec_classify(id),
{
    if id < WM_USER {
        Band::System
    } else if id < WM_APP {
        Band::User
    } else if id < WM_STRING {
        Band::App
    } else if id < WM_RESERVED {
        Band::StringMsg
    } else {
        Band::Reserved
    }
}

/// Law: the five bands cover the whole identifier space without overlap,
/// with the boundaries the protocol fixes.
pub proof fn lemma_band_ranges(id: u32)
    ensures
        (spec_classify(id) == Band::System) <==> (id <= 0x03FF),
        (spec_classify(id) == Band::User) <==> (0x0400 <= id && id <= 0x7FFF),
        (spec_classify(id) == Band::App) <==> (0x8000 <= id && id <= 0xBFFF),
        (spec_classify(id) == Band::StringMsg) <==> (0xC000 <= id && id <= 0xFFFE),
        (spec_classify(id) == Band::Reserved) <==> (0xFFFF <= id),
{
}

} // verus!
