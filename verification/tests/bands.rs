use winmsg::band::{classify, Band};
use winmsg::{DecodeError, RawEvent, WindowEvent, WindowMessage};

#[test]
fn classify_system_band() {
    assert_eq!(classify(0x0000), Band::System);
    assert_eq!(classify(0x0001), Band::System);
    assert_eq!(classify(0x03FF), Band::System);
}

#[test]
fn classify_user_band() {
    assert_eq!(classify(0x0400), Band::User);
    assert_eq!(classify(0x0555), Band::User);
    assert_eq!(classify(0x7FFF), Band::User);
}

#[test]
fn classify_app_band() {
    assert_eq!(classify(0x8000), Band::App);
    assert_eq!(classify(0xBFFF), Band::App);
}

#[test]
fn classify_string_band() {
    assert_eq!(classify(0xC000), Band::StringMsg);
    assert_eq!(classify(0xFFFE), Band::StringMsg);
}

#[test]
fn classify_reserved_band() {
    assert_eq!(classify(0xFFFF), Band::Reserved);
    assert_eq!(classify(0x0001_0000), Band::Reserved);
    assert_eq!(classify(u32::MAX), Band::Reserved);
}

#[test]
fn parse_user_band_rebases_and_keeps_params() {
    let r: Result<WindowEvent, DecodeError> = WindowEvent::parse(0x0400 + 7, 11, -22);
    assert_eq!(
        r,
        Ok(WindowEvent::User(RawEvent { msg: 7, w_param: 11, l_param: -22 }))
    );
}

#[test]
fn parse_app_band_rebases_by_own_base() {
    let r = WindowEvent::parse(0x8000 + 0x0123, 1, 2);
    assert_eq!(
        r,
        Ok(WindowEvent::App(RawEvent { msg: 0x0123, w_param: 1, l_param: 2 }))
    );
}

#[test]
fn parse_string_band_rebases_by_own_base() {
    // Fixes the chosen policy: the string band rebases by its own lower
    // bound, 0xC000, like every other band.
    let r = WindowEvent::parse(0xC000 + 0x0042, 3, 4);
    assert_eq!(
        r,
        Ok(WindowEvent::StringMsg(RawEvent { msg: 0x0042, w_param: 3, l_param: 4 }))
    );
}

#[test]
fn parse_reserved_band_rebases_by_own_base() {
    let r = WindowEvent::parse(0xFFFF, 9, 8);
    assert_eq!(
        r,
        Ok(WindowEvent::Reserved(RawEvent { msg: 0, w_param: 9, l_param: 8 }))
    );
    let r = WindowEvent::parse(0x0001_0002, 0, 0);
    assert_eq!(
        r,
        Ok(WindowEvent::Reserved(RawEvent { msg: 3, w_param: 0, l_param: 0 }))
    );
}

#[test]
fn parse_null_message() {
    let r = WindowEvent::parse(0, 0, 0);
    assert_eq!(r, Ok(WindowEvent::Message(WindowMessage::Null)));
}
