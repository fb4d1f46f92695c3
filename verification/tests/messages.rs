use winmsg::message::{
    decode_system, gwl_style_from_word, mouse_activation_from_word, window_shown_from_word,
    WM_ACTIVATE, WM_CAPTURECHANGED, WM_CLOSE, WM_DESTROY, WM_GETICON, WM_KEYDOWN, WM_LBUTTONDOWN,
    WM_MOUSELEAVE, WM_MOUSEWHEEL, WM_MOVE, WM_NCCALCSIZE, WM_NCHITTEST, WM_PAINT, WM_PENWINLAST,
    WM_POWERBROADCAST, WM_SETCURSOR, WM_SETFOCUS, WM_SETICON, WM_SHOWWINDOW, WM_SIZE,
    WM_STYLECHANGED, WM_STYLECHANGING, WM_XBUTTONDOWN,
};
use winmsg::{
    DecodeError, GwlStyle, IconSize, KeyState, MouseActivation, MousePos, NcSizeParams,
    PowerEvent, RawEvent, WindowActivation, WindowMessage, WindowResizing, WindowShown,
};

fn pack_halves(low: u16, high: u16) -> isize {
    (((high as u32 as i64) << 16) | (low as u32 as i64)) as isize
}

#[test]
fn unit_tags_decode_bare() {
    assert_eq!(decode_system(0, 0, 0), Ok(WindowMessage::Null));
    assert_eq!(decode_system(WM_DESTROY, 5, -5), Ok(WindowMessage::Destroy));
    assert_eq!(decode_system(WM_PAINT, 0, 0), Ok(WindowMessage::Paint));
    assert_eq!(decode_system(WM_CLOSE, 1, 1), Ok(WindowMessage::Close));
    assert_eq!(decode_system(WM_MOUSELEAVE, 0, 0), Ok(WindowMessage::MouseLeave));
    assert_eq!(decode_system(WM_PENWINLAST, 0, 0), Ok(WindowMessage::PenWinLast));
}

#[test]
fn unknown_system_id_carries_triple_unchanged() {
    for id in [0x0009u32, 0x0058, 0x03F0] {
        assert_eq!(
            decode_system(id, 5, -6),
            Ok(WindowMessage::Unknown(RawEvent { msg: id, w_param: 5, l_param: -6 }))
        );
    }
}

#[test]
fn move_splits_position_with_sign_extension() {
    let l = pack_halves(10, 0xFFFE);
    assert_eq!(
        decode_system(WM_MOVE, 0, l),
        Ok(WindowMessage::Move { x: 10, y: -2 })
    );
}

#[test]
fn size_decodes_resize_kind_and_dimensions() {
    let l = pack_halves(800, 600);
    assert_eq!(
        decode_system(WM_SIZE, 2, l),
        Ok(WindowMessage::Size { resizing: WindowResizing::Maximized, width: 800, height: 600 })
    );
    assert_eq!(
        decode_system(WM_SIZE, 0, 0),
        Ok(WindowMessage::Size { resizing: WindowResizing::Restored, width: 0, height: 0 })
    );
}

#[test]
fn size_rejects_unknown_resize_kind() {
    let l = pack_halves(800, 600);
    assert_eq!(
        decode_system(WM_SIZE, 9, l),
        Err(DecodeError::InvalidEnumValue {
            event: RawEvent { msg: WM_SIZE, w_param: 9, l_param: l }
        })
    );
}

#[test]
fn activate_splits_state_and_minimized_flag() {
    let w: usize = (1 << 16) | 2;
    assert_eq!(
        decode_system(WM_ACTIVATE, w, 0x1234),
        Ok(WindowMessage::Activate {
            activated: 1,
            state: WindowActivation::ClickActive,
            window: 0x1234,
        })
    );
}

#[test]
fn activate_rejects_unknown_state() {
    assert_eq!(
        decode_system(WM_ACTIVATE, 7, 0),
        Err(DecodeError::InvalidEnumValue {
            event: RawEvent { msg: WM_ACTIVATE, w_param: 7, l_param: 0 }
        })
    );
}

#[test]
fn set_focus_treats_zero_word_as_absent() {
    assert_eq!(decode_system(WM_SETFOCUS, 0, 0), Ok(WindowMessage::SetFocus { window: None }));
    assert_eq!(
        decode_system(WM_SETFOCUS, 0x77, 0),
        Ok(WindowMessage::SetFocus { window: Some(0x77) })
    );
}

#[test]
fn show_window_carries_raw_words() {
    assert_eq!(
        decode_system(WM_SHOWWINDOW, 1, 3),
        Ok(WindowMessage::ShowWindow { shown: 1, status: 3 })
    );
}

#[test]
fn set_cursor_splits_hit_test_and_trigger() {
    let l = pack_halves(0x0002, 0x0201);
    assert_eq!(
        decode_system(WM_SETCURSOR, 0xAB, l),
        Ok(WindowMessage::SetCursor { window: 0xAB, hit_test: 2, trigger_message: 0x0201 })
    );
}

#[test]
fn icon_messages_decode_size_kind() {
    assert_eq!(
        decode_system(WM_GETICON, 1, 96),
        Ok(WindowMessage::GetIcon { size: IconSize::Big, dpi: 96 })
    );
    assert_eq!(
        decode_system(WM_SETICON, 2, 0x42),
        Ok(WindowMessage::SetIcon { size: IconSize::Small2, icon: 0x42 })
    );
    assert_eq!(
        decode_system(WM_GETICON, 3, 96),
        Err(DecodeError::InvalidEnumValue {
            event: RawEvent { msg: WM_GETICON, w_param: 3, l_param: 96 }
        })
    );
}

#[test]
fn style_messages_decode_signed_target_word() {
    let style_word = (-16isize) as usize;
    let ex_style_word = (-20isize) as usize;
    assert_eq!(
        decode_system(WM_STYLECHANGING, style_word, 0x1000),
        Ok(WindowMessage::StyleChanging { style: GwlStyle::Style, data: Some(0x1000) })
    );
    assert_eq!(
        decode_system(WM_STYLECHANGED, ex_style_word, 0),
        Ok(WindowMessage::StyleChanged { style: GwlStyle::ExStyle, data: None })
    );
    assert_eq!(
        decode_system(WM_STYLECHANGING, 0, 0x1000),
        Err(DecodeError::InvalidEnumValue {
            event: RawEvent { msg: WM_STYLECHANGING, w_param: 0, l_param: 0x1000 }
        })
    );
    assert_eq!(gwl_style_from_word(style_word), Some(GwlStyle::Style));
    assert_eq!(gwl_style_from_word(1), None);
}

#[test]
fn nc_calc_size_branches_on_selector_word() {
    assert_eq!(
        decode_system(WM_NCCALCSIZE, 1, 0x1000),
        Ok(WindowMessage::NcCalcSize {
            params: NcSizeParams::ValidClientArea { data: Some(0x1000) }
        })
    );
    assert_eq!(
        decode_system(WM_NCCALCSIZE, 0, 0),
        Ok(WindowMessage::NcCalcSize { params: NcSizeParams::Rect { data: None } })
    );
}

#[test]
fn nc_hit_test_unpacks_position() {
    let l = pack_halves(0xFFFB, 7);
    assert_eq!(
        decode_system(WM_NCHITTEST, 0, l),
        Ok(WindowMessage::NcHitTest { pos: MousePos { x: -5, y: 7 } })
    );
}

#[test]
fn power_broadcast_decodes_event_kind() {
    assert_eq!(
        decode_system(WM_POWERBROADCAST, 0xA, 0),
        Ok(WindowMessage::PowerBroadcast { event: PowerEvent::ApmPowerStatusChange, data: None })
    );
    assert_eq!(
        decode_system(WM_POWERBROADCAST, 0x8013, 0x2000),
        Ok(WindowMessage::PowerBroadcast {
            event: PowerEvent::PowerSettingsChange,
            data: Some(0x2000),
        })
    );
    assert_eq!(
        decode_system(WM_POWERBROADCAST, 1, 0),
        Err(DecodeError::InvalidEnumValue {
            event: RawEvent { msg: WM_POWERBROADCAST, w_param: 1, l_param: 0 }
        })
    );
}

#[test]
fn mouse_wheel_splits_modifiers_and_delta() {
    let w: usize = (120 << 16) | 0x0008;
    let l = pack_halves(40, 50);
    assert_eq!(
        decode_system(WM_MOUSEWHEEL, w, l),
        Ok(WindowMessage::MouseWheel {
            modifiers: 8,
            delta: 120,
            pos: MousePos { x: 40, y: 50 },
        })
    );
}

#[test]
fn x_button_carries_button_index() {
    let w: usize = (2 << 16) | 0x0001;
    let l = pack_halves(1, 2);
    assert_eq!(
        decode_system(WM_XBUTTONDOWN, w, l),
        Ok(WindowMessage::XButtonDown {
            modifiers: 1,
            button: 2,
            pos: MousePos { x: 1, y: 2 },
        })
    );
}

#[test]
fn key_down_decodes_packed_state() {
    let packed: u32 = 1 | (0x1E << 16) | (1 << 24);
    assert_eq!(
        decode_system(WM_KEYDOWN, 0x41, packed as isize),
        Ok(WindowMessage::KeyDown { key_code: 0x41, info: KeyState::decode(packed) })
    );
}

#[test]
fn capture_changed_takes_window_from_second_word() {
    assert_eq!(
        decode_system(WM_CAPTURECHANGED, 0, 0x99),
        Ok(WindowMessage::CaptureChanged { window: 0x99 })
    );
}

#[test]
fn left_button_down_decodes_modifiers_and_position() {
    let l = pack_halves(10, 20);
    assert_eq!(
        decode_system(WM_LBUTTONDOWN, 0x0001, l),
        Ok(WindowMessage::LButtonDown { modifiers: 0x0001, pos: MousePos { x: 10, y: 20 } })
    );
}

#[test]
fn interpretation_helpers_map_their_closed_sets() {
    assert_eq!(mouse_activation_from_word(1), Some(MouseActivation::Activate));
    assert_eq!(mouse_activation_from_word(4), Some(MouseActivation::NoActivateAndEat));
    assert_eq!(mouse_activation_from_word(0), None);
    assert_eq!(window_shown_from_word(1), Some(WindowShown::ParentClosing));
    assert_eq!(window_shown_from_word(4), Some(WindowShown::OtherUnZoom));
    assert_eq!(window_shown_from_word(5), None);
}
