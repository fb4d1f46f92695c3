use winmsg::{
    DecodeError, KeyMessage, KeyState, MouseButton, MouseButtonAction, MouseButtonMessage,
    MousePos, RawEvent, WindowEvent, WindowMessage,
};

fn pack_halves(low: u16, high: u16) -> isize {
    (((high as u32 as i64) << 16) | (low as u32 as i64)) as isize
}

fn parsed_message(msg: u32, w_param: usize, l_param: isize) -> WindowMessage {
    match WindowEvent::parse(msg, w_param, l_param) {
        Ok(WindowEvent::Message(m)) => m,
        other => panic!("expected a system message, got {:?}", other),
    }
}

#[test]
fn left_button_down_summarizes_to_mouse_event() {
    let m = parsed_message(0x0201, 0x0001, pack_halves(10, 20));
    assert_eq!(
        m,
        WindowMessage::LButtonDown { modifiers: 0x0001, pos: MousePos { x: 10, y: 20 } }
    );
    assert_eq!(
        m.as_mouse_button(),
        Some(MouseButtonMessage {
            action: MouseButtonAction::Down,
            button: MouseButton::Left,
            pos: MousePos { x: 10, y: 20 },
            modifiers: 0x0001,
        })
    );
    assert_eq!(m.as_key(), None);
}

#[test]
fn key_down_summarizes_to_keyboard_event() {
    let packed: u32 = 1 | (0x1E << 16) | (1 << 30) | (1 << 31);
    let m = parsed_message(0x0100, 0x41, packed as isize);
    let k = m.as_key().expect("key-family tag must summarize");
    assert!(!k.up);
    assert!(!k.sys);
    assert_eq!(k.code, 0x41);
    assert_eq!(k.info, KeyState::decode(packed));
    assert_eq!(m.as_mouse_button(), None);
}

#[test]
fn sys_key_up_sets_scope_and_transition() {
    let m = parsed_message(0x0105, 0x12, 0);
    assert_eq!(
        m.as_key(),
        Some(KeyMessage { up: true, sys: true, code: 0x12, info: KeyState::decode(0) })
    );
}

#[test]
fn key_up_and_sys_key_down_cross_flags() {
    let up = parsed_message(0x0101, 7, 0).as_key().unwrap();
    assert!(up.up && !up.sys);
    let sys_down = parsed_message(0x0104, 7, 0).as_key().unwrap();
    assert!(!sys_down.up && sys_down.sys);
}

#[test]
fn middle_button_double_click_summarizes() {
    let m = parsed_message(0x0209, 0x0010, pack_halves(3, 4));
    assert_eq!(
        m.as_mouse_button(),
        Some(MouseButtonMessage {
            action: MouseButtonAction::DoubleClick,
            button: MouseButton::Middle,
            pos: MousePos { x: 3, y: 4 },
            modifiers: 0x0010,
        })
    );
}

#[test]
fn right_button_up_summarizes() {
    let m = parsed_message(0x0205, 0, pack_halves(0xFFFF, 0));
    assert_eq!(
        m.as_mouse_button(),
        Some(MouseButtonMessage {
            action: MouseButtonAction::Up,
            button: MouseButton::Right,
            pos: MousePos { x: -1, y: 0 },
            modifiers: 0,
        })
    );
}

#[test]
fn extended_button_summary_carries_index() {
    let w: usize = (1 << 16) | 0x0020;
    let m = parsed_message(0x020C, w, 0);
    assert_eq!(
        m.as_mouse_button(),
        Some(MouseButtonMessage {
            action: MouseButtonAction::Up,
            button: MouseButton::X(1),
            pos: MousePos { x: 0, y: 0 },
            modifiers: 0x0020,
        })
    );
}

#[test]
fn summaries_absent_for_unrelated_tags() {
    for m in [
        WindowMessage::Null,
        WindowMessage::Paint,
        WindowMessage::MouseMove { modifiers: 1, pos: MousePos { x: 0, y: 0 } },
        WindowMessage::Unknown(RawEvent { msg: 9, w_param: 0, l_param: 0 }),
    ] {
        assert_eq!(m.as_key(), None);
        assert_eq!(m.as_mouse_button(), None);
    }
}

#[test]
fn summaries_never_overlap_on_sample_messages() {
    let samples = [
        parsed_message(0x0100, 0x41, 1),
        parsed_message(0x0105, 0x42, 2),
        parsed_message(0x0201, 0, 0),
        parsed_message(0x0208, 0, 0),
        parsed_message(0x020D, 0, 0),
        parsed_message(0x0000, 0, 0),
    ];
    for m in samples {
        assert!(!(m.as_key().is_some() && m.as_mouse_button().is_some()));
    }
}

#[test]
fn summaries_are_deterministic_across_calls() {
    let m = parsed_message(0x0202, 4, pack_halves(1, 1));
    assert_eq!(m.as_mouse_button(), m.as_mouse_button());
    assert_eq!(m.as_key(), m.as_key());
}

#[test]
fn invalid_enum_surfaces_through_parse() {
    let r = WindowEvent::parse(0x0005, 9, 0);
    assert_eq!(
        r,
        Err(DecodeError::InvalidEnumValue {
            event: RawEvent { msg: 0x0005, w_param: 9, l_param: 0 }
        })
    );
}
