use winmsg::KeyState;

#[test]
fn decode_zero_is_all_clear() {
    let k = KeyState::decode(0);
    assert_eq!(k.repeat_count, 0);
    assert_eq!(k.scan_code, 0);
    assert!(!k.extended);
    assert!(!k.context_code);
    assert!(!k.previous_state);
    assert!(!k.transition_state);
}

#[test]
fn decode_all_ones_saturates_every_field() {
    let k = KeyState::decode(0xFFFF_FFFF);
    assert_eq!(k.repeat_count, 0xFFFF);
    assert_eq!(k.scan_code, 0xFF);
    assert!(k.extended);
    assert!(k.context_code);
    assert!(k.previous_state);
    assert!(k.transition_state);
}

#[test]
fn decode_picks_each_range() {
    // repeat count 3, scan code 0x2A, extended set, previous state set.
    let v: u32 = 3 | (0x2A << 16) | (1 << 24) | (1 << 30);
    let k = KeyState::decode(v);
    assert_eq!(k.repeat_count, 3);
    assert_eq!(k.scan_code, 0x2A);
    assert!(k.extended);
    assert!(!k.context_code);
    assert!(k.previous_state);
    assert!(!k.transition_state);
}

#[test]
fn reserved_bits_are_ignored() {
    // Bits 25..=28 differ; every decoded field agrees.
    let a = KeyState::decode(0x1E00_0005);
    let b = KeyState::decode(0x0000_0005);
    assert_eq!(a, b);
}

#[test]
fn encode_inverts_decode_up_to_reserved_bits() {
    for v in [0u32, 1, 0x0041_0001, 0xDEAD_BEEF, 0xFFFF_FFFF, 0x1E00_0000] {
        assert_eq!(KeyState::decode(v).encode(), v & 0xE1FF_FFFF);
    }
}

#[test]
fn decode_inverts_encode_exactly() {
    let k = KeyState {
        repeat_count: 0x1234,
        scan_code: 0x56,
        extended: true,
        context_code: false,
        previous_state: true,
        transition_state: false,
    };
    assert_eq!(KeyState::decode(k.encode()), k);
}
