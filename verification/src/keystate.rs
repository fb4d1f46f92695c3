use vstd::prelude::*;

verus! {

/// The packed key-state field: a 32-bit value whose bits subdivide into six
/// named sub-fields. Repeat count occupies bits 0..=15, scan code bits
/// 16..=23, the extended-key flag bit 24, the context code bit 29, the
/// previous key state bit 30 and the transition state bit 31; bits 25..=28
/// are reserved and read-ignored.
#[derive(Debug, Copy, Clone, PartialEq, Eq)]
pub struct KeyState {
    pub repeat_count: u16,
    pub scan_code: u8,
    pub extended: bool,
    pub context_code: bool,
    pub previous_state: bool,
    pub transition_state: bool,
}

/// Whether bit `i` of `v` is set.
pub open spec fn spec_bit(v: u32, i: u32) -> bool {
    (v >> i) & 1 == 1
}

/// The six sub-fields extracted from a packed 32-bit value.
pub open spec fn spec_decode_key_state(v: u32) -> KeyState {
    KeyState {
        repeat_count: (v & 0xFFFF) as u16,
        scan_code: ((v >> 16) & 0xFF) as u8,
        extended: spec_bit(v, 24),
        context_code: spec_bit(v, 29),
        previous_state: spec_bit(v, 30),
        transition_state: spec_bit(v, 31),
    }
}

/// The packed 32-bit value composed from six sub-fields, with the reserved
/// bits forced to zero.
pub open spec fn spec_encode_key_state(k: KeyState) -> u32 {
    (k.repeat_count as u32) | ((k.scan_code as u32) << 16)
        | ((if k.extended { 1u32 } else { 0u32 }) << 24)
        | ((if k.context_code { 1u32 } else { 0u32 }) << 29)
        | ((if k.previous_state { 1u32 } else { 0u32 }) << 30)
        | ((if k.transition_state { 1u32 } else { 0u32 }) << 31)
}

/// The mask of the non-reserved bits: everything but bits 25..=28.
pub const KEY_STATE_MASK: u32 = 0xE1FF_FFFF;

impl KeyState {
    /// Decodes a packed 32-bit key-state value into its six sub-fields.
    /// Total: every 32-bit value decodes, and no sub-field depends on
    /// another.
    pub fn decode(value: u32) -> (k: KeyState)
        ensures
            k == spec_decode_key_state(value),
    {
        KeyState {
            repeat_count: #[verifier::truncate] ((value & 0xFFFF) as u16),
            scan_code: #[verifier::truncate] (((value >> 16) & 0xFF) as u8),
            extended: (value >> 24) & 1 == 1,
            context_code: (value >> 29) & 1 == 1,
            previous_state: (value >> 30) & 1 == 1,
            transition_state: (value >> 31) & 1 == 1,
        }
    }

    /// Re-encodes the six sub-fields into a packed 32-bit value with the
    /// reserved bits zero: the exact inverse of `decode` on its image.
    pub fn encode(self) -> (v: u32)
        ensures
            v == spec_encode_key_state(self),
    {
        (self.repeat_count as u32) | ((self.scan_code as u32) << 16)
            | ((if self.extended { 1u32 } else { 0u32 }) << 24)
            | ((if self.context_code { 1u32 } else { 0u32 }) << 29)
            | ((if self.previous_state { 1u32 } else { 0u32 }) << 30)
            | ((if self.transition_state { 1u32 } else { 0u32 }) << 31)
    }
}

/// Law: re-encoding a decoded field reproduces the original value with the
/// reserved bits cleared; the sub-field ranges partition the 32 bits.
pub proof fn lemma_key_state_encode_decode(v: u32)
    ensures
        spec_encode_key_state(spec_decode_key_state(v)) == v & KEY_STATE_MASK,
{
    assert(((v & 0xFFFF) as u16 as u32) | ((((v >> 16) & 0xFF) as u8 as u32) << 16)
        | ((if (v >> 24) & 1 == 1 { 1u32 } else { 0u32 }) << 24)
        | ((if (v >> 29) & 1 == 1 { 1u32 } else { 0u32 }) << 29)
        | ((if (v >> 30) & 1 == 1 { 1u32 } else { 0u32 }) << 30)
        | ((if (v >> 31) & 1 == 1 { 1u32 } else { 0u32 }) << 31) == v & 0xE1FF_FFFF)
        by (bit_vector);
}

/// Law: decoding an encoded field gives the six sub-fields back exactly,
/// whatever they held.
pub proof fn lemma_key_state_decode_encode(k: KeyState)
    ensures
        spec_decode_key_state(spec_encode_key_state(k)) == k,
{
    let rc = k.repeat_count;
    let sc = k.scan_code;
    let e: u32 = if k.extended { 1u32 } else { 0u32 };
    let c: u32 = if k.context_code { 1u32 } else { 0u32 };
    let p: u32 = if k.previous_state { 1u32 } else { 0u32 };
    let t: u32 = if k.transition_state { 1u32 } else { 0u32 };
    let enc = spec_encode_key_state(k);
    assert((((rc as u32) | ((sc as u32) << 16) | (e << 24) | (c << 29) | (p << 30) | (t << 31))
        & 0xFFFF) as u16 == rc) by (bit_vector)
        requires e <= 1, c <= 1, p <= 1, t <= 1;
    assert(((((rc as u32) | ((sc as u32) << 16) | (e << 24) | (c << 29) | (p << 30) | (t << 31))
        >> 16) & 0xFF) as u8 == sc) by (bit_vector)
        requires e <= 1, c <= 1, p <= 1, t <= 1;
    assert((((rc as u32) | ((sc as u32) << 16) | (e << 24) | (c << 29) | (p << 30) | (t << 31))
        >> 24) & 1 == e
        && (((rc as u32) | ((sc as u32) << 16) | (e << 24) | (c << 29) | (p << 30) | (t << 31))
        >> 29) & 1 == c
        && (((rc as u32) | ((sc as u32) << 16) | (e << 24) | (c << 29) | (p << 30) | (t << 31))
        >> 30) & 1 == p
        && (((rc as u32) | ((sc as u32) << 16) | (e << 24) | (c << 29) | (p << 30) | (t << 31))
        >> 31) & 1 == t) by (bit_vector)
        requires e <= 1, c <= 1, p <= 1, t <= 1;
    assert(spec_decode_key_state(enc).repeat_count == rc);
    assert(spec_decode_key_state(enc).scan_code == sc);
    assert(spec_decode_key_state(enc).extended == k.extended);
    assert(spec_decode_key_state(enc).context_code == k.context_code);
    assert(spec_decode_key_state(enc).previous_state == k.previous_state);
    assert(spec_decode_key_state(enc).transition_state == k.transition_state);
}

} // verus!
