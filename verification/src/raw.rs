use vstd::prelude::*;

verus! {

/// An event triple as delivered by the windowing subsystem: a 32-bit message
/// identifier and two parameter words sized to the platform's pointer width,
/// the first unsigned, the second signed.
#[derive(Debug, Copy, Clone, PartialEq, Eq)]
pub struct RawEvent {
    pub msg: u32,
    pub w_param: usize,
    pub l_param: isize,
}

/// A screen position unpacked from one parameter word: `x` from the low
/// 16 bits, `y` from the next 16 bits, each read as a signed 16-bit value.
#[derive(Debug, Copy, Clone, PartialEq, Eq)]
pub struct MousePos {
    pub x: i16,
    pub y: i16,
}

/// The bit pattern of the signed parameter word, read as unsigned.
pub open spec fn spec_word_bits(l: isize) -> usize {
    l as usize
}

/// The low 16 bits of a parameter word.
pub open spec fn spec_low16(w: usize) -> u16 {
    (w & 0xFFFF) as u16
}

/// Bits 16..32 of a parameter word.
pub open spec fn spec_high16(w: usize) -> u16 {
    ((w >> 16) & 0xFFFF) as u16
}

/// The low 32 bits of a parameter word.
pub open spec fn spec_low32(w: usize) -> u32 {
    (w & 0xFFFF_FFFF) as u32
}

/// A 16-bit field reinterpreted as signed.
pub open spec fn spec_as_i16(v: u16) -> i16 {
    v as i16
}

/// The position packed into the signed parameter word.
pub open spec fn spec_pos_of_word(l: isize) -> MousePos {
    MousePos {
        x: spec_as_i16(spec_low16(spec_word_bits(l))),
        y: spec_as_i16(spec_high16(spec_word_bits(l))),
    }
}

/// An optional out-of-band address carried in a parameter word: a zero word
/// means absent; a non-zero word is passed through untouched, never
/// dereferenced.
pub open spec fn spec_addr_of_word(w: usize) -> Option<usize> {
    if w == 0 {
        Option::None
    } else {
        Option::Some(w)
    }
}

pub fn word_bits(l: isize) -> (r: usize)
    ensures
        r == spec_word_bits(l),
{
    #[verifier::truncate] (l as usize)
}

pub fn low16(w: usize) -> (r: u16)
    ensures
        r == spec_low16(w),
{
    #[verifier::truncate] ((w & 0xFFFF) as u16)
}

pub fn high16(w: usize) -> (r: u16)
    ensures
        r == spec_high16(w),
{
    #[verifier::truncate] (((w >> 16) & 0xFFFF) as u16)
}

pub fn low32(w: usize) -> (r: u32)
    ensures
        r == spec_low32(w),
{
    #[verifier::truncate] ((w & 0xFFFF_FFFF) as u32)
}

pub fn as_i16(v: u16) -> (r: i16)
    ensures
        r == spec_as_i16(v),
{
    #[verifier::truncate] (v as i16)
}

pub fn pos_of_word(l: isize) -> (r: MousePos)
    ensures
        r == spec_pos_of_word(l),
{
    let bits: usize = word_bits(l);
    MousePos { x: as_i16(low16(bits)), y: as_i16(high16(bits)) }
}

pub fn addr_of_word(w: usize) -> (r: Option<usize>)
    ensures
        r == spec_addr_of_word(w),
{
    if w == 0 {
        Option::None
    } else {
        Option::Some(w)
    }
}

} // verus!
