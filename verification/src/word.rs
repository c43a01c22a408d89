//! Conversions between signed 16-bit words and their two's-complement bit
//! patterns, and splitting a word into its big-endian bytes.

use vstd::prelude::*;

verus! {

/// The 16-bit two's-complement bit pattern of a signed word.
pub open spec fn bits16(v: i16) -> u16 {
    if v >= 0 {
        v as u16
    } else {
        (v + 0x10000) as u16
    }
}

/// The signed word whose two's-complement bit pattern is `w`.
pub open spec fn signed16(w: u16) -> i16 {
    if w < 0x8000 {
        w as i16
    } else {
        (w - 0x10000) as i16
    }
}

/// The signed value of the 8-bit two's-complement pattern `b`.
pub open spec fn signed8(b: u8) -> i16 {
    if b < 0x80 {
        b as i16
    } else {
        (b - 0x100) as i16
    }
}

/// The high byte of a 16-bit word.
pub open spec fn hi8(w: u16) -> u8 {
    (w / 0x100) as u8
}

/// The low byte of a 16-bit word.
pub open spec fn lo8(w: u16) -> u8 {
    (w % 0x100) as u8
}

/// The 16-bit word with big-endian bytes `hi`, `lo`.
pub open spec fn word16(hi: u8, lo: u8) -> u16 {
    (hi * 0x100 + lo) as u16
}

pub proof fn lemma_bits16_signed16(v: i16)
    ensures
        signed16(bits16(v)) == v,
{
}

pub proof fn lemma_signed16_bits16(w: u16)
    ensures
        bits16(signed16(w)) == w,
{
}

pub proof fn lemma_word16_split(w: u16)
    ensures
        word16(hi8(w), lo8(w)) == w,
{
    vstd::arithmetic::div_mod::lemma_fundamental_div_mod(w as int, 0x100);
}

pub proof fn lemma_word16_parts(hi: u8, lo: u8)
    ensures
        hi8(word16(hi, lo)) == hi,
        lo8(word16(hi, lo)) == lo,
{
    vstd::arithmetic::div_mod::lemma_fundamental_div_mod_converse(
        hi * 0x100 + lo,
        0x100,
        hi as int,
        lo as int,
    );
}

pub fn to_bits(v: i16) -> (w: u16)
    ensures
        w == bits16(v),
{
    if v >= 0 {
        v as u16
    } else {
        ((v as i32) + 0x10000) as u16
    }
}

pub fn from_bits(w: u16) -> (v: i16)
    ensures
        v == signed16(w),
{
    if w < 0x8000 {
        w as i16
    } else {
        ((w as i32) - 0x10000) as i16
    }
}

pub fn byte_signed(b: u8) -> (v: i16)
    ensures
        v == signed8(b),
{
    if b < 0x80 {
        b as i16
    } else {
        ((b as i32) - 0x100) as i16
    }
}

pub fn high_byte(w: u16) -> (b: u8)
    ensures
        b == hi8(w),
{
    (w / 0x100) as u8
}

pub fn low_byte(w: u16) -> (b: u8)
    ensures
        b == lo8(w),
{
    (w % 0x100) as u8
}

pub fn join_bytes(hi: u8, lo: u8) -> (w: u16)
    ensures
        w == word16(hi, lo),
{
    (hi as u16) * 0x100 + (lo as u16)
}

} // verus!
