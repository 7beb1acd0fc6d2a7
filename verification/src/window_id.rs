//! Window identity across the boundary.
//!
//! A native window id is 32, 64 or 128 bits wide depending on the platform;
//! the boundary carries every id uniformly as a 128-bit value split into a
//! high and a low 64-bit half. The conversion accepts the id as the little-
//! endian bytes the platform hands over, and recognises exactly the widths
//! 4, 8 and 16; any other width is refused, and the boundary falls back to
//! the zero sentinel with a diagnostic.

use vstd::bytes::*;
use vstd::prelude::*;

verus! {

/// One more than the largest value a 64-bit half can hold.
pub const HALF_RADIX: u128 = 0x1_0000_0000_0000_0000;

/// A 128-bit window identity split into two 64-bit halves.
#[derive(Debug, Clone, Copy, PartialEq, Eq, Structural, Default)]
pub struct WindowId128 {
    /// The most significant 64 bits.
    pub high: u64,
    /// The least significant 64 bits.
    pub low: u64,
}

/// The value a split identity stands for.
pub open spec fn id128_value(id: WindowId128) -> int {
    id.high * (HALF_RADIX as int) + id.low
}

/// The split form of a 128-bit value.
pub open spec fn id128_of(v: u128) -> WindowId128 {
    WindowId128 { high: (v as int / HALF_RADIX as int) as u64, low: (v as int % HALF_RADIX as int) as u64 }
}

/// Splitting and recombining are mutually inverse: the split of a value
/// stands for that value, and a value built from two halves splits back into
/// them.
pub broadcast proof fn lemma_window_id_roundtrip(v: u128)
    ensures
        #[trigger] id128_value(id128_of(v)) == v,
{
    let h: int = HALF_RADIX as int;
    let vi: int = v as int;
    assert(vi / h < h) by (nonlinear_arith)
        requires
            h == 0x1_0000_0000_0000_0000,
            0 <= vi < 0x1_0000_0000_0000_0000_0000_0000_0000_0000,
    ;
    assert((vi / h) * h + (vi % h) == vi) by (nonlinear_arith)
        requires
            h > 0,
    ;
}

impl WindowId128 {
    /// The zero sentinel the boundary reports for an id of unrecognised
    /// width.
    pub fn zero() -> (r: WindowId128)
        ensures
            r == (WindowId128 { high: 0, low: 0 }),
            id128_value(r) == 0,
    {
        WindowId128 { high: 0, low: 0 }
    }
}

/// Splits a 128-bit window id into its two halves.
pub fn split_window_id(v: u128) -> (r: WindowId128)
    ensures
        r == id128_of(v),
        id128_value(r) == v,
{
    proof {
        lemma_window_id_roundtrip(v);
    }
    WindowId128 { high: (v / HALF_RADIX) as u64, low: (v % HALF_RADIX) as u64 }
}

/// Recombines the two halves into the 128-bit window id they stand for.
pub fn join_window_id(id: WindowId128) -> (r: u128)
    ensures
        r == id128_value(id),
        id128_of(r) == id,
{
    proof {
        let h: int = HALF_RADIX as int;
        let hi: int = id.high as int;
        let lo: int = id.low as int;
        assert(hi * h + lo < 0x1_0000_0000_0000_0000_0000_0000_0000_0000) by (nonlinear_arith)
            requires
                h == 0x1_0000_0000_0000_0000,
                0 <= hi < 0x1_0000_0000_0000_0000,
                0 <= lo < 0x1_0000_0000_0000_0000,
        ;
        assert((hi * h + lo) / h == hi && (hi * h + lo) % h == lo) by (nonlinear_arith)
            requires
                h > 0,
                0 <= lo < h,
        ;
    }
    (id.high as u128) * HALF_RADIX + (id.low as u128)
}

/// The 128-bit value a native id of recognised width stands for: its little-
/// endian bytes read as an unsigned integer. Ids of any other width are
/// refused.
pub open spec fn native_id_value(bytes: Seq<u8>) -> Option<u128> {
    if bytes.len() == 4 {
        Some(spec_u32_from_le_bytes(bytes) as u128)
    } else if bytes.len() == 8 {
        Some(spec_u64_from_le_bytes(bytes) as u128)
    } else if bytes.len() == 16 {
        Some(spec_u128_from_le_bytes(bytes))
    } else {
        None
    }
}

/// Converts a native window id, given as its little-endian bytes, into the
/// split 128-bit form. Exactly the widths 4, 8 and 16 are recognised; any
/// other width is refused with `None`.
pub fn glutin_convert_window_id(bytes: &Vec<u8>) -> (r: Option<WindowId128>)
    ensures
        match native_id_value(bytes@) {
            Some(v) => r == Some(id128_of(v)),
            None => r is None,
        },
{
    if bytes.len() == 4 {
        let v = u32_from_le_bytes(bytes.as_slice());
        Some(split_window_id(v as u128))
    } else if bytes.len() == 8 {
        let v = u64_from_le_bytes(bytes.as_slice());
        Some(split_window_id(v as u128))
    } else if bytes.len() == 16 {
        let v = u128_from_le_bytes(bytes.as_slice());
        Some(split_window_id(v))
    } else {
        None
    }
}

/// The conversion the boundary uses where it cannot report an error: an id of
/// unrecognised width becomes the zero sentinel, and the second component of
/// the result says whether that happened, so the boundary can log the
/// diagnostic.
pub fn glutin_convert_window_id_or_zero(bytes: &Vec<u8>) -> (r: (WindowId128, bool))
    ensures
        match native_id_value(bytes@) {
            Some(v) => r == (id128_of(v), true),
            None => r == (WindowId128 { high: 0, low: 0 }, false),
        },
{
    match glutin_convert_window_id(bytes) {
        Some(id) => (id, true),
        None => (WindowId128::zero(), false),
    }
}

} // verus!
