//! Recognition of well-formed UTF-8 in raw payload bytes.

use vstd::prelude::*;
use vstd::utf8::*;

verus! {

/// The bytes of `bytes` from position `at` to the end; none where `at` lies
/// outside.
pub open spec fn tail_from(bytes: Seq<u8>, at: int) -> Seq<u8> {
    if 0 <= at <= bytes.len() {
        bytes.subrange(at, bytes.len() as int)
    } else {
        Seq::empty()
    }
}

/// Length in bytes of the scalar value encoded at `at`, or 0 when no
/// well-formed scalar starts there.
pub fn scalar_width(bytes: &[u8], at: usize) -> (width: usize)
    ensures
        width == 0 <==> !valid_first_scalar(tail_from(bytes@, at as int)),
        width != 0 ==> width == length_of_first_scalar(tail_from(bytes@, at as int)),
        width != 0 ==> at + width <= bytes@.len(),
{
    let n = bytes.len();
    if at >= n {
        return 0;
    }
    let b0 = bytes[at];
    if b0 <= 0x7f {
        1
    } else if 0xc0 <= b0 && b0 <= 0xdf {
        if n - at < 2 {
            return 0;
        }
        let b1 = bytes[at + 1];
        if !(0x80 <= b1 && b1 <= 0xbf) {
            return 0;
        }
        let point: u32 = (((b0 & 0x1f) as u32) << 6) | ((b1 & 0x3f) as u32);
        if 0x80 <= point && !(0xd800 <= point && point <= 0xdfff) {
            2
        } else {
            0
        }
    } else if 0xe0 <= b0 && b0 <= 0xef {
        if n - at < 3 {
            return 0;
        }
        let b1 = bytes[at + 1];
        let b2 = bytes[at + 2];
        if !(0x80 <= b1 && b1 <= 0xbf && 0x80 <= b2 && b2 <= 0xbf) {
            return 0;
        }
        let point: u32 = (((b0 & 0x0f) as u32) << 12) | (((b1 & 0x3f) as u32) << 6) | ((b2
            & 0x3f) as u32);
        if 0x800 <= point && !(0xd800 <= point && point <= 0xdfff) {
            3
        } else {
            0
        }
    } else if 0xf0 <= b0 && b0 <= 0xf7 {
        if n - at < 4 {
            return 0;
        }
        let b1 = bytes[at + 1];
        let b2 = bytes[at + 2];
        let b3 = bytes[at + 3];
        if !(0x80 <= b1 && b1 <= 0xbf && 0x80 <= b2 && b2 <= 0xbf && 0x80 <= b3 && b3 <= 0xbf) {
            return 0;
        }
        let point: u32 = (((b0 & 0x07) as u32) << 18) | (((b1 & 0x3f) as u32) << 12) | (((b2
            & 0x3f) as u32) << 6) | ((b3 & 0x3f) as u32);
        if 0x10000 <= point && point <= 0x10ffff && !(0xd800 <= point && point <= 0xdfff) {
            4
        } else {
            0
        }
    } else {
        0
    }
}

/// Whether `bytes` is well-formed UTF-8 from the first byte to the last.
pub fn is_utf8(bytes: &[u8]) -> (ok: bool)
    ensures
        ok == valid_utf8(bytes@),
{
    let n = bytes.len();
    let mut at: usize = 0;
    while at < n
        invariant
            at <= n,
            n == bytes@.len(),
            partial_valid_utf8(bytes@, at as int),
        decreases n - at,
    {
        let width = scalar_width(bytes, at);
        if width == 0 {
            proof {
                partial_valid_partial_invalid_utf8(bytes@, at as int);
            }
            return false;
        }
        proof {
            partial_valid_utf8_extend(bytes@, at as int);
        }
        at = at + width;
    }
    assert(bytes@.subrange(0, n as int) =~= bytes@);
    true
}

} // verus!
