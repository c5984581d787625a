//! The order of doubles, told from their bits.
use vstd::prelude::*;

verus! {

/// The sign bit.
pub const SIGN: u64 = 0x8000_0000_0000_0000;

/// The bits of positive infinity; the bits of a double without its sign are
/// beyond them exactly when it is not a number.
pub const INFINITY: u64 = 0x7FF0_0000_0000_0000;

/// The bits are those of a double that is a number.
pub open spec fn is_number(bits: u64) -> bool {
    (if bits >= SIGN {
        bits - SIGN
    } else {
        bits as int
    }) <= INFINITY
}

/// Where a number stands among the others; the two zeros stand together.
pub open spec fn rank(bits: u64) -> int {
    if bits >= SIGN {
        SIGN - bits
    } else {
        bits as int
    }
}

/// The first double is less than the second. Nothing is less than a double
/// that is not a number, nor is such a double less than anything.
pub open spec fn less(a: u64, b: u64) -> bool {
    is_number(a) && is_number(b) && rank(a) < rank(b)
}

fn magnitude(bits: u64) -> (r: u64)
    ensures
        r == (if bits >= SIGN {
            bits - SIGN
        } else {
            bits as int
        }),
{
    if bits >= SIGN {
        bits - SIGN
    } else {
        bits
    }
}

/// Whether the first double is less than the second.
pub fn is_less(a: u64, b: u64) -> (r: bool)
    ensures
        r == less(a, b),
{
    let x: u64 = magnitude(a);
    let y: u64 = magnitude(b);
    if x > INFINITY || y > INFINITY {
        return false;
    }
    if a >= SIGN {
        if b >= SIGN {
            y < x
        } else {
            x > 0 || y > 0
        }
    } else {
        b < SIGN && x < y
    }
}

/// Among doubles that are numbers, "less" is a strict order: never both ways,
/// and passed on.
pub proof fn less_is_an_order(a: u64, b: u64, c: u64)
    ensures
        !less(a, a),
        less(a, b) ==> !less(b, a),
        less(a, b) && less(b, c) ==> less(a, c),
{
}

/// Doubles that are numbers are ordered by sign and size: of two without the
/// sign bit the one with the smaller bits is less, of two with it the one with
/// the greater bits, and one with it is less than one without, unless both are
/// zero. A double that is not a number is neither less nor greater than any.
pub proof fn doubles_go_by_sign_and_size(a: u64, b: u64)
    ensures
        a <= 0x7FF0_0000_0000_0000 && b <= 0x7FF0_0000_0000_0000 ==> (less(a, b) <==> a < b),
        0x8000_0000_0000_0000 <= a <= 0xFFF0_0000_0000_0000 && 0x8000_0000_0000_0000 <= b
            <= 0xFFF0_0000_0000_0000 ==> (less(a, b) <==> a > b),
        0x8000_0000_0000_0000 <= a <= 0xFFF0_0000_0000_0000 && b <= 0x7FF0_0000_0000_0000 ==> (less(
            a,
            b,
        ) <==> a > 0x8000_0000_0000_0000 || b > 0) && !less(b, a),
        0x7FF0_0000_0000_0000 < a < 0x8000_0000_0000_0000 || a > 0xFFF0_0000_0000_0000 ==> !less(
            a,
            b,
        ) && !less(b, a),
{
}

} // verus!
