//! Pixel lengths that HTML attributes map to: the microsyntax for
//! non-negative integers, and the single-precision number of pixels.

use vstd::prelude::*;
use vstd::string::StringSliceAdditionalSpecFns;

use crate::text::is_ascii_ws;

verus! {

/// An ASCII digit.
pub open spec fn is_digit_byte(b: u8) -> bool {
    48 <= b <= 57
}

/// The first index from `i` on whose byte is no ASCII whitespace.
pub open spec fn skip_ascii_ws(b: Seq<u8>, i: int) -> int
    decreases b.len() - i,
{
    if 0 <= i < b.len() && is_ascii_ws(b[i]) {
        skip_ascii_ws(b, i + 1)
    } else {
        i
    }
}

/// The first index from `i` on whose byte is no ASCII digit.
pub open spec fn digits_end(b: Seq<u8>, i: int) -> int
    decreases b.len() - i,
{
    if 0 <= i < b.len() && is_digit_byte(b[i]) {
        digits_end(b, i + 1)
    } else {
        i
    }
}

/// The number that the digits `b[i..j]` write in base ten.
pub open spec fn digits_value(b: Seq<u8>, i: int, j: int) -> nat
    decreases j - i,
{
    if j <= i {
        0
    } else {
        digits_value(b, i, j - 1) * 10 + (b[j - 1] - 48) as nat
    }
}

/// The rules for parsing non-negative integers
/// ([HTML § 2.3.4.1](https://html.spec.whatwg.org/multipage/common-microsyntaxes.html#rules-for-parsing-non-negative-integers)):
/// ASCII whitespace, an optional `-` or `+`, then at least one digit, read
/// in base ten; what follows the digits is ignored, and a negative number
/// is an error.
pub open spec fn non_negative_integer(b: Seq<u8>) -> Option<nat> {
    let i = skip_ascii_ws(b, 0);
    if i >= b.len() {
        None
    } else {
        let negative = b[i] == 45;
        let k = if b[i] == 45 || b[i] == 43 { i + 1 } else { i };
        if k >= b.len() || !is_digit_byte(b[k]) {
            None
        } else {
            let v = digits_value(b, k, digits_end(b, k));
            if negative && v > 0 {
                None
            } else {
                Some(v)
            }
        }
    }
}

/// The number of pixels that an attribute value maps to
/// ([HTML § 15.3.1](https://html.spec.whatwg.org/multipage/rendering.html#maps-to-the-pixel-length-property)):
/// the non-negative integer it holds; one that does not fit in 32 bits
/// maps to none.
pub open spec fn pixel_length(b: Seq<u8>) -> Option<u32> {
    match non_negative_integer(b) {
        Some(v) => if v <= u32::MAX {
            Some(v as u32)
        } else {
            None
        },
        None => None,
    }
}

/// Reads the number of pixels that an attribute value maps to.
pub fn parse_pixel_length(s: &str) -> (r: Option<u32>)
    ensures
        r == pixel_length(s.spec_bytes()),
{
    let b = s.as_bytes();
    let n = b.len();
    let mut i: usize = 0;
    while i < n && (b[i] == 32 || b[i] == 9 || b[i] == 10 || b[i] == 12 || b[i] == 13)
        invariant
            i <= n,
            n == b@.len(),
            skip_ascii_ws(b@, 0) == skip_ascii_ws(b@, i as int),
        decreases n - i,
    {
        i = i + 1;
    }
    if i >= n {
        return None;
    }
    let negative = b[i] == 45;
    let k = if b[i] == 45 || b[i] == 43 { i + 1 } else { i };
    if k >= n || !(48 <= b[k] && b[k] <= 57) {
        return None;
    }
    let mut j = k;
    let mut value: u64 = 0;
    let mut too_big = false;
    while j < n && 48 <= b[j] && b[j] <= 57
        invariant
            k <= j <= n,
            n == b@.len(),
            digits_end(b@, k as int) == digits_end(b@, j as int),
            too_big == (digits_value(b@, k as int, j as int) > u32::MAX),
            !too_big ==> value == digits_value(b@, k as int, j as int),
        decreases n - j,
    {
        if !too_big {
            value = value * 10 + (b[j] - 48) as u64;
            if value > u32::MAX as u64 {
                too_big = true;
            }
        }
        j = j + 1;
    }
    if too_big {
        None
    } else if negative && value > 0 {
        None
    } else {
        Some(value as u32)
    }
}

/// Two to the power `e`.
pub open spec fn two_pow(e: nat) -> nat
    decreases e,
{
    if e == 0 {
        1
    } else {
        2 * two_pow((e - 1) as nat)
    }
}

/// The exponent of the highest power of two that is at most `n`.
pub open spec fn floor_log2(n: nat) -> nat
    decreases n,
{
    if n <= 1 {
        0
    } else {
        1 + floor_log2(n / 2)
    }
}

/// The bits of the single-precision number nearest to `n`, ties going to
/// the even significand (IEEE 754 § 4.3.1): a zero sign, the biased
/// exponent, and the 23 bits of the rounded significand after its leading
/// one; a significand that rounds up to 2^24 moves to the next exponent.
pub open spec fn f32_bits_of(n: nat) -> int {
    if n == 0 {
        0int
    } else {
        let e = floor_log2(n);
        if e <= 23 {
            (e + 127) * two_pow(23) + (n - two_pow(e)) * two_pow((23 - e) as nat)
        } else {
            let d = two_pow((e - 23) as nat);
            let q = n / d;
            let r = n % d;
            let rounded = if r * 2 > d || (r * 2 == d && q % 2 == 1) { q + 1 } else { q };
            if rounded == two_pow(24) {
                ((e + 128) * two_pow(23)) as int
            } else {
                (e + 127) * two_pow(23) + (rounded - two_pow(23))
            }
        }
    }
}

proof fn two_pow_adds(a: nat, b: nat)
    ensures
        two_pow(a + b) == two_pow(a) * two_pow(b),
    decreases a,
{
    if a == 0 {
        assert(two_pow(0) == 1);
        assert(a + b == b);
    } else {
        let a1 = (a - 1) as nat;
        two_pow_adds(a1, b);
        let x = two_pow(a1);
        let y = two_pow(b);
        assert(a + b == (a1 + b) + 1);
        assert(two_pow(a + b) == 2 * two_pow(a1 + b));
        assert(two_pow(a) == 2 * x);
        assert(2 * (x * y) == (2 * x) * y) by (nonlinear_arith);
    }
}

proof fn two_pow_positive(a: nat)
    ensures
        two_pow(a) >= 1,
    decreases a,
{
    if a > 0 {
        two_pow_positive((a - 1) as nat);
    }
}

proof fn two_pow_grows(a: nat, b: nat)
    requires
        a <= b,
    ensures
        two_pow(a) <= two_pow(b),
    decreases b,
{
    if a < b {
        two_pow_grows(a, (b - 1) as nat);
        two_pow_positive((b - 1) as nat);
    }
}

/// A number between two to the `e` and twice that has exponent `e`.
proof fn floor_log2_between(n: nat, e: nat)
    requires
        two_pow(e) <= n < 2 * two_pow(e),
    ensures
        floor_log2(n) == e,
    decreases e,
{
    if e > 0 {
        let p = two_pow((e - 1) as nat);
        assert(two_pow(e) == 2 * p);
        floor_log2_between(n / 2, (e - 1) as nat);
    }
}

/// The quotient of `x` by `d` when `x` is `y` times `d`.
proof fn exact_quotient(x: nat, y: nat, d: nat)
    requires
        d > 0,
        x == y * d,
    ensures
        x / d == y,
{
    assert(x / d == y) by (nonlinear_arith)
        requires
            d > 0,
            x == y * d,
    ;
}

/// The bits of the single-precision number nearest to `n`.
pub fn f32_bits_of_u32(n: u32) -> (r: u32)
    ensures
        r == f32_bits_of(n as nat),
{
    if n == 0 {
        return 0;
    }
    let mut e: u64 = 0;
    let mut p: u64 = 1;
    while p * 2 <= n as u64
        invariant
            1 <= p <= n,
            e < p,
            p == two_pow(e as nat),
        decreases n - p,
    {
        p = p * 2;
        e = e + 1;
    }
    proof {
        floor_log2_between(n as nat, e as nat);
        reveal_with_fuel(two_pow, 33);
        assert(two_pow(23) == 8388608);
        assert(two_pow(24) == 16777216);
        assert(two_pow(32) == 4294967296);
        if e >= 32 {
            two_pow_grows(32, e as nat);
        }
    }
    assert(e <= 31);
    if e <= 23 {
        let scale: u64 = 8388608 / p;
        proof {
            two_pow_adds((23 - e) as nat, e as nat);
            assert((23 - e) as nat + e as nat == 23);
            exact_quotient(8388608, two_pow((23 - e) as nat), p as nat);
            assert((n - p) * scale < 8388608) by (nonlinear_arith)
                requires
                    n < 2 * p,
                    p <= n,
                    scale * p == 8388608,
            ;
        }
        ((e + 127) * 8388608 + (n as u64 - p) * scale) as u32
    } else {
        let d: u64 = p / 8388608;
        proof {
            two_pow_adds((e - 23) as nat, 23);
            assert((e - 23) as nat + 23 == e);
            exact_quotient(p as nat, two_pow((e - 23) as nat), 8388608);
            two_pow_positive((e - 23) as nat);
            assert(8388608 <= n as u64 / d < 16777216) by (nonlinear_arith)
                requires
                    d * 8388608 == p,
                    p <= n,
                    n < 2 * p,
                    d >= 1,
            ;
        }
        let q = n as u64 / d;
        let r = n as u64 % d;
        let rounded = if r * 2 > d || (r * 2 == d && q % 2 == 1) { q + 1 } else { q };
        if rounded == 16777216 {
            ((e + 128) * 8388608) as u32
        } else {
            ((e + 127) * 8388608 + (rounded - 8388608)) as u32
        }
    }
}

} // verus!
