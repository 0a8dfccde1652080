//! Two's-complement readings of 32-bit registers, and the arithmetic on them.

use vstd::prelude::*;

verus! {

/// The number that the register value `x` stands for when it is read as two's complement.
pub open spec fn signed(x: u32) -> int {
    if x >= 0x8000_0000 {
        x - 0x1_0000_0000
    } else {
        x as int
    }
}

/// The register value that stands for `x` in two's complement.
pub open spec fn unsigned(x: int) -> u32
    recommends
        -0x8000_0000 <= x < 0x8000_0000,
{
    if x < 0 {
        (x + 0x1_0000_0000) as u32
    } else {
        x as u32
    }
}

/// The byte `b` read as a two's-complement number and written back in 32 bits.
pub open spec fn sign_extend_8(b: u8) -> u32 {
    if b >= 0x80 {
        (b + 0xffff_ff00) as u32
    } else {
        b as u32
    }
}

/// The quotient of `n` by `d`, rounded toward zero. (`/` on `int` rounds so
/// that the remainder is not negative, which for a dividend that is not
/// negative is rounding toward zero.)
pub open spec fn div_trunc(n: int, d: int) -> int
    recommends
        d != 0,
{
    if n >= 0 {
        n / d
    } else {
        -((-n) / d)
    }
}

/// The remainder that goes with `div_trunc`: it has the sign of `n`.
pub open spec fn rem_trunc(n: int, d: int) -> int
    recommends
        d != 0,
{
    if n >= 0 {
        n % d
    } else {
        -((-n) % d)
    }
}

/// What `/` and `%` on `int` give for a dividend that is not negative.
proof fn lemma_euclid(m: int, d: int)
    requires
        m >= 0,
        d != 0,
    ensures
        m == d * (m / d) + m % d,
        0 <= m % d,
        d > 0 ==> m % d < d,
        d < 0 ==> m % d < -d,
        m == 0 ==> m % d == 0,
        -m <= m / d <= m,
        d < -1 ==> 2 * (m / d) >= -m,
{
    assert(m == d * (m / d) + m % d && 0 <= m % d && (d > 0 ==> m % d < d) && (d < 0 ==> m % d < -d))
        by (nonlinear_arith)
        requires
            d != 0,
    ;
    let q = m / d;
    let r = m % d;
    assert(-m <= q <= m && (d < -1 ==> 2 * q >= -m) && (m == 0 ==> r == 0)) by (nonlinear_arith)
        requires
            m >= 0,
            d != 0,
            m == d * q + r,
            0 <= r,
            d > 0 ==> r < d,
            d < 0 ==> r < -d,
    ;
}

/// `div_trunc` and `rem_trunc` are the one quotient and remainder of a
/// division that rounds toward zero: they add up to the dividend, and the
/// remainder is smaller than the divisor in magnitude and never of the
/// opposite sign to the dividend.
pub proof fn lemma_div_rem_trunc(n: int, d: int)
    requires
        d != 0,
    ensures
        n == d * div_trunc(n, d) + rem_trunc(n, d),
        n >= 0 ==> 0 <= rem_trunc(n, d),
        n <= 0 ==> rem_trunc(n, d) <= 0,
        d > 0 ==> -d < rem_trunc(n, d) < d,
        d < 0 ==> d < rem_trunc(n, d) < -d,
{
    let m = if n >= 0 { n } else { -n };
    lemma_euclid(m, d);
    if n < 0 {
        assert(d * -(m / d) == -(d * (m / d))) by (nonlinear_arith);
    }
}

pub(crate) fn as_signed(x: u32) -> (r: i32)
    ensures
        r == signed(x),
{
    let r = x as i32;
    assert(r == signed(x)) by (bit_vector)
        requires
            r == x as i32,
    ;
    r
}

pub(crate) fn as_unsigned(x: i32) -> (r: u32)
    ensures
        r == unsigned(x as int),
        signed(r) == x,
{
    let r = x as u32;
    assert(r == unsigned(x as int)) by (bit_vector)
        requires
            r == x as u32,
    ;
    r
}

pub(crate) fn extend_byte(b: u8) -> (r: u32)
    ensures
        r == sign_extend_8(b),
{
    let r = (b as i8) as u32;
    assert(r == sign_extend_8(b)) by (bit_vector)
        requires
            r == (b as i8) as u32,
    ;
    r
}

/// Signed division as the divider does it: quotient and remainder, rounded toward zero.
pub(crate) fn divide(n: i32, d: i32) -> (r: (i32, i32))
    requires
        d != 0,
        !(n == i32::MIN && d == -1),
    ensures
        r.0 == div_trunc(n as int, d as int),
        r.1 == rem_trunc(n as int, d as int),
{
    proof {
        lemma_euclid(if n >= 0 { n as int } else { -n }, d as int);
    }
    (n / d, n % d)
}

} // verus!
