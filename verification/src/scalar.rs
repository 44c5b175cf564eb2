//! Single-precision numbers held as their IEEE-754 bit patterns, and the small
//! vectors built from them.
//!
//! Scene data carries positions, sizes and colours as binary32 numbers. The
//! compositor never computes with them; it only moves them around and, in two
//! places, converts between a number and a whole count of pixels. Both
//! conversions are defined here on the encoding itself.

use vstd::prelude::*;
use vstd::arithmetic::power2::{lemma2_to64, lemma_pow2_adds, lemma_pow2_pos, lemma_pow2_unfold, pow2};
use vstd::arithmetic::div_mod::{lemma_div_multiples_vanish, lemma_fundamental_div_mod, lemma_fundamental_div_mod_converse, lemma_mod_bound};

verus! {

/// Two to the power 23: the weight of the implicit leading bit of a
/// significand, and the divisor that separates exponent from mantissa.
pub const MANTISSA_SPAN: u32 = 0x80_0000;

/// The exponent field of the number one.
pub const EXPONENT_BIAS: u32 = 127;

/// A binary32 number, stored as the 32 bits of its encoding.
#[derive(Clone, Copy, Debug, PartialEq, Eq, Structural)]
pub struct Scalar {
    pub bits: u32,
}

/// The number of binary digits of `n`: zero for zero, otherwise one more than
/// the position of the highest set bit.
pub open spec fn bit_length(n: nat) -> nat
    decreases n,
{
    if n == 0 {
        0
    } else {
        1 + bit_length(n / 2)
    }
}

/// A positive number lies between the two powers of two that its bit length names.
pub proof fn lemma_bit_length_bounds(n: nat)
    requires
        n > 0,
    ensures
        bit_length(n) >= 1,
        pow2((bit_length(n) - 1) as nat) <= n < pow2(bit_length(n)),
    decreases n,
{
    lemma2_to64();
    if n == 1 {
        assert(bit_length(1) == 1 + bit_length(0));
    } else {
        lemma_bit_length_bounds(n / 2);
        let l = bit_length(n / 2);
        lemma_pow2_unfold(l);
        lemma_pow2_unfold(l + 1);
    }
}

/// A number below two to the 32 has at most 32 binary digits.
pub proof fn lemma_bit_length_u32(n: nat)
    requires
        n <= u32::MAX,
    ensures
        bit_length(n) <= 32,
{
    if n > 0 {
        lemma_bit_length_bounds(n);
        lemma2_to64();
        let l = bit_length(n);
        if l > 32 {
            lemma_pow2_monotone(32, (l - 1) as nat);
        }
    }
}

/// Powers of two do not decrease with the exponent.
pub proof fn lemma_pow2_monotone(a: nat, b: nat)
    requires
        a <= b,
    ensures
        pow2(a) <= pow2(b),
    decreases b - a,
{
    if a < b {
        lemma_pow2_monotone(a, (b - 1) as nat);
        lemma_pow2_unfold(b);
    }
}

/// A number of at most 24 binary digits, shifted up until it has exactly 24.
proof fn lemma_scaled_up(n: nat, p: nat)
    requires
        n > 0,
        p == bit_length(n) - 1,
        p <= 23,
    ensures
        0x80_0000 <= n * pow2((23 - p) as nat) < 0x100_0000,
{
    lemma_bit_length_bounds(n);
    lemma2_to64();
    let s = pow2((23 - p) as nat);
    lemma_pow2_pos((23 - p) as nat);
    lemma_pow2_adds(p, (23 - p) as nat);
    lemma_pow2_adds(p + 1, (23 - p) as nat);
    assert(pow2(p) * s <= n * s) by (nonlinear_arith)
        requires
            pow2(p) <= n,
            s > 0,
    ;
    assert(n * s < pow2(p + 1) * s) by (nonlinear_arith)
        requires
            n < pow2(p + 1),
            s > 0,
    ;
}

/// A number of more than 24 binary digits, cut down to its leading 24.
proof fn lemma_scaled_down(n: nat, p: nat)
    requires
        n > 0,
        p == bit_length(n) - 1,
        23 < p <= 31,
    ensures
        0x80_0000 <= n / pow2((p - 23) as nat) < 0x100_0000,
        n % pow2((p - 23) as nat) < pow2((p - 23) as nat),
        2 <= pow2((p - 23) as nat) <= 0x100,
{
    lemma_bit_length_bounds(n);
    lemma2_to64();
    let k = (p - 23) as nat;
    let ulp = pow2(k);
    lemma_pow2_pos(k);
    lemma_pow2_monotone(1, k);
    lemma_pow2_monotone(k, 8);
    lemma_pow2_adds(23, k);
    lemma_pow2_adds(24, k);
    lemma_fundamental_div_mod(n as int, ulp as int);
    lemma_mod_bound(n as int, ulp as int);
    let q = n / ulp;
    let r = n % ulp;
    assert(q >= 0x80_0000) by (nonlinear_arith)
        requires
            n == ulp * q + r,
            0 <= r < ulp,
            n >= 0x80_0000 * ulp,
            ulp > 0,
    ;
    assert(q < 0x100_0000) by (nonlinear_arith)
        requires
            n == ulp * q + r,
            0 <= r < ulp,
            n < 0x100_0000 * ulp,
            ulp > 0,
    ;
}

/// Two to the power `k`.
fn two_to(k: u32) -> (r: u64)
    requires
        k <= 32,
    ensures
        r == pow2(k as nat),
        1 <= r <= 0x1_0000_0000,
{
    let mut r: u64 = 1;
    let mut i: u32 = 0;
    proof {
        lemma2_to64();
    }
    while i < k
        invariant
            i <= k <= 32,
            r == pow2(i as nat),
            1 <= r,
            pow2(32) == 0x1_0000_0000,
            r <= pow2(32),
        decreases k - i,
    {
        proof {
            lemma_pow2_unfold((i + 1) as nat);
            lemma_pow2_monotone((i + 1) as nat, 32);
        }
        r = r * 2;
        i = i + 1;
    }
    r
}

/// The number of binary digits of `n`.
fn bit_len(n: u32) -> (len: u32)
    ensures
        len == bit_length(n as nat),
        len <= 32,
{
    let mut rest: u32 = n;
    let mut len: u32 = 0;
    proof {
        lemma_bit_length_u32(n as nat);
    }
    while rest > 0
        invariant
            len + bit_length(rest as nat) == bit_length(n as nat),
            bit_length(n as nat) <= 32,
        decreases rest,
    {
        rest = rest / 2;
        len = len + 1;
    }
    len
}

impl Scalar {
    /// The number whose encoding is `bits`.
    pub fn from_bits(bits: u32) -> (s: Scalar)
        ensures
            s.bits == bits,
    {
        Scalar { bits }
    }

    /// The encoding of this number.
    pub fn to_bits(self) -> (bits: u32)
        ensures
            bits == self.bits,
    {
        self.bits
    }

    /// Positive zero.
    pub fn zero() -> (s: Scalar)
        ensures
            s == Scalar::spec_zero(),
    {
        Scalar { bits: 0 }
    }

    /// The number one.
    pub fn one() -> (s: Scalar)
        ensures
            s == Scalar::spec_one(),
    {
        Scalar { bits: 0x3f80_0000 }
    }

    /// Positive zero: every bit clear.
    pub open spec fn spec_zero() -> Scalar {
        Scalar { bits: 0 }
    }

    /// One: a cleared sign, the bias as exponent, an empty mantissa.
    pub open spec fn spec_one() -> Scalar {
        Scalar { bits: 0x3f80_0000 }
    }

    /// Whether the sign bit is set.
    pub open spec fn is_negative(self) -> bool {
        self.bits >= 0x8000_0000
    }

    /// The eight-bit exponent field.
    pub open spec fn exponent(self) -> nat {
        (self.bits as nat / 0x80_0000) % 0x100
    }

    /// The 23-bit mantissa field.
    pub open spec fn mantissa(self) -> nat {
        self.bits as nat % 0x80_0000
    }

    /// The significand of a normal number: the mantissa under its implicit
    /// leading bit. The number's magnitude is this times two to the power
    /// `exponent - 150`.
    pub open spec fn significand(self) -> nat {
        0x80_0000 + self.mantissa()
    }

    /// The number as a count of pixels: its value with the fraction dropped,
    /// held to the range of `u32`. Negative numbers and those that are not
    /// numbers count as zero; numbers of two to the 32 and above, positive
    /// infinity among them, count as `u32::MAX`.
    pub open spec fn pixels(self) -> nat {
        let e = self.exponent();
        if self.is_negative() || e < 127 {
            0
        } else if e == 255 {
            if self.mantissa() == 0 {
                u32::MAX as nat
            } else {
                0
            }
        } else if e >= 159 {
            u32::MAX as nat
        } else if e >= 150 {
            self.significand() * pow2((e - 150) as nat)
        } else {
            self.significand() / pow2((150 - e) as nat)
        }
    }

    /// The number as a count of pixels; see [`Scalar::pixels`].
    pub fn to_pixels(self) -> (r: u32)
        ensures
            r as nat == self.pixels(),
    {
        let e: u32 = (self.bits / MANTISSA_SPAN) % 0x100;
        let m: u32 = self.bits % MANTISSA_SPAN;
        let sig: u64 = 0x80_0000u64 + m as u64;
        if self.bits >= 0x8000_0000 || e < EXPONENT_BIAS {
            0
        } else if e == 255 {
            if m == 0 {
                u32::MAX
            } else {
                0
            }
        } else if e >= 159 {
            u32::MAX
        } else if e >= 150 {
            let scale: u64 = two_to(e - 150);
            proof {
                lemma2_to64();
                lemma_pow2_monotone((e - 150) as nat, 8);
                assert(sig * scale <= 0xff_ffff * 0x100) by (nonlinear_arith)
                    requires
                        sig <= 0xff_ffff,
                        scale <= 0x100,
                ;
            }
            let v: u64 = sig * scale;
            v as u32
        } else {
            let scale: u64 = two_to(150 - e);
            let v: u64 = sig / scale;
            v as u32
        }
    }

    /// The binary32 number nearest to the whole number `n`, the even one of
    /// two that are equally near. A number of up to 24 binary digits is held
    /// exactly; a longer one is rounded to a multiple of its unit in the last
    /// place, which is two to the power of its digits beyond 24.
    pub open spec fn nearest(n: nat) -> Scalar {
        if n == 0 {
            Scalar { bits: 0 }
        } else {
            let p = (bit_length(n) - 1) as nat;
            if p <= 23 {
                Scalar { bits: ((127 + p) * 0x80_0000 + (n * pow2((23 - p) as nat) - 0x80_0000)) as u32 }
            } else {
                let ulp = pow2((p - 23) as nat);
                let q = n / ulp;
                let rest = n % ulp;
                let up: nat = if 2 * rest > ulp || (2 * rest == ulp && q % 2 == 1) {
                    1
                } else {
                    0
                };
                Scalar { bits: ((127 + p) * 0x80_0000 + (q - 0x80_0000) + up) as u32 }
            }
        }
    }

    /// The binary32 number nearest to a count of pixels; see [`Scalar::nearest`].
    pub fn from_pixels(n: u32) -> (s: Scalar)
        ensures
            s == Scalar::nearest(n as nat),
    {
        if n == 0 {
            return Scalar { bits: 0 };
        }
        let len: u32 = bit_len(n);
        proof {
            lemma_bit_length_bounds(n as nat);
        }
        let p: u32 = len - 1;
        let wide: u64 = n as u64;
        if p <= 23 {
            let scale: u64 = two_to(23 - p);
            proof {
                lemma_scaled_up(n as nat, p as nat);
                lemma2_to64();
            }
            let scaled: u64 = wide * scale;
            let bits: u64 = (127 + p as u64) * 0x80_0000 + (scaled - 0x80_0000);
            Scalar { bits: bits as u32 }
        } else {
            let ulp: u64 = two_to(p - 23);
            proof {
                lemma_scaled_down(n as nat, p as nat);
            }
            let q: u64 = wide / ulp;
            let rest: u64 = wide % ulp;
            let up: u64 = if 2 * rest > ulp || (2 * rest == ulp && q % 2 == 1) {
                1
            } else {
                0
            };
            let bits: u64 = (127 + p as u64) * 0x80_0000 + (q - 0x80_0000) + up;
            Scalar { bits: bits as u32 }
        }
    }
}

/// The largest whole number up to which every whole number is a binary32
/// number: two to the power 24.
pub const EXACT_PIXELS: u32 = 0x100_0000;

/// The fields of the encoding put together from an exponent and a mantissa
/// under a cleared sign bit.
proof fn lemma_fields(e: nat, m: nat)
    requires
        e < 0x100,
        m < 0x80_0000,
    ensures
        e * 0x80_0000 + m <= u32::MAX,
        (Scalar { bits: (e * 0x80_0000 + m) as u32 }).exponent() == e,
        (Scalar { bits: (e * 0x80_0000 + m) as u32 }).mantissa() == m,
        !(Scalar { bits: (e * 0x80_0000 + m) as u32 }).is_negative(),
{
    let bits = e * 0x80_0000 + m;
    lemma_fundamental_div_mod_converse(bits as int, 0x80_0000, e as int, m as int);
    assert(bits <= 0xff * 0x80_0000 + 0x7f_ffff);
    assert(bits as u32 == bits);
}

/// A whole number of pixels up to two to the power 24 survives the way to a
/// binary32 number and back.
pub proof fn lemma_pixels_round_trip(n: nat)
    requires
        n <= EXACT_PIXELS,
    ensures
        Scalar::nearest(n).pixels() == n,
        !Scalar::nearest(n).is_negative(),
{
    lemma2_to64();
    if n == 0 {
        lemma_fields(0, 0);
    } else {
        lemma_bit_length_bounds(n);
        let p = (bit_length(n) - 1) as nat;
        if p >= 25 {
            lemma_pow2_monotone(25, p);
        }
        if p <= 23 {
            let scale = pow2((23 - p) as nat);
            lemma_scaled_up(n, p);
            lemma_pow2_pos((23 - p) as nat);
            let m = (n * scale - 0x80_0000) as nat;
            let e = 127 + p;
            lemma_fields(e, m);
            let s = Scalar::nearest(n);
            assert(s.bits == (e * 0x80_0000 + m) as u32);
            assert(s.significand() == n * scale);
            if p == 23 {
                assert(scale == 1);
                assert(n * scale == n) by (nonlinear_arith)
                    requires
                        scale == 1,
                ;
                assert(s.pixels() == s.significand() * pow2(0));
            } else {
                assert((150 - e) as nat == (23 - p) as nat);
                lemma_div_multiples_vanish(n as int, scale as int);
                assert(n * scale == scale * n) by (nonlinear_arith);
                assert(s.pixels() == (n * scale) / scale);
            }
        } else {
            assert(p == 24);
            assert(n == 0x100_0000);
            assert(pow2(1) == 2);
            lemma_fields(151, 0);
            let s = Scalar::nearest(n);
            assert(s.bits == (151 * 0x80_0000 + 0) as u32);
            assert(s.pixels() == s.significand() * pow2(1));
        }
    }
}

/// A pair of numbers: a position or an extent.
#[derive(Clone, Copy, Debug, PartialEq, Eq, Structural)]
pub struct Vec2 {
    pub x: Scalar,
    pub y: Scalar,
}

impl Vec2 {
    /// The pair `(x, y)`.
    pub fn new(x: Scalar, y: Scalar) -> (v: Vec2)
        ensures
            v == (Vec2 { x, y }),
    {
        Vec2 { x, y }
    }

    /// The origin.
    pub fn zero() -> (v: Vec2)
        ensures
            v == Vec2::spec_zero(),
    {
        Vec2 { x: Scalar::zero(), y: Scalar::zero() }
    }

    /// The pair of two positive zeros.
    pub open spec fn spec_zero() -> Vec2 {
        Vec2 { x: Scalar::spec_zero(), y: Scalar::spec_zero() }
    }
}

/// Four numbers: a colour as red, green, blue and alpha, or a rectangle as
/// left, top, width and height.
#[derive(Clone, Copy, Debug, PartialEq, Eq, Structural)]
pub struct Vec4 {
    pub x: Scalar,
    pub y: Scalar,
    pub z: Scalar,
    pub w: Scalar,
}

impl Vec4 {
    /// The quadruple `(x, y, z, w)`.
    pub fn new(x: Scalar, y: Scalar, z: Scalar, w: Scalar) -> (v: Vec4)
        ensures
            v == (Vec4 { x, y, z, w }),
    {
        Vec4 { x, y, z, w }
    }

    /// Four zeros.
    pub fn zero() -> (v: Vec4)
        ensures
            v == Vec4::spec_zero(),
    {
        Vec4 { x: Scalar::zero(), y: Scalar::zero(), z: Scalar::zero(), w: Scalar::zero() }
    }

    /// Four ones: as a colour, opaque white.
    pub fn one() -> (v: Vec4)
        ensures
            v == Vec4::spec_one(),
    {
        Vec4 { x: Scalar::one(), y: Scalar::one(), z: Scalar::one(), w: Scalar::one() }
    }

    /// The first two components: of a rectangle, its corner.
    pub fn xy(self) -> (v: Vec2)
        ensures
            v == self.spec_xy(),
    {
        Vec2 { x: self.x, y: self.y }
    }

    /// The last two components: of a rectangle, its extent.
    pub fn zw(self) -> (v: Vec2)
        ensures
            v == self.spec_zw(),
    {
        Vec2 { x: self.z, y: self.w }
    }

    /// Four positive zeros.
    pub open spec fn spec_zero() -> Vec4 {
        Vec4 {
            x: Scalar::spec_zero(),
            y: Scalar::spec_zero(),
            z: Scalar::spec_zero(),
            w: Scalar::spec_zero(),
        }
    }

    /// Four ones.
    pub open spec fn spec_one() -> Vec4 {
        Vec4 {
            x: Scalar::spec_one(),
            y: Scalar::spec_one(),
            z: Scalar::spec_one(),
            w: Scalar::spec_one(),
        }
    }

    /// The first two components.
    pub open spec fn spec_xy(self) -> Vec2 {
        Vec2 { x: self.x, y: self.y }
    }

    /// The last two components.
    pub open spec fn spec_zw(self) -> Vec2 {
        Vec2 { x: self.z, y: self.w }
    }
}

} // verus!
