//! Fixed-point scalars.
//!
//! Every number a script hands to the host function surface is coerced to one
//! numeric representation before use.  This crate models that representation
//! as a signed 32.32 fixed-point value: an `i64` whose low 32 bits are the
//! fractional part.  All arithmetic is exact integer arithmetic that
//! saturates at the representation's bounds, so every operation is total and
//! its result is pinned down bit for bit by the contracts below.
//!
//! Multiplication and division are delegated to the `fixed` crate and the
//! trigonometric helpers to the `cordic` crate; those calls are the only
//! trusted parts of this module.

use vstd::prelude::*;

verus! {

/// The fixed-point representation of one: 2^32.
pub const FX_ONE: i64 = 0x1_0000_0000;

/// The fixed-point representation of one half: 2^31.
pub const FX_HALF: i64 = 0x8000_0000;

/// Pi as a 32.32 fixed-point value, rounded to nearest.
pub const FX_PI: i64 = 13493037705;

/// Pi / 180 as a 32.32 fixed-point value, rounded to nearest: the factor
/// that turns an angle in degrees into radians.
pub const FX_DEG_TO_RAD: i64 = 74961321;

/// A signed 32.32 fixed-point number.  `bits` is the raw representation:
/// the numeric value is `bits / 2^32`.
#[derive(Clone, Copy, Debug, PartialEq, Eq, Structural)]
pub struct Fx {
    pub bits: i64,
}

/// Clamps an unbounded integer into the `i64` range.
pub open spec fn clip(x: int) -> int {
    if x > i64::MAX as int {
        i64::MAX as int
    } else if x < i64::MIN as int {
        i64::MIN as int
    } else {
        x
    }
}

/// The scalar whose raw representation is `bits` (which must be in range).
pub open spec fn fxv(bits: int) -> Fx {
    Fx { bits: bits as i64 }
}

/// Saturating addition on raw representations.
pub open spec fn sat_add_bits(a: int, b: int) -> int {
    clip(a + b)
}

/// Saturating negation on raw representations.
pub open spec fn sat_neg_bits(a: int) -> int {
    clip(-a)
}

/// Saturating absolute value on raw representations.
pub open spec fn abs_bits(a: int) -> int {
    if a < 0 {
        clip(-a)
    } else {
        a
    }
}

/// Saturating fixed-point multiplication on raw representations: the real
/// product `(a / 2^32) * (b / 2^32)` rounded toward negative infinity to a
/// multiple of 2^-32, then clamped.  (`int` division by a positive divisor
/// rounds toward negative infinity.)
pub open spec fn mul_bits(a: int, b: int) -> int {
    clip((a * b) / (FX_ONE as int))
}

/// Integer division rounding toward zero, as the underlying machine division
/// does; `d` must not be zero.
pub open spec fn trunc_div(n: int, d: int) -> int {
    let q = (if n < 0 { -n } else { n }) / (if d < 0 { -d } else { d });
    if (n < 0) != (d < 0) {
        -q
    } else {
        q
    }
}

/// Saturating fixed-point division on raw representations: the real quotient
/// `(a / 2^32) / (b / 2^32)` rounded toward zero to a multiple of 2^-32,
/// then clamped.  `b` must not be zero.
pub open spec fn div_bits(a: int, b: int) -> int {
    clip(trunc_div(a * (FX_ONE as int), b))
}

/// The raw representation of the sine of the angle whose raw representation
/// is `angle_bits` (the angle is in radians).  The value is fixed by the
/// `cordic` crate's sine routine; nothing further is assumed about it.
pub uninterp spec fn sin_of(angle_bits: int) -> int;

/// The raw representation of the cosine of the angle whose raw representation
/// is `angle_bits` (the angle is in radians), as the `cordic` crate's cosine
/// routine computes it.
pub uninterp spec fn cos_of(angle_bits: int) -> int;

/// Relies on `fixed::FixedI64::<U32>::saturating_mul`: the product is the
/// full 128-bit integer product shifted arithmetically right by 32 bits
/// (rounding toward negative infinity), clamped to the `i64` range on
/// overflow.
#[verifier::external_body]
fn fx_mul_raw(a: Fx, b: Fx) -> (r: Fx)
    ensures
        r.bits as int == mul_bits(a.bits as int, b.bits as int),
{
    Fx { bits: fixed::types::I32F32::from_bits(a.bits).saturating_mul(
        fixed::types::I32F32::from_bits(b.bits),
    ).to_bits() }
}

/// Relies on `fixed::FixedI64::<U32>::saturating_div`: the quotient is the
/// widened dividend `a * 2^32` divided by `b` with truncation toward zero,
/// clamped to the `i64` range on overflow.  It panics on a zero divisor,
/// so that input is excluded here.
#[verifier::external_body]
fn fx_div_raw(a: Fx, b: Fx) -> (r: Fx)
    requires
        b.bits != 0,
    ensures
        r.bits as int == div_bits(a.bits as int, b.bits as int),
{
    Fx { bits: fixed::types::I32F32::from_bits(a.bits).saturating_div(
        fixed::types::I32F32::from_bits(b.bits),
    ).to_bits() }
}

/// Relies on `cordic::sin` over 32.32 fixed point: the result is a function
/// of the angle bits alone.
#[verifier::external_body]
fn fx_sin_raw(x: Fx) -> (r: Fx)
    ensures
        r.bits as int == sin_of(x.bits as int),
{
    Fx { bits: cordic::sin(fixed::types::I32F32::from_bits(x.bits)).to_bits() }
}

/// Relies on `cordic::cos` over 32.32 fixed point: the result is a function
/// of the angle bits alone.
#[verifier::external_body]
fn fx_cos_raw(x: Fx) -> (r: Fx)
    ensures
        r.bits as int == cos_of(x.bits as int),
{
    Fx { bits: cordic::cos(fixed::types::I32F32::from_bits(x.bits)).to_bits() }
}

impl Fx {
    /// The scalar with integer value `n`.
    pub fn from_int(n: i32) -> (r: Fx)
        ensures
            r.bits as int == n as int * (FX_ONE as int),
    {
        Fx { bits: (n as i64) * FX_ONE }
    }

    /// Saturating addition.
    pub fn add(self, o: Fx) -> (r: Fx)
        ensures
            r.bits as int == sat_add_bits(self.bits as int, o.bits as int),
    {
        if o.bits >= 0 {
            if self.bits > i64::MAX - o.bits {
                Fx { bits: i64::MAX }
            } else {
                Fx { bits: self.bits + o.bits }
            }
        } else {
            if self.bits < i64::MIN - o.bits {
                Fx { bits: i64::MIN }
            } else {
                Fx { bits: self.bits + o.bits }
            }
        }
    }

    /// Saturating negation.
    pub fn neg(self) -> (r: Fx)
        ensures
            r.bits as int == sat_neg_bits(self.bits as int),
    {
        if self.bits == i64::MIN {
            Fx { bits: i64::MAX }
        } else {
            Fx { bits: -self.bits }
        }
    }

    /// Saturating absolute value.
    pub fn abs(self) -> (r: Fx)
        ensures
            r.bits as int == abs_bits(self.bits as int),
    {
        if self.bits == i64::MIN {
            Fx { bits: i64::MAX }
        } else if self.bits < 0 {
            Fx { bits: -self.bits }
        } else {
            self
        }
    }

    /// Saturating fixed-point multiplication.
    pub fn mul(self, o: Fx) -> (r: Fx)
        ensures
            r.bits as int == mul_bits(self.bits as int, o.bits as int),
    {
        fx_mul_raw(self, o)
    }

    /// Saturating fixed-point division; the divisor must not be zero.
    pub fn div(self, o: Fx) -> (r: Fx)
        requires
            o.bits != 0,
        ensures
            r.bits as int == div_bits(self.bits as int, o.bits as int),
    {
        fx_div_raw(self, o)
    }

    /// The sine of `self` (an angle in radians).
    pub fn sin(self) -> (r: Fx)
        ensures
            r.bits as int == sin_of(self.bits as int),
    {
        fx_sin_raw(self)
    }

    /// The cosine of `self` (an angle in radians).
    pub fn cos(self) -> (r: Fx)
        ensures
            r.bits as int == cos_of(self.bits as int),
    {
        fx_cos_raw(self)
    }
}

} // verus!
