//! Two-dimensional geometry: affine transforms and rectangles.
//!
//! A transform is a 2D affine matrix
//! `[m00 m01 m02; m10 m11 m12; 0 0 1]` over fixed-point scalars.  Composing
//! transforms right-multiplies, so a newly applied transform acts in the
//! local coordinate frame established by the transforms already in effect.

use vstd::prelude::*;

use crate::fx::Fx;
use crate::fx::FX_DEG_TO_RAD;
use crate::fx::FX_ONE;
use crate::fx::cos_of;
use crate::fx::fxv;
use crate::fx::mul_bits;
use crate::fx::sat_add_bits;
use crate::fx::sat_neg_bits;
use crate::fx::sin_of;

verus! {

/// A 2D affine transform; the implicit bottom row is `0 0 1`.
#[derive(Clone, Copy, Debug, PartialEq, Eq, Structural)]
pub struct Mat {
    pub m00: Fx,
    pub m01: Fx,
    pub m02: Fx,
    pub m10: Fx,
    pub m11: Fx,
    pub m12: Fx,
}

/// An axis-aligned rectangle: origin `(x, y)` and size `(w, h)`, in the
/// coordinate frame of whatever transform is in effect when it is drawn.
#[derive(Clone, Copy, Debug, PartialEq, Eq, Structural)]
pub struct Rect {
    pub x: Fx,
    pub y: Fx,
    pub w: Fx,
    pub h: Fx,
}

/// The identity transform.
pub open spec fn mat_identity() -> Mat {
    Mat {
        m00: (Fx { bits: FX_ONE }),
        m01: (Fx { bits: 0 }),
        m02: (Fx { bits: 0 }),
        m10: (Fx { bits: 0 }),
        m11: (Fx { bits: FX_ONE }),
        m12: (Fx { bits: 0 }),
    }
}

/// The translation by `(x, y)`.
pub open spec fn mat_translation(x: Fx, y: Fx) -> Mat {
    Mat {
        m00: (Fx { bits: FX_ONE }),
        m01: (Fx { bits: 0 }),
        m02: x,
        m10: (Fx { bits: 0 }),
        m11: (Fx { bits: FX_ONE }),
        m12: y,
    }
}

/// The rotation by `angle`, an angle in degrees: the angle is scaled to
/// radians and the matrix is built from its sine and cosine.
pub open spec fn mat_rotation(angle: Fx) -> Mat {
    let rad = mul_bits(angle.bits as int, FX_DEG_TO_RAD as int);
    Mat {
        m00: fxv(cos_of(rad)),
        m01: fxv(sat_neg_bits(sin_of(rad))),
        m02: (Fx { bits: 0 }),
        m10: fxv(sin_of(rad)),
        m11: fxv(cos_of(rad)),
        m12: (Fx { bits: 0 }),
    }
}

/// The scaling by `x` horizontally and `y` vertically.
pub open spec fn mat_scaling(x: Fx, y: Fx) -> Mat {
    Mat {
        m00: x,
        m01: (Fx { bits: 0 }),
        m02: (Fx { bits: 0 }),
        m10: (Fx { bits: 0 }),
        m11: y,
        m12: (Fx { bits: 0 }),
    }
}

/// One entry of a matrix product: `a0 * b0 + a1 * b1`, in saturating
/// fixed-point arithmetic.
pub open spec fn dot2_bits(a0: Fx, b0: Fx, a1: Fx, b1: Fx) -> int {
    sat_add_bits(mul_bits(a0.bits as int, b0.bits as int), mul_bits(a1.bits as int, b1.bits as int))
}

/// The matrix product `a * b` of two affine transforms, in saturating
/// fixed-point arithmetic.  The translation column additionally picks up
/// `a`'s own translation, since `b`'s implicit bottom row is `0 0 1`.
pub open spec fn mat_mul(a: Mat, b: Mat) -> Mat {
    Mat {
        m00: fxv(dot2_bits(a.m00, b.m00, a.m01, b.m10)),
        m01: fxv(dot2_bits(a.m00, b.m01, a.m01, b.m11)),
        m02: fxv(sat_add_bits(dot2_bits(a.m00, b.m02, a.m01, b.m12), a.m02.bits as int)),
        m10: fxv(dot2_bits(a.m10, b.m00, a.m11, b.m10)),
        m11: fxv(dot2_bits(a.m10, b.m01, a.m11, b.m11)),
        m12: fxv(sat_add_bits(dot2_bits(a.m10, b.m02, a.m11, b.m12), a.m12.bits as int)),
    }
}

impl Mat {
    /// The identity transform.
    pub fn identity() -> (r: Mat)
        ensures
            r == mat_identity(),
    {
        Mat {
            m00: Fx { bits: FX_ONE },
            m01: Fx { bits: 0 },
            m02: Fx { bits: 0 },
            m10: Fx { bits: 0 },
            m11: Fx { bits: FX_ONE },
            m12: Fx { bits: 0 },
        }
    }

    /// The translation by `(x, y)`.
    pub fn translation(x: Fx, y: Fx) -> (r: Mat)
        ensures
            r == mat_translation(x, y),
    {
        Mat {
            m00: Fx { bits: FX_ONE },
            m01: Fx { bits: 0 },
            m02: x,
            m10: Fx { bits: 0 },
            m11: Fx { bits: FX_ONE },
            m12: y,
        }
    }

    /// The rotation by `angle` degrees.
    pub fn rotation(angle: Fx) -> (r: Mat)
        ensures
            r == mat_rotation(angle),
    {
        let rad = angle.mul(Fx { bits: FX_DEG_TO_RAD });
        let s = rad.sin();
        let c = rad.cos();
        Mat {
            m00: c,
            m01: s.neg(),
            m02: Fx { bits: 0 },
            m10: s,
            m11: c,
            m12: Fx { bits: 0 },
        }
    }

    /// The scaling by `x` horizontally and `y` vertically.
    pub fn scaling(x: Fx, y: Fx) -> (r: Mat)
        ensures
            r == mat_scaling(x, y),
    {
        Mat {
            m00: x,
            m01: Fx { bits: 0 },
            m02: Fx { bits: 0 },
            m10: Fx { bits: 0 },
            m11: y,
            m12: Fx { bits: 0 },
        }
    }

    /// The product `self * other`: the transform that applies `other` in
    /// `self`'s local coordinate frame.
    pub fn mul(self, other: Mat) -> (r: Mat)
        ensures
            r == mat_mul(self, other),
    {
        let m00 = self.m00.mul(other.m00).add(self.m01.mul(other.m10));
        let m01 = self.m00.mul(other.m01).add(self.m01.mul(other.m11));
        let m02 = self.m00.mul(other.m02).add(self.m01.mul(other.m12)).add(self.m02);
        let m10 = self.m10.mul(other.m00).add(self.m11.mul(other.m10));
        let m11 = self.m10.mul(other.m01).add(self.m11.mul(other.m11));
        let m12 = self.m10.mul(other.m02).add(self.m11.mul(other.m12)).add(self.m12);
        Mat { m00, m01, m02, m10, m11, m12 }
    }
}

impl Rect {
    /// The rectangle with origin `(x, y)` and size `(w, h)`.
    pub fn new(x: Fx, y: Fx, w: Fx, h: Fx) -> (r: Rect)
        ensures
            r == (Rect { x, y, w, h }),
    {
        Rect { x, y, w, h }
    }
}

} // verus!
