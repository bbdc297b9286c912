//! Exact fixed-point scalars and vectors for the camera.
//!
//! The camera moves only along the axes or the diagonals of the ground
//! plane, so the coordinates it can reach are integer combinations of
//! `1/ONE` and `sqrt(2)/(2*ONE)`. A `Scalar` keeps the two integer
//! coefficients separately, which makes every motion computation exact.

use vstd::prelude::*;

verus! {

/// Number of fixed-point steps per world unit: a `Scalar` with `r == ONE`
/// and `q == 0` is exactly one world unit.
pub const ONE: i64 = 1048576;

/// The exact number `(r + q * sqrt(2)/2) / ONE`.
#[derive(Clone, Copy, Debug, PartialEq, Eq, Structural)]
pub struct Scalar {
    /// Coefficient of `1/ONE` (the rational part).
    pub r: i64,
    /// Coefficient of `sqrt(2)/(2*ONE)` (the irrational part).
    pub q: i64,
}

/// A point or vector in world space, one exact scalar per axis.
#[derive(Clone, Copy, Debug, PartialEq, Eq, Structural)]
pub struct Vec3 {
    pub x: Scalar,
    pub y: Scalar,
    pub z: Scalar,
}

/// The scalar with the given coefficient pair.
pub open spec fn sc(r: int, q: int) -> Scalar {
    Scalar { r: r as i64, q: q as i64 }
}

/// The vector with the given components.
pub open spec fn v3(x: Scalar, y: Scalar, z: Scalar) -> Vec3 {
    Vec3 { x: x, y: y, z: z }
}

/// Whether `n` fits the machine word that coordinates are stored in.
pub open spec fn fits_i64(n: int) -> bool {
    i64::MIN <= n <= i64::MAX
}

impl Scalar {
    /// Whether both coefficient sums of `a + b` fit the machine word.
    pub open spec fn add_fits(a: Scalar, b: Scalar) -> bool {
        fits_i64(a.r + b.r) && fits_i64(a.q + b.q)
    }

    /// The exact sum of two scalars.
    pub open spec fn add_spec(a: Scalar, b: Scalar) -> Scalar {
        sc(a.r + b.r, a.q + b.q)
    }

    /// Whether both coefficient differences of `a - b` fit the machine word.
    pub open spec fn sub_fits(a: Scalar, b: Scalar) -> bool {
        fits_i64(a.r - b.r) && fits_i64(a.q - b.q)
    }

    /// The exact difference of two scalars.
    pub open spec fn sub_spec(a: Scalar, b: Scalar) -> Scalar {
        sc(a.r - b.r, a.q - b.q)
    }

    /// Exact addition; the coefficients add componentwise.
    pub fn add(self, other: Scalar) -> (s: Scalar)
        requires
            Scalar::add_fits(self, other),
        ensures
            s == Scalar::add_spec(self, other),
    {
        Scalar { r: self.r + other.r, q: self.q + other.q }
    }

    /// Exact subtraction; the coefficients subtract componentwise.
    pub fn sub(self, other: Scalar) -> (s: Scalar)
        requires
            Scalar::sub_fits(self, other),
        ensures
            s == Scalar::sub_spec(self, other),
    {
        Scalar { r: self.r - other.r, q: self.q - other.q }
    }
}

impl Vec3 {
    /// Whether every component sum of `a + b` fits the machine word.
    pub open spec fn add_fits(a: Vec3, b: Vec3) -> bool {
        Scalar::add_fits(a.x, b.x) && Scalar::add_fits(a.y, b.y) && Scalar::add_fits(a.z, b.z)
    }

    /// The exact componentwise sum.
    pub open spec fn add_spec(a: Vec3, b: Vec3) -> Vec3 {
        v3(Scalar::add_spec(a.x, b.x), Scalar::add_spec(a.y, b.y), Scalar::add_spec(a.z, b.z))
    }

    /// Whether every component difference of `a - b` fits the machine word.
    pub open spec fn sub_fits(a: Vec3, b: Vec3) -> bool {
        Scalar::sub_fits(a.x, b.x) && Scalar::sub_fits(a.y, b.y) && Scalar::sub_fits(a.z, b.z)
    }

    /// The exact componentwise difference.
    pub open spec fn sub_spec(a: Vec3, b: Vec3) -> Vec3 {
        v3(Scalar::sub_spec(a.x, b.x), Scalar::sub_spec(a.y, b.y), Scalar::sub_spec(a.z, b.z))
    }

    /// Exact vector addition.
    pub fn add(self, other: Vec3) -> (v: Vec3)
        requires
            Vec3::add_fits(self, other),
        ensures
            v == Vec3::add_spec(self, other),
    {
        Vec3 { x: self.x.add(other.x), y: self.y.add(other.y), z: self.z.add(other.z) }
    }

    /// Exact vector subtraction.
    pub fn sub(self, other: Vec3) -> (v: Vec3)
        requires
            Vec3::sub_fits(self, other),
        ensures
            v == Vec3::sub_spec(self, other),
    {
        Vec3 { x: self.x.sub(other.x), y: self.y.sub(other.y), z: self.z.sub(other.z) }
    }
}

/// Rational part of `2 * |v|^2 * ONE^2`: since `(sqrt(2)/2)^2 == 1/2`,
/// the square of one component contributes `r^2 + q^2/2` to the rational
/// part of `|v|^2 * ONE^2`; doubling clears the halves.
pub open spec fn norm_sq_double_rat(v: Vec3) -> int {
    2 * v.x.r * v.x.r + v.x.q * v.x.q
    + 2 * v.y.r * v.y.r + v.y.q * v.y.q
    + 2 * v.z.r * v.z.r + v.z.q * v.z.q
}

/// Coefficient of `sqrt(2)` in `|v|^2 * ONE^2`, divided by its constant
/// factor: the square of one component contributes `r*q*sqrt(2)`.
pub open spec fn norm_sq_irr(v: Vec3) -> int {
    v.x.r * v.x.q + v.y.r * v.y.q + v.z.r * v.z.q
}

/// Whether `v` has length exactly one: `|v|^2 == 1` holds exactly when the
/// rational part of `2 * |v|^2 * ONE^2` is `2 * ONE^2` and the `sqrt(2)`
/// part vanishes.
pub open spec fn is_unit(v: Vec3) -> bool {
    norm_sq_double_rat(v) == 2 * ONE * ONE && norm_sq_irr(v) == 0
}

} // verus!
