//! The perspective projection and its dependence on the window size.
//!
//! The projection uses a 45 degree vertical field of view, a near plane at
//! 1/10 and a far plane at 100. For that field of view the focal length is
//! `cot(22.5 degrees) == 1 + sqrt(2)`, so every nonzero entry of the
//! standard perspective matrix is an exact ratio over the library's scalar
//! domain; `ProjMatrix` stores those ratios and the renderer divides them
//! out in its own number format.

use vstd::prelude::*;
use crate::scalar::{Scalar, ONE, sc};

verus! {

/// Rational part of the focal length `1 + sqrt(2)`, scaled by `ONE`.
pub const FOCAL_R: i64 = 1048576;

/// `sqrt(2)/2` coefficient of the focal length, scaled by `ONE`:
/// `sqrt(2) == 2 * (sqrt(2)/2)`.
pub const FOCAL_Q: i64 = 2097152;

/// Numerator of the depth scale `(far + near) / (near - far)`
/// for near `1/10` and far `100`: `100.1 / -99.9 == -1001 / 999`.
pub const DEPTH_NUM: i64 = -1001;

/// Numerator of the depth offset `2 * far * near / (near - far)`:
/// `20 / -99.9 == -200 / 999`.
pub const OFFSET_NUM: i64 = -200;

/// Common denominator of the depth scale and the depth offset.
pub const DEPTH_DEN: i64 = 999;

/// The exact content of the perspective matrix, entry by nonzero entry.
///
/// In the standard column-major perspective matrix the nonzero entries
/// are: the horizontal scale `focal / aspect` (row 0), the vertical scale
/// `focal` (row 1), the depth scale and depth offset (row 2), and the
/// constant `-1` that moves the eye-space depth into the w coordinate
/// (row 3).
#[derive(Clone, Copy, Debug, PartialEq, Eq, Structural)]
pub struct ProjMatrix {
    /// Vertical scale: the focal length `1 + sqrt(2)`, as `focal / ONE`.
    pub focal: Scalar,
    /// Numerator of the horizontal scale `focal * height / width`; the
    /// entry is `wide_num / (wide_den * ONE)`.
    pub wide_num: Scalar,
    /// Denominator of the horizontal scale: the window width.
    pub wide_den: u32,
    /// Depth scale entry, as `depth_num / depth_den`.
    pub depth_num: i64,
    /// Depth offset entry, as `offset_num / depth_den`.
    pub offset_num: i64,
    /// Common denominator of the two depth entries.
    pub depth_den: i64,
}

/// The exact perspective matrix for a window of `width` by `height`
/// pixels: a pure function of the aspect ratio alone.
pub open spec fn proj_spec(width: u32, height: u32) -> ProjMatrix {
    ProjMatrix {
        focal: sc(FOCAL_R as int, FOCAL_Q as int),
        wide_num: sc(FOCAL_R * height, FOCAL_Q * height),
        wide_den: width,
        depth_num: DEPTH_NUM,
        offset_num: OFFSET_NUM,
        depth_den: DEPTH_DEN,
    }
}

/// Owns the projection: the aspect ratio it was last computed for, and the
/// exact matrix itself.
#[derive(Clone, Copy, Debug, PartialEq, Eq, Structural)]
pub struct ProjectionManager {
    /// Window width the matrix was computed for.
    pub aspect_w: u32,
    /// Window height the matrix was computed for.
    pub aspect_h: u32,
    /// The current exact perspective matrix.
    pub matrix: ProjMatrix,
}

impl ProjectionManager {
    /// The manager holding the matrix for a `width` by `height` window.
    pub open spec fn for_aspect(width: u32, height: u32) -> ProjectionManager {
        ProjectionManager { aspect_w: width, aspect_h: height, matrix: proj_spec(width, height) }
    }

    /// The exact perspective matrix for the given window size: a pure
    /// function of its arguments.
    pub fn perspective(width: u32, height: u32) -> (m: ProjMatrix)
        requires
            width >= 1,
            height >= 1,
        ensures
            m == proj_spec(width, height),
    {
        let h: i64 = height as i64;
        ProjMatrix {
            focal: Scalar { r: FOCAL_R, q: FOCAL_Q },
            wide_num: Scalar { r: FOCAL_R * h, q: FOCAL_Q * h },
            wide_den: width,
            depth_num: DEPTH_NUM,
            offset_num: OFFSET_NUM,
            depth_den: DEPTH_DEN,
        }
    }

    /// A manager initialized for the given window size.
    pub fn new(width: u32, height: u32) -> (m: ProjectionManager)
        requires
            width >= 1,
            height >= 1,
        ensures
            m == ProjectionManager::for_aspect(width, height),
    {
        ProjectionManager {
            aspect_w: width,
            aspect_h: height,
            matrix: ProjectionManager::perspective(width, height),
        }
    }

    /// Recompute the matrix for a new window size; afterwards the stored
    /// aspect ratio and matrix depend on that size alone.
    pub fn recompute(&mut self, width: u32, height: u32)
        requires
            width >= 1,
            height >= 1,
        ensures
            *final(self) == ProjectionManager::for_aspect(width, height),
    {
        self.aspect_w = width;
        self.aspect_h = height;
        self.matrix = ProjectionManager::perspective(width, height);
    }
}

/// Law: recomputing the projection is idempotent — any two matrices
/// computed for the same window size are identical, coefficient for
/// coefficient.
pub proof fn lemma_recompute_idempotent(width: u32, height: u32, a: ProjMatrix, b: ProjMatrix)
    requires
        a == proj_spec(width, height),
        b == proj_spec(width, height),
    ensures
        a == b,
{
}

} // verus!
