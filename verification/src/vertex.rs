//! Cube mesh vertices.
//!
//! The cube's corners and texture coordinates are tiny integers; the
//! renderer widens them to its own number format when it uploads the mesh.

use vstd::prelude::*;

verus! {

/// One mesh vertex: a corner position on the unit cube grid and a texture
/// corner.
#[derive(Clone, Copy, Debug)]
pub struct Vertex {
    /// Position of the corner, one small integer per axis.
    pub pos: [i8; 3],
    /// Texture coordinate of the corner.
    pub tex_coord: [i8; 2],
}

impl Vertex {
    /// A vertex at grid position `p` with texture corner `t`.
    pub fn new(p: [i8; 3], t: [i8; 2]) -> (v: Vertex)
        ensures
            v.pos == p,
            v.tex_coord == t,
    {
        Vertex { pos: p, tex_coord: t }
    }
}

} // verus!
