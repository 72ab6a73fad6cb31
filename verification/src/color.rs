//! Vertex-color buffers: a color per mesh vertex, built either from one
//! color per face of a box (four vertices each) or from a single color
//! for every vertex of a flat disc.

use vstd::prelude::*;

verus! {

/// One vertex color, with 8-bit channels. The host converts to the
/// floating-point channel format its mesh attribute expects.
#[derive(Clone, Copy, Debug, PartialEq, Eq, Structural)]
pub struct Rgba {
    pub r: u8,
    pub g: u8,
    pub b: u8,
    pub a: u8,
}

/// The number of vertices of each face of a box mesh.
pub const VERTICES_PER_FACE: usize = 4;

/// Expands one color per face into one color per vertex: each face
/// color is repeated for the four vertices of its face, faces in order.
pub fn face_colors_to_vertex_colors(faces: &Vec<Rgba>) -> (v: Vec<Rgba>)
    ensures
        v@.len() == 4 * faces@.len(),
        forall|i: int| 0 <= i < v@.len() ==> v@[i] == faces@[i / 4],
{
    let mut v: Vec<Rgba> = Vec::new();
    let mut f: usize = 0;
    while f < faces.len()
        invariant
            0 <= f <= faces@.len(),
            v@.len() == 4 * f,
            forall|i: int| 0 <= i < v@.len() ==> v@[i] == faces@[i / 4],
        decreases faces@.len() - f,
    {
        let c = faces[f];
        let mut k: usize = 0;
        while k < 4
            invariant
                0 <= k <= 4,
                0 <= f < faces@.len(),
                c == faces@[f as int],
                v@.len() == 4 * f + k,
                forall|i: int| 0 <= i < v@.len() ==> v@[i] == faces@[i / 4],
            decreases 4 - k,
        {
            v.push(c);
            proof {
                assert((4 * f + k) as int / 4 == f as int) by (nonlinear_arith)
                    requires
                        0 <= k < 4,
                        0 <= f,
                ;
            }
            k = k + 1;
        }
        f = f + 1;
    }
    v
}

/// A uniform color buffer: the same color for each of `count` vertices,
/// as used for the flat-colored disc.
pub fn uniform_vertex_colors(color: Rgba, count: usize) -> (v: Vec<Rgba>)
    ensures
        v@.len() == count,
        forall|i: int| 0 <= i < v@.len() ==> v@[i] == color,
{
    let mut v: Vec<Rgba> = Vec::new();
    let mut k: usize = 0;
    while k < count
        invariant
            0 <= k <= count,
            v@.len() == k,
            forall|i: int| 0 <= i < v@.len() ==> v@[i] == color,
        decreases count - k,
    {
        v.push(color);
        k = k + 1;
    }
    v
}

} // verus!
