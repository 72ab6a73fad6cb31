//! Index data of a generated polygon mesh: a triangle fan around a
//! center vertex, as used for the sixteen-sided disc.
//!
//! The fan has one center vertex (index 0) and `segments` rim vertices
//! (indices 1 through `segments`). Triangle `t` joins the center, rim
//! vertex `t + 1` and the next rim vertex, wrapping from the last rim
//! vertex back to the first.

use vstd::prelude::*;

verus! {

/// The number of rim segments of the generated sixteen-sided disc.
pub const DISC_SEGMENTS: u32 = 16;

/// The third vertex of fan triangle `t`: the rim vertex after `t + 1`,
/// wrapping back to rim vertex 1 on the last triangle.
pub open spec fn fan_third_vertex(t: int, segments: int) -> int {
    if t + 1 < segments {
        t + 2
    } else {
        1
    }
}

/// Builds the index buffer of a triangle fan with `segments` rim
/// vertices: `segments` triangles of three indices each, every triangle
/// anchored at the center vertex 0, and every index naming one of the
/// `segments + 1` vertices of the fan.
pub fn fan_indices(segments: u32) -> (idx: Vec<u32>)
    requires
        2 <= segments,
    ensures
        idx@.len() == 3 * segments,
        forall|t: int| 0 <= t < segments ==> #[trigger] idx@[3 * t] == 0,
        forall|t: int| 0 <= t < segments ==> #[trigger] idx@[3 * t + 1] == t + 1,
        forall|t: int|
            0 <= t < segments ==> #[trigger] idx@[3 * t + 2] == fan_third_vertex(
                t,
                segments as int,
            ),
        forall|k: int| 0 <= k < idx@.len() ==> #[trigger] idx@[k] < segments + 1,
{
    let mut idx: Vec<u32> = Vec::new();
    let mut i: u32 = 1;
    while i < segments
        invariant
            1 <= i <= segments,
            idx@.len() == 3 * (i - 1),
            forall|t: int| 0 <= t < i - 1 ==> #[trigger] idx@[3 * t] == 0,
            forall|t: int| 0 <= t < i - 1 ==> #[trigger] idx@[3 * t + 1] == t + 1,
            forall|t: int| 0 <= t < i - 1 ==> #[trigger] idx@[3 * t + 2] == t + 2,
            forall|k: int| 0 <= k < idx@.len() ==> #[trigger] idx@[k] < segments + 1,
        decreases segments - i,
    {
        idx.push(0);
        idx.push(i);
        idx.push(i + 1);
        i = i + 1;
    }
    idx.push(0);
    idx.push(segments);
    idx.push(1);
    idx
}

} // verus!
