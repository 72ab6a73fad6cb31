use orbit_cam::mesh::fan_indices;
use orbit_cam::mesh::DISC_SEGMENTS;

// The sixteen-sided disc: 16 triangles, each anchored at the center
// vertex, walking the rim and wrapping from rim vertex 16 back to 1.
#[test]
fn hexadecagon_fan_matches_expected_index_list() {
    assert_eq!(DISC_SEGMENTS, 16);
    let idx = fan_indices(16);
    let mut expected: Vec<u32> = Vec::new();
    for i in 1..16u32 {
        expected.push(0);
        expected.push(i);
        expected.push(i + 1);
    }
    expected.push(0);
    expected.push(16);
    expected.push(1);
    assert_eq!(idx, expected);
}

#[test]
fn fan_has_three_indices_per_segment() {
    let idx = fan_indices(16);
    assert_eq!(idx.len(), 48);
}

// Every index names one of the fan's vertices: the center plus one
// vertex per rim segment.
#[test]
fn fan_indices_stay_inside_vertex_count() {
    for segments in [2u32, 3, 16, 100] {
        let idx = fan_indices(segments);
        assert_eq!(idx.len(), 3 * segments as usize);
        for k in idx {
            assert!(k < segments + 1);
        }
    }
}

#[test]
fn smallest_fan_wraps_back_to_first_rim_vertex() {
    let idx = fan_indices(2);
    assert_eq!(idx, vec![0, 1, 2, 0, 2, 1]);
}
