use orbit_cam::color::face_colors_to_vertex_colors;
use orbit_cam::color::uniform_vertex_colors;
use orbit_cam::color::Rgba;
use orbit_cam::color::VERTICES_PER_FACE;

// The colored cube and brick: one color per face, repeated for the four
// vertices of that face, faces in order.
#[test]
fn six_face_colors_expand_to_twenty_four_vertex_colors() {
    assert_eq!(VERTICES_PER_FACE, 4);
    let red = Rgba { r: 255, g: 0, b: 0, a: 255 };
    let green = Rgba { r: 0, g: 255, b: 0, a: 255 };
    let blue = Rgba { r: 0, g: 0, b: 255, a: 255 };
    let yellow = Rgba { r: 255, g: 255, b: 0, a: 255 };
    let cyan = Rgba { r: 0, g: 255, b: 255, a: 255 };
    let purple = Rgba { r: 128, g: 0, b: 128, a: 255 };
    let faces = vec![red, green, blue, yellow, cyan, purple];
    let v = face_colors_to_vertex_colors(&faces);
    assert_eq!(v.len(), 24);
    for (i, c) in v.iter().enumerate() {
        assert_eq!(*c, faces[i / 4]);
    }
    assert_eq!(v[0], red);
    assert_eq!(v[3], red);
    assert_eq!(v[4], green);
    assert_eq!(v[23], purple);
}

#[test]
fn empty_face_list_gives_empty_vertex_colors() {
    let faces: Vec<Rgba> = Vec::new();
    let v = face_colors_to_vertex_colors(&faces);
    assert_eq!(v.len(), 0);
}

// The flat-colored disc: the same color for every vertex of the fan,
// center included.
#[test]
fn uniform_colors_cover_every_disc_vertex() {
    let c = Rgba { r: 64, g: 200, b: 100, a: 255 };
    let v = uniform_vertex_colors(c, 17);
    assert_eq!(v.len(), 17);
    for x in v {
        assert_eq!(x, c);
    }
}
