use blockmesh::mesh::Vec3;
use blockmesh::surface_mesh::{fan_triangles, ring_triangles, surface_shape};

fn v3(x: f32, y: f32, z: f32) -> Vec3 {
    Vec3 { x: x.to_bits(), y: y.to_bits(), z: z.to_bits() }
}

#[test]
fn unknown_shape_id_yields_no_geometry() {
    assert!(surface_shape(200).is_none());
    assert!(surface_shape(0).is_none());
    assert!(surface_shape(-1).is_none());
    assert!(surface_shape(67).is_none());
}

#[test]
fn multiple_color_shape_ids_are_not_in_the_table() {
    // shapes 3, 4 and 5 are built by the multicolored path, not the table
    assert!(surface_shape(3).is_none());
    assert!(surface_shape(4).is_none());
    assert!(surface_shape(5).is_none());
}

#[test]
fn every_known_shape_id_has_an_outline() {
    assert!(surface_shape(1).is_some());
    assert!(surface_shape(2).is_some());
    for id in 6..=66 {
        assert!(surface_shape(id).is_some());
    }
}

#[test]
fn shape_1_is_the_full_face_quad() {
    let v = surface_shape(1).unwrap();
    assert_eq!(
        v,
        vec![
            v3(0.125, 0.125, 0.125),
            v3(0.125, 0.125, -0.125),
            v3(0.125, -0.125, -0.125),
            v3(0.125, -0.125, 0.125),
        ]
    );
}

#[test]
fn shape_7_is_a_triangle() {
    let v = surface_shape(7).unwrap();
    assert_eq!(
        v,
        vec![
            v3(-0.125, 0.125, -0.125),
            v3(0.125, -0.125, -0.125),
            v3(-0.125, -0.125, 0.125),
        ]
    );
}

#[test]
fn shape_13_uses_sixteenth_coordinates() {
    let v = surface_shape(13).unwrap();
    assert_eq!(v.len(), 4);
    assert_eq!(v[3], v3(0.125, -0.125, 0.0625));
}

#[test]
fn fan_triangulation_anchors_at_the_first_corner() {
    assert_eq!(fan_triangles(4), vec![[0, 1, 2], [0, 2, 3]]);
    assert_eq!(fan_triangles(3), vec![[0, 1, 2]]);
    assert!(fan_triangles(2).is_empty());
    assert!(fan_triangles(1).is_empty());
}

#[test]
fn ring_triangulation_wraps_around() {
    let r = ring_triangles(3);
    assert_eq!(
        r,
        vec![
            [0, 2, 3],
            [0, 3, 1],
            [2, 4, 5],
            [2, 5, 3],
            [4, 0, 1],
            [4, 1, 5],
        ]
    );
}
