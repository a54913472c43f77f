use blockmesh::color4::Color4;
use blockmesh::line::Line;
use blockmesh::mesh::{Mesh, MeshVertex, Vec3};
use blockmesh::scene::{Mat4, Scene, SceneObject, SceneObjectContent};

fn tiny_mesh() -> Mesh {
    let v = MeshVertex {
        position: Vec3 { x: 0, y: 0, z: 0 },
        color: Color4::white(),
        normal: Vec3 { x: 0, y: 0, z: 0 },
    };
    Mesh::new(vec![v], vec![])
}

fn tiny_line() -> Line {
    Line::new(vec![], 1.0f32.to_bits())
}

#[test]
fn paint_reports_each_change_exactly_once() {
    let mut scene = Scene::default();
    assert!(scene.paint().is_none()); // nothing changed yet

    scene.add_object(SceneObject::from_mesh(tiny_mesh(), None));
    assert_eq!(scene.paint().map(|s| s.objects.len()), Some(1)); // the add is seen once
    assert!(scene.paint().is_none()); // and only once
    assert!(scene.paint().is_none());
    assert_eq!(scene.objects().len(), 1); // paint never touches the objects

    scene.add_object(SceneObject::from_line(tiny_line(), None));
    assert_eq!(scene.objects().len(), 2);
    assert!(scene.paint().is_some());
    assert!(scene.paint().is_none());

    scene.clear();
    assert_eq!(scene.objects().len(), 0);
    assert!(scene.paint().is_some()); // the clear is seen once
    assert!(scene.paint().is_none());
}

#[test]
fn missing_transform_is_identity() {
    let o = SceneObject::from_mesh(tiny_mesh(), None);
    let one = 1.0f32.to_bits();
    let expected = [one, 0, 0, 0, 0, one, 0, 0, 0, 0, one, 0, 0, 0, 0, one];
    assert_eq!(o.transform_matrix().m, expected);
    assert!(matches!(o.content, SceneObjectContent::Mesh(_)));
}

#[test]
fn explicit_transform_is_kept() {
    let m = Mat4 { m: [7; 16] };
    let o = SceneObject::from_line(tiny_line(), Some(m));
    assert_eq!(o.transform_matrix().m, [7; 16]);
}

#[test]
fn scene_object_dispatches_to_content() {
    let o = SceneObject::from_mesh(tiny_mesh(), None);
    let d = o.get_shader_attribute_data();
    assert!(d.normals.is_some());
    let l = SceneObject::from_line(tiny_line(), None);
    assert!(l.get_shader_attribute_data().normals.is_none());
    assert_eq!(l.gl_config().line_width, Some(1.0f32.to_bits()));
}
