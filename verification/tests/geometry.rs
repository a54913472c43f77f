use blockmesh::color4::Color4;
use blockmesh::line::{Line, LineVertex};
use blockmesh::mesh::{Mesh, MeshMaterial, MeshVertex, Vec3};
use blockmesh::shader_type::{DrawMode, ShaderType};

fn v3(x: f32, y: f32, z: f32) -> Vec3 {
    Vec3 { x: x.to_bits(), y: y.to_bits(), z: z.to_bits() }
}

fn vert(x: f32, y: f32, z: f32, color: Color4) -> MeshVertex {
    MeshVertex { position: v3(x, y, z), color, normal: v3(0.0, 1.0, 0.0) }
}

fn white() -> Color4 {
    Color4::white()
}

#[test]
fn mesh_new_is_basic_and_glass_retags() {
    let mut m = Mesh::new(
        vec![vert(0.0, 0.0, 0.0, white()), vert(1.0, 0.0, 0.0, white()), vert(0.0, 1.0, 0.0, white())],
        vec![[0, 1, 2]],
    );
    assert!(matches!(m.material, MeshMaterial::Basic));
    m.glass();
    assert!(matches!(m.material, MeshMaterial::Glass));
    assert_eq!(m.vertices.len(), 3);
    assert_eq!(m.triangles, vec![[0, 1, 2]]);
}

#[test]
fn combined_rebases_indices_below_total() {
    let a = Mesh::new(
        vec![vert(0.0, 0.0, 0.0, white()), vert(1.0, 0.0, 0.0, white())],
        vec![[0, 1, 0]],
    );
    let b = Mesh::new(
        vec![
            vert(5.0, 0.0, 0.0, white()),
            vert(6.0, 0.0, 0.0, white()),
            vert(7.0, 0.0, 0.0, white()),
        ],
        vec![[2, 1, 0], [0, 1, 2]],
    );
    let m = Mesh::combined(vec![a, b]);
    assert_eq!(m.vertices.len(), 5);
    assert_eq!(m.triangles, vec![[0, 1, 0], [4, 3, 2], [2, 3, 4]]);
    for t in &m.triangles {
        for &i in t {
            assert!(i < m.vertices.len());
        }
    }
}

#[test]
fn combined_draws_like_its_parts() {
    let a = Mesh::new(
        vec![
            vert(0.0, 0.0, 0.0, white()),
            vert(1.0, 0.0, 0.0, white()),
            vert(0.0, 1.0, 0.0, white()),
        ],
        vec![[0, 1, 2]],
    );
    let b = Mesh::new(
        vec![
            vert(5.0, 0.0, 0.0, Color4::red()),
            vert(6.0, 0.0, 0.0, Color4::red()),
            vert(5.0, 1.0, 0.0, Color4::red()),
        ],
        vec![[2, 0, 1]],
    );
    let m = Mesh::combined(vec![a.clone(), b.clone()]);
    let da = a.get_shader_attribute_data();
    let db = b.get_shader_attribute_data();
    let dm = m.get_shader_attribute_data();
    let mut pos = da.positions.unwrap();
    pos.extend(db.positions.unwrap());
    assert_eq!(dm.positions.unwrap(), pos);
    let mut col = da.colors.unwrap();
    col.extend(db.colors.unwrap());
    assert_eq!(dm.colors.unwrap(), col);
    let mut nor = da.normals.unwrap();
    nor.extend(db.normals.unwrap());
    assert_eq!(dm.normals.unwrap(), nor);
}

#[test]
fn flat_buffers_explode_per_corner() {
    let m = Mesh::new(
        vec![
            vert(1.0, 2.0, 3.0, Color4::new(1, 2, 3, 4)),
            vert(4.0, 5.0, 6.0, Color4::new(5, 6, 7, 8)),
        ],
        vec![[1, 0, 1]],
    );
    let d = m.get_shader_attribute_data();
    assert_eq!(d.vertex_count(), Some(9));
    let p = d.positions.unwrap();
    assert_eq!(
        p,
        vec![
            4.0f32.to_bits(),
            5.0f32.to_bits(),
            6.0f32.to_bits(),
            1.0f32.to_bits(),
            2.0f32.to_bits(),
            3.0f32.to_bits(),
            4.0f32.to_bits(),
            5.0f32.to_bits(),
            6.0f32.to_bits(),
        ]
    );
    let c = d.colors.unwrap();
    assert_eq!(c, vec![5, 6, 7, 8, 1, 2, 3, 4, 5, 6, 7, 8]);
    assert_eq!(d.normals.unwrap().len(), 9);
}

#[test]
fn mesh_gl_config_follows_material() {
    let mut m = Mesh::new(vec![vert(0.0, 0.0, 0.0, white())], vec![]);
    let c = m.gl_config();
    assert!(matches!(c.shader_type, ShaderType::Basic));
    assert!(matches!(c.mode, DrawMode::Triangles));
    assert_eq!(c.line_width, None);
    m.glass();
    assert!(matches!(m.gl_config().shader_type, ShaderType::Glass));
}

#[test]
fn multiple_color_flat_duplicates_corners() {
    // two triangles over a shared pool of four positions, one group
    let positions = vec![
        v3(0.0, 0.0, 1.0),
        v3(1.0, 0.0, 1.0),
        v3(1.0, 1.0, 1.0),
        v3(0.0, 1.0, 1.0),
    ];
    let grey = Color4::new(78, 78, 78, 255);
    let groups = vec![(vec![[0usize, 1, 2], [0, 2, 3]], grey)];
    let n0 = v3(0.0, 0.0, 1.0);
    let n1 = v3(0.0, 1.0, 0.0);
    let m = Mesh::multiple_color_flat(positions, groups, vec![n0, n1]);
    assert_eq!(m.triangles.len(), 2);
    assert_eq!(m.vertices.len(), 6);
    assert_eq!(m.triangles[0], [0, 1, 2]);
    assert_eq!(m.triangles[1], [3, 4, 5]);
    // z negated from the left-handed pool
    assert_eq!(m.vertices[0].position.z, (-1.0f32).to_bits());
    assert_eq!(m.vertices[1].position.x, 1.0f32.to_bits());
    // every corner of a triangle carries that triangle's normal and group color
    for i in 0..3 {
        assert_eq!(m.vertices[i].normal, n0);
        assert_eq!(m.vertices[3 + i].normal, n1);
        assert_eq!(m.vertices[i].color, grey);
    }
    // the shared pool corner 0 and 2 are duplicated, not shared
    assert_eq!(m.vertices[0].position, m.vertices[3].position);
    assert_eq!(m.vertices[2].position, m.vertices[4].position);
}

#[test]
fn line_single_color_open() {
    let pts = vec![v3(0.0, 0.0, 0.0), v3(1.0, 0.0, 2.0), v3(2.0, 0.0, 4.0)];
    let l = Line::single_color_lh(pts, Color4::black(), 2.0f32.to_bits(), false);
    assert_eq!(l.vertices.len(), 4); // two segments
    // negating z turns 0.0 into -0.0, exactly as the source constructor did
    assert_eq!(l.vertices[0].position, v3(0.0, 0.0, -0.0));
    assert_eq!(l.vertices[1].position, v3(1.0, 0.0, -2.0));
    assert_eq!(l.vertices[2].position, v3(1.0, 0.0, -2.0));
    assert_eq!(l.vertices[3].position, v3(2.0, 0.0, -4.0));
    assert_eq!(l.line_width, 2.0f32.to_bits());
}

#[test]
fn line_single_color_loop_wraps() {
    let pts = vec![v3(0.0, 0.0, 0.0), v3(1.0, 0.0, 0.0), v3(0.0, 1.0, 0.0)];
    let l = Line::single_color_lh(pts, Color4::black(), 1.0f32.to_bits(), true);
    assert_eq!(l.vertices.len(), 6); // three segments, closed
    assert_eq!(l.vertices[4].position, v3(0.0, 1.0, -0.0));
    assert_eq!(l.vertices[5].position, v3(0.0, 0.0, -0.0)); // wraps to first
}

#[test]
fn line_attribute_data_has_no_normals() {
    let l = Line::new(
        vec![
            LineVertex { position: v3(1.0, 2.0, 3.0), color: Color4::blue() },
            LineVertex { position: v3(4.0, 5.0, 6.0), color: Color4::green() },
        ],
        1.0f32.to_bits(),
    );
    let d = l.get_shader_attribute_data();
    assert!(d.normals.is_none());
    let p = d.positions.unwrap();
    assert_eq!(p.len(), 6);
    assert_eq!(p[3], 4.0f32.to_bits());
    let c = d.colors.unwrap();
    assert_eq!(c, vec![0, 0, 255, 255, 0, 255, 0, 255]);
    let cfg = l.gl_config();
    assert!(matches!(cfg.shader_type, ShaderType::Line));
    assert!(matches!(cfg.mode, DrawMode::Lines));
    assert_eq!(cfg.line_width, Some(1.0f32.to_bits()));
}

#[test]
fn color4_as_array_order() {
    assert_eq!(Color4::new(1, 2, 3, 4).as_array(), [1, 2, 3, 4]);
    assert_eq!(Color4::white().as_array(), [255, 255, 255, 255]);
    assert_eq!(Color4::black().as_array(), [0, 0, 0, 255]);
}

#[test]
fn shader_type_translucency() {
    assert!(ShaderType::Glass.is_translucent());
    assert!(!ShaderType::Basic.is_translucent());
    assert!(!ShaderType::Line.is_translucent());
}

#[test]
fn mesh_material_shader_type() {
    assert!(matches!(MeshMaterial::Basic.shader_type(), ShaderType::Basic));
    assert!(matches!(MeshMaterial::Glass.shader_type(), ShaderType::Glass));
}
