use blockmesh::mesh::MeshMaterial;
use blockmesh::sw_mesh::{SwMesh, SwMeshFromFileError, SwMeshTriangle, SwMeshType, SwMeshVec3};

fn push_u16(buf: &mut Vec<u8>, v: u16) {
    buf.extend_from_slice(&v.to_le_bytes());
}

fn push_u32(buf: &mut Vec<u8>, v: u32) {
    buf.extend_from_slice(&v.to_le_bytes());
}

fn push_f32(buf: &mut Vec<u8>, v: f32) {
    buf.extend_from_slice(&v.to_le_bytes());
}

fn push_vertex(buf: &mut Vec<u8>, pos: [f32; 3], color: [u8; 4], normal: [f32; 3]) {
    for c in pos {
        push_f32(buf, c);
    }
    buf.extend_from_slice(&color);
    for c in normal {
        push_f32(buf, c);
    }
}

fn push_submesh(buf: &mut Vec<u8>, start: u32, length: u32, shader_id: u16, name: &[u8]) {
    push_u32(buf, start);
    push_u32(buf, length);
    push_u16(buf, 0); // reserved
    push_u16(buf, shader_id);
    for _ in 0..6 {
        push_f32(buf, 0.0); // bounds min + max
    }
    push_u16(buf, 0); // reserved
    push_u16(buf, name.len() as u16);
    buf.extend_from_slice(name);
    for _ in 0..3 {
        push_f32(buf, 0.0); // reserved trailer
    }
}

/// A well-formed buffer: 2 vertices, 1 triangle, 1 glass submesh named "abc".
fn known_buffer() -> Vec<u8> {
    let mut buf = Vec::new();
    buf.extend_from_slice(b"mesh");
    push_u16(&mut buf, 7); // reserved header
    push_u16(&mut buf, 9); // reserved header
    push_u16(&mut buf, 2); // vertex_count
    push_u16(&mut buf, 11); // reserved header
    push_u16(&mut buf, 13); // reserved header
    push_vertex(&mut buf, [1.0, 2.0, 3.0], [10, 20, 30, 40], [0.0, 1.0, 0.0]);
    push_vertex(&mut buf, [-1.5, 0.25, -3.0], [255, 0, 255, 128], [0.0, 0.0, -1.0]);
    push_u32(&mut buf, 3); // index_count
    push_u16(&mut buf, 0);
    push_u16(&mut buf, 1);
    push_u16(&mut buf, 0); // one triangle
    push_u16(&mut buf, 1); // submesh_count
    push_submesh(&mut buf, 0, 3, 1, b"abc");
    buf
}

#[test]
fn decode_known_buffer() {
    let m = SwMesh::from_bytes(&known_buffer()).unwrap();
    assert!(matches!(m.mesh_type, SwMeshType::Mesh));
    assert_eq!(m.vertex_count, 2);
    assert_eq!(m.vertices.len(), 2);
    assert_eq!(m.index_count, 3);
    assert_eq!(m.triangle_count, 1);
    assert_eq!(m.triangles.len(), 1);
    assert_eq!(m.submesh_count, 1);
    assert_eq!(m.submeshes.len(), 1);

    assert_eq!(m.vertices[0].position, SwMeshVec3 {
        x: 1.0f32.to_bits(),
        y: 2.0f32.to_bits(),
        z: 3.0f32.to_bits(),
    });
    assert_eq!(m.vertices[0].color.r, 10);
    assert_eq!(m.vertices[0].color.a, 40);
    assert_eq!(m.vertices[1].position.x, (-1.5f32).to_bits());
    assert_eq!(m.vertices[1].normal.z, (-1.0f32).to_bits());
    assert_eq!(m.triangles[0].indices, [0, 1, 0]);

    let sub = &m.submeshes[0];
    assert_eq!(sub.index_buffer_start, 0);
    assert_eq!(sub.index_buffer_length, 3);
    assert_eq!(sub.shader_id, 1);
    assert_eq!(sub.name_bytes, b"abc".to_vec());
    assert_eq!(sub.name.as_deref(), Some("abc"));
}

#[test]
fn decode_phys_magic() {
    let mut buf = Vec::new();
    buf.extend_from_slice(b"phys");
    for _ in 0..5 {
        push_u16(&mut buf, 0);
    }
    push_u32(&mut buf, 0); // index_count
    push_u16(&mut buf, 0); // submesh_count
    let m = SwMesh::from_bytes(&buf).unwrap();
    assert!(matches!(m.mesh_type, SwMeshType::Phys));
    assert_eq!(m.vertices.len(), 0);
    assert_eq!(m.triangles.len(), 0);
    assert_eq!(m.submeshes.len(), 0);
}

#[test]
fn decode_bad_magic_is_parse_error() {
    let mut buf = Vec::new();
    buf.extend_from_slice(b"nope");
    for _ in 0..5 {
        push_u16(&mut buf, 0);
    }
    push_u32(&mut buf, 0);
    push_u16(&mut buf, 0);
    assert!(matches!(
        SwMesh::from_bytes(&buf),
        Err(SwMeshFromFileError::Parse(_))
    ));
}

fn buffer_with_index_count(ic: u32) -> Vec<u8> {
    let mut buf = Vec::new();
    buf.extend_from_slice(b"mesh");
    for _ in 0..5 {
        push_u16(&mut buf, 0);
    }
    push_u32(&mut buf, ic);
    buf
}

#[test]
fn index_count_5_is_parse_error() {
    assert!(matches!(
        SwMesh::from_bytes(&buffer_with_index_count(5)),
        Err(SwMeshFromFileError::Parse(_))
    ));
}

#[test]
fn index_count_7_is_parse_error() {
    assert!(matches!(
        SwMesh::from_bytes(&buffer_with_index_count(7)),
        Err(SwMeshFromFileError::Parse(_))
    ));
}

#[test]
fn index_count_100_is_parse_error() {
    assert!(matches!(
        SwMesh::from_bytes(&buffer_with_index_count(100)),
        Err(SwMeshFromFileError::Parse(_))
    ));
}

/// A buffer with no vertices, `ic` indices worth of zero triangles, and
/// one submesh `[start, start + length)`.
fn buffer_with_submesh(ic: u32, start: u32, length: u32) -> Vec<u8> {
    let mut buf = Vec::new();
    buf.extend_from_slice(b"mesh");
    for _ in 0..5 {
        push_u16(&mut buf, 0);
    }
    push_u32(&mut buf, ic);
    for _ in 0..ic {
        push_u16(&mut buf, 0);
    }
    push_u16(&mut buf, 1); // submesh_count
    push_submesh(&mut buf, start, length, 0, b"");
    buf
}

#[test]
fn submesh_start_misaligned_is_parse_error() {
    assert!(matches!(
        SwMesh::from_bytes(&buffer_with_submesh(6, 1, 3)),
        Err(SwMeshFromFileError::Parse(_))
    ));
}

#[test]
fn submesh_start_at_index_count_is_parse_error() {
    assert!(matches!(
        SwMesh::from_bytes(&buffer_with_submesh(6, 6, 0)),
        Err(SwMeshFromFileError::Parse(_))
    ));
}

#[test]
fn submesh_length_overrun_is_parse_error() {
    assert!(matches!(
        SwMesh::from_bytes(&buffer_with_submesh(6, 0, 9)),
        Err(SwMeshFromFileError::Parse(_))
    ));
}

#[test]
fn submesh_length_misaligned_is_parse_error() {
    assert!(matches!(
        SwMesh::from_bytes(&buffer_with_submesh(6, 0, 2)),
        Err(SwMeshFromFileError::Parse(_))
    ));
}

#[test]
fn submesh_boundary_succeeds() {
    let m = SwMesh::from_bytes(&buffer_with_submesh(6, 3, 3)).unwrap();
    assert_eq!(m.submeshes[0].index_buffer_start, 3);
    assert_eq!(m.submeshes[0].index_buffer_length, 3);
}

#[test]
fn truncated_header_is_io_error() {
    let buf = b"mesh\x00\x00\x00".to_vec();
    assert!(matches!(
        SwMesh::from_bytes(&buf),
        Err(SwMeshFromFileError::Io(_))
    ));
}

#[test]
fn truncated_vertices_is_io_error() {
    let mut buf = Vec::new();
    buf.extend_from_slice(b"mesh");
    push_u16(&mut buf, 0);
    push_u16(&mut buf, 0);
    push_u16(&mut buf, 5); // claims 5 vertices
    push_u16(&mut buf, 0);
    push_u16(&mut buf, 0);
    push_f32(&mut buf, 1.0); // far too few bytes
    assert!(matches!(
        SwMesh::from_bytes(&buf),
        Err(SwMeshFromFileError::Io(_))
    ));
}

#[test]
fn truncated_submesh_name_is_io_error() {
    let mut buf = Vec::new();
    buf.extend_from_slice(b"mesh");
    for _ in 0..5 {
        push_u16(&mut buf, 0);
    }
    push_u32(&mut buf, 0);
    push_u16(&mut buf, 1); // one submesh
    push_u32(&mut buf, 0); // start
    buf.truncate(buf.len() - 1); // cut into the start field
    assert!(matches!(
        SwMesh::from_bytes(&buf),
        Err(SwMeshFromFileError::Io(_))
    ));
}

#[test]
fn empty_buffer_is_io_error() {
    assert!(matches!(
        SwMesh::from_bytes(&[]),
        Err(SwMeshFromFileError::Io(_))
    ));
}

#[test]
fn invalid_utf8_name_does_not_abort_decode() {
    let mut buf = Vec::new();
    buf.extend_from_slice(b"mesh");
    for _ in 0..5 {
        push_u16(&mut buf, 0);
    }
    push_u32(&mut buf, 3);
    push_u16(&mut buf, 0);
    push_u16(&mut buf, 0);
    push_u16(&mut buf, 0);
    push_u16(&mut buf, 1);
    push_submesh(&mut buf, 0, 3, 0, &[0xFF, 0xFE]);
    let m = SwMesh::from_bytes(&buf).unwrap();
    assert_eq!(m.submeshes[0].name, None);
    assert_eq!(m.submeshes[0].name_bytes, vec![0xFF, 0xFE]);
}

#[test]
fn as_meshes_explodes_submeshes() {
    let m = SwMesh::from_bytes(&known_buffer()).unwrap();
    let meshes = m.as_meshes().unwrap();
    assert_eq!(meshes.len(), 1);
    let g = &meshes[0];
    assert!(matches!(g.material, MeshMaterial::Glass)); // shader_id 1
    assert_eq!(g.triangles.len(), 1);
    assert_eq!(g.triangles[0], [0, 1, 2]);
    assert_eq!(g.vertices.len(), 3);
    // triangle (0, 1, 0): vertices exploded in corner order, z negated
    assert_eq!(g.vertices[0].position.z, (-3.0f32).to_bits());
    assert_eq!(g.vertices[1].position.x, (-1.5f32).to_bits());
    assert_eq!(g.vertices[1].position.z, 3.0f32.to_bits());
    assert_eq!(g.vertices[2].position.z, (-3.0f32).to_bits());
    assert_eq!(g.vertices[0].color.r, 10);
    assert_eq!(g.vertices[1].color.a, 128);
    assert_eq!(g.vertices[0].normal.y, 1.0f32.to_bits());
    assert_eq!(g.vertices[1].normal.z, 1.0f32.to_bits()); // -(-1.0)
}

#[test]
fn as_meshes_rejects_out_of_range_vertex_index() {
    let mut m = SwMesh::from_bytes(&known_buffer()).unwrap();
    m.triangles[0] = SwMeshTriangle { indices: [0, 7, 0] }; // only 2 vertices exist
    assert!(m.as_meshes().is_none());
}

#[test]
fn as_usize_arr_widens_indices() {
    let t = SwMeshTriangle { indices: [1, 65535, 7] };
    assert_eq!(t.as_usize_arr(), [1usize, 65535, 7]);
}
