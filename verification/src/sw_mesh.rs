//! Decoder for the proprietary binary mesh format: a 4-byte magic tag
//! (`"mesh"` or `"phys"`), a five-field header of which only the vertex
//! count is meaningful, a vertex block, a triangle index block, and a list
//! of submeshes that slice the triangle index range.
//!
//! Every multi-byte field is little-endian. The 32-bit float fields
//! (positions, normals, submesh bounds) are kept as their raw bit patterns
//! in `u32` fields, so decoding is bit-exact.
//!
//! The layout and every validation rule are written down as spec functions
//! over the byte sequence (`spec_decode_err`, `decode_matches`), and
//! `SwMesh::from_bytes` is proved to follow them: it succeeds exactly when
//! `spec_decode_err` finds no fault, and then returns the mesh those spec
//! functions describe.

use crate::bytes::{le16, le32, ByteCursor};
use crate::color4::Color4;
use crate::mesh::{Mesh, MeshMaterial, MeshVertex, Vec3};
use vstd::prelude::*;
use vstd::utf8::{decode_utf8, valid_utf8};

verus! {

/// Three 32-bit floats, stored as raw IEEE-754 bit patterns.
#[derive(Clone, Copy, Debug, PartialEq, Eq, Structural)]
pub struct SwMeshVec3 {
    pub x: u32,
    pub y: u32,
    pub z: u32,
}

/// An RGBA color, one byte per channel, exactly as stored in the file.
#[derive(Clone, Copy, Debug, PartialEq, Eq, Structural)]
pub struct SwMeshColor4 {
    pub r: u8,
    pub g: u8,
    pub b: u8,
    pub a: u8,
}

/// One vertex record: position, color, normal, in file order.
#[derive(Clone, Copy, Debug, PartialEq, Eq, Structural)]
pub struct SwMeshVertex {
    pub position: SwMeshVec3,
    pub color: SwMeshColor4,
    pub normal: SwMeshVec3,
}

/// Three 16-bit vertex indices.
#[derive(Clone, Copy, Debug, PartialEq, Eq)]
pub struct SwMeshTriangle {
    pub indices: [u16; 3],
}

/// A contiguous slice `[index_buffer_start, index_buffer_start +
/// index_buffer_length)` of the triangle index range, with its material
/// tag, bounding box, and optional name. `name` is `Some` exactly when
/// `name_bytes` is valid UTF-8; a bad name does not fail the decode.
#[derive(Clone, Debug)]
pub struct SwSubmesh {
    pub index_buffer_start: u32,
    pub index_buffer_length: u32,
    pub shader_id: u16,
    pub bounds_min: SwMeshVec3,
    pub bounds_max: SwMeshVec3,
    pub name_bytes: Vec<u8>,
    pub name: Option<String>,
}

/// The two admissible file kinds, by magic tag.
#[derive(Clone, Copy, Debug, PartialEq, Eq, Structural)]
pub enum SwMeshType {
    Mesh,
    Phys,
}

/// Decode failures. `Io` is a short read (the buffer ends before the
/// fields it claims), `Parse` a structural violation. `Utf8` is kept for
/// callers that map text errors of their own; the decoder itself never
/// returns it, since a bad submesh name is not fatal.
#[derive(Clone, Debug)]
pub enum SwMeshFromFileError {
    Io(String),
    Utf8(String),
    Parse(String),
}

/// A decoded mesh file. The reserved header fields are consumed but not
/// kept; `vertex_count`, `index_count`, `triangle_count` and
/// `submesh_count` mirror the counts read from the file and always equal
/// the lengths of the corresponding vectors.
#[derive(Clone, Debug)]
pub struct SwMesh {
    pub mesh_type: SwMeshType,
    pub vertex_count: u16,
    pub vertices: Vec<SwMeshVertex>,
    pub index_count: u32,
    pub triangle_count: u32,
    pub triangles: Vec<SwMeshTriangle>,
    pub submesh_count: u16,
    pub submeshes: Vec<SwSubmesh>,
}

/// The fault `spec_decode_err` finds in a buffer, if any.
pub ghost enum DecodeFault {
    /// The buffer ends before a field it claims.
    Eof,
    /// The first four bytes are neither `"mesh"` nor `"phys"`.
    BadMagic,
    /// `index_count` is not divisible by 3.
    BadIndexCount(u32),
    /// A submesh start is not divisible by 3 or not below `index_count`.
    BadSubmeshStart(u32),
    /// A submesh length is not divisible by 3 or runs past `index_count`.
    BadSubmeshLength(u32),
}

/// The mesh kind named by the first four bytes, if they are a known tag.
pub open spec fn spec_magic(b: Seq<u8>) -> Option<SwMeshType> {
    if b[0] == 109 && b[1] == 101 && b[2] == 115 && b[3] == 104 {
        // "mesh"
        Some(SwMeshType::Mesh)
    } else if b[0] == 112 && b[1] == 104 && b[2] == 121 && b[3] == 115 {
        // "phys"
        Some(SwMeshType::Phys)
    } else {
        None
    }
}

/// The vertex count: the third of the five 16-bit header fields.
pub open spec fn spec_vertex_count(b: Seq<u8>) -> u16 {
    le16(b, 8)
}

/// Offset just past the vertex block (each vertex is 28 bytes).
pub open spec fn spec_verts_end(b: Seq<u8>) -> int {
    14 + 28 * spec_vertex_count(b)
}

/// The 32-bit index count following the vertex block.
pub open spec fn spec_index_count(b: Seq<u8>) -> u32 {
    le32(b, spec_verts_end(b))
}

/// Offset of the triangle block.
pub open spec fn spec_tris_off(b: Seq<u8>) -> int {
    spec_verts_end(b) + 4
}

/// The triangle count derived from the index count.
pub open spec fn spec_triangle_count(b: Seq<u8>) -> u32 {
    spec_index_count(b) / 3
}

/// Offset of the 16-bit submesh count (each triangle is 6 bytes).
pub open spec fn spec_subcount_off(b: Seq<u8>) -> int {
    spec_tris_off(b) + 6 * spec_triangle_count(b)
}

/// The submesh count.
pub open spec fn spec_submesh_count(b: Seq<u8>) -> u16 {
    le16(b, spec_subcount_off(b))
}

/// Offset of the first submesh record.
pub open spec fn spec_subs_off(b: Seq<u8>) -> int {
    spec_subcount_off(b) + 2
}

/// The 12-byte vector of bit patterns at offset `i`.
pub open spec fn spec_vec3_at(b: Seq<u8>, i: int) -> SwMeshVec3 {
    SwMeshVec3 { x: le32(b, i), y: le32(b, i + 4), z: le32(b, i + 8) }
}

/// The 4-byte color at offset `i`.
pub open spec fn spec_color_at(b: Seq<u8>, i: int) -> SwMeshColor4 {
    SwMeshColor4 { r: b[i], g: b[i + 1], b: b[i + 2], a: b[i + 3] }
}

/// The 28-byte vertex record at offset `i`.
pub open spec fn spec_vertex_at(b: Seq<u8>, i: int) -> SwMeshVertex {
    SwMeshVertex {
        position: spec_vec3_at(b, i),
        color: spec_color_at(b, i + 12),
        normal: spec_vec3_at(b, i + 16),
    }
}

/// Whether `t` is the 6-byte triangle record at offset `i`.
pub open spec fn spec_triangle_matches(t: SwMeshTriangle, b: Seq<u8>, i: int) -> bool {
    t.indices@ == seq![le16(b, i), le16(b, i + 2), le16(b, i + 4)]
}

/// Scans the submesh record at offset `off`, validating its slice of the
/// index range `[0, ic)`. Returns the offset just past the record (its
/// fixed 52 bytes plus its name), or the fault that stops the decode.
///
/// The order of the checks mirrors the read order of the record: the
/// start field is read and validated before the length field, and both
/// before the remaining fields, so a record that is both invalid and
/// truncated reports the fault of its earliest field.
pub open spec fn spec_submesh_scan(b: Seq<u8>, off: int, ic: u32) -> Result<int, DecodeFault> {
    if b.len() < off + 4 {
        Err(DecodeFault::Eof)
    } else {
        let start = le32(b, off);
        if start % 3 != 0 || start >= ic {
            Err(DecodeFault::BadSubmeshStart(start))
        } else if b.len() < off + 8 {
            Err(DecodeFault::Eof)
        } else {
            let length = le32(b, off + 4);
            if length % 3 != 0 || start + length > ic {
                Err(DecodeFault::BadSubmeshLength(length))
            } else if b.len() < off + 40 {
                Err(DecodeFault::Eof)
            } else {
                let nl = le16(b, off + 38);
                if b.len() < off + 52 + nl {
                    Err(DecodeFault::Eof)
                } else {
                    Ok(off + 52 + nl)
                }
            }
        }
    }
}

/// Scans `n` submesh records starting at `off`. Returns the offset of
/// each record and the offset just past the last, or the first fault.
pub open spec fn spec_submeshes_scan(b: Seq<u8>, off: int, n: nat, ic: u32) -> Result<
    (Seq<int>, int),
    DecodeFault,
>
    decreases n,
{
    if n == 0 {
        Ok((Seq::empty(), off))
    } else {
        match spec_submesh_scan(b, off, ic) {
            Err(e) => Err(e),
            Ok(next) => match spec_submeshes_scan(b, next, (n - 1) as nat, ic) {
                Err(e) => Err(e),
                Ok((rest, end)) => Ok((seq![off] + rest, end)),
            },
        }
    }
}

/// The fault that stops decoding `b`, if any: `None` means the buffer is a
/// valid mesh file. The checks appear in the order the decoder reads the
/// file.
pub open spec fn spec_decode_err(b: Seq<u8>) -> Option<DecodeFault> {
    if b.len() < 4 {
        Some(DecodeFault::Eof)
    } else if spec_magic(b) is None {
        Some(DecodeFault::BadMagic)
    } else if b.len() < 14 {
        Some(DecodeFault::Eof)
    } else if b.len() < spec_verts_end(b) {
        Some(DecodeFault::Eof)
    } else if b.len() < spec_verts_end(b) + 4 {
        Some(DecodeFault::Eof)
    } else if spec_index_count(b) % 3 != 0 {
        Some(DecodeFault::BadIndexCount(spec_index_count(b)))
    } else if b.len() < spec_tris_off(b) + 6 * spec_triangle_count(b) {
        Some(DecodeFault::Eof)
    } else if b.len() < spec_subcount_off(b) + 2 {
        Some(DecodeFault::Eof)
    } else {
        match spec_submeshes_scan(b, spec_subs_off(b), spec_submesh_count(b) as nat, spec_index_count(b)) {
            Err(e) => Some(e),
            Ok(_) => None,
        }
    }
}

/// Whether the decoded submesh `s` is the record at offset `off` of `b`.
pub open spec fn spec_submesh_matches(s: SwSubmesh, b: Seq<u8>, off: int) -> bool {
    &&& s.index_buffer_start == le32(b, off)
    &&& s.index_buffer_length == le32(b, off + 4)
    &&& s.shader_id == le16(b, off + 10)
    &&& s.bounds_min == spec_vec3_at(b, off + 12)
    &&& s.bounds_max == spec_vec3_at(b, off + 24)
    &&& s.name_bytes@ == b.subrange(off + 40, off + 40 + le16(b, off + 38))
    &&& match s.name {
        Some(n) => valid_utf8(s.name_bytes@) && n@ == decode_utf8(s.name_bytes@),
        None => !valid_utf8(s.name_bytes@),
    }
}

/// Whether `m` is the mesh described by a buffer `b` that
/// `spec_decode_err` accepts: every count, vertex, triangle and submesh of
/// `m` is the one the format lays out in `b`.
pub open spec fn decode_matches(b: Seq<u8>, m: SwMesh) -> bool {
    &&& Some(m.mesh_type) == spec_magic(b)
    &&& m.vertex_count == spec_vertex_count(b)
    &&& m.vertices@.len() == spec_vertex_count(b)
    &&& forall|i: int|
        0 <= i < m.vertices@.len() ==> m.vertices@[i] == spec_vertex_at(b, 14 + 28 * i)
    &&& m.index_count == spec_index_count(b)
    &&& m.triangle_count == spec_triangle_count(b)
    &&& m.triangles@.len() == spec_triangle_count(b)
    &&& forall|i: int|
        0 <= i < m.triangles@.len() ==> spec_triangle_matches(
            m.triangles@[i],
            b,
            spec_tris_off(b) + 6 * i,
        )
    &&& m.submesh_count == spec_submesh_count(b)
    &&& m.submeshes@.len() == spec_submesh_count(b)
    &&& match spec_submeshes_scan(
        b,
        spec_subs_off(b),
        spec_submesh_count(b) as nat,
        spec_index_count(b),
    ) {
        Ok((offs, _)) => forall|i: int|
            0 <= i < m.submeshes@.len() ==> spec_submesh_matches(m.submeshes@[i], b, offs[i]),
        Err(_) => false,
    }
}

/// Whether the error value `e` reports the fault `k`: a short read is an
/// `Io` error with a fixed message, each structural violation a `Parse`
/// error naming the offending field.
pub open spec fn spec_err_matches(e: SwMeshFromFileError, k: DecodeFault) -> bool {
    match k {
        DecodeFault::Eof => e matches SwMeshFromFileError::Io(m) && m@
            == "Mesh file ends unexpectedly early."@,
        DecodeFault::BadMagic => e matches SwMeshFromFileError::Parse(m) && m@
            == "Mesh file is beginning with unexpected bytes."@,
        DecodeFault::BadIndexCount(_) => e matches SwMeshFromFileError::Parse(m) && m@
            == "Mesh file contains unexpected binary sequence: index_count is invalid."@,
        DecodeFault::BadSubmeshStart(_) => e matches SwMeshFromFileError::Parse(m) && m@
            == "Mesh file contains unexpected binary sequence: submesh.index_buffer_start is invalid."@,
        DecodeFault::BadSubmeshLength(_) => e matches SwMeshFromFileError::Parse(m) && m@
            == "Mesh file contains unexpected binary sequence: submesh.index_buffer_length is invalid."@,
    }
}

/// Relies on std's `String::from_utf8`: it returns `Ok` exactly on valid
/// UTF-8 input, and then the string's characters decode those bytes.
#[verifier::external_body]
fn utf8_from_bytes(bytes: &Vec<u8>) -> (r: Option<String>)
    ensures
        r is Some <==> valid_utf8(bytes@),
        r matches Some(s) ==> s@ == decode_utf8(bytes@),
{
    String::from_utf8(bytes.clone()).ok()
}

impl SwMeshVec3 {
    /// Reads the three bit patterns of a 12-byte vector field.
    pub fn from_binary(cur: &mut ByteCursor) -> (r: Option<SwMeshVec3>)
        requires
            old(cur).wf(),
        ensures
            final(cur).data@ == old(cur).data@,
            final(cur).wf(),
            r matches Some(v) ==> v == spec_vec3_at(old(cur).data@, old(cur).pos as int)
                && final(cur).pos == old(cur).pos + 12,
            r is None ==> old(cur).pos + 12 > old(cur).data@.len(),
    {
        let x = match cur.read_u32_le() {
            Some(v) => v,
            None => {
                return None;
            },
        };
        let y = match cur.read_u32_le() {
            Some(v) => v,
            None => {
                return None;
            },
        };
        let z = match cur.read_u32_le() {
            Some(v) => v,
            None => {
                return None;
            },
        };
        Some(SwMeshVec3 { x, y, z })
    }
}

impl SwMeshColor4 {
    /// Reads the four color channels of a 4-byte color field.
    pub fn from_binary(cur: &mut ByteCursor) -> (r: Option<SwMeshColor4>)
        requires
            old(cur).wf(),
        ensures
            final(cur).data@ == old(cur).data@,
            final(cur).wf(),
            r matches Some(c) ==> c == spec_color_at(old(cur).data@, old(cur).pos as int)
                && final(cur).pos == old(cur).pos + 4,
            r is None ==> old(cur).pos + 4 > old(cur).data@.len(),
    {
        let r = match cur.read_u8() {
            Some(v) => v,
            None => {
                return None;
            },
        };
        let g = match cur.read_u8() {
            Some(v) => v,
            None => {
                return None;
            },
        };
        let b = match cur.read_u8() {
            Some(v) => v,
            None => {
                return None;
            },
        };
        let a = match cur.read_u8() {
            Some(v) => v,
            None => {
                return None;
            },
        };
        Some(SwMeshColor4 { r, g, b, a })
    }
}

impl SwMeshVertex {
    /// Reads a 28-byte vertex record.
    pub fn from_binary(cur: &mut ByteCursor) -> (r: Option<SwMeshVertex>)
        requires
            old(cur).wf(),
        ensures
            final(cur).data@ == old(cur).data@,
            final(cur).wf(),
            r matches Some(v) ==> v == spec_vertex_at(old(cur).data@, old(cur).pos as int)
                && final(cur).pos == old(cur).pos + 28,
            r is None ==> old(cur).pos + 28 > old(cur).data@.len(),
    {
        let position = match SwMeshVec3::from_binary(cur) {
            Some(v) => v,
            None => {
                return None;
            },
        };
        let color = match SwMeshColor4::from_binary(cur) {
            Some(v) => v,
            None => {
                return None;
            },
        };
        let normal = match SwMeshVec3::from_binary(cur) {
            Some(v) => v,
            None => {
                return None;
            },
        };
        Some(SwMeshVertex { position, color, normal })
    }
}

impl SwMeshTriangle {
    /// Reads a 6-byte triangle record.
    pub fn from_binary(cur: &mut ByteCursor) -> (r: Option<SwMeshTriangle>)
        requires
            old(cur).wf(),
        ensures
            final(cur).data@ == old(cur).data@,
            final(cur).wf(),
            r matches Some(t) ==> spec_triangle_matches(t, old(cur).data@, old(cur).pos as int)
                && final(cur).pos == old(cur).pos + 6,
            r is None ==> old(cur).pos + 6 > old(cur).data@.len(),
    {
        let i0 = match cur.read_u16_le() {
            Some(v) => v,
            None => {
                return None;
            },
        };
        let i1 = match cur.read_u16_le() {
            Some(v) => v,
            None => {
                return None;
            },
        };
        let i2 = match cur.read_u16_le() {
            Some(v) => v,
            None => {
                return None;
            },
        };
        let t = SwMeshTriangle { indices: [i0, i1, i2] };
        proof {
            assert(t.indices@ == seq![i0, i1, i2]);
        }
        Some(t)
    }

    /// The three indices widened to the platform index type.
    pub fn as_usize_arr(&self) -> (r: [usize; 3])
        ensures
            r@ == seq![
                self.indices@[0] as usize,
                self.indices@[1] as usize,
                self.indices@[2] as usize,
            ],
    {
        let r = [self.indices[0] as usize, self.indices[1] as usize, self.indices[2] as usize];
        proof {
            assert(r@ == seq![
                self.indices@[0] as usize,
                self.indices@[1] as usize,
                self.indices@[2] as usize,
            ]);
        }
        r
    }
}

/// The `Io` error every short read reports.
fn eof_error() -> (r: SwMeshFromFileError)
    ensures
        spec_err_matches(r, DecodeFault::Eof),
{
    SwMeshFromFileError::Io("Mesh file ends unexpectedly early.".to_owned())
}

impl SwSubmesh {
    /// Reads one submesh record, validating its slice of the index range
    /// `[0, index_count)` field by field, in read order.
    pub fn from_binary(cur: &mut ByteCursor, index_count: u32) -> (r: Result<
        SwSubmesh,
        SwMeshFromFileError,
    >)
        requires
            old(cur).wf(),
        ensures
            final(cur).data@ == old(cur).data@,
            final(cur).wf(),
            match r {
                Ok(s) => spec_submesh_scan(old(cur).data@, old(cur).pos as int, index_count)
                    == Ok::<int, DecodeFault>(final(cur).pos as int) && spec_submesh_matches(
                    s,
                    old(cur).data@,
                    old(cur).pos as int,
                ),
                Err(e) => spec_submesh_scan(old(cur).data@, old(cur).pos as int, index_count)
                    matches Err(k) && spec_err_matches(e, k),
            },
    {
        let ghost b = cur.data@;
        let ghost off = cur.pos as int;
        let index_buffer_start = match cur.read_u32_le() {
            Some(v) => v,
            None => {
                return Err(eof_error());
            },
        };
        if index_buffer_start % 3 != 0 || index_buffer_start >= index_count {
            return Err(
                SwMeshFromFileError::Parse(
                    "Mesh file contains unexpected binary sequence: submesh.index_buffer_start is invalid.".to_owned(),
                ),
            );
        }
        let index_buffer_length = match cur.read_u32_le() {
            Some(v) => v,
            None => {
                return Err(eof_error());
            },
        };
        if index_buffer_length % 3 != 0 || index_buffer_length > index_count - index_buffer_start {
            return Err(
                SwMeshFromFileError::Parse(
                    "Mesh file contains unexpected binary sequence: submesh.index_buffer_length is invalid.".to_owned(),
                ),
            );
        }
        let _header2 = match cur.read_u16_le() {
            Some(v) => v,
            None => {
                return Err(eof_error());
            },
        };
        let shader_id = match cur.read_u16_le() {
            Some(v) => v,
            None => {
                return Err(eof_error());
            },
        };
        let bounds_min = match SwMeshVec3::from_binary(cur) {
            Some(v) => v,
            None => {
                return Err(eof_error());
            },
        };
        let bounds_max = match SwMeshVec3::from_binary(cur) {
            Some(v) => v,
            None => {
                return Err(eof_error());
            },
        };
        let _header6 = match cur.read_u16_le() {
            Some(v) => v,
            None => {
                return Err(eof_error());
            },
        };
        let name_len = match cur.read_u16_le() {
            Some(v) => v,
            None => {
                return Err(eof_error());
            },
        };
        let ghost noff = cur.pos as int;
        let mut name_bytes: Vec<u8> = Vec::new();
        for j in 0..name_len as usize
            invariant
                b == old(cur).data@,
                off == old(cur).pos as int,
                cur.data@ == b,
                cur.wf(),
                noff == off + 40,
                b.len() >= off + 40,
                index_buffer_start == le32(b, off),
                index_buffer_start % 3 == 0,
                index_buffer_start < index_count,
                index_buffer_length == le32(b, off + 4),
                index_buffer_length % 3 == 0,
                index_buffer_start + index_buffer_length <= index_count,
                shader_id == le16(b, off + 10),
                bounds_min == spec_vec3_at(b, off + 12),
                bounds_max == spec_vec3_at(b, off + 24),
                name_len == le16(b, off + 38),
                cur.pos as int == noff + j,
                j <= name_len,
                name_bytes@ == b.subrange(noff, noff + j),
        {
            let byte = match cur.read_u8() {
                Some(v) => v,
                None => {
                    return Err(eof_error());
                },
            };
            name_bytes.push(byte);
            proof {
                assert(name_bytes@ =~= b.subrange(noff, noff + j + 1));
            }
        }
        let _trailer = match SwMeshVec3::from_binary(cur) {
            Some(v) => v,
            None => {
                return Err(eof_error());
            },
        };
        let name = utf8_from_bytes(&name_bytes);
        Ok(
            SwSubmesh {
                index_buffer_start,
                index_buffer_length,
                shader_id,
                bounds_min,
                bounds_max,
                name_bytes,
                name,
            },
        )
    }
}

/// Extending a successful scan of `n` submeshes by one more record either
/// appends that record's offset or surfaces the record's fault.
proof fn lemma_submeshes_scan_snoc(b: Seq<u8>, off: int, n: nat, ic: u32, offs: Seq<int>, end: int)
    requires
        spec_submeshes_scan(b, off, n, ic) == Ok::<(Seq<int>, int), DecodeFault>((offs, end)),
    ensures
        spec_submesh_scan(b, end, ic) matches Ok(e2) ==> spec_submeshes_scan(b, off, n + 1, ic)
            == Ok::<(Seq<int>, int), DecodeFault>((offs.push(end), e2)),
        spec_submesh_scan(b, end, ic) matches Err(k) ==> spec_submeshes_scan(b, off, n + 1, ic)
            == Err::<(Seq<int>, int), DecodeFault>(k),
    decreases n,
{
    if n == 0 {
        assert(offs =~= Seq::<int>::empty());
        match spec_submesh_scan(b, off, ic) {
            Ok(e2) => {
                assert(spec_submeshes_scan(b, e2, 0, ic) == Ok::<(Seq<int>, int), DecodeFault>(
                    (Seq::empty(), e2),
                ));
                assert(seq![off] + Seq::<int>::empty() =~= offs.push(end));
            },
            Err(_) => {},
        }
    } else {
        let next = spec_submesh_scan(b, off, ic)->Ok_0;
        let rest = spec_submeshes_scan(b, next, (n - 1) as nat, ic)->Ok_0.0;
        lemma_submeshes_scan_snoc(b, next, (n - 1) as nat, ic, rest, end);
        match spec_submesh_scan(b, end, ic) {
            Ok(_) => {
                assert(seq![off] + rest.push(end) =~= (seq![off] + rest).push(end));
            },
            Err(_) => {},
        }
    }
}

/// A scan that fails on `n` submeshes fails the same way on any larger
/// count: the fault of the first bad record is the fault of the whole
/// list.
proof fn lemma_submeshes_scan_err_mono(
    b: Seq<u8>,
    off: int,
    n: nat,
    m: nat,
    ic: u32,
    k: DecodeFault,
)
    requires
        n <= m,
        spec_submeshes_scan(b, off, n, ic) == Err::<(Seq<int>, int), DecodeFault>(k),
    ensures
        spec_submeshes_scan(b, off, m, ic) == Err::<(Seq<int>, int), DecodeFault>(k),
    decreases m,
{
    if n == 0 {
        assert(false);
    } else if m > n {
        match spec_submesh_scan(b, off, ic) {
            Err(_) => {},
            Ok(next) => {
                lemma_submeshes_scan_err_mono(b, next, (n - 1) as nat, (m - 1) as nat, ic, k);
            },
        }
    }
}

impl SwMesh {
    /// Decodes a whole mesh file from its raw bytes.
    ///
    /// Succeeds exactly when `spec_decode_err` finds no fault in the
    /// buffer, and then returns the mesh that `decode_matches` describes;
    /// otherwise returns the error that reports the first fault, an `Io`
    /// error for a buffer shorter than the fields it claims and a `Parse`
    /// error for each structural violation.
    pub fn from_bytes(data: &[u8]) -> (r: Result<SwMesh, SwMeshFromFileError>)
        ensures
            match r {
                Ok(m) => spec_decode_err(data@) is None && decode_matches(data@, m),
                Err(e) => spec_decode_err(data@) matches Some(k) && spec_err_matches(e, k),
            },
    {
        let ghost b = data@;
        if data.len() < 4 {
            return Err(eof_error());
        }
        let mesh_type = if data[0] == 109 && data[1] == 101 && data[2] == 115 && data[3] == 104 {
            // "mesh"
            SwMeshType::Mesh
        } else if data[0] == 112 && data[1] == 104 && data[2] == 121 && data[3] == 115 {
            // "phys"
            SwMeshType::Phys
        } else {
            return Err(
                SwMeshFromFileError::Parse("Mesh file is beginning with unexpected bytes.".to_owned()),
            );
        };
        let mut cur = ByteCursor { data, pos: 4 };
        let _header0 = match cur.read_u16_le() {
            Some(v) => v,
            None => {
                return Err(eof_error());
            },
        };
        let _header1 = match cur.read_u16_le() {
            Some(v) => v,
            None => {
                return Err(eof_error());
            },
        };
        let vertex_count = match cur.read_u16_le() {
            Some(v) => v,
            None => {
                return Err(eof_error());
            },
        };
        let _header3 = match cur.read_u16_le() {
            Some(v) => v,
            None => {
                return Err(eof_error());
            },
        };
        let _header4 = match cur.read_u16_le() {
            Some(v) => v,
            None => {
                return Err(eof_error());
            },
        };
        let mut vertices: Vec<SwMeshVertex> = Vec::new();
        for i in 0..vertex_count as usize
            invariant
                b == data@,
                cur.data@ == b,
                cur.wf(),
                b.len() >= 14,
                spec_magic(b) == Some(mesh_type),
                vertex_count == spec_vertex_count(b),
                cur.pos as int == 14 + 28 * i,
                i <= vertex_count,
                vertices@.len() == i,
                forall|j: int| 0 <= j < i ==> vertices@[j] == spec_vertex_at(b, 14 + 28 * j),
        {
            let v = match SwMeshVertex::from_binary(&mut cur) {
                Some(v) => v,
                None => {
                    return Err(eof_error());
                },
            };
            vertices.push(v);
        }
        let index_count = match cur.read_u32_le() {
            Some(v) => v,
            None => {
                return Err(eof_error());
            },
        };
        if index_count % 3 != 0 {
            return Err(
                SwMeshFromFileError::Parse(
                    "Mesh file contains unexpected binary sequence: index_count is invalid.".to_owned(),
                ),
            );
        }
        let triangle_count = index_count / 3;
        let mut triangles: Vec<SwMeshTriangle> = Vec::new();
        for i in 0..triangle_count
            invariant
                b == data@,
                cur.data@ == b,
                cur.wf(),
                b.len() >= 14,
                b.len() >= spec_verts_end(b) + 4,
                spec_magic(b) == Some(mesh_type),
                vertex_count == spec_vertex_count(b),
                index_count == spec_index_count(b),
                index_count % 3 == 0,
                triangle_count == spec_triangle_count(b),
                cur.pos as int == spec_tris_off(b) + 6 * i,
                i <= triangle_count,
                triangles@.len() == i,
                forall|j: int|
                    0 <= j < i ==> spec_triangle_matches(triangles@[j], b, spec_tris_off(b) + 6 * j),
        {
            let t = match SwMeshTriangle::from_binary(&mut cur) {
                Some(v) => v,
                None => {
                    return Err(eof_error());
                },
            };
            triangles.push(t);
        }
        let submesh_count = match cur.read_u16_le() {
            Some(v) => v,
            None => {
                return Err(eof_error());
            },
        };
        let mut submeshes: Vec<SwSubmesh> = Vec::new();
        let ghost mut offs: Seq<int> = Seq::empty();
        for i in 0..submesh_count as usize
            invariant
                b == data@,
                cur.data@ == b,
                cur.wf(),
                b.len() >= 14,
                b.len() >= spec_verts_end(b) + 4,
                b.len() >= spec_subcount_off(b) + 2,
                spec_magic(b) == Some(mesh_type),
                vertex_count == spec_vertex_count(b),
                index_count == spec_index_count(b),
                index_count % 3 == 0,
                triangle_count == spec_triangle_count(b),
                submesh_count == spec_submesh_count(b),
                i <= submesh_count,
                submeshes@.len() == i,
                offs.len() == i,
                spec_submeshes_scan(b, spec_subs_off(b), i as nat, index_count) == Ok::<
                    (Seq<int>, int),
                    DecodeFault,
                >((offs, cur.pos as int)),
                forall|j: int| 0 <= j < i ==> spec_submesh_matches(submeshes@[j], b, offs[j]),
        {
            let ghost end = cur.pos as int;
            let s = match SwSubmesh::from_binary(&mut cur, index_count) {
                Ok(s) => s,
                Err(e) => {
                    proof {
                        let k = spec_submesh_scan(b, end, index_count)->Err_0;
                        lemma_submeshes_scan_snoc(b, spec_subs_off(b), i as nat, index_count, offs, end);
                        lemma_submeshes_scan_err_mono(
                            b,
                            spec_subs_off(b),
                            (i + 1) as nat,
                            submesh_count as nat,
                            index_count,
                            k,
                        );
                    }
                    return Err(e);
                },
            };
            proof {
                lemma_submeshes_scan_snoc(b, spec_subs_off(b), i as nat, index_count, offs, end);
                offs = offs.push(end);
            }
            submeshes.push(s);
        }
        Ok(
            SwMesh {
                mesh_type,
                vertex_count,
                vertices,
                index_count,
                triangle_count,
                triangles,
                submesh_count,
                submeshes,
            },
        )
    }
}


/// The geometry-model vertex that mesh triangle `start + j`'s corner `k`
/// of submesh `s` refers to, converted to right-handed coordinates.
pub open spec fn spec_submesh_corner(m: SwMesh, s: int, j: int, k: int) -> MeshVertex {
    let sub = m.submeshes@[s];
    let start = sub.index_buffer_start / 3;
    m.vertices@[m.triangles@[start + j].indices@[k] as int].spec_as_mesh_vertex()
}

/// Whether submesh `s` of `m` is an aligned slice that stays inside the
/// triangle list.
pub open spec fn spec_submesh_range_ok(m: SwMesh, s: int) -> bool {
    let sub = m.submeshes@[s];
    &&& sub.index_buffer_start % 3 == 0
    &&& sub.index_buffer_length % 3 == 0
    &&& sub.index_buffer_start / 3 + sub.index_buffer_length / 3 <= m.triangles@.len()
}

/// Whether every triangle of submesh `s` refers only to vertices that
/// `m` owns.
pub open spec fn spec_submesh_indices_ok(m: SwMesh, s: int) -> bool {
    let sub = m.submeshes@[s];
    forall|j: int, k: int|
        0 <= j < sub.index_buffer_length / 3 && 0 <= k < 3 ==> (#[trigger] m.triangles@[(
        sub.index_buffer_start / 3) + j].indices@[k]) < m.vertices@.len()
}

/// Whether every submesh of `m` can be turned into a geometry-model
/// mesh: aligned, in range, and with no vertex index out of bounds.
pub open spec fn spec_as_meshes_ok(m: SwMesh) -> bool {
    forall|s: int|
        #![trigger spec_submesh_range_ok(m, s)]
        #![trigger spec_submesh_indices_ok(m, s)]
        0 <= s < m.submeshes@.len() ==> spec_submesh_range_ok(m, s) && spec_submesh_indices_ok(
            m,
            s,
        )
}

/// Whether `out` is the geometry-model mesh of submesh `s` of `m`: its
/// triangles exploded into per-corner vertices in slice order, each
/// triangle `j` of the result being `[3j, 3j+1, 3j+2]`, glass exactly
/// when the submesh's material tag is 1.
pub open spec fn spec_submesh_mesh_matches(m: SwMesh, s: int, out: Mesh) -> bool {
    let sub = m.submeshes@[s];
    let count = sub.index_buffer_length / 3;
    &&& out.triangles@.len() == count
    &&& out.vertices@.len() == 3 * count
    &&& forall|j: int, k: int|
        0 <= j < count && 0 <= k < 3 ==> out.vertices@[3 * j + k] == (
        #[trigger] spec_submesh_corner(m, s, j, k))
    &&& forall|j: int, k: int|
        0 <= j < count && 0 <= k < 3 ==> (#[trigger] out.triangles@[j]@[k]) == 3 * j + k
    &&& out.material == (if sub.shader_id == 1 {
        MeshMaterial::Glass
    } else {
        MeshMaterial::Basic
    })
}

impl SwMeshColor4 {
    /// The same four channels as a geometry-model color; normalization to
    /// the 0..=1 range happens when buffers are uploaded.
    pub fn as_color4(&self) -> (r: Color4)
        ensures
            r == (Color4 { r: self.r, g: self.g, b: self.b, a: self.a }),
    {
        Color4 { r: self.r, g: self.g, b: self.b, a: self.a }
    }
}

impl SwMeshVertex {
    /// The geometry-model vertex this record converts to: position and
    /// normal move from the file's left-handed coordinates to
    /// right-handed ones by a z sign flip; the color is carried over.
    pub open spec fn spec_as_mesh_vertex(self) -> MeshVertex {
        MeshVertex {
            position: Vec3 {
                x: self.position.x,
                y: self.position.y,
                z: self.position.z ^ 0x8000_0000,
            },
            color: Color4 { r: self.color.r, g: self.color.g, b: self.color.b, a: self.color.a },
            normal: Vec3 { x: self.normal.x, y: self.normal.y, z: self.normal.z ^ 0x8000_0000 },
        }
    }

    /// Converts this file vertex to a geometry-model vertex.
    pub fn as_mesh_vertex(&self) -> (r: MeshVertex)
        ensures
            r == self.spec_as_mesh_vertex(),
    {
        MeshVertex {
            position: Vec3 {
                x: self.position.x,
                y: self.position.y,
                z: self.position.z ^ 0x8000_0000,
            },
            color: self.color.as_color4(),
            normal: Vec3 { x: self.normal.x, y: self.normal.y, z: self.normal.z ^ 0x8000_0000 },
        }
    }
}

impl SwMesh {
    /// Turns each submesh into one geometry-model mesh: the submesh's
    /// slice of the triangle list, exploded into three owned vertices per
    /// triangle, tagged glass when its material tag is 1.
    ///
    /// Returns `None` when any submesh slice is misaligned or out of
    /// range, or any referenced triangle names a vertex the file does not
    /// have — the render-time guard for malformed files, whose decode
    /// deliberately leaves vertex indices unchecked.
    pub fn as_meshes(&self) -> (r: Option<Vec<Mesh>>)
        ensures
            match r {
                Some(ms) => {
                    &&& spec_as_meshes_ok(*self)
                    &&& ms@.len() == self.submeshes@.len()
                    &&& forall|s: int|
                        0 <= s < ms@.len() ==> spec_submesh_mesh_matches(
                            *self,
                            s,
                            #[trigger] ms@[s],
                        ) && ms@[s].wf()
                },
                None => !spec_as_meshes_ok(*self),
            },
    {
        let mut out: Vec<Mesh> = Vec::new();
        let scount = self.submeshes.len();
        for s in 0..scount
            invariant
                scount == self.submeshes@.len(),
                out@.len() == s,
                forall|q: int| 0 <= q < s ==> #[trigger] spec_submesh_range_ok(*self, q),
                forall|q: int| 0 <= q < s ==> #[trigger] spec_submesh_indices_ok(*self, q),
                forall|q: int|
                    0 <= q < s ==> spec_submesh_mesh_matches(*self, q, #[trigger] out@[q])
                        && out@[q].wf(),
        {
            let sub_start = self.submeshes[s].index_buffer_start;
            let sub_len = self.submeshes[s].index_buffer_length;
            let shader_id = self.submeshes[s].shader_id;
            if sub_start % 3 != 0 || sub_len % 3 != 0 {
                proof {
                    assert(!spec_submesh_range_ok(*self, s as int));
                    assert(!spec_as_meshes_ok(*self));
                }
                return None;
            }
            let start = (sub_start / 3) as usize;
            let count = (sub_len / 3) as usize;
            if count > self.triangles.len() || start > self.triangles.len() - count {
                proof {
                    assert(!spec_submesh_range_ok(*self, s as int));
                    assert(!spec_as_meshes_ok(*self));
                }
                return None;
            }
            assert(spec_submesh_range_ok(*self, s as int));
            let mut vertices: Vec<MeshVertex> = Vec::new();
            let mut triangles: Vec<[usize; 3]> = Vec::new();
            for j in 0..count
                invariant
                    scount == self.submeshes@.len(),
                    s < scount,
                    sub_start == self.submeshes@[s as int].index_buffer_start,
                    sub_len == self.submeshes@[s as int].index_buffer_length,
                    start == sub_start / 3,
                    count == sub_len / 3,
                    start + count <= self.triangles@.len(),
                    vertices@.len() == 3 * j,
                    triangles@.len() == j,
                    forall|q: int, k: int|
                        0 <= q < j && 0 <= k < 3 ==> (#[trigger] self.triangles@[start
                            + q].indices@[k]) < self.vertices@.len(),
                    forall|q: int, k: int|
                        0 <= q < j && 0 <= k < 3 ==> vertices@[3 * q + k] == (
                        #[trigger] spec_submesh_corner(*self, s as int, q, k)),
                    forall|q: int, k: int|
                        0 <= q < j && 0 <= k < 3 ==> (#[trigger] triangles@[q]@[k]) == 3 * q + k,
            {
                let tri = self.triangles[start + j];
                let i0 = tri.indices[0] as usize;
                let i1 = tri.indices[1] as usize;
                let i2 = tri.indices[2] as usize;
                if i0 >= self.vertices.len() || i1 >= self.vertices.len() || i2
                    >= self.vertices.len() {
                    proof {
                        assert(start as int == self.submeshes@[s as int].index_buffer_start / 3);
                        assert(tri == self.triangles@[(self.submeshes@[s as int].index_buffer_start
                            / 3) + j]);
                        assert(!spec_as_meshes_ok(*self)) by {
                            if spec_as_meshes_ok(*self) {
                                assert(spec_submesh_range_ok(*self, s as int)
                                    && spec_submesh_indices_ok(*self, s as int));
                                assert(self.triangles@[(self.submeshes@[
                                s as int].index_buffer_start / 3) + j].indices@[0]
                                    < self.vertices@.len());
                                assert(self.triangles@[(self.submeshes@[
                                s as int].index_buffer_start / 3) + j].indices@[1]
                                    < self.vertices@.len());
                                assert(self.triangles@[(self.submeshes@[
                                s as int].index_buffer_start / 3) + j].indices@[2]
                                    < self.vertices@.len());
                                assert(false);
                            }
                        }
                    }
                    return None;
                }
                let v0 = self.vertices[i0].as_mesh_vertex();
                let v1 = self.vertices[i1].as_mesh_vertex();
                let v2 = self.vertices[i2].as_mesh_vertex();
                let ghost pre_v = vertices@;
                let ghost pre_t = triangles@;
                let base = vertices.len();
                vertices.push(v0);
                vertices.push(v1);
                vertices.push(v2);
                let new_len = vertices.len();
                assert(new_len == base + 3);
                let new_tri = [base, base + 1, base + 2];
                proof {
                    assert(new_tri@ == seq![base, (base + 1) as usize, (base + 2) as usize]);
                }
                triangles.push(new_tri);
                proof {
                    assert forall|q: int, k: int|
                        0 <= q < j + 1 && 0 <= k < 3 implies vertices@[3 * q + k] == (
                    #[trigger] spec_submesh_corner(*self, s as int, q, k)) by {
                        if q < j {
                            assert(3 * q + k < 3 * j);
                            assert(vertices@[3 * q + k] == pre_v[3 * q + k]);
                        } else {
                            assert(vertices@[3 * j] == v0);
                            assert(vertices@[3 * j + 1] == v1);
                            assert(vertices@[3 * j + 2] == v2);
                            assert(tri == self.triangles@[start + j]);
                        }
                    }
                    assert forall|q: int, k: int|
                        0 <= q < j + 1 && 0 <= k < 3 implies (#[trigger] triangles@[q]@[k]) == 3
                        * q + k by {
                        if q < j {
                            assert(triangles@[q] == pre_t[q]);
                        } else {
                            assert(triangles@[j as int] == new_tri);
                            if k == 0 {
                                assert(new_tri@[0] == base);
                            } else if k == 1 {
                                assert(new_tri@[1] == base + 1);
                            } else {
                                assert(new_tri@[2] == base + 2);
                            }
                        }
                    }
                }
            }
            assert forall|i: int, k: int|
                0 <= i < triangles@.len() && 0 <= k < 3 implies (#[trigger] triangles@[i]@[k])
                < vertices@.len() by {
                assert(triangles@[i]@[k] == 3 * i + k);
            }
            let mut mesh = Mesh::new(vertices, triangles);
            if shader_id == 1 {
                mesh.glass();
            }
            proof {
                assert(spec_submesh_indices_ok(*self, s as int));
            }
            let ghost pre_out = out@;
            out.push(mesh);
            proof {
                assert forall|q: int|
                    0 <= q < s + 1 implies #[trigger] spec_submesh_range_ok(*self, q) by {
                }
                assert forall|q: int|
                    0 <= q < s + 1 implies #[trigger] spec_submesh_indices_ok(*self, q) by {
                }
                assert forall|q: int|
                    0 <= q < s + 1 implies spec_submesh_mesh_matches(*self, q, #[trigger] out@[q])
                    && out@[q].wf() by {
                    if q < s {
                        assert(out@[q] == pre_out[q]);
                    } else {
                        assert(out@[s as int] == mesh);
                    }
                }
            }
        }
        Some(out)
    }
}


/// An index count that is not a multiple of three always stops the
/// decode with that fault, whatever the rest of the buffer holds: the
/// decoder reports it as a parse error and never panics.
pub proof fn lemma_index_count_not_multiple_fails(b: Seq<u8>)
    requires
        spec_magic(b) is Some,
        b.len() >= spec_verts_end(b) + 4,
        spec_index_count(b) % 3 != 0,
    ensures
        spec_decode_err(b) == Some(DecodeFault::BadIndexCount(spec_index_count(b))),
{
}

/// A submesh record whose start is off a triangle boundary, or not below
/// the index count, is rejected with the start fault — before anything
/// further of the record is even read.
pub proof fn lemma_submesh_bad_start(b: Seq<u8>, off: int, ic: u32)
    requires
        b.len() >= off + 4,
        le32(b, off) % 3 != 0 || le32(b, off) >= ic,
    ensures
        spec_submesh_scan(b, off, ic) == Err::<int, DecodeFault>(
            DecodeFault::BadSubmeshStart(le32(b, off)),
        ),
{
}

/// A submesh whose length is off a triangle boundary, or whose slice
/// runs past the index count, is rejected with the length fault.
pub proof fn lemma_submesh_bad_length(b: Seq<u8>, off: int, ic: u32)
    requires
        b.len() >= off + 8,
        le32(b, off) % 3 == 0,
        le32(b, off) < ic,
        le32(b, off + 4) % 3 != 0 || le32(b, off) + le32(b, off + 4) > ic,
    ensures
        spec_submesh_scan(b, off, ic) == Err::<int, DecodeFault>(
            DecodeFault::BadSubmeshLength(le32(b, off + 4)),
        ),
{
}

/// The boundary case is no fault: a complete submesh record whose slice
/// ends exactly at the index count scans through.
pub proof fn lemma_submesh_boundary_ok(b: Seq<u8>, off: int, ic: u32)
    requires
        b.len() >= off + 52 + le16(b, off + 38),
        le32(b, off) % 3 == 0,
        le32(b, off) < ic,
        le32(b, off + 4) % 3 == 0,
        le32(b, off) + le32(b, off + 4) == ic,
    ensures
        spec_submesh_scan(b, off, ic) == Ok::<int, DecodeFault>(off + 52 + le16(b, off + 38)),
{
}

/// A fault in the first submesh record is the whole decode's fault, once
/// the buffer is sound up to the submesh list.
pub proof fn lemma_first_submesh_fault_fails_decode(b: Seq<u8>, k: DecodeFault)
    requires
        spec_magic(b) is Some,
        b.len() >= spec_verts_end(b) + 4,
        spec_index_count(b) % 3 == 0,
        b.len() >= spec_tris_off(b) + 6 * spec_triangle_count(b),
        b.len() >= spec_subcount_off(b) + 2,
        spec_submesh_count(b) >= 1,
        spec_submesh_scan(b, spec_subs_off(b), spec_index_count(b)) == Err::<int, DecodeFault>(k),
    ensures
        spec_decode_err(b) == Some(k),
{
    lemma_submeshes_scan_snoc(
        b,
        spec_subs_off(b),
        0,
        spec_index_count(b),
        Seq::empty(),
        spec_subs_off(b),
    );
    lemma_submeshes_scan_err_mono(
        b,
        spec_subs_off(b),
        1,
        spec_submesh_count(b) as nat,
        spec_index_count(b),
        k,
    );
}

} // verus!
