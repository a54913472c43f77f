//! The renderer-agnostic triangle geometry model: a mesh owns its vertex
//! list and a list of triangles, each triangle three indices into that
//! owned list, and carries one material tag. Scalar coordinates are
//! `f32` bit patterns.

use crate::color4::Color4;
use crate::shader_type::{DrawMode, GlConfig, ShaderAttributeData, ShaderType};
use vstd::prelude::*;

verus! {

/// Three `f32` bit patterns: a position or direction vector.
#[derive(Clone, Copy, Debug, PartialEq, Eq, Structural)]
pub struct Vec3 {
    pub x: u32,
    pub y: u32,
    pub z: u32,
}

/// `v` with its z component negated: the left-handed to right-handed
/// coordinate conversion. Negating an IEEE-754 value flips its sign bit.
pub open spec fn spec_flip_z(v: Vec3) -> Vec3 {
    Vec3 { x: v.x, y: v.y, z: v.z ^ 0x8000_0000 }
}

impl Vec3 {
    /// This vector converted from a left-handed to a right-handed
    /// coordinate system by negating z.
    pub fn flip_z(&self) -> (r: Vec3)
        ensures
            r == spec_flip_z(*self),
    {
        Vec3 { x: self.x, y: self.y, z: self.z ^ 0x8000_0000 }
    }
}

/// One mesh vertex: position, color, normal.
#[derive(Clone, Copy, Debug, PartialEq, Eq, Structural)]
pub struct MeshVertex {
    pub position: Vec3,
    pub color: Color4,
    pub normal: Vec3,
}

/// The two mesh materials. `Glass` marks a mesh translucent.
#[derive(Clone, Copy, Debug, PartialEq, Eq, Structural)]
pub enum MeshMaterial {
    Basic,
    Glass,
}

impl MeshMaterial {
    /// The shader program that draws this material.
    pub fn shader_type(&self) -> (r: ShaderType)
        ensures
            r == (match *self {
                MeshMaterial::Basic => ShaderType::Basic,
                MeshMaterial::Glass => ShaderType::Glass,
            }),
    {
        match self {
            MeshMaterial::Basic => ShaderType::Basic,
            MeshMaterial::Glass => ShaderType::Glass,
        }
    }
}

/// A triangle mesh that owns its vertices. Each triangle is three indices
/// into the mesh's own vertex list; `wf()` states that they are in range,
/// every constructor establishes it, and every method preserves it.
#[derive(Clone, Debug)]
pub struct Mesh {
    pub vertices: Vec<MeshVertex>,
    pub triangles: Vec<[usize; 3]>,
    pub material: MeshMaterial,
}

impl Mesh {
    /// Every triangle index points into the owned vertex list.
    pub open spec fn wf(&self) -> bool {
        forall|i: int, k: int|
            0 <= i < self.triangles@.len() && 0 <= k < 3 ==> (#[trigger] self.triangles@[i]@[k])
                < self.vertices@.len()
    }

    /// Builds a mesh with the `Basic` material from vertices and
    /// triangles whose indices stay inside the vertex list.
    pub fn new(vertices: Vec<MeshVertex>, triangles: Vec<[usize; 3]>) -> (m: Mesh)
        requires
            forall|i: int, k: int|
                0 <= i < triangles@.len() && 0 <= k < 3 ==> (#[trigger] triangles@[i]@[k])
                    < vertices@.len(),
        ensures
            m.vertices@ == vertices@,
            m.triangles@ == triangles@,
            m.material is Basic,
            m.wf(),
    {
        Mesh { vertices, triangles, material: MeshMaterial::Basic }
    }

    /// Retags the mesh as glass. The geometry is untouched; this is the
    /// only mutation a mesh permits after construction.
    pub fn glass(&mut self)
        ensures
            final(self).vertices@ == old(self).vertices@,
            final(self).triangles@ == old(self).triangles@,
            final(self).material is Glass,
            old(self).wf() ==> final(self).wf(),
    {
        self.material = MeshMaterial::Glass;
    }

    /// The draw configuration of a mesh: its material's shader, drawn as
    /// a triangle list, with no line width.
    pub fn gl_config(&self) -> (c: GlConfig)
        ensures
            c.shader_type == (match self.material {
                MeshMaterial::Basic => ShaderType::Basic,
                MeshMaterial::Glass => ShaderType::Glass,
            }),
            c.mode is Triangles,
            c.line_width is None,
    {
        GlConfig { shader_type: self.material.shader_type(), mode: DrawMode::Triangles, line_width: None }
    }
}

/// The vertex that triangle `ti`'s corner `k` of `m` refers to.
pub open spec fn spec_corner_vertex(m: Mesh, ti: int, k: int) -> MeshVertex {
    m.vertices@[m.triangles@[ti]@[k] as int]
}

/// Whether the flattened buffers hold, at the slots of triangle `ti`'s
/// corner `k`, exactly that corner's vertex data: three position bit
/// patterns, four color bytes, three normal bit patterns.
pub open spec fn spec_flat_elem(m: Mesh, p: Seq<u32>, c: Seq<u8>, nr: Seq<u32>, ti: int, k: int) -> bool {
    let v = spec_corner_vertex(m, ti, k);
    &&& p[9 * ti + 3 * k] == v.position.x
    &&& p[9 * ti + 3 * k + 1] == v.position.y
    &&& p[9 * ti + 3 * k + 2] == v.position.z
    &&& c[12 * ti + 4 * k] == v.color.r
    &&& c[12 * ti + 4 * k + 1] == v.color.g
    &&& c[12 * ti + 4 * k + 2] == v.color.b
    &&& c[12 * ti + 4 * k + 3] == v.color.a
    &&& nr[9 * ti + 3 * k] == v.normal.x
    &&& nr[9 * ti + 3 * k + 1] == v.normal.y
    &&& nr[9 * ti + 3 * k + 2] == v.normal.z
}

/// Whether `p`, `c`, `nr` are the flattened attribute buffers of the
/// first `t` triangles of `m`, in exploded per-triangle-vertex order.
pub open spec fn spec_flat_elems_upto(m: Mesh, p: Seq<u32>, c: Seq<u8>, nr: Seq<u32>, t: int) -> bool {
    forall|ti: int, k: int|
        #![trigger m.triangles@[ti]@[k]]
        0 <= ti < t && 0 <= k < 3 ==> spec_flat_elem(m, p, c, nr, ti, k)
}

/// Whether `p`, `c`, `nr` are exactly the flattened attribute buffers of
/// all of `m`'s triangles: positions and normals carry nine bit patterns
/// per triangle, colors twelve bytes.
pub open spec fn spec_flat_data_matches(m: Mesh, p: Seq<u32>, c: Seq<u8>, nr: Seq<u32>) -> bool {
    &&& p.len() == 9 * m.triangles@.len()
    &&& c.len() == 12 * m.triangles@.len()
    &&& nr.len() == 9 * m.triangles@.len()
    &&& spec_flat_elems_upto(m, p, c, nr, m.triangles@.len() as int)
}

impl Mesh {
    /// Flattens the mesh into per-vertex attribute buffers in exploded
    /// per-triangle-vertex order: for each triangle, its three vertices'
    /// positions (3 bit patterns each), colors (4 bytes each) and normals
    /// (3 bit patterns each), with no index buffer reuse. All three
    /// buffers are present and cover the same vertices.
    pub fn get_shader_attribute_data(&self) -> (r: ShaderAttributeData)
        requires
            self.wf(),
        ensures
            match (r.positions, r.colors, r.normals) {
                (Some(p), Some(c), Some(nr)) => spec_flat_data_matches(*self, p@, c@, nr@),
                _ => false,
            },
    {
        let tcount = self.triangles.len();
        let mut positions: Vec<u32> = Vec::new();
        let mut colors: Vec<u8> = Vec::new();
        let mut normals: Vec<u32> = Vec::new();
        for ti in 0..tcount
            invariant
                self.wf(),
                tcount == self.triangles@.len(),
                positions@.len() == 9 * ti,
                colors@.len() == 12 * ti,
                normals@.len() == 9 * ti,
                spec_flat_elems_upto(*self, positions@, colors@, normals@, ti as int),
        {
            let tri = self.triangles[ti];
            assert(tri@[0] < self.vertices@.len());
            assert(tri@[1] < self.vertices@.len());
            assert(tri@[2] < self.vertices@.len());
            let v0 = self.vertices[tri[0]];
            let v1 = self.vertices[tri[1]];
            let v2 = self.vertices[tri[2]];
            positions.push(v0.position.x);
            positions.push(v0.position.y);
            positions.push(v0.position.z);
            positions.push(v1.position.x);
            positions.push(v1.position.y);
            positions.push(v1.position.z);
            positions.push(v2.position.x);
            positions.push(v2.position.y);
            positions.push(v2.position.z);
            colors.push(v0.color.r);
            colors.push(v0.color.g);
            colors.push(v0.color.b);
            colors.push(v0.color.a);
            colors.push(v1.color.r);
            colors.push(v1.color.g);
            colors.push(v1.color.b);
            colors.push(v1.color.a);
            colors.push(v2.color.r);
            colors.push(v2.color.g);
            colors.push(v2.color.b);
            colors.push(v2.color.a);
            normals.push(v0.normal.x);
            normals.push(v0.normal.y);
            normals.push(v0.normal.z);
            normals.push(v1.normal.x);
            normals.push(v1.normal.y);
            normals.push(v1.normal.z);
            normals.push(v2.normal.x);
            normals.push(v2.normal.y);
            normals.push(v2.normal.z);
            proof {
                assert forall|t2: int, k: int|
                    #![trigger self.triangles@[t2]@[k]]
                    0 <= t2 < ti + 1 && 0 <= k < 3 implies spec_flat_elem(
                    *self,
                    positions@,
                    colors@,
                    normals@,
                    t2,
                    k,
                ) by {
                    if t2 < ti {
                        assert(9 * t2 + 3 * k + 2 < 9 * ti);
                        assert(12 * t2 + 4 * k + 3 < 12 * ti);
                    } else {
                        assert(self.triangles@[t2] == tri);
                        if k == 0 {
                            assert(spec_corner_vertex(*self, t2, 0) == v0);
                        } else if k == 1 {
                            assert(spec_corner_vertex(*self, t2, 1) == v1);
                        } else {
                            assert(spec_corner_vertex(*self, t2, 2) == v2);
                        }
                    }
                }
            }
        }
        ShaderAttributeData {
            positions: Some(positions),
            colors: Some(colors),
            normals: Some(normals),
        }
    }
}

/// The number of triangles in the first `n` groups of `groups`: the
/// global triangle index at which group `n`'s triangles start.
pub open spec fn spec_group_tri_offset(groups: Seq<(Vec<[usize; 3]>, Color4)>, n: int) -> int
    decreases n,
{
    if n <= 0 {
        0
    } else {
        spec_group_tri_offset(groups, n - 1) + groups[n - 1].0@.len()
    }
}

/// The group triangle offsets grow with the group index.
proof fn lemma_group_tri_offset_mono(groups: Seq<(Vec<[usize; 3]>, Color4)>, a: int, b: int)
    requires
        0 <= a <= b,
    ensures
        spec_group_tri_offset(groups, a) <= spec_group_tri_offset(groups, b),
    decreases b,
{
    if a < b {
        lemma_group_tri_offset_mono(groups, a, b - 1);
    }
}

/// The vertex that a flat-shaded colored mesh holds for corner `k` of
/// triangle `j` of group `g`: the group's shared position pool entry,
/// converted to right-handed coordinates, with the group's color and the
/// triangle's face normal.
pub open spec fn spec_group_corner_vertex(
    positions: Seq<Vec3>,
    groups: Seq<(Vec<[usize; 3]>, Color4)>,
    normals: Seq<Vec3>,
    g: int,
    j: int,
    k: int,
) -> MeshVertex {
    MeshVertex {
        position: spec_flip_z(positions[groups[g].0@[j]@[k] as int]),
        color: groups[g].1,
        normal: normals[spec_group_tri_offset(groups, g) + j],
    }
}

impl Mesh {
    /// Builds one flat-shaded `Basic` mesh from a shared position pool
    /// and per-group colored triangle lists, converting every position
    /// from left-handed to right-handed coordinates by negating z.
    ///
    /// `normals` carries one face normal per triangle, in global order
    /// (the groups' triangle lists concatenated); the caller computes
    /// them from the converted corner positions. Each triangle's three
    /// vertices are duplicated rather than shared — every corner gets its
    /// own vertex carrying the triangle's normal — and triangle `t` of
    /// the result is `[3t, 3t+1, 3t+2]`.
    pub fn multiple_color_flat(
        positions: Vec<Vec3>,
        groups: Vec<(Vec<[usize; 3]>, Color4)>,
        normals: Vec<Vec3>,
    ) -> (m: Mesh)
        requires
            forall|g: int, j: int, k: int|
                0 <= g < groups@.len() && 0 <= j < groups@[g].0@.len() && 0 <= k < 3 ==> (
                #[trigger] groups@[g].0@[j]@[k]) < positions@.len(),
            normals@.len() == spec_group_tri_offset(groups@, groups@.len() as int),
        ensures
            m.wf(),
            m.material is Basic,
            m.triangles@.len() == spec_group_tri_offset(groups@, groups@.len() as int),
            m.vertices@.len() == 3 * m.triangles@.len(),
            forall|t: int, k: int|
                0 <= t < m.triangles@.len() && 0 <= k < 3 ==> (#[trigger] m.triangles@[t]@[k]) == 3
                    * t + k,
            forall|g: int, j: int, k: int|
                0 <= g < groups@.len() && 0 <= j < groups@[g].0@.len() && 0 <= k < 3
                    ==> m.vertices@[3 * (spec_group_tri_offset(groups@, g) + j) + k] == (
                #[trigger] spec_group_corner_vertex(positions@, groups@, normals@, g, j, k)),
    {
        let mut vertices: Vec<MeshVertex> = Vec::new();
        let mut triangles: Vec<[usize; 3]> = Vec::new();
        let ngroups = groups.len();
        for g in 0..ngroups
            invariant
                ngroups == groups@.len(),
                forall|q: int, j: int, k: int|
                    0 <= q < groups@.len() && 0 <= j < groups@[q].0@.len() && 0 <= k < 3 ==> (
                    #[trigger] groups@[q].0@[j]@[k]) < positions@.len(),
                normals@.len() == spec_group_tri_offset(groups@, groups@.len() as int),
                triangles@.len() == spec_group_tri_offset(groups@, g as int),
                vertices@.len() == 3 * triangles@.len(),
                forall|t: int, k: int|
                    0 <= t < triangles@.len() && 0 <= k < 3 ==> (#[trigger] triangles@[t]@[k]) == 3
                        * t + k,
                forall|q: int, j: int, k: int|
                    0 <= q < g && 0 <= j < groups@[q].0@.len() && 0 <= k < 3
                        ==> vertices@[3 * (spec_group_tri_offset(groups@, q) + j) + k] == (
                    #[trigger] spec_group_corner_vertex(positions@, groups@, normals@, q, j, k)),
        {
            let glen = groups[g].0.len();
            let color = groups[g].1;
            proof {
                assert forall|q: int| 0 <= q < g implies spec_group_tri_offset(groups@, q) + (
                #[trigger] groups@[q].0@.len()) <= spec_group_tri_offset(groups@, g as int) by {
                    lemma_group_tri_offset_mono(groups@, q + 1, g as int);
                }
                lemma_group_tri_offset_mono(groups@, g as int + 1, ngroups as int);
            }
            for j in 0..glen
                invariant
                    ngroups == groups@.len(),
                    g < ngroups,
                    glen == groups@[g as int].0@.len(),
                    color == groups@[g as int].1,
                    forall|q: int, jj: int, k: int|
                        0 <= q < groups@.len() && 0 <= jj < groups@[q].0@.len() && 0 <= k < 3 ==> (
                        #[trigger] groups@[q].0@[jj]@[k]) < positions@.len(),
                    normals@.len() == spec_group_tri_offset(groups@, groups@.len() as int),
                    spec_group_tri_offset(groups@, g as int) + glen <= normals@.len(),
                    forall|q: int|
                        0 <= q < g ==> spec_group_tri_offset(groups@, q) + (
                        #[trigger] groups@[q].0@.len()) <= spec_group_tri_offset(groups@, g as int),
                    triangles@.len() == spec_group_tri_offset(groups@, g as int) + j,
                    vertices@.len() == 3 * triangles@.len(),
                    forall|t: int, k: int|
                        0 <= t < triangles@.len() && 0 <= k < 3 ==> (#[trigger] triangles@[t]@[k])
                            == 3 * t + k,
                    forall|q: int, jj: int, k: int|
                        0 <= q < g && 0 <= jj < groups@[q].0@.len() && 0 <= k < 3
                            ==> vertices@[3 * (spec_group_tri_offset(groups@, q) + jj) + k] == (
                        #[trigger] spec_group_corner_vertex(positions@, groups@, normals@, q, jj, k)),
                    forall|jj: int, k: int|
                        #![trigger groups@[g as int].0@[jj]@[k]]
                        0 <= jj < j && 0 <= k < 3 ==> vertices@[3 * (spec_group_tri_offset(
                            groups@,
                            g as int,
                        ) + jj) + k] == spec_group_corner_vertex(
                            positions@,
                            groups@,
                            normals@,
                            g as int,
                            jj,
                            k,
                        ),
            {
                let tri = groups[g].0[j];
                let t = triangles.len();
                assert(t == spec_group_tri_offset(groups@, g as int) + j);
                assert(tri@[0] < positions@.len());
                assert(tri@[1] < positions@.len());
                assert(tri@[2] < positions@.len());
                let nrm = normals[t];
                let i0 = vertices.len();
                let p0 = positions[tri[0]].flip_z();
                let p1 = positions[tri[1]].flip_z();
                let p2 = positions[tri[2]].flip_z();
                vertices.push(MeshVertex { position: p0, color, normal: nrm });
                vertices.push(MeshVertex { position: p1, color, normal: nrm });
                vertices.push(MeshVertex { position: p2, color, normal: nrm });
                let new_len = vertices.len();
                assert(new_len == i0 + 3);
                let new_tri = [i0, i0 + 1, i0 + 2];
                proof {
                    assert(new_tri@ == seq![i0, (i0 + 1) as usize, (i0 + 2) as usize]);
                }
                triangles.push(new_tri);
                proof {
                    assert forall|jj: int, k: int|
                        #![trigger groups@[g as int].0@[jj]@[k]]
                        0 <= jj < j + 1 && 0 <= k < 3 implies vertices@[3 * (spec_group_tri_offset(
                        groups@,
                        g as int,
                    ) + jj) + k] == spec_group_corner_vertex(
                        positions@,
                        groups@,
                        normals@,
                        g as int,
                        jj,
                        k,
                    ) by {
                        lemma_group_tri_offset_mono(groups@, 0, g as int);
                        if jj < j {
                            assert(3 * (spec_group_tri_offset(groups@, g as int) + jj) + k < 3 * (
                            spec_group_tri_offset(groups@, g as int) + j));
                        } else {
                            assert(vertices@[3 * (spec_group_tri_offset(groups@, g as int) + j)]
                                == (MeshVertex { position: p0, color, normal: nrm }));
                            assert(vertices@[3 * (spec_group_tri_offset(groups@, g as int) + j) + 1]
                                == (MeshVertex { position: p1, color, normal: nrm }));
                            assert(vertices@[3 * (spec_group_tri_offset(groups@, g as int) + j) + 2]
                                == (MeshVertex { position: p2, color, normal: nrm }));
                            assert(tri == groups@[g as int].0@[j as int]);
                        }
                    }
                    assert forall|q: int, jj: int, k: int|
                        0 <= q < g && 0 <= jj < groups@[q].0@.len() && 0 <= k < 3 implies vertices@[
                        3 * (spec_group_tri_offset(groups@, q) + jj) + k] == (
                    #[trigger] spec_group_corner_vertex(positions@, groups@, normals@, q, jj, k)) by {
                        lemma_group_tri_offset_mono(groups@, 0, q);
                        assert(spec_group_tri_offset(groups@, q) + groups@[q].0@.len()
                            <= spec_group_tri_offset(groups@, g as int));
                        assert(3 * (spec_group_tri_offset(groups@, q) + jj) + k < 3 * (
                        spec_group_tri_offset(groups@, g as int) + j));
                    }
                    assert forall|t2: int, k: int|
                        0 <= t2 < triangles@.len() && 0 <= k < 3 implies (#[trigger] triangles@[
                        t2]@[k]) == 3 * t2 + k by {
                        if t2 == triangles@.len() - 1 {
                            assert(triangles@[t2] == new_tri);
                            assert(i0 == 3 * t2);
                        }
                    }
                }
            }
        }
        proof {
            lemma_group_tri_offset_mono(groups@, 0, ngroups as int);
        }
        Mesh { vertices, triangles, material: MeshMaterial::Basic }
    }
}

/// The number of vertices in the first `n` meshes of `ms`: the index
/// offset at which mesh `n`'s vertices land in the combined mesh.
pub open spec fn spec_vertex_offset(ms: Seq<Mesh>, n: int) -> int
    decreases n,
{
    if n <= 0 {
        0
    } else {
        spec_vertex_offset(ms, n - 1) + ms[n - 1].vertices@.len()
    }
}

/// The number of triangles in the first `n` meshes of `ms`.
pub open spec fn spec_triangle_offset(ms: Seq<Mesh>, n: int) -> int
    decreases n,
{
    if n <= 0 {
        0
    } else {
        spec_triangle_offset(ms, n - 1) + ms[n - 1].triangles@.len()
    }
}

/// The vertex and triangle offsets grow with the mesh index.
proof fn lemma_offsets_mono(ms: Seq<Mesh>, a: int, b: int)
    requires
        0 <= a <= b,
    ensures
        spec_vertex_offset(ms, a) <= spec_vertex_offset(ms, b),
        spec_triangle_offset(ms, a) <= spec_triangle_offset(ms, b),
    decreases b,
{
    if a < b {
        lemma_offsets_mono(ms, a, b - 1);
    }
}

/// Whether `m` is the concatenation of the meshes `ms`: the vertex
/// lists appended in order, and each source triangle re-based by the
/// number of vertices that precede its mesh, so source order, winding
/// and per-vertex data are all preserved.
pub open spec fn spec_combined_matches(ms: Seq<Mesh>, m: Mesh) -> bool {
    &&& m.vertices@.len() == spec_vertex_offset(ms, ms.len() as int)
    &&& m.triangles@.len() == spec_triangle_offset(ms, ms.len() as int)
    &&& forall|i: int, j: int|
        0 <= i < ms.len() && 0 <= j < ms[i].vertices@.len() ==> m.vertices@[spec_vertex_offset(
            ms,
            i,
        ) + j] == (#[trigger] ms[i].vertices@[j])
    &&& forall|i: int, j: int, k: int|
        0 <= i < ms.len() && 0 <= j < ms[i].triangles@.len() && 0 <= k < 3
            ==> m.triangles@[spec_triangle_offset(ms, i) + j]@[k] == (
        #[trigger] ms[i].triangles@[j]@[k]) + spec_vertex_offset(ms, i)
}

impl Mesh {
    /// Concatenates the meshes into one `Basic` mesh: vertex lists are
    /// appended in order, and each source triangle is re-based by the
    /// number of vertices that precede its mesh. Source order, winding
    /// and per-vertex data are preserved, so every index of the result is
    /// below the combined vertex count.
    pub fn combined(meshes: Vec<Mesh>) -> (m: Mesh)
        requires
            forall|i: int| 0 <= i < meshes@.len() ==> (#[trigger] meshes@[i]).wf(),
        ensures
            m.wf(),
            m.material is Basic,
            spec_combined_matches(meshes@, m),
    {
        let mut vertices: Vec<MeshVertex> = Vec::new();
        let mut triangles: Vec<[usize; 3]> = Vec::new();
        let n = meshes.len();
        for i in 0..n
            invariant
                n == meshes@.len(),
                forall|q: int| 0 <= q < meshes@.len() ==> (#[trigger] meshes@[q]).wf(),
                vertices@.len() == spec_vertex_offset(meshes@, i as int),
                triangles@.len() == spec_triangle_offset(meshes@, i as int),
                forall|q: int, j: int|
                    0 <= q < i && 0 <= j < meshes@[q].vertices@.len()
                        ==> vertices@[spec_vertex_offset(meshes@, q) + j] == (
                    #[trigger] meshes@[q].vertices@[j]),
                forall|q: int, j: int, k: int|
                    0 <= q < i && 0 <= j < meshes@[q].triangles@.len() && 0 <= k < 3
                        ==> triangles@[spec_triangle_offset(meshes@, q) + j]@[k] == (
                    #[trigger] meshes@[q].triangles@[j]@[k]) + spec_vertex_offset(meshes@, q),
                forall|t: int, k: int|
                    0 <= t < triangles@.len() && 0 <= k < 3 ==> (#[trigger] triangles@[t]@[k])
                        < vertices@.len(),
        {
            let offset = vertices.len();
            let vlen = meshes[i].vertices.len();
            proof {
                assert forall|q: int| 0 <= q < i implies spec_vertex_offset(meshes@, q)
                    + meshes@[q].vertices@.len() <= offset by {
                    lemma_offsets_mono(meshes@, q + 1, i as int);
                }
            }
            for j in 0..vlen
                invariant
                    n == meshes@.len(),
                    i < n,
                    vlen == meshes@[i as int].vertices@.len(),
                    offset == spec_vertex_offset(meshes@, i as int),
                    vertices@.len() == offset + j,
                    forall|q: int|
                        0 <= q < i ==> spec_vertex_offset(meshes@, q) + (
                        #[trigger] meshes@[q].vertices@.len()) <= offset,
                    forall|q: int, jj: int|
                        0 <= q < i && 0 <= jj < meshes@[q].vertices@.len()
                            ==> vertices@[spec_vertex_offset(meshes@, q) + jj] == (
                        #[trigger] meshes@[q].vertices@[jj]),
                    forall|jj: int|
                        0 <= jj < j ==> vertices@[offset + jj] == meshes@[i as int].vertices@[jj],
            {
                let v = meshes[i].vertices[j];
                vertices.push(v);
                proof {
                    assert forall|q: int, jj: int|
                        0 <= q < i && 0 <= jj < meshes@[q].vertices@.len() implies vertices@[
                        spec_vertex_offset(meshes@, q) + jj] == (
                    #[trigger] meshes@[q].vertices@[jj]) by {
                        lemma_offsets_mono(meshes@, 0, q);
                        assert(spec_vertex_offset(meshes@, q) + meshes@[q].vertices@.len()
                            <= offset);
                        assert(spec_vertex_offset(meshes@, q) + jj < offset + j);
                    }
                }
            }
            let tlen = meshes[i].triangles.len();
            proof {
                assert forall|q: int| 0 <= q < i implies spec_triangle_offset(meshes@, q)
                    + meshes@[q].triangles@.len() <= spec_triangle_offset(meshes@, i as int) by {
                    lemma_offsets_mono(meshes@, q + 1, i as int);
                }
            }
            for j in 0..tlen
                invariant
                    n == meshes@.len(),
                    i < n,
                    meshes@[i as int].wf(),
                    tlen == meshes@[i as int].triangles@.len(),
                    offset == spec_vertex_offset(meshes@, i as int),
                    vertices@.len() == offset + meshes@[i as int].vertices@.len(),
                    forall|q: int|
                        0 <= q < i ==> spec_triangle_offset(meshes@, q) + (
                        #[trigger] meshes@[q].triangles@.len()) <= spec_triangle_offset(
                            meshes@,
                            i as int,
                        ),
                    forall|q: int, jj: int, k: int|
                        0 <= q < i && 0 <= jj < meshes@[q].triangles@.len() && 0 <= k < 3
                            ==> triangles@[spec_triangle_offset(meshes@, q) + jj]@[k] == (
                        #[trigger] meshes@[q].triangles@[jj]@[k]) + spec_vertex_offset(meshes@, q),
                    triangles@.len() == spec_triangle_offset(meshes@, i as int) + j,
                    forall|jj: int, k: int|
                        #![trigger meshes@[i as int].triangles@[jj]@[k]]
                        0 <= jj < j && 0 <= k < 3 ==> triangles@[spec_triangle_offset(
                            meshes@,
                            i as int,
                        ) + jj]@[k] == meshes@[i as int].triangles@[jj]@[k] + offset,
                    forall|t: int, k: int|
                        0 <= t < triangles@.len() && 0 <= k < 3 ==> (#[trigger] triangles@[t]@[k])
                            < vertices@.len(),
            {
                let t = meshes[i].triangles[j];
                let cur_len = vertices.len();
                assert(t@[0] < meshes@[i as int].vertices@.len());
                assert(t@[1] < meshes@[i as int].vertices@.len());
                assert(t@[2] < meshes@[i as int].vertices@.len());
                assert(offset + meshes@[i as int].vertices@.len() == cur_len);
                let shifted = [t[0] + offset, t[1] + offset, t[2] + offset];
                proof {
                    assert(shifted@ == seq![
                        (t@[0] + offset) as usize,
                        (t@[1] + offset) as usize,
                        (t@[2] + offset) as usize,
                    ]);
                }
                triangles.push(shifted);
                proof {
                    assert forall|q: int, jj: int, k: int|
                        0 <= q < i && 0 <= jj < meshes@[q].triangles@.len() && 0 <= k < 3 implies
                        triangles@[spec_triangle_offset(meshes@, q) + jj]@[k] == (
                    #[trigger] meshes@[q].triangles@[jj]@[k]) + spec_vertex_offset(meshes@, q) by {
                        lemma_offsets_mono(meshes@, 0, q);
                        assert(spec_triangle_offset(meshes@, q) + meshes@[q].triangles@.len()
                            <= spec_triangle_offset(meshes@, i as int));
                        assert(spec_triangle_offset(meshes@, q) + jj < spec_triangle_offset(
                            meshes@,
                            i as int,
                        ) + j);
                    }
                    assert forall|jj: int, k: int|
                        #![trigger meshes@[i as int].triangles@[jj]@[k]]
                        0 <= jj < j + 1 && 0 <= k < 3 implies triangles@[spec_triangle_offset(
                        meshes@,
                        i as int,
                    ) + jj]@[k] == meshes@[i as int].triangles@[jj]@[k] + offset by {
                        lemma_offsets_mono(meshes@, 0, i as int);
                        if jj < j {
                            assert(spec_triangle_offset(meshes@, i as int) + jj < spec_triangle_offset(
                                meshes@,
                                i as int,
                            ) + j);
                        } else {
                            assert(triangles@[spec_triangle_offset(meshes@, i as int) + j]
                                == shifted);
                            if k == 0 {
                                assert(shifted@[0] == t@[0] + offset);
                            } else if k == 1 {
                                assert(shifted@[1] == t@[1] + offset);
                            } else {
                                assert(shifted@[2] == t@[2] + offset);
                            }
                        }
                    }
                }
            }
        }
        Mesh { vertices, triangles, material: MeshMaterial::Basic }
    }
}


/// Drawing a combined mesh equals drawing its two parts one after the
/// other: the flattened attribute buffers of the combination of `a` and
/// `b` are exactly the concatenations of `a`'s and `b`'s buffers, in
/// that order.
pub proof fn lemma_combined_flat_data_two(
    a: Mesh,
    b: Mesh,
    m: Mesh,
    pa: Seq<u32>,
    ca: Seq<u8>,
    na: Seq<u32>,
    pb: Seq<u32>,
    cb: Seq<u8>,
    nb: Seq<u32>,
    pm: Seq<u32>,
    cm: Seq<u8>,
    nm: Seq<u32>,
)
    requires
        a.wf(),
        b.wf(),
        spec_combined_matches(seq![a, b], m),
        spec_flat_data_matches(a, pa, ca, na),
        spec_flat_data_matches(b, pb, cb, nb),
        spec_flat_data_matches(m, pm, cm, nm),
    ensures
        pm == pa + pb,
        cm == ca + cb,
        nm == na + nb,
{
    let ms = seq![a, b];
    let ta = a.triangles@.len() as int;
    let tb = b.triangles@.len() as int;
    assert(spec_triangle_offset(ms, 0) == 0);
    assert(spec_vertex_offset(ms, 0) == 0);
    assert(spec_triangle_offset(ms, 1) == ta);
    assert(spec_triangle_offset(ms, 2) == ta + tb);
    assert(spec_vertex_offset(ms, 1) == a.vertices@.len());
    assert(m.triangles@.len() == ta + tb);
    assert forall|t: int, k: int| 0 <= t < ta + tb && 0 <= k < 3 implies spec_corner_vertex(m, t, k)
        == (if t < ta {
        spec_corner_vertex(a, t, k)
    } else {
        spec_corner_vertex(b, t - ta, k)
    }) by {
        if t < ta {
            assert(m.triangles@[spec_triangle_offset(ms, 0) + t]@[k] == ms[0].triangles@[t]@[k]
                + spec_vertex_offset(ms, 0));
            let vi = ms[0].triangles@[t]@[k];
            assert(vi < ms[0].vertices@.len());
            assert(m.vertices@[spec_vertex_offset(ms, 0) + vi] == ms[0].vertices@[vi as int]);
        } else {
            let t2 = t - ta;
            assert(m.triangles@[spec_triangle_offset(ms, 1) + t2]@[k] == ms[1].triangles@[t2]@[k]
                + spec_vertex_offset(ms, 1));
            let vi = ms[1].triangles@[t2]@[k];
            assert(vi < ms[1].vertices@.len());
            assert(m.vertices@[spec_vertex_offset(ms, 1) + vi] == ms[1].vertices@[vi as int]);
        }
    }
    assert forall|idx: int| 0 <= idx < pm.len() implies pm[idx] == (pa + pb)[idx] && nm[idx] == (na
        + nb)[idx] by {
        let t = idx / 9;
        let r = idx % 9;
        let k = r / 3;
        let c = r % 3;
        vstd::arithmetic::div_mod::lemma_fundamental_div_mod(idx, 9);
        vstd::arithmetic::div_mod::lemma_mod_bound(idx, 9);
        vstd::arithmetic::div_mod::lemma_fundamental_div_mod(r, 3);
        vstd::arithmetic::div_mod::lemma_mod_bound(r, 3);
        assert(idx == 9 * t + 3 * k + c);
        assert(0 <= c < 3 && 0 <= k < 3);
        assert(0 <= t < ta + tb) by {
            assert(9 * t <= idx < 9 * (ta + tb));
        }
        // mention the corner term so the element facts trigger
        let _ = m.triangles@[t]@[k];
        assert(spec_flat_elem(m, pm, cm, nm, t, k));
        let v = spec_corner_vertex(m, t, k);
        if t < ta {
            assert(idx < 9 * ta) by {
                assert(9 * t + 9 <= 9 * ta);
            }
            assert((pa + pb)[idx] == pa[idx]);
            assert((na + nb)[idx] == na[idx]);
            let _ = a.triangles@[t]@[k];
            assert(spec_flat_elem(a, pa, ca, na, t, k));
            assert(v == spec_corner_vertex(a, t, k));
        } else {
            let t2 = t - ta;
            assert(idx - 9 * ta == 9 * t2 + 3 * k + c);
            assert(idx >= 9 * ta) by {
                assert(9 * t >= 9 * ta);
            }
            assert((pa + pb)[idx] == pb[idx - 9 * ta]);
            assert((na + nb)[idx] == nb[idx - 9 * ta]);
            let _ = b.triangles@[t2]@[k];
            assert(spec_flat_elem(b, pb, cb, nb, t2, k));
            assert(v == spec_corner_vertex(b, t2, k));
        }
    }
    assert(pm =~= pa + pb);
    assert(nm =~= na + nb);
    assert forall|idx: int| 0 <= idx < cm.len() implies cm[idx] == (ca + cb)[idx] by {
        let t = idx / 12;
        let r = idx % 12;
        let k = r / 4;
        let c = r % 4;
        vstd::arithmetic::div_mod::lemma_fundamental_div_mod(idx, 12);
        vstd::arithmetic::div_mod::lemma_mod_bound(idx, 12);
        vstd::arithmetic::div_mod::lemma_fundamental_div_mod(r, 4);
        vstd::arithmetic::div_mod::lemma_mod_bound(r, 4);
        assert(idx == 12 * t + 4 * k + c);
        assert(0 <= c < 4 && 0 <= k < 3);
        assert(0 <= t < ta + tb) by {
            assert(12 * t <= idx < 12 * (ta + tb));
        }
        let _ = m.triangles@[t]@[k];
        assert(spec_flat_elem(m, pm, cm, nm, t, k));
        let v = spec_corner_vertex(m, t, k);
        if t < ta {
            assert(idx < 12 * ta) by {
                assert(12 * t + 12 <= 12 * ta);
            }
            assert((ca + cb)[idx] == ca[idx]);
            let _ = a.triangles@[t]@[k];
            assert(spec_flat_elem(a, pa, ca, na, t, k));
            assert(v == spec_corner_vertex(a, t, k));
        } else {
            let t2 = t - ta;
            assert(idx - 12 * ta == 12 * t2 + 4 * k + c);
            assert(idx >= 12 * ta) by {
                assert(12 * t >= 12 * ta);
            }
            assert((ca + cb)[idx] == cb[idx - 12 * ta]);
            let _ = b.triangles@[t2]@[k];
            assert(spec_flat_elem(b, pb, cb, nb, t2, k));
            assert(v == spec_corner_vertex(b, t2, k));
        }
    }
    assert(cm =~= ca + cb);
}

} // verus!
