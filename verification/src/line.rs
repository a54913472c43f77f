//! Line geometry: an owned, ordered list of colored vertices interpreted
//! as disjoint segments (pairs), with a stroke width. Positions are `f32`
//! bit patterns, as in the triangle model.

use crate::color4::Color4;
use crate::mesh::{spec_flip_z, Vec3};
use crate::shader_type::{DrawMode, GlConfig, ShaderAttributeData, ShaderType};
use vstd::prelude::*;

verus! {

/// One line vertex: position and color.
#[derive(Clone, Copy, Debug, PartialEq, Eq, Structural)]
pub struct LineVertex {
    pub position: Vec3,
    pub color: Color4,
}

impl LineVertex {
    /// A line vertex from a left-handed position: z is negated.
    pub fn from_vec3_lh(position: Vec3, color: Color4) -> (r: LineVertex)
        ensures
            r.position == spec_flip_z(position),
            r.color == color,
    {
        LineVertex { position: position.flip_z(), color }
    }
}

/// An owned list of line vertices, drawn as disjoint segments (each
/// consecutive pair is one segment), with a stroke width (`f32` bit
/// pattern).
#[derive(Clone, Debug)]
pub struct Line {
    pub vertices: Vec<LineVertex>,
    pub line_width: u32,
}

/// The point that follows point `i` in a polyline of `n` points: the
/// next one, or the first again after the last.
pub open spec fn spec_next_point(i: int, n: int) -> int {
    if i + 1 == n {
        0
    } else {
        i + 1
    }
}

/// Whether slots `2i` and `2i + 1` of `vs` hold segment `i` of a
/// single-colored polyline over `positions`: its two endpoints with z
/// negated, both in the polyline's color.
pub open spec fn spec_segment_vertices(
    vs: Seq<LineVertex>,
    positions: Seq<Vec3>,
    color: Color4,
    i: int,
) -> bool {
    &&& vs[2 * i].position == spec_flip_z(positions[i])
    &&& vs[2 * i].color == color
    &&& vs[2 * i + 1].position == spec_flip_z(
        positions[spec_next_point(i, positions.len() as int)],
    )
    &&& vs[2 * i + 1].color == color
}

/// The number of segments `single_color_lh` builds from `n` points: one
/// per point for a closed polyline, one per consecutive pair otherwise.
pub open spec fn spec_segment_count(n: int, is_loop: bool) -> int {
    if is_loop {
        n
    } else {
        n - 1
    }
}

impl Line {
    pub fn new(vertices: Vec<LineVertex>, line_width: u32) -> (l: Line)
        ensures
            l.vertices@ == vertices@,
            l.line_width == line_width,
    {
        Line { vertices, line_width }
    }

    /// Builds a single-colored polyline from left-handed positions: each
    /// segment `i` runs from point `i` to point `i + 1` (wrapping around
    /// to the first point when `is_loop` holds), and every position has
    /// its z negated. An open polyline needs at least one point.
    pub fn single_color_lh(positions: Vec<Vec3>, color: Color4, line_width: u32, is_loop: bool) -> (l:
        Line)
        requires
            is_loop || positions@.len() >= 1,
        ensures
            l.line_width == line_width,
            l.vertices@.len() == 2 * spec_segment_count(positions@.len() as int, is_loop),
            forall|i: int|
                0 <= i < spec_segment_count(positions@.len() as int, is_loop)
                    ==> #[trigger] spec_segment_vertices(l.vertices@, positions@, color, i),
    {
        let n = positions.len();
        let count = if is_loop {
            n
        } else {
            n - 1
        };
        let mut vertices: Vec<LineVertex> = Vec::new();
        for i in 0..count
            invariant
                n == positions@.len(),
                count == spec_segment_count(n as int, is_loop),
                count <= n,
                vertices@.len() == 2 * i,
                forall|q: int|
                    0 <= q < i ==> #[trigger] spec_segment_vertices(
                        vertices@,
                        positions@,
                        color,
                        q,
                    ),
        {
            let a = LineVertex::from_vec3_lh(positions[i], color);
            let next = if i + 1 == n {
                0
            } else {
                i + 1
            };
            assert(next as int == spec_next_point(i as int, n as int));
            let b = LineVertex::from_vec3_lh(positions[next], color);
            let ghost pre = vertices@;
            vertices.push(a);
            vertices.push(b);
            proof {
                assert forall|q: int| 0 <= q < i + 1 implies #[trigger] spec_segment_vertices(
                    vertices@,
                    positions@,
                    color,
                    q,
                ) by {
                    if q < i {
                        assert(spec_segment_vertices(pre, positions@, color, q));
                        assert(vertices@ == pre.push(a).push(b));
                        assert(2 * q + 1 < 2 * i);
                        assert(vertices@[2 * q] == pre[2 * q]);
                        assert(vertices@[2 * q + 1] == pre[2 * q + 1]);
                    } else {
                        assert(vertices@[2 * i] == a);
                        assert(vertices@[2 * i + 1] == b);
                    }
                }
            }
        }
        Line { vertices, line_width }
    }

    /// Flattens the line into attribute buffers: three position bit
    /// patterns and four color bytes per vertex, in order; a line has no
    /// normals.
    pub fn get_shader_attribute_data(&self) -> (r: ShaderAttributeData)
        ensures
            r.normals is None,
            match (r.positions, r.colors) {
                (Some(p), Some(c)) => {
                    &&& p@.len() == 3 * self.vertices@.len()
                    &&& c@.len() == 4 * self.vertices@.len()
                    &&& forall|i: int|
                        0 <= i < self.vertices@.len() ==> {
                            let v = #[trigger] self.vertices@[i];
                            &&& p@[3 * i] == v.position.x
                            &&& p@[3 * i + 1] == v.position.y
                            &&& p@[3 * i + 2] == v.position.z
                            &&& c@[4 * i] == v.color.r
                            &&& c@[4 * i + 1] == v.color.g
                            &&& c@[4 * i + 2] == v.color.b
                            &&& c@[4 * i + 3] == v.color.a
                        }
                },
                _ => false,
            },
    {
        let vcount = self.vertices.len();
        let mut positions: Vec<u32> = Vec::new();
        let mut colors: Vec<u8> = Vec::new();
        for i in 0..vcount
            invariant
                vcount == self.vertices@.len(),
                positions@.len() == 3 * i,
                colors@.len() == 4 * i,
                forall|q: int|
                    0 <= q < i ==> {
                        let v = #[trigger] self.vertices@[q];
                        &&& positions@[3 * q] == v.position.x
                        &&& positions@[3 * q + 1] == v.position.y
                        &&& positions@[3 * q + 2] == v.position.z
                        &&& colors@[4 * q] == v.color.r
                        &&& colors@[4 * q + 1] == v.color.g
                        &&& colors@[4 * q + 2] == v.color.b
                        &&& colors@[4 * q + 3] == v.color.a
                    },
        {
            let v = self.vertices[i];
            positions.push(v.position.x);
            positions.push(v.position.y);
            positions.push(v.position.z);
            colors.push(v.color.r);
            colors.push(v.color.g);
            colors.push(v.color.b);
            colors.push(v.color.a);
        }
        ShaderAttributeData { positions: Some(positions), colors: Some(colors), normals: None }
    }

    /// The draw configuration of a line: the line shader, drawn as a line
    /// list, with this line's stroke width.
    pub fn gl_config(&self) -> (c: GlConfig)
        ensures
            c.shader_type is Line,
            c.mode is Lines,
            c.line_width == Some(self.line_width),
    {
        GlConfig {
            shader_type: ShaderType::Line,
            mode: DrawMode::Lines,
            line_width: Some(self.line_width),
        }
    }
}

} // verus!
