//! The shader programs the renderer distinguishes, the per-object draw
//! configuration, and the flattened attribute buffers handed to the
//! graphics device.

use vstd::prelude::*;

verus! {

/// Which shader program an object is drawn with. `Glass` is the one
/// translucent program: its objects are drawn after all others, sorted
/// back to front.
#[derive(Clone, Copy, Debug, PartialEq, Eq, Structural)]
pub enum ShaderType {
    Basic,
    Glass,
    Line,
}

impl ShaderType {
    /// Whether objects of this shader are translucent and therefore take
    /// part in the back-to-front draw order.
    pub fn is_translucent(self) -> (r: bool)
        ensures
            r == (self is Glass),
    {
        self == ShaderType::Glass
    }
}

/// The primitive kind a vertex buffer is drawn as.
#[derive(Clone, Copy, Debug, PartialEq, Eq, Structural)]
pub enum DrawMode {
    Triangles,
    Lines,
}

/// Per-object draw configuration: shader, primitive mode, and for line
/// objects the stroke width (an `f32` bit pattern).
#[derive(Clone, Copy, Debug, PartialEq, Eq, Structural)]
pub struct GlConfig {
    pub shader_type: ShaderType,
    pub mode: DrawMode,
    pub line_width: Option<u32>,
}

/// Flattened per-vertex attribute buffers in exploded per-triangle-vertex
/// order: positions and normals carry three `f32` bit patterns per vertex,
/// colors four bytes per vertex. A buffer is `None` when the shader has no
/// such attribute.
#[derive(Clone, Debug)]
pub struct ShaderAttributeData {
    pub positions: Option<Vec<u32>>,
    pub colors: Option<Vec<u8>>,
    pub normals: Option<Vec<u32>>,
}

impl ShaderAttributeData {
    /// The length of the first present buffer: positions, else colors,
    /// else normals.
    pub open spec fn spec_vertex_count(&self) -> Option<nat> {
        match self.positions {
            Some(p) => Some(p@.len()),
            None => match self.colors {
                Some(c) => Some(c@.len()),
                None => match self.normals {
                    Some(n) => Some(n@.len()),
                    None => None,
                },
            },
        }
    }

    /// The raw length of the first present attribute buffer, `None` when
    /// no buffer is present.
    pub fn vertex_count(&self) -> (r: Option<usize>)
        ensures
            match r {
                Some(n) => self.spec_vertex_count() == Some(n as nat),
                None => self.spec_vertex_count() is None,
            },
    {
        match &self.positions {
            Some(p) => Some(p.len()),
            None => match &self.colors {
                Some(c) => Some(c.len()),
                None => match &self.normals {
                    Some(n) => Some(n.len()),
                    None => None,
                },
            },
        }
    }
}

} // verus!
