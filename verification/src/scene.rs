//! The scene: an ordered, mutable list of placed objects with a dirty
//! flag, and the paint handshake that hands each change to the renderer
//! exactly once.

use crate::line::Line;
use crate::mesh::Mesh;
use crate::shader_type::{GlConfig, ShaderAttributeData};
use vstd::prelude::*;

verus! {

/// A 4x4 transform matrix in column-major order, each entry an `f32` bit
/// pattern.
#[derive(Clone, Copy, Debug, PartialEq, Eq)]
pub struct Mat4 {
    pub m: [u32; 16],
}

/// The column-major entries of the identity matrix: ones (bit pattern
/// `0x3F80_0000`) on the diagonal, zeros elsewhere.
pub open spec fn spec_identity_mat4() -> Seq<u32> {
    seq![
        0x3F80_0000u32,
        0u32,
        0u32,
        0u32,
        0u32,
        0x3F80_0000u32,
        0u32,
        0u32,
        0u32,
        0u32,
        0x3F80_0000u32,
        0u32,
        0u32,
        0u32,
        0u32,
        0x3F80_0000u32,
    ]
}

impl Mat4 {
    /// The identity transform.
    pub fn identity() -> (r: Mat4)
        ensures
            r.m@ == spec_identity_mat4(),
    {
        let r = Mat4 {
            m: [
                0x3F80_0000,
                0,
                0,
                0,
                0,
                0x3F80_0000,
                0,
                0,
                0,
                0,
                0x3F80_0000,
                0,
                0,
                0,
                0,
                0x3F80_0000,
            ],
        };
        proof {
            assert(r.m@ =~= spec_identity_mat4());
        }
        r
    }
}

/// The drawable payload of a scene object: the closed set of geometry
/// kinds the renderer knows how to draw.
#[derive(Clone, Debug)]
pub enum SceneObjectContent {
    Mesh(Mesh),
    Line(Line),
}

/// One placed object: an owned geometry payload and its world transform.
#[derive(Clone, Debug)]
pub struct SceneObject {
    pub content: SceneObjectContent,
    pub transform_matrix: Mat4,
}

impl SceneObject {
    /// A mesh content's triangles stay inside its vertex list; a line has
    /// nothing to check.
    pub open spec fn wf(&self) -> bool {
        match self.content {
            SceneObjectContent::Mesh(m) => m.wf(),
            SceneObjectContent::Line(_) => true,
        }
    }

    /// Wraps a mesh as a scene object; a missing transform means the
    /// identity.
    pub fn from_mesh(mesh: Mesh, transform_matrix: Option<Mat4>) -> (o: SceneObject)
        ensures
            o.content == SceneObjectContent::Mesh(mesh),
            match transform_matrix {
                Some(t) => o.transform_matrix == t,
                None => o.transform_matrix.m@ == spec_identity_mat4(),
            },
            mesh.wf() ==> o.wf(),
    {
        SceneObject {
            content: SceneObjectContent::Mesh(mesh),
            transform_matrix: match transform_matrix {
                Some(t) => t,
                None => Mat4::identity(),
            },
        }
    }

    /// Wraps a line as a scene object; a missing transform means the
    /// identity.
    pub fn from_line(line: Line, transform_matrix: Option<Mat4>) -> (o: SceneObject)
        ensures
            o.content == SceneObjectContent::Line(line),
            match transform_matrix {
                Some(t) => o.transform_matrix == t,
                None => o.transform_matrix.m@ == spec_identity_mat4(),
            },
            o.wf(),
    {
        SceneObject {
            content: SceneObjectContent::Line(line),
            transform_matrix: match transform_matrix {
                Some(t) => t,
                None => Mat4::identity(),
            },
        }
    }

    pub fn transform_matrix(&self) -> (r: &Mat4)
        ensures
            *r == self.transform_matrix,
    {
        &self.transform_matrix
    }

    /// The draw configuration of the object's payload.
    pub fn gl_config(&self) -> (c: GlConfig)
        ensures
            match self.content {
                SceneObjectContent::Mesh(m) => c.shader_type == (match m.material {
                    crate::mesh::MeshMaterial::Basic => crate::shader_type::ShaderType::Basic,
                    crate::mesh::MeshMaterial::Glass => crate::shader_type::ShaderType::Glass,
                }) && c.mode is Triangles && c.line_width is None,
                SceneObjectContent::Line(l) => c.shader_type is Line && c.mode is Lines
                    && c.line_width == Some(l.line_width),
            },
    {
        match &self.content {
            SceneObjectContent::Mesh(m) => m.gl_config(),
            SceneObjectContent::Line(l) => l.gl_config(),
        }
    }

    /// The flattened attribute buffers of the object's payload.
    pub fn get_shader_attribute_data(&self) -> (r: ShaderAttributeData)
        requires
            self.wf(),
        ensures
            match self.content {
                SceneObjectContent::Mesh(m) => match (r.positions, r.colors, r.normals) {
                    (Some(p), Some(c), Some(nr)) => crate::mesh::spec_flat_data_matches(
                        m,
                        p@,
                        c@,
                        nr@,
                    ),
                    _ => false,
                },
                SceneObjectContent::Line(_) => r.normals is None && r.positions is Some
                    && r.colors is Some,
            },
    {
        match &self.content {
            SceneObjectContent::Mesh(m) => m.get_shader_attribute_data(),
            SceneObjectContent::Line(l) => l.get_shader_attribute_data(),
        }
    }
}

/// An ordered list of scene objects plus a dirty flag. The flag is set by
/// every structural mutation (`add_object`, `clear`) and cleared exactly
/// once by the `paint` handshake, so a renderer re-uploads its buffers at
/// most once per actual change.
#[derive(Debug)]
pub struct Scene {
    pub objects: Vec<SceneObject>,
    pub is_changed: bool,
}

impl Scene {
    /// The scene's mathematical state.
    pub open spec fn model(&self) -> SceneModel {
        SceneModel { objects: self.objects@, is_changed: self.is_changed }
    }
}

/// The mathematical state of a scene: the object list and the dirty
/// flag.
pub ghost struct SceneModel {
    pub objects: Seq<SceneObject>,
    pub is_changed: bool,
}

/// What `Scene::paint` does: it reports the dirty flag and clears it,
/// leaving the objects untouched.
pub open spec fn spec_paint(s: SceneModel) -> (bool, SceneModel) {
    (s.is_changed, SceneModel { is_changed: false, ..s })
}

/// What `Scene::add_object` does: it appends the object and sets the
/// dirty flag.
pub open spec fn spec_add_object(s: SceneModel, o: SceneObject) -> SceneModel {
    SceneModel { objects: s.objects.push(o), is_changed: true }
}

/// What `Scene::clear` does: it empties the object list and sets the
/// dirty flag.
pub open spec fn spec_clear(s: SceneModel) -> SceneModel {
    SceneModel { objects: Seq::empty(), is_changed: true }
}

impl Default for Scene {
    /// An empty scene with nothing to paint.
    fn default() -> (s: Scene)
        ensures
            s.objects@.len() == 0,
            !s.is_changed,
    {
        Scene { objects: Vec::new(), is_changed: false }
    }
}

impl Scene {
    /// The paint handshake: hands the scene to the caller exactly once
    /// per change. Right after a mutation it returns `Some` of the scene
    /// and clears the flag; with no change to consume it returns `None`.
    pub fn paint(&mut self) -> (r: Option<&Scene>)
        ensures
            r is Some <==> old(self).is_changed,
            (r is Some) == spec_paint(old(self).model()).0,
            r matches Some(s) ==> s.objects@ == old(self).objects@,
            final(self).objects@ == old(self).objects@,
            !final(self).is_changed,
            final(self).model() == spec_paint(old(self).model()).1,
    {
        if self.is_changed {
            self.is_changed = false;
            Some(self)
        } else {
            None
        }
    }

    /// Appends an object and marks the scene changed.
    pub fn add_object(&mut self, object: SceneObject)
        ensures
            final(self).objects@ == old(self).objects@.push(object),
            final(self).is_changed,
            final(self).model() == spec_add_object(old(self).model(), object),
    {
        self.objects.push(object);
        self.is_changed = true;
    }

    /// Empties the scene and marks it changed.
    pub fn clear(&mut self)
        ensures
            final(self).objects@.len() == 0,
            final(self).is_changed,
            final(self).model() == spec_clear(old(self).model()),
    {
        self.objects.clear();
        self.is_changed = true;
    }

    pub fn objects(&self) -> (r: &Vec<SceneObject>)
        ensures
            r@ == self.objects@,
    {
        &self.objects
    }
}

/// The paint handshake hands each change to its consumer exactly once:
/// right after a mutation (`add_object` or `clear`), `paint` reports the
/// change, and a second `paint` with no mutation in between reports
/// none — and no `paint` ever alters the objects.
pub proof fn lemma_paint_exactly_once(s: SceneModel, o: SceneObject)
    ensures
        spec_paint(spec_add_object(s, o)).0,
        spec_paint(spec_clear(s)).0,
        !spec_paint(spec_paint(spec_add_object(s, o)).1).0,
        !spec_paint(spec_paint(spec_clear(s)).1).0,
        spec_paint(s).1.objects == s.objects,
        spec_paint(spec_paint(s).1).1.objects == s.objects,
{
}

} // verus!
