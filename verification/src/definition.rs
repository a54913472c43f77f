//! Block definitions name up to five companion mesh files. This module
//! holds the keys those slots are known by, the selection rule that says
//! which slots are actually loaded, and the error type definition loading
//! reports.
//!
//! Reading the XML file and the mesh files themselves is I/O and stays
//! with the host; it hands the attribute values in and takes the list of
//! files to load back.

use vstd::prelude::*;

verus! {

/// Errors a block definition can report: the file could not be read, its
/// XML could not be deserialized, or its root element is not a
/// definition.
#[derive(Clone, Debug)]
pub enum SwBlockDefinitionDataError {
    IoError(String),
    DeError(String),
    XmlError(String),
}

/// The five mesh-file slots of a block definition.
#[derive(Clone, Copy, Debug, PartialEq, Eq, Structural, Hash, PartialOrd, Ord)]
pub enum SwBlockDefinitionMeshKey {
    MeshData,
    Mesh0,
    Mesh1,
    Mesh2,
    MeshEditorOnly,
}

impl SwBlockDefinitionMeshKey {
    /// The XML attribute that names this slot's mesh file.
    pub fn xml_name(&self) -> (r: &str)
        ensures
            r@ == (match *self {
                SwBlockDefinitionMeshKey::MeshData => "mesh_data_name"@,
                SwBlockDefinitionMeshKey::Mesh0 => "mesh_0_name"@,
                SwBlockDefinitionMeshKey::Mesh1 => "mesh_1_name"@,
                SwBlockDefinitionMeshKey::Mesh2 => "mesh_2_name"@,
                SwBlockDefinitionMeshKey::MeshEditorOnly => "mesh_editor_only_name"@,
            }),
    {
        match self {
            SwBlockDefinitionMeshKey::MeshData => "mesh_data_name",
            SwBlockDefinitionMeshKey::Mesh0 => "mesh_0_name",
            SwBlockDefinitionMeshKey::Mesh1 => "mesh_1_name",
            SwBlockDefinitionMeshKey::Mesh2 => "mesh_2_name",
            SwBlockDefinitionMeshKey::MeshEditorOnly => "mesh_editor_only_name",
        }
    }
}

/// Whether a mesh-file slot holds a name worth loading: present and not
/// empty.
pub open spec fn spec_wanted(n: Option<String>) -> bool {
    match n {
        Some(s) => s@.len() != 0,
        None => false,
    }
}

/// The load-list entry a slot contributes: its key and file name when
/// wanted, nothing otherwise.
pub open spec fn spec_slot_entry(key: SwBlockDefinitionMeshKey, n: Option<String>) -> Seq<
    (SwBlockDefinitionMeshKey, String),
> {
    match n {
        Some(s) => if s@.len() != 0 {
            seq![(key, s)]
        } else {
            Seq::empty()
        },
        None => Seq::empty(),
    }
}

/// The mesh files a definition asks to have loaded: one entry per slot
/// whose attribute is present and non-empty, in the fixed slot order
/// (mesh data, mesh 0, mesh 1, mesh 2, editor-only mesh).
pub fn mesh_names_to_load(
    mesh_data_name: Option<String>,
    mesh_0_name: Option<String>,
    mesh_1_name: Option<String>,
    mesh_2_name: Option<String>,
    mesh_editor_only_name: Option<String>,
) -> (r: Vec<(SwBlockDefinitionMeshKey, String)>)
    ensures
        r@ == spec_slot_entry(SwBlockDefinitionMeshKey::MeshData, mesh_data_name) + spec_slot_entry(
            SwBlockDefinitionMeshKey::Mesh0,
            mesh_0_name,
        ) + spec_slot_entry(SwBlockDefinitionMeshKey::Mesh1, mesh_1_name) + spec_slot_entry(
            SwBlockDefinitionMeshKey::Mesh2,
            mesh_2_name,
        ) + spec_slot_entry(SwBlockDefinitionMeshKey::MeshEditorOnly, mesh_editor_only_name),
{
    let mut r: Vec<(SwBlockDefinitionMeshKey, String)> = Vec::new();
    let ghost e1 = spec_slot_entry(SwBlockDefinitionMeshKey::MeshData, mesh_data_name);
    let ghost e2 = spec_slot_entry(SwBlockDefinitionMeshKey::Mesh0, mesh_0_name);
    let ghost e3 = spec_slot_entry(SwBlockDefinitionMeshKey::Mesh1, mesh_1_name);
    let ghost e4 = spec_slot_entry(SwBlockDefinitionMeshKey::Mesh2, mesh_2_name);
    let ghost e5 = spec_slot_entry(SwBlockDefinitionMeshKey::MeshEditorOnly, mesh_editor_only_name);
    if let Some(n) = mesh_data_name {
        if n.as_str().unicode_len() != 0 {
            r.push((SwBlockDefinitionMeshKey::MeshData, n));
        }
    }
    proof {
        assert(r@ =~= e1);
    }
    if let Some(n) = mesh_0_name {
        if n.as_str().unicode_len() != 0 {
            r.push((SwBlockDefinitionMeshKey::Mesh0, n));
        }
    }
    proof {
        assert(r@ =~= e1 + e2);
    }
    if let Some(n) = mesh_1_name {
        if n.as_str().unicode_len() != 0 {
            r.push((SwBlockDefinitionMeshKey::Mesh1, n));
        }
    }
    proof {
        assert(r@ =~= e1 + e2 + e3);
    }
    if let Some(n) = mesh_2_name {
        if n.as_str().unicode_len() != 0 {
            r.push((SwBlockDefinitionMeshKey::Mesh2, n));
        }
    }
    proof {
        assert(r@ =~= e1 + e2 + e3 + e4);
    }
    if let Some(n) = mesh_editor_only_name {
        if n.as_str().unicode_len() != 0 {
            r.push((SwBlockDefinitionMeshKey::MeshEditorOnly, n));
        }
    }
    proof {
        assert(r@ =~= e1 + e2 + e3 + e4 + e5);
    }
    r
}

} // verus!
