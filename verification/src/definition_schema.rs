//! The parts of the block-definition XML schema that the viewer core
//! reads: the decorative surface lists and the structural child elements
//! they sit among. Every field is optional in the XML, so each is an
//! `Option`; positions are integer voxel coordinates.
//!
//! Deserializing the XML is the host's job; it fills these structs from
//! its own serde-annotated copies.

use vstd::prelude::*;

verus! {

/// An integer vector attribute: a voxel-grid position.
#[derive(Clone, Copy, Debug, PartialEq, Eq, Structural, Default)]
pub struct Position {
    pub x: i32,
    pub y: i32,
    pub z: i32,
}

/// An integer vector attribute: a direction on the voxel grid.
#[derive(Clone, Copy, Debug, PartialEq, Eq, Structural, Default)]
pub struct Normal {
    pub x: i32,
    pub y: i32,
    pub z: i32,
}

/// One decorative surface: a shape from the lookup table, placed on a
/// voxel with an orientation and a rotation.
#[derive(Clone, Debug, Default)]
pub struct Surface {
    pub orientation: Option<i32>,
    pub rotation: Option<i32>,
    pub shape: Option<i32>,
    pub trans_type: Option<i32>,
    pub flags: Option<u64>,
    pub is_reverse_normals: Option<bool>,
    pub is_two_sided: Option<bool>,
    pub position: Vec<Position>,
}

/// The `surfaces` list element.
#[derive(Clone, Debug, Default)]
pub struct Surfaces {
    pub surface: Vec<Surface>,
}

/// The `buoyancy_surfaces` list element, with the same entries as
/// `surfaces`.
#[derive(Clone, Debug, Default)]
pub struct BuoyancySurfaces {
    pub surface: Vec<Surface>,
}

/// One logic node of a block.
#[derive(Clone, Debug, Default)]
pub struct LogicNode {
    pub orientation: Option<i32>,
    pub label: Option<String>,
    pub mode: Option<i32>,
    pub node_type: Option<i32>,
    pub description: Option<String>,
    pub flags: Option<u64>,
    pub position: Vec<Position>,
}

/// The `logic_nodes` list element.
#[derive(Clone, Debug, Default)]
pub struct LogicNodes {
    pub logic_node: Vec<LogicNode>,
}

/// One coupling point of a block.
#[derive(Clone, Debug, Default)]
pub struct Coupling {
    pub orientation: Option<i32>,
    pub alignment: Option<i32>,
    pub coupling_type: Option<String>,
    pub coupling_name: Option<String>,
    pub coupling_gender: Option<i32>,
    pub alignment_required: Option<bool>,
    pub allow_bipolar_alignment: Option<bool>,
    pub position: Vec<Position>,
}

/// The `couplings` list element.
#[derive(Clone, Debug, Default)]
pub struct Couplings {
    pub coupling: Vec<Coupling>,
}

/// One voxel of a block's occupancy grid.
#[derive(Clone, Debug, Default)]
pub struct Voxel {
    pub flags: Option<i32>,
    pub physics_shape: Option<i32>,
    pub buoy_pipes: Option<i32>,
    pub position: Vec<Position>,
    pub physics_shape_rotation: Vec<PhysicsShapeRotation>,
}

/// The `voxels` list element.
#[derive(Clone, Debug, Default)]
pub struct Voxels {
    pub voxel: Vec<Voxel>,
}

/// A 3x3 integer rotation matrix for a voxel's physics shape.
#[derive(Clone, Copy, Debug, PartialEq, Eq, Structural)]
pub struct PhysicsShapeRotation {
    pub r00: i32,
    pub r01: i32,
    pub r02: i32,
    pub r10: i32,
    pub r11: i32,
    pub r12: i32,
    pub r20: i32,
    pub r21: i32,
    pub r22: i32,
}

impl Default for PhysicsShapeRotation {
    /// The identity rotation, which the XML omits.
    fn default() -> (r: PhysicsShapeRotation)
        ensures
            r == (PhysicsShapeRotation {
                r00: 1,
                r01: 0,
                r02: 0,
                r10: 0,
                r11: 1,
                r12: 0,
                r20: 0,
                r21: 0,
                r22: 1,
            }),
    {
        PhysicsShapeRotation {
            r00: 1,
            r01: 0,
            r02: 0,
            r10: 0,
            r11: 1,
            r12: 0,
            r20: 0,
            r21: 0,
            r22: 1,
        }
    }
}

/// The two tooltip strings of a block.
#[derive(Clone, Debug, Default)]
pub struct TooltipProperties {
    pub description: Option<String>,
    pub short_description: Option<String>,
}

/// One jet-engine connection: a position and a direction.
#[derive(Clone, Debug, Default)]
pub struct JetEngineConnection {
    pub pos: Vec<Position>,
    pub normal: Vec<Normal>,
}

/// The list of jet-engine connections toward the previous stage.
#[derive(Clone, Debug, Default)]
pub struct JetEngineConnectionsPrev {
    pub j: Vec<JetEngineConnection>,
}

/// The list of jet-engine connections toward the next stage.
#[derive(Clone, Debug, Default)]
pub struct JetEngineConnectionsNext {
    pub j: Vec<JetEngineConnection>,
}

/// A block's research-reward tier.
#[derive(Clone, Copy, Debug, PartialEq, Eq, Structural, Default)]
pub struct RewardProperties {
    pub tier: Option<i32>,
    pub number_rewarded: Option<i32>,
}

} // verus!
