//! Intermediate robot model (richer than URDF) and the meshes it refers to.
//!
//! The live, editable description of a robot. Real numbers (lengths, masses,
//! inertias, densities) are IEEE-754 binary64 values kept as their bit
//! patterns (`f64::to_bits`); mesh coordinates are binary32 bit patterns.
//! The scale factor in `Metadata` is applied uniformly (default 0.001, from
//! millimetres in STEP to metres in URDF).
use vstd::prelude::*;
use crate::kernel::KernelHandle;

verus! {

/// Lightweight tessellation snapshot.
///
/// Coordinates are IEEE-754 binary32 values, each kept as its bit pattern
/// (`f32::to_bits`): `positions` and `normals` hold x, y, z per vertex,
/// `indices` holds three vertex numbers per triangle.
#[derive(Debug, Clone)]
pub struct MeshSnapshot {
    pub positions: Vec<u32>,
    pub normals: Vec<u32>,
    pub indices: Vec<u32>,
}

/// The mathematical content of a mesh: the three sequences it holds.
pub struct MeshView {
    pub positions: Seq<u32>,
    pub normals: Seq<u32>,
    pub indices: Seq<u32>,
}

impl View for MeshSnapshot {
    type V = MeshView;

    open spec fn view(&self) -> MeshView {
        MeshView { positions: self.positions@, normals: self.normals@, indices: self.indices@ }
    }
}

impl MeshView {
    /// Number of vertices, three coordinates each.
    pub open spec fn vertex_count(self) -> nat {
        self.positions.len() / 3
    }

    /// Number of complete triangles, three indices each.
    pub open spec fn triangle_count(self) -> nat {
        self.indices.len() / 3
    }

    /// Every corner of every complete triangle names a vertex whose three
    /// coordinates are present: what an exporter needs to read them.
    pub open spec fn corners_in_range(self) -> bool {
        forall|k: int|
            0 <= k < 3 * self.triangle_count() ==> 3 * #[trigger] self.indices[k] + 2
                < self.positions.len()
    }

    /// A mesh whose arrays fit together: whole vertices, one normal per
    /// vertex coordinate, whole triangles, and indices that name vertices.
    pub open spec fn well_formed(self) -> bool {
        &&& self.positions.len() % 3 == 0
        &&& self.normals.len() == self.positions.len()
        &&& self.indices.len() % 3 == 0
        &&& forall|k: int| 0 <= k < self.indices.len() ==> #[trigger] self.indices[k] < self.vertex_count()
    }
}

/// A well formed mesh can be exported: all its corners are in range.
pub proof fn lemma_well_formed_corners_in_range(m: MeshView)
    requires
        m.well_formed(),
    ensures
        m.corners_in_range(),
{
    assert forall|k: int| 0 <= k < 3 * m.triangle_count() implies 3 * #[trigger] m.indices[k] + 2
        < m.positions.len() by {
        assert(m.indices[k] < m.vertex_count());
        assert(3 * m.vertex_count() == m.positions.len());
    }
}


/// Bit pattern of the binary64 value 0.001, the default scale (mm to m).
pub const SCALE_MM_TO_M: u64 = 0x3F50_624D_D2F1_A9FC;

/// Project-level metadata, persisted with every model snapshot.
#[derive(Debug, Clone)]
pub struct Metadata {
    /// Factor from kernel units to metres (binary64 bits); 0.001 for STEP in millimetres.
    pub scale_factor: u64,
    /// Human readable name of the robot (becomes `<robot name="...">`).
    pub robot_name: String,
    /// Free-form user notes / provenance.
    pub notes: String,
}

impl Default for Metadata {
    fn default() -> (m: Self)
        ensures
            m.scale_factor == SCALE_MM_TO_M,
            m.robot_name@ == "my_robot"@,
            m.notes@ == Seq::<char>::empty(),
    {
        Metadata {
            scale_factor: SCALE_MM_TO_M,
            robot_name: String::from_str("my_robot"),
            notes: String::new(),
        }
    }
}

/// 6-DOF pose: position xyz and orientation quaternion w, x, y, z (binary64 bits).
#[derive(Debug, Clone)]
pub struct Pose {
    pub xyz: [u64; 3],
    pub quat: [u64; 4],
}

/// Inertial properties of a link, in its own frame, after scaling (binary64 bits).
#[derive(Debug, Clone)]
pub struct Inertial {
    pub mass: u64,
    pub origin: Pose,
    /// Inertia tensor in the inertial frame: xx, xy, xz, yy, yz, zz.
    pub inertia: [u64; 6],
}

/// Reference back to the CAD entity a piece of geometry came from.
///
/// `semantic` is the persistent part (XCAF label, part name, "face:23");
/// `kernel_handle` is only valid for the current kernel session.
#[derive(Debug, Clone)]
pub struct CADRef {
    pub semantic: String,
    pub kernel_handle: Option<KernelHandle>,
}

/// Geometry owned by the kernel (visual or collision), with cached tessellations.
#[derive(Debug, Clone)]
pub struct GeometryHandle {
    pub cad_ref: CADRef,
    pub visual_tess: Option<MeshSnapshot>,
    pub collision_tess: Option<MeshSnapshot>,
}

/// A rigid body of the robot (one `<link>` in URDF).
#[derive(Debug, Clone)]
pub struct Link {
    pub id: String,
    pub name: String,
    pub visual: Vec<GeometryHandle>,
    pub collision: Vec<GeometryHandle>,
    pub inertial: Inertial,
    /// Density used for the last inertial computation, kg/m^3 (binary64 bits).
    pub density_kg_m3: u64,
}

/// Joint type, as URDF knows them.
#[derive(Debug, Clone, PartialEq, Eq, Structural)]
pub enum JointType {
    Fixed,
    Revolute,
    Prismatic,
    Continuous,
}

/// A joint between two links, named by their ids.
#[derive(Debug, Clone)]
pub struct Joint {
    pub id: String,
    pub name: String,
    pub parent: String,
    pub child: String,
    pub joint_type: JointType,
    pub origin: Pose,
    /// Unit vector in the child frame (binary64 bits).
    pub axis: [u64; 3],
    pub limits: Option<JointLimits>,
}

/// Joint limits (binary64 bits).
#[derive(Debug, Clone)]
pub struct JointLimits {
    pub lower: u64,
    pub upper: u64,
    pub effort: u64,
    pub velocity: u64,
}

/// The canonical live robot description.
#[derive(Debug, Clone)]
pub struct RobotModel {
    pub meta: Metadata,
    pub links: Vec<Link>,
    pub joints: Vec<Joint>,
    /// Root link: the one with no parent joint.
    pub root_link_id: String,
}

impl RobotModel {
    /// An empty model named `name`: default metadata (scale 0.001, no notes),
    /// no links, no joints, no root yet.
    pub fn new(name: &str) -> (m: Self)
        ensures
            m.meta.robot_name@ == name@,
            m.meta.scale_factor == SCALE_MM_TO_M,
            m.meta.notes@ == Seq::<char>::empty(),
            m.links@.len() == 0,
            m.joints@.len() == 0,
            m.root_link_id@ == Seq::<char>::empty(),
    {
        let defaults = Metadata::default();
        let meta = Metadata { robot_name: String::from_str(name), ..defaults };
        RobotModel { meta, links: Vec::new(), joints: Vec::new(), root_link_id: String::new() }
    }
}

} // verus!
