//! Verified core of the STEP to URDF toolkit.
//!
//! The live robot model, the geometry kernels' handle tables, and the
//! exporters: binary STL meshes and URDF text. The same types serve the
//! command line, the browser bindings and any other front end.
use vstd::prelude::*;

pub mod error;
pub mod kernel;
pub mod model;
pub mod stl;
pub mod text;
pub mod urdf;

pub use error::CoreError;
pub use kernel::{AssemblyNode, KernelHandle, OcctKernel, StubKernel};
pub use model::{
    CADRef, GeometryHandle, Inertial, Joint, JointLimits, JointType, Link, MeshSnapshot, Metadata,
    Pose, RobotModel,
};
pub use stl::mesh_to_stl_bytes;
pub use urdf::{convert_urdf, generate_minimal_urdf, version};

verus! {

/// Result type used throughout the crate.
pub type Result<T> = std::result::Result<T, CoreError>;

} // verus!
