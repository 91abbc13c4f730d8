//! A small 3D-engine kernel: an exactly-verified 4x4 transform-matrix
//! algebra, together with the mesh bookkeeping and scene-component
//! plumbing that surrounds it.

pub mod component;
pub mod error;
pub mod laws;
pub mod matrix;
pub mod mesh;
pub mod mesh_data;
