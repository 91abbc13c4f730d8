//! A mesh in a scene: its mesh data, ready for the renderer.

use vstd::prelude::*;

verus! {

use crate::mesh_data::MeshData;

/// A mesh ties mesh data to the scene object that renders it.
pub struct Mesh {
    data: MeshData,
}

impl Mesh {
    /// Wraps mesh data as a scene mesh.
    pub fn new(data: MeshData) -> (m: Mesh)
        ensures
            m.data_spec() == data,
    {
        Mesh { data }
    }

    /// The mesh data carried by this mesh.
    pub closed spec fn data_spec(&self) -> MeshData {
        self.data
    }

    /// Returns the mesh data carried by this mesh.
    pub fn data(&self) -> (r: &MeshData)
        ensures
            r == self.data_spec(),
    {
        &self.data
    }
}

} // verus!
