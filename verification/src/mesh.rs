//! Meshes and their instances.
use crate::error::Error;
use crate::keys::{KeyBits, MaterialID, MeshID};
use crate::registry::Registry;
use crate::scalar::Scalar;
use vstd::prelude::*;
use vstd::std_specs::convert::FromSpecImpl;

verus! {

/// A mesh: its vertices by channel, and its indices. A channel that is left
/// out is absent for every vertex.
#[derive(Debug, Default, Clone, Copy, PartialEq, Eq, Hash)]
pub struct MeshDesc<'a> {
    pub positions: &'a [[Scalar; 3]],
    pub colors: Option<&'a [[Scalar; 4]]>,
    pub normals: Option<&'a [[Scalar; 3]]>,
    pub tangents: Option<&'a [[Scalar; 4]]>,
    pub uvs: Option<&'a [[Scalar; 2]]>,
    pub indices: Option<&'a [u32]>,
}

/// A mesh as the engine reads it: the channels with the number of vertices
/// that every one of them holds, and the indices with their number.
#[derive(Debug, Clone, Copy, PartialEq, Eq, Hash)]
pub struct RenMeshDesc<'a> {
    pub num_vertices: usize,
    pub positions: &'a [[Scalar; 3]],
    pub colors: Option<&'a [[Scalar; 4]]>,
    pub normals: Option<&'a [[Scalar; 3]]>,
    pub tangents: Option<&'a [[Scalar; 4]]>,
    pub uvs: Option<&'a [[Scalar; 2]]>,
    pub num_indices: usize,
    pub indices: Option<&'a [u32]>,
}

/// The smaller of `n` and the length of a channel, where there is one.
pub open spec fn min_with_channel<T>(n: nat, channel: Option<&[T]>) -> nat {
    match channel {
        Some(c) => if c@.len() < n {
            c@.len()
        } else {
            n
        },
        None => n,
    }
}

/// The smaller of `n` and the length of a channel, where there is one.
fn clamp_to_channel<T>(n: usize, channel: Option<&[T]>) -> (m: usize)
    ensures
        m == min_with_channel(n as nat, channel),
{
    match channel {
        Some(c) => if c.len() < n {
            c.len()
        } else {
            n
        },
        None => n,
    }
}

impl<'a> MeshDesc<'a> {
    /// The number of vertices that are handed to the engine: the smallest
    /// length among the channels that are there.
    pub open spec fn spec_num_vertices(self) -> nat {
        min_with_channel(
            min_with_channel(
                min_with_channel(
                    min_with_channel(self.positions@.len(), self.colors),
                    self.normals,
                ),
                self.tangents,
            ),
            self.uvs,
        )
    }

    /// The number of indices that are handed to the engine: none where the
    /// mesh has no indices.
    pub open spec fn spec_num_indices(self) -> nat {
        match self.indices {
            Some(i) => i@.len(),
            None => 0,
        }
    }

    /// The mesh as the engine reads it.
    pub open spec fn flat(self) -> RenMeshDesc<'a> {
        RenMeshDesc {
            num_vertices: self.spec_num_vertices() as usize,
            positions: self.positions,
            colors: self.colors,
            normals: self.normals,
            tangents: self.tangents,
            uvs: self.uvs,
            num_indices: self.spec_num_indices() as usize,
            indices: self.indices,
        }
    }

    /// The number of vertices that are handed to the engine.
    pub fn num_vertices(&self) -> (n: usize)
        ensures
            n == self.spec_num_vertices(),
    {
        let n = self.positions.len();
        let n = clamp_to_channel(n, self.colors);
        let n = clamp_to_channel(n, self.normals);
        let n = clamp_to_channel(n, self.tangents);
        clamp_to_channel(n, self.uvs)
    }

    /// The number of indices that are handed to the engine.
    pub fn num_indices(&self) -> (n: usize)
        ensures
            n == self.spec_num_indices(),
    {
        match self.indices {
            Some(i) => i.len(),
            None => 0,
        }
    }
}

impl<'a> From<MeshDesc<'a>> for RenMeshDesc<'a> {
    fn from(desc: MeshDesc<'a>) -> (r: Self) {
        RenMeshDesc {
            num_vertices: desc.num_vertices(),
            positions: desc.positions,
            colors: desc.colors,
            normals: desc.normals,
            tangents: desc.tangents,
            uvs: desc.uvs,
            num_indices: desc.num_indices(),
            indices: desc.indices,
        }
    }
}

impl<'a> FromSpecImpl<MeshDesc<'a>> for RenMeshDesc<'a> {
    open spec fn obeys_from_spec() -> bool {
        true
    }

    open spec fn from_spec(desc: MeshDesc<'a>) -> Self {
        desc.flat()
    }
}

/// The number of vertices is at most the length of every channel that is
/// there, and it is the length of one of them.
pub proof fn lemma_num_vertices_is_the_minimum(desc: MeshDesc)
    ensures
        desc.spec_num_vertices() <= desc.positions@.len(),
        desc.colors matches Some(c) ==> desc.spec_num_vertices() <= c@.len(),
        desc.normals matches Some(c) ==> desc.spec_num_vertices() <= c@.len(),
        desc.tangents matches Some(c) ==> desc.spec_num_vertices() <= c@.len(),
        desc.uvs matches Some(c) ==> desc.spec_num_vertices() <= c@.len(),
        ({
            ||| desc.spec_num_vertices() == desc.positions@.len()
            ||| desc.colors matches Some(c) && desc.spec_num_vertices() == c@.len()
            ||| desc.normals matches Some(c) && desc.spec_num_vertices() == c@.len()
            ||| desc.tangents matches Some(c) && desc.spec_num_vertices() == c@.len()
            ||| desc.uvs matches Some(c) && desc.spec_num_vertices() == c@.len()
        }),
{
}

/// An instance of a mesh: the mesh, drawn with a material.
#[derive(Debug, Clone, Copy, PartialEq, Eq, Hash)]
pub struct MeshInstDesc {
    pub mesh: MeshID,
    pub material: MaterialID,
    pub casts_shadows: bool,
}

/// A mesh instance as the engine reads it: mesh and material by their native
/// ids.
#[derive(Debug, Clone, Copy, PartialEq, Eq, Hash)]
pub struct RenMeshInstDesc {
    pub mesh: u64,
    pub material: u64,
    pub casts_shadows: bool,
}

impl MeshInstDesc {
    /// Whether the mesh is alive in `meshes` and the material in `materials`.
    pub open spec fn refers_to_live(self, meshes: Map<u64, u64>, materials: Map<u64, u64>) -> bool {
        meshes.contains_key(self.mesh.bits()) && materials.contains_key(self.material.bits())
    }

    /// The instance as the engine reads it, mesh and material looked up.
    pub open spec fn flat(self, meshes: Map<u64, u64>, materials: Map<u64, u64>) -> RenMeshInstDesc {
        RenMeshInstDesc {
            mesh: meshes[self.mesh.bits()],
            material: materials[self.material.bits()],
            casts_shadows: self.casts_shadows,
        }
    }

    /// Lays the instance out for the engine. Fails with `InvalidKey` exactly
    /// when the mesh or the material is not alive in its registry.
    pub fn flatten(&self, meshes: &Registry<u64>, materials: &Registry<u64>) -> (r: Result<
        RenMeshInstDesc,
        Error,
    >)
        requires
            meshes.wf(),
            materials.wf(),
        ensures
            r == (if self.refers_to_live(meshes@, materials@) {
                Ok::<RenMeshInstDesc, Error>(self.flat(meshes@, materials@))
            } else {
                Err(Error::InvalidKey)
            }),
    {
        match (meshes.get(self.mesh.as_ffi()), materials.get(self.material.as_ffi())) {
            (Some(mesh), Some(material)) => Ok(
                RenMeshInstDesc {
                    mesh: *mesh,
                    material: *material,
                    casts_shadows: self.casts_shadows,
                },
            ),
            _ => Err(Error::InvalidKey),
        }
    }
}

} // verus!
