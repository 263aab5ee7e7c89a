//! Assembly of loaded model geometry.
//!
//! The asset shell reads and parses model files and hands their geometry over
//! as flat component arrays — positions and normals three components per
//! vertex, texture coordinates two — with each component a single-precision
//! bit pattern. The functions here assemble those arrays into vertices and
//! mesh records exactly as the shader-facing buffers expect them.

use vstd::prelude::*;

use crate::linalg::Vec3Bits;
use crate::mesh::TexCoordBits;

verus! {

/// A vertex of a loaded model: position, texture coordinate and normal.
#[derive(Clone, Copy, PartialEq, Eq, Structural, Debug)]
pub struct ModelVertex {
    pub position: Vec3Bits,
    pub tex_coords: TexCoordBits,
    pub normal: Vec3Bits,
}

/// The vertex at index `i` of the flat component arrays.
pub open spec fn model_vertex_of(
    positions: Seq<u32>,
    texcoords: Seq<u32>,
    normals: Seq<u32>,
    i: int,
) -> ModelVertex {
    ModelVertex {
        position: Vec3Bits {
            x: positions[3 * i],
            y: positions[3 * i + 1],
            z: positions[3 * i + 2],
        },
        tex_coords: TexCoordBits { u: texcoords[2 * i], v: texcoords[2 * i + 1] },
        normal: Vec3Bits { x: normals[3 * i], y: normals[3 * i + 1], z: normals[3 * i + 2] },
    }
}

/// Assemble the flat component arrays of one parsed mesh into its vertices:
/// vertex `i` takes positions `3i .. 3i+3`, texture coordinates `2i .. 2i+2`
/// and normals `3i .. 3i+3`.
pub fn build_model_vertices(
    positions: &Vec<u32>,
    texcoords: &Vec<u32>,
    normals: &Vec<u32>,
) -> (r: Vec<ModelVertex>)
    requires
        positions@.len() % 3 == 0,
        texcoords@.len() == positions@.len() / 3 * 2,
        normals@.len() == positions@.len(),
    ensures
        r@.len() == positions@.len() / 3,
        forall|i: int|
            0 <= i < r@.len() ==> r@[i] == model_vertex_of(positions@, texcoords@, normals@, i),
{
    let n = positions.len() / 3;
    proof {
        assert(positions@.len() == 3 * (positions@.len() / 3));
    }
    let mut r: Vec<ModelVertex> = Vec::new();
    let mut i: usize = 0;
    while i < n
        invariant
            n == positions@.len() / 3,
            positions@.len() == 3 * n,
            positions@.len() <= usize::MAX,
            texcoords@.len() == 2 * n,
            normals@.len() == positions@.len(),
            i <= n,
            r@.len() == i,
            forall|k: int|
                0 <= k < i ==> r@[k] == model_vertex_of(positions@, texcoords@, normals@, k),
        decreases n - i,
    {
        let v = ModelVertex {
            position: Vec3Bits {
                x: positions[3 * i],
                y: positions[3 * i + 1],
                z: positions[3 * i + 2],
            },
            tex_coords: TexCoordBits { u: texcoords[2 * i], v: texcoords[2 * i + 1] },
            normal: Vec3Bits { x: normals[3 * i], y: normals[3 * i + 1], z: normals[3 * i + 2] },
        };
        r.push(v);
        i = i + 1;
    }
    r
}

/// The record of one loaded mesh: how many indices its draw covers and which
/// material it uses.
#[derive(Clone, Copy, PartialEq, Eq, Structural, Debug)]
pub struct MeshInfo {
    pub num_elements: u32,
    pub material: usize,
}

/// Build a mesh record from a parsed mesh's index count and material
/// reference; a mesh without a material falls back to material 0.
pub fn mesh_info(index_count: usize, material_id: &Option<usize>) -> (r: MeshInfo)
    requires
        index_count <= u32::MAX,
    ensures
        r.num_elements == index_count,
        r.material == (match *material_id {
            Some(m) => m,
            None => 0,
        }),
{
    let material = match material_id {
        Some(m) => *m,
        None => 0,
    };
    MeshInfo { num_elements: index_count as u32, material }
}

} // verus!
