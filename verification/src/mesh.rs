//! The demo's static mesh and the byte-exact buffer layout contracts.
//!
//! A vertex carries a position and a texture coordinate, each component the
//! bit pattern of a single-precision value. The buffer layout descriptors
//! state, as plain numbers, the strides, attribute offsets and shader
//! locations the render pipeline is built with; the packing functions produce
//! the exact little-endian bytes the GPU reads, so that the buffer contents
//! and the declared layout are proved to agree.

use vstd::prelude::*;

use crate::linalg::Vec3Bits;
use crate::linalg::Mat4Bits;

verus! {

/// A two-component texture coordinate of single-precision bit patterns.
#[derive(Clone, Copy, PartialEq, Eq, Structural, Debug)]
pub struct TexCoordBits {
    pub u: u32,
    pub v: u32,
}

/// A vertex of the static mesh: position and texture coordinate.
#[derive(Clone, Copy, PartialEq, Eq, Structural, Debug)]
pub struct Vertex {
    pub position: Vec3Bits,
    pub tex_coords: TexCoordBits,
}

/// The vertices of the fixed pentagon mesh, by bit pattern.
pub open spec fn vertex_data() -> Seq<Vertex> {
    seq![
        Vertex {
            position: Vec3Bits { x: 0xbdb1d0d5, y: 0x3efc1c5c, z: 0x0 },
            tex_coords: TexCoordBits { u: 0x3ed38bcb, v: 0x3bf8e90a },
        },
        Vertex {
            position: Vec3Bits { x: 0xbefd8236, y: 0x3d8e835a, z: 0x0 },
            tex_coords: TexCoordBits { u: 0x3b9f7280, v: 0x3edc5f2a },
        },
        Vertex {
            position: Vec3Bits { x: 0xbe607229, y: 0xbee6175f, z: 0x0 },
            tex_coords: TexCoordBits { u: 0x3e8fc6ec, v: 0x3f730baf },
        },
        Vertex {
            position: Vec3Bits { x: 0x3eb826aa, y: 0xbeb1d51f, z: 0x0 },
            tex_coords: TexCoordBits { u: 0x3f5c1355, v: 0x3f58ea90 },
        },
        Vertex {
            position: Vec3Bits { x: 0x3ee208d8, y: 0x3e705e9c, z: 0x0 },
            tex_coords: TexCoordBits { u: 0x3f71046c, v: 0x3e87d0b2 },
        },
    ]
}

/// The triangle-list indices of the fixed pentagon mesh.
pub open spec fn index_data() -> Seq<u16> {
    seq![0u16, 1, 4, 1, 2, 4, 2, 3, 4]
}

/// The vertices of the fixed mesh.
pub fn vertices() -> (r: Vec<Vertex>)
    ensures
        r@ == vertex_data(),
{
    let mut r: Vec<Vertex> = Vec::new();
    r.push(Vertex {
        position: Vec3Bits { x: 0xbdb1d0d5, y: 0x3efc1c5c, z: 0x0 },
        tex_coords: TexCoordBits { u: 0x3ed38bcb, v: 0x3bf8e90a },
    });
    r.push(Vertex {
        position: Vec3Bits { x: 0xbefd8236, y: 0x3d8e835a, z: 0x0 },
        tex_coords: TexCoordBits { u: 0x3b9f7280, v: 0x3edc5f2a },
    });
    r.push(Vertex {
        position: Vec3Bits { x: 0xbe607229, y: 0xbee6175f, z: 0x0 },
        tex_coords: TexCoordBits { u: 0x3e8fc6ec, v: 0x3f730baf },
    });
    r.push(Vertex {
        position: Vec3Bits { x: 0x3eb826aa, y: 0xbeb1d51f, z: 0x0 },
        tex_coords: TexCoordBits { u: 0x3f5c1355, v: 0x3f58ea90 },
    });
    r.push(Vertex {
        position: Vec3Bits { x: 0x3ee208d8, y: 0x3e705e9c, z: 0x0 },
        tex_coords: TexCoordBits { u: 0x3f71046c, v: 0x3e87d0b2 },
    });
    proof {
        assert(r@ =~= vertex_data());
    }
    r
}

/// The indices of the fixed mesh. Every index refers to one of the mesh's
/// vertices, and their count is a whole number of triangles.
pub fn indices() -> (r: Vec<u16>)
    ensures
        r@ == index_data(),
        r@.len() % 3 == 0,
        forall|i: int| 0 <= i < r@.len() ==> r@[i] < vertex_data().len(),
{
    let mut r: Vec<u16> = Vec::new();
    r.push(0);
    r.push(1);
    r.push(4);
    r.push(1);
    r.push(2);
    r.push(4);
    r.push(2);
    r.push(3);
    r.push(4);
    proof {
        assert(r@ =~= index_data());
    }
    r
}

/// A vertex attribute format, as the shader declares it.
#[derive(Clone, Copy, PartialEq, Eq, Structural, Debug)]
pub enum AttributeFormat {
    Float32x2,
    Float32x3,
    Float32x4,
}

impl AttributeFormat {
    /// The number of buffer bytes one attribute of this format occupies.
    pub open spec fn byte_size(self) -> u64 {
        match self {
            AttributeFormat::Float32x2 => 8,
            AttributeFormat::Float32x3 => 12,
            AttributeFormat::Float32x4 => 16,
        }
    }
}

/// One attribute of a vertex buffer layout: where it starts in an element,
/// and which shader location reads it.
#[derive(Clone, Copy, PartialEq, Eq, Structural, Debug)]
pub struct AttributeDesc {
    pub offset: u64,
    pub shader_location: u32,
    pub format: AttributeFormat,
}

/// The layout of one vertex buffer slot: the byte stride between elements,
/// whether the buffer advances per instance rather than per vertex, and its
/// attributes.
#[derive(Debug)]
pub struct BufferLayoutDesc {
    pub array_stride: u64,
    pub step_per_instance: bool,
    pub attributes: Vec<AttributeDesc>,
}

impl BufferLayoutDesc {
    /// The attributes lie within the stride, in increasing non-overlapping
    /// order, and no two share a shader location.
    pub open spec fn wf(self) -> bool {
        &&& forall|i: int|
            0 <= i < self.attributes@.len() ==> #[trigger] self.attributes@[i].offset
                + self.attributes@[i].format.byte_size() <= self.array_stride
        &&& forall|i: int|
            0 <= i && i + 1 < self.attributes@.len() ==> #[trigger] self.attributes@[i].offset
                + self.attributes@[i].format.byte_size() <= self.attributes@[i + 1].offset
        &&& forall|i: int, j: int|
            0 <= i < j < self.attributes@.len() ==> #[trigger] self.attributes@[i].shader_location
                != #[trigger] self.attributes@[j].shader_location
    }
}

/// The layout the mesh vertex buffer is bound with: 20-byte elements stepped
/// per vertex, position at offset 0 read by shader location 0, texture
/// coordinates at offset 12 read by shader location 1.
pub fn vertex_buffer_layout() -> (r: BufferLayoutDesc)
    ensures
        r.array_stride == 20,
        !r.step_per_instance,
        r.attributes@.len() == 2,
        r.attributes@[0] == (AttributeDesc {
            offset: 0,
            shader_location: 0,
            format: AttributeFormat::Float32x3,
        }),
        r.attributes@[1] == (AttributeDesc {
            offset: 12,
            shader_location: 1,
            format: AttributeFormat::Float32x2,
        }),
        r.wf(),
{
    let mut attributes: Vec<AttributeDesc> = Vec::new();
    attributes.push(AttributeDesc {
        offset: 0,
        shader_location: 0,
        format: AttributeFormat::Float32x3,
    });
    attributes.push(AttributeDesc {
        offset: 12,
        shader_location: 1,
        format: AttributeFormat::Float32x2,
    });
    let r = BufferLayoutDesc { array_stride: 20, step_per_instance: false, attributes };
    proof {
        assert(r.attributes@[0].offset + r.attributes@[0].format.byte_size() == 12);
        assert(r.attributes@[1].offset + r.attributes@[1].format.byte_size() == 20);
        assert(forall|i: int|
            0 <= i < r.attributes@.len() ==> #[trigger] r.attributes@[i].offset
                + r.attributes@[i].format.byte_size() <= r.array_stride);
        assert(forall|i: int|
            0 <= i && i + 1 < r.attributes@.len() ==> #[trigger] r.attributes@[i].offset
                + r.attributes@[i].format.byte_size() <= r.attributes@[i + 1].offset);
        assert(forall|i: int, j: int|
            0 <= i < j < r.attributes@.len() ==> #[trigger] r.attributes@[i].shader_location
                != #[trigger] r.attributes@[j].shader_location);
    }
    r
}

/// The layout the instance buffer is bound with: 64-byte elements stepped per
/// instance, the four columns of the model matrix at offsets 0, 16, 32 and 48
/// read by shader locations 5 through 8.
pub fn instance_buffer_layout() -> (r: BufferLayoutDesc)
    ensures
        r.array_stride == 64,
        r.step_per_instance,
        r.attributes@.len() == 4,
        forall|i: int|
            0 <= i < 4 ==> r.attributes@[i] == (AttributeDesc {
                offset: (16 * i) as u64,
                shader_location: (5 + i) as u32,
                format: AttributeFormat::Float32x4,
            }),
        r.wf(),
{
    let mut attributes: Vec<AttributeDesc> = Vec::new();
    attributes.push(AttributeDesc {
        offset: 0,
        shader_location: 5,
        format: AttributeFormat::Float32x4,
    });
    attributes.push(AttributeDesc {
        offset: 16,
        shader_location: 6,
        format: AttributeFormat::Float32x4,
    });
    attributes.push(AttributeDesc {
        offset: 32,
        shader_location: 7,
        format: AttributeFormat::Float32x4,
    });
    attributes.push(AttributeDesc {
        offset: 48,
        shader_location: 8,
        format: AttributeFormat::Float32x4,
    });
    let r = BufferLayoutDesc { array_stride: 64, step_per_instance: true, attributes };
    proof {
        assert(r.attributes@[0].offset + r.attributes@[0].format.byte_size() == 16);
        assert(r.attributes@[1].offset + r.attributes@[1].format.byte_size() == 32);
        assert(r.attributes@[2].offset + r.attributes@[2].format.byte_size() == 48);
        assert(r.attributes@[3].offset + r.attributes@[3].format.byte_size() == 64);
        assert(forall|i: int|
            0 <= i < r.attributes@.len() ==> #[trigger] r.attributes@[i].offset
                + r.attributes@[i].format.byte_size() <= r.array_stride);
        assert(forall|i: int|
            0 <= i && i + 1 < r.attributes@.len() ==> #[trigger] r.attributes@[i].offset
                + r.attributes@[i].format.byte_size() <= r.attributes@[i + 1].offset);
        assert(forall|i: int, j: int|
            0 <= i < j < r.attributes@.len() ==> #[trigger] r.attributes@[i].shader_location
                != #[trigger] r.attributes@[j].shader_location);
    }
    r
}

/// The two vertex buffer slots never claim the same shader location: the mesh
/// slot feeds locations 0 and 1, the instance slot locations 5 through 8.
pub proof fn lemma_layouts_share_no_location(a: BufferLayoutDesc, b: BufferLayoutDesc)
    requires
        forall|i: int| 0 <= i < a.attributes@.len() ==> #[trigger] a.attributes@[i].shader_location < 2,
        forall|i: int|
            0 <= i < b.attributes@.len() ==> 5 <= #[trigger] b.attributes@[i].shader_location < 9,
    ensures
        forall|i: int, j: int|
            0 <= i < a.attributes@.len() && 0 <= j < b.attributes@.len()
                ==> #[trigger] a.attributes@[i].shader_location
                != #[trigger] b.attributes@[j].shader_location,
{
}

/// Byte `k` (0 = least significant) of `x` in little-endian order.
pub open spec fn le_byte(x: u32, k: int) -> u8 {
    ((x >> (k * 8)) & 0xff) as u8
}

/// The four little-endian bytes of `x`.
pub open spec fn u32_le_bytes(x: u32) -> Seq<u8> {
    seq![le_byte(x, 0), le_byte(x, 1), le_byte(x, 2), le_byte(x, 3)]
}

/// The twenty buffer bytes of one vertex: position components then texture
/// coordinates, each little-endian — exactly the offsets the vertex buffer
/// layout declares.
pub open spec fn vertex_le_bytes(v: Vertex) -> Seq<u8> {
    u32_le_bytes(v.position.x) + u32_le_bytes(v.position.y) + u32_le_bytes(v.position.z)
        + u32_le_bytes(v.tex_coords.u) + u32_le_bytes(v.tex_coords.v)
}

/// The sixty-four buffer bytes of a matrix: its column-major entries in
/// order, each little-endian.
pub open spec fn mat4_le_bytes(m: Mat4Bits) -> Seq<u8> {
    Seq::new(64, |j: int| le_byte(m.bits()[j / 4], j % 4))
}

/// Append the four little-endian bytes of `x`.
fn push_u32_le(out: &mut Vec<u8>, x: u32)
    ensures
        final(out)@ == old(out)@ + u32_le_bytes(x),
{
    proof {
        assert((x & 0xff) < 256 && ((x >> 8) & 0xff) < 256 && ((x >> 16) & 0xff) < 256 && ((x
            >> 24) & 0xff) < 256) by (bit_vector);
        assert(x >> 0 == x) by (bit_vector);
    }
    out.push((x & 0xff) as u8);
    out.push(((x >> 8) & 0xff) as u8);
    out.push(((x >> 16) & 0xff) as u8);
    out.push(((x >> 24) & 0xff) as u8);
    proof {
        assert(out@ =~= old(out)@ + u32_le_bytes(x));
    }
}

/// Pack the vertices into the bytes the vertex buffer is uploaded with: one
/// 20-byte element per vertex, laid out as `vertex_buffer_layout` declares.
pub fn pack_vertices(verts: &Vec<Vertex>) -> (r: Vec<u8>)
    ensures
        r@.len() == 20 * verts@.len(),
        forall|i: int|
            0 <= i < verts@.len() ==> r@.subrange(20 * i, 20 * (i + 1)) == vertex_le_bytes(
                #[trigger] verts@[i],
            ),
{
    let mut r: Vec<u8> = Vec::new();
    let mut i: usize = 0;
    while i < verts.len()
        invariant
            i <= verts@.len(),
            r@.len() == 20 * i,
            forall|k: int|
                0 <= k < i ==> r@.subrange(20 * k, 20 * (k + 1)) == vertex_le_bytes(
                    #[trigger] verts@[k],
                ),
        decreases verts@.len() - i,
    {
        let ghost before = r@;
        let v = verts[i];
        push_u32_le(&mut r, v.position.x);
        push_u32_le(&mut r, v.position.y);
        push_u32_le(&mut r, v.position.z);
        push_u32_le(&mut r, v.tex_coords.u);
        push_u32_le(&mut r, v.tex_coords.v);
        proof {
            assert(r@.subrange(20 * i as int, 20 * (i + 1) as int) =~= vertex_le_bytes(verts@[i as int]));
            assert(forall|k: int|
                0 <= k < i ==> r@.subrange(20 * k, 20 * (k + 1)) =~= before.subrange(
                    #[trigger] (20 * k),
                    20 * (k + 1),
                ));
        }
        i = i + 1;
    }
    r
}

/// Pack the triangle indices into the bytes the index buffer is uploaded
/// with: two little-endian bytes per index.
pub fn pack_indices(idx: &Vec<u16>) -> (r: Vec<u8>)
    ensures
        r@.len() == 2 * idx@.len(),
        forall|i: int|
            0 <= i < idx@.len() ==> r@[2 * i] == (#[trigger] idx@[i] & 0xff) as u8 && r@[2 * i + 1]
                == (idx@[i] >> 8) as u8,
{
    let mut r: Vec<u8> = Vec::new();
    let mut i: usize = 0;
    while i < idx.len()
        invariant
            i <= idx@.len(),
            r@.len() == 2 * i,
            forall|k: int|
                0 <= k < i ==> r@[2 * k] == (#[trigger] idx@[k] & 0xff) as u8 && r@[2 * k + 1] == (
                idx@[k] >> 8) as u8,
        decreases idx@.len() - i,
    {
        let x = idx[i];
        r.push((x & 0xff) as u8);
        r.push((x >> 8) as u8);
        i = i + 1;
    }
    r
}

/// Pack a matrix into the 64 bytes a uniform or instance buffer holds for it.
pub fn pack_mat4(m: &Mat4Bits) -> (r: Vec<u8>)
    ensures
        r@ == mat4_le_bytes(*m),
{
    let mut r: Vec<u8> = Vec::new();
    let mut i: usize = 0;
    while i < 16
        invariant
            i <= 16,
            r@.len() == 4 * i,
            forall|j: int| 0 <= j < 4 * i ==> r@[j] == le_byte(m.bits()[j / 4], j % 4),
        decreases 16 - i,
    {
        push_u32_le(&mut r, m.m[i]);
        i = i + 1;
    }
    proof {
        assert(r@ =~= mat4_le_bytes(*m));
    }
    r
}

} // verus!
