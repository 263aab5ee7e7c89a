//! Per-instance transforms: a fixed grid of instances, each a position and a
//! rotation, and their raw matrix form as uploaded to the instance buffer.
//!
//! The grid holds `NUM_INSTANCES_PER_ROW` by `NUM_INSTANCES_PER_ROW` instances
//! spaced `SPACE_BETWEEN` apart and centred on the origin. Every instance is
//! rotated 45 degrees about its normalized radial axis from the origin; the
//! instance whose position has length zero gets the identity rotation instead.

use vstd::prelude::*;

use crate::fbits::F32_ZERO;
use crate::fbits::F32_ONE;
use crate::fbits::F32_TWO;
use crate::fbits::F32_THREE;
use crate::fbits::F32_FORTY_FIVE;
use crate::fbits::f32_from_u32_of;
use crate::fbits::f32_div_of;
use crate::fbits::f32_sub_of;
use crate::fbits::f32_mul_of;
use crate::fbits::f32_eq_of;
use crate::fbits::f32_radians_of;
use crate::fbits::f32_from_u32;
use crate::fbits::f32_div;
use crate::fbits::f32_sub;
use crate::fbits::f32_mul;
use crate::fbits::f32_eq;
use crate::fbits::f32_to_radians;
use crate::linalg::Vec3Bits;
use crate::linalg::QuatBits;
use crate::linalg::Mat4Bits;
use crate::linalg::vec3_length_of;
use crate::linalg::vec3_normalize_of;
use crate::linalg::quat_from_axis_angle_of;
use crate::linalg::mat4_from_translation_of;
use crate::linalg::mat4_from_quat_of;
use crate::linalg::mat4_mul_of;
use crate::linalg::vec3_length;
use crate::linalg::vec3_normalize;
use crate::linalg::quat_from_axis_angle;
use crate::linalg::mat4_from_translation;
use crate::linalg::mat4_from_quat;
use crate::linalg::mat4_mul;

verus! {

/// Instances per grid row (and per grid column).
pub const NUM_INSTANCES_PER_ROW: u32 = 10;

/// Bit pattern of the grid spacing, the single-precision value 3.0.
pub const SPACE_BETWEEN: u32 = F32_THREE;

/// An instance of the mesh: where it stands and how it is turned.
#[derive(Clone, Copy, PartialEq, Eq, Structural, Debug)]
pub struct Instance {
    pub position: Vec3Bits,
    pub rotation: QuatBits,
}

/// The raw form of one instance as the instance buffer holds it: the
/// column-major bits of its model matrix.
#[derive(Clone, Copy, Debug)]
pub struct InstanceRaw {
    pub model: Mat4Bits,
}

impl Instance {
    /// The column-major bits of this instance's model matrix:
    /// `translation(position) * rotation_matrix(rotation)`.
    pub open spec fn raw_spec(self) -> Seq<u32> {
        mat4_mul_of(
            mat4_from_translation_of(self.position.bits()),
            mat4_from_quat_of(self.rotation.bits()),
        )
    }

    /// Build the raw matrix form of this instance.
    pub fn to_raw(&self) -> (r: InstanceRaw)
        ensures
            r.model.bits() == self.raw_spec(),
    {
        let translation = mat4_from_translation(&self.position);
        let rotation = mat4_from_quat(&self.rotation);
        InstanceRaw { model: mat4_mul(&translation, &rotation) }
    }
}

/// Half the row count as a single-precision value: `10 / 2.0`.
pub open spec fn half_row_of() -> u32 {
    f32_div_of(f32_from_u32_of(NUM_INSTANCES_PER_ROW), F32_TWO)
}

/// The world coordinate of grid index `i` on either horizontal axis:
/// `SPACE_BETWEEN * (i - NUM_INSTANCES_PER_ROW / 2.0)`.
pub open spec fn grid_coord_of(i: u32) -> u32 {
    f32_mul_of(SPACE_BETWEEN, f32_sub_of(f32_from_u32_of(i), half_row_of()))
}

/// The position of the instance at grid indices `(x, z)`: on the horizontal
/// plane, centred on the origin.
pub open spec fn instance_position_of(x: u32, z: u32) -> (u32, u32, u32) {
    (grid_coord_of(x), F32_ZERO, grid_coord_of(z))
}

/// The rotation of an instance at position `p`: identity where the position
/// has length zero, else 45 degrees about the normalized radial axis.
pub open spec fn instance_rotation_of(p: (u32, u32, u32)) -> (u32, u32, u32, u32) {
    if f32_eq_of(vec3_length_of(p), F32_ZERO) {
        (F32_ZERO, F32_ZERO, F32_ZERO, F32_ONE)
    } else {
        quat_from_axis_angle_of(vec3_normalize_of(p), f32_radians_of(F32_FORTY_FIVE))
    }
}

/// The instance at flat index `i` of the grid, row by row: grid indices
/// `(i % NUM_INSTANCES_PER_ROW, i / NUM_INSTANCES_PER_ROW)`.
pub open spec fn grid_instance_of(i: int) -> Instance {
    let x = (i % (NUM_INSTANCES_PER_ROW as int)) as u32;
    let z = (i / (NUM_INSTANCES_PER_ROW as int)) as u32;
    let p = instance_position_of(x, z);
    let q = instance_rotation_of(p);
    Instance {
        position: Vec3Bits { x: p.0, y: p.1, z: p.2 },
        rotation: QuatBits { x: q.0, y: q.1, z: q.2, w: q.3 },
    }
}

/// Build the full instance grid, row by row.
pub fn make_instances() -> (r: Vec<Instance>)
    ensures
        r@.len() == NUM_INSTANCES_PER_ROW * NUM_INSTANCES_PER_ROW,
        forall|i: int| 0 <= i < r@.len() ==> r@[i] == grid_instance_of(i),
{
    let rad45 = f32_to_radians(F32_FORTY_FIVE);
    let half_row = f32_div(f32_from_u32(NUM_INSTANCES_PER_ROW), F32_TWO);
    let total: usize = (NUM_INSTANCES_PER_ROW * NUM_INSTANCES_PER_ROW) as usize;
    let mut r: Vec<Instance> = Vec::new();
    let mut i: usize = 0;
    while i < total
        invariant
            total == NUM_INSTANCES_PER_ROW * NUM_INSTANCES_PER_ROW,
            rad45 == f32_radians_of(F32_FORTY_FIVE),
            half_row == half_row_of(),
            i <= total,
            r@.len() == i,
            forall|k: int| 0 <= k < i ==> r@[k] == grid_instance_of(k),
        decreases total - i,
    {
        let x = (i as u32) % NUM_INSTANCES_PER_ROW;
        let z = (i as u32) / NUM_INSTANCES_PER_ROW;
        let cx = f32_mul(SPACE_BETWEEN, f32_sub(f32_from_u32(x), half_row));
        let cz = f32_mul(SPACE_BETWEEN, f32_sub(f32_from_u32(z), half_row));
        let position = Vec3Bits { x: cx, y: F32_ZERO, z: cz };
        let rotation = if f32_eq(vec3_length(&position), F32_ZERO) {
            QuatBits { x: F32_ZERO, y: F32_ZERO, z: F32_ZERO, w: F32_ONE }
        } else {
            let axis = vec3_normalize(&position);
            quat_from_axis_angle(&axis, rad45)
        };
        r.push(Instance { position, rotation });
        i = i + 1;
    }
    r
}

/// Pack the raw matrices of the given instances into the bytes the instance
/// buffer is uploaded with: one 64-byte element per instance, laid out as
/// `instance_buffer_layout` declares.
pub fn pack_instances(raws: &Vec<InstanceRaw>) -> (r: Vec<u8>)
    ensures
        r@.len() == 64 * raws@.len(),
        forall|i: int|
            0 <= i < raws@.len() ==> r@.subrange(64 * i, 64 * (i + 1))
                == crate::mesh::mat4_le_bytes(#[trigger] raws@[i].model),
{
    let mut r: Vec<u8> = Vec::new();
    let mut i: usize = 0;
    while i < raws.len()
        invariant
            i <= raws@.len(),
            r@.len() == 64 * i,
            forall|k: int|
                0 <= k < i ==> r@.subrange(64 * k, 64 * (k + 1)) == crate::mesh::mat4_le_bytes(
                    #[trigger] raws@[k].model,
                ),
        decreases raws@.len() - i,
    {
        let ghost before = r@;
        let mut chunk = crate::mesh::pack_mat4(&raws[i].model);
        r.append(&mut chunk);
        proof {
            assert(r@.subrange(64 * i as int, 64 * (i + 1) as int) =~= crate::mesh::mat4_le_bytes(
                raws@[i as int].model,
            ));
            assert(forall|k: int|
                0 <= k < i ==> r@.subrange(64 * k, 64 * (k + 1)) =~= before.subrange(
                    #[trigger] (64 * k),
                    64 * (k + 1),
                ));
        }
        i = i + 1;
    }
    r
}

} // verus!
