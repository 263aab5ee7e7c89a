//! Three-component vectors, quaternions and 4x4 matrices as bit patterns.
//!
//! Each component is the `u32` bit pattern of a single-precision value; a
//! matrix is sixteen components in column-major order. The operations the
//! demo needs — vector arithmetic, normalization, the axis-angle quaternion,
//! the look-at and perspective matrices and the matrix product — are `glam`'s,
//! reached through trusted wrappers whose results are named by uninterpreted
//! spec functions of the operand bit patterns.

use vstd::prelude::*;

verus! {

/// A 3-vector of single-precision bit patterns.
#[derive(Clone, Copy, PartialEq, Eq, Structural, Debug)]
pub struct Vec3Bits {
    pub x: u32,
    pub y: u32,
    pub z: u32,
}

/// A quaternion of single-precision bit patterns.
#[derive(Clone, Copy, PartialEq, Eq, Structural, Debug)]
pub struct QuatBits {
    pub x: u32,
    pub y: u32,
    pub z: u32,
    pub w: u32,
}

/// A 4x4 matrix of single-precision bit patterns, in column-major order.
#[derive(Clone, Copy, Debug)]
pub struct Mat4Bits {
    pub m: [u32; 16],
}

impl Vec3Bits {
    /// The component bit patterns as a triple.
    pub open spec fn bits(self) -> (u32, u32, u32) {
        (self.x, self.y, self.z)
    }
}

impl QuatBits {
    /// The component bit patterns as a quadruple.
    pub open spec fn bits(self) -> (u32, u32, u32, u32) {
        (self.x, self.y, self.z, self.w)
    }
}

impl Mat4Bits {
    /// The sixteen column-major component bit patterns.
    pub open spec fn bits(self) -> Seq<u32> {
        self.m@
    }
}

/// Componentwise IEEE difference `a - b` of the 3-vectors with the given component bits.
pub uninterp spec fn vec3_sub_of(a: (u32, u32, u32), b: (u32, u32, u32)) -> (u32, u32, u32);

/// Componentwise IEEE sum `a + b` of the 3-vectors with the given component bits.
pub uninterp spec fn vec3_add_of(a: (u32, u32, u32), b: (u32, u32, u32)) -> (u32, u32, u32);

/// The 3-vector with component bits `v` scaled by the single-precision value with bits `s`.
pub uninterp spec fn vec3_scale_of(v: (u32, u32, u32), s: u32) -> (u32, u32, u32);

/// Cross product of the 3-vectors with the given component bits.
pub uninterp spec fn vec3_cross_of(a: (u32, u32, u32), b: (u32, u32, u32)) -> (u32, u32, u32);

/// The 3-vector with component bits `v` scaled to unit length.
pub uninterp spec fn vec3_normalize_of(v: (u32, u32, u32)) -> (u32, u32, u32);

/// Euclidean length of the 3-vector with component bits `v`.
pub uninterp spec fn vec3_length_of(v: (u32, u32, u32)) -> u32;

/// The quaternion for a rotation of `angle` (radians, as bits) about the axis with bits `axis`.
pub uninterp spec fn quat_from_axis_angle_of(axis: (u32, u32, u32), angle: u32) -> (u32, u32, u32, u32);

/// Column-major bits of the right-handed look-at view matrix for the given eye, target and up.
pub uninterp spec fn mat4_look_at_rh_of(eye: (u32, u32, u32), target: (u32, u32, u32), up: (u32, u32, u32)) -> Seq<u32>;

/// Column-major bits of the right-handed perspective projection matrix for the
/// given vertical field of view (radians, as bits), aspect ratio and near and far planes.
pub uninterp spec fn mat4_perspective_rh_of(fovy: u32, aspect: u32, znear: u32, zfar: u32) -> Seq<u32>;

/// Column-major bits of the matrix product `a * b`.
pub uninterp spec fn mat4_mul_of(a: Seq<u32>, b: Seq<u32>) -> Seq<u32>;

/// Column-major bits of the translation matrix for the 3-vector with bits `t`.
pub uninterp spec fn mat4_from_translation_of(t: (u32, u32, u32)) -> Seq<u32>;

/// Column-major bits of the rotation matrix for the quaternion with bits `q`.
pub uninterp spec fn mat4_from_quat_of(q: (u32, u32, u32, u32)) -> Seq<u32>;

/// Relies on `glam::Vec3` subtraction: the componentwise IEEE difference,
/// a pure function of the operand bit patterns.
#[verifier::external_body]
pub(crate) fn vec3_sub(a: &Vec3Bits, b: &Vec3Bits) -> (r: Vec3Bits)
    ensures
        r.bits() == vec3_sub_of(a.bits(), b.bits()),
{
    let av = glam::Vec3::from_array(bytemuck::cast([a.x, a.y, a.z]));
    let bv = glam::Vec3::from_array(bytemuck::cast([b.x, b.y, b.z]));
    let c = (av - bv).to_array();
    Vec3Bits { x: c[0].to_bits(), y: c[1].to_bits(), z: c[2].to_bits() }
}

/// Relies on `glam::Vec3` addition: the componentwise IEEE sum, a pure
/// function of the operand bit patterns.
#[verifier::external_body]
pub(crate) fn vec3_add(a: &Vec3Bits, b: &Vec3Bits) -> (r: Vec3Bits)
    ensures
        r.bits() == vec3_add_of(a.bits(), b.bits()),
{
    let av = glam::Vec3::from_array(bytemuck::cast([a.x, a.y, a.z]));
    let bv = glam::Vec3::from_array(bytemuck::cast([b.x, b.y, b.z]));
    let c = (av + bv).to_array();
    Vec3Bits { x: c[0].to_bits(), y: c[1].to_bits(), z: c[2].to_bits() }
}

/// Relies on `glam::Vec3` multiplication by a scalar: the componentwise IEEE
/// product, a pure function of the operand bit patterns.
#[verifier::external_body]
pub(crate) fn vec3_scale(v: &Vec3Bits, s: u32) -> (r: Vec3Bits)
    ensures
        r.bits() == vec3_scale_of(v.bits(), s),
{
    let av = glam::Vec3::from_array(bytemuck::cast([v.x, v.y, v.z]));
    let sv = glam::Vec2::from_array(bytemuck::cast([s, s]));
    let c = (av * sv.x).to_array();
    Vec3Bits { x: c[0].to_bits(), y: c[1].to_bits(), z: c[2].to_bits() }
}

/// Relies on `glam::Vec3::cross`: a pure function of the operand bit patterns.
#[verifier::external_body]
pub(crate) fn vec3_cross(a: &Vec3Bits, b: &Vec3Bits) -> (r: Vec3Bits)
    ensures
        r.bits() == vec3_cross_of(a.bits(), b.bits()),
{
    let av = glam::Vec3::from_array(bytemuck::cast([a.x, a.y, a.z]));
    let bv = glam::Vec3::from_array(bytemuck::cast([b.x, b.y, b.z]));
    let c = av.cross(bv).to_array();
    Vec3Bits { x: c[0].to_bits(), y: c[1].to_bits(), z: c[2].to_bits() }
}

/// Relies on `glam::Vec3::normalize`: a pure function of the operand bit
/// pattern (for a zero or non-finite operand its components are non-finite).
#[verifier::external_body]
pub(crate) fn vec3_normalize(v: &Vec3Bits) -> (r: Vec3Bits)
    ensures
        r.bits() == vec3_normalize_of(v.bits()),
{
    let av = glam::Vec3::from_array(bytemuck::cast([v.x, v.y, v.z]));
    let c = av.normalize().to_array();
    Vec3Bits { x: c[0].to_bits(), y: c[1].to_bits(), z: c[2].to_bits() }
}

/// Relies on `glam::Vec3::length`: a pure function of the operand bit pattern.
#[verifier::external_body]
pub(crate) fn vec3_length(v: &Vec3Bits) -> (r: u32)
    ensures
        r == vec3_length_of(v.bits()),
{
    let av = glam::Vec3::from_array(bytemuck::cast([v.x, v.y, v.z]));
    av.length().to_bits()
}

/// Relies on `glam::Quat::from_axis_angle`: a pure function of the axis and
/// angle bit patterns.
#[verifier::external_body]
pub(crate) fn quat_from_axis_angle(axis: &Vec3Bits, angle: u32) -> (r: QuatBits)
    ensures
        r.bits() == quat_from_axis_angle_of(axis.bits(), angle),
{
    let av = glam::Vec3::from_array(bytemuck::cast([axis.x, axis.y, axis.z]));
    let sv = glam::Vec2::from_array(bytemuck::cast([angle, angle]));
    let q = glam::Quat::from_axis_angle(av, sv.x).to_array();
    QuatBits { x: q[0].to_bits(), y: q[1].to_bits(), z: q[2].to_bits(), w: q[3].to_bits() }
}

/// Relies on `glam::Mat4::look_at_rh`: a pure function of the eye, target and
/// up bit patterns.
#[verifier::external_body]
pub(crate) fn mat4_look_at_rh(eye: &Vec3Bits, target: &Vec3Bits, up: &Vec3Bits) -> (r: Mat4Bits)
    ensures
        r.bits() == mat4_look_at_rh_of(eye.bits(), target.bits(), up.bits()),
{
    let e = glam::Vec3::from_array(bytemuck::cast([eye.x, eye.y, eye.z]));
    let t = glam::Vec3::from_array(bytemuck::cast([target.x, target.y, target.z]));
    let u = glam::Vec3::from_array(bytemuck::cast([up.x, up.y, up.z]));
    Mat4Bits { m: bytemuck::cast(glam::Mat4::look_at_rh(e, t, u).to_cols_array()) }
}

/// Relies on `glam::Mat4::perspective_rh`: a pure function of the field of
/// view, aspect ratio and plane bit patterns.
#[verifier::external_body]
pub(crate) fn mat4_perspective_rh(fovy: u32, aspect: u32, znear: u32, zfar: u32) -> (r: Mat4Bits)
    ensures
        r.bits() == mat4_perspective_rh_of(fovy, aspect, znear, zfar),
{
    let v = glam::Vec4::from_array(bytemuck::cast([fovy, aspect, znear, zfar]));
    Mat4Bits { m: bytemuck::cast(glam::Mat4::perspective_rh(v.x, v.y, v.z, v.w).to_cols_array()) }
}

/// Relies on `glam::Mat4` multiplication: a pure function of the operand bit
/// patterns.
#[verifier::external_body]
pub(crate) fn mat4_mul(a: &Mat4Bits, b: &Mat4Bits) -> (r: Mat4Bits)
    ensures
        r.bits() == mat4_mul_of(a.bits(), b.bits()),
{
    let am = glam::Mat4::from_cols_array(&bytemuck::cast(a.m));
    let bm = glam::Mat4::from_cols_array(&bytemuck::cast(b.m));
    Mat4Bits { m: bytemuck::cast((am * bm).to_cols_array()) }
}

/// Relies on `glam::Mat4::from_translation`: a pure function of the
/// translation bit patterns.
#[verifier::external_body]
pub(crate) fn mat4_from_translation(t: &Vec3Bits) -> (r: Mat4Bits)
    ensures
        r.bits() == mat4_from_translation_of(t.bits()),
{
    let tv = glam::Vec3::from_array(bytemuck::cast([t.x, t.y, t.z]));
    Mat4Bits { m: bytemuck::cast(glam::Mat4::from_translation(tv).to_cols_array()) }
}

/// Relies on `glam::Mat4::from_quat`: a pure function of the quaternion bit
/// patterns.
#[verifier::external_body]
pub(crate) fn mat4_from_quat(q: &QuatBits) -> (r: Mat4Bits)
    ensures
        r.bits() == mat4_from_quat_of(q.bits()),
{
    let qv = glam::Quat::from_array(bytemuck::cast([q.x, q.y, q.z, q.w]));
    Mat4Bits { m: bytemuck::cast(glam::Mat4::from_quat(qv).to_cols_array()) }
}

} // verus!
