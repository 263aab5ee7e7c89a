//! Scalar IEEE-754 arithmetic on bit patterns.
//!
//! The library stores every single-precision value as its bit pattern in a
//! `u32` (and every double-precision value as a `u64`). Arithmetic on the
//! denoted values is done by the platform's IEEE operations, reached through
//! `glam`'s scalar containers; each operation's result is named by an
//! uninterpreted spec function of the operand bit patterns, so that contracts
//! can pin results down exactly without restating floating-point arithmetic.

use vstd::prelude::*;

verus! {

/// Bit pattern of the single-precision value 0.0.
pub const F32_ZERO: u32 = 0x0000_0000;
/// Bit pattern of the single-precision value 1.0.
pub const F32_ONE: u32 = 0x3f80_0000;
/// Bit pattern of the single-precision value 2.0.
pub const F32_TWO: u32 = 0x4000_0000;
/// Bit pattern of the single-precision value 3.0.
pub const F32_THREE: u32 = 0x4040_0000;
/// Bit pattern of the single-precision value 0.1.
pub const F32_TENTH: u32 = 0x3dcc_cccd;
/// Bit pattern of the single-precision value 0.2.
pub const F32_FIFTH: u32 = 0x3e4c_cccd;
/// Bit pattern of the single-precision value 45.0.
pub const F32_FORTY_FIVE: u32 = 0x4234_0000;
/// Bit pattern of the single-precision value 100.0.
pub const F32_HUNDRED: u32 = 0x42c8_0000;
/// Bit pattern of the double-precision value 1.0.
pub const F64_ONE: u64 = 0x3ff0_0000_0000_0000;

/// Bit pattern of the single-precision value that `x` converts to.
pub uninterp spec fn f32_from_u32_of(x: u32) -> u32;

/// Quotient of the single-precision values with bit patterns `a` and `b`.
pub uninterp spec fn f32_div_of(a: u32, b: u32) -> u32;

/// Difference of the single-precision values with bit patterns `a` and `b`.
pub uninterp spec fn f32_sub_of(a: u32, b: u32) -> u32;

/// Product of the single-precision values with bit patterns `a` and `b`.
pub uninterp spec fn f32_mul_of(a: u32, b: u32) -> u32;

/// Whether the single-precision value with bits `a` compares greater than the one with bits `b`.
pub uninterp spec fn f32_gt_of(a: u32, b: u32) -> bool;

/// Whether the single-precision values with bits `a` and `b` compare equal.
pub uninterp spec fn f32_eq_of(a: u32, b: u32) -> bool;

/// The single-precision value with bits `x`, taken as degrees, converted to radians.
pub uninterp spec fn f32_radians_of(x: u32) -> u32;

/// Bit pattern of the double-precision value that `x` converts to.
pub uninterp spec fn f64_from_u32_of(x: u32) -> u64;

/// Quotient of the double-precision values with bit patterns `a` and `b`.
pub uninterp spec fn f64_div_of(a: u64, b: u64) -> u64;

/// Relies on `glam::UVec2::as_vec2`, the integer-to-single-precision
/// conversion: a pure function of the integer.
#[verifier::external_body]
pub(crate) fn f32_from_u32(x: u32) -> (r: u32)
    ensures
        r == f32_from_u32_of(x),
{
    glam::UVec2::splat(x).as_vec2().x.to_bits()
}

/// Relies on the IEEE single-precision division, reached through `glam::Vec2`
/// components: a pure function of the two bit patterns.
#[verifier::external_body]
pub(crate) fn f32_div(a: u32, b: u32) -> (r: u32)
    ensures
        r == f32_div_of(a, b),
{
    let v = glam::Vec2::from_array(bytemuck::cast([a, b]));
    (v.x / v.y).to_bits()
}

/// Relies on the IEEE single-precision subtraction, reached through
/// `glam::Vec2` components: a pure function of the two bit patterns.
#[verifier::external_body]
pub(crate) fn f32_sub(a: u32, b: u32) -> (r: u32)
    ensures
        r == f32_sub_of(a, b),
{
    let v = glam::Vec2::from_array(bytemuck::cast([a, b]));
    (v.x - v.y).to_bits()
}

/// Relies on the IEEE single-precision multiplication, reached through
/// `glam::Vec2` components: a pure function of the two bit patterns.
#[verifier::external_body]
pub(crate) fn f32_mul(a: u32, b: u32) -> (r: u32)
    ensures
        r == f32_mul_of(a, b),
{
    let v = glam::Vec2::from_array(bytemuck::cast([a, b]));
    (v.x * v.y).to_bits()
}

/// Relies on the IEEE single-precision `>` comparison, reached through
/// `glam::Vec2` components: a pure function of the two bit patterns.
#[verifier::external_body]
pub(crate) fn f32_gt(a: u32, b: u32) -> (r: bool)
    ensures
        r == f32_gt_of(a, b),
{
    let v = glam::Vec2::from_array(bytemuck::cast([a, b]));
    v.x > v.y
}

/// Relies on the IEEE single-precision `==` comparison, reached through
/// `glam::Vec2` components: a pure function of the two bit patterns.
#[verifier::external_body]
pub(crate) fn f32_eq(a: u32, b: u32) -> (r: bool)
    ensures
        r == f32_eq_of(a, b),
{
    let v = glam::Vec2::from_array(bytemuck::cast([a, b]));
    v.x == v.y
}

/// Relies on the standard degrees-to-radians conversion of single-precision
/// values, reached through a `glam::Vec2` component: a pure function of the
/// bit pattern.
#[verifier::external_body]
pub(crate) fn f32_to_radians(x: u32) -> (r: u32)
    ensures
        r == f32_radians_of(x),
{
    let v = glam::Vec2::from_array(bytemuck::cast([x, x]));
    v.x.to_radians().to_bits()
}

/// Relies on `glam::UVec2::as_dvec2`, the integer-to-double-precision
/// conversion: a pure function of the integer.
#[verifier::external_body]
pub(crate) fn f64_from_u32(x: u32) -> (r: u64)
    ensures
        r == f64_from_u32_of(x),
{
    glam::UVec2::splat(x).as_dvec2().x.to_bits()
}

/// Relies on the IEEE double-precision division, reached through `glam::DVec2`
/// components: a pure function of the two bit patterns.
#[verifier::external_body]
pub(crate) fn f64_div(a: u64, b: u64) -> (r: u64)
    ensures
        r == f64_div_of(a, b),
{
    let v = glam::DVec2::from_array(bytemuck::cast([a, b]));
    (v.x / v.y).to_bits()
}

} // verus!
