//! The trusted boundary to the external linear-algebra crate.
//!
//! Matrix entries, quaternion components and vertex attributes are carried
//! through this crate as the 32-bit patterns of the IEEE-754 single-precision
//! values they encode. The functions here are the only places where those
//! patterns are handed to code that computes with the encoded numbers; each
//! result is named by an uninterpreted spec function, so every caller's
//! contract states exactly which computation produced its value.
//!
//! All matrix buffers are interpreted in column-major entry order, and all
//! quaternion buffers in `[x, y, z, w]` component order, matching the external
//! crate's own layout.

use core::ops::Mul;
use vstd::prelude::*;

verus! {

/// The column-major bit patterns of the matrix product `A * B`, where `A` and
/// `B` are the 4x4 single-precision matrices whose column-major bit patterns
/// are `a` and `b`.
pub uninterp spec fn mat4_mul_bits(a: Seq<u32>, b: Seq<u32>) -> Seq<u32>;

/// The `[x, y, z, w]` bit patterns of the rotation quaternion extracted from
/// the upper 3x3 block of the 4x4 matrix whose column-major bit patterns are `m`.
pub uninterp spec fn rot_quat_bits(m: Seq<u32>) -> Seq<u32>;

/// The `[x, y, z, w]` bit patterns of the quaternion product `a * b` of the
/// quaternions whose component bit patterns are `a` and `b`.
pub uninterp spec fn quat_mul_bits(a: Seq<u32>, b: Seq<u32>) -> Seq<u32>;

/// The component bit patterns of the quaternion `q` with every component
/// multiplied by the single-precision value whose bit pattern is `s`.
pub uninterp spec fn quat_scale_bits(q: Seq<u32>, s: u32) -> Seq<u32>;

/// Relies on `glam::Mat4::mul_mat4`: multiplies two 4x4 matrices, both given
/// and returned as column-major arrays (`from_cols_array` / `to_cols_array`);
/// `bytemuck::cast` only reinterprets the arrays between bit patterns and the
/// values they encode.
#[verifier::external_body]
pub(crate) fn mat4_multiply(a: &Vec<u32>, b: &Vec<u32>) -> (r: Vec<u32>)
    requires
        a@.len() == 16,
        b@.len() == 16,
    ensures
        r@ == mat4_mul_bits(a@, b@),
        r@.len() == 16,
{
    let ca: &[u32; 16] = a.as_slice().try_into().unwrap();
    let cb: &[u32; 16] = b.as_slice().try_into().unwrap();
    let ma = glam::Mat4::from_cols_array(bytemuck::cast_ref(ca));
    let mb = glam::Mat4::from_cols_array(bytemuck::cast_ref(cb));
    let out: [u32; 16] = bytemuck::cast(ma.mul_mat4(&mb).to_cols_array());
    out.to_vec()
}

/// Relies on `glam::Quat::from_mat4`: extracts a rotation quaternion, with
/// `[x, y, z, w]` component order (`to_array`), from the upper 3x3 block of a
/// 4x4 column-major matrix. A quaternion has exactly four components.
#[verifier::external_body]
pub(crate) fn mat4_rotation_quat(m: &Vec<u32>) -> (r: Vec<u32>)
    requires
        m@.len() == 16,
    ensures
        r@ == rot_quat_bits(m@),
        r@.len() == 4,
{
    let cm: &[u32; 16] = m.as_slice().try_into().unwrap();
    let mat = glam::Mat4::from_cols_array(bytemuck::cast_ref(cm));
    let out: [u32; 4] = bytemuck::cast(glam::Quat::from_mat4(&mat).to_array());
    out.to_vec()
}

/// Relies on `glam::Quat::mul_quat`: the Hamilton product of two quaternions,
/// both given and returned in `[x, y, z, w]` component order (`from_array` /
/// `to_array`). The product of two quaternions has exactly four components.
#[verifier::external_body]
pub(crate) fn quat_multiply(a: &Vec<u32>, b: &Vec<u32>) -> (r: Vec<u32>)
    requires
        a@.len() == 4,
        b@.len() == 4,
    ensures
        r@ == quat_mul_bits(a@, b@),
        r@.len() == 4,
{
    let ca: &[u32; 4] = a.as_slice().try_into().unwrap();
    let cb: &[u32; 4] = b.as_slice().try_into().unwrap();
    let qa = glam::Quat::from_array(bytemuck::cast(*ca));
    let qb = glam::Quat::from_array(bytemuck::cast(*cb));
    let out: [u32; 4] = bytemuck::cast(qa.mul_quat(qb).to_array());
    out.to_vec()
}

/// Relies on `glam::Vec4::mul` with a splatted scalar: multiplies each of the
/// four components of `q` by the single value whose bit pattern is `s`.
#[verifier::external_body]
pub(crate) fn quat_scale(q: &Vec<u32>, s: u32) -> (r: Vec<u32>)
    requires
        q@.len() == 4,
    ensures
        r@ == quat_scale_bits(q@, s),
        r@.len() == 4,
{
    let cq: &[u32; 4] = q.as_slice().try_into().unwrap();
    let vq = glam::Vec4::from_array(bytemuck::cast(*cq));
    let vs = glam::Vec4::splat(bytemuck::cast(s));
    let out: [u32; 4] = bytemuck::cast(vq.mul(vs).to_array());
    out.to_vec()
}

} // verus!
