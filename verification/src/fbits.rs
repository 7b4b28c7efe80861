//! Trusted bit-pattern views of the floating-point operations the renderer
//! delegates to `glam` and to `std`.
//!
//! Verified code never holds a float: a scalar is carried as the `u32` bit
//! pattern of the IEEE-754 single-precision value, a vector as `[u32; 3]`,
//! a column-major 4x4 matrix as `[u32; 16]`. Each operation below
//! reinterprets bit patterns as floats through `bytemuck::cast`, makes one
//! outside call, and reinterprets the result back.
//!
//! Wherever an operation's result is free of NaN, IEEE-754 fixes its bits
//! on every machine, so the result is given a name (`..._of`) that the
//! callers' contracts compose. The bits of a produced NaN, however, are
//! not determined across machines, so every clause below is conditioned on
//! NaN-freedom and a NaN outcome is left unconstrained. The trigonometry
//! inside the perspective projection is pinned by building `glam` with its
//! `libm` feature, which computes sine and cosine in pure Rust instead of
//! the platform's (non-deterministic) math library.

use vstd::prelude::*;

verus! {

/// Whether a word is the bit pattern of a NaN: exponent all ones and a
/// nonzero mantissa.
pub open spec fn is_nan_bits(w: u32) -> bool {
    (w & 0x7F800000) == 0x7F800000 && (w & 0x007FFFFF) != 0
}

/// Whether no word of a value is a NaN bit pattern.
pub open spec fn nan_free(ws: Seq<u32>) -> bool {
    forall|i: int| 0 <= i < ws.len() ==> !is_nan_bits(#[trigger] ws[i])
}

/// Componentwise difference of two vectors, by bit pattern.
pub uninterp spec fn vsub_of(a: Seq<u32>, b: Seq<u32>) -> Seq<u32>;

/// Componentwise sum of two vectors, by bit pattern.
pub uninterp spec fn vadd_of(a: Seq<u32>, b: Seq<u32>) -> Seq<u32>;

/// A vector scaled by a scalar, by bit pattern.
pub uninterp spec fn vscale_of(v: Seq<u32>, s: u32) -> Seq<u32>;

/// A vector scaled by the reciprocal of its own length, by bit pattern.
pub uninterp spec fn vnorm_of(v: Seq<u32>) -> Seq<u32>;

/// The cross product of two vectors, by bit pattern.
pub uninterp spec fn vcross_of(a: Seq<u32>, b: Seq<u32>) -> Seq<u32>;

/// The right-handed look-at view matrix for an eye point, a target point
/// and an up vector, column-major, by bit pattern.
pub uninterp spec fn view_of(eye: Seq<u32>, center: Seq<u32>, up: Seq<u32>) -> Seq<u32>;

/// The right-handed perspective projection matrix (depth range zero to one)
/// for a vertical field of view in radians, an aspect ratio and the near
/// and far plane distances, column-major, by bit pattern.
pub uninterp spec fn proj_of(fov_rad: u32, aspect: u32, near: u32, far: u32) -> Seq<u32>;

/// The product of two 4x4 matrices, column-major, by bit pattern.
pub uninterp spec fn mmul_of(a: Seq<u32>, b: Seq<u32>) -> Seq<u32>;

/// An angle in degrees converted to radians, by bit pattern.
pub uninterp spec fn radians_of(deg: u32) -> u32;

/// The quotient of two scalars, by bit pattern.
pub uninterp spec fn fdiv_of(a: u32, b: u32) -> u32;

/// The nearest float to an unsigned integer, by bit pattern.
pub uninterp spec fn f32_of_u32(x: u32) -> u32;

/// Relies on the `Sub` impl of `glam::Vec3`: the componentwise difference,
/// whose bits the operands determine wherever the result is NaN-free.
#[verifier::external_body]
pub(crate) fn vec3_sub(a: [u32; 3], b: [u32; 3]) -> (r: [u32; 3])
    ensures
        nan_free(vsub_of(a@, b@)) ==> r@ == vsub_of(a@, b@),
        nan_free(r@) ==> r@ == vsub_of(a@, b@),
{
    let va: glam::Vec3 = bytemuck::cast(a);
    let vb: glam::Vec3 = bytemuck::cast(b);
    bytemuck::cast(va - vb)
}

/// Relies on the `Add` impl of `glam::Vec3`: the componentwise sum, whose
/// bits the operands determine wherever the result is NaN-free.
#[verifier::external_body]
pub(crate) fn vec3_add(a: [u32; 3], b: [u32; 3]) -> (r: [u32; 3])
    ensures
        nan_free(vadd_of(a@, b@)) ==> r@ == vadd_of(a@, b@),
        nan_free(r@) ==> r@ == vadd_of(a@, b@),
{
    let va: glam::Vec3 = bytemuck::cast(a);
    let vb: glam::Vec3 = bytemuck::cast(b);
    bytemuck::cast(va + vb)
}

/// Relies on the `Mul` impl of `glam::Vec3` by a scalar: each component
/// scaled, the bits determined by the operands wherever the result is
/// NaN-free.
#[verifier::external_body]
pub(crate) fn vec3_scale(v: [u32; 3], s: u32) -> (r: [u32; 3])
    ensures
        nan_free(vscale_of(v@, s)) ==> r@ == vscale_of(v@, s),
        nan_free(r@) ==> r@ == vscale_of(v@, s),
{
    let vv: glam::Vec3 = bytemuck::cast(v);
    let sv: glam::Vec3 = bytemuck::cast([s, 0u32, 0u32]);
    bytemuck::cast(vv * sv.x)
}

/// Relies on `glam::Vec3::normalize`: the vector scaled by the reciprocal
/// of its length (NaN components when the length is zero; with default
/// crate features it never panics). The operand determines the bits
/// wherever the result is NaN-free.
#[verifier::external_body]
pub(crate) fn vec3_normalize(v: [u32; 3]) -> (r: [u32; 3])
    ensures
        nan_free(vnorm_of(v@)) ==> r@ == vnorm_of(v@),
        nan_free(r@) ==> r@ == vnorm_of(v@),
{
    let vv: glam::Vec3 = bytemuck::cast(v);
    bytemuck::cast(vv.normalize())
}

/// Relies on `glam::Vec3::cross`: the right-handed cross product, whose
/// bits the operands determine wherever the result is NaN-free.
#[verifier::external_body]
pub(crate) fn vec3_cross(a: [u32; 3], b: [u32; 3]) -> (r: [u32; 3])
    ensures
        nan_free(vcross_of(a@, b@)) ==> r@ == vcross_of(a@, b@),
        nan_free(r@) ==> r@ == vcross_of(a@, b@),
{
    let va: glam::Vec3 = bytemuck::cast(a);
    let vb: glam::Vec3 = bytemuck::cast(b);
    bytemuck::cast(va.cross(vb))
}

/// Relies on `glam::camera::rh::view::look_at_mat4`: the right-handed view
/// matrix from eye, target and up — a fixed sequence of IEEE subtractions,
/// products, square roots and divisions, so the arguments determine the
/// bits wherever the result is NaN-free (a degenerate pose yields NaN
/// entries; with default crate features it never panics).
#[verifier::external_body]
pub(crate) fn mat4_look_at(eye: [u32; 3], center: [u32; 3], up: [u32; 3]) -> (m: [u32; 16])
    ensures
        nan_free(view_of(eye@, center@, up@)) ==> m@ == view_of(eye@, center@, up@),
        nan_free(m@) ==> m@ == view_of(eye@, center@, up@),
{
    let e: glam::Vec3 = bytemuck::cast(eye);
    let c: glam::Vec3 = bytemuck::cast(center);
    let u: glam::Vec3 = bytemuck::cast(up);
    bytemuck::cast(glam::camera::rh::view::look_at_mat4(e, c, u))
}

/// Relies on `glam::camera::rh::proj::directx::perspective`, with `glam`
/// built on its `libm` feature so the sine and cosine of the half field of
/// view come from the pure-Rust `libm` crate rather than the platform's
/// math library: the arguments then determine the matrix bits wherever the
/// result is NaN-free (with the crate's features it never panics).
#[verifier::external_body]
pub(crate) fn mat4_perspective(fov_rad: u32, aspect: u32, near: u32, far: u32) -> (m: [u32; 16])
    ensures
        nan_free(proj_of(fov_rad, aspect, near, far)) ==> m@ == proj_of(
            fov_rad,
            aspect,
            near,
            far,
        ),
        nan_free(m@) ==> m@ == proj_of(fov_rad, aspect, near, far),
{
    let p: glam::Vec4 = bytemuck::cast([fov_rad, aspect, near, far]);
    bytemuck::cast(glam::camera::rh::proj::directx::perspective(p.x, p.y, p.z, p.w))
}

/// Relies on the `Mul` impl of `glam::Mat4`: the matrix product, a fixed
/// sequence of IEEE products and sums, so the operands determine the bits
/// wherever the result is NaN-free.
#[verifier::external_body]
pub(crate) fn mat4_mul(a: [u32; 16], b: [u32; 16]) -> (m: [u32; 16])
    ensures
        nan_free(mmul_of(a@, b@)) ==> m@ == mmul_of(a@, b@),
        nan_free(m@) ==> m@ == mmul_of(a@, b@),
{
    let ma: glam::Mat4 = bytemuck::cast(a);
    let mb: glam::Mat4 = bytemuck::cast(b);
    bytemuck::cast(ma * mb)
}

/// Relies on std's `to_radians` on the single-precision float type: one
/// IEEE multiplication by a constant, so the argument determines the bits
/// wherever the result is not NaN (only a NaN input produces one).
#[verifier::external_body]
pub(crate) fn f32_to_radians(deg: u32) -> (r: u32)
    ensures
        !is_nan_bits(radians_of(deg)) ==> r == radians_of(deg),
        !is_nan_bits(r) ==> r == radians_of(deg),
{
    let v: glam::Vec3 = bytemuck::cast([deg, 0u32, 0u32]);
    v.x.to_radians().to_bits()
}

/// Relies on the `Div` impl of the single-precision float type: the
/// IEEE-754 quotient (infinity on a zero divisor, NaN for zero over zero
/// or infinity over infinity, never a panic), whose bits the operands
/// determine wherever the result is not NaN.
#[verifier::external_body]
pub(crate) fn f32_div(a: u32, b: u32) -> (r: u32)
    ensures
        !is_nan_bits(fdiv_of(a, b)) ==> r == fdiv_of(a, b),
        !is_nan_bits(r) ==> r == fdiv_of(a, b),
{
    let v: glam::Vec3 = bytemuck::cast([a, b, 0u32]);
    (v.x / v.y).to_bits()
}

/// Relies on `glam::UVec3::as_vec3`: the conversion of an unsigned integer
/// to the nearest float — total, correctly rounded and never NaN, so it is
/// a function of the argument alone.
#[verifier::external_body]
pub(crate) fn u32_to_f32_bits(x: u32) -> (r: u32)
    ensures
        r == f32_of_u32(x),
        !is_nan_bits(r),
{
    glam::UVec3::new(x, 0, 0).as_vec3().x.to_bits()
}

} // verus!
