//! Host-side camera: pose (position, target, up) and projection parameters
//! (aspect, vertical field of view, near and far planes), all carried as
//! IEEE-754 single-precision bit patterns.
//!
//! The view and projection matrices and the movement arithmetic are
//! delegated to `glam` (see `fbits`); every method's contract pins its
//! result exactly as a composition of those named operations wherever the
//! arithmetic stays NaN-free — the bits of a produced NaN are not
//! machine-determined, so a degenerate pose (position equal to target, or
//! up parallel to the view direction) leaves the outcome unconstrained.

use vstd::prelude::*;

use crate::fbits::{
    f32_to_radians, is_nan_bits, mat4_look_at, mat4_perspective, nan_free, proj_of, radians_of,
    vadd_of, vcross_of, vec3_add, vec3_cross, vec3_normalize, vec3_scale, vec3_sub, view_of,
    vnorm_of, vscale_of, vsub_of,
};

verus! {

/// Bit pattern of the default aspect ratio, sixteen ninths.
pub const DEFAULT_ASPECT_BITS: u32 = 0x3FE38E39;

/// Bit pattern of the default vertical field of view, 45 degrees.
pub const DEFAULT_FOV_BITS: u32 = 0x42340000;

/// Bit pattern of the default near plane distance, one tenth.
pub const DEFAULT_NEAR_BITS: u32 = 0x3DCCCCCD;

/// Bit pattern of the default far plane distance, one thousand.
pub const DEFAULT_FAR_BITS: u32 = 0x447A0000;

/// Camera pose and projection parameters; scalars are float bit patterns.
pub struct Camera {
    pub position: [u32; 3],
    pub target: [u32; 3],
    pub up: [u32; 3],
    pub aspect: u32,
    pub fov: u32,
    pub near: u32,
    pub far: u32,
}

/// The unit vector the camera looks along: the normalized difference of
/// target and position.
pub open spec fn forward_dir(c: Camera) -> Seq<u32> {
    vnorm_of(vsub_of(c.target@, c.position@))
}

/// The unit strafe vector: the normalized cross product of the forward
/// direction with the up vector (fixed handedness, so the strafe direction
/// does not depend on camera roll).
pub open spec fn right_dir(c: Camera) -> Seq<u32> {
    vnorm_of(vcross_of(forward_dir(c), c.up@))
}

/// Both pose points translated by `delta`; every other field unchanged.
pub open spec fn translated(pre: Camera, post: Camera, delta: Seq<u32>) -> bool {
    &&& post.position@ == vadd_of(pre.position@, delta)
    &&& post.target@ == vadd_of(pre.target@, delta)
    &&& post.up == pre.up
    &&& post.aspect == pre.aspect
    &&& post.fov == pre.fov
    &&& post.near == pre.near
    &&& post.far == pre.far
}

/// A forward move stays NaN-free for this pose and distance: the pose
/// difference, its normalization, the scaled step and both translated
/// points all have NaN-free bits.
pub open spec fn forward_move_defined(c: Camera, d: u32) -> bool {
    &&& nan_free(vsub_of(c.target@, c.position@))
    &&& nan_free(forward_dir(c))
    &&& nan_free(vscale_of(forward_dir(c), d))
    &&& nan_free(vadd_of(c.position@, vscale_of(forward_dir(c), d)))
    &&& nan_free(vadd_of(c.target@, vscale_of(forward_dir(c), d)))
}

/// A strafe stays NaN-free for this pose and distance, through the cross
/// product and its normalization as well.
pub open spec fn right_move_defined(c: Camera, d: u32) -> bool {
    &&& nan_free(vsub_of(c.target@, c.position@))
    &&& nan_free(forward_dir(c))
    &&& nan_free(vcross_of(forward_dir(c), c.up@))
    &&& nan_free(right_dir(c))
    &&& nan_free(vscale_of(right_dir(c), d))
    &&& nan_free(vadd_of(c.position@, vscale_of(right_dir(c), d)))
    &&& nan_free(vadd_of(c.target@, vscale_of(right_dir(c), d)))
}

/// The projection parameters stay NaN-free: the field of view converts to
/// radians and the perspective matrix has NaN-free entries.
pub open spec fn projection_defined(c: Camera) -> bool {
    &&& !is_nan_bits(radians_of(c.fov))
    &&& nan_free(proj_of(radians_of(c.fov), c.aspect, c.near, c.far))
}

impl Camera {
    /// A camera at `position` looking at `target` with the given up vector,
    /// with the default projection parameters.
    pub fn new(position: [u32; 3], target: [u32; 3], up: [u32; 3]) -> (c: Camera)
        ensures
            c.position == position,
            c.target == target,
            c.up == up,
            c.aspect == DEFAULT_ASPECT_BITS,
            c.fov == DEFAULT_FOV_BITS,
            c.near == DEFAULT_NEAR_BITS,
            c.far == DEFAULT_FAR_BITS,
    {
        Camera {
            position,
            target,
            up,
            aspect: DEFAULT_ASPECT_BITS,
            fov: DEFAULT_FOV_BITS,
            near: DEFAULT_NEAR_BITS,
            far: DEFAULT_FAR_BITS,
        }
    }

    /// The right-handed look-at view matrix for the current pose,
    /// column-major; pinned wherever the pose keeps it NaN-free.
    pub fn view_matrix(&self) -> (m: [u32; 16])
        ensures
            nan_free(view_of(self.position@, self.target@, self.up@)) ==> m@ == view_of(
                self.position@,
                self.target@,
                self.up@,
            ),
            nan_free(m@) ==> m@ == view_of(self.position@, self.target@, self.up@),
    {
        mat4_look_at(self.position, self.target, self.up)
    }

    /// The right-handed perspective projection matrix for the current
    /// parameters (field of view converted from degrees to radians),
    /// column-major; pinned wherever the parameters keep it NaN-free.
    pub fn projection_matrix(&self) -> (m: [u32; 16])
        ensures
            projection_defined(*self) ==> m@ == proj_of(
                radians_of(self.fov),
                self.aspect,
                self.near,
                self.far,
            ),
            !is_nan_bits(radians_of(self.fov)) && nan_free(m@) ==> m@ == proj_of(
                radians_of(self.fov),
                self.aspect,
                self.near,
                self.far,
            ),
    {
        let fov_rad = f32_to_radians(self.fov);
        mat4_perspective(fov_rad, self.aspect, self.near, self.far)
    }

    /// Replaces the aspect ratio used by subsequent projection
    /// computations; the pose and the other parameters are untouched.
    pub fn update_aspect(&mut self, aspect: u32)
        ensures
            final(self).aspect == aspect,
            final(self).position == old(self).position,
            final(self).target == old(self).target,
            final(self).up == old(self).up,
            final(self).fov == old(self).fov,
            final(self).near == old(self).near,
            final(self).far == old(self).far,
    {
        self.aspect = aspect;
    }

    /// Translates position and target along the forward direction by
    /// `distance` (a float bit pattern), preserving the look direction and
    /// the distance to the target. With `position == target` the forward
    /// direction normalizes to NaN components and the new pose points are
    /// unconstrained; callers must keep the two points distinct.
    pub fn move_forward(&mut self, distance: u32)
        ensures
            forward_move_defined(*old(self), distance) ==> translated(
                *old(self),
                *final(self),
                vscale_of(forward_dir(*old(self)), distance),
            ),
            final(self).up == old(self).up,
            final(self).aspect == old(self).aspect,
            final(self).fov == old(self).fov,
            final(self).near == old(self).near,
            final(self).far == old(self).far,
    {
        let forward = vec3_normalize(vec3_sub(self.target, self.position));
        let delta = vec3_scale(forward, distance);
        self.position = vec3_add(self.position, delta);
        self.target = vec3_add(self.target, delta);
    }

    /// Translates position and target along the strafe direction
    /// (forward cross up, normalized) by `distance` (a float bit pattern).
    /// As with `move_forward`, a degenerate pose yields NaN components and
    /// leaves the new pose points unconstrained.
    pub fn move_right(&mut self, distance: u32)
        ensures
            right_move_defined(*old(self), distance) ==> translated(
                *old(self),
                *final(self),
                vscale_of(right_dir(*old(self)), distance),
            ),
            final(self).up == old(self).up,
            final(self).aspect == old(self).aspect,
            final(self).fov == old(self).fov,
            final(self).near == old(self).near,
            final(self).far == old(self).far,
    {
        let forward = vec3_normalize(vec3_sub(self.target, self.position));
        let right = vec3_normalize(vec3_cross(forward, self.up));
        let delta = vec3_scale(right, distance);
        self.position = vec3_add(self.position, delta);
        self.target = vec3_add(self.target, delta);
    }

    /// The current world-space position.
    pub fn position(&self) -> (p: [u32; 3])
        ensures
            p == self.position,
    {
        self.position
    }
}

} // verus!
