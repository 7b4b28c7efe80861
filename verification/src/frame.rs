//! The per-frame protocol: the uniform bytes written before each render
//! pass, and the event-loop decisions — what to do with each surface
//! acquisition outcome, how movement keys drive the camera, and when a
//! resize changes the aspect ratio.

use vstd::prelude::*;

use crate::camera::{
    forward_dir, forward_move_defined, right_dir, right_move_defined, translated, Camera,
};
use crate::fbits::{
    f32_div, f32_of_u32, fdiv_of, is_nan_bits, mat4_mul, mmul_of, nan_free, u32_to_f32_bits,
    vscale_of,
};
use crate::layout::{
    camera_uniform_bytes, light_uniform_bytes, pack_camera_uniform, pack_light_uniform,
    CAMERA_UNIFORM_SIZE, LIGHT_UNIFORM_SIZE,
};
use crate::{NEG_ONE_F32_BITS, ONE_F32_BITS};

verus! {

/// The outcome of acquiring the next drawable surface image.
#[derive(Clone, Copy, PartialEq, Eq, Debug)]
pub enum SurfaceStatus {
    /// An image was acquired and can be rendered into.
    Acquired,
    /// The surface was lost and must be reconfigured.
    Lost,
    /// The presentation layer ran out of memory.
    OutOfMemory,
    /// Any other single-frame acquisition error.
    OtherError,
}

/// What the frame loop does in response to an acquisition outcome.
#[derive(Clone, Copy, PartialEq, Eq, Debug)]
pub enum FrameAction {
    /// Render the frame and present it.
    RenderAndPresent,
    /// Reconfigure the surface against the current dimensions and retry on
    /// the next frame.
    Reconfigure,
    /// Terminate the frame loop.
    Exit,
    /// Report the error and drop the frame, continuing the loop.
    SkipFrame,
}

/// The frame loop's error policy: render on success, reconfigure on a lost
/// surface, terminate on out-of-memory, and drop the frame on any other
/// error — each outcome mapped to exactly one action.
pub fn frame_action(status: &SurfaceStatus) -> (a: FrameAction)
    ensures
        (a == FrameAction::RenderAndPresent) <==> (status is Acquired),
        (a == FrameAction::Reconfigure) <==> (status is Lost),
        (a == FrameAction::Exit) <==> (status is OutOfMemory),
        (a == FrameAction::SkipFrame) <==> (status is OtherError),
{
    match status {
        SurfaceStatus::Acquired => FrameAction::RenderAndPresent,
        SurfaceStatus::Lost => FrameAction::Reconfigure,
        SurfaceStatus::OutOfMemory => FrameAction::Exit,
        SurfaceStatus::OtherError => FrameAction::SkipFrame,
    }
}

/// A movement key, each driving the camera by one unit step.
#[derive(Clone, Copy, PartialEq, Eq, Debug)]
pub enum MoveKey {
    Forward,
    Back,
    Left,
    Right,
}

/// Applies one movement key to the camera with a fixed unit step:
/// forward and back translate along the forward direction by plus and
/// minus one, left and right along the strafe direction by minus and plus
/// one — each pinned wherever the move's arithmetic stays NaN-free. The
/// projection parameters and the up vector are untouched in any case.
pub fn apply_move(camera: &mut Camera, key: MoveKey)
    ensures
        key == MoveKey::Forward && forward_move_defined(*old(camera), ONE_F32_BITS)
            ==> translated(
            *old(camera),
            *final(camera),
            vscale_of(forward_dir(*old(camera)), ONE_F32_BITS),
        ),
        key == MoveKey::Back && forward_move_defined(*old(camera), NEG_ONE_F32_BITS)
            ==> translated(
            *old(camera),
            *final(camera),
            vscale_of(forward_dir(*old(camera)), NEG_ONE_F32_BITS),
        ),
        key == MoveKey::Left && right_move_defined(*old(camera), NEG_ONE_F32_BITS)
            ==> translated(
            *old(camera),
            *final(camera),
            vscale_of(right_dir(*old(camera)), NEG_ONE_F32_BITS),
        ),
        key == MoveKey::Right && right_move_defined(*old(camera), ONE_F32_BITS) ==> translated(
            *old(camera),
            *final(camera),
            vscale_of(right_dir(*old(camera)), ONE_F32_BITS),
        ),
        final(camera).up == old(camera).up,
        final(camera).aspect == old(camera).aspect,
        final(camera).fov == old(camera).fov,
        final(camera).near == old(camera).near,
        final(camera).far == old(camera).far,
{
    match key {
        MoveKey::Forward => camera.move_forward(ONE_F32_BITS),
        MoveKey::Back => camera.move_forward(NEG_ONE_F32_BITS),
        MoveKey::Left => camera.move_right(NEG_ONE_F32_BITS),
        MoveKey::Right => camera.move_right(ONE_F32_BITS),
    }
}

/// The aspect ratio for a resize: width over height as floats, and only
/// when both dimensions are nonzero — a zero-sized surface changes
/// nothing. The quotient of two positive dimensions is never NaN, but the
/// quotient operation is named only on NaN-free results, so the value is
/// pinned under that condition.
pub fn resize_aspect(width: u32, height: u32) -> (r: Option<u32>)
    ensures
        (r is Some) <==> (width > 0 && height > 0),
        r is Some && !is_nan_bits(fdiv_of(f32_of_u32(width), f32_of_u32(height))) ==> r->Some_0
            == fdiv_of(f32_of_u32(width), f32_of_u32(height)),
{
    if width > 0 && height > 0 {
        Some(f32_div(u32_to_f32_bits(width), u32_to_f32_bits(height)))
    } else {
        None
    }
}

/// One step of the per-frame protocol, in the order it is recorded into a
/// frame's single submission.
#[derive(Clone, Copy, PartialEq, Eq, Debug)]
pub enum FrameStep {
    /// Write the camera uniform for this frame.
    WriteCameraUniform,
    /// Write the light uniform for this frame.
    WriteLightUniform,
    /// Dispatch the compute pipeline over the active instance range.
    DispatchCompute,
    /// Record the render pass against the current swapchain image.
    RecordRenderPass,
    /// Submit the recorded commands and hand the frame to presentation.
    SubmitAndPresent,
}

/// The steps of one frame, with or without the optional compute dispatch.
pub open spec fn frame_script(dispatch_compute: bool) -> Seq<FrameStep> {
    if dispatch_compute {
        seq![
            FrameStep::WriteCameraUniform,
            FrameStep::WriteLightUniform,
            FrameStep::DispatchCompute,
            FrameStep::RecordRenderPass,
            FrameStep::SubmitAndPresent,
        ]
    } else {
        seq![
            FrameStep::WriteCameraUniform,
            FrameStep::WriteLightUniform,
            FrameStep::RecordRenderPass,
            FrameStep::SubmitAndPresent,
        ]
    }
}

/// The per-frame protocol as an executable script: each frame writes both
/// uniforms, optionally dispatches the compute pass, records the render
/// pass, and submits.
pub fn frame_steps(dispatch_compute: bool) -> (r: Vec<FrameStep>)
    ensures
        r@ == frame_script(dispatch_compute),
{
    let mut r: Vec<FrameStep> = Vec::new();
    r.push(FrameStep::WriteCameraUniform);
    r.push(FrameStep::WriteLightUniform);
    if dispatch_compute {
        r.push(FrameStep::DispatchCompute);
    }
    r.push(FrameStep::RecordRenderPass);
    r.push(FrameStep::SubmitAndPresent);
    assert(r@ =~= frame_script(dispatch_compute));
    r
}

/// Law: within a frame's script the uniform writes, and the compute
/// dispatch when present, all precede the render pass — so the pass reads
/// no stale uniforms, and a compute write to the shared sphere storage is
/// ordered before the render read within the same submission.
pub proof fn lemma_frame_script_ordering(dispatch_compute: bool)
    ensures
        forall|i: int, j: int|
            0 <= i < frame_script(dispatch_compute).len() && 0 <= j < frame_script(
                dispatch_compute,
            ).len() && #[trigger] frame_script(dispatch_compute)[i]
                == FrameStep::RecordRenderPass && (#[trigger] frame_script(dispatch_compute)[j]
                == FrameStep::WriteCameraUniform || frame_script(dispatch_compute)[j]
                == FrameStep::WriteLightUniform || frame_script(dispatch_compute)[j]
                == FrameStep::DispatchCompute) ==> j < i,
{
}

/// The two uniform records written before a frame's render pass: the
/// camera uniform holding projection times view and the homogeneous
/// camera world position, and the light uniform holding the homogeneous
/// light world position — byte-exact, so the GPU never sees a torn or
/// stale record for this frame. Under a light-tracks-camera policy the
/// caller passes the same point twice; the policy is the caller's choice.
pub fn frame_uniform_update(
    view: [u32; 16],
    projection: [u32; 16],
    camera_pos: [u32; 3],
    light_pos: [u32; 3],
) -> (r: (Vec<u8>, Vec<u8>))
    ensures
        nan_free(mmul_of(projection@, view@)) ==> r.0@ == camera_uniform_bytes(
            mmul_of(projection@, view@),
            camera_pos@,
        ),
        r.0@.len() == CAMERA_UNIFORM_SIZE,
        r.1@ == light_uniform_bytes(light_pos@),
        r.1@.len() == LIGHT_UNIFORM_SIZE,
{
    let vp = mat4_mul(projection, view);
    let camera_bytes = pack_camera_uniform(vp, camera_pos);
    let light_bytes = pack_light_uniform(light_pos);
    (camera_bytes, light_bytes)
}

} // verus!
