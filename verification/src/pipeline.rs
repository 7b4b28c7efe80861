//! Pipeline and resource plans: the buffer capacities, bind-group layouts,
//! vertex input layouts and fixed-function settings that the two pipelines
//! are built from, and the workgroup arithmetic for the compute dispatch.
//!
//! The plans are plain data with exact contracts: the shader interface
//! (slot numbers, buffer roles, stage visibility) and the vertex stream
//! layout are pinned field by field, so the host can build the device
//! objects from them and a reader can check them against the shader
//! programs' expectations.

use vstd::prelude::*;

use crate::layout::{CAMERA_UNIFORM_SIZE, LIGHT_UNIFORM_SIZE, MATERIAL_STRIDE, SPHERE_STRIDE};
use crate::{MATERIAL_CAPACITY, SPHERE_CAPACITY};

verus! {

/// Threads per compute workgroup; the dispatch covers all instances.
pub const WORKGROUP_SIZE: u64 = 64;

/// Byte size of one vertex attribute: three 32-bit floats.
pub const VERTEX_ATTR_SIZE: u32 = 12;

/// How a shader stage may access a bound buffer.
#[derive(Clone, Copy, PartialEq, Eq, Debug)]
pub enum BindingKind {
    UniformBuffer,
    StorageReadOnly,
    StorageReadWrite,
}

/// One slot of a bind-group layout: its binding number, the stages that
/// see it, and the buffer role.
#[derive(Clone, Copy, PartialEq, Eq, Debug)]
pub struct BindingSlot {
    pub binding: u32,
    pub visible_vertex: bool,
    pub visible_fragment: bool,
    pub visible_compute: bool,
    pub kind: BindingKind,
}

/// A bind-group layout: the slots one group exposes to the shaders.
#[derive(Clone, Debug)]
pub struct BindGroupLayoutPlan {
    pub entries: Vec<BindingSlot>,
}

/// Binding numbers within a layout are strictly increasing, hence unique.
pub open spec fn layout_wf(p: BindGroupLayoutPlan) -> bool {
    forall|i: int, j: int|
        0 <= i < j < p.entries@.len() ==> (#[trigger] p.entries@[i]).binding < (
        #[trigger] p.entries@[j]).binding
}

/// The camera group: one uniform slot seen by vertex and fragment stages.
pub open spec fn is_camera_layout(p: BindGroupLayoutPlan) -> bool {
    &&& p.entries@.len() == 1
    &&& p.entries@[0] == (BindingSlot {
        binding: 0,
        visible_vertex: true,
        visible_fragment: true,
        visible_compute: false,
        kind: BindingKind::UniformBuffer,
    })
}

/// The sphere group: the sphere storage read-only for vertex, fragment and
/// compute stages, and the light uniform for fragment and compute stages.
pub open spec fn is_sphere_layout(p: BindGroupLayoutPlan) -> bool {
    &&& p.entries@.len() == 2
    &&& p.entries@[0] == (BindingSlot {
        binding: 0,
        visible_vertex: true,
        visible_fragment: true,
        visible_compute: true,
        kind: BindingKind::StorageReadOnly,
    })
    &&& p.entries@[1] == (BindingSlot {
        binding: 1,
        visible_vertex: false,
        visible_fragment: true,
        visible_compute: true,
        kind: BindingKind::UniformBuffer,
    })
}

/// The compute group: the same sphere storage, writable, compute stage
/// only.
pub open spec fn is_compute_layout(p: BindGroupLayoutPlan) -> bool {
    &&& p.entries@.len() == 1
    &&& p.entries@[0] == (BindingSlot {
        binding: 0,
        visible_vertex: false,
        visible_fragment: false,
        visible_compute: true,
        kind: BindingKind::StorageReadWrite,
    })
}

/// Builds the camera bind-group layout.
pub fn camera_bind_group_plan() -> (p: BindGroupLayoutPlan)
    ensures
        is_camera_layout(p),
        layout_wf(p),
{
    let mut entries: Vec<BindingSlot> = Vec::new();
    entries.push(BindingSlot {
        binding: 0,
        visible_vertex: true,
        visible_fragment: true,
        visible_compute: false,
        kind: BindingKind::UniformBuffer,
    });
    BindGroupLayoutPlan { entries }
}

/// Builds the sphere-and-light bind-group layout.
pub fn sphere_bind_group_plan() -> (p: BindGroupLayoutPlan)
    ensures
        is_sphere_layout(p),
        layout_wf(p),
{
    let mut entries: Vec<BindingSlot> = Vec::new();
    entries.push(BindingSlot {
        binding: 0,
        visible_vertex: true,
        visible_fragment: true,
        visible_compute: true,
        kind: BindingKind::StorageReadOnly,
    });
    entries.push(BindingSlot {
        binding: 1,
        visible_vertex: false,
        visible_fragment: true,
        visible_compute: true,
        kind: BindingKind::UniformBuffer,
    });
    BindGroupLayoutPlan { entries }
}

/// Builds the compute bind-group layout.
pub fn compute_bind_group_plan() -> (p: BindGroupLayoutPlan)
    ensures
        is_compute_layout(p),
        layout_wf(p),
{
    let mut entries: Vec<BindingSlot> = Vec::new();
    entries.push(BindingSlot {
        binding: 0,
        visible_vertex: false,
        visible_fragment: false,
        visible_compute: true,
        kind: BindingKind::StorageReadWrite,
    });
    BindGroupLayoutPlan { entries }
}

/// Law: the render and compute pipelines alias the same sphere storage
/// under disjoint access — every stage of the render-side group reads it
/// read-only, and only the compute stage of the compute-side group may
/// write it. With the compute pass recorded before the render pass in one
/// submission, the write and the reads are temporally partitioned.
pub proof fn lemma_sphere_access_split(r: BindGroupLayoutPlan, c: BindGroupLayoutPlan)
    requires
        is_sphere_layout(r),
        is_compute_layout(c),
    ensures
        r.entries@[0].kind == BindingKind::StorageReadOnly,
        c.entries@[0].kind == BindingKind::StorageReadWrite,
        c.entries@[0].visible_compute,
        !c.entries@[0].visible_vertex,
        !c.entries@[0].visible_fragment,
{
}

/// Size in bytes of the sphere storage buffer: worst-case capacity at a
/// fixed stride.
pub fn sphere_buffer_size() -> (r: u64)
    ensures
        r == SPHERE_CAPACITY * SPHERE_STRIDE,
        r == 32000000u64,
{
    SPHERE_CAPACITY * SPHERE_STRIDE
}

/// Size in bytes of the material storage buffer.
pub fn material_buffer_size() -> (r: u64)
    ensures
        r == MATERIAL_CAPACITY * MATERIAL_STRIDE,
        r == 4800u64,
{
    MATERIAL_CAPACITY * MATERIAL_STRIDE
}

/// Size in bytes of the camera uniform buffer: one record.
pub fn camera_buffer_size() -> (r: u64)
    ensures
        r == CAMERA_UNIFORM_SIZE,
{
    CAMERA_UNIFORM_SIZE
}

/// Size in bytes of the light uniform buffer: one record.
pub fn light_buffer_size() -> (r: u64)
    ensures
        r == LIGHT_UNIFORM_SIZE,
{
    LIGHT_UNIFORM_SIZE
}

/// Whether a vertex stream advances per vertex or per instance.
#[derive(Clone, Copy, PartialEq, Eq, Debug)]
pub enum VertexStepMode {
    PerVertex,
    PerInstance,
}

/// One vertex attribute: its shader location and byte offset within the
/// stream's stride. Every attribute of this design is three 32-bit floats.
#[derive(Clone, Copy, PartialEq, Eq, Debug)]
pub struct VertexAttributePlan {
    pub shader_location: u32,
    pub offset: u32,
}

/// One vertex stream: stride, step mode and attributes.
#[derive(Clone, Debug)]
pub struct VertexBufferPlan {
    pub stride: u32,
    pub step: VertexStepMode,
    pub attributes: Vec<VertexAttributePlan>,
}

/// Attributes fit the stride and do not overlap: listed in ascending
/// offsets, each ending before the next begins and before the stride ends.
pub open spec fn vertex_plan_wf(p: VertexBufferPlan) -> bool {
    &&& forall|i: int|
        0 <= i < p.attributes@.len() ==> (#[trigger] p.attributes@[i]).offset + VERTEX_ATTR_SIZE
            <= p.stride
    &&& forall|i: int, j: int|
        0 <= i < j < p.attributes@.len() ==> (#[trigger] p.attributes@[i]).offset
            + VERTEX_ATTR_SIZE <= (#[trigger] p.attributes@[j]).offset
}

/// Builds the two vertex streams of the render pipeline: the per-vertex
/// mesh stream (position then normal) and the per-instance stream
/// (instance position then material selector), each 24 bytes wide with
/// shader locations 0 to 3.
pub fn vertex_buffer_plans() -> (ps: Vec<VertexBufferPlan>)
    ensures
        ps@.len() == 2,
        ps@[0].stride == 24,
        ps@[0].step == VertexStepMode::PerVertex,
        ps@[0].attributes@.len() == 2,
        ps@[0].attributes@[0] == (VertexAttributePlan { shader_location: 0, offset: 0 }),
        ps@[0].attributes@[1] == (VertexAttributePlan { shader_location: 1, offset: 12 }),
        ps@[1].stride == 24,
        ps@[1].step == VertexStepMode::PerInstance,
        ps@[1].attributes@.len() == 2,
        ps@[1].attributes@[0] == (VertexAttributePlan { shader_location: 2, offset: 0 }),
        ps@[1].attributes@[1] == (VertexAttributePlan { shader_location: 3, offset: 12 }),
        vertex_plan_wf(ps@[0]),
        vertex_plan_wf(ps@[1]),
{
    let mut mesh_attrs: Vec<VertexAttributePlan> = Vec::new();
    mesh_attrs.push(VertexAttributePlan { shader_location: 0, offset: 0 });
    mesh_attrs.push(VertexAttributePlan { shader_location: 1, offset: 12 });
    let mut inst_attrs: Vec<VertexAttributePlan> = Vec::new();
    inst_attrs.push(VertexAttributePlan { shader_location: 2, offset: 0 });
    inst_attrs.push(VertexAttributePlan { shader_location: 3, offset: 12 });
    let mut ps: Vec<VertexBufferPlan> = Vec::new();
    ps.push(VertexBufferPlan { stride: 24, step: VertexStepMode::PerVertex, attributes: mesh_attrs });
    ps.push(
        VertexBufferPlan { stride: 24, step: VertexStepMode::PerInstance, attributes: inst_attrs },
    );
    ps
}

/// The fixed-function settings of the render pipeline: opaque triangles
/// with back-face culling, depth-tested with a "less" comparison against a
/// 32-bit float depth attachment, no multisampling, no blending beyond
/// replace.
#[derive(Clone, Copy, PartialEq, Eq, Debug)]
pub struct RenderStatePlan {
    pub triangle_list: bool,
    pub cull_back_faces: bool,
    pub front_face_clockwise: bool,
    pub depth_write_enabled: bool,
    pub depth_compare_is_less: bool,
    pub depth_format_is_32float: bool,
    pub sample_count: u32,
    pub blend_is_replace: bool,
}

/// Builds the fixed-function settings.
pub fn render_state_plan() -> (p: RenderStatePlan)
    ensures
        p == (RenderStatePlan {
            triangle_list: true,
            cull_back_faces: true,
            front_face_clockwise: true,
            depth_write_enabled: true,
            depth_compare_is_less: true,
            depth_format_is_32float: true,
            sample_count: 1,
            blend_is_replace: true,
        }),
{
    RenderStatePlan {
        triangle_list: true,
        cull_back_faces: true,
        front_face_clockwise: true,
        depth_write_enabled: true,
        depth_compare_is_less: true,
        depth_format_is_32float: true,
        sample_count: 1,
        blend_is_replace: true,
    }
}

/// The bind-group layouts of the render pipeline, in group order: the
/// camera group then the sphere-and-light group.
pub fn render_pipeline_layouts() -> (ls: Vec<BindGroupLayoutPlan>)
    ensures
        ls@.len() == 2,
        is_camera_layout(ls@[0]),
        is_sphere_layout(ls@[1]),
        layout_wf(ls@[0]),
        layout_wf(ls@[1]),
{
    let mut ls: Vec<BindGroupLayoutPlan> = Vec::new();
    ls.push(camera_bind_group_plan());
    ls.push(sphere_bind_group_plan());
    ls
}

/// The bind-group layouts of the compute pipeline, in group order: the
/// writable sphere group then the read-only sphere-and-light group.
pub fn compute_pipeline_layouts() -> (ls: Vec<BindGroupLayoutPlan>)
    ensures
        ls@.len() == 2,
        is_compute_layout(ls@[0]),
        is_sphere_layout(ls@[1]),
        layout_wf(ls@[0]),
        layout_wf(ls@[1]),
{
    let mut ls: Vec<BindGroupLayoutPlan> = Vec::new();
    ls.push(compute_bind_group_plan());
    ls.push(sphere_bind_group_plan());
    ls
}

/// Ceiling division.
pub open spec fn ceil_div(n: int, w: int) -> int {
    (n + w - 1) / w
}

/// Number of workgroups that covers `instance_count` instances: the least
/// count whose threads reach every instance.
pub fn workgroup_count(instance_count: u64) -> (r: u64)
    requires
        instance_count <= SPHERE_CAPACITY,
    ensures
        r == ceil_div(instance_count as int, WORKGROUP_SIZE as int),
        r * WORKGROUP_SIZE >= instance_count,
        instance_count > 0 ==> (r - 1) * WORKGROUP_SIZE < instance_count,
{
    (instance_count + (WORKGROUP_SIZE - 1)) / WORKGROUP_SIZE
}

} // verus!
