//! Resource and pipeline plans: buffer sizes, bind-group layouts, vertex
//! streams and dispatch arithmetic.

use pbr_spheres::pipeline::{
    camera_bind_group_plan, camera_buffer_size, compute_bind_group_plan,
    compute_pipeline_layouts, light_buffer_size, material_buffer_size, render_pipeline_layouts,
    render_state_plan, sphere_bind_group_plan, sphere_buffer_size, vertex_buffer_plans,
    workgroup_count, BindingKind, VertexStepMode,
};

#[test]
fn test_buffer_sizes() {
    assert_eq!(sphere_buffer_size(), 1_000_000 * 32);
    assert_eq!(material_buffer_size(), 100 * 48);
    assert_eq!(camera_buffer_size(), 80);
    assert_eq!(light_buffer_size(), 16);
}

#[test]
fn test_camera_bind_group_plan() {
    let p = camera_bind_group_plan();
    assert_eq!(p.entries.len(), 1);
    let e = p.entries[0];
    assert_eq!(e.binding, 0);
    assert!(e.visible_vertex && e.visible_fragment && !e.visible_compute);
    assert_eq!(e.kind, BindingKind::UniformBuffer);
}

#[test]
fn test_sphere_bind_group_plan() {
    let p = sphere_bind_group_plan();
    assert_eq!(p.entries.len(), 2);
    let spheres = p.entries[0];
    assert_eq!(spheres.binding, 0);
    assert!(spheres.visible_vertex && spheres.visible_fragment && spheres.visible_compute);
    assert_eq!(spheres.kind, BindingKind::StorageReadOnly);
    let light = p.entries[1];
    assert_eq!(light.binding, 1);
    assert!(!light.visible_vertex && light.visible_fragment && light.visible_compute);
    assert_eq!(light.kind, BindingKind::UniformBuffer);
}

#[test]
fn test_compute_bind_group_plan() {
    let p = compute_bind_group_plan();
    assert_eq!(p.entries.len(), 1);
    let e = p.entries[0];
    assert_eq!(e.binding, 0);
    assert!(!e.visible_vertex && !e.visible_fragment && e.visible_compute);
    assert_eq!(e.kind, BindingKind::StorageReadWrite);
}

#[test]
fn test_pipeline_layout_order() {
    // The render pipeline binds the camera group then the sphere group;
    // the compute pipeline binds the writable sphere group then the same
    // read-only sphere group, aliasing the same storage with disjoint
    // access.
    let render = render_pipeline_layouts();
    assert_eq!(render.len(), 2);
    assert_eq!(render[0].entries.len(), 1);
    assert_eq!(render[1].entries.len(), 2);
    assert_eq!(render[1].entries[0].kind, BindingKind::StorageReadOnly);

    let compute = compute_pipeline_layouts();
    assert_eq!(compute.len(), 2);
    assert_eq!(compute[0].entries[0].kind, BindingKind::StorageReadWrite);
    assert_eq!(compute[1].entries[0].kind, BindingKind::StorageReadOnly);
}

#[test]
fn test_vertex_buffer_plans() {
    let ps = vertex_buffer_plans();
    assert_eq!(ps.len(), 2);

    let mesh = &ps[0];
    assert_eq!(mesh.stride, 24);
    assert_eq!(mesh.step, VertexStepMode::PerVertex);
    assert_eq!(mesh.attributes.len(), 2);
    assert_eq!(mesh.attributes[0].shader_location, 0);
    assert_eq!(mesh.attributes[0].offset, 0);
    assert_eq!(mesh.attributes[1].shader_location, 1);
    assert_eq!(mesh.attributes[1].offset, 12);

    let inst = &ps[1];
    assert_eq!(inst.stride, 24);
    assert_eq!(inst.step, VertexStepMode::PerInstance);
    assert_eq!(inst.attributes[0].shader_location, 2);
    assert_eq!(inst.attributes[0].offset, 0);
    assert_eq!(inst.attributes[1].shader_location, 3);
    assert_eq!(inst.attributes[1].offset, 12);

    // Shader locations are distinct across both streams.
    let mut locations: Vec<u32> = ps
        .iter()
        .flat_map(|p| p.attributes.iter().map(|a| a.shader_location))
        .collect();
    locations.sort();
    locations.dedup();
    assert_eq!(locations, vec![0, 1, 2, 3]);
}

#[test]
fn test_render_state_plan() {
    let p = render_state_plan();
    assert!(p.triangle_list);
    assert!(p.cull_back_faces);
    assert!(p.front_face_clockwise);
    assert!(p.depth_write_enabled);
    assert!(p.depth_compare_is_less);
    assert!(p.depth_format_is_32float);
    assert_eq!(p.sample_count, 1);
    assert!(p.blend_is_replace);
}

#[test]
fn test_workgroup_count() {
    assert_eq!(workgroup_count(0), 0);
    assert_eq!(workgroup_count(1), 1);
    assert_eq!(workgroup_count(64), 1);
    assert_eq!(workgroup_count(65), 2);
    assert_eq!(workgroup_count(1_000_000), 15_625);
}
