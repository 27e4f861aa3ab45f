use std::sync::Arc;

use noise_engine_native::init_scope::{DescriptorSetLayout, InitScope};
use noise_engine_native::interop_read_only_span::InteropReadOnlySpan;
use noise_engine_native::interop_result::InteropErrorKind;
use noise_engine_native::pipeline::{
    rendering_vulkan_compute_pipeline_create, rendering_vulkan_compute_pipeline_destroy,
    PipelineShaderStage,
};
use noise_engine_native::pipeline_layout::{
    rendering_vulkan_pipeline_layout_create, rendering_vulkan_pipeline_layout_destroy,
};
use noise_engine_native::surface::{VulkanInstance, VulkanSurface, Window};

#[test]
fn set_layout_create_then_destroy_releases_backend_handle() {
    let mut scope = InitScope::new(1);
    let handle = scope.create_descriptor_set_layout(Ok(100)).into_ok();
    assert!(scope.layout_is_live(handle));
    assert_eq!(scope.layout_shares(handle), 1);
    assert_eq!(scope.destroy_descriptor_set_layout(handle), Some(100));
    assert!(!scope.layout_is_live(handle));
}

#[test]
fn set_layout_backend_failure_is_classified() {
    let mut scope = InitScope::new(1);
    let r = scope.create_descriptor_set_layout(Err(-2));
    assert!(!r.is_ok());
    let e = r.into_err();
    assert_eq!(e.kind, InteropErrorKind::OutOfDeviceMemory);
    assert_eq!(e.backend_code, -2);
}

#[test]
fn pipeline_layout_increments_and_decrements_shares() {
    let mut scope = InitScope::new(3);
    let a = scope.create_descriptor_set_layout(Ok(10)).into_ok();
    let b = scope.create_descriptor_set_layout(Ok(11)).into_ok();
    let handles = [a, b];
    let span = InteropReadOnlySpan::from(&handles[..]);
    let layout = rendering_vulkan_pipeline_layout_create(&mut scope, span, Ok(9)).into_ok();
    assert_eq!(layout.inner, 9);
    assert_eq!(layout.scope_id, 3);
    assert_eq!(scope.layout_shares(a), 2);
    assert_eq!(scope.layout_shares(b), 2);

    let teardown = rendering_vulkan_pipeline_layout_destroy(&mut scope, layout);
    assert_eq!(teardown.layout_inner, 9);
    assert!(teardown.released_set_layouts.is_empty());
    assert_eq!(scope.layout_shares(a), 1);
    assert_eq!(scope.layout_shares(b), 1);
    assert!(scope.layout_is_live(a));
    assert!(scope.layout_is_live(b));
}

#[test]
fn layout_with_nonzero_shares_is_not_released() {
    let mut scope = InitScope::new(4);
    let a = scope.create_descriptor_set_layout(Ok(20)).into_ok();
    let handles = [a];
    let layout = rendering_vulkan_pipeline_layout_create(
        &mut scope,
        InteropReadOnlySpan::from(&handles[..]),
        Ok(30),
    )
    .into_ok();

    // The host drops its own handle: one share is left (the pipeline
    // layout's), so the set layout must not be released yet.
    assert_eq!(scope.destroy_descriptor_set_layout(a), None);
    assert_eq!(scope.layout_shares(a), 1);

    // Destroying the pipeline layout removes the last share: now the set
    // layout's backend handle comes back for teardown.
    let teardown = rendering_vulkan_pipeline_layout_destroy(&mut scope, layout);
    assert_eq!(teardown.layout_inner, 30);
    assert_eq!(teardown.released_set_layouts, vec![20]);
    assert!(!scope.layout_is_live(a));
}

#[test]
fn pipeline_layout_from_empty_span_is_validation_error() {
    let mut scope = InitScope::new(5);
    let empty: [DescriptorSetLayout; 0] = [];
    for _ in 0..2 {
        let r = rendering_vulkan_pipeline_layout_create(
            &mut scope,
            InteropReadOnlySpan::from(&empty[..]),
            Ok(1),
        );
        assert!(!r.is_ok());
        assert_eq!(r.into_err().kind, InteropErrorKind::Validation);
    }
}

#[test]
fn pipeline_layout_rejects_mismatched_scope() {
    let mut scope = InitScope::new(6);
    let mut other = InitScope::new(7);
    let foreign = other.create_descriptor_set_layout(Ok(40)).into_ok();
    let handles = [foreign];
    let r = rendering_vulkan_pipeline_layout_create(
        &mut scope,
        InteropReadOnlySpan::from(&handles[..]),
        Ok(41),
    );
    assert_eq!(r.into_err().kind, InteropErrorKind::Validation);
}

#[test]
fn pipeline_layout_rejects_released_layout() {
    let mut scope = InitScope::new(8);
    let a = scope.create_descriptor_set_layout(Ok(50)).into_ok();
    assert_eq!(scope.destroy_descriptor_set_layout(a), Some(50));
    let handles = [a];
    let r = rendering_vulkan_pipeline_layout_create(
        &mut scope,
        InteropReadOnlySpan::from(&handles[..]),
        Ok(51),
    );
    assert_eq!(r.into_err().kind, InteropErrorKind::Validation);
}

#[test]
fn pipeline_layout_backend_failure_leaves_shares_untouched() {
    let mut scope = InitScope::new(9);
    let a = scope.create_descriptor_set_layout(Ok(60)).into_ok();
    let handles = [a];
    let r = rendering_vulkan_pipeline_layout_create(
        &mut scope,
        InteropReadOnlySpan::from(&handles[..]),
        Err(-1),
    );
    let e = r.into_err();
    assert_eq!(e.kind, InteropErrorKind::OutOfHostMemory);
    assert_eq!(e.backend_code, -1);
    assert_eq!(scope.layout_shares(a), 1);
}

#[test]
fn compute_pipeline_records_layout_and_scope() {
    let mut scope = InitScope::new(10);
    let a = scope.create_descriptor_set_layout(Ok(70)).into_ok();
    let handles = [a];
    let layout = rendering_vulkan_pipeline_layout_create(
        &mut scope,
        InteropReadOnlySpan::from(&handles[..]),
        Ok(71),
    )
    .into_ok();
    let stage = PipelineShaderStage { module: 5, stage: 0x20 };
    let pipeline = rendering_vulkan_compute_pipeline_create(&layout, stage, 2, Ok(72)).into_ok();
    assert_eq!(pipeline.inner, 72);
    assert_eq!(pipeline.layout_inner, 71);
    assert_eq!(pipeline.scope_id, 10);
    assert_eq!(pipeline.flags, 2);
    assert_eq!(rendering_vulkan_compute_pipeline_destroy(pipeline), 72);
}

#[test]
fn compute_pipeline_rejects_null_module_and_classifies_backend_errors() {
    let mut scope = InitScope::new(11);
    let a = scope.create_descriptor_set_layout(Ok(80)).into_ok();
    let handles = [a];
    let layout = rendering_vulkan_pipeline_layout_create(
        &mut scope,
        InteropReadOnlySpan::from(&handles[..]),
        Ok(81),
    )
    .into_ok();

    let null_stage = PipelineShaderStage { module: 0, stage: 0x20 };
    let r = rendering_vulkan_compute_pipeline_create(&layout, null_stage, 0, Ok(82));
    assert_eq!(r.into_err().kind, InteropErrorKind::Validation);

    let stage = PipelineShaderStage { module: 5, stage: 0x20 };
    let r = rendering_vulkan_compute_pipeline_create(&layout, stage, 0, Err(-9));
    let e = r.into_err();
    assert_eq!(e.kind, InteropErrorKind::IncompatibleDriver);
    assert_eq!(e.backend_code, -9);
}

#[test]
fn surface_teardown_uses_the_creating_instance() {
    let instance = Arc::new(VulkanInstance::new(1, 2));
    let window = Arc::new(Window::new(3));
    let surface = VulkanSurface::new(instance.clone(), window, 4);
    assert_eq!(surface.inner(), 4);
    assert_eq!(surface.instance().library, 1);
    assert_eq!(surface.instance().inner, 2);
    assert_eq!(surface.window().id, 3);

    let teardown = surface.teardown();
    assert_eq!(teardown.library, instance.library);
    assert_eq!(teardown.instance, instance.inner);
    assert_eq!(teardown.surface, 4);
}
