use gpu_bootstrap::context::{
    teardown_plan, DestroyStep, FrameResources, GpuContext, Resource,
};
use gpu_bootstrap::types::{Extent2D, SurfaceFormat};

fn full_context() -> GpuContext {
    GpuContext {
        instance: 1,
        debug_messenger: 2,
        device: 4,
        frame: FrameResources {
            surface: 3,
            graphics_queue: 5,
            present_queue: 5,
            swapchain: 6,
            format: SurfaceFormat { format: 50, color_space: 0 },
            extent: Extent2D { width: 640, height: 480 },
            images: vec![70, 71],
            views: vec![80, 81],
            render_pass: 9,
            pipeline_layout: 10,
            pipeline: 11,
        },
    }
}

fn step(resource: Resource, handle: u64) -> DestroyStep {
    DestroyStep { resource, handle }
}

#[test]
fn full_teardown_runs_in_exact_reverse_creation_order() {
    let plan = teardown_plan(&full_context());
    assert_eq!(
        plan,
        vec![
            step(Resource::Pipeline, 11),
            step(Resource::PipelineLayout, 10),
            step(Resource::RenderPass, 9),
            step(Resource::ImageView, 81),
            step(Resource::ImageView, 80),
            step(Resource::Swapchain, 6),
            step(Resource::Device, 4),
            step(Resource::Surface, 3),
            step(Resource::DebugMessenger, 2),
            step(Resource::Instance, 1),
        ]
    );
}

#[test]
fn partial_teardown_destroys_exactly_what_exists() {
    // As after a failure at render-pass creation: views exist, nothing
    // later does.
    let mut ctx = full_context();
    ctx.frame.render_pass = 0;
    ctx.frame.pipeline_layout = 0;
    ctx.frame.pipeline = 0;
    let plan = teardown_plan(&ctx);
    assert_eq!(
        plan,
        vec![
            step(Resource::ImageView, 81),
            step(Resource::ImageView, 80),
            step(Resource::Swapchain, 6),
            step(Resource::Device, 4),
            step(Resource::Surface, 3),
            step(Resource::DebugMessenger, 2),
            step(Resource::Instance, 1),
        ]
    );
}

#[test]
fn no_destroy_call_targets_a_null_handle() {
    let mut ctx = full_context();
    ctx.debug_messenger = 0;
    ctx.frame.swapchain = 0;
    let plan = teardown_plan(&ctx);
    assert!(plan.iter().all(|s| s.handle != 0));
    assert!(!plan.iter().any(|s| s.resource == Resource::DebugMessenger));
    assert!(!plan.iter().any(|s| s.resource == Resource::Swapchain));
}

#[test]
fn empty_context_needs_no_teardown() {
    let ctx = GpuContext::empty();
    assert!(teardown_plan(&ctx).is_empty());
}
