use gpu_bootstrap::bootstrap::{
    Bootstrap, BootstrapConfig, DriverReply, DriverRequest, StepOutcome,
};
use gpu_bootstrap::context::{DestroyStep, Resource};
use gpu_bootstrap::device::{DeviceInfo, DeviceType, QueueFamily};
use gpu_bootstrap::error::{BootstrapError, StageName};
use gpu_bootstrap::shader::{ShaderArtifact, ShaderStage};
use gpu_bootstrap::swapchain::{SharingMode, SurfaceCaps, SwapchainSupport};
use gpu_bootstrap::types::{Extent2D, PresentMode, SurfaceFormat};

fn config(validation: bool) -> BootstrapConfig {
    BootstrapConfig {
        validation,
        portability: false,
        platform_extensions: vec!["VK_KHR_surface".to_string()],
        vertex_shader: ShaderArtifact {
            name: "triangle.vert.spv".to_string(),
            stage: ShaderStage::Vertex,
            code: vec![1, 2, 3],
        },
        fragment_shader: ShaderArtifact {
            name: "triangle.frag.spv".to_string(),
            stage: ShaderStage::Fragment,
            code: vec![4, 5],
        },
    }
}

fn discrete_device() -> DeviceInfo {
    DeviceInfo {
        device_type: DeviceType::Discrete,
        has_geometry_shader: true,
        queue_families: vec![QueueFamily { supports_graphics: true, supports_present: true }],
        extensions: vec!["VK_KHR_swapchain".to_string()],
        formats: vec![SurfaceFormat { format: 50, color_space: 0 }],
        present_modes: vec![PresentMode::Mailbox],
    }
}

fn support() -> SwapchainSupport {
    SwapchainSupport {
        caps: SurfaceCaps {
            min_image_count: 2,
            max_image_count: 0,
            current_extent: Extent2D { width: 640, height: 480 },
            min_extent: Extent2D { width: 1, height: 1 },
            max_extent: Extent2D { width: 4096, height: 4096 },
            current_transform: 1,
        },
        formats: vec![
            SurfaceFormat { format: 44, color_space: 0 },
            SurfaceFormat { format: 50, color_space: 0 },
        ],
        present_modes: vec![PresentMode::Fifo, PresentMode::Mailbox],
    }
}

fn advance(b: &mut Bootstrap, reply: DriverReply) {
    assert!(matches!(b.step(reply), StepOutcome::Advanced));
}

/// Drives a validation-enabled machine up to the point where the render
/// pass is the next creation call: instance 1, messenger 2, surface 3,
/// device 4, queues 5, swapchain 6, views 80 and 81 over images 70 and 71.
fn drive_to_render_pass(b: &mut Bootstrap) {
    advance(b, DriverReply::LayerList(vec!["VK_LAYER_KHRONOS_validation".to_string()]));
    advance(b, DriverReply::Handle(1));
    advance(b, DriverReply::Handle(2));
    advance(b, DriverReply::Handle(3));
    advance(b, DriverReply::DeviceList(vec![discrete_device()]));
    advance(
        b,
        DriverReply::DeviceCreated { device: 4, graphics_queue: 5, present_queue: 5 },
    );
    advance(
        b,
        DriverReply::SupportInfo {
            support: support(),
            framebuffer: Extent2D { width: 640, height: 480 },
        },
    );
    advance(b, DriverReply::SwapchainCreated { swapchain: 6, images: vec![70, 71] });
    advance(b, DriverReply::Handle(80));
    advance(b, DriverReply::Handle(81));
}

#[test]
fn bootstrap_succeeds_against_a_suitable_mock_driver() {
    let mut b = Bootstrap::new(config(true));
    assert!(matches!(b.next_request(), DriverRequest::EnumerateLayers));
    advance(&mut b, DriverReply::LayerList(vec!["VK_LAYER_KHRONOS_validation".to_string()]));

    match b.next_request() {
        DriverRequest::CreateInstance { extensions, validation } => {
            assert!(validation);
            assert_eq!(
                extensions,
                vec!["VK_KHR_surface".to_string(), "VK_EXT_debug_utils".to_string()]
            );
        },
        _ => panic!("expected instance creation"),
    }
    advance(&mut b, DriverReply::Handle(1));

    assert!(matches!(b.next_request(), DriverRequest::CreateDebugMessenger));
    advance(&mut b, DriverReply::Handle(2));

    assert!(matches!(b.next_request(), DriverRequest::CreateSurface));
    advance(&mut b, DriverReply::Handle(3));

    assert!(matches!(b.next_request(), DriverRequest::EnumerateDevices));
    advance(&mut b, DriverReply::DeviceList(vec![discrete_device()]));

    match b.next_request() {
        DriverRequest::CreateDevice { device_index, queue_families, extensions, layers } => {
            assert_eq!(device_index, 0);
            assert_eq!(queue_families, vec![0]);
            assert_eq!(extensions, vec!["VK_KHR_swapchain".to_string()]);
            assert_eq!(layers, vec!["VK_LAYER_KHRONOS_validation".to_string()]);
        },
        _ => panic!("expected device creation"),
    }
    advance(
        &mut b,
        DriverReply::DeviceCreated { device: 4, graphics_queue: 5, present_queue: 5 },
    );

    assert!(matches!(
        b.next_request(),
        DriverRequest::QuerySwapchainSupport { device_index: 0 }
    ));
    advance(
        &mut b,
        DriverReply::SupportInfo {
            support: support(),
            framebuffer: Extent2D { width: 640, height: 480 },
        },
    );

    match b.next_request() {
        DriverRequest::CreateSwapchain { config } => {
            assert_eq!(config.min_image_count, 3);
            assert_eq!(config.format, SurfaceFormat { format: 50, color_space: 0 });
            assert_eq!(config.extent, Extent2D { width: 640, height: 480 });
            assert_eq!(config.present_mode, PresentMode::Mailbox);
            assert_eq!(config.sharing, SharingMode::Exclusive);
            assert!(config.family_indices.is_empty());
            assert_eq!(config.pre_transform, 1);
        },
        _ => panic!("expected swapchain creation"),
    }
    advance(
        &mut b,
        DriverReply::SwapchainCreated { swapchain: 6, images: vec![70, 71] },
    );

    match b.next_request() {
        DriverRequest::CreateImageView { config } => {
            assert_eq!(config.image, 70);
            assert_eq!(config.format, 50);
        },
        _ => panic!("expected first view creation"),
    }
    advance(&mut b, DriverReply::Handle(80));

    match b.next_request() {
        DriverRequest::CreateImageView { config } => assert_eq!(config.image, 71),
        _ => panic!("expected second view creation"),
    }
    advance(&mut b, DriverReply::Handle(81));

    match b.next_request() {
        DriverRequest::CreateRenderPass { config } => {
            assert_eq!(config.attachment.format, 50);
        },
        _ => panic!("expected render pass creation"),
    }
    advance(&mut b, DriverReply::Handle(9));

    assert!(matches!(b.next_request(), DriverRequest::CreatePipelineLayout));
    advance(&mut b, DriverReply::Handle(10));

    match b.next_request() {
        DriverRequest::CreatePipeline { config } => {
            assert_eq!(config.entry_point, "main");
            assert_eq!(config.vertex_code, vec![1, 2, 3]);
            assert_eq!(config.fragment_code, vec![4, 5]);
            assert_eq!(config.viewport, Extent2D { width: 640, height: 480 });
        },
        _ => panic!("expected pipeline creation"),
    }
    assert!(matches!(b.step(DriverReply::Handle(11)), StepOutcome::Finished));

    let ctx = b.finish();
    assert_eq!(ctx.instance, 1);
    assert_eq!(ctx.debug_messenger, 2);
    assert_eq!(ctx.device, 4);
    assert_eq!(ctx.frame.surface, 3);
    assert_eq!(ctx.frame.swapchain, 6);
    assert_eq!(ctx.frame.images, vec![70, 71]);
    assert_eq!(ctx.frame.views, vec![80, 81]);
    assert_eq!(ctx.frame.views.len(), ctx.frame.images.len());
    assert_eq!(ctx.frame.render_pass, 9);
    assert_eq!(ctx.frame.pipeline_layout, 10);
    assert_eq!(ctx.frame.pipeline, 11);
}

#[test]
fn a_failure_unwinds_exactly_what_was_created_in_reverse_order() {
    let mut b = Bootstrap::new(config(true));
    drive_to_render_pass(&mut b);
    assert!(matches!(b.next_request(), DriverRequest::CreateRenderPass { .. }));
    match b.step(DriverReply::Failure(-7)) {
        StepOutcome::Halted(e, unwind) => {
            assert_eq!(e.stage(), StageName::RenderPass);
            assert!(matches!(e, BootstrapError::Driver(StageName::RenderPass, -7)));
            let expected = vec![
                DestroyStep { resource: Resource::ImageView, handle: 81 },
                DestroyStep { resource: Resource::ImageView, handle: 80 },
                DestroyStep { resource: Resource::Swapchain, handle: 6 },
                DestroyStep { resource: Resource::Device, handle: 4 },
                DestroyStep { resource: Resource::Surface, handle: 3 },
                DestroyStep { resource: Resource::DebugMessenger, handle: 2 },
                DestroyStep { resource: Resource::Instance, handle: 1 },
            ];
            assert_eq!(unwind, expected);
        },
        _ => panic!("expected the chain to halt"),
    }
}

#[test]
fn a_missing_validation_layer_is_fatal_with_nothing_to_unwind() {
    let mut b = Bootstrap::new(config(true));
    match b.step(DriverReply::LayerList(vec!["VK_LAYER_OTHER".to_string()])) {
        StepOutcome::Halted(e, unwind) => {
            match e {
                BootstrapError::MissingLayer(l) => {
                    assert_eq!(l, "VK_LAYER_KHRONOS_validation")
                },
                _ => panic!("expected the missing layer to be named"),
            }
            assert!(unwind.is_empty());
        },
        _ => panic!("expected the chain to halt"),
    }
}

#[test]
fn no_suitable_device_unwinds_the_instance_level_handles() {
    let mut b = Bootstrap::new(config(true));
    advance(&mut b, DriverReply::LayerList(vec!["VK_LAYER_KHRONOS_validation".to_string()]));
    advance(&mut b, DriverReply::Handle(1));
    advance(&mut b, DriverReply::Handle(2));
    advance(&mut b, DriverReply::Handle(3));
    let mut cpu = discrete_device();
    cpu.device_type = DeviceType::Cpu;
    match b.step(DriverReply::DeviceList(vec![cpu])) {
        StepOutcome::Halted(e, unwind) => {
            assert!(matches!(e, BootstrapError::NoSuitableDevice));
            let expected = vec![
                DestroyStep { resource: Resource::Surface, handle: 3 },
                DestroyStep { resource: Resource::DebugMessenger, handle: 2 },
                DestroyStep { resource: Resource::Instance, handle: 1 },
            ];
            assert_eq!(unwind, expected);
        },
        _ => panic!("expected the chain to halt"),
    }
}

#[test]
fn without_validation_the_messenger_stage_is_skipped() {
    let mut b = Bootstrap::new(config(false));
    match b.next_request() {
        DriverRequest::CreateInstance { extensions, validation } => {
            assert!(!validation);
            assert_eq!(extensions, vec!["VK_KHR_surface".to_string()]);
        },
        _ => panic!("expected instance creation first"),
    }
    advance(&mut b, DriverReply::Handle(1));
    assert!(matches!(b.next_request(), DriverRequest::CreateSurface));
}

#[test]
fn failure_at_the_first_stage_unwinds_nothing() {
    let mut b = Bootstrap::new(config(false));
    match b.step(DriverReply::Failure(-1)) {
        StepOutcome::Halted(e, unwind) => {
            assert!(matches!(e, BootstrapError::Driver(StageName::Instance, -1)));
            assert!(unwind.is_empty());
        },
        _ => panic!("expected the chain to halt"),
    }
}
