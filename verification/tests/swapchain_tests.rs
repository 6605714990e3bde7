use gpu_bootstrap::device::QueueFamilyIndices;
use gpu_bootstrap::swapchain::{
    choose_extent, choose_format, choose_image_count, choose_present_mode, plan_image_view,
    plan_swapchain, SharingMode, SurfaceCaps, SwapchainSupport,
};
use gpu_bootstrap::types::{Extent2D, PresentMode, SurfaceFormat, EXTENT_ANY};

const PREFERRED: SurfaceFormat = SurfaceFormat { format: 50, color_space: 0 };

fn caps(current: Extent2D) -> SurfaceCaps {
    SurfaceCaps {
        min_image_count: 2,
        max_image_count: 8,
        current_extent: current,
        min_extent: Extent2D { width: 100, height: 100 },
        max_extent: Extent2D { width: 2000, height: 1000 },
        current_transform: 1,
    }
}

#[test]
fn preferred_format_wins_wherever_it_stands() {
    let other = SurfaceFormat { format: 44, color_space: 0 };
    let third = SurfaceFormat { format: 50, color_space: 1 };
    assert_eq!(choose_format(&vec![PREFERRED, other]), PREFERRED);
    assert_eq!(choose_format(&vec![other, third, PREFERRED]), PREFERRED);
}

#[test]
fn first_format_is_the_fallback() {
    let a = SurfaceFormat { format: 44, color_space: 0 };
    let b = SurfaceFormat { format: 50, color_space: 1 };
    assert_eq!(choose_format(&vec![a, b]), a);
}

#[test]
fn mailbox_wins_when_offered() {
    let modes = vec![PresentMode::Fifo, PresentMode::Mailbox, PresentMode::Immediate];
    assert_eq!(choose_present_mode(&modes), PresentMode::Mailbox);
}

#[test]
fn fifo_is_the_present_fallback() {
    let modes = vec![PresentMode::Immediate, PresentMode::FifoRelaxed];
    assert_eq!(choose_present_mode(&modes), PresentMode::Fifo);
    assert_eq!(choose_present_mode(&vec![]), PresentMode::Fifo);
}

#[test]
fn concrete_current_extent_is_taken_verbatim() {
    let current = Extent2D { width: 640, height: 480 };
    let chosen = choose_extent(&caps(current), Extent2D { width: 5000, height: 5 });
    assert_eq!(chosen, current);
}

#[test]
fn sentinel_extent_clamps_the_framebuffer_componentwise() {
    let c = caps(Extent2D { width: EXTENT_ANY, height: 300 });
    let chosen = choose_extent(&c, Extent2D { width: 5000, height: 50 });
    assert_eq!(chosen, Extent2D { width: 2000, height: 100 });
    let within = choose_extent(&c, Extent2D { width: 800, height: 600 });
    assert_eq!(within, Extent2D { width: 800, height: 600 });
}

#[test]
fn image_count_is_one_over_the_minimum_when_unbounded() {
    let mut c = caps(Extent2D { width: 640, height: 480 });
    c.min_image_count = 2;
    c.max_image_count = 0;
    assert_eq!(choose_image_count(&c), 3);
}

#[test]
fn image_count_clamps_to_a_stated_maximum() {
    let mut c = caps(Extent2D { width: 640, height: 480 });
    c.min_image_count = 2;
    c.max_image_count = 2;
    assert_eq!(choose_image_count(&c), 2);
}

#[test]
fn coincident_families_share_exclusively() {
    let support = SwapchainSupport {
        caps: caps(Extent2D { width: 640, height: 480 }),
        formats: vec![PREFERRED],
        present_modes: vec![PresentMode::Mailbox],
    };
    let qi = QueueFamilyIndices { graphics: 0, present: 0 };
    let config = plan_swapchain(&support, Extent2D { width: 640, height: 480 }, &qi);
    assert_eq!(config.sharing, SharingMode::Exclusive);
    assert!(config.family_indices.is_empty());
}

#[test]
fn distinct_families_share_concurrently() {
    let support = SwapchainSupport {
        caps: caps(Extent2D { width: 640, height: 480 }),
        formats: vec![PREFERRED],
        present_modes: vec![PresentMode::Fifo],
    };
    let qi = QueueFamilyIndices { graphics: 0, present: 1 };
    let config = plan_swapchain(&support, Extent2D { width: 640, height: 480 }, &qi);
    assert_eq!(config.sharing, SharingMode::Concurrent);
    assert_eq!(config.family_indices, vec![0, 1]);
}

#[test]
fn the_whole_plan_composes_the_four_choices() {
    let support = SwapchainSupport {
        caps: caps(Extent2D { width: EXTENT_ANY, height: 480 }),
        formats: vec![SurfaceFormat { format: 44, color_space: 0 }, PREFERRED],
        present_modes: vec![PresentMode::Mailbox],
    };
    let qi = QueueFamilyIndices { graphics: 0, present: 0 };
    let config = plan_swapchain(&support, Extent2D { width: 120, height: 5000 }, &qi);
    assert_eq!(config.min_image_count, 3);
    assert_eq!(config.format, PREFERRED);
    assert_eq!(config.extent, Extent2D { width: 120, height: 1000 });
    assert_eq!(config.present_mode, PresentMode::Mailbox);
    assert_eq!(config.pre_transform, 1);
}

#[test]
fn image_views_cover_one_color_layer_identically() {
    let v = plan_image_view(7, 50);
    assert_eq!(v.image, 7);
    assert_eq!(v.format, 50);
    assert!(v.identity_swizzle);
    assert!(v.color_aspect_only);
    assert_eq!(v.base_mip_level, 0);
    assert_eq!(v.mip_level_count, 1);
    assert_eq!(v.base_array_layer, 0);
    assert_eq!(v.array_layer_count, 1);
}
