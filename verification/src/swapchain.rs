//! Swapchain presentation-parameter selection: surface format, present
//! mode, swap extent, image count and sharing mode, each chosen
//! independently with first-match-wins semantics and a safe fallback, and
//! the per-image view plan.  Everything is computed fresh from the
//! capability report the driver gives at creation time; nothing is cached.

use vstd::prelude::*;

use crate::device::QueueFamilyIndices;
use crate::types::{
    preferred_surface_format, Extent2D, PresentMode, SurfaceFormat, EXTENT_ANY,
};

verus! {

/// What the driver reports about the surface for the selected device.
#[derive(Clone, Copy, Debug, PartialEq, Eq, Structural)]
pub struct SurfaceCaps {
    /// Fewest images the swapchain may hold.
    pub min_image_count: u32,
    /// Most images the swapchain may hold; zero means unbounded.
    pub max_image_count: u32,
    /// The surface's current size, or `EXTENT_ANY` in its width when the
    /// surface takes any size.
    pub current_extent: Extent2D,
    pub min_extent: Extent2D,
    pub max_extent: Extent2D,
    /// The transform the surface is presented with, passed through
    /// unchanged.
    pub current_transform: u32,
}

/// The transient support report for one device/surface pair: capabilities,
/// supported formats, supported present modes.  Computed per candidate
/// device and again at swapchain creation; never kept.
#[derive(Debug, Clone)]
pub struct SwapchainSupport {
    pub caps: SurfaceCaps,
    pub formats: Vec<SurfaceFormat>,
    pub present_modes: Vec<PresentMode>,
}

/// The capability report is sane: the extent bounds are ordered and one
/// more image than the minimum is still representable.  Drivers guarantee
/// this; the clamps below rely on it.
pub open spec fn spec_caps_wf(caps: SurfaceCaps) -> bool {
    &&& caps.min_extent.width <= caps.max_extent.width
    &&& caps.min_extent.height <= caps.max_extent.height
    &&& caps.min_image_count < u32::MAX
}

/// The format choice: the preferred 8-bit BGRA / non-linear sRGB pair when
/// the driver offers it anywhere in its list, otherwise the first format
/// the driver reports.
pub open spec fn spec_choose_format(formats: Seq<SurfaceFormat>) -> SurfaceFormat {
    if formats.contains(preferred_surface_format()) {
        preferred_surface_format()
    } else {
        formats[0]
    }
}

/// Chooses the surface format from the driver's non-empty list.
pub fn choose_format(formats: &Vec<SurfaceFormat>) -> (r: SurfaceFormat)
    requires
        formats@.len() > 0,
    ensures
        r == spec_choose_format(formats@),
{
    let n = formats.len();
    let mut i: usize = 0;
    while i < n
        invariant
            i <= n,
            n == formats@.len(),
            forall|j: int| 0 <= j < i ==> formats@[j] != preferred_surface_format(),
        decreases n - i,
    {
        let f = formats[i];
        if f.format == crate::types::FORMAT_B8G8R8A8_SRGB && f.color_space
            == crate::types::COLOR_SPACE_SRGB_NONLINEAR {
            proof {
                assert(formats@[i as int] == preferred_surface_format());
                assert(formats@.contains(preferred_surface_format()));
            }
            return f;
        }
        i += 1;
    }
    proof {
        assert(!formats@.contains(preferred_surface_format())) by {
            if formats@.contains(preferred_surface_format()) {
                let j = choose|j: int|
                    0 <= j < formats@.len() && formats@[j] == preferred_surface_format();
                assert(false);
            }
        }
    }
    formats[0]
}

/// The present-mode choice: mailbox when available (low latency, no
/// tearing), otherwise FIFO, which every driver supports.
pub open spec fn spec_choose_present_mode(modes: Seq<PresentMode>) -> PresentMode {
    if modes.contains(PresentMode::Mailbox) {
        PresentMode::Mailbox
    } else {
        PresentMode::Fifo
    }
}

/// Chooses the present mode from the driver's list.
pub fn choose_present_mode(modes: &Vec<PresentMode>) -> (r: PresentMode)
    ensures
        r == spec_choose_present_mode(modes@),
{
    let n = modes.len();
    let mut i: usize = 0;
    while i < n
        invariant
            i <= n,
            n == modes@.len(),
            forall|j: int| 0 <= j < i ==> modes@[j] != PresentMode::Mailbox,
        decreases n - i,
    {
        if matches!(modes[i], PresentMode::Mailbox) {
            proof {
                assert(modes@.contains(PresentMode::Mailbox));
            }
            return PresentMode::Mailbox;
        }
        i += 1;
    }
    proof {
        assert(!modes@.contains(PresentMode::Mailbox)) by {
            if modes@.contains(PresentMode::Mailbox) {
                let j = choose|j: int|
                    0 <= j < modes@.len() && modes@[j] == PresentMode::Mailbox;
                assert(false);
            }
        }
    }
    PresentMode::Fifo
}

/// `v` clamped into `[lo, hi]`.
pub open spec fn spec_clamp(v: u32, lo: u32, hi: u32) -> u32 {
    if v < lo {
        lo
    } else if v > hi {
        hi
    } else {
        v
    }
}

/// The extent choice: a driver that reports the any-size sentinel leaves
/// the choice to the application, which takes the window's framebuffer
/// size clamped componentwise into the driver's bounds; a driver that
/// reports a concrete current extent is taken at its word.
pub open spec fn spec_choose_extent(caps: SurfaceCaps, framebuffer: Extent2D) -> Extent2D {
    if caps.current_extent.width != EXTENT_ANY {
        caps.current_extent
    } else {
        Extent2D {
            width: spec_clamp(framebuffer.width, caps.min_extent.width, caps.max_extent.width),
            height: spec_clamp(
                framebuffer.height,
                caps.min_extent.height,
                caps.max_extent.height,
            ),
        }
    }
}

/// Chooses the swap extent from the capability report and the window's
/// current framebuffer size.
pub fn choose_extent(caps: &SurfaceCaps, framebuffer: Extent2D) -> (r: Extent2D)
    requires
        spec_caps_wf(*caps),
    ensures
        r == spec_choose_extent(*caps, framebuffer),
{
    if caps.current_extent.width != EXTENT_ANY {
        return caps.current_extent;
    }
    let width = if framebuffer.width < caps.min_extent.width {
        caps.min_extent.width
    } else if framebuffer.width > caps.max_extent.width {
        caps.max_extent.width
    } else {
        framebuffer.width
    };
    let height = if framebuffer.height < caps.min_extent.height {
        caps.min_extent.height
    } else if framebuffer.height > caps.max_extent.height {
        caps.max_extent.height
    } else {
        framebuffer.height
    };
    Extent2D { width, height }
}

/// The image-count choice: one more than the driver's minimum, clamped
/// down to the maximum when the driver states a nonzero one (zero means
/// unbounded).
pub open spec fn spec_choose_image_count(caps: SurfaceCaps) -> u32 {
    let desired = (caps.min_image_count + 1) as u32;
    if caps.max_image_count != 0 && desired > caps.max_image_count {
        caps.max_image_count
    } else {
        desired
    }
}

/// Chooses how many images to request.
pub fn choose_image_count(caps: &SurfaceCaps) -> (r: u32)
    requires
        spec_caps_wf(*caps),
    ensures
        r == spec_choose_image_count(*caps),
{
    let desired = caps.min_image_count + 1;
    if caps.max_image_count != 0 && desired > caps.max_image_count {
        caps.max_image_count
    } else {
        desired
    }
}

/// How the swapchain images are shared between queue families.
#[derive(Clone, Copy, Debug, PartialEq, Eq, Structural)]
pub enum SharingMode {
    /// One family owns the images; no cross-family synchronization.
    Exclusive,
    /// The listed families access the images concurrently.
    Concurrent,
}

/// The sharing choice: exclusive when graphics and presentation share one
/// family, concurrent across the two families when they differ.
pub open spec fn spec_choose_sharing(qi: QueueFamilyIndices) -> SharingMode {
    if qi.graphics == qi.present {
        SharingMode::Exclusive
    } else {
        SharingMode::Concurrent
    }
}

/// The family list a concurrent swapchain declares: both indices; an
/// exclusive swapchain declares none.
pub open spec fn spec_sharing_families(qi: QueueFamilyIndices) -> Seq<u32> {
    if qi.graphics == qi.present {
        Seq::empty()
    } else {
        seq![qi.graphics, qi.present]
    }
}

/// Everything the swapchain creation call needs, chosen from one support
/// report.
#[derive(Debug, Clone)]
pub struct SwapchainConfig {
    pub min_image_count: u32,
    pub format: SurfaceFormat,
    pub extent: Extent2D,
    pub present_mode: PresentMode,
    pub sharing: SharingMode,
    pub family_indices: Vec<u32>,
    pub pre_transform: u32,
}

/// The two configurations describe the same swapchain creation call.
pub open spec fn spec_same_swap_config(a: SwapchainConfig, b: SwapchainConfig) -> bool {
    &&& a.min_image_count == b.min_image_count
    &&& a.format == b.format
    &&& a.extent == b.extent
    &&& a.present_mode == b.present_mode
    &&& a.sharing == b.sharing
    &&& a.family_indices@ == b.family_indices@
    &&& a.pre_transform == b.pre_transform
}

/// A fresh copy of a swapchain configuration, to hand to the driver while
/// the chosen one stays recorded.
pub fn duplicate_config(c: &SwapchainConfig) -> (r: SwapchainConfig)
    ensures
        spec_same_swap_config(*c, r),
{
    let mut families: Vec<u32> = Vec::new();
    let mut i: usize = 0;
    while i < c.family_indices.len()
        invariant
            i <= c.family_indices@.len(),
            families@ =~= c.family_indices@.subrange(0, i as int),
        decreases c.family_indices@.len() - i,
    {
        families.push(c.family_indices[i]);
        i += 1;
    }
    proof {
        assert(families@ =~= c.family_indices@);
    }
    SwapchainConfig {
        min_image_count: c.min_image_count,
        format: c.format,
        extent: c.extent,
        present_mode: c.present_mode,
        sharing: c.sharing,
        family_indices: families,
        pre_transform: c.pre_transform,
    }
}

/// Whether `config` is what one support report, framebuffer size and
/// queue-index pair select.
pub open spec fn spec_swapchain_config(
    support: SwapchainSupport,
    framebuffer: Extent2D,
    qi: QueueFamilyIndices,
    config: SwapchainConfig,
) -> bool {
    &&& config.min_image_count == spec_choose_image_count(support.caps)
    &&& config.format == spec_choose_format(support.formats@)
    &&& config.extent == spec_choose_extent(support.caps, framebuffer)
    &&& config.present_mode == spec_choose_present_mode(support.present_modes@)
    &&& config.sharing == spec_choose_sharing(qi)
    &&& config.family_indices@ == spec_sharing_families(qi)
    &&& config.pre_transform == support.caps.current_transform
}

/// Plans the whole swapchain creation from one freshly queried support
/// report: format, present mode, extent, image count, sharing mode and
/// the surface's current transform.
pub fn plan_swapchain(
    support: &SwapchainSupport,
    framebuffer: Extent2D,
    qi: &QueueFamilyIndices,
) -> (r: SwapchainConfig)
    requires
        spec_caps_wf(support.caps),
        support.formats@.len() > 0,
    ensures
        spec_swapchain_config(*support, framebuffer, *qi, r),
{
    let mut families: Vec<u32> = Vec::new();
    let sharing = if qi.graphics == qi.present {
        SharingMode::Exclusive
    } else {
        families.push(qi.graphics);
        families.push(qi.present);
        SharingMode::Concurrent
    };
    proof {
        assert(families@ =~= spec_sharing_families(*qi));
    }
    SwapchainConfig {
        min_image_count: choose_image_count(&support.caps),
        format: choose_format(&support.formats),
        extent: choose_extent(&support.caps, framebuffer),
        present_mode: choose_present_mode(&support.present_modes),
        sharing,
        family_indices: families,
        pre_transform: support.caps.current_transform,
    }
}

/// How one swapchain image is viewed: a plain 2D color view of the swap
/// format, all four channels mapped identically, one mip level, one array
/// layer.  Only the image handle and the format vary; the rest is fixed
/// by this design.
#[derive(Clone, Copy, Debug, PartialEq, Eq, Structural)]
pub struct ImageViewConfig {
    pub image: u64,
    pub format: u32,
    pub identity_swizzle: bool,
    pub color_aspect_only: bool,
    pub base_mip_level: u32,
    pub mip_level_count: u32,
    pub base_array_layer: u32,
    pub array_layer_count: u32,
}

/// Whether `v` is the one view configuration this design gives an image.
pub open spec fn spec_view_config(image: u64, format: u32, v: ImageViewConfig) -> bool {
    v == (ImageViewConfig {
        image,
        format,
        identity_swizzle: true,
        color_aspect_only: true,
        base_mip_level: 0,
        mip_level_count: 1,
        base_array_layer: 0,
        array_layer_count: 1,
    })
}

/// The view configuration for one swapchain image.
pub fn plan_image_view(image: u64, format: u32) -> (r: ImageViewConfig)
    ensures
        spec_view_config(image, format, r),
{
    ImageViewConfig {
        image,
        format,
        identity_swizzle: true,
        color_aspect_only: true,
        base_mip_level: 0,
        mip_level_count: 1,
        base_array_layer: 0,
        array_layer_count: 1,
    }
}

} // verus!
