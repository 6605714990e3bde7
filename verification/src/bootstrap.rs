//! The bootstrap state machine.  Control flows strictly downward through
//! the creation chain — instance, validation channel, surface, device
//! selection, logical device, swapchain, image views, render pass,
//! pipeline layout, pipeline — and every driver call sits outside this
//! crate: the machine names the next creation call to make, the caller
//! performs it and feeds the outcome back, and on any failure the machine
//! hands back the unwind plan for exactly what was already created, in
//! reverse creation order, leaving nothing allocated.

use vstd::prelude::*;

use crate::context::{
    spec_context_is_empty, spec_teardown, teardown_plan, DestroyStep, FrameResources, GpuContext,
};
use crate::device::{
    device_extensions, device_layers, find_queue_families, required_device_extensions,
    select_device, spec_device_extensions, spec_device_layers, spec_first_fit,
    spec_indices_resolved, spec_required_device_extensions, spec_suitable, spec_unique_families,
    unique_queue_families, DeviceInfo, QueueFamilyIndices,
};
use crate::error::{BootstrapError, StageName};
use crate::instance::{
    instance_extensions, spec_instance_extensions, spec_validation_layer_name,
    validation_layer_name,
};
use crate::pipeline::{
    plan_pipeline, plan_render_pass, spec_pipeline_config, spec_render_pass_config,
    PipelineConfig, RenderPassConfig,
};
use crate::shader::{ShaderArtifact, ShaderStage};
use crate::swapchain::{
    duplicate_config, plan_image_view, plan_swapchain, spec_caps_wf, spec_same_swap_config,
    spec_swapchain_config, spec_view_config, ImageViewConfig, SharingMode, SwapchainConfig,
    SwapchainSupport,
};
use crate::text::name_list_has;
use crate::types::{Extent2D, PresentMode, SurfaceFormat};

verus! {

/// What the bootstrap is given before it starts: the profile-derived
/// validation toggle, the portability toggle of the target, the platform's
/// required instance extensions, and the two compiled shader artifacts the
/// pipeline consumes.
pub struct BootstrapConfig {
    pub validation: bool,
    pub portability: bool,
    pub platform_extensions: Vec<String>,
    pub vertex_shader: ShaderArtifact,
    pub fragment_shader: ShaderArtifact,
}

impl BootstrapConfig {
    /// The two artifacts feed the stages they are named for.
    pub open spec fn wf(&self) -> bool {
        &&& self.vertex_shader.stage == ShaderStage::Vertex
        &&& self.fragment_shader.stage == ShaderStage::Fragment
    }
}

/// Where the machine stands: which creation call it is waiting on.
#[derive(Clone, Copy, Debug, PartialEq, Eq, Structural)]
pub enum Stage {
    /// Waiting for the instance-layer enumeration (validation builds only).
    LayerCheck,
    Instance,
    Messenger,
    Surface,
    PickDevice,
    Device,
    QuerySupport,
    Swapchain,
    Views,
    RenderPass,
    PipelineLayout,
    Pipeline,
    Complete,
    Aborted,
}

/// The next call the driver shim is asked to make, with every piece of
/// data this library decided.
pub enum DriverRequest {
    EnumerateLayers,
    CreateInstance { extensions: Vec<String>, validation: bool },
    CreateDebugMessenger,
    CreateSurface,
    EnumerateDevices,
    CreateDevice {
        device_index: usize,
        queue_families: Vec<u32>,
        extensions: Vec<String>,
        layers: Vec<String>,
    },
    QuerySwapchainSupport { device_index: usize },
    CreateSwapchain { config: SwapchainConfig },
    CreateImageView { config: ImageViewConfig },
    CreateRenderPass { config: RenderPassConfig },
    CreatePipelineLayout,
    CreatePipeline { config: PipelineConfig },
}

/// What the driver shim reports back for one request.
pub enum DriverReply {
    LayerList(Vec<String>),
    Handle(u64),
    DeviceList(Vec<DeviceInfo>),
    DeviceCreated { device: u64, graphics_queue: u64, present_queue: u64 },
    SupportInfo { support: SwapchainSupport, framebuffer: Extent2D },
    SwapchainCreated { swapchain: u64, images: Vec<u64> },
    Failure(i32),
}

/// What one fed-back outcome does to the machine.
pub enum StepOutcome {
    /// The stage succeeded; ask `next_request` for the following call.
    Advanced,
    /// The whole chain succeeded; `finish` yields the context.
    Finished,
    /// The chain stopped.  Carries the error and the unwind plan: the
    /// destroy calls for exactly what was already created, in reverse
    /// creation order.  The machine's context is empty afterwards.
    Halted(BootstrapError, Vec<DestroyStep>),
}

/// The bootstrap state machine: the configuration, the stage it waits on,
/// and the partial context of everything created so far.
pub struct Bootstrap {
    pub config: BootstrapConfig,
    pub stage: Stage,
    pub ctx: GpuContext,
    /// Index of the selected device in the enumerated list, once selected.
    pub chosen: Option<usize>,
    /// The resolved queue family indices, once selected.
    pub indices: Option<QueueFamilyIndices>,
    /// The swapchain parameters, chosen from the support report and kept
    /// until the swapchain exists.
    pub swap_plan: Option<SwapchainConfig>,
}

/// The error stage a failure at each machine stage is charged to.
pub open spec fn spec_stage_label(stage: Stage) -> StageName {
    match stage {
        Stage::LayerCheck => StageName::Instance,
        Stage::Instance => StageName::Instance,
        Stage::Messenger => StageName::DebugMessenger,
        Stage::Surface => StageName::Surface,
        Stage::PickDevice => StageName::DeviceSelection,
        Stage::Device => StageName::Device,
        Stage::QuerySupport => StageName::SwapchainQuery,
        Stage::Swapchain => StageName::Swapchain,
        Stage::Views => StageName::ImageView,
        Stage::RenderPass => StageName::RenderPass,
        Stage::PipelineLayout => StageName::PipelineLayout,
        Stage::Pipeline => StageName::Pipeline,
        Stage::Complete => StageName::Pipeline,
        Stage::Aborted => StageName::Instance,
    }
}

/// Nothing at or past the surface is created yet.
pub open spec fn frame_untouched(ctx: GpuContext) -> bool {
    &&& ctx.frame.surface == 0
    &&& frame_after_surface_untouched(ctx)
}

/// Nothing past the surface is created yet.
pub open spec fn frame_after_surface_untouched(ctx: GpuContext) -> bool {
    &&& ctx.frame.graphics_queue == 0
    &&& ctx.frame.present_queue == 0
    &&& ctx.device == 0
    &&& frame_after_device_untouched(ctx)
}

/// Nothing past the logical device is created yet.
pub open spec fn frame_after_device_untouched(ctx: GpuContext) -> bool {
    &&& ctx.frame.swapchain == 0
    &&& ctx.frame.images@ == Seq::<u64>::empty()
    &&& ctx.frame.views@ == Seq::<u64>::empty()
    &&& frame_after_views_untouched(ctx)
}

/// Nothing past the image views is created yet.
pub open spec fn frame_after_views_untouched(ctx: GpuContext) -> bool {
    &&& ctx.frame.render_pass == 0
    &&& ctx.frame.pipeline_layout == 0
    &&& ctx.frame.pipeline == 0
}

/// The instance-level handles a running machine past the instance stage
/// holds: the instance itself, and the messenger exactly when validation
/// is on.
pub open spec fn instance_level_held(b: Bootstrap) -> bool {
    &&& b.ctx.instance != 0
    &&& (b.ctx.debug_messenger != 0 <==> b.config.validation)
}

/// Once the swapchain exists, the recorded swap format and extent are the
/// planned ones.
pub open spec fn plan_recorded(b: Bootstrap) -> bool {
    b.swap_plan matches Some(p) && b.ctx.frame.format == p.format && b.ctx.frame.extent
        == p.extent
}

/// The device-level handles a running machine past the device stage holds.
pub open spec fn device_level_held(b: Bootstrap) -> bool {
    &&& b.ctx.device != 0
    &&& b.ctx.frame.graphics_queue != 0
    &&& b.ctx.frame.present_queue != 0
    &&& b.chosen is Some
    &&& b.indices is Some
}

/// What the machine asks the driver shim to do at each stage, with every
/// decided value pinned down.
pub open spec fn spec_request(pre: Bootstrap, r: DriverRequest) -> bool {
    match pre.stage {
        Stage::LayerCheck => r is EnumerateLayers,
        Stage::Instance => (r matches DriverRequest::CreateInstance { extensions, validation }
            && extensions.deep_view() == spec_instance_extensions(
            pre.config.platform_extensions.deep_view(),
            pre.config.validation,
            pre.config.portability,
        ) && validation == pre.config.validation),
        Stage::Messenger => r is CreateDebugMessenger,
        Stage::Surface => r is CreateSurface,
        Stage::PickDevice => r is EnumerateDevices,
        Stage::Device => (r matches DriverRequest::CreateDevice {
            device_index,
            queue_families,
            extensions,
            layers,
        } && pre.chosen == Some(device_index) && (pre.indices matches Some(qi)
            && queue_families@ == spec_unique_families(qi)) && extensions.deep_view()
            == spec_device_extensions(pre.config.portability) && layers.deep_view()
            == spec_device_layers(pre.config.validation)),
        Stage::QuerySupport => (r matches DriverRequest::QuerySwapchainSupport { device_index }
            && pre.chosen == Some(device_index)),
        Stage::Swapchain => (r matches DriverRequest::CreateSwapchain { config } && (
        pre.swap_plan matches Some(p) && spec_same_swap_config(p, config))),
        Stage::Views => (r matches DriverRequest::CreateImageView { config } && spec_view_config(
            pre.ctx.frame.images@[pre.ctx.frame.views@.len() as int],
            pre.ctx.frame.format.format,
            config,
        )),
        Stage::RenderPass => (r matches DriverRequest::CreateRenderPass { config }
            && spec_render_pass_config(pre.ctx.frame.format.format, config)),
        Stage::PipelineLayout => r is CreatePipelineLayout,
        Stage::Pipeline => (r matches DriverRequest::CreatePipeline { config }
            && spec_pipeline_config(
            pre.config.vertex_shader.code@,
            pre.config.fragment_shader.code@,
            pre.ctx.frame.extent,
            config,
        )),
        Stage::Complete => false,
        Stage::Aborted => false,
    }
}

/// Whether a driver outcome is one the machine can be fed at its current
/// stage: the right kind of answer for the pending request, carrying live
/// handles and a sane capability report.  The shim guarantees this by
/// construction; a raw driver failure fits at every stage.
pub open spec fn reply_fits(pre: Bootstrap, reply: DriverReply) -> bool {
    match reply {
        DriverReply::Failure(_) => true,
        DriverReply::LayerList(_) => pre.stage == Stage::LayerCheck,
        DriverReply::Handle(h) => {
            &&& h != 0
            &&& (pre.stage == Stage::Instance || pre.stage == Stage::Messenger || pre.stage
                == Stage::Surface || pre.stage == Stage::Views || pre.stage == Stage::RenderPass
                || pre.stage == Stage::PipelineLayout || pre.stage == Stage::Pipeline)
        },
        DriverReply::DeviceList(devs) => {
            &&& pre.stage == Stage::PickDevice
            &&& forall|d: int|
                0 <= d < devs@.len() ==> (#[trigger] devs@[d]).queue_families@.len() <= u32::MAX
                    as nat
        },
        DriverReply::DeviceCreated { device, graphics_queue, present_queue } => {
            &&& pre.stage == Stage::Device
            &&& device != 0
            &&& graphics_queue != 0
            &&& present_queue != 0
        },
        DriverReply::SupportInfo { support, framebuffer: _ } => {
            &&& pre.stage == Stage::QuerySupport
            &&& spec_caps_wf(support.caps)
            &&& support.formats@.len() > 0
        },
        DriverReply::SwapchainCreated { swapchain, images: _ } => {
            &&& pre.stage == Stage::Swapchain
            &&& swapchain != 0
        },
    }
}

/// Everything of the machine except the view list and the stage is as it
/// was.
pub open spec fn unchanged_but_views(pre: Bootstrap, post: Bootstrap) -> bool {
    &&& post.config == pre.config
    &&& post.chosen == pre.chosen
    &&& post.indices == pre.indices
    &&& post.swap_plan == pre.swap_plan
    &&& post.ctx.instance == pre.ctx.instance
    &&& post.ctx.debug_messenger == pre.ctx.debug_messenger
    &&& post.ctx.device == pre.ctx.device
    &&& post.ctx.frame.surface == pre.ctx.frame.surface
    &&& post.ctx.frame.graphics_queue == pre.ctx.frame.graphics_queue
    &&& post.ctx.frame.present_queue == pre.ctx.frame.present_queue
    &&& post.ctx.frame.swapchain == pre.ctx.frame.swapchain
    &&& post.ctx.frame.format == pre.ctx.frame.format
    &&& post.ctx.frame.extent == pre.ctx.frame.extent
    &&& post.ctx.frame.images == pre.ctx.frame.images
    &&& post.ctx.frame.render_pass == pre.ctx.frame.render_pass
    &&& post.ctx.frame.pipeline_layout == pre.ctx.frame.pipeline_layout
    &&& post.ctx.frame.pipeline == pre.ctx.frame.pipeline
}

/// The machine halted: it aborted, keeps nothing, and its configuration
/// is untouched.
pub open spec fn spec_halted_common(pre: Bootstrap, post: Bootstrap) -> bool {
    &&& post.stage == Stage::Aborted
    &&& spec_context_is_empty(post.ctx)
    &&& post.config == pre.config
}

/// The full transition relation of one fed-back outcome: what the machine
/// records, which stage comes next, and when and how it halts instead.
pub open spec fn spec_step(
    pre: Bootstrap,
    reply: DriverReply,
    post: Bootstrap,
    out: StepOutcome,
) -> bool {
    match reply {
        DriverReply::Failure(code) => {
            &&& (out matches StepOutcome::Halted(e, unwind) && (e matches BootstrapError::Driver(
                s,
                c,
            ) && s == spec_stage_label(pre.stage) && c == code) && unwind@ == spec_teardown(
                pre.ctx,
            ))
            &&& spec_halted_common(pre, post)
        },
        DriverReply::LayerList(layers) => {
            &&& pre.stage == Stage::LayerCheck
            &&& if layers.deep_view().contains(spec_validation_layer_name()) {
                &&& post == (Bootstrap { stage: Stage::Instance, ..pre })
                &&& out is Advanced
            } else {
                &&& (out matches StepOutcome::Halted(e, unwind) && (
                e matches BootstrapError::MissingLayer(l) && l@ == spec_validation_layer_name())
                    && unwind@ == spec_teardown(pre.ctx))
                &&& spec_halted_common(pre, post)
            }
        },
        DriverReply::Handle(h) => {
            match pre.stage {
                Stage::Instance => {
                    &&& post == (Bootstrap {
                        stage: if pre.config.validation {
                            Stage::Messenger
                        } else {
                            Stage::Surface
                        },
                        ctx: (GpuContext { instance: h, ..pre.ctx }),
                        ..pre
                    })
                    &&& out is Advanced
                },
                Stage::Messenger => {
                    &&& post == (Bootstrap {
                        stage: Stage::Surface,
                        ctx: (GpuContext { debug_messenger: h, ..pre.ctx }),
                        ..pre
                    })
                    &&& out is Advanced
                },
                Stage::Surface => {
                    &&& post == (Bootstrap {
                        stage: Stage::PickDevice,
                        ctx: (GpuContext {
                            frame: (FrameResources { surface: h, ..pre.ctx.frame }),
                            ..pre.ctx
                        }),
                        ..pre
                    })
                    &&& out is Advanced
                },
                Stage::Views => {
                    &&& post.ctx.frame.views@ == pre.ctx.frame.views@.push(h)
                    &&& unchanged_but_views(pre, post)
                    &&& post.stage == (if pre.ctx.frame.views@.len() + 1
                        == pre.ctx.frame.images@.len() {
                        Stage::RenderPass
                    } else {
                        Stage::Views
                    })
                    &&& out is Advanced
                },
                Stage::RenderPass => {
                    &&& post == (Bootstrap {
                        stage: Stage::PipelineLayout,
                        ctx: (GpuContext {
                            frame: (FrameResources { render_pass: h, ..pre.ctx.frame }),
                            ..pre.ctx
                        }),
                        ..pre
                    })
                    &&& out is Advanced
                },
                Stage::PipelineLayout => {
                    &&& post == (Bootstrap {
                        stage: Stage::Pipeline,
                        ctx: (GpuContext {
                            frame: (FrameResources { pipeline_layout: h, ..pre.ctx.frame }),
                            ..pre.ctx
                        }),
                        ..pre
                    })
                    &&& out is Advanced
                },
                Stage::Pipeline => {
                    &&& post == (Bootstrap {
                        stage: Stage::Complete,
                        ctx: (GpuContext {
                            frame: (FrameResources { pipeline: h, ..pre.ctx.frame }),
                            ..pre.ctx
                        }),
                        ..pre
                    })
                    &&& out is Finished
                },
                _ => false,
            }
        },
        DriverReply::DeviceList(devs) => {
            &&& pre.stage == Stage::PickDevice
            &&& if exists|i: int| spec_first_fit(devs@, spec_required_device_extensions(), i) {
                &&& (post.chosen matches Some(ci) && spec_first_fit(
                    devs@,
                    spec_required_device_extensions(),
                    ci as int,
                ) && (post.indices matches Some(qi) && spec_indices_resolved(
                    devs@[ci as int],
                    qi,
                )))
                &&& post.stage == Stage::Device
                &&& post.ctx == pre.ctx
                &&& post.config == pre.config
                &&& post.swap_plan == pre.swap_plan
                &&& out is Advanced
            } else {
                &&& (out matches StepOutcome::Halted(e, unwind) && e is NoSuitableDevice
                    && unwind@ == spec_teardown(pre.ctx))
                &&& spec_halted_common(pre, post)
            }
        },
        DriverReply::DeviceCreated { device, graphics_queue, present_queue } => {
            &&& pre.stage == Stage::Device
            &&& post == (Bootstrap {
                stage: Stage::QuerySupport,
                ctx: (GpuContext {
                    device,
                    frame: (FrameResources { graphics_queue, present_queue, ..pre.ctx.frame }),
                    ..pre.ctx
                }),
                ..pre
            })
            &&& out is Advanced
        },
        DriverReply::SupportInfo { support, framebuffer } => {
            &&& pre.stage == Stage::QuerySupport
            &&& (pre.indices matches Some(qi) && (post.swap_plan matches Some(p)
                && spec_swapchain_config(support, framebuffer, qi, p)))
            &&& post.stage == Stage::Swapchain
            &&& post.ctx == pre.ctx
            &&& post.config == pre.config
            &&& post.chosen == pre.chosen
            &&& post.indices == pre.indices
            &&& out is Advanced
        },
        DriverReply::SwapchainCreated { swapchain, images } => {
            &&& pre.stage == Stage::Swapchain
            &&& (pre.swap_plan matches Some(p) && post.ctx.frame.format == p.format
                && post.ctx.frame.extent == p.extent)
            &&& post.ctx.frame.swapchain == swapchain
            &&& post.ctx.frame.images == images
            &&& post.ctx.instance == pre.ctx.instance
            &&& post.ctx.debug_messenger == pre.ctx.debug_messenger
            &&& post.ctx.device == pre.ctx.device
            &&& post.ctx.frame.surface == pre.ctx.frame.surface
            &&& post.ctx.frame.graphics_queue == pre.ctx.frame.graphics_queue
            &&& post.ctx.frame.present_queue == pre.ctx.frame.present_queue
            &&& post.ctx.frame.views == pre.ctx.frame.views
            &&& post.ctx.frame.render_pass == pre.ctx.frame.render_pass
            &&& post.ctx.frame.pipeline_layout == pre.ctx.frame.pipeline_layout
            &&& post.ctx.frame.pipeline == pre.ctx.frame.pipeline
            &&& post.stage == (if images@.len() == 0 {
                Stage::RenderPass
            } else {
                Stage::Views
            })
            &&& post.config == pre.config
            &&& post.chosen == pre.chosen
            &&& post.indices == pre.indices
            &&& post.swap_plan == pre.swap_plan
            &&& out is Advanced
        },
    }
}

impl Bootstrap {
    /// The machine's invariant: at every stage, exactly the handles of the
    /// stages already passed are held, and nothing later exists yet.
    pub open spec fn wf(&self) -> bool {
        &&& self.ctx.views_wf()
        &&& self.config.wf()
        &&& match self.stage {
            Stage::LayerCheck => {
                &&& spec_context_is_empty(self.ctx)
                &&& self.config.validation
            },
            Stage::Instance => spec_context_is_empty(self.ctx),
            Stage::Messenger => {
                &&& self.config.validation
                &&& self.ctx.instance != 0
                &&& self.ctx.debug_messenger == 0
                &&& frame_untouched(self.ctx)
            },
            Stage::Surface => {
                &&& instance_level_held(*self)
                &&& frame_untouched(self.ctx)
            },
            Stage::PickDevice => {
                &&& instance_level_held(*self)
                &&& self.ctx.frame.surface != 0
                &&& frame_after_surface_untouched(self.ctx)
            },
            Stage::Device => {
                &&& instance_level_held(*self)
                &&& self.ctx.frame.surface != 0
                &&& frame_after_surface_untouched(self.ctx)
                &&& self.chosen is Some
                &&& self.indices is Some
            },
            Stage::QuerySupport => {
                &&& instance_level_held(*self)
                &&& self.ctx.frame.surface != 0
                &&& device_level_held(*self)
                &&& frame_after_device_untouched(self.ctx)
            },
            Stage::Swapchain => {
                &&& instance_level_held(*self)
                &&& self.ctx.frame.surface != 0
                &&& device_level_held(*self)
                &&& frame_after_device_untouched(self.ctx)
                &&& self.swap_plan is Some
            },
            Stage::Views => {
                &&& instance_level_held(*self)
                &&& self.ctx.frame.surface != 0
                &&& device_level_held(*self)
                &&& self.ctx.frame.swapchain != 0
                &&& self.ctx.frame.views@.len() < self.ctx.frame.images@.len()
                &&& frame_after_views_untouched(self.ctx)
                &&& plan_recorded(*self)
            },
            Stage::RenderPass => {
                &&& instance_level_held(*self)
                &&& self.ctx.frame.surface != 0
                &&& device_level_held(*self)
                &&& self.ctx.frame.swapchain != 0
                &&& plan_recorded(*self)
                &&& self.ctx.frame.views@.len() == self.ctx.frame.images@.len()
                &&& frame_after_views_untouched(self.ctx)
            },
            Stage::PipelineLayout => {
                &&& instance_level_held(*self)
                &&& self.ctx.frame.surface != 0
                &&& device_level_held(*self)
                &&& self.ctx.frame.swapchain != 0
                &&& plan_recorded(*self)
                &&& self.ctx.frame.views@.len() == self.ctx.frame.images@.len()
                &&& self.ctx.frame.render_pass != 0
                &&& self.ctx.frame.pipeline_layout == 0
                &&& self.ctx.frame.pipeline == 0
            },
            Stage::Pipeline => {
                &&& instance_level_held(*self)
                &&& self.ctx.frame.surface != 0
                &&& device_level_held(*self)
                &&& self.ctx.frame.swapchain != 0
                &&& plan_recorded(*self)
                &&& self.ctx.frame.views@.len() == self.ctx.frame.images@.len()
                &&& self.ctx.frame.render_pass != 0
                &&& self.ctx.frame.pipeline_layout != 0
                &&& self.ctx.frame.pipeline == 0
            },
            Stage::Complete => {
                &&& instance_level_held(*self)
                &&& self.ctx.frame.surface != 0
                &&& device_level_held(*self)
                &&& self.ctx.frame.swapchain != 0
                &&& plan_recorded(*self)
                &&& self.ctx.frame.views@.len() == self.ctx.frame.images@.len()
                &&& self.ctx.frame.render_pass != 0
                &&& self.ctx.frame.pipeline_layout != 0
                &&& self.ctx.frame.pipeline != 0
            },
            Stage::Aborted => true,
        }
    }

    /// Whether the machine still expects driver outcomes.
    pub open spec fn running(&self) -> bool {
        self.stage != Stage::Complete && self.stage != Stage::Aborted
    }

    /// Starts the machine: nothing is created, and the first request is
    /// the layer enumeration when validation is on, else instance
    /// creation.
    pub fn new(config: BootstrapConfig) -> (r: Bootstrap)
        requires
            config.wf(),
        ensures
            r.wf(),
            r.running(),
            r.config == config,
            spec_context_is_empty(r.ctx),
            r.stage == (if config.validation {
                Stage::LayerCheck
            } else {
                Stage::Instance
            }),
    {
        let stage = if config.validation {
            Stage::LayerCheck
        } else {
            Stage::Instance
        };
        Bootstrap {
            config,
            stage,
            ctx: GpuContext::empty(),
            chosen: None,
            indices: None,
            swap_plan: None,
        }
    }

    /// Stops the machine on an error: computes the unwind plan for exactly
    /// what was created, empties the context, and hands both back.
    fn halt(&mut self, e: BootstrapError) -> (r: StepOutcome)
        requires
            old(self).ctx.views_wf(),
            old(self).config.wf(),
        ensures
            (r matches StepOutcome::Halted(e2, unwind) && e2 == e && unwind@ == spec_teardown(
                old(self).ctx,
            )),
            final(self).stage == Stage::Aborted,
            spec_context_is_empty(final(self).ctx),
            final(self).config == old(self).config,
            final(self).wf(),
    {
        let unwind = teardown_plan(&self.ctx);
        self.ctx = GpuContext::empty();
        self.stage = Stage::Aborted;
        StepOutcome::Halted(e, unwind)
    }

    /// The error stage a failure right now would be charged to.
    pub fn stage_label(&self) -> (r: StageName)
        ensures
            r == spec_stage_label(self.stage),
    {
        match self.stage {
            Stage::LayerCheck => StageName::Instance,
            Stage::Instance => StageName::Instance,
            Stage::Messenger => StageName::DebugMessenger,
            Stage::Surface => StageName::Surface,
            Stage::PickDevice => StageName::DeviceSelection,
            Stage::Device => StageName::Device,
            Stage::QuerySupport => StageName::SwapchainQuery,
            Stage::Swapchain => StageName::Swapchain,
            Stage::Views => StageName::ImageView,
            Stage::RenderPass => StageName::RenderPass,
            Stage::PipelineLayout => StageName::PipelineLayout,
            Stage::Pipeline => StageName::Pipeline,
            Stage::Complete => StageName::Pipeline,
            Stage::Aborted => StageName::Instance,
        }
    }

    /// The creation call the driver shim should make now, with everything
    /// this library decides already decided: assembled name lists,
    /// de-duplicated queue requests, and the chosen swapchain, view,
    /// render-pass and pipeline parameters.
    pub fn next_request(&self) -> (r: DriverRequest)
        requires
            self.wf(),
            self.running(),
        ensures
            spec_request(*self, r),
    {
        match self.stage {
            Stage::LayerCheck => DriverRequest::EnumerateLayers,
            Stage::Instance => DriverRequest::CreateInstance {
                extensions: instance_extensions(
                    &self.config.platform_extensions,
                    self.config.validation,
                    self.config.portability,
                ),
                validation: self.config.validation,
            },
            Stage::Messenger => DriverRequest::CreateDebugMessenger,
            Stage::Surface => DriverRequest::CreateSurface,
            Stage::PickDevice => DriverRequest::EnumerateDevices,
            Stage::Device => {
                let device_index = match self.chosen {
                    Some(i) => i,
                    None => {
                        proof {
                            assert(false);
                        }
                        0
                    },
                };
                let qi = match self.indices {
                    Some(q) => q,
                    None => {
                        proof {
                            assert(false);
                        }
                        QueueFamilyIndices { graphics: 0, present: 0 }
                    },
                };
                DriverRequest::CreateDevice {
                    device_index,
                    queue_families: unique_queue_families(&qi),
                    extensions: device_extensions(self.config.portability),
                    layers: device_layers(self.config.validation),
                }
            },
            Stage::QuerySupport => {
                let device_index = match self.chosen {
                    Some(i) => i,
                    None => {
                        proof {
                            assert(false);
                        }
                        0
                    },
                };
                DriverRequest::QuerySwapchainSupport { device_index }
            },
            Stage::Swapchain => {
                let config = match &self.swap_plan {
                    Some(p) => duplicate_config(p),
                    None => {
                        proof {
                            assert(false);
                        }
                        SwapchainConfig {
                            min_image_count: 0,
                            format: SurfaceFormat { format: 0, color_space: 0 },
                            extent: Extent2D { width: 0, height: 0 },
                            present_mode: PresentMode::Fifo,
                            sharing: SharingMode::Exclusive,
                            family_indices: Vec::new(),
                            pre_transform: 0,
                        }
                    },
                };
                DriverRequest::CreateSwapchain { config }
            },
            Stage::Views => {
                let idx = self.ctx.frame.views.len();
                let image = self.ctx.frame.images[idx];
                DriverRequest::CreateImageView {
                    config: plan_image_view(image, self.ctx.frame.format.format),
                }
            },
            Stage::RenderPass => DriverRequest::CreateRenderPass {
                config: plan_render_pass(self.ctx.frame.format.format),
            },
            Stage::PipelineLayout => DriverRequest::CreatePipelineLayout,
            Stage::Pipeline => {
                let vert = self.config.vertex_shader.duplicate();
                let frag = self.config.fragment_shader.duplicate();
                DriverRequest::CreatePipeline {
                    config: plan_pipeline(vert, frag, self.ctx.frame.extent),
                }
            },
            Stage::Complete => {
                proof {
                    assert(false);
                }
                DriverRequest::EnumerateLayers
            },
            Stage::Aborted => {
                proof {
                    assert(false);
                }
                DriverRequest::EnumerateLayers
            },
        }
    }

    /// Feeds one driver outcome back into the machine.  A success advances
    /// to the next stage and records the created handle; a failure, a
    /// missing validation layer or an empty selection halts the chain,
    /// handing back the error and the unwind plan for exactly what was
    /// already created.
    pub fn step(&mut self, reply: DriverReply) -> (r: StepOutcome)
        requires
            old(self).wf(),
            old(self).running(),
            reply_fits(*old(self), reply),
        ensures
            final(self).wf(),
            spec_step(*old(self), reply, *final(self), r),
    {
        match reply {
            DriverReply::Failure(code) => {
                let label = self.stage_label();
                self.halt(BootstrapError::Driver(label, code))
            },
            DriverReply::LayerList(layers) => {
                let wanted = validation_layer_name();
                if name_list_has(&layers, &wanted) {
                    self.stage = Stage::Instance;
                    StepOutcome::Advanced
                } else {
                    self.halt(BootstrapError::MissingLayer(wanted))
                }
            },
            DriverReply::Handle(h) => {
                if self.stage == Stage::Instance {
                    self.ctx.instance = h;
                    self.stage = if self.config.validation {
                        Stage::Messenger
                    } else {
                        Stage::Surface
                    };
                    StepOutcome::Advanced
                } else if self.stage == Stage::Messenger {
                    self.ctx.debug_messenger = h;
                    self.stage = Stage::Surface;
                    StepOutcome::Advanced
                } else if self.stage == Stage::Surface {
                    self.ctx.frame.surface = h;
                    self.stage = Stage::PickDevice;
                    StepOutcome::Advanced
                } else if self.stage == Stage::Views {
                    self.ctx.frame.views.push(h);
                    if self.ctx.frame.views.len() == self.ctx.frame.images.len() {
                        self.stage = Stage::RenderPass;
                    }
                    StepOutcome::Advanced
                } else if self.stage == Stage::RenderPass {
                    self.ctx.frame.render_pass = h;
                    self.stage = Stage::PipelineLayout;
                    StepOutcome::Advanced
                } else if self.stage == Stage::PipelineLayout {
                    self.ctx.frame.pipeline_layout = h;
                    self.stage = Stage::Pipeline;
                    StepOutcome::Advanced
                } else if self.stage == Stage::Pipeline {
                    self.ctx.frame.pipeline = h;
                    self.stage = Stage::Complete;
                    StepOutcome::Finished
                } else {
                    proof {
                        assert(false);
                    }
                    StepOutcome::Advanced
                }
            },
            DriverReply::DeviceList(devs) => {
                let required = required_device_extensions();
                match select_device(&devs, &required) {
                    Ok(i) => {
                        match find_queue_families(&devs[i]) {
                            Some(qi) => {
                                self.chosen = Some(i);
                                self.indices = Some(qi);
                                self.stage = Stage::Device;
                                proof {
                                    assert(spec_first_fit(
                                        devs@,
                                        spec_required_device_extensions(),
                                        i as int,
                                    ));
                                }
                                StepOutcome::Advanced
                            },
                            None => {
                                proof {
                                    assert(false);
                                }
                                StepOutcome::Advanced
                            },
                        }
                    },
                    Err(_) => {
                        proof {
                            assert(!exists|i: int|
                                spec_first_fit(devs@, spec_required_device_extensions(), i)) by {
                                if exists|i: int|
                                    spec_first_fit(devs@, spec_required_device_extensions(), i) {
                                    let i = choose|i: int|
                                        spec_first_fit(
                                            devs@,
                                            spec_required_device_extensions(),
                                            i,
                                        );
                                    assert(!spec_suitable(
                                        devs@[i],
                                        spec_required_device_extensions(),
                                    ));
                                    assert(false);
                                }
                            }
                        }
                        self.halt(BootstrapError::NoSuitableDevice)
                    },
                }
            },
            DriverReply::DeviceCreated { device, graphics_queue, present_queue } => {
                if self.stage == Stage::Device {
                    self.ctx.device = device;
                    self.ctx.frame.graphics_queue = graphics_queue;
                    self.ctx.frame.present_queue = present_queue;
                    self.stage = Stage::QuerySupport;
                    StepOutcome::Advanced
                } else {
                    proof {
                        assert(false);
                    }
                    StepOutcome::Advanced
                }
            },
            DriverReply::SupportInfo { support, framebuffer } => {
                let qi = match self.indices {
                    Some(q) => q,
                    None => {
                        proof {
                            assert(false);
                        }
                        QueueFamilyIndices { graphics: 0, present: 0 }
                    },
                };
                let plan = plan_swapchain(&support, framebuffer, &qi);
                self.swap_plan = Some(plan);
                self.stage = Stage::Swapchain;
                StepOutcome::Advanced
            },
            DriverReply::SwapchainCreated { swapchain, images } => {
                let fmt;
                let ext;
                match &self.swap_plan {
                    Some(p) => {
                        fmt = p.format;
                        ext = p.extent;
                    },
                    None => {
                        proof {
                            assert(false);
                        }
                        fmt = SurfaceFormat { format: 0, color_space: 0 };
                        ext = Extent2D { width: 0, height: 0 };
                    },
                }
                self.ctx.frame.format = fmt;
                self.ctx.frame.extent = ext;
                self.ctx.frame.swapchain = swapchain;
                let no_images = images.len() == 0;
                self.ctx.frame.images = images;
                self.stage = if no_images {
                    Stage::RenderPass
                } else {
                    Stage::Views
                };
                StepOutcome::Advanced
            },
        }
    }

    /// Yields the completed context.  Everything of the chain exists: all
    /// handles are live, the messenger exactly when validation is on, and
    /// there are as many views as swapchain images.
    pub fn finish(self) -> (r: GpuContext)
        requires
            self.wf(),
            self.stage == Stage::Complete,
        ensures
            r == self.ctx,
            r.instance != 0,
            (r.debug_messenger != 0 <==> self.config.validation),
            r.device != 0,
            r.frame.surface != 0,
            r.frame.graphics_queue != 0,
            r.frame.present_queue != 0,
            r.frame.swapchain != 0,
            r.frame.views@.len() == r.frame.images@.len(),
            r.frame.render_pass != 0,
            r.frame.pipeline_layout != 0,
            r.frame.pipeline != 0,
            r.views_wf(),
    {
        self.ctx
    }
}

} // verus!
