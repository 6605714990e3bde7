//! Pipeline assembly planning: the render pass compatible with the chosen
//! swap format, and the fixed-function + shader-stage graphics pipeline
//! configuration.  Every field below is fixed by this design except the
//! swap format, the swap extent and the two bytecode blobs; the plans pin
//! them all, so the creation calls are pure data handed to the driver.

use vstd::prelude::*;
use vstd::string::StringExecFns;

use crate::shader::{ShaderArtifact, ShaderStage};
use crate::types::Extent2D;

verus! {

/// What happens to an attachment's contents when the pass begins.
#[derive(Clone, Copy, Debug, PartialEq, Eq, Structural)]
pub enum LoadOp {
    Clear,
    Keep,
    DontCare,
}

/// What happens to an attachment's contents when the pass ends.
#[derive(Clone, Copy, Debug, PartialEq, Eq, Structural)]
pub enum StoreOp {
    Store,
    DontCare,
}

/// The image layouts the one color attachment moves between.
#[derive(Clone, Copy, Debug, PartialEq, Eq, Structural)]
pub enum ImageLayout {
    Undefined,
    ColorAttachmentOptimal,
    PresentSource,
}

/// The single color attachment of the render pass.
#[derive(Clone, Copy, Debug, PartialEq, Eq, Structural)]
pub struct AttachmentDesc {
    pub format: u32,
    pub sample_count: u32,
    pub load_op: LoadOp,
    pub store_op: StoreOp,
    pub stencil_load_op: LoadOp,
    pub stencil_store_op: StoreOp,
    pub layout_before: ImageLayout,
    pub layout_after: ImageLayout,
}

/// The render pass: one color attachment and one subpass referring to it.
#[derive(Clone, Copy, Debug, PartialEq, Eq, Structural)]
pub struct RenderPassConfig {
    pub attachment: AttachmentDesc,
    /// Index of the attachment the single subpass writes.
    pub color_attachment_index: u32,
    /// Layout the subpass keeps the attachment in while rendering.
    pub color_attachment_layout: ImageLayout,
}

/// Whether `r` is the one render pass this design builds over a swap
/// format: load-clear, store-keep, no stencil work, entered undefined and
/// left ready to present, single-sampled, with one subpass writing
/// attachment zero in color-optimal layout.
pub open spec fn spec_render_pass_config(format: u32, r: RenderPassConfig) -> bool {
    r == (RenderPassConfig {
        attachment: AttachmentDesc {
            format,
            sample_count: 1,
            load_op: LoadOp::Clear,
            store_op: StoreOp::Store,
            stencil_load_op: LoadOp::DontCare,
            stencil_store_op: StoreOp::DontCare,
            layout_before: ImageLayout::Undefined,
            layout_after: ImageLayout::PresentSource,
        },
        color_attachment_index: 0,
        color_attachment_layout: ImageLayout::ColorAttachmentOptimal,
    })
}

/// Plans the render pass for the chosen swap format.
pub fn plan_render_pass(format: u32) -> (r: RenderPassConfig)
    ensures
        spec_render_pass_config(format, r),
{
    RenderPassConfig {
        attachment: AttachmentDesc {
            format,
            sample_count: 1,
            load_op: LoadOp::Clear,
            store_op: StoreOp::Store,
            stencil_load_op: LoadOp::DontCare,
            stencil_store_op: StoreOp::DontCare,
            layout_before: ImageLayout::Undefined,
            layout_after: ImageLayout::PresentSource,
        },
        color_attachment_index: 0,
        color_attachment_layout: ImageLayout::ColorAttachmentOptimal,
    }
}

/// How primitives are assembled.
#[derive(Clone, Copy, Debug, PartialEq, Eq, Structural)]
pub enum Topology {
    PointList,
    LineList,
    TriangleList,
}

/// How polygons are rasterized.
#[derive(Clone, Copy, Debug, PartialEq, Eq, Structural)]
pub enum PolygonMode {
    Fill,
    Line,
    Point,
}

/// Which faces are culled.
#[derive(Clone, Copy, Debug, PartialEq, Eq, Structural)]
pub enum CullMode {
    Disabled,
    Front,
    Back,
}

/// Which winding counts as front-facing.
#[derive(Clone, Copy, Debug, PartialEq, Eq, Structural)]
pub enum FrontFace {
    Clockwise,
    CounterClockwise,
}

/// A blend factor of the color-blend attachment.
#[derive(Clone, Copy, Debug, PartialEq, Eq, Structural)]
pub enum BlendFactor {
    Zero,
    One,
    SrcAlpha,
    OneMinusSrcAlpha,
}

/// The blending of the one color-blend attachment.
#[derive(Clone, Copy, Debug, PartialEq, Eq, Structural)]
pub struct BlendState {
    pub enabled: bool,
    pub src_color: BlendFactor,
    pub dst_color: BlendFactor,
    pub src_alpha: BlendFactor,
    pub dst_alpha: BlendFactor,
    /// Both blend operations are additive; the blend constants stay
    /// zeroed and unused.
    pub additive_ops: bool,
}

/// The graphics pipeline: two shader stages and the fixed-function state.
#[derive(Debug, Clone)]
pub struct PipelineConfig {
    pub vertex_code: Vec<u8>,
    pub fragment_code: Vec<u8>,
    /// Entry point of both stages.
    pub entry_point: String,
    /// No vertex buffers are bound; geometry is generated in the vertex
    /// stage itself.
    pub vertex_binding_count: u32,
    pub vertex_attribute_count: u32,
    pub topology: Topology,
    pub primitive_restart: bool,
    /// The single viewport and scissor both cover the full swap extent.
    pub viewport: Extent2D,
    pub scissor: Extent2D,
    pub polygon_mode: PolygonMode,
    pub cull_mode: CullMode,
    pub front_face: FrontFace,
    pub sample_count: u32,
    pub blend: BlendState,
    /// The layout binds nothing yet.
    pub descriptor_set_count: u32,
    pub push_constant_count: u32,
}

/// Whether `r` is the one pipeline this design builds: the two bytecode
/// blobs entered at `main`, empty vertex input, triangle list without
/// primitive restart, full-extent viewport and scissor, filled polygons
/// with back-face culling and clockwise front faces, single-sampled, with
/// standard alpha blending, and a layout that binds nothing.
pub open spec fn spec_pipeline_config(
    vertex_code: Seq<u8>,
    fragment_code: Seq<u8>,
    extent: Extent2D,
    r: PipelineConfig,
) -> bool {
    &&& r.vertex_code@ == vertex_code
    &&& r.fragment_code@ == fragment_code
    &&& r.entry_point@ == "main"@
    &&& r.vertex_binding_count == 0
    &&& r.vertex_attribute_count == 0
    &&& r.topology == Topology::TriangleList
    &&& !r.primitive_restart
    &&& r.viewport == extent
    &&& r.scissor == extent
    &&& r.polygon_mode == PolygonMode::Fill
    &&& r.cull_mode == CullMode::Back
    &&& r.front_face == FrontFace::Clockwise
    &&& r.sample_count == 1
    &&& r.blend == (BlendState {
        enabled: true,
        src_color: BlendFactor::SrcAlpha,
        dst_color: BlendFactor::OneMinusSrcAlpha,
        src_alpha: BlendFactor::One,
        dst_alpha: BlendFactor::Zero,
        additive_ops: true,
    })
    &&& r.descriptor_set_count == 0
    &&& r.push_constant_count == 0
}

/// Plans the graphics pipeline from the two compiled shader artifacts and
/// the swap extent.  The artifacts must be the vertex and fragment stages;
/// their bytecode is consumed here, and the modules the driver makes of
/// them are destroyed again as soon as the pipeline exists — they have no
/// runtime role.
pub fn plan_pipeline(vertex: ShaderArtifact, fragment: ShaderArtifact, extent: Extent2D) -> (r:
    PipelineConfig)
    requires
        vertex.stage == ShaderStage::Vertex,
        fragment.stage == ShaderStage::Fragment,
    ensures
        spec_pipeline_config(vertex.code@, fragment.code@, extent, r),
{
    PipelineConfig {
        vertex_code: vertex.code,
        fragment_code: fragment.code,
        entry_point: String::from_str("main"),
        vertex_binding_count: 0,
        vertex_attribute_count: 0,
        topology: Topology::TriangleList,
        primitive_restart: false,
        viewport: extent,
        scissor: extent,
        polygon_mode: PolygonMode::Fill,
        cull_mode: CullMode::Back,
        front_face: FrontFace::Clockwise,
        sample_count: 1,
        blend: BlendState {
            enabled: true,
            src_color: BlendFactor::SrcAlpha,
            dst_color: BlendFactor::OneMinusSrcAlpha,
            src_alpha: BlendFactor::One,
            dst_alpha: BlendFactor::Zero,
            additive_ops: true,
        },
        descriptor_set_count: 0,
        push_constant_count: 0,
    }
}

} // verus!
