//! The context record and the teardown sequencer.  Handles are opaque
//! driver values; a handle that was never created is the null sentinel, so
//! teardown can skip it safely.  Teardown destroys exactly the created
//! resources, in exact reverse creation order, and never names a null
//! handle; it is not part of the fallible path.

use vstd::prelude::*;

use crate::types::{Extent2D, SurfaceFormat};

verus! {

/// The null sentinel of a handle that was never created.
pub const NULL_HANDLE: u64 = 0;

/// Per-frame presentation state: everything between the surface and the
/// pipeline.  The swapchain owns its images, so only their views are
/// destroyed individually.
#[derive(Debug, Clone)]
pub struct FrameResources {
    pub surface: u64,
    pub graphics_queue: u64,
    pub present_queue: u64,
    pub swapchain: u64,
    pub format: SurfaceFormat,
    pub extent: Extent2D,
    pub images: Vec<u64>,
    pub views: Vec<u64>,
    pub render_pass: u64,
    pub pipeline_layout: u64,
    pub pipeline: u64,
}

/// The whole rendering context: created once, moved but never copied,
/// destroyed once in reverse creation order.
#[derive(Debug, Clone)]
pub struct GpuContext {
    pub instance: u64,
    pub debug_messenger: u64,
    pub device: u64,
    pub frame: FrameResources,
}

impl GpuContext {
    /// A context with nothing created yet: every handle is the null
    /// sentinel.
    pub fn empty() -> (r: GpuContext)
        ensures
            spec_context_is_empty(r),
    {
        let frame = FrameResources {
            surface: NULL_HANDLE,
            graphics_queue: NULL_HANDLE,
            present_queue: NULL_HANDLE,
            swapchain: NULL_HANDLE,
            format: SurfaceFormat { format: 0, color_space: 0 },
            extent: Extent2D { width: 0, height: 0 },
            images: Vec::new(),
            views: Vec::new(),
            render_pass: NULL_HANDLE,
            pipeline_layout: NULL_HANDLE,
            pipeline: NULL_HANDLE,
        };
        let r = GpuContext {
            instance: NULL_HANDLE,
            debug_messenger: NULL_HANDLE,
            device: NULL_HANDLE,
            frame,
        };
        proof {
            assert(r.frame.images@ =~= Seq::<u64>::empty());
            assert(r.frame.views@ =~= Seq::<u64>::empty());
        }
        r
    }

    /// Every view handle the context holds was actually created.
    pub open spec fn views_wf(&self) -> bool {
        forall|i: int| 0 <= i < self.frame.views@.len() ==> self.frame.views@[i] != 0
    }
}

/// Nothing of the context is created yet: every handle is the null
/// sentinel and no image or view is recorded.
pub open spec fn spec_context_is_empty(ctx: GpuContext) -> bool {
    &&& ctx.instance == 0
    &&& ctx.debug_messenger == 0
    &&& ctx.device == 0
    &&& ctx.frame.surface == 0
    &&& ctx.frame.graphics_queue == 0
    &&& ctx.frame.present_queue == 0
    &&& ctx.frame.swapchain == 0
    &&& ctx.frame.images@ == Seq::<u64>::empty()
    &&& ctx.frame.views@ == Seq::<u64>::empty()
    &&& ctx.frame.render_pass == 0
    &&& ctx.frame.pipeline_layout == 0
    &&& ctx.frame.pipeline == 0
}

/// The destroyable resource kinds, named as the driver names them.
#[derive(Clone, Copy, Debug, PartialEq, Eq, Structural)]
pub enum Resource {
    Pipeline,
    PipelineLayout,
    RenderPass,
    ImageView,
    Swapchain,
    Device,
    Surface,
    DebugMessenger,
    Instance,
}

/// One destroy call of the teardown plan: which resource kind, and which
/// handle.
#[derive(Clone, Copy, Debug, PartialEq, Eq, Structural)]
pub struct DestroyStep {
    pub resource: Resource,
    pub handle: u64,
}

/// The destroy call for `handle`, or nothing when it was never created.
pub open spec fn destroy_if(resource: Resource, handle: u64) -> Seq<DestroyStep> {
    if handle != 0 {
        seq![DestroyStep { resource, handle }]
    } else {
        Seq::empty()
    }
}

/// The destroy calls of the image views, last view first.
pub open spec fn view_steps(views: Seq<u64>) -> Seq<DestroyStep> {
    Seq::new(
        views.len(),
        |i: int| DestroyStep { resource: Resource::ImageView, handle: views[views.len() - 1 - i] },
    )
}

/// The whole teardown plan of a context: every created resource, in exact
/// reverse creation order, and nothing else.
pub open spec fn spec_teardown(ctx: GpuContext) -> Seq<DestroyStep> {
    destroy_if(Resource::Pipeline, ctx.frame.pipeline) + destroy_if(
        Resource::PipelineLayout,
        ctx.frame.pipeline_layout,
    ) + destroy_if(Resource::RenderPass, ctx.frame.render_pass) + view_steps(ctx.frame.views@)
        + destroy_if(Resource::Swapchain, ctx.frame.swapchain) + destroy_if(
        Resource::Device,
        ctx.device,
    ) + destroy_if(Resource::Surface, ctx.frame.surface) + destroy_if(
        Resource::DebugMessenger,
        ctx.debug_messenger,
    ) + destroy_if(Resource::Instance, ctx.instance)
}

/// Appends the destroy call for one singleton resource, skipping the null
/// sentinel.
fn push_destroy(plan: &mut Vec<DestroyStep>, resource: Resource, handle: u64)
    ensures
        final(plan)@ == old(plan)@ + destroy_if(resource, handle),
{
    if handle != 0 {
        plan.push(DestroyStep { resource, handle });
        proof {
            assert(plan@ =~= old(plan)@ + destroy_if(resource, handle));
        }
    } else {
        proof {
            assert(plan@ =~= old(plan)@ + destroy_if(resource, handle));
        }
    }
}

/// Appends the destroy calls of the image views, last view first.
fn push_view_destroys(plan: &mut Vec<DestroyStep>, views: &Vec<u64>)
    ensures
        final(plan)@ == old(plan)@ + view_steps(views@),
{
    let vlen = views.len();
    let mut i: usize = 0;
    proof {
        assert(plan@ =~= old(plan)@ + view_steps(views@).subrange(0, 0));
    }
    while i < vlen
        invariant
            i <= vlen,
            vlen == views@.len(),
            plan@ == old(plan)@ + view_steps(views@).subrange(0, i as int),
        decreases vlen - i,
    {
        let v = views[vlen - 1 - i];
        plan.push(DestroyStep { resource: Resource::ImageView, handle: v });
        i += 1;
        proof {
            assert(plan@ =~= old(plan)@ + view_steps(views@).subrange(0, i as int));
        }
    }
    proof {
        assert(view_steps(views@).subrange(0, vlen as int) =~= view_steps(views@));
    }
}

/// Computes the teardown plan of a context: the destroy calls to issue, in
/// order.  Works on any partially built context, so the same plan unwinds
/// a failed bootstrap.
pub fn teardown_plan(ctx: &GpuContext) -> (r: Vec<DestroyStep>)
    requires
        ctx.views_wf(),
    ensures
        r@ == spec_teardown(*ctx),
{
    let mut plan: Vec<DestroyStep> = Vec::new();
    let ghost start = plan@;
    push_destroy(&mut plan, Resource::Pipeline, ctx.frame.pipeline);
    proof {
        assert(start + destroy_if(Resource::Pipeline, ctx.frame.pipeline) =~= destroy_if(
            Resource::Pipeline,
            ctx.frame.pipeline,
        ));
    }
    push_destroy(&mut plan, Resource::PipelineLayout, ctx.frame.pipeline_layout);
    push_destroy(&mut plan, Resource::RenderPass, ctx.frame.render_pass);
    push_view_destroys(&mut plan, &ctx.frame.views);
    push_destroy(&mut plan, Resource::Swapchain, ctx.frame.swapchain);
    push_destroy(&mut plan, Resource::Device, ctx.device);
    push_destroy(&mut plan, Resource::Surface, ctx.frame.surface);
    push_destroy(&mut plan, Resource::DebugMessenger, ctx.debug_messenger);
    push_destroy(&mut plan, Resource::Instance, ctx.instance);
    plan
}

/// Every step of a plan names a created handle.
pub open spec fn all_nonnull(s: Seq<DestroyStep>) -> bool {
    forall|i: int| 0 <= i < s.len() ==> (#[trigger] s[i]).handle != 0
}

proof fn lemma_all_nonnull_concat(a: Seq<DestroyStep>, b: Seq<DestroyStep>)
    requires
        all_nonnull(a),
        all_nonnull(b),
    ensures
        all_nonnull(a + b),
{
    assert forall|i: int| 0 <= i < (a + b).len() implies ((a + b)[i]).handle != 0 by {
        if i < a.len() {
            assert((a + b)[i] == a[i]);
        } else {
            assert((a + b)[i] == b[i - a.len()]);
        }
    }
}

/// No destroy call of any teardown plan targets a never-created handle:
/// the null sentinel is always skipped.
pub proof fn lemma_teardown_no_null(ctx: GpuContext)
    requires
        ctx.views_wf(),
    ensures
        all_nonnull(spec_teardown(ctx)),
{
    let s1 = destroy_if(Resource::Pipeline, ctx.frame.pipeline);
    let s2 = destroy_if(Resource::PipelineLayout, ctx.frame.pipeline_layout);
    let s3 = destroy_if(Resource::RenderPass, ctx.frame.render_pass);
    let sv = view_steps(ctx.frame.views@);
    let s4 = destroy_if(Resource::Swapchain, ctx.frame.swapchain);
    let s5 = destroy_if(Resource::Device, ctx.device);
    let s6 = destroy_if(Resource::Surface, ctx.frame.surface);
    let s7 = destroy_if(Resource::DebugMessenger, ctx.debug_messenger);
    let s8 = destroy_if(Resource::Instance, ctx.instance);
    lemma_all_nonnull_concat(s1, s2);
    lemma_all_nonnull_concat(s1 + s2, s3);
    lemma_all_nonnull_concat(s1 + s2 + s3, sv);
    lemma_all_nonnull_concat(s1 + s2 + s3 + sv, s4);
    lemma_all_nonnull_concat(s1 + s2 + s3 + sv + s4, s5);
    lemma_all_nonnull_concat(s1 + s2 + s3 + sv + s4 + s5, s6);
    lemma_all_nonnull_concat(s1 + s2 + s3 + sv + s4 + s5 + s6, s7);
    lemma_all_nonnull_concat(s1 + s2 + s3 + sv + s4 + s5 + s6 + s7, s8);
}

/// Where a resource kind stands in the creation order; teardown walks
/// these ranks downward.
pub open spec fn creation_rank(r: Resource) -> int {
    match r {
        Resource::Instance => 0,
        Resource::DebugMessenger => 1,
        Resource::Surface => 2,
        Resource::Device => 3,
        Resource::Swapchain => 4,
        Resource::ImageView => 5,
        Resource::RenderPass => 6,
        Resource::PipelineLayout => 7,
        Resource::Pipeline => 8,
    }
}

/// The plan never destroys an earlier-created kind before a later-created
/// one.
pub open spec fn reverse_ordered(s: Seq<DestroyStep>) -> bool {
    forall|i: int, j: int|
        0 <= i < j < s.len() ==> creation_rank((#[trigger] s[i]).resource) >= creation_rank(
            (#[trigger] s[j]).resource,
        )
}

/// Every element of a plan has at least this creation rank.
pub open spec fn all_rank_geq(s: Seq<DestroyStep>, k: int) -> bool {
    forall|i: int| 0 <= i < s.len() ==> creation_rank((#[trigger] s[i]).resource) >= k
}

proof fn lemma_reverse_ordered_append(
    acc: Seq<DestroyStep>,
    seg: Seq<DestroyStep>,
    ka: int,
    ks: int,
)
    requires
        reverse_ordered(acc),
        all_rank_geq(acc, ka),
        ks <= ka,
        forall|i: int| 0 <= i < seg.len() ==> creation_rank((#[trigger] seg[i]).resource) == ks,
    ensures
        reverse_ordered(acc + seg),
        all_rank_geq(acc + seg, ks),
{
    assert forall|i: int, j: int| 0 <= i < j < (acc + seg).len() implies creation_rank(
        ((acc + seg)[i]).resource,
    ) >= creation_rank(((acc + seg)[j]).resource) by {
        if i < acc.len() {
            assert((acc + seg)[i] == acc[i]);
        } else {
            assert((acc + seg)[i] == seg[i - acc.len()]);
        }
        if j < acc.len() {
            assert((acc + seg)[j] == acc[j]);
        } else {
            assert((acc + seg)[j] == seg[j - acc.len()]);
        }
    }
    assert forall|i: int| 0 <= i < (acc + seg).len() implies creation_rank(
        ((acc + seg)[i]).resource,
    ) >= ks by {
        if i < acc.len() {
            assert((acc + seg)[i] == acc[i]);
        } else {
            assert((acc + seg)[i] == seg[i - acc.len()]);
        }
    }
}

/// The teardown plan of any context — complete or abandoned mid-bootstrap —
/// destroys in exact reverse creation order: the pipeline before its
/// layout, the layout before the render pass, the views (last first)
/// before the swapchain, the device before the surface, the messenger
/// before the instance.
pub proof fn lemma_teardown_reverse_order(ctx: GpuContext)
    ensures
        reverse_ordered(spec_teardown(ctx)),
{
    let s1 = destroy_if(Resource::Pipeline, ctx.frame.pipeline);
    let s2 = destroy_if(Resource::PipelineLayout, ctx.frame.pipeline_layout);
    let s3 = destroy_if(Resource::RenderPass, ctx.frame.render_pass);
    let sv = view_steps(ctx.frame.views@);
    let s4 = destroy_if(Resource::Swapchain, ctx.frame.swapchain);
    let s5 = destroy_if(Resource::Device, ctx.device);
    let s6 = destroy_if(Resource::Surface, ctx.frame.surface);
    let s7 = destroy_if(Resource::DebugMessenger, ctx.debug_messenger);
    let s8 = destroy_if(Resource::Instance, ctx.instance);
    lemma_reverse_ordered_append(s1, s2, 8, 7);
    lemma_reverse_ordered_append(s1 + s2, s3, 7, 6);
    lemma_reverse_ordered_append(s1 + s2 + s3, sv, 6, 5);
    lemma_reverse_ordered_append(s1 + s2 + s3 + sv, s4, 5, 4);
    lemma_reverse_ordered_append(s1 + s2 + s3 + sv + s4, s5, 4, 3);
    lemma_reverse_ordered_append(s1 + s2 + s3 + sv + s4 + s5, s6, 3, 2);
    lemma_reverse_ordered_append(s1 + s2 + s3 + sv + s4 + s5 + s6, s7, 2, 1);
    lemma_reverse_ordered_append(s1 + s2 + s3 + sv + s4 + s5 + s6 + s7, s8, 1, 0);
}

proof fn lemma_contains_concat_left(a: Seq<DestroyStep>, b: Seq<DestroyStep>, x: DestroyStep)
    requires
        a.contains(x),
    ensures
        (a + b).contains(x),
{
    let i = choose|i: int| 0 <= i < a.len() && a[i] == x;
    assert((a + b)[i] == x);
}

proof fn lemma_contains_concat_right(a: Seq<DestroyStep>, b: Seq<DestroyStep>, x: DestroyStep)
    requires
        b.contains(x),
    ensures
        (a + b).contains(x),
{
    let i = choose|i: int| 0 <= i < b.len() && b[i] == x;
    assert((a + b)[a.len() + i] == x);
}

/// The teardown plan destroys exactly what was created: each created
/// singleton resource appears (with its own handle), each created view
/// appears, and — with `lemma_teardown_no_null` — nothing never-created
/// appears.
pub proof fn lemma_teardown_covers(ctx: GpuContext)
    ensures
        ctx.frame.pipeline != 0 ==> spec_teardown(ctx).contains(
            DestroyStep { resource: Resource::Pipeline, handle: ctx.frame.pipeline },
        ),
        ctx.frame.pipeline_layout != 0 ==> spec_teardown(ctx).contains(
            DestroyStep { resource: Resource::PipelineLayout, handle: ctx.frame.pipeline_layout },
        ),
        ctx.frame.render_pass != 0 ==> spec_teardown(ctx).contains(
            DestroyStep { resource: Resource::RenderPass, handle: ctx.frame.render_pass },
        ),
        forall|i: int|
            0 <= i < ctx.frame.views@.len() ==> spec_teardown(ctx).contains(
                DestroyStep { resource: Resource::ImageView, handle: ctx.frame.views@[i] },
            ),
        ctx.frame.swapchain != 0 ==> spec_teardown(ctx).contains(
            DestroyStep { resource: Resource::Swapchain, handle: ctx.frame.swapchain },
        ),
        ctx.device != 0 ==> spec_teardown(ctx).contains(
            DestroyStep { resource: Resource::Device, handle: ctx.device },
        ),
        ctx.frame.surface != 0 ==> spec_teardown(ctx).contains(
            DestroyStep { resource: Resource::Surface, handle: ctx.frame.surface },
        ),
        ctx.debug_messenger != 0 ==> spec_teardown(ctx).contains(
            DestroyStep { resource: Resource::DebugMessenger, handle: ctx.debug_messenger },
        ),
        ctx.instance != 0 ==> spec_teardown(ctx).contains(
            DestroyStep { resource: Resource::Instance, handle: ctx.instance },
        ),
{
    let s1 = destroy_if(Resource::Pipeline, ctx.frame.pipeline);
    let s2 = destroy_if(Resource::PipelineLayout, ctx.frame.pipeline_layout);
    let s3 = destroy_if(Resource::RenderPass, ctx.frame.render_pass);
    let sv = view_steps(ctx.frame.views@);
    let s4 = destroy_if(Resource::Swapchain, ctx.frame.swapchain);
    let s5 = destroy_if(Resource::Device, ctx.device);
    let s6 = destroy_if(Resource::Surface, ctx.frame.surface);
    let s7 = destroy_if(Resource::DebugMessenger, ctx.debug_messenger);
    let s8 = destroy_if(Resource::Instance, ctx.instance);
    let whole = spec_teardown(ctx);
    assert(whole == s1 + s2 + s3 + sv + s4 + s5 + s6 + s7 + s8);
    if ctx.frame.pipeline != 0 {
        let x = DestroyStep { resource: Resource::Pipeline, handle: ctx.frame.pipeline };
        assert(s1[0] == x);
        lemma_contains_concat_left(s1, s2, x);
        lemma_contains_concat_left(s1 + s2, s3, x);
        lemma_contains_concat_left(s1 + s2 + s3, sv, x);
        lemma_contains_concat_left(s1 + s2 + s3 + sv, s4, x);
        lemma_contains_concat_left(s1 + s2 + s3 + sv + s4, s5, x);
        lemma_contains_concat_left(s1 + s2 + s3 + sv + s4 + s5, s6, x);
        lemma_contains_concat_left(s1 + s2 + s3 + sv + s4 + s5 + s6, s7, x);
        lemma_contains_concat_left(s1 + s2 + s3 + sv + s4 + s5 + s6 + s7, s8, x);
    }
    if ctx.frame.pipeline_layout != 0 {
        let x = DestroyStep {
            resource: Resource::PipelineLayout,
            handle: ctx.frame.pipeline_layout,
        };
        assert(s2[0] == x);
        lemma_contains_concat_right(s1, s2, x);
        lemma_contains_concat_left(s1 + s2, s3, x);
        lemma_contains_concat_left(s1 + s2 + s3, sv, x);
        lemma_contains_concat_left(s1 + s2 + s3 + sv, s4, x);
        lemma_contains_concat_left(s1 + s2 + s3 + sv + s4, s5, x);
        lemma_contains_concat_left(s1 + s2 + s3 + sv + s4 + s5, s6, x);
        lemma_contains_concat_left(s1 + s2 + s3 + sv + s4 + s5 + s6, s7, x);
        lemma_contains_concat_left(s1 + s2 + s3 + sv + s4 + s5 + s6 + s7, s8, x);
    }
    if ctx.frame.render_pass != 0 {
        let x = DestroyStep { resource: Resource::RenderPass, handle: ctx.frame.render_pass };
        assert(s3[0] == x);
        lemma_contains_concat_right(s1 + s2, s3, x);
        lemma_contains_concat_left(s1 + s2 + s3, sv, x);
        lemma_contains_concat_left(s1 + s2 + s3 + sv, s4, x);
        lemma_contains_concat_left(s1 + s2 + s3 + sv + s4, s5, x);
        lemma_contains_concat_left(s1 + s2 + s3 + sv + s4 + s5, s6, x);
        lemma_contains_concat_left(s1 + s2 + s3 + sv + s4 + s5 + s6, s7, x);
        lemma_contains_concat_left(s1 + s2 + s3 + sv + s4 + s5 + s6 + s7, s8, x);
    }
    assert forall|i: int| 0 <= i < ctx.frame.views@.len() implies whole.contains(
        DestroyStep { resource: Resource::ImageView, handle: ctx.frame.views@[i] },
    ) by {
        let x = DestroyStep { resource: Resource::ImageView, handle: ctx.frame.views@[i] };
        let vl = ctx.frame.views@.len() as int;
        assert(sv[vl - 1 - i] == x);
        assert(sv.contains(x));
        lemma_contains_concat_right(s1 + s2 + s3, sv, x);
        lemma_contains_concat_left(s1 + s2 + s3 + sv, s4, x);
        lemma_contains_concat_left(s1 + s2 + s3 + sv + s4, s5, x);
        lemma_contains_concat_left(s1 + s2 + s3 + sv + s4 + s5, s6, x);
        lemma_contains_concat_left(s1 + s2 + s3 + sv + s4 + s5 + s6, s7, x);
        lemma_contains_concat_left(s1 + s2 + s3 + sv + s4 + s5 + s6 + s7, s8, x);
    }
    if ctx.frame.swapchain != 0 {
        let x = DestroyStep { resource: Resource::Swapchain, handle: ctx.frame.swapchain };
        assert(s4[0] == x);
        lemma_contains_concat_right(s1 + s2 + s3 + sv, s4, x);
        lemma_contains_concat_left(s1 + s2 + s3 + sv + s4, s5, x);
        lemma_contains_concat_left(s1 + s2 + s3 + sv + s4 + s5, s6, x);
        lemma_contains_concat_left(s1 + s2 + s3 + sv + s4 + s5 + s6, s7, x);
        lemma_contains_concat_left(s1 + s2 + s3 + sv + s4 + s5 + s6 + s7, s8, x);
    }
    if ctx.device != 0 {
        let x = DestroyStep { resource: Resource::Device, handle: ctx.device };
        assert(s5[0] == x);
        lemma_contains_concat_right(s1 + s2 + s3 + sv + s4, s5, x);
        lemma_contains_concat_left(s1 + s2 + s3 + sv + s4 + s5, s6, x);
        lemma_contains_concat_left(s1 + s2 + s3 + sv + s4 + s5 + s6, s7, x);
        lemma_contains_concat_left(s1 + s2 + s3 + sv + s4 + s5 + s6 + s7, s8, x);
    }
    if ctx.frame.surface != 0 {
        let x = DestroyStep { resource: Resource::Surface, handle: ctx.frame.surface };
        assert(s6[0] == x);
        lemma_contains_concat_right(s1 + s2 + s3 + sv + s4 + s5, s6, x);
        lemma_contains_concat_left(s1 + s2 + s3 + sv + s4 + s5 + s6, s7, x);
        lemma_contains_concat_left(s1 + s2 + s3 + sv + s4 + s5 + s6 + s7, s8, x);
    }
    if ctx.debug_messenger != 0 {
        let x = DestroyStep { resource: Resource::DebugMessenger, handle: ctx.debug_messenger };
        assert(s7[0] == x);
        lemma_contains_concat_right(s1 + s2 + s3 + sv + s4 + s5 + s6, s7, x);
        lemma_contains_concat_left(s1 + s2 + s3 + sv + s4 + s5 + s6 + s7, s8, x);
    }
    if ctx.instance != 0 {
        let x = DestroyStep { resource: Resource::Instance, handle: ctx.instance };
        assert(s8[0] == x);
        lemma_contains_concat_right(s1 + s2 + s3 + sv + s4 + s5 + s6 + s7, s8, x);
    }
}

} // verus!
