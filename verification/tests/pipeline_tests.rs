use gpu_bootstrap::pipeline::{
    plan_pipeline, plan_render_pass, BlendFactor, CullMode, FrontFace, ImageLayout, LoadOp,
    PolygonMode, StoreOp, Topology,
};
use gpu_bootstrap::shader::{ShaderArtifact, ShaderStage};
use gpu_bootstrap::types::Extent2D;

#[test]
fn render_pass_matches_the_swap_format_and_presents() {
    let rp = plan_render_pass(50);
    assert_eq!(rp.attachment.format, 50);
    assert_eq!(rp.attachment.sample_count, 1);
    assert_eq!(rp.attachment.load_op, LoadOp::Clear);
    assert_eq!(rp.attachment.store_op, StoreOp::Store);
    assert_eq!(rp.attachment.stencil_load_op, LoadOp::DontCare);
    assert_eq!(rp.attachment.stencil_store_op, StoreOp::DontCare);
    assert_eq!(rp.attachment.layout_before, ImageLayout::Undefined);
    assert_eq!(rp.attachment.layout_after, ImageLayout::PresentSource);
    assert_eq!(rp.color_attachment_index, 0);
    assert_eq!(rp.color_attachment_layout, ImageLayout::ColorAttachmentOptimal);
}

#[test]
fn pipeline_consumes_both_stages_at_main() {
    let vert = ShaderArtifact {
        name: "triangle.vert.spv".to_string(),
        stage: ShaderStage::Vertex,
        code: vec![1, 2, 3],
    };
    let frag = ShaderArtifact {
        name: "triangle.frag.spv".to_string(),
        stage: ShaderStage::Fragment,
        code: vec![4, 5],
    };
    let extent = Extent2D { width: 800, height: 600 };
    let p = plan_pipeline(vert, frag, extent);
    assert_eq!(p.vertex_code, vec![1, 2, 3]);
    assert_eq!(p.fragment_code, vec![4, 5]);
    assert_eq!(p.entry_point, "main");
    assert_eq!(p.vertex_binding_count, 0);
    assert_eq!(p.vertex_attribute_count, 0);
    assert_eq!(p.topology, Topology::TriangleList);
    assert!(!p.primitive_restart);
    assert_eq!(p.viewport, extent);
    assert_eq!(p.scissor, extent);
    assert_eq!(p.polygon_mode, PolygonMode::Fill);
    assert_eq!(p.cull_mode, CullMode::Back);
    assert_eq!(p.front_face, FrontFace::Clockwise);
    assert_eq!(p.sample_count, 1);
    assert!(p.blend.enabled);
    assert_eq!(p.blend.src_color, BlendFactor::SrcAlpha);
    assert_eq!(p.blend.dst_color, BlendFactor::OneMinusSrcAlpha);
    assert_eq!(p.blend.src_alpha, BlendFactor::One);
    assert_eq!(p.blend.dst_alpha, BlendFactor::Zero);
    assert!(p.blend.additive_ops);
    assert_eq!(p.descriptor_set_count, 0);
    assert_eq!(p.push_constant_count, 0);
}
