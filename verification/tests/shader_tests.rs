use gpu_bootstrap::error::ShaderError;
use gpu_bootstrap::instance::policy_for_profile;
use gpu_bootstrap::shader::{
    artifact_name, plan_shader_build, stage_of_filename, OptLevel, ShaderStage,
};

#[test]
fn vertex_suffix_gives_vertex_stage() {
    assert_eq!(stage_of_filename("triangle.vert.glsl"), Some(ShaderStage::Vertex));
}

#[test]
fn fragment_suffix_gives_fragment_stage() {
    assert_eq!(stage_of_filename("triangle.frag.glsl"), Some(ShaderStage::Fragment));
}

#[test]
fn compute_suffix_gives_compute_stage() {
    assert_eq!(stage_of_filename("sim.comp.glsl"), Some(ShaderStage::Compute));
}

#[test]
fn geometry_suffix_gives_geometry_stage() {
    assert_eq!(stage_of_filename("wire.geom.glsl"), Some(ShaderStage::Geometry));
}

#[test]
fn tess_control_suffix_gives_tess_control_stage() {
    assert_eq!(stage_of_filename("patch.tesc.glsl"), Some(ShaderStage::TessControl));
}

#[test]
fn tess_evaluation_suffix_gives_tess_evaluation_stage() {
    assert_eq!(stage_of_filename("patch.tese.glsl"), Some(ShaderStage::TessEvaluation));
}

#[test]
fn unknown_suffix_gives_no_stage() {
    assert_eq!(stage_of_filename("shader.glsl"), None);
    assert_eq!(stage_of_filename("notes.txt"), None);
    assert_eq!(stage_of_filename("vert.glsl"), None);
    assert_eq!(stage_of_filename(""), None);
}

#[test]
fn suffix_must_close_the_name() {
    assert_eq!(stage_of_filename("a.vert.glsl.bak"), None);
}

#[test]
fn artifact_name_swaps_the_extension() {
    assert_eq!(artifact_name("triangle.vert.glsl"), "triangle.vert.spv");
    assert_eq!(artifact_name("patch.tese.glsl"), "patch.tese.spv");
}

#[test]
fn plan_keeps_listing_order_and_skips_other_files() {
    let files = vec![
        "a.vert.glsl".to_string(),
        "readme.md".to_string(),
        "b.frag.glsl".to_string(),
    ];
    let jobs = plan_shader_build(&files, false).unwrap();
    assert_eq!(jobs.len(), 2);
    assert_eq!(jobs[0].source, "a.vert.glsl");
    assert_eq!(jobs[0].output, "a.vert.spv");
    assert_eq!(jobs[0].stage, ShaderStage::Vertex);
    assert_eq!(jobs[0].optimization, OptLevel::Zero);
    assert_eq!(jobs[1].source, "b.frag.glsl");
    assert_eq!(jobs[1].output, "b.frag.spv");
    assert_eq!(jobs[1].stage, ShaderStage::Fragment);
}

#[test]
fn release_plan_optimizes_fully() {
    let files = vec!["a.vert.glsl".to_string()];
    let jobs = plan_shader_build(&files, true).unwrap();
    assert_eq!(jobs[0].optimization, OptLevel::Performance);
}

#[test]
fn first_unrecognized_shader_fails_the_whole_plan() {
    let files = vec![
        "a.vert.glsl".to_string(),
        "bad.glsl".to_string(),
        "worse.glsl".to_string(),
    ];
    let err = plan_shader_build(&files, false).unwrap_err();
    let ShaderError::UnrecognizedStage(name) = err;
    assert_eq!(name, "bad.glsl");
}

#[test]
fn empty_listing_plans_nothing() {
    let files: Vec<String> = Vec::new();
    let jobs = plan_shader_build(&files, true).unwrap();
    assert!(jobs.is_empty());
}

#[test]
fn profile_couples_validation_and_optimization() {
    let release = policy_for_profile(true);
    assert!(!release.validation);
    assert_eq!(release.optimization, OptLevel::Performance);
    let debug = policy_for_profile(false);
    assert!(debug.validation);
    assert_eq!(debug.optimization, OptLevel::Zero);
}
