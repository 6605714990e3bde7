//! Planning logic of the ahead-of-time shader build: the stage of a shader
//! is inferred from its filename suffix, the artifact name replaces the
//! source extension with the binary extension, and the optimization level
//! follows the build profile.  Reading sources and invoking the translator
//! are the build harness's work; everything decided here is a pure function
//! of the filenames and the profile.

use vstd::prelude::*;
use vstd::string::{StrSliceExecFns, StringExecFns};

use crate::error::ShaderError;
use crate::text::{ends_with, has_suffix};

verus! {

/// The pipeline stage a shader feeds, inferred from its filename.
#[derive(Clone, Copy, Debug, PartialEq, Eq, Structural)]
pub enum ShaderStage {
    Vertex,
    Fragment,
    Compute,
    Geometry,
    TessControl,
    TessEvaluation,
}

/// How hard the shader translator optimizes: not at all in iterative
/// builds, fully in release builds.
#[derive(Clone, Copy, Debug, PartialEq, Eq, Structural)]
pub enum OptLevel {
    Zero,
    Performance,
}

/// The filename suffix that marks a shader source as feeding `stage`.
pub open spec fn stage_suffix(stage: ShaderStage) -> Seq<char> {
    match stage {
        ShaderStage::Vertex => ".vert.glsl"@,
        ShaderStage::Fragment => ".frag.glsl"@,
        ShaderStage::Compute => ".comp.glsl"@,
        ShaderStage::Geometry => ".geom.glsl"@,
        ShaderStage::TessControl => ".tesc.glsl"@,
        ShaderStage::TessEvaluation => ".tese.glsl"@,
    }
}

/// The stage a filename selects: the first stage suffix it ends in, if any.
/// The suffixes are pairwise distinct and of equal length, so at most one
/// of them can match and the order of the tests does not matter
/// (`lemma_stage_matches_suffix`).
pub open spec fn spec_stage_of(name: Seq<char>) -> Option<ShaderStage> {
    if ends_with(name, stage_suffix(ShaderStage::Vertex)) {
        Some(ShaderStage::Vertex)
    } else if ends_with(name, stage_suffix(ShaderStage::Fragment)) {
        Some(ShaderStage::Fragment)
    } else if ends_with(name, stage_suffix(ShaderStage::Compute)) {
        Some(ShaderStage::Compute)
    } else if ends_with(name, stage_suffix(ShaderStage::Geometry)) {
        Some(ShaderStage::Geometry)
    } else if ends_with(name, stage_suffix(ShaderStage::TessControl)) {
        Some(ShaderStage::TessControl)
    } else if ends_with(name, stage_suffix(ShaderStage::TessEvaluation)) {
        Some(ShaderStage::TessEvaluation)
    } else {
        None
    }
}

/// Two suffixes of equal length that both close the same string are the
/// same suffix.
proof fn lemma_ends_with_same_len(s: Seq<char>, a: Seq<char>, b: Seq<char>)
    requires
        ends_with(s, a),
        ends_with(s, b),
        a.len() == b.len(),
    ensures
        a =~= b,
{
}

/// A filename is assigned a stage exactly when it ends in that stage's
/// suffix; a filename ending in no stage suffix is assigned no stage.
pub proof fn lemma_stage_matches_suffix(name: Seq<char>, stage: ShaderStage)
    ensures
        spec_stage_of(name) == Some(stage) <==> ends_with(name, stage_suffix(stage)),
        spec_stage_of(name) is None <==> (forall|st: ShaderStage|
            !ends_with(name, #[trigger] stage_suffix(st))),
{
    reveal_strlit(".vert.glsl");
    reveal_strlit(".frag.glsl");
    reveal_strlit(".comp.glsl");
    reveal_strlit(".geom.glsl");
    reveal_strlit(".tesc.glsl");
    reveal_strlit(".tese.glsl");
    assert(stage_suffix(ShaderStage::Vertex).len() == 10);
    assert(stage_suffix(ShaderStage::Fragment).len() == 10);
    assert(stage_suffix(ShaderStage::Compute).len() == 10);
    assert(stage_suffix(ShaderStage::Geometry).len() == 10);
    assert(stage_suffix(ShaderStage::TessControl).len() == 10);
    assert(stage_suffix(ShaderStage::TessEvaluation).len() == 10);
    assert forall|a: ShaderStage, b: ShaderStage|
        ends_with(name, #[trigger] stage_suffix(a)) && ends_with(
            name,
            #[trigger] stage_suffix(b),
        ) implies a == b by {
        lemma_ends_with_same_len(name, stage_suffix(a), stage_suffix(b));
        assert(stage_suffix(ShaderStage::Vertex)[1] == 'v');
        assert(stage_suffix(ShaderStage::Fragment)[1] == 'f');
        assert(stage_suffix(ShaderStage::Compute)[1] == 'c');
        assert(stage_suffix(ShaderStage::Geometry)[1] == 'g');
        assert(stage_suffix(ShaderStage::TessControl)[1] == 't');
        assert(stage_suffix(ShaderStage::TessEvaluation)[1] == 't');
        assert(stage_suffix(ShaderStage::TessControl)[4] == 'c');
        assert(stage_suffix(ShaderStage::TessEvaluation)[4] == 'e');
    }
}

/// The stage of a shader source file, from its filename suffix.
pub fn stage_of_filename(name: &str) -> (r: Option<ShaderStage>)
    ensures
        r == spec_stage_of(name@),
{
    if has_suffix(name, ".vert.glsl") {
        Some(ShaderStage::Vertex)
    } else if has_suffix(name, ".frag.glsl") {
        Some(ShaderStage::Fragment)
    } else if has_suffix(name, ".comp.glsl") {
        Some(ShaderStage::Compute)
    } else if has_suffix(name, ".geom.glsl") {
        Some(ShaderStage::Geometry)
    } else if has_suffix(name, ".tesc.glsl") {
        Some(ShaderStage::TessControl)
    } else if has_suffix(name, ".tese.glsl") {
        Some(ShaderStage::TessEvaluation)
    } else {
        None
    }
}

/// Whether a filename names a shader source file.
pub open spec fn is_shader_source(name: Seq<char>) -> bool {
    ends_with(name, ".glsl"@)
}

/// The artifact name of a shader source: the trailing source extension
/// replaced by the binary extension.
pub open spec fn spec_artifact_name(name: Seq<char>) -> Seq<char> {
    name.subrange(0, name.len() - 5) + ".spv"@
}

/// Replaces the trailing `.glsl` of a source filename with `.spv`.
pub fn artifact_name(name: &str) -> (r: String)
    requires
        is_shader_source(name@),
    ensures
        r@ == spec_artifact_name(name@),
{
    proof {
        reveal_strlit(".glsl");
    }
    let n: usize = name.unicode_len();
    let base = name.substring_char(0, n - 5);
    String::from_str(base).concat(".spv")
}

/// The optimization level a build profile selects: everything in release,
/// nothing otherwise, to keep iteration fast.
pub open spec fn spec_opt_for_profile(release: bool) -> OptLevel {
    if release {
        OptLevel::Performance
    } else {
        OptLevel::Zero
    }
}

/// One shader source scheduled for translation: where it comes from, where
/// the artifact goes, which stage it feeds, and how hard to optimize.
#[derive(Debug, Clone)]
pub struct ShaderJob {
    pub source: String,
    pub output: String,
    pub stage: ShaderStage,
    pub optimization: OptLevel,
}

/// The mathematical image of a `ShaderJob`.
pub struct ShaderJobView {
    pub source: Seq<char>,
    pub output: Seq<char>,
    pub stage: ShaderStage,
    pub optimization: OptLevel,
}

impl View for ShaderJob {
    type V = ShaderJobView;

    open spec fn view(&self) -> ShaderJobView {
        ShaderJobView {
            source: self.source@,
            output: self.output@,
            stage: self.stage,
            optimization: self.optimization,
        }
    }
}

impl DeepView for ShaderJob {
    type V = ShaderJobView;

    open spec fn deep_view(&self) -> ShaderJobView {
        self.view()
    }
}

/// What planning a directory listing yields: one job per shader source, in
/// listing order, or the first filename with an unrecognizable stage.
/// Listed files that are not shader sources are passed over.
pub open spec fn spec_plan(files: Seq<Seq<char>>, release: bool) -> Result<
    Seq<ShaderJobView>,
    Seq<char>,
>
    decreases files.len(),
{
    if files.len() == 0 {
        Ok(Seq::empty())
    } else {
        match spec_plan(files.drop_last(), release) {
            Err(e) => Err(e),
            Ok(jobs) => {
                let f = files.last();
                if !is_shader_source(f) {
                    Ok(jobs)
                } else {
                    match spec_stage_of(f) {
                        None => Err(f),
                        Some(st) => Ok(
                            jobs.push(
                                ShaderJobView {
                                    source: f,
                                    output: spec_artifact_name(f),
                                    stage: st,
                                    optimization: spec_opt_for_profile(release),
                                },
                            ),
                        ),
                    }
                }
            },
        }
    }
}

/// A plan that has already failed on a prefix of the listing fails on the
/// whole listing with the same filename: the first offender decides.
proof fn lemma_plan_err_extends(files: Seq<Seq<char>>, release: bool, i: int, e: Seq<char>)
    requires
        0 <= i <= files.len(),
        spec_plan(files.subrange(0, i), release) == Result::<Seq<ShaderJobView>, Seq<char>>::Err(
            e,
        ),
    ensures
        spec_plan(files, release) == Result::<Seq<ShaderJobView>, Seq<char>>::Err(e),
    decreases files.len() - i,
{
    if i < files.len() {
        assert(files.subrange(0, i + 1).drop_last() =~= files.subrange(0, i));
        lemma_plan_err_extends(files, release, i + 1, e);
    } else {
        assert(files.subrange(0, files.len() as int) =~= files);
    }
}

/// Plans the whole shader build from a directory listing: every file ending
/// in the source extension becomes one job with its inferred stage, its
/// artifact name, and the profile's optimization level.  The first listed
/// shader source whose name matches no stage suffix fails the whole plan.
pub fn plan_shader_build(files: &Vec<String>, release: bool) -> (r: Result<
    Vec<ShaderJob>,
    ShaderError,
>)
    ensures
        match r {
            Ok(jobs) => spec_plan(files.deep_view(), release) == Result::<
                Seq<ShaderJobView>,
                Seq<char>,
            >::Ok(jobs.deep_view()),
            Err(se) => match se {
                ShaderError::UnrecognizedStage(f) => spec_plan(files.deep_view(), release)
                    == Result::<Seq<ShaderJobView>, Seq<char>>::Err(f@),
            },
        },
{
    let ghost all = files.deep_view();
    let mut jobs: Vec<ShaderJob> = Vec::new();
    let mut i: usize = 0;
    proof {
        assert(all.subrange(0, 0) =~= Seq::<Seq<char>>::empty());
        assert(jobs.deep_view() =~= Seq::<ShaderJobView>::empty());
    }
    while i < files.len()
        invariant
            i <= all.len(),
            all == files.deep_view(),
            spec_plan(all.subrange(0, i as int), release) == Result::<
                Seq<ShaderJobView>,
                Seq<char>,
            >::Ok(jobs.deep_view()),
        decreases all.len() - i,
    {
        proof {
            assert(all.subrange(0, i + 1).drop_last() =~= all.subrange(0, i as int));
            assert(all.subrange(0, i + 1).last() == all[i as int]);
        }
        let name = &files[i];
        if has_suffix(name.as_str(), ".glsl") {
            match stage_of_filename(name.as_str()) {
                None => {
                    proof {
                        lemma_plan_err_extends(all, release, i + 1, name@);
                    }
                    return Err(ShaderError::UnrecognizedStage(name.clone()));
                },
                Some(st) => {
                    let out = artifact_name(name.as_str());
                    let ghost before = jobs.deep_view();
                    let job = ShaderJob {
                        source: name.clone(),
                        output: out,
                        stage: st,
                        optimization: if release {
                            OptLevel::Performance
                        } else {
                            OptLevel::Zero
                        },
                    };
                    let ghost jobv = job@;
                    jobs.push(job);
                    proof {
                        assert(jobs.deep_view() =~= before.push(jobv));
                    }
                },
            }
        }
        i += 1;
    }
    proof {
        assert(all.subrange(0, i as int) =~= all);
    }
    Ok(jobs)
}

/// A named binary artifact of the shader build, addressed at
/// pipeline-assembly time by its stable name and stage.
#[derive(Debug)]
pub struct ShaderArtifact {
    pub name: String,
    pub stage: ShaderStage,
    pub code: Vec<u8>,
}

/// A fresh copy of a byte blob.
pub fn copy_bytes(v: &Vec<u8>) -> (r: Vec<u8>)
    ensures
        r@ == v@,
{
    let mut out: Vec<u8> = Vec::new();
    let mut i: usize = 0;
    while i < v.len()
        invariant
            i <= v@.len(),
            out@ =~= v@.subrange(0, i as int),
        decreases v@.len() - i,
    {
        out.push(v[i]);
        i += 1;
    }
    proof {
        assert(out@ =~= v@);
    }
    out
}

impl ShaderArtifact {
    /// A fresh copy of the artifact: same name, stage and bytecode.
    pub fn duplicate(&self) -> (r: ShaderArtifact)
        ensures
            r.name@ == self.name@,
            r.stage == self.stage,
            r.code@ == self.code@,
    {
        ShaderArtifact { name: self.name.clone(), stage: self.stage, code: copy_bytes(&self.code) }
    }
}

} // verus!
