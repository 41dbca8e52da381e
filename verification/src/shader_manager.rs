//! Manager for shader pipelines: compile-and-link planning, bookkeeping,
//! naming and atomic hot-reload.
//!
//! The manager decides every step of building a pipeline from its shader
//! descriptions — which pipeline kind the stages admit, what to hand the
//! device, how each device outcome maps to an error or a bookkeeping entry —
//! and owns the pipeline records. The device calls themselves (compiling,
//! linking, binding) happen outside and their outcomes are passed in as
//! plain values; native shader and pipeline handles are opaque values of
//! type parameters.
use crate::handle::HandleTable;
use crate::handle::RawHandle;
use vstd::prelude::*;
use vstd::string::StrSliceExecFns;
use vstd::string::StringExecFns;

verus! {

/// One phase of the device's programmable pipeline.
#[derive(Clone, Copy, PartialEq, Eq, Structural, Debug, Hash)]
pub enum ShaderStage {
    Vertex,
    TessellationControl,
    TessellationEvaluation,
    Geometry,
    Fragment,
    Compute,
    MeshNv,
    TaskNv,
}

/// Where a shader's text comes from: a source file on disk, or a literal
/// carried in the program.
#[derive(Clone, PartialEq, Eq, Debug, Hash)]
pub enum ShaderSource {
    SourceFile(String),
    Literal(String),
}

/// The information necessary to compile (or recompile) one shader and link
/// it into a pipeline. Immutable once constructed.
#[derive(Clone, PartialEq, Eq, Debug, Hash)]
pub struct ShaderDesc {
    source: ShaderSource,
    stage: ShaderStage,
}

impl ShaderDesc {
    /// The shader's source origin.
    pub closed spec fn spec_source(self) -> ShaderSource {
        self.source
    }

    /// The shader's pipeline stage.
    pub closed spec fn spec_stage(self) -> ShaderStage {
        self.stage
    }

    /// Describe a shader read from a source file.
    pub fn from_file(source_path: String, stage: ShaderStage) -> (r: ShaderDesc)
        ensures
            r.spec_source() == ShaderSource::SourceFile(source_path),
            r.spec_stage() == stage,
    {
        ShaderDesc { source: ShaderSource::SourceFile(source_path), stage }
    }

    /// Describe a shader held as literal text.
    pub fn from_raw(source: String, stage: ShaderStage) -> (r: ShaderDesc)
        ensures
            r.spec_source() == ShaderSource::Literal(source),
            r.spec_stage() == stage,
    {
        ShaderDesc { source: ShaderSource::Literal(source), stage }
    }

    pub fn source(&self) -> (r: &ShaderSource)
        ensures
            *r == self.spec_source(),
    {
        &self.source
    }

    pub fn stage(&self) -> (r: ShaderStage)
        ensures
            r == self.spec_stage(),
    {
        self.stage
    }
}

/// The kind of a pipeline, deciding which shader stages it may link.
#[derive(Clone, Copy, PartialEq, Eq, Structural, Debug)]
pub enum PipelineType {
    Graphics,
    Compute,
    Mesh,
}

/// Handle to a pipeline owned by a `ShaderManager`. A live handle always
/// refers to a successfully linked, usable pipeline.
#[derive(Clone, Copy, PartialEq, Eq, Structural, Debug, Hash)]
pub struct ManagedPipeline {
    pub raw: RawHandle,
}

/// Errors from `ShaderManager`.
#[derive(Clone, PartialEq, Eq, Debug)]
pub enum Error<D> {
    /// The device reported a failure; carries the device's own error.
    Device(D),
    /// A shader failed to compile: its source origin and the compiler's log.
    CompilationError(ShaderSource, String),
    /// An empty shader list cannot be linked.
    NoShadersToLink,
    /// A shader object was handed to the linker before being compiled.
    UncompiledShader,
    /// The shader stages do not all fit the requested or any pipeline kind.
    IncompatibleShaderTypes,
    /// No stage can be guessed from this filename.
    UnknownStage(String),
    /// The handle does not resolve to a live pipeline.
    MissingPipeline,
    /// The pipeline failed to link; carries the linker's log.
    LinkError(String),
    /// A shader source file could not be read.
    FileError(String),
}

impl PipelineType {
    /// Which stages the kind accepts: graphics takes the rasterization
    /// stages, compute only compute, mesh the mesh/task stages plus
    /// fragment.
    pub open spec fn spec_is_compatible(self, s: ShaderStage) -> bool {
        match self {
            PipelineType::Graphics => match s {
                ShaderStage::Vertex | ShaderStage::TessellationControl
                | ShaderStage::TessellationEvaluation | ShaderStage::Geometry
                | ShaderStage::Fragment => true,
                _ => false,
            },
            PipelineType::Compute => match s {
                ShaderStage::Compute => true,
                _ => false,
            },
            PipelineType::Mesh => match s {
                ShaderStage::MeshNv | ShaderStage::TaskNv | ShaderStage::Fragment => true,
                _ => false,
            },
        }
    }

    pub fn is_compatible(self, s: ShaderStage) -> (r: bool)
        ensures
            r == self.spec_is_compatible(s),
    {
        match self {
            PipelineType::Graphics => match s {
                ShaderStage::Vertex | ShaderStage::TessellationControl
                | ShaderStage::TessellationEvaluation | ShaderStage::Geometry
                | ShaderStage::Fragment => true,
                _ => false,
            },
            PipelineType::Compute => match s {
                ShaderStage::Compute => true,
                _ => false,
            },
            PipelineType::Mesh => match s {
                ShaderStage::MeshNv | ShaderStage::TaskNv | ShaderStage::Fragment => true,
                _ => false,
            },
        }
    }
}

/// A shader list fits a pipeline kind only if every shader's stage is in the
/// kind's accepted set.
pub open spec fn spec_all_compatible(shaders: Seq<ShaderDesc>, t: PipelineType) -> bool {
    forall|i: int| 0 <= i < shaders.len() ==> t.spec_is_compatible((#[trigger] shaders[i]).spec_stage())
}

/// Verify that the pipeline kind accepts every shader of the list.
pub fn verify_pipeline_type(descs: &Vec<ShaderDesc>, ptype: PipelineType) -> (r: bool)
    ensures
        r == spec_all_compatible(descs@, ptype),
{
    let n = descs.len();
    let mut i: usize = 0;
    while i < n
        invariant
            n == descs@.len(),
            i <= n,
            forall|j: int|
                0 <= j < i ==> ptype.spec_is_compatible((#[trigger] descs@[j]).spec_stage()),
        decreases n - i,
    {
        if !ptype.is_compatible(descs[i].stage()) {
            return false;
        }
        i = i + 1;
    }
    true
}

/// The kind a shader list resolves to when none is forced: the first fully
/// compatible kind, trying graphics, then compute, then mesh, in that fixed
/// order.
pub open spec fn spec_derive_pipeline_type(shaders: Seq<ShaderDesc>) -> Option<PipelineType> {
    if spec_all_compatible(shaders, PipelineType::Graphics) {
        Some(PipelineType::Graphics)
    } else if spec_all_compatible(shaders, PipelineType::Compute) {
        Some(PipelineType::Compute)
    } else if spec_all_compatible(shaders, PipelineType::Mesh) {
        Some(PipelineType::Mesh)
    } else {
        None
    }
}

/// Use the stages of the shaders to derive the kind of the pipeline.
pub fn derive_pipeline_type(shaders: &Vec<ShaderDesc>) -> (r: Option<PipelineType>)
    ensures
        r == spec_derive_pipeline_type(shaders@),
{
    if verify_pipeline_type(shaders, PipelineType::Graphics) {
        Some(PipelineType::Graphics)
    } else if verify_pipeline_type(shaders, PipelineType::Compute) {
        Some(PipelineType::Compute)
    } else if verify_pipeline_type(shaders, PipelineType::Mesh) {
        Some(PipelineType::Mesh)
    } else {
        None
    }
}

/// What kind a pipeline built from `shaders` has: an empty list cannot link;
/// a forced kind must accept every stage; otherwise the first fully
/// compatible kind in the fixed graphics, compute, mesh order is taken.
pub open spec fn spec_resolve_pipeline_type<D>(
    shaders: Seq<ShaderDesc>,
    forced: Option<PipelineType>,
) -> Result<PipelineType, Error<D>> {
    if shaders.len() == 0 {
        Err(Error::NoShadersToLink)
    } else {
        match forced {
            Some(t) => if spec_all_compatible(shaders, t) {
                Ok(t)
            } else {
                Err(Error::IncompatibleShaderTypes)
            },
            None => match spec_derive_pipeline_type(shaders) {
                Some(t) => Ok(t),
                None => Err(Error::IncompatibleShaderTypes),
            },
        }
    }
}

/// Resolve the pipeline kind for a shader list, with `NoShadersToLink` for
/// an empty list and `IncompatibleShaderTypes` when no kind, or not the
/// forced one, accepts every stage.
pub fn resolve_pipeline_type<D>(shaders: &Vec<ShaderDesc>, forced: Option<PipelineType>) -> (r:
    Result<PipelineType, Error<D>>)
    ensures
        r == spec_resolve_pipeline_type::<D>(shaders@, forced),
{
    if shaders.len() == 0 {
        return Err(Error::NoShadersToLink);
    }
    match forced {
        Some(t) => {
            if verify_pipeline_type(shaders, t) {
                Ok(t)
            } else {
                Err(Error::IncompatibleShaderTypes)
            }
        },
        None => match derive_pipeline_type(shaders) {
            Some(t) => Ok(t),
            None => Err(Error::IncompatibleShaderTypes),
        },
    }
}

/// Kind inference order: a non-empty shader list holding only compute-stage
/// shaders, with no forced kind, resolves to the compute kind — never
/// graphics or mesh.
pub proof fn lemma_compute_only_infers_compute<D>(shaders: Seq<ShaderDesc>)
    requires
        shaders.len() > 0,
        forall|i: int|
            0 <= i < shaders.len() ==> (#[trigger] shaders[i]).spec_stage() == ShaderStage::Compute,
    ensures
        spec_resolve_pipeline_type::<D>(shaders, None) == Ok::<PipelineType, Error<D>>(
            PipelineType::Compute,
        ),
{
    assert(!PipelineType::Graphics.spec_is_compatible(shaders[0].spec_stage()));
    assert(!spec_all_compatible(shaders, PipelineType::Graphics));
    assert(spec_all_compatible(shaders, PipelineType::Compute));
}

/// What the device reported for one shader compilation: a compiled native
/// shader, a compile failure with the compiler's log, or another device
/// failure.
pub enum CompileOutcome<S, D> {
    Success(S),
    CompileFailed(String),
    Device(D),
}

/// What the device reported for linking a pipeline: a linked native
/// pipeline, a link failure with the linker's log, or another device
/// failure.
pub enum LinkOutcome<P, D> {
    Success(P),
    LinkFailed(String),
    Device(D),
}

/// Resolve a shader's text: literal text is used directly; a source file's
/// text is taken from `file_text`, the caller's attempt at reading the
/// file, and an unreadable file fails with `FileError` naming the path.
pub fn resolve_source_text<D>(desc: ShaderDesc, file_text: Option<String>) -> (r: Result<
    String,
    Error<D>,
>)
    ensures
        desc.spec_source() matches ShaderSource::Literal(s) ==> r == Ok::<String, Error<D>>(s),
        desc.spec_source() matches ShaderSource::SourceFile(p) ==> (match file_text {
            Some(t) => r == Ok::<String, Error<D>>(t),
            None => r == Err::<String, Error<D>>(Error::FileError(p)),
        }),
{
    match desc.source {
        ShaderSource::Literal(s) => Ok(s),
        ShaderSource::SourceFile(p) => match file_text {
            Some(t) => Ok(t),
            None => Err(Error::FileError(p)),
        },
    }
}

/// Turn the device's compile outcome for `desc` into the shader build
/// result: a compile failure becomes `CompilationError` carrying the
/// shader's source origin and the compiler's log verbatim; any other device
/// failure is passed through wrapped.
pub fn resolve_compile<S, D>(desc: ShaderDesc, outcome: CompileOutcome<S, D>) -> (r: Result<
    S,
    Error<D>,
>)
    ensures
        outcome matches CompileOutcome::Success(s) ==> r == Ok::<S, Error<D>>(s),
        outcome matches CompileOutcome::CompileFailed(log) ==> r == Err::<S, Error<D>>(
            Error::CompilationError(desc.spec_source(), log),
        ),
        outcome matches CompileOutcome::Device(d) ==> r == Err::<S, Error<D>>(Error::Device(d)),
{
    match outcome {
        CompileOutcome::Success(s) => Ok(s),
        CompileOutcome::CompileFailed(log) => Err(Error::CompilationError(desc.source, log)),
        CompileOutcome::Device(d) => Err(Error::Device(d)),
    }
}

/// Turn the device's link outcome into the pipeline build result: a link
/// failure becomes `LinkError` carrying the linker's log verbatim; any
/// other device failure is passed through wrapped.
pub fn resolve_link<P, D>(outcome: LinkOutcome<P, D>) -> (r: Result<P, Error<D>>)
    ensures
        outcome matches LinkOutcome::Success(p) ==> r == Ok::<P, Error<D>>(p),
        outcome matches LinkOutcome::LinkFailed(log) ==> r == Err::<P, Error<D>>(
            Error::LinkError(log),
        ),
        outcome matches LinkOutcome::Device(d) ==> r == Err::<P, Error<D>>(Error::Device(d)),
{
    match outcome {
        LinkOutcome::Success(p) => Ok(p),
        LinkOutcome::LinkFailed(log) => Err(Error::LinkError(log)),
        LinkOutcome::Device(d) => Err(Error::Device(d)),
    }
}

/// Fold per-shader build results into one: all compiled shaders in order,
/// or the first error.
pub open spec fn spec_collect<S, D>(rs: Seq<Result<S, Error<D>>>) -> Result<Seq<S>, Error<D>>
    decreases rs.len(),
{
    if rs.len() == 0 {
        Ok(Seq::empty())
    } else {
        match rs[0] {
            Err(e) => Err(e),
            Ok(s) => match spec_collect(rs.drop_first()) {
                Ok(tail) => Ok(seq![s] + tail),
                Err(e) => Err(e),
            },
        }
    }
}

/// `spec_collect` of the remaining results, with `acc` already collected.
pub open spec fn spec_collect_with<S, D>(acc: Seq<S>, rs: Seq<Result<S, Error<D>>>) -> Result<
    Seq<S>,
    Error<D>,
> {
    match spec_collect(rs) {
        Ok(tail) => Ok(acc + tail),
        Err(e) => Err(e),
    }
}

/// Collect per-shader build results: every compiled shader in order if all
/// succeeded, else the first error, exactly as `spec_collect` folds them.
pub fn collect_shaders<S: Copy, D>(results: Vec<Result<S, Error<D>>>) -> (r: Result<
    Vec<S>,
    Error<D>,
>)
    ensures
        r matches Ok(v) ==> spec_collect::<S, D>(results@) == Ok::<Seq<S>, Error<D>>(v@),
        r matches Err(e) ==> spec_collect::<S, D>(results@) == Err::<Seq<S>, Error<D>>(e),
{
    let mut rest = results;
    let mut acc: Vec<S> = Vec::new();
    proof {
        assert(acc@ + spec_collect::<S, D>(rest@)->Ok_0 =~= spec_collect::<S, D>(rest@)->Ok_0);
    }
    while rest.len() > 0
        invariant
            spec_collect_with::<S, D>(acc@, rest@) == spec_collect::<S, D>(results@),
        decreases rest.len(),
    {
        let ghost acc0 = acc@;
        let ghost rest0 = rest@;
        let x = rest.remove(0);
        match x {
            Err(e) => {
                return Err(e);
            },
            Ok(s) => {
                acc.push(s);
                proof {
                    assert(rest0.drop_first() =~= rest@);
                    if spec_collect::<S, D>(rest@) is Ok {
                        assert(acc0 + (seq![s] + spec_collect::<S, D>(rest@)->Ok_0) =~= acc@
                            + spec_collect::<S, D>(rest@)->Ok_0);
                    }
                }
            },
        }
    }
    proof {
        assert(acc@ + Seq::<S>::empty() =~= acc@);
    }
    Ok(acc)
}

/// `s` ends in `suffix`.
pub open spec fn spec_ends_with(s: Seq<char>, suffix: Seq<char>) -> bool {
    s.len() >= suffix.len() && s.subrange(s.len() - suffix.len(), s.len() as int) == suffix
}

/// Whether the string ends in the given suffix, character-wise.
fn ends_with_suffix(s: &str, suffix: &str) -> (r: bool)
    ensures
        r == spec_ends_with(s@, suffix@),
{
    let n = s.unicode_len();
    let m = suffix.unicode_len();
    if n < m {
        return false;
    }
    let mut k: usize = 0;
    while k < m
        invariant
            n == s@.len(),
            m == suffix@.len(),
            m <= n,
            k <= m,
            forall|j: int| 0 <= j < k ==> s@[n - m + j] == suffix@[j],
        decreases m - k,
    {
        if s.get_char(n - m + k) != suffix.get_char(k) {
            proof {
                assert(s@.subrange(n - m, n as int)[k as int] == s@[n - m + k]);
            }
            return false;
        }
        k = k + 1;
    }
    proof {
        assert(s@.subrange(n - m, n as int) =~= suffix@);
    }
    true
}

/// The generic shader-file suffix that is stripped before the stage suffix
/// is read.
pub open spec fn spec_glsl_suffix() -> Seq<char> {
    seq!['.', 'g', 'l', 's', 'l']
}

/// `s` with every trailing generic shader-file suffix removed.
pub open spec fn spec_strip_glsl(s: Seq<char>) -> Seq<char>
    decreases s.len(),
{
    if spec_ends_with(s, spec_glsl_suffix()) && s.len() >= 5 {
        spec_strip_glsl(s.subrange(0, s.len() - 5))
    } else {
        s
    }
}

/// Strip every trailing generic shader-file suffix from the filename.
fn strip_glsl(s: &str) -> (r: &str)
    ensures
        r@ == spec_strip_glsl(s@),
{
    proof {
        reveal_strlit(".glsl");
        assert(".glsl"@ =~= spec_glsl_suffix());
    }
    let mut cur: &str = s;
    loop
        invariant
            spec_strip_glsl(cur@) == spec_strip_glsl(s@),
        ensures
            cur@ == spec_strip_glsl(s@),
        decreases cur@.len(),
    {
        proof {
            reveal_strlit(".glsl");
            assert(".glsl"@ =~= spec_glsl_suffix());
        }
        if !ends_with_suffix(cur, ".glsl") {
            proof {
                assert(cur@ == spec_strip_glsl(cur@));
            }
            return cur;
        }
        let n = cur.unicode_len();
        cur = cur.substring_char(0, n - 5);
    }
}

/// The stage a shader filename implies: after stripping the generic suffix,
/// the filename's extension names the stage, or nothing is implied.
pub open spec fn spec_stage_of_path(s: Seq<char>) -> Option<ShaderStage> {
    let t = spec_strip_glsl(s);
    if spec_ends_with(t, seq!['.', 'v', 'e', 'r', 't']) {
        Some(ShaderStage::Vertex)
    } else if spec_ends_with(t, seq!['.', 'f', 'r', 'a', 'g']) {
        Some(ShaderStage::Fragment)
    } else if spec_ends_with(t, seq!['.', 'c', 'o', 'm', 'p']) {
        Some(ShaderStage::Compute)
    } else if spec_ends_with(t, seq!['.', 'g', 'e', 'o', 'm']) {
        Some(ShaderStage::Geometry)
    } else if spec_ends_with(t, seq!['.', 't', 'e', 's', 'c']) {
        Some(ShaderStage::TessellationControl)
    } else if spec_ends_with(t, seq!['.', 't', 'e', 's', 'e']) {
        Some(ShaderStage::TessellationEvaluation)
    } else if spec_ends_with(t, seq!['.', 'm', 'e', 's', 'h']) {
        Some(ShaderStage::MeshNv)
    } else if spec_ends_with(t, seq!['.', 't', 'a', 's', 'k']) {
        Some(ShaderStage::TaskNv)
    } else {
        None
    }
}

/// Based on the shader filename, guess the shader's stage; a filename whose
/// extension names no stage fails with `UnknownStage` carrying the path.
pub fn guess_stage<D>(path: String) -> (r: Result<ShaderStage, Error<D>>)
    ensures
        spec_stage_of_path(path@) matches Some(st) ==> r == Ok::<ShaderStage, Error<D>>(st),
        spec_stage_of_path(path@) is None ==> r == Err::<ShaderStage, Error<D>>(
            Error::UnknownStage(path),
        ),
{
    proof {
        reveal_strlit(".vert");
        reveal_strlit(".frag");
        reveal_strlit(".comp");
        reveal_strlit(".geom");
        reveal_strlit(".tesc");
        reveal_strlit(".tese");
        reveal_strlit(".mesh");
        reveal_strlit(".task");
        assert(".vert"@ =~= seq!['.', 'v', 'e', 'r', 't']);
        assert(".frag"@ =~= seq!['.', 'f', 'r', 'a', 'g']);
        assert(".comp"@ =~= seq!['.', 'c', 'o', 'm', 'p']);
        assert(".geom"@ =~= seq!['.', 'g', 'e', 'o', 'm']);
        assert(".tesc"@ =~= seq!['.', 't', 'e', 's', 'c']);
        assert(".tese"@ =~= seq!['.', 't', 'e', 's', 'e']);
        assert(".mesh"@ =~= seq!['.', 'm', 'e', 's', 'h']);
        assert(".task"@ =~= seq!['.', 't', 'a', 's', 'k']);
    }
    let stripped = strip_glsl(path.as_str());
    if ends_with_suffix(stripped, ".vert") {
        Ok(ShaderStage::Vertex)
    } else if ends_with_suffix(stripped, ".frag") {
        Ok(ShaderStage::Fragment)
    } else if ends_with_suffix(stripped, ".comp") {
        Ok(ShaderStage::Compute)
    } else if ends_with_suffix(stripped, ".geom") {
        Ok(ShaderStage::Geometry)
    } else if ends_with_suffix(stripped, ".tesc") {
        Ok(ShaderStage::TessellationControl)
    } else if ends_with_suffix(stripped, ".tese") {
        Ok(ShaderStage::TessellationEvaluation)
    } else if ends_with_suffix(stripped, ".mesh") {
        Ok(ShaderStage::MeshNv)
    } else if ends_with_suffix(stripped, ".task") {
        Ok(ShaderStage::TaskNv)
    } else {
        Err(Error::UnknownStage(path))
    }
}

/// The first `i` paths all imply a stage.
pub open spec fn spec_stages_known_upto(paths: Seq<String>, i: int) -> bool {
    forall|j: int| 0 <= j < i ==> spec_stage_of_path((#[trigger] paths[j])@) is Some
}

/// Build the shader descriptions for `create_pipeline_from_files`: each
/// file's stage is guessed from its name; the first file whose name implies
/// no stage fails the whole list with `UnknownStage`.
pub fn shader_descs_from_files<D>(paths: Vec<String>) -> (r: Result<Vec<ShaderDesc>, Error<D>>)
    ensures
        r matches Ok(descs) ==> (descs@.len() == paths@.len() && (forall|i: int|
            0 <= i < paths@.len() ==> spec_stage_of_path((#[trigger] paths@[i])@) is Some
                && descs@[i].spec_stage() == spec_stage_of_path(paths@[i]@)->0
                && descs@[i].spec_source() == ShaderSource::SourceFile(paths@[i]))),
        r matches Err(e) ==> (exists|i: int|
            0 <= i < paths@.len() && spec_stage_of_path((#[trigger] paths@[i])@) is None && e
                == Error::<D>::UnknownStage(paths@[i]) && spec_stages_known_upto(paths@, i)),
{
    let total = paths.len();
    let mut rest = paths;
    let mut descs: Vec<ShaderDesc> = Vec::new();
        let mut done: usize = 0;
    while rest.len() > 0
        invariant
            total == paths@.len(),
            done + rest@.len() == paths@.len(),
            paths@.subrange(done as int, paths@.len() as int) =~= rest@,
            descs@.len() == done,
            forall|i: int|
                0 <= i < done ==> spec_stage_of_path((#[trigger] paths@[i])@) is Some
                    && descs@[i].spec_stage() == spec_stage_of_path(paths@[i]@)->0
                    && descs@[i].spec_source() == ShaderSource::SourceFile(paths@[i]),
        decreases rest.len(),
    {
        let ghost rest0 = rest@;
        let p = rest.remove(0);
        proof {
            assert(p == paths@[done as int]);
            assert(rest0.drop_first() =~= rest@);
            assert(paths@.subrange(done + 1, paths@.len() as int) =~= rest@);
        }
        let p2 = p.clone();
        match guess_stage::<D>(p) {
            Err(e) => {
                proof {
                    assert(spec_stage_of_path((paths@[done as int])@) is None);
                    assert(e == Error::<D>::UnknownStage(paths@[done as int]));
                    assert(spec_stages_known_upto(paths@, done as int));
                    assert(exists|i: int|
                        0 <= i < paths@.len() && spec_stage_of_path((#[trigger] paths@[i])@) is None
                            && e == Error::<D>::UnknownStage(paths@[i]) && spec_stages_known_upto(
                            paths@,
                            i,
                        ));
                }
                return Err(e);
            },
            Ok(stage) => {
                descs.push(ShaderDesc::from_file(p2, stage));
            },
        }
        done = done + 1;
    }
    proof {
        assert(done == paths@.len());
    }
    Ok(descs)
}

/// The iteration counter after one more reload; it sticks at its maximum
/// rather than wrapping.
pub open spec fn spec_next_iteration(i: u64) -> u64 {
    if i < u64::MAX {
        (i + 1) as u64
    } else {
        i
    }
}

/// The decimal digit `d` as a character.
pub open spec fn spec_digit_char(d: int) -> char {
    if d == 0 {
        '0'
    } else if d == 1 {
        '1'
    } else if d == 2 {
        '2'
    } else if d == 3 {
        '3'
    } else if d == 4 {
        '4'
    } else if d == 5 {
        '5'
    } else if d == 6 {
        '6'
    } else if d == 7 {
        '7'
    } else if d == 8 {
        '8'
    } else {
        '9'
    }
}

/// The decimal digits of `n`, most significant first.
pub open spec fn spec_dec_chars(n: int) -> Seq<char>
    decreases n,
{
    if n < 10 {
        seq![spec_digit_char(n)]
    } else {
        spec_dec_chars(n / 10).push(spec_digit_char(n % 10))
    }
}

/// The debug label of a pipeline whose base name is `base` and whose reload
/// iteration is `iteration`.
pub open spec fn spec_label(base: Seq<char>, iteration: int) -> Seq<char> {
    base + seq![' ', 'R', 'L'] + spec_dec_chars(iteration)
}

/// Append one decimal digit to the string.
fn append_digit(s: &mut String, d: u64)
    requires
        d < 10,
    ensures
        final(s)@ == old(s)@ + seq![spec_digit_char(d as int)],
{
    if d == 0 {
        s.append("0");
        proof {
            reveal_strlit("0");
            assert(old(s)@ + "0"@ =~= old(s)@ + seq![spec_digit_char(d as int)]);
        }
    } else if d == 1 {
        s.append("1");
        proof {
            reveal_strlit("1");
            assert(old(s)@ + "1"@ =~= old(s)@ + seq![spec_digit_char(d as int)]);
        }
    } else if d == 2 {
        s.append("2");
        proof {
            reveal_strlit("2");
            assert(old(s)@ + "2"@ =~= old(s)@ + seq![spec_digit_char(d as int)]);
        }
    } else if d == 3 {
        s.append("3");
        proof {
            reveal_strlit("3");
            assert(old(s)@ + "3"@ =~= old(s)@ + seq![spec_digit_char(d as int)]);
        }
    } else if d == 4 {
        s.append("4");
        proof {
            reveal_strlit("4");
            assert(old(s)@ + "4"@ =~= old(s)@ + seq![spec_digit_char(d as int)]);
        }
    } else if d == 5 {
        s.append("5");
        proof {
            reveal_strlit("5");
            assert(old(s)@ + "5"@ =~= old(s)@ + seq![spec_digit_char(d as int)]);
        }
    } else if d == 6 {
        s.append("6");
        proof {
            reveal_strlit("6");
            assert(old(s)@ + "6"@ =~= old(s)@ + seq![spec_digit_char(d as int)]);
        }
    } else if d == 7 {
        s.append("7");
        proof {
            reveal_strlit("7");
            assert(old(s)@ + "7"@ =~= old(s)@ + seq![spec_digit_char(d as int)]);
        }
    } else if d == 8 {
        s.append("8");
        proof {
            reveal_strlit("8");
            assert(old(s)@ + "8"@ =~= old(s)@ + seq![spec_digit_char(d as int)]);
        }
    } else {
        s.append("9");
        proof {
            reveal_strlit("9");
            assert(old(s)@ + "9"@ =~= old(s)@ + seq![spec_digit_char(d as int)]);
        }
    }
}

/// Append the decimal digits of `n` to the string.
fn push_dec(s: &mut String, n: u64)
    ensures
        final(s)@ == old(s)@ + spec_dec_chars(n as int),
    decreases n,
{
    if n >= 10 {
        push_dec(s, n / 10);
        let ghost before = s@;
        append_digit(s, n % 10);
        proof {
            assert(s@ =~= old(s)@ + spec_dec_chars(n as int));
        }
    } else {
        append_digit(s, n);
    }
}

/// The debug label applied to a pipeline's native object: the base name,
/// then the reload iteration.
pub fn pipeline_label(base: &str, iteration: u64) -> (r: String)
    ensures
        r@ == spec_label(base@, iteration as int),
{
    let mut s = String::from_str(base);
    s.append(" RL");
    proof {
        reveal_strlit(" RL");
        assert(s@ =~= base@ + seq![' ', 'R', 'L']);
    }
    push_dec(&mut s, iteration);
    proof {
        assert(s@ =~= spec_label(base@, iteration as int));
    }
    s
}

/// Bookkeeping for one managed pipeline: the live native pipeline, the
/// recipe it was built from, its kind, and naming metadata.
pub struct PipelineRecord<P> {
    /// The current native pipeline; always a successfully linked one.
    pub native: P,
    /// The kind the recipe resolved to; reloads force the same kind.
    pub pipeline_type: PipelineType,
    /// The authoritative recipe: reloads rebuild exactly these shaders.
    pub shaders: Vec<ShaderDesc>,
    /// Base name for debug labels, once assigned.
    pub base_name: Option<String>,
    /// How many reloads have replaced the native pipeline.
    pub iteration: u64,
}

/// The shader manager keeps track of all pipelines and the relationship
/// between them and their shaders.
pub struct ShaderManager<P> {
    pipelines: HandleTable<PipelineRecord<P>>,
}

impl<P: Copy> ShaderManager<P> {
    pub closed spec fn wf(self) -> bool {
        self.pipelines.wf()
    }

    /// The live pipelines, by handle.
    pub closed spec fn pipeline_map(self) -> Map<RawHandle, PipelineRecord<P>> {
        self.pipelines.contents()
    }

    /// `h` resolves to a live pipeline.
    pub closed spec fn pipeline_live(self, h: ManagedPipeline) -> bool {
        self.pipelines.live(h.raw)
    }

    /// `h` named a pipeline once and never will again.
    pub closed spec fn pipeline_dead(self, h: ManagedPipeline) -> bool {
        self.pipelines.dead(h.raw)
    }

    /// The record behind a live pipeline handle.
    pub closed spec fn pipeline_at(self, h: ManagedPipeline) -> PipelineRecord<P> {
        self.pipelines.contents()[h.raw]
    }

    /// `n` is the native pipeline of some live entry.
    pub open spec fn is_live_pipeline_native(self, n: P) -> bool {
        exists|h: ManagedPipeline| self.pipeline_live(h) && self.pipeline_at(h).native == n
    }

    pub fn new() -> (r: ShaderManager<P>)
        ensures
            r.wf(),
            forall|h: ManagedPipeline| !r.pipeline_live(h) && !r.pipeline_dead(h),
    {
        ShaderManager { pipelines: HandleTable::new() }
    }

    /// Record a pipeline the device linked from `shaders` with kind `ptype`:
    /// a fresh handle to a record with the given recipe, no name, and reload
    /// iteration zero. Only a successfully linked pipeline is ever inserted.
    pub fn install_pipeline(
        &mut self,
        shaders: Vec<ShaderDesc>,
        ptype: PipelineType,
        native: P,
    ) -> (h: ManagedPipeline)
        requires
            old(self).wf(),
        ensures
            final(self).wf(),
            !old(self).pipeline_live(h),
            !old(self).pipeline_dead(h),
            final(self).pipeline_live(h),
            final(self).pipeline_at(h) == (PipelineRecord {
                native,
                pipeline_type: ptype,
                shaders,
                base_name: None::<String>,
                iteration: 0u64,
            }),
            final(self).pipeline_map() == old(self).pipeline_map().insert(
                h.raw,
                PipelineRecord {
                    native,
                    pipeline_type: ptype,
                    shaders,
                    base_name: None::<String>,
                    iteration: 0u64,
                },
            ),
            forall|h2: ManagedPipeline|
                #[trigger] old(self).pipeline_live(h2) ==> final(self).pipeline_live(h2) && final(self).pipeline_at(h2) == old(self).pipeline_at(h2),
            forall|h2: ManagedPipeline|
                #[trigger] old(self).pipeline_dead(h2) ==> final(self).pipeline_dead(h2),
    {
        let rec = PipelineRecord {
            native,
            pipeline_type: ptype,
            shaders,
            base_name: None,
            iteration: 0,
        };
        let raw = self.pipelines.insert(rec);
        ManagedPipeline { raw }
    }

    /// The current native pipeline behind a live handle.
    pub fn pipeline_handle(&self, h: ManagedPipeline) -> (r: Option<P>)
        requires
            self.wf(),
        ensures
            r is Some <==> self.pipeline_live(h),
            self.pipeline_live(h) ==> r == Some(self.pipeline_at(h).native),
    {
        match self.pipelines.get(h.raw) {
            Some(rec) => Some(rec.native),
            None => None,
        }
    }

    /// The recipe a live pipeline was built from.
    pub fn pipeline_recipe(&self, h: ManagedPipeline) -> (r: Option<&Vec<ShaderDesc>>)
        requires
            self.wf(),
        ensures
            r is Some <==> self.pipeline_live(h),
            self.pipeline_live(h) ==> r == Some(&self.pipeline_at(h).shaders),
    {
        match self.pipelines.get(h.raw) {
            Some(rec) => Some(&rec.shaders),
            None => None,
        }
    }

    /// The kind a live pipeline resolved to.
    pub fn pipeline_kind(&self, h: ManagedPipeline) -> (r: Option<PipelineType>)
        requires
            self.wf(),
        ensures
            r is Some <==> self.pipeline_live(h),
            self.pipeline_live(h) ==> r == Some(self.pipeline_at(h).pipeline_type),
    {
        match self.pipelines.get(h.raw) {
            Some(rec) => Some(rec.pipeline_type),
            None => None,
        }
    }

    /// Every live pipeline handle, each exactly once.
    pub fn live_pipelines(&self) -> (r: Vec<ManagedPipeline>)
        requires
            self.wf(),
        ensures
            forall|j: int| 0 <= j < r.len() ==> self.pipeline_live(#[trigger] r@[j]),
            forall|h: ManagedPipeline| #[trigger] self.pipeline_live(h) ==> r@.contains(h),
            forall|j1: int, j2: int|
                0 <= j1 < r.len() && 0 <= j2 < r.len() && j1 != j2 ==> r@[j1] != r@[j2],
    {
        let raws = self.pipelines.handles();
        let mut out: Vec<ManagedPipeline> = Vec::new();
        let mut i: usize = 0;
        let n = raws.len();
        while i < n
            invariant
                n == raws@.len(),
                i <= n,
                out@.len() == i,
                forall|j: int| 0 <= j < i ==> (#[trigger] out@[j]).raw == raws@[j],
            decreases n - i,
        {
            let raw = raws[i];
            out.push(ManagedPipeline { raw });
            i = i + 1;
        }
        proof {
            assert forall|j: int| 0 <= j < out.len() implies self.pipeline_live(
                #[trigger] out@[j],
            ) by {
                assert(self.pipelines.live(raws@[j]));
            }
            assert forall|h: ManagedPipeline| #[trigger] self.pipeline_live(h) implies
                out@.contains(h) by {
                assert(raws@.contains(h.raw));
                let j = choose|j: int| 0 <= j < raws@.len() && raws@[j] == h.raw;
                assert(out@[j] == h);
            }
            assert forall|j1: int, j2: int|
                0 <= j1 < out.len() && 0 <= j2 < out.len() && j1 != j2 implies out@[j1]
                != out@[j2] by {
                assert(raws@[j1] != raws@[j2]);
            }
        }
        out
    }

    /// Apply the outcome of rebuilding one pipeline from its stored recipe.
    /// On success the live native pipeline is atomically replaced and the
    /// reload iteration advances; on any failure — or a stale handle — the
    /// manager is left completely untouched, so the old pipeline stays
    /// bound-usable. Reports whether the pipeline was replaced.
    pub fn apply_reload<D>(&mut self, h: ManagedPipeline, outcome: Result<P, Error<D>>) -> (r:
        bool)
        requires
            old(self).wf(),
        ensures
            final(self).wf(),
            outcome matches Err(e) ==> (*final(self) == *old(self) && r == false),
            !old(self).pipeline_live(h) ==> (*final(self) == *old(self) && r == false),
            outcome matches Ok(p) ==> (old(self).pipeline_live(h) ==> (r == true && final(self).pipeline_live(h) && final(self).pipeline_at(h) == (PipelineRecord {
                native: p,
                pipeline_type: old(self).pipeline_at(h).pipeline_type,
                shaders: old(self).pipeline_at(h).shaders,
                base_name: old(self).pipeline_at(h).base_name,
                iteration: spec_next_iteration(old(self).pipeline_at(h).iteration),
            }) && final(self).pipeline_map() == old(self).pipeline_map().insert(
                h.raw,
                final(self).pipeline_at(h),
            ))),
            forall|h2: ManagedPipeline| final(self).pipeline_live(h2) == old(self).pipeline_live(h2),
            forall|h2: ManagedPipeline| final(self).pipeline_dead(h2) == old(self).pipeline_dead(h2),
            forall|h2: ManagedPipeline|
                h2 != h && #[trigger] old(self).pipeline_live(h2) ==> final(self).pipeline_at(h2)
                    == old(self).pipeline_at(h2),
    {
        let native = match outcome {
            Err(_) => {
                return false;
            },
            Ok(p) => p,
        };
        match self.pipelines.get_mut(h.raw) {
            None => false,
            Some(rec) => {
                rec.native = native;
                if rec.iteration < u64::MAX {
                    rec.iteration = rec.iteration + 1;
                }
                true
            },
        }
    }

    /// Set or overwrite the pipeline's base name and hand back the native
    /// pipeline together with the debug label to apply to it. A stale
    /// handle is a silent no-op.
    pub fn assign_label(&mut self, h: ManagedPipeline, label: String) -> (r: Option<(P, String)>)
        requires
            old(self).wf(),
        ensures
            final(self).wf(),
            !old(self).pipeline_live(h) ==> (r is None && *final(self) == *old(self)),
            old(self).pipeline_live(h) ==> (r matches Some(pair) && pair.0 == old(self).pipeline_at(h).native && pair.1@ == spec_label(
                label@,
                old(self).pipeline_at(h).iteration as int,
            ) && final(self).pipeline_live(h) && final(self).pipeline_at(h) == (PipelineRecord {
                native: old(self).pipeline_at(h).native,
                pipeline_type: old(self).pipeline_at(h).pipeline_type,
                shaders: old(self).pipeline_at(h).shaders,
                base_name: Some(label),
                iteration: old(self).pipeline_at(h).iteration,
            })),
            forall|h2: ManagedPipeline| final(self).pipeline_live(h2) == old(self).pipeline_live(h2),
            forall|h2: ManagedPipeline| final(self).pipeline_dead(h2) == old(self).pipeline_dead(h2),
            forall|h2: ManagedPipeline|
                h2 != h && #[trigger] old(self).pipeline_live(h2) ==> final(self).pipeline_at(h2)
                    == old(self).pipeline_at(h2),
    {
        match self.pipelines.get_mut(h.raw) {
            None => None,
            Some(rec) => {
                let text = pipeline_label(label.as_str(), rec.iteration);
                let native = rec.native;
                rec.base_name = Some(label);
                Some((native, text))
            },
        }
    }

    /// The native pipeline and current debug label of a named live
    /// pipeline; nothing for a stale handle or an unnamed pipeline.
    pub fn current_label(&self, h: ManagedPipeline) -> (r: Option<(P, String)>)
        requires
            self.wf(),
        ensures
            r is Some <==> (self.pipeline_live(h) && self.pipeline_at(h).base_name is Some),
            self.pipeline_live(h) ==> (self.pipeline_at(h).base_name matches Some(b) ==> (
            r matches Some(pair) && pair.0 == self.pipeline_at(h).native && pair.1@ == spec_label(
                b@,
                self.pipeline_at(h).iteration as int,
            ))),
    {
        match self.pipelines.get(h.raw) {
            None => None,
            Some(rec) => match &rec.base_name {
                None => None,
                Some(b) => Some((rec.native, pipeline_label(b.as_str(), rec.iteration))),
            },
        }
    }

    /// Resolve a handle for a device operation on the pipeline: the native
    /// pipeline, or `MissingPipeline` for a stale handle.
    pub fn resolve_pipeline<D>(&self, h: ManagedPipeline) -> (r: Result<P, Error<D>>)
        requires
            self.wf(),
        ensures
            self.pipeline_live(h) ==> r == Ok::<P, Error<D>>(self.pipeline_at(h).native),
            !self.pipeline_live(h) ==> r == Err::<P, Error<D>>(Error::MissingPipeline),
    {
        match self.pipelines.get(h.raw) {
            Some(rec) => Ok(rec.native),
            None => Err(Error::MissingPipeline),
        }
    }

    /// Delete the pipeline, handing back the native pipeline to release;
    /// `MissingPipeline` for a handle that no longer resolves.
    pub fn delete_pipeline<D>(&mut self, h: ManagedPipeline) -> (r: Result<P, Error<D>>)
        requires
            old(self).wf(),
        ensures
            final(self).wf(),
            old(self).pipeline_live(h) ==> (r == Ok::<P, Error<D>>(old(self).pipeline_at(h).native)
                && final(self).pipeline_dead(h) && final(self).pipeline_map() == old(self).pipeline_map().remove(h.raw)),
            !old(self).pipeline_live(h) ==> (r == Err::<P, Error<D>>(Error::MissingPipeline) && *final(self) == *old(self)),
            forall|h2: ManagedPipeline|
                h2 != h && #[trigger] old(self).pipeline_live(h2) ==> final(self).pipeline_live(h2)
                    && final(self).pipeline_at(h2) == old(self).pipeline_at(h2),
            forall|h2: ManagedPipeline|
                #[trigger] old(self).pipeline_dead(h2) ==> final(self).pipeline_dead(h2),
    {
        match self.pipelines.remove(h.raw) {
            Some(rec) => Ok(rec.native),
            None => Err(Error::MissingPipeline),
        }
    }

    /// Destroy every managed pipeline's bookkeeping and hand back the native
    /// pipelines to release: exactly the natives of the entries that were
    /// live. Every old handle goes dead.
    pub fn clear(&mut self) -> (r: Vec<P>)
        requires
            old(self).wf(),
        ensures
            final(self).wf(),
            forall|h: ManagedPipeline| !final(self).pipeline_live(h),
            forall|h: ManagedPipeline|
                #[trigger] old(self).pipeline_live(h) || #[trigger] old(self).pipeline_dead(h)
                    ==> final(self).pipeline_dead(h),
            forall|p: P| #[trigger] r@.contains(p) ==> old(self).is_live_pipeline_native(p),
            forall|h: ManagedPipeline|
                #[trigger] old(self).pipeline_live(h) ==> r@.contains(
                    old(self).pipeline_at(h).native,
                ),
    {
        let entries = self.pipelines.drain();
        let mut natives: Vec<P> = Vec::new();
        let mut i: usize = 0;
        let n = entries.len();
        while i < n
            invariant
                n == entries.len(),
                i <= n,
                natives@.len() == i,
                forall|j: int| 0 <= j < i ==> natives@[j] == entries@[j].1.native,
            decreases n - i,
        {
            let native = entries[i].1.native;
            natives.push(native);
            i = i + 1;
        }
        proof {
            assert forall|p: P| #[trigger] natives@.contains(p) implies old(self).is_live_pipeline_native(p) by {
                let j = choose|j: int| 0 <= j < natives@.len() && natives@[j] == p;
                let h = ManagedPipeline { raw: entries@[j].0 };
                assert(old(self).pipelines.live(entries@[j].0));
                assert(old(self).pipeline_live(h) && old(self).pipeline_at(h).native == p);
            }
            assert forall|h: ManagedPipeline| #[trigger] old(self).pipeline_live(h) implies
                natives@.contains(old(self).pipeline_at(h).native) by {
                let j = choose|j: int| 0 <= j < entries@.len() && entries@[j].0 == h.raw;
                assert(old(self).pipelines.live(entries@[j].0));
                assert(natives@[j] == old(self).pipeline_at(h).native);
            }
        }
        natives
    }
}

} // verus!
