use grr_util::shader_manager::collect_shaders;
use grr_util::shader_manager::guess_stage;
use grr_util::shader_manager::pipeline_label;
use grr_util::shader_manager::resolve_compile;
use grr_util::shader_manager::resolve_link;
use grr_util::shader_manager::resolve_pipeline_type;
use grr_util::shader_manager::resolve_source_text;
use grr_util::shader_manager::shader_descs_from_files;
use grr_util::shader_manager::CompileOutcome;
use grr_util::shader_manager::Error;
use grr_util::shader_manager::LinkOutcome;
use grr_util::shader_manager::PipelineType;
use grr_util::shader_manager::ShaderDesc;
use grr_util::shader_manager::ShaderManager;
use grr_util::shader_manager::ShaderSource;
use grr_util::shader_manager::ShaderStage;

type Mgr = ShaderManager<u64>;

fn raw(stage: ShaderStage) -> ShaderDesc {
    ShaderDesc::from_raw(String::from("void main() {}"), stage)
}

#[test]
fn guess_stage_by_extension() {
    assert_eq!(guess_stage::<u32>(String::from("a.vert")), Ok(ShaderStage::Vertex));
    assert_eq!(guess_stage::<u32>(String::from("a.frag")), Ok(ShaderStage::Fragment));
    assert_eq!(guess_stage::<u32>(String::from("a.comp")), Ok(ShaderStage::Compute));
    assert_eq!(guess_stage::<u32>(String::from("a.geom")), Ok(ShaderStage::Geometry));
    assert_eq!(guess_stage::<u32>(String::from("a.tesc")), Ok(ShaderStage::TessellationControl));
    assert_eq!(
        guess_stage::<u32>(String::from("a.tese")),
        Ok(ShaderStage::TessellationEvaluation)
    );
    assert_eq!(guess_stage::<u32>(String::from("a.mesh")), Ok(ShaderStage::MeshNv));
    assert_eq!(guess_stage::<u32>(String::from("a.task")), Ok(ShaderStage::TaskNv));
}

#[test]
fn guess_stage_strips_generic_suffix() {
    assert_eq!(guess_stage::<u32>(String::from("s/a.vert.glsl")), Ok(ShaderStage::Vertex));
    assert_eq!(guess_stage::<u32>(String::from("a.frag.glsl.glsl")), Ok(ShaderStage::Fragment));
}

#[test]
fn guess_stage_unknown() {
    let r = guess_stage::<u32>(String::from("notes.txt"));
    assert!(matches!(r, Err(Error::UnknownStage(p)) if p == "notes.txt"));
    let r = guess_stage::<u32>(String::from("a.glsl"));
    assert!(matches!(r, Err(Error::UnknownStage(_))));
}

#[test]
fn compute_only_list_infers_compute_kind() {
    // kind inference order: a compute-only list resolves to compute, never
    // graphics or mesh
    let shaders = vec![raw(ShaderStage::Compute)];
    assert_eq!(resolve_pipeline_type::<u32>(&shaders, None), Ok(PipelineType::Compute));
}

#[test]
fn kind_resolution_rules() {
    let gfx = vec![raw(ShaderStage::Vertex), raw(ShaderStage::Fragment)];
    assert_eq!(resolve_pipeline_type::<u32>(&gfx, None), Ok(PipelineType::Graphics));
    let mesh = vec![raw(ShaderStage::MeshNv), raw(ShaderStage::Fragment)];
    assert_eq!(resolve_pipeline_type::<u32>(&mesh, None), Ok(PipelineType::Mesh));
    let empty: Vec<ShaderDesc> = vec![];
    assert!(matches!(resolve_pipeline_type::<u32>(&empty, None), Err(Error::NoShadersToLink)));
    let bad = vec![raw(ShaderStage::Vertex), raw(ShaderStage::Compute)];
    assert!(matches!(
        resolve_pipeline_type::<u32>(&bad, None),
        Err(Error::IncompatibleShaderTypes)
    ));
    let forced = vec![raw(ShaderStage::Vertex)];
    assert!(matches!(
        resolve_pipeline_type::<u32>(&forced, Some(PipelineType::Compute)),
        Err(Error::IncompatibleShaderTypes)
    ));
    assert_eq!(
        resolve_pipeline_type::<u32>(&forced, Some(PipelineType::Graphics)),
        Ok(PipelineType::Graphics)
    );
}

#[test]
fn source_text_resolution() {
    let lit = ShaderDesc::from_raw(String::from("code"), ShaderStage::Vertex);
    assert_eq!(resolve_source_text::<u32>(lit, None), Ok(String::from("code")));
    let file = ShaderDesc::from_file(String::from("a.vert"), ShaderStage::Vertex);
    assert_eq!(
        resolve_source_text::<u32>(file, Some(String::from("text"))),
        Ok(String::from("text"))
    );
    let file = ShaderDesc::from_file(String::from("a.vert"), ShaderStage::Vertex);
    let r = resolve_source_text::<u32>(file, None);
    assert!(matches!(r, Err(Error::FileError(p)) if p == "a.vert"));
}

#[test]
fn compile_outcomes_map_to_errors() {
    let desc = ShaderDesc::from_raw(String::from("bad"), ShaderStage::Vertex);
    let r = resolve_compile::<u64, u32>(desc, CompileOutcome::CompileFailed(String::from("log")));
    assert!(matches!(
        r,
        Err(Error::CompilationError(ShaderSource::Literal(src), log))
            if src == "bad" && log == "log"
    ));
    let desc = ShaderDesc::from_raw(String::from("ok"), ShaderStage::Vertex);
    assert_eq!(resolve_compile::<u64, u32>(desc, CompileOutcome::Success(5)), Ok(5));
    let desc = ShaderDesc::from_raw(String::from("x"), ShaderStage::Vertex);
    let r = resolve_compile::<u64, u32>(desc, CompileOutcome::Device(9));
    assert!(matches!(r, Err(Error::Device(9))));
}

#[test]
fn link_outcomes_map_to_errors() {
    assert_eq!(resolve_link::<u64, u32>(LinkOutcome::Success(4)), Ok(4));
    let r = resolve_link::<u64, u32>(LinkOutcome::LinkFailed(String::from("linklog")));
    assert!(matches!(r, Err(Error::LinkError(log)) if log == "linklog"));
    let r = resolve_link::<u64, u32>(LinkOutcome::Device(3));
    assert!(matches!(r, Err(Error::Device(3))));
}

#[test]
fn collect_shaders_first_error_wins() {
    let all: Vec<Result<u64, Error<u32>>> = vec![Ok(1), Ok(2), Ok(3)];
    assert_eq!(collect_shaders(all), Ok(vec![1, 2, 3]));
    let mixed: Vec<Result<u64, Error<u32>>> = vec![
        Ok(1),
        Err(Error::LinkError(String::from("first"))),
        Err(Error::LinkError(String::from("second"))),
    ];
    let r = collect_shaders(mixed);
    assert!(matches!(r, Err(Error::LinkError(log)) if log == "first"));
}

#[test]
fn descs_from_files() {
    let paths = vec![String::from("a.vert"), String::from("b.frag")];
    let descs = shader_descs_from_files::<u32>(paths).unwrap();
    assert_eq!(descs.len(), 2);
    assert_eq!(descs[0].stage(), ShaderStage::Vertex);
    assert_eq!(descs[1].stage(), ShaderStage::Fragment);
    assert!(matches!(descs[0].source(), ShaderSource::SourceFile(p) if p == "a.vert"));
    let paths = vec![String::from("a.vert"), String::from("b.mystery")];
    let r = shader_descs_from_files::<u32>(paths);
    assert!(matches!(r, Err(Error::UnknownStage(p)) if p == "b.mystery"));
}

#[test]
fn install_and_resolve_pipeline() {
    let mut m: Mgr = Mgr::new();
    let shaders = vec![raw(ShaderStage::Compute)];
    let h = m.install_pipeline(shaders, PipelineType::Compute, 11);
    assert_eq!(m.pipeline_handle(h), Some(11));
    assert_eq!(m.pipeline_kind(h), Some(PipelineType::Compute));
    assert_eq!(m.pipeline_recipe(h).unwrap().len(), 1);
    assert_eq!(m.resolve_pipeline::<u32>(h), Ok(11));
}

#[test]
fn reload_failure_leaves_pipeline_untouched() {
    // pipeline atomicity: a failed reload keeps the old native pipeline
    let mut m: Mgr = Mgr::new();
    let h = m.install_pipeline(vec![raw(ShaderStage::Compute)], PipelineType::Compute, 11);
    let before = m.pipeline_handle(h);
    let swapped = m.apply_reload::<u32>(
        h,
        Err(Error::CompilationError(
            ShaderSource::Literal(String::from("bad")),
            String::from("log"),
        )),
    );
    assert!(!swapped);
    assert_eq!(m.pipeline_handle(h), before);
    assert_eq!(m.pipeline_handle(h), Some(11));
}

#[test]
fn reload_success_swaps_pipeline() {
    let mut m: Mgr = Mgr::new();
    let h = m.install_pipeline(vec![raw(ShaderStage::Compute)], PipelineType::Compute, 11);
    let swapped = m.apply_reload::<u32>(h, Ok(12));
    assert!(swapped);
    assert_eq!(m.pipeline_handle(h), Some(12));
    assert_eq!(m.pipeline_kind(h), Some(PipelineType::Compute));
}

#[test]
fn labels_carry_reload_iteration() {
    let mut m: Mgr = Mgr::new();
    let h = m.install_pipeline(vec![raw(ShaderStage::Compute)], PipelineType::Compute, 11);
    let (native, text) = m.assign_label(h, String::from("blur")).unwrap();
    assert_eq!(native, 11);
    assert_eq!(text, "blur RL0");
    m.apply_reload::<u32>(h, Ok(12));
    let (native, text) = m.current_label(h).unwrap();
    assert_eq!(native, 12);
    assert_eq!(text, "blur RL1");
}

#[test]
fn label_text_format() {
    assert_eq!(pipeline_label("p", 0), "p RL0");
    assert_eq!(pipeline_label("shadow pass", 1234567890), "shadow pass RL1234567890");
}

#[test]
fn live_pipelines_enumerates_entries() {
    let mut m: Mgr = Mgr::new();
    let a = m.install_pipeline(vec![raw(ShaderStage::Compute)], PipelineType::Compute, 1);
    let b = m.install_pipeline(vec![raw(ShaderStage::Vertex)], PipelineType::Graphics, 2);
    m.delete_pipeline::<u32>(a).unwrap();
    let live = m.live_pipelines();
    assert_eq!(live.len(), 1);
    assert!(live.contains(&b));
}

#[test]
fn delete_pipeline_fails_on_stale_handle() {
    let mut m: Mgr = Mgr::new();
    let h = m.install_pipeline(vec![raw(ShaderStage::Compute)], PipelineType::Compute, 1);
    assert_eq!(m.delete_pipeline::<u32>(h), Ok(1));
    assert!(matches!(m.delete_pipeline::<u32>(h), Err(Error::MissingPipeline)));
    assert!(matches!(m.resolve_pipeline::<u32>(h), Err(Error::MissingPipeline)));
}

#[test]
fn clear_destroys_all_pipelines() {
    let mut m: Mgr = Mgr::new();
    let a = m.install_pipeline(vec![raw(ShaderStage::Compute)], PipelineType::Compute, 1);
    let b = m.install_pipeline(vec![raw(ShaderStage::Vertex)], PipelineType::Graphics, 2);
    let mut natives = m.clear();
    natives.sort();
    assert_eq!(natives, vec![1, 2]);
    assert_eq!(m.pipeline_handle(a), None);
    assert_eq!(m.pipeline_handle(b), None);
}
