//! The model-platform registry: models, runtimes, task bindings, capability
//! manifests, benchmark results and the production promotion gate.
//!
//! The service holds the registry in memory; the caller persists the new
//! registry after every successful change.
use vstd::prelude::*;
use crate::domain::{
    metadata_get, metadata_insert, metadata_lookup, metadata_pairs, BenchmarkGateState,
    BenchmarkResultSummary, CapabilityManifest, CapabilitySet, CapabilitySupport, MetadataEntry,
    ModelCapabilities, ModelCapabilityKind, ModelDefinition, ModelDefinitionView, ModelFormat,
    ModelLifecycleState, ModelPlatformConfig, ModelTaskKind, RuntimeDefinition, TaskModelBinding,
    TaskProfile,
};
use crate::errors::{app_error, concat, AppError, AppErrorCode};
use crate::fingerprint::{
    fingerprint_model_definition, fingerprint_runtime_definition, spec_model_fingerprint,
    spec_runtime_fingerprint,
};
use crate::seqs::{
    first_index, lemma_filter_keeps, lemma_filter_push, lemma_filter_subset, lemma_first_index,
    lemma_first_index_is, lemma_first_index_none, upsert,
};
use crate::text::{
    normalize_id, normalize_id_spec, signed_decimal, signed_decimal_string, str_eq, trim, trim_str,
};

verus! {

// ---------------------------------------------------------------------------
// Registry constants
// ---------------------------------------------------------------------------
pub open spec fn spec_schema_version() -> Seq<char> {
    "1"@
}

/// The registry schema version this library reads and writes.
pub fn model_platform_schema_version() -> (r: &'static str)
    ensures
        r@ == spec_schema_version(),
{
    "1"
}

pub open spec fn spec_required_capabilities(kind: ModelTaskKind) -> CapabilitySet {
    let vision = match kind {
        ModelTaskKind::QuestionTextExtraction | ModelTaskKind::RubricExtraction
        | ModelTaskKind::StudentAnswerOcr | ModelTaskKind::StudentAnswerOcrIssueCorrection => true,
        _ => false,
    };
    CapabilitySet {
        text: true,
        vision: vision,
        structured_json: true,
        json_schema: false,
        thinking_control: false,
        multimodal_projector: vision,
    }
}

/// The capabilities every task kind requires: text and structured JSON, plus
/// vision and the multimodal projector for the image-reading tasks.
pub fn default_required_capabilities(kind: ModelTaskKind) -> (r: CapabilitySet)
    ensures
        r == spec_required_capabilities(kind),
{
    let vision = match kind {
        ModelTaskKind::QuestionTextExtraction | ModelTaskKind::RubricExtraction
        | ModelTaskKind::StudentAnswerOcr | ModelTaskKind::StudentAnswerOcrIssueCorrection => true,
        _ => false,
    };
    CapabilitySet {
        text: true,
        vision: vision,
        structured_json: true,
        json_schema: false,
        thinking_control: false,
        multimodal_projector: vision,
    }
}

pub open spec fn spec_all_task_kinds() -> Seq<ModelTaskKind> {
    seq![
        ModelTaskKind::QuestionTextExtraction,
        ModelTaskKind::RubricExtraction,
        ModelTaskKind::StudentAnswerOcr,
        ModelTaskKind::StudentAnswerOcrIssueCorrection,
        ModelTaskKind::SemanticScoring,
        ModelTaskKind::SpeakingTranscriptCleanup,
        ModelTaskKind::SpeakingEvaluation,
        ModelTaskKind::Analysis,
        ModelTaskKind::GeneralText,
    ]
}

/// The nine task kinds in declaration order.
pub fn all_task_kinds() -> (r: Vec<ModelTaskKind>)
    ensures
        r@ == spec_all_task_kinds(),
{
    vec![
        ModelTaskKind::QuestionTextExtraction,
        ModelTaskKind::RubricExtraction,
        ModelTaskKind::StudentAnswerOcr,
        ModelTaskKind::StudentAnswerOcrIssueCorrection,
        ModelTaskKind::SemanticScoring,
        ModelTaskKind::SpeakingTranscriptCleanup,
        ModelTaskKind::SpeakingEvaluation,
        ModelTaskKind::Analysis,
        ModelTaskKind::GeneralText,
    ]
}

/// One task profile per task kind, in declaration order, each with the
/// capabilities its kind requires.
pub open spec fn is_default_task_profiles(r: Seq<TaskProfile>) -> bool {
    &&& r.len() == 9
    &&& forall|i: int|
        0 <= i < 9 ==> (#[trigger] r[i]).id@ == spec_all_task_kinds()[i].spec_id()
            && r[i].required_capabilities == spec_required_capabilities(spec_all_task_kinds()[i])
}

/// The default registry: the current schema version, the default task
/// profiles and nothing else.
pub open spec fn is_default_platform_config(c: ModelPlatformConfig) -> bool {
    &&& c.schema_version@ == spec_schema_version()
    &&& c.models@.len() == 0
    &&& c.runtimes@.len() == 0
    &&& c.bindings@.len() == 0
    &&& c.capability_manifests@.len() == 0
    &&& c.benchmark_results@.len() == 0
    &&& is_default_task_profiles(c.task_profiles@)
}

/// One task profile per task kind, in declaration order.
pub fn default_task_profiles() -> (r: Vec<TaskProfile>)
    ensures
        is_default_task_profiles(r@),
{
    let kinds = all_task_kinds();
    let mut r: Vec<TaskProfile> = Vec::new();
    let mut i: usize = 0;
    while i < kinds.len()
        invariant
            i <= kinds.len(),
            kinds@ == spec_all_task_kinds(),
            r@.len() == i,
            forall|j: int|
                0 <= j < i ==> (#[trigger] r@[j]).id@ == spec_all_task_kinds()[j].spec_id()
                    && r@[j].required_capabilities == spec_required_capabilities(
                    spec_all_task_kinds()[j],
                ),
        decreases kinds.len() - i,
    {
        let kind = kinds[i];
        r.push(
            TaskProfile {
                id: kind.id().to_owned(),
                required_capabilities: default_required_capabilities(kind),
            },
        );
        i = i + 1;
    }
    r
}

/// An empty registry at the current schema version with the default task
/// profiles.
pub fn default_platform_config() -> (c: ModelPlatformConfig)
    ensures
        is_default_platform_config(c),
{
    ModelPlatformConfig {
        schema_version: model_platform_schema_version().to_owned(),
        models: Vec::new(),
        runtimes: Vec::new(),
        task_profiles: default_task_profiles(),
        bindings: Vec::new(),
        capability_manifests: Vec::new(),
        benchmark_results: Vec::new(),
    }
}

// ---------------------------------------------------------------------------
// Lookups
// ---------------------------------------------------------------------------
pub open spec fn model_has_id(id: Seq<char>) -> spec_fn(ModelDefinition) -> bool {
    |m: ModelDefinition| m.id@ == id
}

pub open spec fn runtime_has_id(id: Seq<char>) -> spec_fn(RuntimeDefinition) -> bool {
    |r: RuntimeDefinition| r.id@ == id
}

pub open spec fn task_has_id(id: Seq<char>) -> spec_fn(TaskProfile) -> bool {
    |t: TaskProfile| t.id@ == id
}

pub open spec fn binding_has_id(id: Seq<char>) -> spec_fn(TaskModelBinding) -> bool {
    |b: TaskModelBinding| b.id@ == id
}

pub open spec fn model_pos(c: ModelPlatformConfig, id: Seq<char>) -> int {
    first_index(c.models@, model_has_id(id))
}

pub open spec fn runtime_pos(c: ModelPlatformConfig, id: Seq<char>) -> int {
    first_index(c.runtimes@, runtime_has_id(id))
}

pub open spec fn task_pos(c: ModelPlatformConfig, id: Seq<char>) -> int {
    first_index(c.task_profiles@, task_has_id(id))
}

pub open spec fn binding_pos(c: ModelPlatformConfig, id: Seq<char>) -> int {
    first_index(c.bindings@, binding_has_id(id))
}

/// Position of the first model with this id.
pub fn find_model(models: &Vec<ModelDefinition>, id: &str) -> (r: Option<usize>)
    ensures
        match r {
            Some(i) => i < models@.len() && i as int == first_index(models@, model_has_id(id@)),
            None => first_index(models@, model_has_id(id@)) == -1,
        },
{
    let ghost p = model_has_id(id@);
    let mut i: usize = 0;
    while i < models.len()
        invariant
            i <= models.len(),
            p == model_has_id(id@),
            forall|j: int| 0 <= j < i ==> !p(#[trigger] models@[j]),
        decreases models.len() - i,
    {
        if str_eq(models[i].id.as_str(), id) {
            proof {
                lemma_first_index_is(models@, p, i as int);
            }
            return Some(i);
        }
        i = i + 1;
    }
    proof {
        lemma_first_index_none(models@, p);
    }
    None
}

/// Position of the first runtime with this id.
pub fn find_runtime(runtimes: &Vec<RuntimeDefinition>, id: &str) -> (r: Option<usize>)
    ensures
        match r {
            Some(i) => i < runtimes@.len() && i as int == first_index(runtimes@, runtime_has_id(id@)),
            None => first_index(runtimes@, runtime_has_id(id@)) == -1,
        },
{
    let ghost p = runtime_has_id(id@);
    let mut i: usize = 0;
    while i < runtimes.len()
        invariant
            i <= runtimes.len(),
            p == runtime_has_id(id@),
            forall|j: int| 0 <= j < i ==> !p(#[trigger] runtimes@[j]),
        decreases runtimes.len() - i,
    {
        if str_eq(runtimes[i].id.as_str(), id) {
            proof {
                lemma_first_index_is(runtimes@, p, i as int);
            }
            return Some(i);
        }
        i = i + 1;
    }
    proof {
        lemma_first_index_none(runtimes@, p);
    }
    None
}

/// Position of the first task profile with this id.
pub fn find_task_profile(tasks: &Vec<TaskProfile>, id: &str) -> (r: Option<usize>)
    ensures
        match r {
            Some(i) => i < tasks@.len() && i as int == first_index(tasks@, task_has_id(id@)),
            None => first_index(tasks@, task_has_id(id@)) == -1,
        },
{
    let ghost p = task_has_id(id@);
    let mut i: usize = 0;
    while i < tasks.len()
        invariant
            i <= tasks.len(),
            p == task_has_id(id@),
            forall|j: int| 0 <= j < i ==> !p(#[trigger] tasks@[j]),
        decreases tasks.len() - i,
    {
        if str_eq(tasks[i].id.as_str(), id) {
            proof {
                lemma_first_index_is(tasks@, p, i as int);
            }
            return Some(i);
        }
        i = i + 1;
    }
    proof {
        lemma_first_index_none(tasks@, p);
    }
    None
}

/// Position of the first binding with this id.
pub fn find_binding(bindings: &Vec<TaskModelBinding>, id: &str) -> (r: Option<usize>)
    ensures
        match r {
            Some(i) => i < bindings@.len() && i as int == first_index(bindings@, binding_has_id(id@)),
            None => first_index(bindings@, binding_has_id(id@)) == -1,
        },
{
    let ghost p = binding_has_id(id@);
    let mut i: usize = 0;
    while i < bindings.len()
        invariant
            i <= bindings.len(),
            p == binding_has_id(id@),
            forall|j: int| 0 <= j < i ==> !p(#[trigger] bindings@[j]),
        decreases bindings.len() - i,
    {
        if str_eq(bindings[i].id.as_str(), id) {
            proof {
                lemma_first_index_is(bindings@, p, i as int);
            }
            return Some(i);
        }
        i = i + 1;
    }
    proof {
        lemma_first_index_none(bindings@, p);
    }
    None
}

fn id_detail(prefix: &str, id: &str) -> (r: Option<String>)
    ensures
        r matches Some(s) && s@ == prefix@ + id@,
{
    Some(concat(prefix, id))
}

/// The first task profile with this id, or `ModelProfileNotFound`.
pub fn require_task_profile(store: &ModelPlatformConfig, id: &str) -> (r: Result<usize, AppError>)
    ensures
        match r {
            Ok(i) => i as int == task_pos(*store, id@) && i < store.task_profiles@.len(),
            Err(e) => task_pos(*store, id@) == -1 && e.code == AppErrorCode::ModelProfileNotFound,
        },
{
    proof {
        lemma_first_index(store.task_profiles@, task_has_id(id@));
    }
    match find_task_profile(&store.task_profiles, id) {
        Some(i) => Ok(i),
        None => Err(
            app_error(
                AppErrorCode::ModelProfileNotFound,
                "Task profile bulunamadı.",
                id_detail("task_profile_id=", id),
                Some("Model platform ayarlarını yenileyin.".to_owned()),
            ),
        ),
    }
}

/// The first model with this id, or `ModelProfileNotFound`.
pub fn require_model(store: &ModelPlatformConfig, id: &str) -> (r: Result<usize, AppError>)
    ensures
        match r {
            Ok(i) => i as int == model_pos(*store, id@) && i < store.models@.len(),
            Err(e) => model_pos(*store, id@) == -1 && e.code == AppErrorCode::ModelProfileNotFound,
        },
{
    proof {
        lemma_first_index(store.models@, model_has_id(id@));
    }
    match find_model(&store.models, id) {
        Some(i) => Ok(i),
        None => Err(
            app_error(
                AppErrorCode::ModelProfileNotFound,
                "Model registry kaydı bulunamadı.",
                id_detail("model_definition_id=", id),
                Some("Modeli yeniden ekleyin.".to_owned()),
            ),
        ),
    }
}

/// The first runtime with this id, or `ModelProfileNotFound`.
pub fn require_runtime(store: &ModelPlatformConfig, id: &str) -> (r: Result<usize, AppError>)
    ensures
        match r {
            Ok(i) => i as int == runtime_pos(*store, id@) && i < store.runtimes@.len(),
            Err(e) => runtime_pos(*store, id@) == -1 && e.code
                == AppErrorCode::ModelProfileNotFound,
        },
{
    proof {
        lemma_first_index(store.runtimes@, runtime_has_id(id@));
    }
    match find_runtime(&store.runtimes, id) {
        Some(i) => Ok(i),
        None => Err(
            app_error(
                AppErrorCode::ModelProfileNotFound,
                "Runtime registry kaydı bulunamadı.",
                id_detail("runtime_definition_id=", id),
                Some("Runtime ayarını yeniden oluşturun.".to_owned()),
            ),
        ),
    }
}

/// Whether the model carries the grandfathered-baseline mark.
pub fn is_grandfathered_baseline(model: &ModelDefinition) -> (r: bool)
    ensures
        r == model.spec_is_grandfathered(),
{
    match metadata_lookup(&model.metadata, "baselineVerified") {
        Some(v) => str_eq(v.as_str(), "true"),
        None => false,
    }
}

/// The task kind whose id is `id`.
pub fn task_kind_for_id(id: &str) -> (r: Option<ModelTaskKind>)
    ensures
        match r {
            Some(k) => k.spec_id() == id@ && exists|i: int|
                0 <= i < 9 && spec_all_task_kinds()[i] == k && forall|j: int|
                    0 <= j < i ==> spec_all_task_kinds()[j].spec_id() != id@,
            None => forall|k: ModelTaskKind| k.spec_id() != id@,
        },
{
    let kinds = all_task_kinds();
    let mut i: usize = 0;
    while i < kinds.len()
        invariant
            i <= kinds.len(),
            kinds@ == spec_all_task_kinds(),
            forall|j: int| 0 <= j < i ==> (#[trigger] spec_all_task_kinds()[j]).spec_id() != id@,
        decreases kinds.len() - i,
    {
        let k = kinds[i];
        if str_eq(k.id(), id) {
            return Some(k);
        }
        i = i + 1;
    }
    assert forall|k: ModelTaskKind| k.spec_id() != id@ by {
        match k {
            ModelTaskKind::QuestionTextExtraction => assert(spec_all_task_kinds()[0] == k),
            ModelTaskKind::RubricExtraction => assert(spec_all_task_kinds()[1] == k),
            ModelTaskKind::StudentAnswerOcr => assert(spec_all_task_kinds()[2] == k),
            ModelTaskKind::StudentAnswerOcrIssueCorrection => assert(spec_all_task_kinds()[3]
                == k),
            ModelTaskKind::SemanticScoring => assert(spec_all_task_kinds()[4] == k),
            ModelTaskKind::SpeakingTranscriptCleanup => assert(spec_all_task_kinds()[5] == k),
            ModelTaskKind::SpeakingEvaluation => assert(spec_all_task_kinds()[6] == k),
            ModelTaskKind::Analysis => assert(spec_all_task_kinds()[7] == k),
            ModelTaskKind::GeneralText => assert(spec_all_task_kinds()[8] == k),
        }
    }
    None
}

/// The capabilities a task profile requires.
pub fn required_capabilities_for_task(task: &TaskProfile) -> (r: CapabilitySet)
    ensures
        r == task.required_capabilities,
{
    task.required_capabilities
}

// ---------------------------------------------------------------------------
// Filters used when results are superseded
// ---------------------------------------------------------------------------
/// Manifests recorded for this model (and this runtime, when given).
pub open spec fn manifest_for(model: Seq<char>, runtime: Option<Seq<char>>) -> spec_fn(
    CapabilityManifest,
) -> bool {
    |m: CapabilityManifest|
        m.model_definition_id@ == model && match runtime {
            Some(r) => m.runtime_definition_id@ == r,
            None => true,
        }
}

pub open spec fn keep_manifest(model: Seq<char>, runtime: Option<Seq<char>>) -> spec_fn(
    CapabilityManifest,
) -> bool {
    |m: CapabilityManifest| !manifest_for(model, runtime)(m)
}

/// Benchmarks recorded for a model (and a task and runtime, when given).
pub open spec fn benchmark_for(
    task: Option<Seq<char>>,
    model: Seq<char>,
    runtime: Option<Seq<char>>,
) -> spec_fn(BenchmarkResultSummary) -> bool {
    |b: BenchmarkResultSummary|
        b.model_definition_id@ == model && match task {
            Some(t) => b.task_profile_id@ == t,
            None => true,
        } && match runtime {
            Some(r) => b.runtime_definition_id@ == r,
            None => true,
        }
}

pub open spec fn keep_benchmark(
    task: Option<Seq<char>>,
    model: Seq<char>,
    runtime: Option<Seq<char>>,
) -> spec_fn(BenchmarkResultSummary) -> bool {
    |b: BenchmarkResultSummary| !benchmark_for(task, model, runtime)(b)
}

pub open spec fn opt_view(o: Option<&str>) -> Option<Seq<char>> {
    match o {
        Some(s) => Some(s@),
        None => None,
    }
}

fn opt_matches(field: &String, want: Option<&str>) -> (r: bool)
    ensures
        r == match opt_view(want) {
            Some(w) => field@ == w,
            None => true,
        },
{
    match want {
        Some(w) => str_eq(field.as_str(), w),
        None => true,
    }
}

/// Drops the manifests of this model (and runtime, when given).
fn retain_manifests(v: &mut Vec<CapabilityManifest>, model: &str, runtime: Option<&str>)
    ensures
        final(v)@ == old(v)@.filter(keep_manifest(model@, opt_view(runtime))),
{
    let ghost q = keep_manifest(model@, opt_view(runtime));
    let ghost o = v@;
    let mut i: usize = 0;
    let mut k: usize = 0;
    assert(o.subrange(0, 0).filter(q) =~= Seq::<CapabilityManifest>::empty()) by {
        reveal(Seq::filter);
    }
    assert(o.subrange(0, o.len() as int) == o);
    let n = v.len();
    while k < n
        invariant
            n == o.len(),
            q == keep_manifest(model@, opt_view(runtime)),
            k <= o.len(),
            i == o.subrange(0, k as int).filter(q).len(),
            v@ == o.subrange(0, k as int).filter(q) + o.subrange(k as int, o.len() as int),
        decreases o.len() - k,
    {
        let ghost before = o.subrange(0, k as int);
        let ghost x = o[k as int];
        proof {
            assert(o.subrange(0, k + 1) == before.push(x));
            lemma_filter_push(before, q, x);
            assert(v@[i as int] == x);
        }
        let drop = str_eq(v[i].model_definition_id.as_str(), model) && opt_matches(
            &v[i].runtime_definition_id,
            runtime,
        );
        if drop {
            assert(!q(x));
            v.remove(i);
            assert(v@ =~= o.subrange(0, k + 1).filter(q) + o.subrange(k + 1, o.len() as int));
        } else {
            assert(q(x));
            assert(v@ =~= o.subrange(0, k + 1).filter(q) + o.subrange(k + 1, o.len() as int));
            i = i + 1;
        }
        k = k + 1;
    }
    assert(v@ =~= o.filter(q));
}

/// Drops the benchmarks of this model (and task and runtime, when given).
fn retain_benchmarks(
    v: &mut Vec<BenchmarkResultSummary>,
    task: Option<&str>,
    model: &str,
    runtime: Option<&str>,
)
    ensures
        final(v)@ == old(v)@.filter(keep_benchmark(opt_view(task), model@, opt_view(runtime))),
{
    let ghost q = keep_benchmark(opt_view(task), model@, opt_view(runtime));
    let ghost o = v@;
    let mut i: usize = 0;
    let mut k: usize = 0;
    assert(o.subrange(0, 0).filter(q) =~= Seq::<BenchmarkResultSummary>::empty()) by {
        reveal(Seq::filter);
    }
    assert(o.subrange(0, o.len() as int) == o);
    let n = v.len();
    while k < n
        invariant
            n == o.len(),
            q == keep_benchmark(opt_view(task), model@, opt_view(runtime)),
            k <= o.len(),
            i == o.subrange(0, k as int).filter(q).len(),
            v@ == o.subrange(0, k as int).filter(q) + o.subrange(k as int, o.len() as int),
        decreases o.len() - k,
    {
        let ghost before = o.subrange(0, k as int);
        let ghost x = o[k as int];
        proof {
            assert(o.subrange(0, k + 1) == before.push(x));
            lemma_filter_push(before, q, x);
            assert(v@[i as int] == x);
        }
        let drop = str_eq(v[i].model_definition_id.as_str(), model) && opt_matches(
            &v[i].task_profile_id,
            task,
        ) && opt_matches(&v[i].runtime_definition_id, runtime);
        if drop {
            assert(!q(x));
            v.remove(i);
            assert(v@ =~= o.subrange(0, k + 1).filter(q) + o.subrange(k + 1, o.len() as int));
        } else {
            assert(q(x));
            assert(v@ =~= o.subrange(0, k + 1).filter(q) + o.subrange(k + 1, o.len() as int));
            i = i + 1;
        }
        k = k + 1;
    }
    assert(v@ =~= o.filter(q));
}

// ---------------------------------------------------------------------------
// Current manifests and passing benchmarks
// ---------------------------------------------------------------------------
/// A manifest recorded for exactly this model/runtime pair and their current
/// fingerprints.
pub open spec fn manifest_is_current(
    model_id: Seq<char>,
    runtime_id: Seq<char>,
    model_fp: Seq<char>,
    runtime_fp: Seq<char>,
) -> spec_fn(CapabilityManifest) -> bool {
    |m: CapabilityManifest|
        m.model_definition_id@ == model_id && m.runtime_definition_id@ == runtime_id
            && m.model_fingerprint@ == model_fp && m.runtime_fingerprint@ == runtime_fp
}

/// A passing benchmark of a task on exactly one model/runtime pair and
/// their current fingerprints.
pub open spec fn benchmark_is_current_pass(
    task_id: Seq<char>,
    model_id: Seq<char>,
    runtime_id: Seq<char>,
    model_fp: Seq<char>,
    runtime_fp: Seq<char>,
) -> spec_fn(BenchmarkResultSummary) -> bool {
    |b: BenchmarkResultSummary|
        b.task_profile_id@ == task_id && b.model_definition_id@ == model_id
            && b.runtime_definition_id@ == runtime_id && b.model_fingerprint@ == model_fp
            && b.runtime_fingerprint@ == runtime_fp && b.state == BenchmarkGateState::Pass
}

/// Position of the first current manifest of a model/runtime pair.
pub fn find_current_manifest(
    manifests: &Vec<CapabilityManifest>,
    model_id: &str,
    runtime_id: &str,
    model_fp: &str,
    runtime_fp: &str,
) -> (r: Option<usize>)
    ensures
        match r {
            Some(i) => i < manifests@.len() && i as int == first_index(
                manifests@,
                manifest_is_current(model_id@, runtime_id@, model_fp@, runtime_fp@),
            ),
            None => first_index(
                manifests@,
                manifest_is_current(model_id@, runtime_id@, model_fp@, runtime_fp@),
            ) == -1,
        },
{
    let ghost p = manifest_is_current(model_id@, runtime_id@, model_fp@, runtime_fp@);
    let mut i: usize = 0;
    while i < manifests.len()
        invariant
            i <= manifests.len(),
            p == manifest_is_current(model_id@, runtime_id@, model_fp@, runtime_fp@),
            forall|j: int| 0 <= j < i ==> !p(#[trigger] manifests@[j]),
        decreases manifests.len() - i,
    {
        let m = &manifests[i];
        if str_eq(m.model_definition_id.as_str(), model_id) && str_eq(
            m.runtime_definition_id.as_str(),
            runtime_id,
        ) && str_eq(m.model_fingerprint.as_str(), model_fp) && str_eq(
            m.runtime_fingerprint.as_str(),
            runtime_fp,
        ) {
            proof {
                lemma_first_index_is(manifests@, p, i as int);
            }
            return Some(i);
        }
        i = i + 1;
    }
    proof {
        lemma_first_index_none(manifests@, p);
    }
    None
}

/// Some recorded result is a current passing benchmark of the task on the
/// model/runtime pair.
pub open spec fn has_current_pass(
    results: Seq<BenchmarkResultSummary>,
    task_id: Seq<char>,
    model_id: Seq<char>,
    runtime_id: Seq<char>,
    model_fp: Seq<char>,
    runtime_fp: Seq<char>,
) -> bool {
    exists|j: int|
        0 <= j < results.len() && benchmark_is_current_pass(
            task_id,
            model_id,
            runtime_id,
            model_fp,
            runtime_fp,
        )(#[trigger] results[j])
}

/// Whether a current passing benchmark exists.
pub fn has_current_pass_benchmark(
    results: &Vec<BenchmarkResultSummary>,
    task_id: &str,
    model_id: &str,
    runtime_id: &str,
    model_fp: &str,
    runtime_fp: &str,
) -> (r: bool)
    ensures
        r == has_current_pass(results@, task_id@, model_id@, runtime_id@, model_fp@, runtime_fp@),
{
    let ghost p = benchmark_is_current_pass(task_id@, model_id@, runtime_id@, model_fp@, runtime_fp@);
    let mut i: usize = 0;
    while i < results.len()
        invariant
            i <= results.len(),
            p == benchmark_is_current_pass(task_id@, model_id@, runtime_id@, model_fp@, runtime_fp@),
            forall|j: int| 0 <= j < i ==> !p(#[trigger] results@[j]),
        decreases results.len() - i,
    {
        let b = &results[i];
        if str_eq(b.task_profile_id.as_str(), task_id) && str_eq(
            b.model_definition_id.as_str(),
            model_id,
        ) && str_eq(b.runtime_definition_id.as_str(), runtime_id) && str_eq(
            b.model_fingerprint.as_str(),
            model_fp,
        ) && str_eq(b.runtime_fingerprint.as_str(), runtime_fp) && b.state
            == BenchmarkGateState::Pass {
            assert(p(results@[i as int]));
            return true;
        }
        i = i + 1;
    }
    false
}

// ---------------------------------------------------------------------------
// Values and their copies
// ---------------------------------------------------------------------------
pub open spec fn models_view(s: Seq<ModelDefinition>) -> Seq<ModelDefinitionView> {
    s.map_values(|m: ModelDefinition| m@)
}

pub open spec fn manifests_view(s: Seq<CapabilityManifest>) -> Seq<
    crate::domain::CapabilityManifestView,
> {
    s.map_values(|m: CapabilityManifest| m@)
}

/// Two registries with the same contents.
pub open spec fn same_config(a: ModelPlatformConfig, b: ModelPlatformConfig) -> bool {
    &&& a.schema_version == b.schema_version
    &&& models_view(a.models@) == models_view(b.models@)
    &&& a.runtimes@ == b.runtimes@
    &&& a.task_profiles@ == b.task_profiles@
    &&& a.bindings@ == b.bindings@
    &&& manifests_view(a.capability_manifests@) == manifests_view(b.capability_manifests@)
    &&& a.benchmark_results@ == b.benchmark_results@
}

fn clone_models(v: &Vec<ModelDefinition>) -> (r: Vec<ModelDefinition>)
    ensures
        models_view(r@) == models_view(v@),
{
    let mut r: Vec<ModelDefinition> = Vec::new();
    let mut i: usize = 0;
    while i < v.len()
        invariant
            i <= v.len(),
            r@.len() == i,
            forall|j: int| 0 <= j < i ==> (#[trigger] r@[j])@ == v@[j]@,
        decreases v.len() - i,
    {
        r.push(v[i].clone());
        i = i + 1;
    }
    assert(models_view(r@) =~= models_view(v@));
    r
}

fn clone_manifests(v: &Vec<CapabilityManifest>) -> (r: Vec<CapabilityManifest>)
    ensures
        manifests_view(r@) == manifests_view(v@),
{
    let mut r: Vec<CapabilityManifest> = Vec::new();
    let mut i: usize = 0;
    while i < v.len()
        invariant
            i <= v.len(),
            r@.len() == i,
            forall|j: int| 0 <= j < i ==> (#[trigger] r@[j])@ == v@[j]@,
        decreases v.len() - i,
    {
        r.push(v[i].clone());
        i = i + 1;
    }
    assert(manifests_view(r@) =~= manifests_view(v@));
    r
}

/// A copy of a registry.
pub fn clone_config(c: &ModelPlatformConfig) -> (r: ModelPlatformConfig)
    ensures
        same_config(r, *c),
{
    let runtimes = c.runtimes.clone();
    assert(runtimes@ =~= c.runtimes@);
    let task_profiles = c.task_profiles.clone();
    assert(task_profiles@ =~= c.task_profiles@);
    let bindings = c.bindings.clone();
    assert(bindings@ =~= c.bindings@);
    let benchmark_results = c.benchmark_results.clone();
    assert(benchmark_results@ =~= c.benchmark_results@);
    ModelPlatformConfig {
        schema_version: c.schema_version.clone(),
        models: clone_models(&c.models),
        runtimes,
        task_profiles,
        bindings,
        capability_manifests: clone_manifests(&c.capability_manifests),
        benchmark_results,
    }
}

// ---------------------------------------------------------------------------
// The registry service
// ---------------------------------------------------------------------------
/// Fields of a model import request.
#[derive(Debug)]
pub struct ImportModelInput {
    pub id: String,
    pub family: String,
    pub display_name: String,
    pub model_path: String,
    pub mmproj_path: Option<String>,
    pub quantization: Option<String>,
    pub context_limit: Option<u32>,
    pub declared_text: bool,
    pub declared_vision: bool,
    pub declared_structured_json: bool,
    pub declared_json_schema: bool,
    pub declared_thinking_control: bool,
}

/// Fields of a task binding request.
#[derive(Debug)]
pub struct BindTaskInput {
    pub task_profile_id: String,
    pub model_definition_id: String,
    pub runtime_definition_id: String,
    pub allow_experimental_student_data: bool,
}

/// Outcome of the production promotion gate.
#[derive(Debug)]
pub struct PromotionDecision {
    pub allowed: bool,
    pub model_definition_id: String,
    pub checked_task_profiles: Vec<String>,
    pub reasons: Vec<String>,
}

/// The registry and the path it is persisted to.
#[derive(Debug)]
pub struct ModelPlatformService {
    config_path: String,
    store: ModelPlatformConfig,
}

/// `new` replaced the first element satisfying `p` (or appended) by an
/// element satisfying `at`, and kept every other element.
pub open spec fn upserted<T>(
    old: Seq<T>,
    new: Seq<T>,
    p: spec_fn(T) -> bool,
    at: spec_fn(T) -> bool,
) -> bool {
    let i = first_index(old, p);
    if i >= 0 {
        &&& new.len() == old.len()
        &&& at(new[i])
        &&& forall|j: int| 0 <= j < old.len() && j != i ==> new[j] == old[j]
    } else {
        &&& new.len() == old.len() + 1
        &&& at(new[old.len() as int])
        &&& forall|j: int| 0 <= j < old.len() ==> new[j] == old[j]
    }
}

/// `x` is `m` with its definition fingerprint recorded in the metadata.
pub open spec fn fingerprinted(x: ModelDefinitionView, m: ModelDefinitionView) -> bool {
    &&& metadata_pairs(x.metadata) == crate::domain::metadata_put(
        m.metadata,
        "definitionFingerprint"@,
        spec_model_fingerprint(m),
    )
    &&& x.id == m.id
    &&& x.family == m.family
    &&& x.display_name == m.display_name
    &&& x.model_path == m.model_path
    &&& x.mmproj_path == m.mmproj_path
    &&& x.format == m.format
    &&& x.quantization == m.quantization
    &&& x.capabilities == m.capabilities
    &&& x.context_limit == m.context_limit
    &&& x.model_fingerprint == m.model_fingerprint
    &&& x.lifecycle_state == m.lifecycle_state
}

/// Registries that differ at most in their model list.
pub open spec fn others_same_but_models(a: ModelPlatformConfig, b: ModelPlatformConfig) -> bool {
    &&& a.schema_version == b.schema_version
    &&& a.runtimes == b.runtimes
    &&& a.task_profiles == b.task_profiles
    &&& a.bindings == b.bindings
    &&& a.capability_manifests == b.capability_manifests
    &&& a.benchmark_results == b.benchmark_results
}

/// Registries that differ at most in their bindings.
pub open spec fn others_same_but_bindings(a: ModelPlatformConfig, b: ModelPlatformConfig) -> bool {
    &&& a.schema_version == b.schema_version
    &&& a.models == b.models
    &&& a.runtimes == b.runtimes
    &&& a.task_profiles == b.task_profiles
    &&& a.capability_manifests == b.capability_manifests
    &&& a.benchmark_results == b.benchmark_results
}

/// Every binding of `task` switched off.
pub open spec fn disable_task_bindings(s: Seq<TaskModelBinding>, task: Seq<char>) -> Seq<
    TaskModelBinding,
> {
    s.map_values(
        |b: TaskModelBinding|
            if b.task_profile_id@ == task {
                TaskModelBinding { enabled: false, ..b }
            } else {
                b
            },
    )
}

pub open spec fn binding_id_spec(task: Seq<char>, model: Seq<char>, runtime: Seq<char>) -> Seq<
    char,
> {
    "binding-"@ + normalize_id_spec(task) + "-"@ + normalize_id_spec(model) + "-"@
        + normalize_id_spec(runtime)
}

/// The id of the binding of a task to a model and a runtime.
pub fn binding_id(task: &str, model: &str, runtime: &str) -> (r: String)
    ensures
        r@ == binding_id_spec(task@, model@, runtime@),
{
    let mut s = String::from_str("binding-");
    let t = normalize_id(task);
    s.append(t.as_str());
    s.append("-");
    let m = normalize_id(model);
    s.append(m.as_str());
    s.append("-");
    let r = normalize_id(runtime);
    s.append(r.as_str());
    s
}

/// Model definition with the lifecycle state replaced.
pub open spec fn with_lifecycle(m: ModelDefinition, s: ModelLifecycleState) -> ModelDefinition {
    ModelDefinition { lifecycle_state: s, ..m }
}

/// The registry with the first model of this id moved to `s`.
pub open spec fn lifecycle_set(
    c: ModelPlatformConfig,
    id: Seq<char>,
    s: ModelLifecycleState,
) -> Seq<ModelDefinition> {
    let i = model_pos(c, id);
    c.models@.update(i, with_lifecycle(c.models@[i], s))
}

impl ModelPlatformService {
    /// The registry held in memory.
    pub closed spec fn registry(&self) -> ModelPlatformConfig {
        self.store
    }

    pub closed spec fn spec_config_path(&self) -> Seq<char> {
        self.config_path@
    }

    /// A service over the registry read from `config_path`: the stored
    /// registry when it was read and has the current schema version,
    /// otherwise the default registry.
    pub fn new_with_path(config_path: String, stored: Option<ModelPlatformConfig>) -> (s: Self)
        ensures
            s.spec_config_path() == config_path@,
            match stored {
                Some(c) if c.schema_version@ == spec_schema_version() => s.registry() == c,
                _ => is_default_platform_config(s.registry()),
            },
    {
        let store = match stored {
            Some(c) => {
                if str_eq(c.schema_version.as_str(), model_platform_schema_version()) {
                    c
                } else {
                    default_platform_config()
                }
            },
            None => default_platform_config(),
        };
        ModelPlatformService { config_path, store }
    }

    /// The persistence path.
    pub fn config_path(&self) -> (r: &str)
        ensures
            r@ == self.spec_config_path(),
    {
        self.config_path.as_str()
    }

    /// Borrow of the registry.
    pub fn registry_ref(&self) -> (r: &ModelPlatformConfig)
        ensures
            *r == self.registry(),
    {
        &self.store
    }

    /// A copy of the registry.
    pub fn snapshot(&self) -> (r: ModelPlatformConfig)
        ensures
            same_config(r, self.registry()),
    {
        clone_config(&self.store)
    }

    /// Replaces the whole registry; only the current schema version is
    /// accepted.
    pub fn replace_config(&mut self, config: ModelPlatformConfig) -> (r: Result<(), AppError>)
        ensures
            final(self).spec_config_path() == old(self).spec_config_path(),
            match r {
                Ok(()) => config.schema_version@ == spec_schema_version() && final(self).registry()
                    == config,
                Err(e) => config.schema_version@ != spec_schema_version() && e.code
                    == AppErrorCode::ModelConfigMissing && final(self).registry() == old(
                    self,
                ).registry(),
            },
    {
        if !str_eq(config.schema_version.as_str(), model_platform_schema_version()) {
            return Err(
                app_error(
                    AppErrorCode::ModelConfigMissing,
                    "Model platform config sürümü desteklenmiyor.",
                    Some(concat("schema_version=", config.schema_version.as_str())),
                    Some("Model platform ayarlarını yeniden oluşturun.".to_owned()),
                ),
            );
        }
        self.store = config;
        Ok(())
    }

    /// Records a model definition with its definition fingerprint, replacing
    /// the first model with the same id or appending it.
    pub fn upsert_model_definition(&mut self, model: ModelDefinition)
        ensures
            final(self).spec_config_path() == old(self).spec_config_path(),
            upserted(
                old(self).registry().models@,
                final(self).registry().models@,
                model_has_id(model.id@),
                |x: ModelDefinition| fingerprinted(x@, model@),
            ),
            others_same_but_models(final(self).registry(), old(self).registry()),
    {
        let mut model = model;
        let ghost m0 = model@;
        let fp = fingerprint_model_definition(&model);
        metadata_insert(&mut model.metadata, "definitionFingerprint", fp);
        assert(fingerprinted(model@, m0));
        match find_model(&self.store.models, model.id.as_str()) {
            Some(i) => {
                self.store.models.set(i, model);
            },
            None => {
                self.store.models.push(model);
            },
        }
    }

    /// Records a runtime definition, replacing the first runtime with the same
    /// id or appending it; a blank id is refused.
    pub fn upsert_runtime_definition(&mut self, runtime: RuntimeDefinition) -> (r: Result<
        (),
        AppError,
    >)
        ensures
            final(self).spec_config_path() == old(self).spec_config_path(),
            match r {
                Ok(()) => trim(runtime.id@).len() > 0 && final(self).registry()
                    == ModelPlatformConfig {
                    runtimes: final(self).registry().runtimes,
                    ..old(self).registry()
                } && final(self).registry().runtimes@ == upsert(
                    old(self).registry().runtimes@,
                    runtime_has_id(runtime.id@),
                    runtime,
                ),
                Err(e) => trim(runtime.id@).len() == 0 && e.code
                    == AppErrorCode::ModelConfigMissing && final(self).registry() == old(
                    self,
                ).registry(),
            },
    {
        let trimmed = trim_str(runtime.id.as_str());
        if trimmed.as_str().is_empty() {
            return Err(
                app_error(
                    AppErrorCode::ModelConfigMissing,
                    "Runtime kimliği boş olamaz.",
                    None,
                    Some("Runtime için benzersiz bir kimlik girin.".to_owned()),
                ),
            );
        }
        match find_runtime(&self.store.runtimes, runtime.id.as_str()) {
            Some(i) => {
                self.store.runtimes.set(i, runtime);
            },
            None => {
                self.store.runtimes.push(runtime);
            },
        }
        Ok(())
    }

    /// Switches off the first binding with this id.
    pub fn disable_binding(&mut self, binding_id: &str) -> (r: Result<(), AppError>)
        ensures
            final(self).spec_config_path() == old(self).spec_config_path(),
            match r {
                Ok(()) => binding_pos(old(self).registry(), binding_id@) >= 0 && others_same_but_bindings(
                    final(self).registry(),
                    old(self).registry(),
                ) && final(self).registry().bindings@ == old(self).registry().bindings@.update(
                    binding_pos(old(self).registry(), binding_id@),
                    TaskModelBinding {
                        enabled: false,
                        ..old(self).registry().bindings@[binding_pos(
                            old(self).registry(),
                            binding_id@,
                        )]
                    },
                ),
                Err(e) => binding_pos(old(self).registry(), binding_id@) == -1 && e.code
                    == AppErrorCode::ModelProfileNotFound && final(self).registry() == old(
                    self,
                ).registry(),
            },
    {
        match find_binding(&self.store.bindings, binding_id) {
            Some(i) => {
                let mut b = self.store.bindings[i].clone();
                b.enabled = false;
                self.store.bindings.set(i, b);
                Ok(())
            },
            None => Err(
                app_error(
                    AppErrorCode::ModelProfileNotFound,
                    "Model görev ataması bulunamadı.",
                    id_detail("binding_id=", binding_id),
                    Some("Görev atamalarını yenileyin.".to_owned()),
                ),
            ),
        }
    }

    /// Moves the first model with this id to `target`, without the promotion
    /// gate.
    fn force_lifecycle(&mut self, model_definition_id: &str, target: ModelLifecycleState) -> (r:
        Result<(), AppError>)
        ensures
            final(self).spec_config_path() == old(self).spec_config_path(),
            match r {
                Ok(()) => model_pos(old(self).registry(), model_definition_id@) >= 0
                    && others_same_but_models(final(self).registry(), old(self).registry())
                    && final(self).registry().models@ == lifecycle_set(
                    old(self).registry(),
                    model_definition_id@,
                    target,
                ),
                Err(e) => model_pos(old(self).registry(), model_definition_id@) == -1 && e.code
                    == AppErrorCode::ModelProfileNotFound && final(self).registry() == old(
                    self,
                ).registry(),
            },
    {
        match find_model(&self.store.models, model_definition_id) {
            Some(i) => {
                let mut m = self.store.models.remove(i);
                m.lifecycle_state = target;
                self.store.models.insert(i, m);
                assert(self.store.models@ =~= lifecycle_set(
                    old(self).registry(),
                    model_definition_id@,
                    target,
                ));
                Ok(())
            },
            None => Err(
                app_error(
                    AppErrorCode::ModelProfileNotFound,
                    "Model registry kaydı bulunamadı.",
                    id_detail("model_definition_id=", model_definition_id),
                    Some("Modeli yeniden ekleyin.".to_owned()),
                ),
            ),
        }
    }

    /// Marks the model as being probed.
    pub fn mark_probe_started(&mut self, model_definition_id: &str) -> (r: Result<(), AppError>)
        ensures
            final(self).spec_config_path() == old(self).spec_config_path(),
            match r {
                Ok(()) => model_pos(old(self).registry(), model_definition_id@) >= 0
                    && others_same_but_models(final(self).registry(), old(self).registry())
                    && final(self).registry().models@ == lifecycle_set(
                    old(self).registry(),
                    model_definition_id@,
                    ModelLifecycleState::Probing,
                ),
                Err(e) => model_pos(old(self).registry(), model_definition_id@) == -1 && e.code
                    == AppErrorCode::ModelProfileNotFound && final(self).registry() == old(
                    self,
                ).registry(),
            },
    {
        self.force_lifecycle(model_definition_id, ModelLifecycleState::Probing)
    }

    /// Marks the probe outcome: `Unsupported` when any capability failed,
    /// `Compatible` otherwise.
    pub fn mark_probe_finished(
        &mut self,
        model_definition_id: &str,
        manifest: &CapabilityManifest,
    ) -> (r: Result<(), AppError>)
        ensures
            final(self).spec_config_path() == old(self).spec_config_path(),
            ({
                let any_fail = exists|j: int|
                    0 <= j < manifest.results@.len() && (#[trigger] manifest.results@[j]).support
                        == CapabilitySupport::Fail;
                let target = if any_fail {
                    ModelLifecycleState::Unsupported
                } else {
                    ModelLifecycleState::Compatible
                };
                match r {
                    Ok(()) => model_pos(old(self).registry(), model_definition_id@) >= 0
                        && others_same_but_models(final(self).registry(), old(self).registry())
                        && final(self).registry().models@ == lifecycle_set(
                        old(self).registry(),
                        model_definition_id@,
                        target,
                    ),
                    Err(e) => model_pos(old(self).registry(), model_definition_id@) == -1
                        && e.code == AppErrorCode::ModelProfileNotFound && final(self).registry()
                        == old(self).registry(),
                }
            }),
    {
        let mut any_fail = false;
        let mut j: usize = 0;
        while j < manifest.results.len()
            invariant
                j <= manifest.results.len(),
                any_fail == exists|k: int|
                    0 <= k < j && (#[trigger] manifest.results@[k]).support
                        == CapabilitySupport::Fail,
            decreases manifest.results.len() - j,
        {
            if manifest.results[j].support == CapabilitySupport::Fail {
                any_fail = true;
            }
            j = j + 1;
        }
        let target = if any_fail {
            ModelLifecycleState::Unsupported
        } else {
            ModelLifecycleState::Compatible
        };
        self.force_lifecycle(model_definition_id, target)
    }

    /// Marks a failed probe.
    pub fn mark_probe_failed(&mut self, model_definition_id: &str) -> (r: Result<(), AppError>)
        ensures
            final(self).spec_config_path() == old(self).spec_config_path(),
            match r {
                Ok(()) => model_pos(old(self).registry(), model_definition_id@) >= 0
                    && others_same_but_models(final(self).registry(), old(self).registry())
                    && final(self).registry().models@ == lifecycle_set(
                    old(self).registry(),
                    model_definition_id@,
                    ModelLifecycleState::ProbeFailed,
                ),
                Err(e) => model_pos(old(self).registry(), model_definition_id@) == -1 && e.code
                    == AppErrorCode::ModelProfileNotFound && final(self).registry() == old(
                    self,
                ).registry(),
            },
    {
        self.force_lifecycle(model_definition_id, ModelLifecycleState::ProbeFailed)
    }

    /// Binds a task to a model and a runtime: every binding of the task is
    /// switched off, then the new enabled binding replaces the first binding
    /// with its id or is appended.
    pub fn bind_task(&mut self, input: BindTaskInput) -> (r: Result<TaskModelBinding, AppError>)
        ensures
            final(self).spec_config_path() == old(self).spec_config_path(),
            match r {
                Ok(b) => {
                    &&& task_pos(old(self).registry(), input.task_profile_id@) >= 0
                    &&& model_pos(old(self).registry(), input.model_definition_id@) >= 0
                    &&& runtime_pos(old(self).registry(), input.runtime_definition_id@) >= 0
                    &&& b.id@ == binding_id_spec(
                        input.task_profile_id@,
                        input.model_definition_id@,
                        input.runtime_definition_id@,
                    )
                    &&& b.task_profile_id == input.task_profile_id
                    &&& b.model_definition_id == input.model_definition_id
                    &&& b.runtime_definition_id == input.runtime_definition_id
                    &&& b.allow_experimental_student_data == input.allow_experimental_student_data
                    &&& b.enabled
                    &&& others_same_but_bindings(final(self).registry(), old(self).registry())
                    &&& final(self).registry().bindings@ == upsert(
                        disable_task_bindings(
                            old(self).registry().bindings@,
                            input.task_profile_id@,
                        ),
                        binding_has_id(b.id@),
                        b,
                    )
                },
                Err(e) => {
                    &&& e.code == AppErrorCode::ModelProfileNotFound
                    &&& final(self).registry() == old(self).registry()
                    &&& {
                        ||| task_pos(old(self).registry(), input.task_profile_id@) == -1
                        ||| model_pos(old(self).registry(), input.model_definition_id@) == -1
                        ||| runtime_pos(old(self).registry(), input.runtime_definition_id@) == -1
                    }
                },
            },
    {
        let _t = require_task_profile(&self.store, input.task_profile_id.as_str())?;
        let _m = require_model(&self.store, input.model_definition_id.as_str())?;
        let _r = require_runtime(&self.store, input.runtime_definition_id.as_str())?;
        let id = binding_id(
            input.task_profile_id.as_str(),
            input.model_definition_id.as_str(),
            input.runtime_definition_id.as_str(),
        );
        let binding = TaskModelBinding {
            id,
            task_profile_id: input.task_profile_id.clone(),
            model_definition_id: input.model_definition_id.clone(),
            runtime_definition_id: input.runtime_definition_id.clone(),
            allow_experimental_student_data: input.allow_experimental_student_data,
            enabled: true,
        };
        let ghost old_bindings = self.store.bindings@;
        let ghost target = disable_task_bindings(old_bindings, input.task_profile_id@);
        let n = self.store.bindings.len();
        let mut i: usize = 0;
        while i < n
            invariant
                n == old_bindings.len(),
                i <= n,
                target == disable_task_bindings(old_bindings, input.task_profile_id@),
                self.store.bindings@.len() == n,
                forall|j: int| 0 <= j < i ==> self.store.bindings@[j] == target[j],
                forall|j: int| i <= j < n ==> self.store.bindings@[j] == old_bindings[j],
                self.config_path == old(self).config_path,
                others_same_but_bindings(self.store, old(self).store),
            decreases n - i,
        {
            if str_eq(self.store.bindings[i].task_profile_id.as_str(), input.task_profile_id.as_str()) {
                let mut b = self.store.bindings[i].clone();
                b.enabled = false;
                self.store.bindings.set(i, b);
            }
            i = i + 1;
        }
        assert(self.store.bindings@ =~= target);
        match find_binding(&self.store.bindings, binding.id.as_str()) {
            Some(k) => {
                self.store.bindings.set(k, binding.clone());
            },
            None => {
                self.store.bindings.push(binding.clone());
            },
        }
        Ok(binding)
    }

    /// Records a capability manifest for a registered model/runtime pair whose
    /// fingerprints it matches; it supersedes the pair's earlier manifests.
    pub fn record_capability_manifest(&mut self, manifest: CapabilityManifest) -> (r: Result<
        (),
        AppError,
    >)
        ensures
            final(self).spec_config_path() == old(self).spec_config_path(),
            ({
                let c = old(self).registry();
                let mi = model_pos(c, manifest.model_definition_id@);
                let ri = runtime_pos(c, manifest.runtime_definition_id@);
                let fingerprints_match = c.models@[mi].model_fingerprint@
                    == manifest.model_fingerprint@ && spec_runtime_fingerprint(c.runtimes@[ri])
                    == manifest.runtime_fingerprint@;
                match r {
                    Ok(()) => {
                        &&& mi >= 0 && ri >= 0 && fingerprints_match
                        &&& final(self).registry() == ModelPlatformConfig {
                            capability_manifests: final(self).registry().capability_manifests,
                            ..c
                        }
                        &&& final(self).registry().capability_manifests@ == c.capability_manifests@.filter(
                            keep_manifest(
                                manifest.model_definition_id@,
                                Some(manifest.runtime_definition_id@),
                            ),
                        ).push(manifest)
                    },
                    Err(e) => {
                        &&& final(self).registry() == c
                        &&& {
                            ||| mi == -1 && e.code == AppErrorCode::ModelProfileNotFound
                            ||| mi >= 0 && ri == -1 && e.code == AppErrorCode::ModelProfileNotFound
                            ||| mi >= 0 && ri >= 0 && !fingerprints_match && e.code
                                == AppErrorCode::ModelConfigMissing
                        }
                    },
                }
            }),
    {
        let mi = require_model(&self.store, manifest.model_definition_id.as_str())?;
        let ri = require_runtime(&self.store, manifest.runtime_definition_id.as_str())?;
        let runtime_fp = fingerprint_runtime_definition(&self.store.runtimes[ri]);
        if !str_eq(self.store.models[mi].model_fingerprint.as_str(), manifest.model_fingerprint.as_str())
            || !str_eq(runtime_fp.as_str(), manifest.runtime_fingerprint.as_str()) {
            return Err(
                app_error(
                    AppErrorCode::ModelConfigMissing,
                    "Capability sonucu güncel model/runtime fingerprint'i ile eşleşmiyor.",
                    id_detail("model_definition_id=", manifest.model_definition_id.as_str()),
                    Some("Capability probe'u yeniden çalıştırın.".to_owned()),
                ),
            );
        }
        retain_manifests(
            &mut self.store.capability_manifests,
            manifest.model_definition_id.as_str(),
            Some(manifest.runtime_definition_id.as_str()),
        );
        self.store.capability_manifests.push(manifest);
        Ok(())
    }

    /// Records a benchmark result for a registered task/model/runtime triple
    /// whose fingerprints it matches; it supersedes the triple's earlier
    /// results.
    pub fn record_benchmark_result(&mut self, result: BenchmarkResultSummary) -> (r: Result<
        (),
        AppError,
    >)
        ensures
            final(self).spec_config_path() == old(self).spec_config_path(),
            ({
                let c = old(self).registry();
                let ti = task_pos(c, result.task_profile_id@);
                let mi = model_pos(c, result.model_definition_id@);
                let ri = runtime_pos(c, result.runtime_definition_id@);
                let fingerprints_match = c.models@[mi].model_fingerprint@
                    == result.model_fingerprint@ && spec_runtime_fingerprint(c.runtimes@[ri])
                    == result.runtime_fingerprint@;
                match r {
                    Ok(()) => {
                        &&& ti >= 0 && mi >= 0 && ri >= 0 && fingerprints_match
                        &&& final(self).registry() == ModelPlatformConfig {
                            benchmark_results: final(self).registry().benchmark_results,
                            ..c
                        }
                        &&& final(self).registry().benchmark_results@ == c.benchmark_results@.filter(
                            keep_benchmark(
                                Some(result.task_profile_id@),
                                result.model_definition_id@,
                                Some(result.runtime_definition_id@),
                            ),
                        ).push(result)
                    },
                    Err(e) => {
                        &&& final(self).registry() == c
                        &&& {
                            ||| ti == -1 && e.code == AppErrorCode::ModelProfileNotFound
                            ||| ti >= 0 && mi == -1 && e.code == AppErrorCode::ModelProfileNotFound
                            ||| ti >= 0 && mi >= 0 && ri == -1 && e.code
                                == AppErrorCode::ModelProfileNotFound
                            ||| ti >= 0 && mi >= 0 && ri >= 0 && !fingerprints_match && e.code
                                == AppErrorCode::ModelConfigMissing
                        }
                    },
                }
            }),
    {
        let _ti = require_task_profile(&self.store, result.task_profile_id.as_str())?;
        let mi = require_model(&self.store, result.model_definition_id.as_str())?;
        let ri = require_runtime(&self.store, result.runtime_definition_id.as_str())?;
        let runtime_fp = fingerprint_runtime_definition(&self.store.runtimes[ri]);
        if !str_eq(self.store.models[mi].model_fingerprint.as_str(), result.model_fingerprint.as_str())
            || !str_eq(runtime_fp.as_str(), result.runtime_fingerprint.as_str()) {
            return Err(
                app_error(
                    AppErrorCode::ModelConfigMissing,
                    "Benchmark sonucu güncel fingerprint ile eşleşmiyor.",
                    id_detail("benchmark_id=", result.id.as_str()),
                    Some("Benchmark'ı güncel model/runtime ile yeniden çalıştırın.".to_owned()),
                ),
            );
        }
        retain_benchmarks(
            &mut self.store.benchmark_results,
            Some(result.task_profile_id.as_str()),
            result.model_definition_id.as_str(),
            Some(result.runtime_definition_id.as_str()),
        );
        self.store.benchmark_results.push(result);
        Ok(())
    }
}


// ---------------------------------------------------------------------------
// The production promotion gate
// ---------------------------------------------------------------------------
pub open spec fn reason_unassigned() -> Seq<char> {
    "Model herhangi bir task'a atanmış değil."@
}

pub open spec fn reason_not_pass(task: Seq<char>) -> Seq<char> {
    task + " için required capability sonucu PASS değil."@
}

pub open spec fn reason_no_probe(task: Seq<char>) -> Seq<char> {
    task + " için güncel capability probe yok."@
}

pub open spec fn reason_no_benchmark(task: Seq<char>) -> Seq<char> {
    task + " için PASS benchmark sonucu yok."@
}

pub open spec fn strings_view(v: Seq<String>) -> Seq<Seq<char>> {
    v.map_values(|s: String| s@)
}

/// The binding is enabled and binds the model `id`.
pub open spec fn is_enabled_for(b: TaskModelBinding, id: Seq<char>) -> bool {
    b.enabled && b.model_definition_id@ == id
}

/// What promotion checking finds for one enabled binding of model `m`: the checked task
/// id and the reasons it adds (no current manifest, a current manifest that
/// does not satisfy the task, no current passing benchmark unless the model
/// is grandfathered), or `None` when the binding names a task profile or a
/// runtime that is not registered.
pub open spec fn binding_findings(
    c: ModelPlatformConfig,
    m: ModelDefinition,
    b: TaskModelBinding,
) -> Option<(Seq<char>, Seq<Seq<char>>)> {
    let ti = task_pos(c, b.task_profile_id@);
    let ri = runtime_pos(c, b.runtime_definition_id@);
    if ti < 0 || ri < 0 {
        None
    } else {
        let task = c.task_profiles@[ti];
        let rt = c.runtimes@[ri];
        let rfp = spec_runtime_fingerprint(rt);
        let k = first_index(
            c.capability_manifests@,
            manifest_is_current(m.id@, rt.id@, m.model_fingerprint@, rfp),
        );
        let probe = if k < 0 {
            seq![reason_no_probe(task.id@)]
        } else if c.capability_manifests@[k].spec_satisfies(task.required_capabilities) {
            Seq::<Seq<char>>::empty()
        } else {
            seq![reason_not_pass(task.id@)]
        };
        let passed = has_current_pass(
            c.benchmark_results@,
            task.id@,
            m.id@,
            rt.id@,
            m.model_fingerprint@,
            rfp,
        );
        let bench = if !passed && !m.spec_is_grandfathered() {
            seq![reason_no_benchmark(task.id@)]
        } else {
            Seq::<Seq<char>>::empty()
        };
        Some((task.id@, probe + bench))
    }
}

/// The promotion walk over `bs` in order: the checked task ids and the reasons
/// of the enabled bindings of model `id`, or `None` at the first enabled
/// binding that names an unregistered task profile or runtime.
pub open spec fn gate_walk(
    c: ModelPlatformConfig,
    m: ModelDefinition,
    id: Seq<char>,
    bs: Seq<TaskModelBinding>,
) -> Option<(Seq<Seq<char>>, Seq<Seq<char>>)>
    decreases bs.len(),
{
    if bs.len() == 0 {
        Some((Seq::empty(), Seq::empty()))
    } else {
        match gate_walk(c, m, id, bs.drop_last()) {
            None => None,
            Some(acc) => if !is_enabled_for(bs.last(), id) {
                Some(acc)
            } else {
                match binding_findings(c, m, bs.last()) {
                    None => None,
                    Some(f) => Some((acc.0.push(f.0), acc.1 + f.1)),
                }
            },
        }
    }
}

pub open spec fn has_enabled_binding(c: ModelPlatformConfig, id: Seq<char>) -> bool {
    exists|j: int| 0 <= j < c.bindings@.len() && is_enabled_for(#[trigger] c.bindings@[j], id)
}

/// The production gate's findings for model `id`: the checked task ids and
/// the reasons that block promotion, or `None` when the model, or a task
/// profile or runtime named by one of its enabled bindings, is not
/// registered.
pub open spec fn promotion_findings(c: ModelPlatformConfig, id: Seq<char>) -> Option<
    (Seq<Seq<char>>, Seq<Seq<char>>),
> {
    let mi = model_pos(c, id);
    if mi < 0 {
        None
    } else {
        match gate_walk(c, c.models@[mi], id, c.bindings@) {
            None => None,
            Some(acc) => Some(
                (
                    acc.0,
                    if has_enabled_binding(c, id) {
                        acc.1
                    } else {
                        seq![reason_unassigned()] + acc.1
                    },
                ),
            ),
        }
    }
}

/// The model may be promoted to production.
pub open spec fn promotion_allowed(c: ModelPlatformConfig, id: Seq<char>) -> bool {
    promotion_findings(c, id) matches Some(f) && f.1.len() == 0
}

proof fn lemma_gate_walk_prefix_none(
    c: ModelPlatformConfig,
    m: ModelDefinition,
    id: Seq<char>,
    bs: Seq<TaskModelBinding>,
    k: int,
)
    requires
        0 <= k <= bs.len(),
        gate_walk(c, m, id, bs.subrange(0, k)) is None,
    ensures
        gate_walk(c, m, id, bs) is None,
    decreases bs.len(),
{
    if k < bs.len() {
        let t = bs.drop_last();
        assert(t.subrange(0, k) == bs.subrange(0, k));
        lemma_gate_walk_prefix_none(c, m, id, t, k);
    } else {
        assert(bs.subrange(0, k) == bs);
    }
}

proof fn lemma_gate_walk_no_enabled(
    c: ModelPlatformConfig,
    m: ModelDefinition,
    id: Seq<char>,
    bs: Seq<TaskModelBinding>,
)
    requires
        forall|j: int| 0 <= j < bs.len() ==> !is_enabled_for(#[trigger] bs[j], id),
    ensures
        gate_walk(c, m, id, bs) == Some((Seq::<Seq<char>>::empty(), Seq::<Seq<char>>::empty())),
    decreases bs.len(),
{
    if bs.len() > 0 {
        let t = bs.drop_last();
        assert forall|j: int| 0 <= j < t.len() implies !is_enabled_for(#[trigger] t[j], id) by {
            assert(t[j] == bs[j]);
        }
        lemma_gate_walk_no_enabled(c, m, id, t);
        assert(!is_enabled_for(bs[bs.len() - 1], id));
    }
}

/// `items` joined with `sep` between consecutive items.
pub open spec fn join_spec(items: Seq<Seq<char>>, sep: Seq<char>) -> Seq<char>
    decreases items.len(),
{
    if items.len() == 0 {
        Seq::empty()
    } else if items.len() == 1 {
        items[0]
    } else {
        join_spec(items.drop_last(), sep) + sep + items.last()
    }
}

/// `slice::join` over strings.
pub fn join_strings(items: &Vec<String>, sep: &str) -> (r: String)
    ensures
        r@ == join_spec(strings_view(items@), sep@),
{
    let mut r = String::new();
    let mut i: usize = 0;
    proof {
        reveal_strlit("");
    }
    while i < items.len()
        invariant
            i <= items.len(),
            r@ == join_spec(strings_view(items@.subrange(0, i as int)), sep@),
        decreases items.len() - i,
    {
        let ghost before = strings_view(items@.subrange(0, i as int));
        if i > 0 {
            r.append(sep);
        }
        r.append(items[i].as_str());
        proof {
            let next = strings_view(items@.subrange(0, i + 1));
            assert(next.drop_last() =~= before);
            assert(next.last() == items@[i as int]@);
            if i == 0 {
                assert(next.len() == 1);
                assert(r@ =~= next[0]);
            } else {
                assert(r@ =~= join_spec(before, sep@) + sep@ + items@[i as int]@);
            }
        }
        i = i + 1;
    }
    assert(items@.subrange(0, items@.len() as int) == items@);
    r
}

impl ModelPlatformService {
    /// The production promotion gate for a model: every enabled binding of
    /// the model must have a current capability manifest that satisfies its
    /// task and (unless the model is grandfathered) a current passing
    /// benchmark; a model with no enabled binding is not promotable.
    pub fn production_promotion_decision(&self, model_definition_id: &str) -> (r: Result<
        PromotionDecision,
        AppError,
    >)
        ensures
            match r {
                Ok(d) => promotion_findings(self.registry(), model_definition_id@) matches Some(f)
                    && d.allowed == (f.1.len() == 0) && d.model_definition_id@
                    == model_definition_id@ && strings_view(d.checked_task_profiles@) == f.0
                    && strings_view(d.reasons@) == f.1,
                Err(e) => promotion_findings(self.registry(), model_definition_id@) is None
                    && e.code == AppErrorCode::ModelProfileNotFound,
            },
    {
        let store = &self.store;
        let mi = require_model(store, model_definition_id)?;
        let model = &store.models[mi];
        let ghost c = *store;
        let ghost m = c.models@[mi as int];
        let ghost id = model_definition_id@;
        proof {
            lemma_first_index(c.models@, model_has_id(id));
        }
        let mut checked: Vec<String> = Vec::new();
        let mut reasons: Vec<String> = Vec::new();
        let mut any_enabled = false;
        let n = store.bindings.len();
        let mut i: usize = 0;
        assert(c.bindings@.subrange(0, 0).len() == 0);
        while i < n
            invariant
                c == *store,
                c == self.registry(),
                n == c.bindings@.len(),
                i <= n,
                mi < c.models@.len(),
                mi as int == model_pos(c, id),
                *model == m,
                m == c.models@[mi as int],
                m.id@ == id,
                id == model_definition_id@,
                gate_walk(c, m, id, c.bindings@.subrange(0, i as int)) == Some(
                    (strings_view(checked@), strings_view(reasons@)),
                ),
                any_enabled == exists|j: int|
                    0 <= j < i && is_enabled_for(#[trigger] c.bindings@[j], id),
            decreases n - i,
        {
            let ghost pre = c.bindings@.subrange(0, i as int);
            let ghost next = c.bindings@.subrange(0, i + 1);
            let ghost acc_checked = strings_view(checked@);
            let ghost acc_reasons = strings_view(reasons@);
            assert(next.drop_last() =~= pre);
            assert(next.last() == c.bindings@[i as int]);
            let b = &store.bindings[i];
            if b.enabled && str_eq(b.model_definition_id.as_str(), model_definition_id) {
                assert(is_enabled_for(c.bindings@[i as int], id));
                any_enabled = true;
                let ti = match require_task_profile(store, b.task_profile_id.as_str()) {
                    Ok(t) => t,
                    Err(e) => {
                        proof {
                            assert(gate_walk(c, m, id, next) is None);
                            lemma_gate_walk_prefix_none(c, m, id, c.bindings@, i + 1);
                        }
                        return Err(e);
                    },
                };
                let ri = match require_runtime(store, b.runtime_definition_id.as_str()) {
                    Ok(x) => x,
                    Err(e) => {
                        proof {
                            assert(gate_walk(c, m, id, next) is None);
                            lemma_gate_walk_prefix_none(c, m, id, c.bindings@, i + 1);
                        }
                        return Err(e);
                    },
                };
                let task = &store.task_profiles[ti];
                let runtime = &store.runtimes[ri];
                checked.push(task.id.clone());
                let runtime_fp = fingerprint_runtime_definition(runtime);
                let ghost probe_before = strings_view(reasons@);
                match find_current_manifest(
                    &store.capability_manifests,
                    model.id.as_str(),
                    runtime.id.as_str(),
                    model.model_fingerprint.as_str(),
                    runtime_fp.as_str(),
                ) {
                    Some(k) => {
                        if !store.capability_manifests[k].satisfies(&task.required_capabilities) {
                            reasons.push(
                                concat(
                                    task.id.as_str(),
                                    " için required capability sonucu PASS değil.",
                                ),
                            );
                        }
                    },
                    None => {
                        reasons.push(concat(task.id.as_str(), " için güncel capability probe yok."));
                    },
                }
                let passed = has_current_pass_benchmark(
                    &store.benchmark_results,
                    task.id.as_str(),
                    model.id.as_str(),
                    runtime.id.as_str(),
                    model.model_fingerprint.as_str(),
                    runtime_fp.as_str(),
                );
                if !passed && !is_grandfathered_baseline(model) {
                    reasons.push(concat(task.id.as_str(), " için PASS benchmark sonucu yok."));
                }
                proof {
                    let f = binding_findings(c, m, c.bindings@[i as int]).unwrap();
                    assert(strings_view(checked@) =~= acc_checked.push(f.0));
                    assert(strings_view(reasons@) =~= acc_reasons + f.1);
                }
            } else {
                assert(!is_enabled_for(c.bindings@[i as int], id));
            }
            i = i + 1;
        }
        assert(c.bindings@.subrange(0, n as int) =~= c.bindings@);
        if !any_enabled {
            proof {
                lemma_gate_walk_no_enabled(c, m, id, c.bindings@);
            }
            reasons.push("Model herhangi bir task'a atanmış değil.".to_owned());
            proof {
                reveal_strlit("Model herhangi bir task'a atanmış değil.");
                assert(strings_view(reasons@) =~= seq![reason_unassigned()] + Seq::<
                    Seq<char>,
                >::empty());
            }
        }
        let allowed = reasons.len() == 0;
        Ok(
            PromotionDecision {
                allowed,
                model_definition_id: model_definition_id.to_owned(),
                checked_task_profiles: checked,
                reasons,
            },
        )
    }

    /// Moves the first model with this id to `target`. Promotion to
    /// production passes through the promotion gate first.
    pub fn set_model_lifecycle(&mut self, model_definition_id: &str, target: ModelLifecycleState) -> (r:
        Result<ModelDefinition, AppError>)
        ensures
            final(self).spec_config_path() == old(self).spec_config_path(),
            ({
                let c = old(self).registry();
                let id = model_definition_id@;
                match r {
                    Ok(m) => {
                        &&& model_pos(c, id) >= 0
                        &&& target == ModelLifecycleState::Production ==> promotion_allowed(c, id)
                        &&& others_same_but_models(final(self).registry(), c)
                        &&& final(self).registry().models@ == lifecycle_set(c, id, target)
                        &&& m@ == with_lifecycle(c.models@[model_pos(c, id)], target)@
                    },
                    Err(e) => {
                        &&& final(self).registry() == c
                        &&& if target == ModelLifecycleState::Production {
                            match promotion_findings(c, id) {
                                None => e.code == AppErrorCode::ModelProfileNotFound,
                                Some(f) => f.1.len() > 0 && e.code
                                    == AppErrorCode::ModelConfigMissing && (e.technical_details
                                    matches Some(t) && t@ == join_spec(f.1, "; "@)),
                            }
                        } else {
                            model_pos(c, id) == -1 && e.code == AppErrorCode::ModelProfileNotFound
                        }
                    },
                }
            }),
    {
        if target == ModelLifecycleState::Production {
            let decision = self.production_promotion_decision(model_definition_id)?;
            if !decision.allowed {
                return Err(
                    app_error(
                        AppErrorCode::ModelConfigMissing,
                        "Model production promotion gate'ini geçemedi.",
                        Some(join_strings(&decision.reasons, "; ")),
                        Some(
                            "Eksik capability probe veya benchmark adımlarını tamamlayın.".to_owned(),
                        ),
                    ),
                );
            }
        }
        let i = require_model(&self.store, model_definition_id)?;
        self.force_lifecycle(model_definition_id, target)?;
        Ok(self.store.models[i].clone())
    }
}

// ---------------------------------------------------------------------------
// Importing a model
// ---------------------------------------------------------------------------
pub open spec fn opt_string_view(o: Option<String>) -> Option<Seq<char>> {
    match o {
        Some(s) => Some(s@),
        None => None,
    }
}

/// The trimmed text, or `None` when it is absent or blank.
pub open spec fn trimmed_opt(o: Option<String>) -> Option<Seq<char>> {
    match o {
        Some(s) => if trim(s@).len() > 0 {
            Some(trim(s@))
        } else {
            None
        },
        None => None,
    }
}

fn trimmed_nonempty(o: &Option<String>) -> (r: Option<String>)
    ensures
        opt_string_view(r) == trimmed_opt(*o),
{
    match o {
        Some(s) => {
            let t = trim_str(s.as_str());
            if t.as_str().is_empty() {
                None
            } else {
                Some(t)
            }
        },
        None => None,
    }
}

/// The import request names a vision model with a projector path that is
/// not a file.
pub open spec fn import_mmproj_missing(input: ImportModelInput, mmproj_is_file: bool) -> bool {
    input.declared_vision && trimmed_opt(input.mmproj_path) is Some && !mmproj_is_file
}

pub open spec fn imported_family(family: Seq<char>) -> Seq<char> {
    if normalize_id_spec(family).len() == 0 {
        "unknown"@
    } else {
        normalize_id_spec(family)
    }
}

/// The fields of the model definition an import request produces.
pub open spec fn imported_fields(m: ModelDefinition, input: ImportModelInput, fp: Seq<char>) -> bool {
    &&& m.id@ == normalize_id_spec(input.id@)
    &&& m.family@ == imported_family(input.family@)
    &&& m.display_name@ == (if trim(input.display_name@).len() == 0 {
        normalize_id_spec(input.id@)
    } else {
        trim(input.display_name@)
    })
    &&& m.model_path@ == trim(input.model_path@)
    &&& opt_string_view(m.mmproj_path) == trimmed_opt(input.mmproj_path)
    &&& m.format == ModelFormat::Gguf
    &&& m.quantization == input.quantization
    &&& m.capabilities == ModelCapabilities {
        text: true,
        vision: input.declared_vision,
        structured_json: input.declared_structured_json,
        json_schema: input.declared_json_schema,
        thinking_control: input.declared_thinking_control,
        multimodal_projector_required: input.declared_vision,
    }
    &&& m.context_limit == input.context_limit
    &&& m.model_fingerprint@ == fp
    &&& m.lifecycle_state == ModelLifecycleState::Imported
    &&& fingerprinted(m@, ModelDefinitionView { metadata: Seq::empty(), ..m@ })
}

impl ModelPlatformService {
    /// Imports a GGUF model file as an `Imported` model definition. The
    /// caller reports whether the trimmed model path is a file, whether the
    /// trimmed projector path is a file, and the model file's fingerprint (or
    /// the error met while reading it). Re-importing an id replaces the
    /// first model with that id and drops its manifests and benchmarks.
    pub fn import_model(
        &mut self,
        input: ImportModelInput,
        model_is_file: bool,
        mmproj_is_file: bool,
        model_fingerprint: Result<String, AppError>,
    ) -> (r: Result<ModelDefinition, AppError>)
        ensures
            final(self).spec_config_path() == old(self).spec_config_path(),
            ({
                let c = old(self).registry();
                let f = final(self).registry();
                let id = normalize_id_spec(input.id@);
                match r {
                    Ok(m) => {
                        &&& model_is_file
                        &&& !import_mmproj_missing(input, mmproj_is_file)
                        &&& id.len() > 0
                        &&& model_fingerprint matches Ok(fp) && imported_fields(m, input, fp@)
                        &&& f.schema_version == c.schema_version
                        &&& f.runtimes == c.runtimes
                        &&& f.task_profiles == c.task_profiles
                        &&& f.bindings == c.bindings
                        &&& upserted(
                            c.models@,
                            f.models@,
                            model_has_id(id),
                            |x: ModelDefinition| x@ == m@,
                        )
                        &&& if model_pos(c, id) >= 0 {
                            &&& f.capability_manifests@ == c.capability_manifests@.filter(
                                keep_manifest(id, None),
                            )
                            &&& f.benchmark_results@ == c.benchmark_results@.filter(
                                keep_benchmark(None, id, None),
                            )
                        } else {
                            &&& f.capability_manifests == c.capability_manifests
                            &&& f.benchmark_results == c.benchmark_results
                        }
                    },
                    Err(e) => {
                        &&& f == c
                        &&& if !model_is_file {
                            e.code == AppErrorCode::ModelFileMissing
                        } else if import_mmproj_missing(input, mmproj_is_file) {
                            e.code == AppErrorCode::ModelMmprojMissing
                        } else if id.len() == 0 {
                            e.code == AppErrorCode::ModelConfigMissing
                        } else {
                            model_fingerprint == Err::<String, AppError>(e)
                        }
                    },
                }
            }),
    {
        let model_path = trim_str(input.model_path.as_str());
        if !model_is_file {
            return Err(
                app_error(
                    AppErrorCode::ModelFileMissing,
                    "Seçilen model dosyası bulunamadı.",
                    Some(concat("model_path=", model_path.as_str())),
                    Some("Geçerli bir GGUF model dosyası seçin.".to_owned()),
                ),
            );
        }
        let mmproj_path = trimmed_nonempty(&input.mmproj_path);
        if input.declared_vision {
            match &mmproj_path {
                Some(path) => {
                    if !mmproj_is_file {
                        return Err(
                            app_error(
                                AppErrorCode::ModelMmprojMissing,
                                "Seçilen multimodal projector dosyası bulunamadı.",
                                Some(concat("mmproj_path=", path.as_str())),
                                Some("Doğru mmproj dosyasını seçin.".to_owned()),
                            ),
                        );
                    }
                },
                None => {},
            }
        }
        let id = normalize_id(input.id.as_str());
        if id.as_str().is_empty() {
            return Err(
                app_error(
                    AppErrorCode::ModelConfigMissing,
                    "Model kimliği boş olamaz.",
                    None,
                    Some("Model için kısa ve benzersiz bir kimlik girin.".to_owned()),
                ),
            );
        }
        let fingerprint = match model_fingerprint {
            Ok(fp) => fp,
            Err(e) => {
                return Err(e);
            },
        };
        let family = normalize_id(input.family.as_str());
        let family = if family.as_str().is_empty() {
            "unknown".to_owned()
        } else {
            family
        };
        let display_name = trim_str(input.display_name.as_str());
        let display_name = if display_name.as_str().is_empty() {
            id.clone()
        } else {
            display_name
        };
        let mut model = ModelDefinition {
            id: id.clone(),
            family,
            display_name,
            model_path,
            mmproj_path,
            format: ModelFormat::Gguf,
            quantization: input.quantization,
            capabilities: ModelCapabilities {
                text: true,
                vision: input.declared_vision,
                structured_json: input.declared_structured_json,
                json_schema: input.declared_json_schema,
                thinking_control: input.declared_thinking_control,
                multimodal_projector_required: input.declared_vision,
            },
            context_limit: input.context_limit,
            metadata: Vec::new(),
            model_fingerprint: fingerprint,
            lifecycle_state: ModelLifecycleState::Imported,
        };
        let ghost m0 = model@;
        assert(m0 == ModelDefinitionView { metadata: Seq::empty(), ..m0 });
        let definition_fp = fingerprint_model_definition(&model);
        metadata_insert(&mut model.metadata, "definitionFingerprint", definition_fp);
        proof {
            reveal_strlit("unknown");
            assert(fingerprinted(model@, m0));
            assert(m0 == ModelDefinitionView { metadata: Seq::empty(), ..model@ });
        }
        match find_model(&self.store.models, id.as_str()) {
            Some(i) => {
                self.store.models.set(i, model.clone());
                retain_manifests(&mut self.store.capability_manifests, id.as_str(), None);
                retain_benchmarks(&mut self.store.benchmark_results, None, id.as_str(), None);
            },
            None => {
                self.store.models.push(model.clone());
            },
        }
        Ok(model)
    }
}

// ---------------------------------------------------------------------------
// Benchmark result ids
// ---------------------------------------------------------------------------
pub open spec fn benchmark_result_id_spec(task: Seq<char>, model: Seq<char>, millis: int) -> Seq<
    char,
> {
    "benchmark-"@ + normalize_id_spec(task) + "-"@ + normalize_id_spec(model) + "-"@
        + signed_decimal(millis)
}

/// The id of a benchmark result of a task on a model, taken at `millis`
/// milliseconds since the Unix epoch.
pub fn benchmark_result_id(task_profile_id: &str, model_definition_id: &str, millis: i64) -> (r:
    String)
    ensures
        r@ == benchmark_result_id_spec(task_profile_id@, model_definition_id@, millis as int),
{
    let mut s = String::from_str("benchmark-");
    let t = normalize_id(task_profile_id);
    s.append(t.as_str());
    s.append("-");
    let m = normalize_id(model_definition_id);
    s.append(m.as_str());
    s.append("-");
    let d = signed_decimal_string(millis);
    s.append(d.as_str());
    s
}

/// The current time in milliseconds since the Unix epoch
/// (`chrono::Utc::now().timestamp_millis()`). It reads the clock: nothing is
/// promised of the value.
#[verifier::external_body]
pub(crate) fn now_timestamp_millis() -> i64 {
    chrono::Utc::now().timestamp_millis()
}

/// A fresh benchmark result id stamped with the current time.
pub fn new_benchmark_result_id(task_profile_id: &str, model_definition_id: &str) -> (r: String)
    ensures
        exists|millis: i64|
            r@ == benchmark_result_id_spec(task_profile_id@, model_definition_id@, millis as int),
{
    let millis = now_timestamp_millis();
    benchmark_result_id(task_profile_id, model_definition_id, millis)
}

// ---------------------------------------------------------------------------
// Laws of the registry
// ---------------------------------------------------------------------------
/// Binding a task leaves the new binding as the task's only enabled binding:
/// it is in the binding list, and every enabled binding of the task is it.
pub proof fn lemma_bind_task_single_enabled(
    bindings: Seq<TaskModelBinding>,
    task: Seq<char>,
    b: TaskModelBinding,
)
    requires
        b.task_profile_id@ == task,
        b.enabled,
    ensures
        ({
            let r = upsert(disable_task_bindings(bindings, task), binding_has_id(b.id@), b);
            &&& r.contains(b)
            &&& forall|j: int|
                0 <= j < r.len() && (#[trigger] r[j]).task_profile_id@ == task && r[j].enabled
                    ==> r[j] == b
        }),
{
    let d = disable_task_bindings(bindings, task);
    let r = upsert(d, binding_has_id(b.id@), b);
    let i = first_index(d, binding_has_id(b.id@));
    lemma_first_index(d, binding_has_id(b.id@));
    if i >= 0 {
        assert(r[i] == b);
    } else {
        assert(r[r.len() - 1] == b);
    }
}

/// Recording a capability manifest leaves it as the only manifest of its
/// model/runtime pair, and keeps every manifest of the other pairs.
pub proof fn lemma_manifest_supersedes(s: Seq<CapabilityManifest>, m: CapabilityManifest)
    ensures
        ({
            let pair = manifest_for(m.model_definition_id@, Some(m.runtime_definition_id@));
            let r = s.filter(keep_manifest(m.model_definition_id@, Some(m.runtime_definition_id@))).push(m);
            &&& r.last() == m
            &&& forall|j: int| 0 <= j < r.len() - 1 ==> !pair(#[trigger] r[j])
            &&& forall|j: int| 0 <= j < s.len() && !pair(#[trigger] s[j]) ==> r.contains(s[j])
        }),
{
    let pair = manifest_for(m.model_definition_id@, Some(m.runtime_definition_id@));
    let q = keep_manifest(m.model_definition_id@, Some(m.runtime_definition_id@));
    let kept = s.filter(q);
    let r = kept.push(m);
    lemma_filter_subset(s, q);
    assert forall|j: int| 0 <= j < r.len() - 1 implies !pair(#[trigger] r[j]) by {
        assert(r[j] == kept[j]);
        assert(q(kept[j]));
    }
    assert forall|j: int| 0 <= j < s.len() && !pair(#[trigger] s[j]) implies r.contains(s[j]) by {
        lemma_filter_keeps(s, q, j);
        let k = choose|k: int| 0 <= k < kept.len() && kept[k] == s[j];
        assert(r[k] == s[j]);
    }
}

/// Recording a benchmark result leaves it as the only result of its
/// task/model/runtime triple, and keeps every result of the other triples.
pub proof fn lemma_benchmark_supersedes(s: Seq<BenchmarkResultSummary>, b: BenchmarkResultSummary)
    ensures
        ({
            let triple = benchmark_for(
                Some(b.task_profile_id@),
                b.model_definition_id@,
                Some(b.runtime_definition_id@),
            );
            let r = s.filter(
                keep_benchmark(
                    Some(b.task_profile_id@),
                    b.model_definition_id@,
                    Some(b.runtime_definition_id@),
                ),
            ).push(b);
            &&& r.last() == b
            &&& forall|j: int| 0 <= j < r.len() - 1 ==> !triple(#[trigger] r[j])
            &&& forall|j: int| 0 <= j < s.len() && !triple(#[trigger] s[j]) ==> r.contains(s[j])
        }),
{
    let triple = benchmark_for(
        Some(b.task_profile_id@),
        b.model_definition_id@,
        Some(b.runtime_definition_id@),
    );
    let q = keep_benchmark(
        Some(b.task_profile_id@),
        b.model_definition_id@,
        Some(b.runtime_definition_id@),
    );
    let kept = s.filter(q);
    let r = kept.push(b);
    lemma_filter_subset(s, q);
    assert forall|j: int| 0 <= j < r.len() - 1 implies !triple(#[trigger] r[j]) by {
        assert(r[j] == kept[j]);
        assert(q(kept[j]));
    }
    assert forall|j: int| 0 <= j < s.len() && !triple(#[trigger] s[j]) implies r.contains(s[j]) by {
        lemma_filter_keeps(s, q, j);
        let k = choose|k: int| 0 <= k < kept.len() && kept[k] == s[j];
        assert(r[k] == s[j]);
    }
}

/// The evidence the production gate asks of one enabled binding of model
/// `m`: its task profile and runtime are registered, a current capability
/// manifest of the pair satisfies the task, and a current passing benchmark
/// exists unless the model is grandfathered.
pub open spec fn binding_evidence(c: ModelPlatformConfig, m: ModelDefinition, b: TaskModelBinding) -> bool {
    let ti = task_pos(c, b.task_profile_id@);
    let ri = runtime_pos(c, b.runtime_definition_id@);
    &&& ti >= 0
    &&& ri >= 0
    &&& ({
        let task = c.task_profiles@[ti];
        let rt = c.runtimes@[ri];
        let rfp = spec_runtime_fingerprint(rt);
        let k = first_index(
            c.capability_manifests@,
            manifest_is_current(m.id@, rt.id@, m.model_fingerprint@, rfp),
        );
        &&& k >= 0
        &&& c.capability_manifests@[k].spec_satisfies(task.required_capabilities)
        &&& has_current_pass(
            c.benchmark_results@,
            task.id@,
            m.id@,
            rt.id@,
            m.model_fingerprint@,
            rfp,
        ) || m.spec_is_grandfathered()
    })
}

proof fn lemma_findings_clear_iff_evidence(
    c: ModelPlatformConfig,
    m: ModelDefinition,
    b: TaskModelBinding,
)
    ensures
        (binding_findings(c, m, b) matches Some(f) && f.1.len() == 0) <==> binding_evidence(
            c,
            m,
            b,
        ),
{
}

proof fn lemma_gate_walk_clear(
    c: ModelPlatformConfig,
    m: ModelDefinition,
    id: Seq<char>,
    bs: Seq<TaskModelBinding>,
)
    ensures
        (gate_walk(c, m, id, bs) matches Some(acc) && acc.1.len() == 0) <==> forall|j: int|
            0 <= j < bs.len() && is_enabled_for(#[trigger] bs[j], id) ==> binding_evidence(
                c,
                m,
                bs[j],
            ),
    decreases bs.len(),
{
    if bs.len() > 0 {
        let t = bs.drop_last();
        let b = bs.last();
        lemma_gate_walk_clear(c, m, id, t);
        lemma_findings_clear_iff_evidence(c, m, b);
        assert forall|j: int| 0 <= j < t.len() implies #[trigger] t[j] == bs[j] by {}
        let all_t = forall|j: int|
            0 <= j < t.len() && is_enabled_for(#[trigger] t[j], id) ==> binding_evidence(c, m, t[j]);
        let all_bs = forall|j: int|
            0 <= j < bs.len() && is_enabled_for(#[trigger] bs[j], id) ==> binding_evidence(
                c,
                m,
                bs[j],
            );
        if all_bs {
            assert(all_t) by {
                assert forall|j: int| 0 <= j < t.len() && is_enabled_for(#[trigger] t[j], id) implies binding_evidence(c, m, t[j]) by {
                    assert(bs[j] == t[j]);
                }
            }
            assert(is_enabled_for(bs[bs.len() - 1], id) ==> binding_evidence(c, m, b));
        }
        if gate_walk(c, m, id, bs) is Some && gate_walk(c, m, id, bs).unwrap().1.len() == 0 {
            let acc = gate_walk(c, m, id, bs).unwrap();
            assert(gate_walk(c, m, id, t) is Some);
            let acc_t = gate_walk(c, m, id, t).unwrap();
            if is_enabled_for(b, id) {
                let f = binding_findings(c, m, b).unwrap();
                assert(acc.1 == acc_t.1 + f.1);
                assert(acc_t.1.len() == 0 && f.1.len() == 0);
            }
            assert forall|j: int| 0 <= j < bs.len() && is_enabled_for(#[trigger] bs[j], id) implies binding_evidence(c, m, bs[j]) by {
                if j < t.len() {
                    assert(bs[j] == t[j]);
                }
            }
        }
    }
}

/// The production gate lets a model through exactly when the model is
/// registered, has at least one enabled binding, and every enabled binding
/// of it carries the promotion evidence.
pub proof fn lemma_promotion_allowed_iff_evidence(c: ModelPlatformConfig, id: Seq<char>)
    ensures
        promotion_allowed(c, id) <==> {
            &&& model_pos(c, id) >= 0
            &&& has_enabled_binding(c, id)
            &&& forall|j: int|
                0 <= j < c.bindings@.len() && is_enabled_for(#[trigger] c.bindings@[j], id)
                    ==> binding_evidence(c, c.models@[model_pos(c, id)], c.bindings@[j])
        },
{
    let mi = model_pos(c, id);
    if mi >= 0 {
        lemma_gate_walk_clear(c, c.models@[mi], id, c.bindings@);
    }
}

} // verus!
