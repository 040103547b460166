//! Task routing: the enabled binding of a task resolves to a model, a
//! runtime and a current capability manifest, under the privacy, lifecycle
//! and benchmark gates.
use vstd::prelude::*;
use crate::domain::{
    BenchmarkResultSummary, CapabilityManifest, ModelDefinition, ModelLifecycleState,
    ModelPlatformConfig, ModelTaskKind, PrivacyMode, RuntimeDefinition, TaskModelBinding,
    TaskProfile,
};
use crate::errors::{app_error, concat, concat3, AppError, AppErrorCode};
use crate::fingerprint::{fingerprint_runtime_definition, spec_runtime_fingerprint};
use crate::platform::{
    find_current_manifest, has_current_pass, has_current_pass_benchmark,
    is_grandfathered_baseline, manifest_is_current, model_pos, require_model, runtime_pos,
    task_pos, ModelPlatformService,
};
use crate::seqs::{first_index, lemma_first_index, lemma_first_index_is, lemma_first_index_none};
use crate::text::{
    chars_of, char_lower, lead_len, lemma_lead_len, lemma_lead_len_unique, lemma_trail_len,
    lemma_trail_len_unique, lower, str_eq, string_from_chars, trail_len, trim, trim_by,
    trim_chars,
};

verus! {

#[derive(PartialEq, Eq, Structural, Clone, Copy, Debug)]
pub enum RouteUsageMode {
    Production,
    ExplicitExperiment,
}

/// A resolved route: the task profile, its enabled binding, the bound model
/// and runtime, their current capability manifest, whether a passing
/// benchmark (or the grandfathered mark) backs the route, and the usage mode
/// in force.
#[derive(Debug)]
pub struct ResolvedModelRoute {
    pub task_profile: TaskProfile,
    pub binding: TaskModelBinding,
    pub model: ModelDefinition,
    pub runtime: RuntimeDefinition,
    pub capability_manifest: CapabilityManifest,
    pub benchmark_verified: bool,
    pub usage_mode: RouteUsageMode,
}

// ---------------------------------------------------------------------------
// Loopback hosts
// ---------------------------------------------------------------------------
pub open spec fn is_bracket(c: char) -> bool {
    c == '[' || c == ']'
}

/// A host as compared against the loopback names: trimmed, brackets
/// stripped from both ends, ASCII lower-cased.
pub open spec fn host_key(host: Seq<char>) -> Seq<char> {
    trim_by(trim(host), |c: char| is_bracket(c)).map_values(|c: char| lower(c))
}

/// `127.0.0.1`, `::1` or `localhost`, after `host_key`.
pub open spec fn is_loopback(host: Seq<char>) -> bool {
    let k = host_key(host);
    k == "127.0.0.1"@ || k == "::1"@ || k == "localhost"@
}

fn strip_brackets(v: &Vec<char>) -> (r: Vec<char>)
    ensures
        r@ == trim_by(v@, |c: char| is_bracket(c)),
{
    let ghost p = |c: char| is_bracket(c);
    let mut a: usize = 0;
    while a < v.len() && (v[a] == '[' || v[a] == ']')
        invariant
            a <= v.len(),
            p == (|c: char| is_bracket(c)),
            forall|j: int| 0 <= j < a ==> p(#[trigger] v@[j]),
        decreases v.len() - a,
    {
        assert(p(v@[a as int]));
        a = a + 1;
    }
    proof {
        lemma_lead_len_unique(v@, p, a as int);
    }
    if a == v.len() {
        return Vec::new();
    }
    let mut b: usize = 0;
    while b < v.len() && (v[v.len() - 1 - b] == '[' || v[v.len() - 1 - b] == ']')
        invariant
            b <= v.len(),
            p == (|c: char| is_bracket(c)),
            forall|j: int| v@.len() - b <= j < v@.len() ==> p(#[trigger] v@[j]),
        decreases v.len() - b,
    {
        assert(p(v@[v@.len() - 1 - b]));
        b = b + 1;
    }
    proof {
        lemma_trail_len_unique(v@, p, b as int);
        lemma_lead_len(v@, p);
        if v@.len() - b <= a {
            assert(p(v@[a as int]));
        }
    }
    let mut r: Vec<char> = Vec::new();
    let mut i: usize = a;
    while i < v.len() - b
        invariant
            a <= i <= v.len() - b,
            b <= v.len(),
            r@ == v@.subrange(a as int, i as int),
        decreases v.len() - b - i,
    {
        r.push(v[i]);
        assert(v@.subrange(a as int, i + 1) == v@.subrange(a as int, i as int).push(v@[i as int]));
        i = i + 1;
    }
    r
}

/// Whether `host` names the local machine.
pub fn is_loopback_host(host: &str) -> (r: bool)
    ensures
        r == is_loopback(host@),
{
    let chars = chars_of(host);
    let trimmed = trim_chars(&chars);
    let stripped = strip_brackets(&trimmed);
    let mut lowered: Vec<char> = Vec::new();
    let mut i: usize = 0;
    while i < stripped.len()
        invariant
            i <= stripped.len(),
            lowered@ == stripped@.subrange(0, i as int).map_values(|c: char| lower(c)),
        decreases stripped.len() - i,
    {
        lowered.push(char_lower(stripped[i]));
        assert(stripped@.subrange(0, i + 1).map_values(|c: char| lower(c)) =~= stripped@.subrange(
            0,
            i as int,
        ).map_values(|c: char| lower(c)).push(lower(stripped@[i as int])));
        i = i + 1;
    }
    assert(stripped@.subrange(0, stripped@.len() as int) == stripped@);
    assert(lowered@ == host_key(host@));
    let key = string_from_chars(&lowered);
    str_eq(key.as_str(), "127.0.0.1") || str_eq(key.as_str(), "::1") || str_eq(
        key.as_str(),
        "localhost",
    )
}

// ---------------------------------------------------------------------------
// Route gates
// ---------------------------------------------------------------------------
/// An enabled binding of the task profile `task_id`.
pub open spec fn enabled_binding_of(task_id: Seq<char>) -> spec_fn(TaskModelBinding) -> bool {
    |b: TaskModelBinding| b.task_profile_id@ == task_id && b.enabled
}

/// A production request on a binding that opts a non-production model into
/// experiments runs as an explicit experiment; otherwise the requested mode
/// stands.
pub open spec fn effective_usage(
    usage: RouteUsageMode,
    b: TaskModelBinding,
    m: ModelDefinition,
) -> RouteUsageMode {
    if usage == RouteUsageMode::Production && b.allow_experimental_student_data
        && m.lifecycle_state != ModelLifecycleState::Production {
        RouteUsageMode::ExplicitExperiment
    } else {
        usage
    }
}

/// The error code with which the lifecycle gate refuses a route, if any.
pub open spec fn lifecycle_block(
    m: ModelDefinition,
    b: TaskModelBinding,
    task: ModelTaskKind,
    usage: RouteUsageMode,
) -> Option<AppErrorCode> {
    match usage {
        RouteUsageMode::Production => if !m.lifecycle_state.spec_may_receive_production_student_data()
            && task.spec_contains_student_data() {
            Some(AppErrorCode::ModelNotProductionApproved)
        } else if m.lifecycle_state != ModelLifecycleState::Production {
            Some(AppErrorCode::ModelNotProductionApproved)
        } else {
            None
        },
        RouteUsageMode::ExplicitExperiment => if task.spec_contains_student_data() {
            if !b.allow_experimental_student_data {
                Some(AppErrorCode::ModelBindingUnavailable)
            } else if !m.lifecycle_state.spec_may_receive_explicit_experiment_student_data() {
                Some(AppErrorCode::ModelNotProductionApproved)
            } else {
                None
            }
        } else {
            None
        },
    }
}

pub open spec fn lifecycle_name(s: ModelLifecycleState) -> Seq<char> {
    match s {
        ModelLifecycleState::Imported => "Imported"@,
        ModelLifecycleState::Probing => "Probing"@,
        ModelLifecycleState::ProbeFailed => "ProbeFailed"@,
        ModelLifecycleState::Unsupported => "Unsupported"@,
        ModelLifecycleState::Compatible => "Compatible"@,
        ModelLifecycleState::Experimental => "Experimental"@,
        ModelLifecycleState::BenchmarkVerified => "BenchmarkVerified"@,
        ModelLifecycleState::BenchmarkFailed => "BenchmarkFailed"@,
        ModelLifecycleState::Production => "Production"@,
    }
}

/// The name of a lifecycle state, as its debug rendering prints it.
pub fn lifecycle_state_name(s: ModelLifecycleState) -> (r: &'static str)
    ensures
        r@ == lifecycle_name(s),
{
    match s {
        ModelLifecycleState::Imported => "Imported",
        ModelLifecycleState::Probing => "Probing",
        ModelLifecycleState::ProbeFailed => "ProbeFailed",
        ModelLifecycleState::Unsupported => "Unsupported",
        ModelLifecycleState::Compatible => "Compatible",
        ModelLifecycleState::Experimental => "Experimental",
        ModelLifecycleState::BenchmarkVerified => "BenchmarkVerified",
        ModelLifecycleState::BenchmarkFailed => "BenchmarkFailed",
        ModelLifecycleState::Production => "Production",
    }
}

/// The lifecycle gate: a production route needs a production model; an
/// explicit experiment with student data needs the binding's opt-in and a
/// model at least in the experimental stage.
pub fn enforce_lifecycle(
    model: &ModelDefinition,
    binding: &TaskModelBinding,
    task: ModelTaskKind,
    usage_mode: RouteUsageMode,
) -> (r: Result<(), AppError>)
    ensures
        match lifecycle_block(*model, *binding, task, usage_mode) {
            Some(code) => r matches Err(e) && e.code == code,
            None => r is Ok,
        },
{
    match usage_mode {
        RouteUsageMode::Production => {
            if !model.lifecycle_state.may_receive_production_student_data()
                && task.contains_student_data() {
                let mut detail = concat3(
                    "model_definition_id=",
                    model.id.as_str(),
                    "; lifecycle=",
                );
                detail.append(lifecycle_state_name(model.lifecycle_state));
                return Err(
                    app_error(
                        AppErrorCode::ModelNotProductionApproved,
                        "Production öğrenci verisi yalnız Production modeline gönderilebilir.",
                        Some(detail),
                        Some("Production onaylı bir model seçin.".to_owned()),
                    ),
                );
            }
            if model.lifecycle_state != ModelLifecycleState::Production {
                return Err(
                    app_error(
                        AppErrorCode::ModelNotProductionApproved,
                        "Production akışı production onaylı model gerektiriyor.",
                        Some(concat("lifecycle=", lifecycle_state_name(model.lifecycle_state))),
                        Some("Modeli benchmark gate sonrası Production'a yükseltin.".to_owned()),
                    ),
                );
            }
        },
        RouteUsageMode::ExplicitExperiment => {
            if task.contains_student_data() {
                if !binding.allow_experimental_student_data {
                    return Err(
                        app_error(
                            AppErrorCode::ModelBindingUnavailable,
                            "Experimental model için öğrenci verisi kullanımı açıkça onaylanmamış.",
                            Some(concat("binding_id=", binding.id.as_str())),
                            Some(
                                "Görev atamasında güvenli deney kullanımını açıkça etkinleştirin.".to_owned(),
                            ),
                        ),
                    );
                }
                if !model.lifecycle_state.may_receive_explicit_experiment_student_data() {
                    return Err(
                        app_error(
                            AppErrorCode::ModelNotProductionApproved,
                            "Bu model lifecycle durumunda öğrenci verisi alamaz.",
                            Some(concat("lifecycle=", lifecycle_state_name(model.lifecycle_state))),
                            Some(
                                "Önce capability probe'u tamamlayıp modeli Experimental yapın.".to_owned(),
                            ),
                        ),
                    );
                }
            }
        },
    }
    Ok(())
}

/// Where a route for `task` resolves in registry `c`: the positions of the
/// task profile, binding, model, runtime and capability manifest, whether
/// the route is benchmark-backed, and the usage mode in force; or the error
/// code of the first gate that refuses it.
pub open spec fn route_outcome(
    c: ModelPlatformConfig,
    task: ModelTaskKind,
    usage: RouteUsageMode,
) -> Result<(int, int, int, int, int, bool, RouteUsageMode), AppErrorCode> {
    let ti = task_pos(c, task.spec_id());
    if ti < 0 {
        Err(AppErrorCode::ModelRegistryEntryNotFound)
    } else {
        let tp = c.task_profiles@[ti];
        let bi = first_index(c.bindings@, enabled_binding_of(tp.id@));
        if bi < 0 {
            Err(AppErrorCode::ModelBindingNotFound)
        } else {
            let b = c.bindings@[bi];
            let mi = model_pos(c, b.model_definition_id@);
            if mi < 0 {
                Err(AppErrorCode::ModelRegistryEntryNotFound)
            } else {
                let m = c.models@[mi];
                let ri = runtime_pos(c, b.runtime_definition_id@);
                if ri < 0 {
                    Err(AppErrorCode::ModelBindingUnavailable)
                } else {
                    let rt = c.runtimes@[ri];
                    if task.spec_contains_student_data() && rt.privacy_mode
                        == PrivacyMode::StrictLocal && !is_loopback(rt.host@) {
                        Err(AppErrorCode::ModelPrivacyBlocked)
                    } else {
                        let eff = effective_usage(usage, b, m);
                        match lifecycle_block(m, b, task, eff) {
                            Some(code) => Err(code),
                            None => {
                                let rfp = spec_runtime_fingerprint(rt);
                                let k = first_index(
                                    c.capability_manifests@,
                                    manifest_is_current(m.id@, rt.id@, m.model_fingerprint@, rfp),
                                );
                                if k < 0 {
                                    Err(AppErrorCode::ModelCapabilityUnverified)
                                } else if !c.capability_manifests@[k].spec_satisfies(
                                    tp.required_capabilities,
                                ) {
                                    Err(AppErrorCode::ModelCapabilityMismatch)
                                } else {
                                    let bench = has_current_pass(
                                        c.benchmark_results@,
                                        tp.id@,
                                        m.id@,
                                        rt.id@,
                                        m.model_fingerprint@,
                                        rfp,
                                    );
                                    let grand = m.spec_is_grandfathered();
                                    if eff == RouteUsageMode::Production && !bench && !grand {
                                        Err(AppErrorCode::ModelBenchmarkRequired)
                                    } else {
                                        Ok((ti, bi, mi, ri, k, bench || grand, eff))
                                    }
                                }
                            },
                        }
                    }
                }
            }
        }
    }
}

/// `r` is what resolving `task` in `c` gives: the route built from the
/// positions `route_outcome` names, or an error with its code.
pub open spec fn route_result_matches(
    r: Result<ResolvedModelRoute, AppError>,
    c: ModelPlatformConfig,
    task: ModelTaskKind,
    usage: RouteUsageMode,
) -> bool {
    match route_outcome(c, task, usage) {
        Ok(t) => r matches Ok(route) && {
            &&& route.task_profile == c.task_profiles@[t.0]
            &&& route.binding == c.bindings@[t.1]
            &&& route.model@ == c.models@[t.2]@
            &&& route.runtime == c.runtimes@[t.3]
            &&& route.capability_manifest@ == c.capability_manifests@[t.4]@
            &&& route.benchmark_verified == t.5
            &&& route.usage_mode == t.6
        },
        Err(code) => r matches Err(e) && e.code == code,
    }
}

fn find_enabled_binding(bindings: &Vec<TaskModelBinding>, task_id: &str) -> (r: Option<usize>)
    ensures
        match r {
            Some(i) => i < bindings@.len() && i as int == first_index(
                bindings@,
                enabled_binding_of(task_id@),
            ),
            None => first_index(bindings@, enabled_binding_of(task_id@)) == -1,
        },
{
    let ghost p = enabled_binding_of(task_id@);
    let mut i: usize = 0;
    while i < bindings.len()
        invariant
            i <= bindings.len(),
            p == enabled_binding_of(task_id@),
            forall|j: int| 0 <= j < i ==> !p(#[trigger] bindings@[j]),
        decreases bindings.len() - i,
    {
        if bindings[i].enabled && str_eq(bindings[i].task_profile_id.as_str(), task_id) {
            proof {
                lemma_first_index_is(bindings@, p, i as int);
            }
            return Some(i);
        }
        i = i + 1;
    }
    proof {
        lemma_first_index_none(bindings@, p);
    }
    None
}

fn find_task(tasks: &Vec<TaskProfile>, id: &str) -> (r: Option<usize>)
    ensures
        match r {
            Some(i) => i < tasks@.len() && i as int == first_index(
                tasks@,
                crate::platform::task_has_id(id@),
            ),
            None => first_index(tasks@, crate::platform::task_has_id(id@)) == -1,
        },
{
    crate::platform::find_task_profile(tasks, id)
}

/// Resolves the route of `task` in registry `c`: the task profile, its first enabled
/// binding, the bound model and runtime, then the privacy gate (student
/// data stays on loopback strict-local runtimes), the lifecycle gate, the
/// current capability manifest and its coverage of the task, and for
/// production routes a passing benchmark or the grandfathered mark.
pub fn resolve_route(c: &ModelPlatformConfig, task: ModelTaskKind, usage_mode: RouteUsageMode) -> (r: Result<
    ResolvedModelRoute,
    AppError,
>)
    ensures
        route_result_matches(r, *c, task, usage_mode),
{
    let ti = match find_task(&c.task_profiles, task.id()) {
        Some(i) => i,
        None => {
            return Err(
                app_error(
                    AppErrorCode::ModelRegistryEntryNotFound,
                    "Bu model görevi için TaskProfile bulunamadı.",
                    Some(concat("task_profile_id=", task.id())),
                    Some("Model platform ayarlarını yeniden oluşturun.".to_owned()),
                ),
            );
        },
    };
    let task_profile = &c.task_profiles[ti];
    let bi = match find_enabled_binding(&c.bindings, task_profile.id.as_str()) {
        Some(i) => i,
        None => {
            return Err(
                app_error(
                    AppErrorCode::ModelBindingNotFound,
                    "Bu görev için etkin model ataması bulunamadı.",
                    Some(concat("task_profile_id=", task_profile.id.as_str())),
                    Some(
                        "Yerel Modeller > Görev Atamaları bölümünden model seçin.".to_owned(),
                    ),
                ),
            );
        },
    };
    let binding = &c.bindings[bi];
    let mi = match crate::platform::find_model(&c.models, binding.model_definition_id.as_str()) {
        Some(i) => i,
        None => {
            return Err(
                app_error(
                    AppErrorCode::ModelRegistryEntryNotFound,
                    "Göreve atanmış model registry'de bulunamadı.",
                    Some(concat("model_definition_id=", binding.model_definition_id.as_str())),
                    Some("Görev atamasını geçerli bir modele değiştirin.".to_owned()),
                ),
            );
        },
    };
    let model = &c.models[mi];
    let ri = match crate::platform::find_runtime(&c.runtimes, binding.runtime_definition_id.as_str()) {
        Some(i) => i,
        None => {
            return Err(
                app_error(
                    AppErrorCode::ModelBindingUnavailable,
                    "Göreve atanmış runtime registry'de bulunamadı.",
                    Some(concat("runtime_definition_id=", binding.runtime_definition_id.as_str())),
                    Some("Görev atamasını geçerli bir runtime ile güncelleyin.".to_owned()),
                ),
            );
        },
    };
    let runtime = &c.runtimes[ri];
    if task.contains_student_data() && runtime.privacy_mode == PrivacyMode::StrictLocal
        && !is_loopback_host(runtime.host.as_str()) {
        return Err(
            app_error(
                AppErrorCode::ModelPrivacyBlocked,
                "Öğrenci verisi Strict Local sınırı dışındaki runtime'a gönderilemez.",
                Some(concat("host=", runtime.host.as_str())),
                Some("Loopback yerel runtime seçin.".to_owned()),
            ),
        );
    }
    // A binding may explicitly opt a non-production model into an
    // experiment; the route then records ExplicitExperiment.
    let effective_usage_mode = if usage_mode == RouteUsageMode::Production
        && binding.allow_experimental_student_data && model.lifecycle_state
        != ModelLifecycleState::Production {
        RouteUsageMode::ExplicitExperiment
    } else {
        usage_mode
    };
    enforce_lifecycle(model, binding, task, effective_usage_mode)?;
    let runtime_fp = fingerprint_runtime_definition(runtime);
    let k = match find_current_manifest(
        &c.capability_manifests,
        model.id.as_str(),
        runtime.id.as_str(),
        model.model_fingerprint.as_str(),
        runtime_fp.as_str(),
    ) {
        Some(k) => k,
        None => {
            let mut detail = concat3("model_definition_id=", model.id.as_str(), "; runtime_definition_id=");
            detail.append(runtime.id.as_str());
            return Err(
                app_error(
                    AppErrorCode::ModelCapabilityUnverified,
                    "Seçili model/runtime için güncel capability doğrulaması yok.",
                    Some(detail),
                    Some("Capability probe'u yeniden çalıştırın.".to_owned()),
                ),
            );
        },
    };
    let manifest = &c.capability_manifests[k];
    if !manifest.satisfies(&task_profile.required_capabilities) {
        return Err(
            app_error(
                AppErrorCode::ModelCapabilityMismatch,
                "Model bu görevin gerekli capability'lerini karşılamıyor.",
                Some(concat("task_profile_id=", task_profile.id.as_str())),
                Some("Uyumlu bir model seçin veya capability probe'u yenileyin.".to_owned()),
            ),
        );
    }
    let benchmark_verified = has_current_pass_benchmark(
        &c.benchmark_results,
        task_profile.id.as_str(),
        model.id.as_str(),
        runtime.id.as_str(),
        model.model_fingerprint.as_str(),
        runtime_fp.as_str(),
    );
    let grandfathered = is_grandfathered_baseline(model);
    if effective_usage_mode == RouteUsageMode::Production && !benchmark_verified
        && !grandfathered {
        return Err(
            app_error(
                AppErrorCode::ModelBenchmarkRequired,
                "Seçili model bu görev için benchmark promotion gate'ini geçmemiş.",
                Some(concat("task_profile_id=", task_profile.id.as_str())),
                Some("Golden benchmark çalıştırın veya production modeli seçin.".to_owned()),
            ),
        );
    }
    Ok(
        ResolvedModelRoute {
            task_profile: task_profile.clone(),
            binding: binding.clone(),
            model: model.clone(),
            runtime: runtime.clone(),
            capability_manifest: manifest.clone(),
            benchmark_verified: benchmark_verified || grandfathered,
            usage_mode: effective_usage_mode,
        },
    )
}

/// Resolves task routes over a model-platform registry.
#[derive(Debug)]
pub struct ModelRouterService {
    platform: ModelPlatformService,
}

impl ModelRouterService {
    /// The registry routes are resolved in.
    pub closed spec fn registry(&self) -> ModelPlatformConfig {
        self.platform.registry()
    }

    pub fn new(platform: ModelPlatformService) -> (s: Self)
        ensures
            s.registry() == platform.registry(),
    {
        ModelRouterService { platform }
    }

    /// Resolves the route of `task`: the task profile, its first enabled
    /// binding, the bound model and runtime, then the privacy gate (student
    /// data stays on loopback strict-local runtimes), the lifecycle gate, the
    /// current capability manifest and its coverage of the task, and for
    /// production routes a passing benchmark or the grandfathered mark.
    pub fn resolve(&self, task: ModelTaskKind, usage_mode: RouteUsageMode) -> (r: Result<
        ResolvedModelRoute,
        AppError,
    >)
        ensures
            route_result_matches(r, self.registry(), task, usage_mode),
    {
        resolve_route(self.platform.registry_ref(), task, usage_mode)
    }
}

// ---------------------------------------------------------------------------
// Laws of routing
// ---------------------------------------------------------------------------
/// Student data never resolves to a strict-local runtime whose host is not
/// a loopback host.
pub proof fn lemma_route_keeps_student_data_local(
    c: ModelPlatformConfig,
    task: ModelTaskKind,
    usage: RouteUsageMode,
)
    requires
        route_outcome(c, task, usage) is Ok,
        task.spec_contains_student_data(),
    ensures
        ({
            let t = route_outcome(c, task, usage).unwrap();
            let rt = c.runtimes@[t.3];
            rt.privacy_mode == PrivacyMode::StrictLocal ==> is_loopback(rt.host@)
        }),
{
}

/// A route that resolves in production mode runs on a production model and
/// is backed by a passing benchmark or the grandfathered mark; student data
/// reaches a non-production model only through an explicit experiment that
/// the binding opted into, on a model at least in the experimental stage.
pub proof fn lemma_route_lifecycle_gate(
    c: ModelPlatformConfig,
    task: ModelTaskKind,
    usage: RouteUsageMode,
)
    requires
        route_outcome(c, task, usage) is Ok,
    ensures
        ({
            let t = route_outcome(c, task, usage).unwrap();
            let b = c.bindings@[t.1];
            let m = c.models@[t.2];
            &&& t.6 == RouteUsageMode::Production ==> m.lifecycle_state
                == ModelLifecycleState::Production && t.5
            &&& t.6 == RouteUsageMode::ExplicitExperiment ==> (usage
                == RouteUsageMode::ExplicitExperiment || b.allow_experimental_student_data)
            &&& task.spec_contains_student_data() && m.lifecycle_state
                != ModelLifecycleState::Production ==> {
                &&& t.6 == RouteUsageMode::ExplicitExperiment
                &&& b.allow_experimental_student_data
                &&& m.lifecycle_state.spec_may_receive_explicit_experiment_student_data()
            }
        }),
{
}

/// A resolved route uses the task's enabled binding and a current capability
/// manifest of the bound model/runtime pair that covers the task.
pub proof fn lemma_route_uses_current_manifest(
    c: ModelPlatformConfig,
    task: ModelTaskKind,
    usage: RouteUsageMode,
)
    requires
        route_outcome(c, task, usage) is Ok,
    ensures
        ({
            let t = route_outcome(c, task, usage).unwrap();
            let tp = c.task_profiles@[t.0];
            let b = c.bindings@[t.1];
            let m = c.models@[t.2];
            let rt = c.runtimes@[t.3];
            let man = c.capability_manifests@[t.4];
            &&& tp.id@ == task.spec_id()
            &&& b.task_profile_id@ == tp.id@ && b.enabled
            &&& m.id@ == b.model_definition_id@
            &&& rt.id@ == b.runtime_definition_id@
            &&& manifest_is_current(m.id@, rt.id@, m.model_fingerprint@, spec_runtime_fingerprint(rt))(man)
            &&& man.spec_satisfies(tp.required_capabilities)
        }),
{
    let t = route_outcome(c, task, usage).unwrap();
    let tp = c.task_profiles@[t.0];
    let b = c.bindings@[t.1];
    let m = c.models@[t.2];
    let rt = c.runtimes@[t.3];
    lemma_first_index(c.task_profiles@, crate::platform::task_has_id(task.spec_id()));
    lemma_first_index(c.bindings@, enabled_binding_of(tp.id@));
    lemma_first_index(c.models@, crate::platform::model_has_id(b.model_definition_id@));
    lemma_first_index(c.runtimes@, crate::platform::runtime_has_id(b.runtime_definition_id@));
    lemma_first_index(
        c.capability_manifests@,
        manifest_is_current(m.id@, rt.id@, m.model_fingerprint@, spec_runtime_fingerprint(rt)),
    );
}

} // verus!
