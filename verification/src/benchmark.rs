//! Recording a benchmark result and what it does to the model's lifecycle.
//! Whether the observations meet the task's metric policy is measured
//! elsewhere (the metrics are real numbers); here the outcome is recorded:
//! only a trusted, measured benchmark that meets the policy passes, and
//! observations entered by a user or another untrusted caller are kept as
//! diagnostics that can never satisfy the Production promotion gate.
use vstd::prelude::*;
use crate::domain::{BenchmarkGateState, BenchmarkResultSummary, ModelLifecycleState, ModelPlatformConfig};
use crate::errors::{app_error, concat, AppError, AppErrorCode};
use crate::json::{opt_view, views};
use crate::text::str_eq;
use crate::fingerprint::{fingerprint_runtime_definition, spec_runtime_fingerprint};
use crate::platform::{
    benchmark_result_id_spec, find_model, find_runtime, find_task_profile, keep_benchmark, lifecycle_set,
    model_pos, new_benchmark_result_id, runtime_pos, task_pos, ModelPlatformService,
};

verus! {

/// The state of a benchmark result: a pass only for a trusted benchmark that
/// meets the policy.
pub open spec fn spec_gate_state(promotion_eligible: bool, policy_pass: bool) -> BenchmarkGateState {
    if promotion_eligible && policy_pass {
        BenchmarkGateState::Pass
    } else {
        BenchmarkGateState::Fail
    }
}

pub fn gate_state(promotion_eligible: bool, policy_pass: bool) -> (r: BenchmarkGateState)
    ensures
        r == spec_gate_state(promotion_eligible, policy_pass),
{
    if promotion_eligible && policy_pass {
        BenchmarkGateState::Pass
    } else {
        BenchmarkGateState::Fail
    }
}

/// The lifecycle a trusted benchmark moves the model to: an experimental or
/// compatible model that meets the policy becomes benchmark-verified; a
/// model that fails it becomes benchmark-failed, unless it is in
/// production. An untrusted benchmark moves nothing.
pub open spec fn spec_lifecycle_after(
    promotion_eligible: bool,
    policy_pass: bool,
    current: ModelLifecycleState,
) -> Option<ModelLifecycleState> {
    if !promotion_eligible {
        None
    } else if policy_pass && (current == ModelLifecycleState::Experimental || current
        == ModelLifecycleState::Compatible) {
        Some(ModelLifecycleState::BenchmarkVerified)
    } else if !policy_pass && current != ModelLifecycleState::Production {
        Some(ModelLifecycleState::BenchmarkFailed)
    } else {
        None
    }
}

pub fn lifecycle_after(promotion_eligible: bool, policy_pass: bool, current: ModelLifecycleState) -> (r: Option<
    ModelLifecycleState,
>)
    ensures
        r == spec_lifecycle_after(promotion_eligible, policy_pass, current),
        !promotion_eligible ==> r is None,
        promotion_eligible && policy_pass && (current == ModelLifecycleState::Experimental || current
            == ModelLifecycleState::Compatible) ==> r == Some(ModelLifecycleState::BenchmarkVerified),
        promotion_eligible && !policy_pass && current != ModelLifecycleState::Production ==> r == Some(
            ModelLifecycleState::BenchmarkFailed,
        ),
        r is Some ==> promotion_eligible && current != ModelLifecycleState::Production,
{
    if !promotion_eligible {
        None
    } else if policy_pass && (current == ModelLifecycleState::Experimental || current
        == ModelLifecycleState::Compatible) {
        Some(ModelLifecycleState::BenchmarkVerified)
    } else if !policy_pass && current != ModelLifecycleState::Production {
        Some(ModelLifecycleState::BenchmarkFailed)
    } else {
        None
    }
}

/// The prefix of a result's id: `verified-` for a trusted benchmark,
/// `diagnostic-` otherwise.
pub open spec fn id_prefix(promotion_eligible: bool) -> Seq<char> {
    if promotion_eligible {
        "verified-"@
    } else {
        "diagnostic-"@
    }
}

/// The result recorded for a benchmark of task `ti`, model `mi` and runtime
/// `ri` of `c`.
pub open spec fn is_recorded_result(
    s: BenchmarkResultSummary,
    c: ModelPlatformConfig,
    ti: int,
    mi: int,
    ri: int,
    promotion_eligible: bool,
    policy_pass: bool,
) -> bool {
    &&& s.task_profile_id == c.task_profiles@[ti].id
    &&& s.model_definition_id == c.models@[mi].id
    &&& s.runtime_definition_id == c.runtimes@[ri].id
    &&& s.model_fingerprint == c.models@[mi].model_fingerprint
    &&& s.runtime_fingerprint@ == spec_runtime_fingerprint(c.runtimes@[ri])
    &&& s.state == spec_gate_state(promotion_eligible, policy_pass)
    &&& exists|millis: i64|
        s.id@ == id_prefix(promotion_eligible) + #[trigger] benchmark_result_id_spec(
            c.task_profiles@[ti].id@,
            c.models@[mi].id@,
            millis as int,
        )
}

/// What recording a benchmark of task `task`, model `model` and runtime
/// `runtime` does to registry `c` (which becomes `f`) and returns: an error
/// when one of them is not registered (and nothing changes); otherwise the
/// recorded result, which replaces the earlier results of the same triple,
/// with the model's lifecycle moved as the outcome demands and the rest of
/// the registry unchanged.
pub open spec fn benchmark_recorded(
    c: ModelPlatformConfig,
    f: ModelPlatformConfig,
    task: Seq<char>,
    model: Seq<char>,
    runtime: Seq<char>,
    policy_pass: bool,
    promotion_eligible: bool,
    r: Result<BenchmarkResultSummary, AppError>,
) -> bool {
    let ti = task_pos(c, task);
    let mi = model_pos(c, model);
    let ri = runtime_pos(c, runtime);
    if ti < 0 || mi < 0 || ri < 0 {
        &&& r matches Err(e) && e.code == AppErrorCode::ModelRegistryEntryNotFound
        &&& f == c
    } else {
        &&& r matches Ok(s) && is_recorded_result(s, c, ti, mi, ri, promotion_eligible, policy_pass)
            && f.benchmark_results@ == c.benchmark_results@.filter(
            keep_benchmark(Some(s.task_profile_id@), s.model_definition_id@, Some(s.runtime_definition_id@)),
        ).push(s)
        &&& f.models@ == match spec_lifecycle_after(promotion_eligible, policy_pass, c.models@[mi].lifecycle_state) {
            Some(t) => lifecycle_set(c, model, t),
            None => c.models@,
        }
        &&& f.runtimes == c.runtimes
        &&& f.task_profiles == c.task_profiles
        &&& f.bindings == c.bindings
        &&& f.capability_manifests == c.capability_manifests
    }
}

fn not_found(message: &str, key: &str, id: &str) -> (e: AppError)
    ensures
        e.code == AppErrorCode::ModelRegistryEntryNotFound,
{
    app_error(AppErrorCode::ModelRegistryEntryNotFound, message, Some(concat(key, id)), None)
}

/// Records the outcome of a benchmark of a task on a model and runtime of
/// the registry: `policy_pass` says whether the observations met the task's
/// metric policy, `promotion_eligible` whether they were measured by a
/// trusted bridge. The result replaces earlier results of the same task,
/// model and runtime, and a trusted benchmark moves the model's lifecycle.
pub fn record_benchmark(
    platform: &mut ModelPlatformService,
    task_profile_id: &str,
    model_definition_id: &str,
    runtime_definition_id: &str,
    policy_pass: bool,
    promotion_eligible: bool,
) -> (r: Result<BenchmarkResultSummary, AppError>)
    ensures
        final(platform).spec_config_path() == old(platform).spec_config_path(),
        benchmark_recorded(
            old(platform).registry(),
            final(platform).registry(),
            task_profile_id@,
            model_definition_id@,
            runtime_definition_id@,
            policy_pass,
            promotion_eligible,
            r,
        ),
{
    let c = platform.registry_ref();
    let ti = match find_task_profile(&c.task_profiles, task_profile_id) {
        Some(i) => i,
        None => {
            return Err(not_found("Benchmark task profile bulunamadı.", "task_profile_id=", task_profile_id));
        },
    };
    let mi = match find_model(&c.models, model_definition_id) {
        Some(i) => i,
        None => {
            return Err(
                not_found("Benchmark modeli registry'de bulunamadı.", "model_definition_id=", model_definition_id),
            );
        },
    };
    let ri = match find_runtime(&c.runtimes, runtime_definition_id) {
        Some(i) => i,
        None => {
            return Err(
                not_found(
                    "Benchmark runtime'ı registry'de bulunamadı.",
                    "runtime_definition_id=",
                    runtime_definition_id,
                ),
            );
        },
    };
    let task_id = c.task_profiles[ti].id.clone();
    let model_id = c.models[mi].id.clone();
    let lifecycle = c.models[mi].lifecycle_state;
    let base_id = new_benchmark_result_id(task_id.as_str(), model_id.as_str());
    let mut id = if promotion_eligible {
        "verified-".to_owned()
    } else {
        "diagnostic-".to_owned()
    };
    proof {
        reveal_strlit("verified-");
        reveal_strlit("diagnostic-");
    }
    id.append(base_id.as_str());
    let result = BenchmarkResultSummary {
        id,
        task_profile_id: task_id,
        model_definition_id: model_id,
        runtime_definition_id: c.runtimes[ri].id.clone(),
        model_fingerprint: c.models[mi].model_fingerprint.clone(),
        runtime_fingerprint: fingerprint_runtime_definition(&c.runtimes[ri]),
        state: gate_state(promotion_eligible, policy_pass),
        evaluated_at: crate::migration::now_rfc3339(),
    };
    let ghost before = platform.registry();
    proof {
        crate::seqs::lemma_first_index(before.task_profiles@, crate::platform::task_has_id(task_profile_id@));
        crate::seqs::lemma_first_index(before.models@, crate::platform::model_has_id(model_definition_id@));
        crate::seqs::lemma_first_index(before.runtimes@, crate::platform::runtime_has_id(runtime_definition_id@));
        assert(result.task_profile_id@ == task_profile_id@);
        assert(result.model_definition_id@ == model_definition_id@);
        assert(result.runtime_definition_id@ == runtime_definition_id@);
    }
    let recorded = result.clone();
    match platform.record_benchmark_result(recorded) {
        Ok(()) => {},
        Err(e) => {
            return Err(e);
        },
    }
    match lifecycle_after(promotion_eligible, policy_pass, lifecycle) {
        Some(target) => {
            let _ = platform.set_model_lifecycle(model_definition_id, target);
        },
        None => {},
    }
    Ok(result)
}

/// The benchmark service: records benchmark outcomes in a model registry.
pub struct ModelBenchmarkService {
    platform: ModelPlatformService,
}

impl ModelBenchmarkService {
    /// The registry the service records in.
    pub closed spec fn registry(&self) -> ModelPlatformConfig {
        self.platform.registry()
    }

    pub fn new(platform: ModelPlatformService) -> (s: Self)
        ensures
            s.registry() == platform.registry(),
    {
        ModelBenchmarkService { platform }
    }

    /// The registry service.
    pub fn platform(&self) -> (p: &ModelPlatformService)
        ensures
            p.registry() == self.registry(),
    {
        &self.platform
    }

    /// Gives the registry service back.
    pub fn into_platform(self) -> (p: ModelPlatformService)
        ensures
            p.registry() == self.registry(),
    {
        self.platform
    }

    /// Records the outcome of a benchmark (see [`record_benchmark`]).
    pub fn record_outcome(
        &mut self,
        task_profile_id: &str,
        model_definition_id: &str,
        runtime_definition_id: &str,
        policy_pass: bool,
        promotion_eligible: bool,
    ) -> (r: Result<BenchmarkResultSummary, AppError>)
        ensures
            benchmark_recorded(
                old(self).registry(),
                final(self).registry(),
                task_profile_id@,
                model_definition_id@,
                runtime_definition_id@,
                policy_pass,
                promotion_eligible,
                r,
            ),
    {
        record_benchmark(
            &mut self.platform,
            task_profile_id,
            model_definition_id,
            runtime_definition_id,
            policy_pass,
            promotion_eligible,
        )
    }
}

// ---------------------------------------------------------------------------
// Laws of benchmark recording
// ---------------------------------------------------------------------------
/// Observations from an untrusted caller never pass and never move
/// the model's lifecycle, whatever they measure.
pub proof fn lemma_untrusted_never_promotes(policy_pass: bool, current: ModelLifecycleState)
    ensures
        spec_gate_state(false, policy_pass) == BenchmarkGateState::Fail,
        spec_lifecycle_after(false, policy_pass, current) is None,
{
}

/// A benchmark moves a model to benchmark-verified only when it is trusted
/// and meets the policy; a production model is never demoted by one.
pub proof fn lemma_lifecycle_moves(promotion_eligible: bool, policy_pass: bool, current: ModelLifecycleState)
    ensures
        spec_lifecycle_after(promotion_eligible, policy_pass, current) == Some(
            ModelLifecycleState::BenchmarkVerified,
        ) ==> promotion_eligible && policy_pass,
        current == ModelLifecycleState::Production ==> spec_lifecycle_after(
            promotion_eligible,
            policy_pass,
            current,
        ) is None,
        spec_gate_state(promotion_eligible, policy_pass) == BenchmarkGateState::Pass <==> (promotion_eligible
            && policy_pass),
{
}

/// What a benchmark does to a model's lifecycle, case by case: an untrusted
/// one moves nothing; a trusted one that meets the policy makes an
/// experimental or compatible model benchmark-verified and moves no other;
/// a trusted one that fails the policy makes every model but a production
/// one benchmark-failed, and leaves a production model where it is.
pub proof fn lemma_lifecycle_after_cases(promotion_eligible: bool, policy_pass: bool, current: ModelLifecycleState)
    ensures
        !promotion_eligible ==> spec_lifecycle_after(promotion_eligible, policy_pass, current) is None,
        promotion_eligible && policy_pass && (current == ModelLifecycleState::Experimental || current
            == ModelLifecycleState::Compatible) ==> spec_lifecycle_after(promotion_eligible, policy_pass, current)
            == Some(ModelLifecycleState::BenchmarkVerified),
        promotion_eligible && policy_pass && !(current == ModelLifecycleState::Experimental || current
            == ModelLifecycleState::Compatible) ==> spec_lifecycle_after(promotion_eligible, policy_pass, current) is None,
        promotion_eligible && !policy_pass && current != ModelLifecycleState::Production ==> spec_lifecycle_after(
            promotion_eligible,
            policy_pass,
            current,
        ) == Some(ModelLifecycleState::BenchmarkFailed),
        promotion_eligible && !policy_pass && current == ModelLifecycleState::Production ==> spec_lifecycle_after(
            promotion_eligible,
            policy_pass,
            current,
        ) is None,
{
}

/// Once a trusted benchmark that fails the policy is recorded, the model it
/// measured is benchmark-failed, unless it was in production; a trusted
/// benchmark that meets the policy leaves an experimental or compatible
/// model benchmark-verified.
pub proof fn lemma_recorded_benchmark_moves_model(
    c: ModelPlatformConfig,
    f: ModelPlatformConfig,
    task: Seq<char>,
    model: Seq<char>,
    runtime: Seq<char>,
    policy_pass: bool,
    r: Result<BenchmarkResultSummary, AppError>,
)
    requires
        benchmark_recorded(c, f, task, model, runtime, policy_pass, true, r),
        r is Ok,
    ensures
        ({
            let mi = model_pos(c, model);
            let before = c.models@[mi].lifecycle_state;
            &&& 0 <= mi < f.models@.len()
            &&& !policy_pass && before != ModelLifecycleState::Production ==> f.models@[mi].lifecycle_state
                == ModelLifecycleState::BenchmarkFailed
            &&& policy_pass && (before == ModelLifecycleState::Experimental || before
                == ModelLifecycleState::Compatible) ==> f.models@[mi].lifecycle_state
                == ModelLifecycleState::BenchmarkVerified
            &&& before == ModelLifecycleState::Production ==> f.models@[mi].lifecycle_state
                == ModelLifecycleState::Production
        }),
{
    let mi = model_pos(c, model);
    crate::seqs::lemma_first_index(c.models@, crate::platform::model_has_id(model));
    assert(0 <= mi < c.models@.len());
}

// ---------------------------------------------------------------------------
// The metrics a benchmark is held to
// ---------------------------------------------------------------------------
/// The metrics the task's policy requires, in the policy's order.
pub open spec fn spec_policy_keys(task: Seq<char>) -> Seq<Seq<char>> {
    if task == "student_answer_ocr"@ || task == "student_answer_ocr_issue_correction"@ || task
        == "question_text_extraction"@ || task == "rubric_extraction"@ {
        seq!["critical_token_missing"@, "printed_question_leakage"@, "schema_failure_rate"@, "cer"@, "wer"@]
    } else if task == "semantic_scoring"@ || task == "speaking_evaluation"@ {
        seq![
            "unknown_criterion_id"@,
            "invalid_canonical_level_id"@,
            "positive_score_without_exact_evidence"@,
            "schema_failure_rate"@,
            "golden_agreement"@,
        ]
    } else if task == "speaking_transcript_cleanup"@ {
        seq!["segment_coverage"@, "semantic_change_rate"@, "schema_failure_rate"@]
    } else {
        seq!["schema_failure_rate"@]
    }
}

fn key_list(keys: &[&str]) -> (r: Vec<String>)
    ensures
        views(r@) == crate::json::keys_view(keys@),
{
    let mut r: Vec<String> = Vec::new();
    let mut i: usize = 0;
    while i < keys.len()
        invariant
            i <= keys@.len(),
            views(r@) == crate::json::keys_view(keys@).take(i as int),
        decreases keys@.len() - i,
    {
        r.push(keys[i].to_owned());
        assert(crate::json::keys_view(keys@).take(i + 1) =~= crate::json::keys_view(keys@).take(i as int).push(
            keys@[i as int]@,
        ));
        assert(views(r@) =~= views(r@.drop_last()).push(keys@[i as int]@));
        i = i + 1;
    }
    assert(crate::json::keys_view(keys@).take(keys@.len() as int) =~= crate::json::keys_view(keys@));
    r
}

/// The metrics the task's policy requires.
pub fn policy_metric_keys(task_profile_id: &str) -> (r: Vec<String>)
    ensures
        views(r@) == spec_policy_keys(task_profile_id@),
{
    if str_eq(task_profile_id, "student_answer_ocr") || str_eq(task_profile_id, "student_answer_ocr_issue_correction")
        || str_eq(task_profile_id, "question_text_extraction") || str_eq(task_profile_id, "rubric_extraction") {
        let keys = ["critical_token_missing", "printed_question_leakage", "schema_failure_rate", "cer", "wer"];
        assert(crate::json::keys_view(keys@) =~= spec_policy_keys(task_profile_id@));
        key_list(&keys)
    } else if str_eq(task_profile_id, "semantic_scoring") || str_eq(task_profile_id, "speaking_evaluation") {
        let keys = [
            "unknown_criterion_id",
            "invalid_canonical_level_id",
            "positive_score_without_exact_evidence",
            "schema_failure_rate",
            "golden_agreement",
        ];
        assert(crate::json::keys_view(keys@) =~= spec_policy_keys(task_profile_id@));
        key_list(&keys)
    } else if str_eq(task_profile_id, "speaking_transcript_cleanup") {
        let keys = ["segment_coverage", "semantic_change_rate", "schema_failure_rate"];
        assert(crate::json::keys_view(keys@) =~= spec_policy_keys(task_profile_id@));
        key_list(&keys)
    } else {
        let keys = ["schema_failure_rate"];
        assert(crate::json::keys_view(keys@) =~= spec_policy_keys(task_profile_id@));
        key_list(&keys)
    }
}

/// The position of the last observation with the key (a later observation
/// of a metric replaces an earlier one), or -1.
pub open spec fn last_index(keys: Seq<Seq<char>>, k: Seq<char>) -> int
    decreases keys.len(),
{
    if keys.len() == 0 {
        -1
    } else if keys.last() == k {
        keys.len() - 1
    } else {
        last_index(keys.drop_last(), k)
    }
}

/// The observations whose metric the policy does not name, by position.
pub open spec fn extra_observations(keys: Seq<Seq<char>>, policy: Seq<Seq<char>>) -> Seq<usize>
    decreases keys.len(),
{
    if keys.len() == 0 {
        Seq::empty()
    } else {
        let r = extra_observations(keys.drop_last(), policy);
        if policy.contains(keys.last()) {
            r
        } else {
            r.push((keys.len() - 1) as usize)
        }
    }
}

/// A note for each policy metric that was not observed.
pub open spec fn missing_notes(policy: Seq<Seq<char>>, keys: Seq<Seq<char>>) -> Seq<Seq<char>>
    decreases policy.len(),
{
    if policy.len() == 0 {
        Seq::empty()
    } else {
        let r = missing_notes(policy.drop_last(), keys);
        if last_index(keys, policy.last()) < 0 {
            r.push("required benchmark metric missing: "@ + policy.last())
        } else {
            r
        }
    }
}

pub open spec fn diagnostic_note() -> Seq<char> {
    "diagnostic_only: manual/untrusted benchmark observations cannot satisfy Production promotion"@
}

/// How the observations of a benchmark meet its task's policy: each policy
/// metric with the observation it is read from (none where it is missing),
/// the observations outside the policy, and the notes.
#[derive(Debug)]
pub struct MetricPlan {
    pub policy: Vec<(String, Option<usize>)>,
    pub extras: Vec<usize>,
    pub notes: Vec<String>,
}

pub open spec fn slot_of(keys: Seq<Seq<char>>, k: Seq<char>) -> Option<usize> {
    let j = last_index(keys, k);
    if j >= 0 {
        Some(j as usize)
    } else {
        None
    }
}

fn last_observation(keys: &Vec<String>, k: &str) -> (r: Option<usize>)
    ensures
        r == slot_of(views(keys@), k@),
{
    let ghost ks = views(keys@);
    let mut found: Option<usize> = None;
    let mut i: usize = 0;
    while i < keys.len()
        invariant
            i <= keys@.len(),
            ks == views(keys@),
            found == slot_of(ks.take(i as int), k@),
        decreases keys@.len() - i,
    {
        assert(ks.take(i + 1).drop_last() =~= ks.take(i as int));
        assert(ks.take(i + 1).last() == keys@[i as int]@);
        if str_eq(keys[i].as_str(), k) {
            found = Some(i);
        }
        i = i + 1;
    }
    assert(ks.take(keys@.len() as int) =~= ks);
    found
}

fn contains_key(v: &Vec<String>, k: &str) -> (r: bool)
    ensures
        r == views(v@).contains(k@),
{
    let mut i: usize = 0;
    while i < v.len()
        invariant
            i <= v@.len(),
            forall|j: int| 0 <= j < i ==> views(v@)[j] != k@,
        decreases v@.len() - i,
    {
        if str_eq(v[i].as_str(), k) {
            assert(views(v@)[i as int] == k@);
            return true;
        }
        i = i + 1;
    }
    false
}

/// Matches the observed metrics (their keys, in order) against the task's
/// policy, and gathers the notes: the submitted ones, one for each missing
/// policy metric, and the diagnostic note for an untrusted benchmark.
pub fn plan_benchmark_metrics(
    task_profile_id: &str,
    observation_keys: &Vec<String>,
    notes: Vec<String>,
    promotion_eligible: bool,
) -> (r: MetricPlan)
    ensures
        ({
            let policy = spec_policy_keys(task_profile_id@);
            let keys = views(observation_keys@);
            &&& r.policy@.map_values(|p: (String, Option<usize>)| p.0@) == policy
            &&& forall|i: int|
                0 <= i < r.policy@.len() ==> (#[trigger] r.policy@[i]).1 == slot_of(keys, policy[i])
            &&& r.extras@ == extra_observations(keys, policy)
            &&& views(r.notes@) == views(notes@) + missing_notes(policy, keys) + if promotion_eligible {
                Seq::<Seq<char>>::empty()
            } else {
                seq![diagnostic_note()]
            }
        }),
{
    let policy = policy_metric_keys(task_profile_id);
    let ghost pv = views(policy@);
    let ghost keys = views(observation_keys@);
    let mut slots: Vec<(String, Option<usize>)> = Vec::new();
    let mut out = notes;
    let ghost n0 = views(out@);
    let mut i: usize = 0;
    while i < policy.len()
        invariant
            i <= policy@.len(),
            pv == views(policy@),
            keys == views(observation_keys@),
            slots@.len() == i,
            slots@.map_values(|p: (String, Option<usize>)| p.0@) == pv.take(i as int),
            forall|j: int| 0 <= j < i ==> (#[trigger] slots@[j]).1 == slot_of(keys, pv[j]),
            views(out@) == n0 + missing_notes(pv.take(i as int), keys),
        decreases policy@.len() - i,
    {
        let slot = last_observation(observation_keys, policy[i].as_str());
        assert(pv.take(i + 1).drop_last() =~= pv.take(i as int));
        assert(pv.take(i + 1).last() == pv[i as int]);
        if slot.is_none() {
            let ghost before = views(out@);
            out.push(crate::errors::concat("required benchmark metric missing: ", policy[i].as_str()));
            assert(views(out@) =~= before.push("required benchmark metric missing: "@ + pv[i as int]));
        }
        let ghost sv = slots@.map_values(|p: (String, Option<usize>)| p.0@);
        slots.push((policy[i].clone(), slot));
        assert(slots@.map_values(|p: (String, Option<usize>)| p.0@) =~= sv.push(pv[i as int]));
        assert(pv.take(i + 1) =~= pv.take(i as int).push(pv[i as int]));
        i = i + 1;
    }
    assert(pv.take(policy@.len() as int) =~= pv);
    let mut extras: Vec<usize> = Vec::new();
    let mut j: usize = 0;
    while j < observation_keys.len()
        invariant
            j <= observation_keys@.len(),
            pv == views(policy@),
            keys == views(observation_keys@),
            extras@ == extra_observations(keys.take(j as int), pv),
        decreases observation_keys@.len() - j,
    {
        assert(keys.take(j + 1).drop_last() =~= keys.take(j as int));
        assert(keys.take(j + 1).last() == keys[j as int]);
        if !contains_key(&policy, observation_keys[j].as_str()) {
            extras.push(j);
        }
        j = j + 1;
    }
    assert(keys.take(observation_keys@.len() as int) =~= keys);
    let ghost before = views(out@);
    if !promotion_eligible {
        out.push(
            "diagnostic_only: manual/untrusted benchmark observations cannot satisfy Production promotion".to_owned(),
        );
        assert(views(out@) =~= before + seq![diagnostic_note()]);
    } else {
        assert(views(out@) =~= before + Seq::<Seq<char>>::empty());
    }
    MetricPlan { policy: slots, extras, notes: out }
}

// ---------------------------------------------------------------------------
// Golden OCR reports
// ---------------------------------------------------------------------------
/// What the golden benchmark bridge checks of a report: whether a model
/// runtime produced it (and the runtime status's name), its exam id and its
/// corpus manifest digest.
#[derive(Debug)]
pub struct GoldenReportFacts {
    pub runtime_available: bool,
    pub runtime_label: String,
    pub exam_id: String,
    pub corpus_manifest_sha256: Option<String>,
}

fn bridge_error(message: &str, details: String) -> (e: AppError)
    ensures
        e.code == AppErrorCode::ModelBenchmarkFailed,
        e.message@ == message@,
{
    app_error(
        AppErrorCode::ModelBenchmarkFailed,
        message,
        Some(details),
        Some("Golden benchmark raporlarını yeniden seçin veya benchmark'ı yeniden çalıştırın.".to_owned()),
    )
}

/// A candidate and its baseline can be compared only when a model runtime
/// produced both (a preview report cannot pass the promotion gate) and
/// both ran on the same golden exam and the same corpus manifest; the first
/// check that fails gives the error.
pub fn check_golden_reports(candidate: &GoldenReportFacts, baseline: &GoldenReportFacts) -> (r: Result<(), AppError>)
    ensures
        r is Ok <==> (candidate.runtime_available && baseline.runtime_available && candidate.exam_id@
            == baseline.exam_id@ && opt_view(candidate.corpus_manifest_sha256) == opt_view(
            baseline.corpus_manifest_sha256,
        )),
        r matches Err(e) ==> e.code == AppErrorCode::ModelBenchmarkFailed && e.message@ == (if !candidate.runtime_available
            || !baseline.runtime_available {
            "Model runtime olmadan üretilmiş preview raporu promotion gate için kullanılamaz."@
        } else if candidate.exam_id@ != baseline.exam_id@ {
            "Candidate ve baseline golden corpus kimliği eşleşmiyor."@
        } else {
            "Candidate ve baseline farklı golden manifest üzerinde çalıştırılmış."@
        }),
{
    if !candidate.runtime_available {
        return Err(
            bridge_error(
                "Model runtime olmadan üretilmiş preview raporu promotion gate için kullanılamaz.",
                concat("report=candidate; model_runtime=", candidate.runtime_label.as_str()),
            ),
        );
    }
    if !baseline.runtime_available {
        return Err(
            bridge_error(
                "Model runtime olmadan üretilmiş preview raporu promotion gate için kullanılamaz.",
                concat("report=baseline; model_runtime=", baseline.runtime_label.as_str()),
            ),
        );
    }
    if !str_eq(candidate.exam_id.as_str(), baseline.exam_id.as_str()) {
        let head = concat("candidate_exam_id=", candidate.exam_id.as_str());
        return Err(
            bridge_error(
                "Candidate ve baseline golden corpus kimliği eşleşmiyor.",
                crate::errors::concat3(head.as_str(), "; baseline_exam_id=", baseline.exam_id.as_str()),
            ),
        );
    }
    let same_manifest = match (&candidate.corpus_manifest_sha256, &baseline.corpus_manifest_sha256) {
        (Some(a), Some(b)) => str_eq(a.as_str(), b.as_str()),
        (None, None) => true,
        _ => false,
    };
    if !same_manifest {
        return Err(
            bridge_error(
                "Candidate ve baseline farklı golden manifest üzerinde çalıştırılmış.",
                crate::errors::concat3(
                    concat("candidate_manifest=", opt_debug(&candidate.corpus_manifest_sha256).as_str()).as_str(),
                    "; baseline_manifest=",
                    opt_debug(&baseline.corpus_manifest_sha256).as_str(),
                ),
            ),
        );
    }
    Ok(())
}

fn opt_debug(o: &Option<String>) -> (r: String) {
    match o {
        Some(t) => crate::errors::concat3("Some(\"", t.as_str(), "\")"),
        None => "None".to_owned(),
    }
}

/// The notes a golden benchmark is recorded with: the exam, the two report
/// paths and the manifest digest (empty where there is none).
pub fn golden_benchmark_notes(
    exam_id: &str,
    report_path: &str,
    baseline_report_path: &str,
    corpus_manifest_sha256: &Option<String>,
) -> (r: Vec<String>)
    ensures
        views(r@) == seq![
            "golden_exam_id="@ + exam_id@,
            "candidate_report="@ + report_path@,
            "baseline_report="@ + baseline_report_path@,
            "corpus_manifest_sha256="@ + match corpus_manifest_sha256 {
                Some(m) => m@,
                None => Seq::<char>::empty(),
            },
        ],
{
    let manifest = match corpus_manifest_sha256 {
        Some(m) => concat("corpus_manifest_sha256=", m.as_str()),
        None => "corpus_manifest_sha256=".to_owned(),
    };
    proof {
        reveal_strlit("corpus_manifest_sha256=");
    }
    let r = vec![
        concat("golden_exam_id=", exam_id),
        concat("candidate_report=", report_path),
        concat("baseline_report=", baseline_report_path),
        manifest,
    ];
    assert(views(r@) =~= seq![
        "golden_exam_id="@ + exam_id@,
        "candidate_report="@ + report_path@,
        "baseline_report="@ + baseline_report_path@,
        "corpus_manifest_sha256="@ + match corpus_manifest_sha256 {
            Some(m) => m@,
            None => Seq::<char>::empty(),
        },
    ]);
    r
}

} // verus!
