//! The capability probe of a model on a runtime: which probes run, how the
//! replies become probe results, the manifest they make up, and what the
//! outcome does to the registry. The probes themselves talk to the model
//! server and run elsewhere.
use vstd::prelude::*;
use crate::domain::{
    CapabilityManifest, CapabilityProbeResult, CapabilitySupport, ModelCapabilityKind, ModelDefinition,
    ModelLifecycleState, ModelPlatformConfig, RuntimeDefinition,
};
use crate::errors::{app_error, concat, AppError, AppErrorCode};
use crate::fingerprint::{fingerprint_runtime_definition, spec_runtime_fingerprint};
use crate::json::{bool_of, get, i64_of, json_bool, json_get, json_i64, json_str, str_of, JsonValue};
use crate::model_text::{find, find_chars, first_char, last_char, last_index_of};
use crate::platform::{
    find_model, find_runtime, keep_manifest, lifecycle_set, model_pos, runtime_pos, ModelPlatformService,
};
use crate::text::{chars_of, slice_string, str_eq, trim, trim_str};

verus! {

/// The model and runtime a probe runs on.
pub fn probe_targets(platform: &ModelPlatformService, model_definition_id: &str, runtime_definition_id: &str) -> (r:
    Result<(ModelDefinition, RuntimeDefinition), AppError>)
    ensures
        ({
            let c = platform.registry();
            let mi = model_pos(c, model_definition_id@);
            let ri = runtime_pos(c, runtime_definition_id@);
            if mi < 0 || ri < 0 {
                r matches Err(e) && e.code == AppErrorCode::ModelProfileNotFound
            } else {
                r matches Ok((m, rt)) && m@ == c.models@[mi]@ && rt == c.runtimes@[ri]
            }
        }),
{
    let c = platform.registry_ref();
    let mi = match find_model(&c.models, model_definition_id) {
        Some(i) => i,
        None => {
            return Err(
                app_error(
                    AppErrorCode::ModelProfileNotFound,
                    "Capability probe için model bulunamadı.",
                    Some(concat("model_definition_id=", model_definition_id)),
                    Some("Modeli registry'ye yeniden ekleyin.".to_owned()),
                ),
            );
        },
    };
    let ri = match find_runtime(&c.runtimes, runtime_definition_id) {
        Some(i) => i,
        None => {
            return Err(
                app_error(
                    AppErrorCode::ModelProfileNotFound,
                    "Capability probe için runtime bulunamadı.",
                    Some(concat("runtime_definition_id=", runtime_definition_id)),
                    Some("Runtime ayarını yeniden oluşturun.".to_owned()),
                ),
            );
        },
    };
    Ok((c.models[mi].clone(), c.runtimes[ri].clone()))
}

/// Which probes run after the text probe: the JSON probes only when the
/// text probe passed, the vision probe only for a vision model.
pub struct ProbePlan {
    pub json_probes: bool,
    pub vision_probe: bool,
}

pub fn plan_probes(text_support: CapabilitySupport, model: &ModelDefinition) -> (p: ProbePlan)
    ensures
        p.json_probes == (text_support == CapabilitySupport::Pass),
        p.vision_probe == model.capabilities.vision,
{
    ProbePlan {
        json_probes: text_support == CapabilitySupport::Pass,
        vision_probe: model.capabilities.vision,
    }
}

/// The reply the text probe asks for.
pub open spec fn probe_token() -> Seq<char> {
    "RUBRIKA_PROBE_OK"@
}

/// The result of a probe that failed with `error` after `duration_ms`.
pub open spec fn is_failed_result(r: CapabilityProbeResult, kind: ModelCapabilityKind, message: Seq<char>, duration_ms: u64) -> bool {
    &&& r.capability == kind
    &&& r.support == CapabilitySupport::Fail
    &&& r.detail matches Some(d) && d@ == message
    &&& r.duration_ms == Some(duration_ms)
}

pub fn failed_result(kind: ModelCapabilityKind, error: AppError, duration_ms: u64) -> (r: CapabilityProbeResult)
    ensures
        is_failed_result(r, kind, error.message@, duration_ms),
{
    CapabilityProbeResult {
        capability: kind,
        support: CapabilitySupport::Fail,
        detail: Some(error.message),
        duration_ms: Some(duration_ms),
    }
}

/// The result of a probe that was not run, and why.
pub fn skipped_result(kind: ModelCapabilityKind, detail: &str) -> (r: CapabilityProbeResult)
    ensures
        r.capability == kind,
        r.support == CapabilitySupport::Unverified,
        r.detail matches Some(d) && d@ == detail@,
        r.duration_ms is None,
{
    CapabilityProbeResult {
        capability: kind,
        support: CapabilitySupport::Unverified,
        detail: Some(detail.to_owned()),
        duration_ms: None,
    }
}

/// The text probe's result from the model's reply (or the request's
/// failure): a pass when the reply holds the probe token, partial
/// otherwise.
pub fn text_probe_result(reply: Result<String, AppError>, duration_ms: u64) -> (r: CapabilityProbeResult)
    ensures
        match reply {
            Ok(content) => r.capability == ModelCapabilityKind::Text && r.support == (if find(
                content@,
                probe_token(),
            ) >= 0 {
                CapabilitySupport::Pass
            } else {
                CapabilitySupport::Partial
            }) && r.duration_ms == Some(duration_ms),
            Err(e) => is_failed_result(r, ModelCapabilityKind::Text, e.message@, duration_ms),
        },
{
    match reply {
        Ok(content) => {
            let v = chars_of(content.as_str());
            let token = chars_of("RUBRIKA_PROBE_OK");
            proof {
                reveal_strlit("RUBRIKA_PROBE_OK");
            }
            let found = find_chars(&v, &token, 0).is_some();
            CapabilityProbeResult {
                capability: ModelCapabilityKind::Text,
                support: if found {
                    CapabilitySupport::Pass
                } else {
                    CapabilitySupport::Partial
                },
                detail: Some("text completion probe".to_owned()),
                duration_ms: Some(duration_ms),
            }
        },
        Err(e) => failed_result(ModelCapabilityKind::Text, e, duration_ms),
    }
}

/// The projector result of a vision model that requires one: a pass when
/// the model names a projector file.
pub open spec fn projector_support(model: ModelDefinition) -> CapabilitySupport {
    match model.mmproj_path {
        Some(p) => if trim(p@).len() > 0 {
            CapabilitySupport::Pass
        } else {
            CapabilitySupport::Fail
        },
        None => CapabilitySupport::Fail,
    }
}

/// The thinking-control result: a pass when the server offers reasoning
/// control, partial when only the model declares it, unverified otherwise.
pub open spec fn thinking_support(reasoning_off: bool, declared: bool) -> CapabilitySupport {
    if reasoning_off {
        CapabilitySupport::Pass
    } else if declared {
        CapabilitySupport::Partial
    } else {
        CapabilitySupport::Unverified
    }
}

/// Puts the probe results together: the text result; the JSON probes' results
/// (or both marked unverified when the text probe failed); the vision
/// probe's result and, for a model that requires one, the projector result
/// (or a failed vision result for a model without vision); and the
/// thinking-control result.
pub fn capability_results(
    model: &ModelDefinition,
    text: CapabilityProbeResult,
    json: Option<(CapabilityProbeResult, CapabilityProbeResult)>,
    vision: Option<CapabilityProbeResult>,
    reasoning_off: bool,
) -> (rs: Vec<CapabilityProbeResult>)
    ensures
        rs@[0] == text,
        match json {
            Some((a, b)) => rs@[1] == a && rs@[2] == b,
            None => rs@[1].capability == ModelCapabilityKind::StructuredJson && rs@[1].support
                == CapabilitySupport::Unverified && rs@[2].capability == ModelCapabilityKind::JsonSchema
                && rs@[2].support == CapabilitySupport::Unverified,
        },
        match vision {
            Some(v) => rs@[3] == v && if model.capabilities.multimodal_projector_required {
                rs@.len() == 6 && rs@[4].capability == ModelCapabilityKind::MultimodalProjector
                    && rs@[4].support == projector_support(*model)
            } else {
                rs@.len() == 5
            },
            None => rs@.len() == 5 && rs@[3].capability == ModelCapabilityKind::Vision && rs@[3].support
                == CapabilitySupport::Fail,
        },
        rs@.last().capability == ModelCapabilityKind::ThinkingControl,
        rs@.last().support == thinking_support(reasoning_off, model.capabilities.thinking_control),
{
    let mut rs: Vec<CapabilityProbeResult> = Vec::new();
    rs.push(text);
    match json {
        Some((a, b)) => {
            rs.push(a);
            rs.push(b);
        },
        None => {
            rs.push(
                skipped_result(
                    ModelCapabilityKind::StructuredJson,
                    "text completion probe başarısız olduğu için çalıştırılmadı",
                ),
            );
            rs.push(
                skipped_result(ModelCapabilityKind::JsonSchema, "text completion probe başarısız olduğu için çalıştırılmadı"),
            );
        },
    }
    match vision {
        Some(v) => {
            rs.push(v);
            if model.capabilities.multimodal_projector_required {
                let present = match &model.mmproj_path {
                    Some(p) => {
                        let t = crate::text::trim_str(p.as_str());
                        !t.as_str().is_empty()
                    },
                    None => false,
                };
                rs.push(
                    CapabilityProbeResult {
                        capability: ModelCapabilityKind::MultimodalProjector,
                        support: if present {
                            CapabilitySupport::Pass
                        } else {
                            CapabilitySupport::Fail
                        },
                        detail: Some("vision model projector requirement".to_owned()),
                        duration_ms: None,
                    },
                );
            }
        },
        None => {
            rs.push(
                CapabilityProbeResult {
                    capability: ModelCapabilityKind::Vision,
                    support: CapabilitySupport::Fail,
                    detail: Some("model definition vision=false".to_owned()),
                    duration_ms: None,
                },
            );
        },
    }
    let support = if reasoning_off {
        CapabilitySupport::Pass
    } else if model.capabilities.thinking_control {
        CapabilitySupport::Partial
    } else {
        CapabilitySupport::Unverified
    };
    let detail = if reasoning_off {
        "llama-server --reasoning control available"
    } else {
        "llama-server reasoning flag not detected"
    };
    rs.push(
        CapabilityProbeResult {
            capability: ModelCapabilityKind::ThinkingControl,
            support,
            detail: Some(detail.to_owned()),
            duration_ms: None,
        },
    );
    rs
}

/// The manifest of a probe of `model` on `runtime`, stamped `verified_at`.
pub fn probe_manifest(
    model: &ModelDefinition,
    runtime: &RuntimeDefinition,
    results: Vec<CapabilityProbeResult>,
    verified_at: String,
) -> (m: CapabilityManifest)
    ensures
        m.model_definition_id == model.id,
        m.runtime_definition_id == runtime.id,
        m.model_fingerprint == model.model_fingerprint,
        m.runtime_fingerprint@ == spec_runtime_fingerprint(*runtime),
        m.verified_at == verified_at,
        m.results@ == results@,
{
    CapabilityManifest {
        model_definition_id: model.id.clone(),
        runtime_definition_id: runtime.id.clone(),
        model_fingerprint: model.model_fingerprint.clone(),
        runtime_fingerprint: fingerprint_runtime_definition(runtime),
        verified_at,
        results,
    }
}

/// The lifecycle a finished probe leaves the model in: unsupported when any
/// capability failed, compatible otherwise.
pub open spec fn probe_target(m: CapabilityManifest) -> ModelLifecycleState {
    if exists|j: int| 0 <= j < m.results@.len() && (#[trigger] m.results@[j]).support == CapabilitySupport::Fail {
        ModelLifecycleState::Unsupported
    } else {
        ModelLifecycleState::Compatible
    }
}

/// Whether the registry takes the manifest: its model and runtime are
/// registered and its fingerprints are theirs.
pub open spec fn manifest_recordable(c: ModelPlatformConfig, m: CapabilityManifest) -> bool {
    let mi = model_pos(c, m.model_definition_id@);
    let ri = runtime_pos(c, m.runtime_definition_id@);
    mi >= 0 && ri >= 0 && c.models@[mi].model_fingerprint@ == m.model_fingerprint@ && spec_runtime_fingerprint(
        c.runtimes@[ri],
    ) == m.runtime_fingerprint@
}

/// Records the outcome of a probe of a model: a manifest is recorded (in
/// place of the model/runtime pair's earlier one) and moves the model to
/// compatible or unsupported; a failed probe moves it to probe-failed and
/// its error is returned.
pub fn finish_probe(
    platform: &mut ModelPlatformService,
    model_definition_id: &str,
    outcome: Result<CapabilityManifest, AppError>,
) -> (r: Result<CapabilityManifest, AppError>)
    ensures
        final(platform).spec_config_path() == old(platform).spec_config_path(),
        ({
            let c = old(platform).registry();
            let f = final(platform).registry();
            let mi = model_pos(c, model_definition_id@);
            match outcome {
                Err(e) => {
                    &&& r == Err::<CapabilityManifest, AppError>(e)
                    &&& mi >= 0 ==> f.models@ == lifecycle_set(c, model_definition_id@, ModelLifecycleState::ProbeFailed)
                        && f.capability_manifests == c.capability_manifests
                    &&& mi < 0 ==> f == c
                },
                Ok(m) => if !manifest_recordable(c, m) {
                    r is Err && f == c
                } else if mi < 0 {
                    r matches Err(e) && e.code == AppErrorCode::ModelProfileNotFound && f.models == c.models
                } else {
                    &&& r matches Ok(x) && x@ == m@
                    &&& f.capability_manifests@ == c.capability_manifests@.filter(
                        keep_manifest(m.model_definition_id@, Some(m.runtime_definition_id@)),
                    ).push(m)
                    &&& f.models@ == lifecycle_set(c, model_definition_id@, probe_target(m))
                },
            }
        }),
{
    match outcome {
        Err(e) => {
            let _ = platform.mark_probe_failed(model_definition_id);
            Err(e)
        },
        Ok(manifest) => {
            let kept = manifest.clone();
            platform.record_capability_manifest(manifest)?;
            platform.mark_probe_finished(model_definition_id, &kept)?;
            Ok(kept)
        },
    }
}


// ---------------------------------------------------------------------------
// The JSON probes
// ---------------------------------------------------------------------------
/// The span of `t` from its first `{` to its last `}`, where it has both.
pub open spec fn brace_span(t: Seq<char>) -> Option<Seq<char>> {
    let a = first_char(t, '{');
    let b = last_char(t, '}');
    if a >= 0 && b >= 0 {
        Some(t.subrange(a, b + 1))
    } else {
        None
    }
}

/// The last `}` comes more than one character before the first `{`: the
/// span between them cannot be cut out.
pub open spec fn braces_misordered(t: Seq<char>) -> bool {
    let a = first_char(t, '{');
    let b = last_char(t, '}');
    a >= 0 && b >= 0 && a > b + 1
}

/// Whether the last `}` of `content` comes more than one character before
/// its first `{`.
pub fn braces_misordered_text(content: &str) -> (r: bool)
    ensures
        r == braces_misordered(content@),
{
    let t = chars_of(content);
    let brace = vec!['{'];
    assert(brace@ =~= seq!['{']);
    match find_chars(&t, &brace, 0) {
        Some(a) => match last_index_of(&t, '}') {
            Some(b) => a > b && a - b > 1,
            None => false,
        },
        None => false,
    }
}

fn brace_span_of(content: &str) -> (r: Option<String>)
    requires
        !braces_misordered(content@),
    ensures
        match r {
            Some(s) => brace_span(content@) == Some(s@),
            None => brace_span(content@) is None,
        },
{
    let t = chars_of(content);
    let brace = vec!['{'];
    assert(brace@ =~= seq!['{']);
    match find_chars(&t, &brace, 0) {
        Some(a) => match last_index_of(&t, '}') {
            Some(b) => {
                assert(b < t.len());
                Some(slice_string(&t, a, b + 1))
            },
            None => None,
        },
        None => None,
    }
}

/// The JSON in a probe reply: the whole trimmed reply as read by
/// `read_json`, or, where that is refused, the span from its first `{` to
/// its last `}` (nothing where there is no such span or it is refused too).
pub fn parse_json_content<F: Fn(&str) -> Result<JsonValue, String>>(content: &str, read_json: &F) -> (r:
    Option<JsonValue>)
    requires
        forall|s: &str| read_json.requires((s,)),
        forall|s: &str, m: String|
            s@ == trim(content@) && #[trigger] read_json.ensures((s,), Err(m)) ==> !braces_misordered(
                content@,
            ),
    ensures
        exists|s1: &str, o1: Result<JsonValue, String>|
            s1@ == trim(content@) && #[trigger] read_json.ensures((s1,), o1) && match o1 {
                Ok(v) => r == Some(v),
                Err(_) => match brace_span(content@) {
                    None => r is None,
                    Some(span) => exists|s2: &str, o2: Result<JsonValue, String>|
                        s2@ == span && #[trigger] read_json.ensures((s2,), o2) && r == match o2 {
                            Ok(v) => Some(v),
                            Err(_) => None,
                        },
                },
            },
{
    let whole = trim_str(content);
    let first = read_json(whole.as_str());
    match first {
        Ok(v) => Some(v),
        Err(_) => match brace_span_of(content) {
            Some(span) => match read_json(span.as_str()) {
                Ok(v) => Some(v),
                Err(_) => None,
            },
            None => None,
        },
    }
}

/// `{"ok": true, "value": 7}` passes the structured-JSON probe; other JSON
/// is partial support; no JSON fails it.
pub open spec fn spec_structured_json_support(parsed: Option<JsonValue>) -> CapabilitySupport {
    match parsed {
        Some(v) => if bool_of(get(v, "ok"@)) == Some(true) && i64_of(get(v, "value"@)) == Some(7i64) {
            CapabilitySupport::Pass
        } else {
            CapabilitySupport::Partial
        },
        None => CapabilitySupport::Fail,
    }
}

/// `{"ok": true, "label": "rubrika"}` passes the JSON-schema probe; other
/// JSON is partial support; no JSON fails it.
pub open spec fn spec_json_schema_support(parsed: Option<JsonValue>) -> CapabilitySupport {
    match parsed {
        Some(v) => if bool_of(get(v, "ok"@)) == Some(true) && str_of(get(v, "label"@)) == Some(
            "rubrika"@,
        ) {
            CapabilitySupport::Pass
        } else {
            CapabilitySupport::Partial
        },
        None => CapabilitySupport::Fail,
    }
}

/// `{"vision": true}` passes the vision probe; anything else is partial.
pub open spec fn spec_vision_support(parsed: Option<JsonValue>) -> CapabilitySupport {
    match parsed {
        Some(v) => if bool_of(get(v, "vision"@)) == Some(true) {
            CapabilitySupport::Pass
        } else {
            CapabilitySupport::Partial
        },
        None => CapabilitySupport::Partial,
    }
}

fn ok_flag(v: &JsonValue) -> (r: bool)
    ensures
        r == (bool_of(get(*v, "ok"@)) == Some(true)),
{
    match json_bool(json_get(v, "ok")) {
        Some(b) => b,
        None => false,
    }
}

/// The structured-JSON probe's result from the reply read as JSON (or the
/// request's failure).
pub fn structured_json_result(reply: Result<Option<JsonValue>, AppError>, duration_ms: u64) -> (r:
    CapabilityProbeResult)
    ensures
        match reply {
            Ok(parsed) => r.capability == ModelCapabilityKind::StructuredJson && r.support
                == spec_structured_json_support(parsed) && r.duration_ms == Some(duration_ms),
            Err(e) => is_failed_result(r, ModelCapabilityKind::StructuredJson, e.message@, duration_ms),
        },
{
    match reply {
        Ok(parsed) => {
            let support = match &parsed {
                Some(v) => if ok_flag(v) && json_i64(json_get(v, "value")) == Some(7i64) {
                    CapabilitySupport::Pass
                } else {
                    CapabilitySupport::Partial
                },
                None => CapabilitySupport::Fail,
            };
            CapabilityProbeResult {
                capability: ModelCapabilityKind::StructuredJson,
                support,
                detail: Some("response_format=json_object".to_owned()),
                duration_ms: Some(duration_ms),
            }
        },
        Err(e) => failed_result(ModelCapabilityKind::StructuredJson, e, duration_ms),
    }
}

/// The JSON-schema probe's result from the reply read as JSON; a refused
/// request means the runtime does not support the schema: partial support.
pub fn json_schema_result(reply: Result<Option<JsonValue>, AppError>, duration_ms: u64) -> (r:
    CapabilityProbeResult)
    ensures
        r.capability == ModelCapabilityKind::JsonSchema,
        r.duration_ms == Some(duration_ms),
        match reply {
            Ok(parsed) => r.support == spec_json_schema_support(parsed),
            Err(_) => r.support == CapabilitySupport::Partial,
        },
{
    let support = match &reply {
        Ok(Some(v)) => {
            let label_ok = match json_str(json_get(v, "label")) {
                Some(l) => str_eq(l.as_str(), "rubrika"),
                None => false,
            };
            proof {
                reveal_strlit("rubrika");
            }
            if ok_flag(v) && label_ok {
                CapabilitySupport::Pass
            } else {
                CapabilitySupport::Partial
            }
        },
        Ok(None) => CapabilitySupport::Fail,
        Err(_) => CapabilitySupport::Partial,
    };
    let detail = match &reply {
        Ok(_) => "response_format=json_schema".to_owned(),
        Err(_) => "runtime json_schema probe rejected or unsupported".to_owned(),
    };
    CapabilityProbeResult {
        capability: ModelCapabilityKind::JsonSchema,
        support,
        detail: Some(detail),
        duration_ms: Some(duration_ms),
    }
}

/// The vision probe's result from the reply read as JSON (or the request's
/// failure).
pub fn vision_result(reply: Result<Option<JsonValue>, AppError>, duration_ms: u64) -> (r: CapabilityProbeResult)
    ensures
        match reply {
            Ok(parsed) => r.capability == ModelCapabilityKind::Vision && r.support == spec_vision_support(
                parsed,
            ) && r.duration_ms == Some(duration_ms),
            Err(e) => is_failed_result(r, ModelCapabilityKind::Vision, e.message@, duration_ms),
        },
{
    match reply {
        Ok(parsed) => {
            let seen = match &parsed {
                Some(v) => json_bool(json_get(v, "vision")) == Some(true),
                None => false,
            };
            CapabilityProbeResult {
                capability: ModelCapabilityKind::Vision,
                support: if seen {
                    CapabilitySupport::Pass
                } else {
                    CapabilitySupport::Partial
                },
                detail: Some("synthetic 1x1 image probe".to_owned()),
                duration_ms: Some(duration_ms),
            }
        },
        Err(e) => failed_result(ModelCapabilityKind::Vision, e, duration_ms),
    }
}
} // verus!
