//! Bridges between the model platform and the legacy profile store: a
//! resolved route materialized as a legacy profile, and the grandfathered
//! capability manifest of a migrated baseline model.
use vstd::prelude::*;
use vstd::utf8::encode_utf8;
use crate::config::{ephemeral_step, find_profile, lemma_lookup_after_upsert, profile_pos, profiles_upsert, ModelConfigService, ModelConfigStore};
use crate::domain::{
    CapabilityManifest, CapabilityProbeResult, CapabilitySupport, ModelCapabilityKind,
    ModelDefinition, ModelMode, ModelPlatformConfig, ModelProfile, ModelRuntimePreset,
    RuntimeDefinition, TaskModelBinding, ModelCapabilities, ModelLifecycleState, MetadataEntry,
    metadata_pairs, ModelDefinitionView, ModelTaskKind,
};
use crate::errors::{app_error, AppError, AppErrorCode};
use crate::fingerprint::{fingerprint_runtime_definition, spec_runtime_fingerprint};
use crate::platform::{binding_has_id, default_task_profiles, find_binding, find_model, find_runtime, is_default_task_profiles, model_has_id, model_platform_schema_version, runtime_has_id, spec_schema_version, ModelPlatformService};
use crate::seqs::{first_index, lemma_first_index, upsert};
use crate::errors::concat;
use crate::router::ResolvedModelRoute;
use crate::text::{decimal, decimal_string, sanitize_id, sanitize_id_spec, str_eq, trim, trim_str};
use crate::json::{opt_view, views};
use crate::scoring_reply::join_comma;

verus! {

/// The runtime id of the migrated vision runtime.
pub fn vision_runtime_id() -> (r: &'static str)
    ensures
        r@ == "llama-local-vision"@,
{
    "llama-local-vision"
}

/// The runtime id of the migrated text runtime.
pub fn text_runtime_id() -> (r: &'static str)
    ensures
        r@ == "llama-local-text"@,
{
    "llama-local-text"
}

// ---------------------------------------------------------------------------
// Byte prefixes of fingerprints
// ---------------------------------------------------------------------------
/// The UTF-8 length of a character sequence.
pub open spec fn utf8_len(s: Seq<char>) -> nat {
    encode_utf8(s).len()
}

proof fn lemma_encode_concat(a: Seq<char>, b: Seq<char>)
    ensures
        encode_utf8(a + b) == encode_utf8(a) + encode_utf8(b),
    decreases a.len(),
{
    if a.len() > 0 {
        assert((a + b).drop_first() =~= a.drop_first() + b);
        lemma_encode_concat(a.drop_first(), b);
        assert(encode_utf8(a + b) =~= encode_utf8(a) + encode_utf8(b));
    } else {
        assert(a + b =~= b);
    }
}

proof fn lemma_utf8_len_grows(s: Seq<char>, j: int, k: int)
    requires
        0 <= j < k <= s.len(),
    ensures
        utf8_len(s.take(j)) < utf8_len(s.take(k)),
    decreases k - j,
{
    let t = s.take(k - 1);
    assert(s.take(k) =~= t + seq![s[k - 1]]);
    lemma_encode_concat(t, seq![s[k - 1]]);
    assert(seq![s[k - 1]].drop_first() =~= Seq::<char>::empty());
    assert(encode_utf8(seq![s[k - 1]]).len() >= 1);
    if j < k - 1 {
        lemma_utf8_len_grows(s, j, k - 1);
    }
}

/// The prefix of `s` that is `n` bytes long in UTF-8, or all of `s` when no
/// character ends at byte `n`.
pub open spec fn byte_prefix(s: Seq<char>, n: nat) -> Seq<char> {
    if exists|k: int| 0 <= k <= s.len() && #[trigger] utf8_len(s.take(k)) == n {
        s.take(choose|k: int| 0 <= k <= s.len() && #[trigger] utf8_len(s.take(k)) == n)
    } else {
        s
    }
}

/// `str::get(..n)`: the prefix of `s` whose UTF-8 encoding is `n` bytes
/// long, when byte `n` ends a character of `s`; `None` otherwise.
#[verifier::external_body]
fn str_byte_prefix(s: &str, n: usize) -> (r: Option<&str>)
    ensures
        match r {
            Some(p) => exists|k: int|
                0 <= k <= s@.len() && p@ == s@.take(k) && #[trigger] utf8_len(s@.take(k)) == n,
            None => forall|k: int| 0 <= k <= s@.len() ==> #[trigger] utf8_len(s@.take(k)) != n,
        },
{
    s.get(..n)
}

/// The first twelve bytes of a fingerprint (all of it when shorter or when
/// byte twelve falls inside a character).
pub fn short_fingerprint(value: &str) -> (r: &str)
    ensures
        r@ == byte_prefix(value@, 12),
{
    match str_byte_prefix(value, 12) {
        Some(p) => {
            proof {
                let k = choose|k: int|
                    0 <= k <= value@.len() && p@ == value@.take(k) && #[trigger] utf8_len(
                        value@.take(k),
                    ) == 12;
                let k2 = choose|k: int|
                    0 <= k <= value@.len() && #[trigger] utf8_len(value@.take(k)) == 12;
                if k < k2 {
                    lemma_utf8_len_grows(value@, k, k2);
                } else if k2 < k {
                    lemma_utf8_len_grows(value@, k2, k);
                }
            }
            p
        },
        None => value,
    }
}

// ---------------------------------------------------------------------------
// Materializing a route as a legacy profile
// ---------------------------------------------------------------------------
/// The base URL of a runtime: `http://host:port`.
pub open spec fn spec_base_url(r: RuntimeDefinition) -> Seq<char> {
    "http://"@ + r.host@ + ":"@ + decimal(r.port as nat)
}

/// The base URL of a runtime.
pub fn runtime_base_url(r: &RuntimeDefinition) -> (u: String)
    ensures
        u@ == spec_base_url(*r),
{
    let mut u = String::from_str("http://");
    u.append(r.host.as_str());
    u.append(":");
    let p = decimal_string(r.port as u64);
    u.append(p.as_str());
    u
}

/// The id of the legacy profile a route is materialized as.
pub open spec fn materialized_id(route: ResolvedModelRoute) -> Seq<char> {
    "platform-"@ + sanitize_id_spec(route.model.id@) + "-"@ + sanitize_id_spec(route.runtime.id@)
        + "-"@ + byte_prefix(route.model.model_fingerprint@, 12) + "-"@ + byte_prefix(
        spec_runtime_fingerprint(route.runtime),
        12,
    )
}

/// The legacy profile that runs a route.
pub open spec fn is_materialized_profile(p: ModelProfile, route: ResolvedModelRoute) -> bool {
    &&& p.id@ == materialized_id(route)
    &&& p.display_name@ == route.model.display_name@ + " — "@ + route.runtime.id@
    &&& p.mode == (if route.runtime.managed { ModelMode::Managed } else { ModelMode::External })
    &&& p.server_path == route.runtime.server_path
    &&& p.model_path == route.model.model_path
    &&& p.mmproj_path@ == (match route.model.mmproj_path {
        Some(m) => m@,
        None => Seq::<char>::empty(),
    })
    &&& p.host == route.runtime.host
    &&& p.port == route.runtime.port
    &&& p.base_url@ == spec_base_url(route.runtime)
    &&& p.runtime_preset == (if route.task_profile.required_capabilities.vision {
        ModelRuntimePreset::Standard
    } else {
        ModelRuntimePreset::SpeakingRubricText
    })
    &&& p.privacy_mode == route.runtime.privacy_mode
}

fn append_str(s: &mut String, t: &str)
    ensures
        final(s)@ == old(s)@ + t@,
{
    s.append(t);
}

/// `after` is `before` with the profile that runs the route added or
/// replaced in memory only.
pub open spec fn materialized_into(before: ModelConfigService, after: ModelConfigService, route: ResolvedModelRoute) -> bool {
    exists|p: ModelProfile| is_materialized_profile(p, route) && #[trigger] ephemeral_step(before, after, p)
}

/// Once a route is materialized, a lookup of its profile id finds the
/// profile that runs the route: under the route's privacy mode, managed
/// exactly when the route's runtime is managed; the active profile and the
/// persisted store stay as they were.
pub proof fn lemma_materialized_route_found(before: ModelConfigService, after: ModelConfigService, route: ResolvedModelRoute)
    requires
        materialized_into(before, after, route),
    ensures
        ({
            let ps = after.spec_store().profiles@;
            let i = profile_pos(ps, materialized_id(route));
            &&& i >= 0
            &&& is_materialized_profile(ps[i], route)
            &&& ps[i].privacy_mode == route.runtime.privacy_mode
            &&& (ps[i].mode == ModelMode::Managed <==> route.runtime.managed)
            &&& after.spec_store().active_profile_id == before.spec_store().active_profile_id
            &&& after.spec_persisted() == before.spec_persisted()
        }),
{
    let p = choose|p: ModelProfile| is_materialized_profile(p, route) && #[trigger] ephemeral_step(before, after, p);
    lemma_lookup_after_upsert(before.spec_store().profiles@, p);
}

/// Adds (or replaces) the in-memory legacy profile that runs a resolved
/// route and returns its id.
pub fn materialize_route_as_legacy_profile(
    legacy: &mut ModelConfigService,
    route: &ResolvedModelRoute,
) -> (r: Result<String, AppError>)
    ensures
        r matches Ok(id) && id@ == materialized_id(*route),
        materialized_into(*old(legacy), *final(legacy), *route),
{
    let runtime_fingerprint = fingerprint_runtime_definition(&route.runtime);
    let mut profile_id = String::from_str("platform-");
    let m = sanitize_id(route.model.id.as_str());
    append_str(&mut profile_id, m.as_str());
    append_str(&mut profile_id, "-");
    let r = sanitize_id(route.runtime.id.as_str());
    append_str(&mut profile_id, r.as_str());
    append_str(&mut profile_id, "-");
    append_str(&mut profile_id, short_fingerprint(route.model.model_fingerprint.as_str()));
    append_str(&mut profile_id, "-");
    append_str(&mut profile_id, short_fingerprint(runtime_fingerprint.as_str()));
    let mut display_name = route.model.display_name.clone();
    append_str(&mut display_name, " — ");
    append_str(&mut display_name, route.runtime.id.as_str());
    let mmproj_path = match &route.model.mmproj_path {
        Some(m) => m.clone(),
        None => String::new(),
    };
    let profile = ModelProfile {
        id: profile_id.clone(),
        display_name,
        mode: if route.runtime.managed {
            ModelMode::Managed
        } else {
            ModelMode::External
        },
        server_path: route.runtime.server_path.clone(),
        model_path: route.model.model_path.clone(),
        mmproj_path,
        host: route.runtime.host.clone(),
        port: route.runtime.port,
        base_url: runtime_base_url(&route.runtime),
        runtime_preset: if route.task_profile.required_capabilities.vision {
            ModelRuntimePreset::Standard
        } else {
            ModelRuntimePreset::SpeakingRubricText
        },
        privacy_mode: route.runtime.privacy_mode,
    };
    proof {
        reveal_strlit("");
    }
    assert(is_materialized_profile(profile, *route));
    legacy.update_ephemeral_profile(profile);
    Ok(profile_id)
}

// ---------------------------------------------------------------------------
// Grandfathered baseline manifests
// ---------------------------------------------------------------------------
/// The support a grandfathered baseline records for a capability: text,
/// structured JSON and thinking control pass, so do vision and the
/// projector on a vision runtime of a vision model; JSON schema is partial;
/// the rest fails.
pub open spec fn baseline_support(k: ModelCapabilityKind, vision: bool) -> CapabilitySupport {
    match k {
        ModelCapabilityKind::Text | ModelCapabilityKind::StructuredJson
        | ModelCapabilityKind::ThinkingControl => CapabilitySupport::Pass,
        ModelCapabilityKind::Vision | ModelCapabilityKind::MultimodalProjector => if vision {
            CapabilitySupport::Pass
        } else {
            CapabilitySupport::Fail
        },
        ModelCapabilityKind::JsonSchema => CapabilitySupport::Partial,
    }
}

/// The current time as an RFC 3339 timestamp
/// (`chrono::Utc::now().to_rfc3339()`). It reads the clock: nothing is
/// promised of the value.
#[verifier::external_body]
pub(crate) fn now_rfc3339() -> String {
    chrono::Utc::now().to_rfc3339()
}

/// Appends the grandfathered baseline manifest of a model on a runtime,
/// stamped with the current time.
pub fn seed_baseline_manifest(
    config: &mut ModelPlatformConfig,
    model: &ModelDefinition,
    runtime: &RuntimeDefinition,
    vision_runtime: bool,
)
    ensures
        ({
            let kinds = seq![
                ModelCapabilityKind::Text,
                ModelCapabilityKind::Vision,
                ModelCapabilityKind::StructuredJson,
                ModelCapabilityKind::JsonSchema,
                ModelCapabilityKind::ThinkingControl,
                ModelCapabilityKind::MultimodalProjector,
            ];
            let n = old(config).capability_manifests@.len();
            let m = final(config).capability_manifests@[n as int];
            &&& final(config).capability_manifests@.len() == n + 1
            &&& final(config).capability_manifests@.take(n as int) == old(config).capability_manifests@
            &&& m.model_definition_id == model.id
            &&& m.runtime_definition_id == runtime.id
            &&& m.model_fingerprint == model.model_fingerprint
            &&& m.runtime_fingerprint@ == spec_runtime_fingerprint(*runtime)
            &&& m.results@.len() == 6
            &&& forall|i: int|
                0 <= i < 6 ==> {
                    &&& (#[trigger] m.results@[i]).capability == kinds[i]
                    &&& m.results@[i].support == baseline_support(
                        kinds[i],
                        vision_runtime && model.capabilities.vision,
                    )
                    &&& m.results@[i].duration_ms is None
                    &&& m.results@[i].detail matches Some(d) && d@
                        == "grandfathered production baseline; re-probe recommended"@
                }
            &&& final(config).schema_version == old(config).schema_version
            &&& final(config).models == old(config).models
            &&& final(config).runtimes == old(config).runtimes
            &&& final(config).task_profiles == old(config).task_profiles
            &&& final(config).bindings == old(config).bindings
            &&& final(config).benchmark_results == old(config).benchmark_results
        }),
{
    let vision = vision_runtime && model.capabilities.vision;
    let kinds = crate::domain::all_capability_kinds();
    let mut results: Vec<CapabilityProbeResult> = Vec::new();
    let mut i: usize = 0;
    while i < kinds.len()
        invariant
            i <= kinds@.len(),
            kinds@ == seq![
                ModelCapabilityKind::Text,
                ModelCapabilityKind::Vision,
                ModelCapabilityKind::StructuredJson,
                ModelCapabilityKind::JsonSchema,
                ModelCapabilityKind::ThinkingControl,
                ModelCapabilityKind::MultimodalProjector,
            ],
            vision == (vision_runtime && model.capabilities.vision),
            results@.len() == i,
            forall|j: int|
                0 <= j < i ==> {
                    &&& (#[trigger] results@[j]).capability == kinds@[j]
                    &&& results@[j].support == baseline_support(kinds@[j], vision)
                    &&& results@[j].duration_ms is None
                    &&& results@[j].detail matches Some(d) && d@
                        == "grandfathered production baseline; re-probe recommended"@
                },
        decreases kinds@.len() - i,
    {
        let k = kinds[i];
        let support = match k {
            ModelCapabilityKind::Text | ModelCapabilityKind::StructuredJson
            | ModelCapabilityKind::ThinkingControl => CapabilitySupport::Pass,
            ModelCapabilityKind::Vision | ModelCapabilityKind::MultimodalProjector => if vision {
                CapabilitySupport::Pass
            } else {
                CapabilitySupport::Fail
            },
            ModelCapabilityKind::JsonSchema => CapabilitySupport::Partial,
        };
        results.push(
            CapabilityProbeResult {
                capability: k,
                support,
                detail: Some("grandfathered production baseline; re-probe recommended".to_owned()),
                duration_ms: None,
            },
        );
        i = i + 1;
    }
    let manifest = CapabilityManifest {
        model_definition_id: model.id.clone(),
        runtime_definition_id: runtime.id.clone(),
        model_fingerprint: model.model_fingerprint.clone(),
        runtime_fingerprint: fingerprint_runtime_definition(runtime),
        verified_at: now_rfc3339(),
        results,
    };
    let ghost before = config.capability_manifests@;
    config.capability_manifests.push(manifest);
    assert(config.capability_manifests@.take(before.len() as int) =~= before);
}

// ---------------------------------------------------------------------------
// The migration service
// ---------------------------------------------------------------------------
/// What a registry bootstrap did.
#[derive(Debug)]
pub struct ModelPlatformMigrationReport {
    pub migrated: bool,
    pub legacy_backup_path: Option<String>,
    pub model_count: usize,
    pub runtime_count: usize,
    pub binding_count: usize,
    pub warnings: Vec<String>,
}

/// The model platform together with the legacy profile store it migrates
/// from.
#[derive(Debug)]
pub struct ModelPlatformMigrationService {
    pub platform: ModelPlatformService,
    pub legacy: ModelConfigService,
}

impl ModelPlatformMigrationService {
    pub fn new(platform: ModelPlatformService, legacy: ModelConfigService) -> (s: Self)
        ensures
            s.platform == platform,
            s.legacy == legacy,
    {
        ModelPlatformMigrationService { platform, legacy }
    }

    /// The report when the registry already holds models or bindings, which
    /// means there is nothing to migrate; `None` when the registry is empty.
    pub fn existing_registry_report(&self) -> (r: Option<ModelPlatformMigrationReport>)
        ensures
            ({
                let c = self.platform.registry();
                match r {
                    Some(rep) => (c.models@.len() > 0 || c.bindings@.len() > 0) && !rep.migrated
                        && rep.legacy_backup_path is None && rep.model_count == c.models@.len()
                        && rep.runtime_count == c.runtimes@.len() && rep.binding_count
                        == c.bindings@.len() && rep.warnings@.len() == 0,
                    None => c.models@.len() == 0 && c.bindings@.len() == 0,
                }
            }),
    {
        let c = self.platform.registry_ref();
        if c.models.len() > 0 || c.bindings.len() > 0 {
            Some(
                ModelPlatformMigrationReport {
                    migrated: false,
                    legacy_backup_path: None,
                    model_count: c.models.len(),
                    runtime_count: c.runtimes.len(),
                    binding_count: c.bindings.len(),
                    warnings: Vec::new(),
                },
            )
        } else {
            None
        }
    }
}

// ---------------------------------------------------------------------------
// Building the registry from legacy profiles
// ---------------------------------------------------------------------------
/// What the migration of one legacy profile gives: its model, its runtime
/// and its task bindings.
#[derive(Debug)]
pub struct LegacyProfileMigration {
    pub model: ModelDefinition,
    pub runtime: RuntimeDefinition,
    pub bindings: Vec<TaskModelBinding>,
}

/// The legacy profiles a migration starts from: the active profile, then
/// each of the Gemma profile ids that the store holds, each profile once.
pub open spec fn collected_profiles(store: ModelConfigStore, ids: Seq<Seq<char>>) -> Seq<ModelProfile>
    decreases ids.len(),
{
    if ids.len() == 0 {
        let a = profile_pos(store.profiles@, store.active_profile_id@);
        if a >= 0 {
            seq![store.profiles@[a]]
        } else {
            Seq::empty()
        }
    } else {
        let r = collected_profiles(store, ids.drop_last());
        let i = profile_pos(store.profiles@, ids.last());
        if i >= 0 && profile_pos(r, ids.last()) < 0 {
            r.push(store.profiles@[i])
        } else {
            r
        }
    }
}

impl ModelPlatformMigrationService {
    /// The legacy profiles to migrate: the active profile, then each of
    /// `legacy_gemma_ids` that the legacy store holds, each profile once.
    pub fn collect_legacy_profiles(&self, legacy_gemma_ids: &[&str]) -> (r: Vec<ModelProfile>)
        ensures
            r@ == collected_profiles(self.legacy.spec_store(), crate::json::keys_view(legacy_gemma_ids@)),
    {
        let ghost ids = crate::json::keys_view(legacy_gemma_ids@);
        let ghost st = self.legacy.spec_store();
        let mut profiles: Vec<ModelProfile> = Vec::new();
        match self.legacy.get_profile(None) {
            Ok(active) => {
                profiles.push(active);
            },
            Err(_) => {},
        }
        assert(ids.take(0) =~= Seq::<Seq<char>>::empty());
        assert(profiles@ =~= collected_profiles(st, ids.take(0)));
        let mut i: usize = 0;
        while i < legacy_gemma_ids.len()
            invariant
                i <= legacy_gemma_ids@.len(),
                ids == crate::json::keys_view(legacy_gemma_ids@),
                st == self.legacy.spec_store(),
                profiles@ == collected_profiles(st, ids.take(i as int)),
            decreases legacy_gemma_ids@.len() - i,
        {
            let id = legacy_gemma_ids[i];
            assert(ids.take(i + 1).drop_last() =~= ids.take(i as int));
            assert(ids.take(i + 1).last() == id@);
            match self.legacy.get_model_profile(id) {
                Ok(profile) => {
                    if find_profile(&profiles, id).is_none() {
                        profiles.push(profile);
                    }
                },
                Err(_) => {},
            }
            i = i + 1;
        }
        assert(ids.take(legacy_gemma_ids@.len() as int) =~= ids);
        profiles
    }
}

/// The first of the texts that is not blank, trimmed.
pub open spec fn first_trimmed(texts: Seq<Seq<char>>) -> Option<Seq<char>>
    decreases texts.len(),
{
    if texts.len() == 0 {
        None
    } else if trim(texts[0]).len() > 0 {
        Some(trim(texts[0]))
    } else {
        first_trimmed(texts.drop_first())
    }
}

pub open spec fn model_paths(ps: Seq<ModelProfile>) -> Seq<Seq<char>> {
    ps.map_values(|p: ModelProfile| p.model_path@)
}

pub open spec fn mmproj_paths(ps: Seq<ModelProfile>) -> Seq<Seq<char>> {
    ps.map_values(|p: ModelProfile| p.mmproj_path@)
}

pub open spec fn profile_ids(ps: Seq<ModelProfile>) -> Seq<Seq<char>> {
    ps.map_values(|p: ModelProfile| p.id@)
}

/// The profile whose migration the merged Gemma model starts from: the
/// first with the first Gemma id, or else the first profile.
pub open spec fn gemma_base(ps: Seq<ModelProfile>, first_id: Seq<char>) -> int {
    let i = profile_pos(ps, first_id);
    if i >= 0 {
        i
    } else {
        0
    }
}

/// `x` is the canonical Gemma model merged from the legacy Gemma profiles
/// `ps`, starting from the model `base` that its base profile migrates to:
/// the canonical id and names, in production, with text, structured JSON
/// and thinking control, with vision and a required projector where any
/// profile names a projector, the first model and projector paths of the
/// profiles where the base has none, and the migration metadata (the
/// profiles' ids as its aliases).
pub open spec fn is_merged_gemma(
    x: ModelDefinitionView,
    base: ModelDefinitionView,
    ps: Seq<ModelProfile>,
    canonical_id: Seq<char>,
) -> bool {
    let vision = first_trimmed(mmproj_paths(ps)) is Some;
    let base_mmproj = match base.mmproj_path {
        Some(m) => m@,
        None => Seq::<char>::empty(),
    };
    &&& x.id@ == canonical_id
    &&& x.display_name@ == "Gemma 4 12B"@
    &&& x.family@ == "gemma"@
    &&& x.lifecycle_state == ModelLifecycleState::Production
    &&& x.capabilities == (ModelCapabilities {
        text: true,
        vision: vision,
        structured_json: true,
        json_schema: base.capabilities.json_schema,
        thinking_control: true,
        multimodal_projector_required: vision,
    })
    &&& x.model_path@ == (if trim(base.model_path@).len() == 0 {
        match first_trimmed(model_paths(ps)) {
            Some(p) => p,
            None => base.model_path@,
        }
    } else {
        base.model_path@
    })
    &&& opt_view(x.mmproj_path) == (if trim(base_mmproj).len() == 0 {
        first_trimmed(mmproj_paths(ps))
    } else {
        opt_view(base.mmproj_path)
    })
    &&& x.format == base.format
    &&& x.quantization == base.quantization
    &&& x.context_limit == base.context_limit
    &&& x.model_fingerprint == base.model_fingerprint
    &&& metadata_pairs(x.metadata) == seq![
        ("baselineVerified"@, "true"@),
        ("legacyAliases"@, join_comma(profile_ids(ps))),
        ("migrationSource"@, "legacy_model_profiles"@),
    ]
}

fn first_trimmed_path(ps: &Vec<ModelProfile>, mmproj: bool) -> (r: Option<String>)
    ensures
        opt_view(r) == first_trimmed(if mmproj { mmproj_paths(ps@) } else { model_paths(ps@) }),
{
    let ghost texts = if mmproj { mmproj_paths(ps@) } else { model_paths(ps@) };
    let mut i: usize = 0;
    assert(texts.skip(0) =~= texts);
    while i < ps.len()
        invariant
            i <= ps@.len(),
            texts == (if mmproj { mmproj_paths(ps@) } else { model_paths(ps@) }),
            first_trimmed(texts) == first_trimmed(texts.skip(i as int)),
        decreases ps@.len() - i,
    {
        assert(texts.skip(i as int).drop_first() =~= texts.skip(i + 1));
        let path = if mmproj {
            ps[i].mmproj_path.as_str()
        } else {
            ps[i].model_path.as_str()
        };
        assert(texts.skip(i as int)[0] == path@);
        let t = trim_str(path);
        if !t.as_str().is_empty() {
            return Some(t);
        }
        i = i + 1;
    }
    None
}

fn entry(key: &str, value: String) -> (e: MetadataEntry)
    ensures
        e.key@ == key@,
        e.value@ == value@,
{
    MetadataEntry { key: key.to_owned(), value }
}

/// Merges the legacy Gemma profiles into the canonical Gemma model: the
/// model the base profile migrates to (by `migrate`), merged as
/// `is_merged_gemma` says, its fingerprint then refreshed by `refresh`.
pub fn merge_gemma_model<
    M: Fn(&ModelProfile) -> LegacyProfileMigration,
    R: Fn(ModelDefinition) -> ModelDefinition,
>(
    profiles: &Vec<ModelProfile>,
    first_legacy_id: &str,
    canonical_model_id: &str,
    migrate: &M,
    refresh: &R,
) -> (r: ModelDefinition)
    requires
        profiles@.len() > 0,
        forall|p: &ModelProfile| migrate.requires((p,)),
        forall|m: ModelDefinition| refresh.requires((m,)),
    ensures
        exists|mig: LegacyProfileMigration|
            #[trigger] migrate.ensures((&profiles@[gemma_base(profiles@, first_legacy_id@)],), mig)
                && exists|pre: ModelDefinition|
                #[trigger] refresh.ensures((pre,), r) && is_merged_gemma(
                    pre@,
                    mig.model@,
                    profiles@,
                    canonical_model_id@,
                ),
{
    let b = match find_profile(profiles, first_legacy_id) {
        Some(i) => i,
        None => 0,
    };
    let mig = migrate(&profiles[b]);
    let ghost g = mig;
    assert(b as int == gemma_base(profiles@, first_legacy_id@));
    assert(migrate.ensures((&profiles@[gemma_base(profiles@, first_legacy_id@)],), g));
    let mut m = mig.model;
    let ghost base = m@;
    let mmproj_first = first_trimmed_path(profiles, true);
    let model_first = first_trimmed_path(profiles, false);
    let vision = mmproj_first.is_some();
    m.id = canonical_model_id.to_owned();
    m.display_name = "Gemma 4 12B".to_owned();
    m.family = "gemma".to_owned();
    m.lifecycle_state = ModelLifecycleState::Production;
    m.capabilities.text = true;
    m.capabilities.structured_json = true;
    m.capabilities.thinking_control = true;
    m.capabilities.vision = vision;
    m.capabilities.multimodal_projector_required = vision;
    if trim_str(m.model_path.as_str()).as_str().is_empty() {
        match model_first {
            Some(p) => {
                m.model_path = p;
            },
            None => {},
        }
    }
    let mmproj_blank = match &m.mmproj_path {
        Some(x) => trim_str(x.as_str()).as_str().is_empty(),
        None => {
            proof {
                reveal_strlit("");
            }
            assert(trim(Seq::<char>::empty()) =~= Seq::<char>::empty());
            true
        },
    };
    if mmproj_blank {
        m.mmproj_path = mmproj_first;
    }
    let mut ids: Vec<String> = Vec::new();
    let mut i: usize = 0;
    while i < profiles.len()
        invariant
            i <= profiles@.len(),
            crate::json::views(ids@) == profile_ids(profiles@).take(i as int),
        decreases profiles@.len() - i,
    {
        let ghost before = crate::json::views(ids@);
        ids.push(profiles[i].id.clone());
        assert(crate::json::views(ids@) =~= before.push(profiles@[i as int].id@));
        assert(profile_ids(profiles@).take(i + 1) =~= profile_ids(profiles@).take(i as int).push(
            profiles@[i as int].id@,
        ));
        i = i + 1;
    }
    assert(profile_ids(profiles@).take(profiles@.len() as int) =~= profile_ids(profiles@));
    let aliases = crate::scoring_reply::join_with_commas(&ids);
    m.metadata = vec![
        entry("baselineVerified", "true".to_owned()),
        entry("legacyAliases", aliases),
        entry("migrationSource", "legacy_model_profiles".to_owned()),
    ];
    assert(metadata_pairs(m.metadata@) =~= seq![
        ("baselineVerified"@, "true"@),
        ("legacyAliases"@, join_comma(profile_ids(profiles@))),
        ("migrationSource"@, "legacy_model_profiles"@),
    ]);
    assert(is_merged_gemma(m@, base, profiles@, canonical_model_id@));
    let ghost pre = m;
    let r = refresh(m);
    assert(refresh.ensures((pre,), r));
    r
}

/// The profiles whose runtime becomes the migrated text runtime.
pub open spec fn is_text_gemma_profile(id: Seq<char>) -> bool {
    id == "speaking_transcript_cleanup_12b"@ || id == "speaking_rubric_evaluation_12b"@
}

/// The tasks the canonical Gemma model takes over from a legacy profile.
pub open spec fn canonical_tasks(id: Seq<char>) -> Seq<ModelTaskKind> {
    if id == "speaking_transcript_cleanup_12b"@ {
        seq![ModelTaskKind::SpeakingTranscriptCleanup]
    } else if id == "speaking_rubric_evaluation_12b"@ {
        seq![ModelTaskKind::SpeakingEvaluation]
    } else {
        seq![
            ModelTaskKind::QuestionTextExtraction,
            ModelTaskKind::RubricExtraction,
            ModelTaskKind::StudentAnswerOcr,
            ModelTaskKind::StudentAnswerOcrIssueCorrection,
            ModelTaskKind::SemanticScoring,
            ModelTaskKind::Analysis,
            ModelTaskKind::GeneralText,
        ]
    }
}

/// The migrated runtime a legacy profile's tasks run on.
pub open spec fn canonical_runtime(id: Seq<char>) -> Seq<char> {
    if is_text_gemma_profile(id) {
        "llama-local-text"@
    } else {
        "llama-local-vision"@
    }
}

/// `b` binds the task to the canonical model on the runtime: enabled,
/// without experimental student data, under the id
/// `binding-{task}-{model}`.
pub open spec fn is_canonical_binding(b: TaskModelBinding, t: ModelTaskKind, model_id: Seq<char>, runtime_id: Seq<char>) -> bool {
    &&& b.id@ == "binding-"@ + t.spec_id() + "-"@ + model_id
    &&& b.task_profile_id@ == t.spec_id()
    &&& b.model_definition_id@ == model_id
    &&& b.runtime_definition_id@ == runtime_id
    &&& !b.allow_experimental_student_data
    &&& b.enabled
}

/// `states` runs from the bindings before to the bindings after each task's
/// canonical binding (in `bs`) was upserted in turn (replacing the binding
/// with the same id, or appended).
pub open spec fn canonical_chain(
    states: Seq<Seq<TaskModelBinding>>,
    bs: Seq<TaskModelBinding>,
    tasks: Seq<ModelTaskKind>,
    model_id: Seq<char>,
    runtime_id: Seq<char>,
) -> bool {
    &&& states.len() == tasks.len() + 1
    &&& bs.len() == tasks.len()
    &&& forall|i: int|
        0 <= i < tasks.len() ==> #[trigger] is_canonical_binding(bs[i], tasks[i], model_id, runtime_id)
            && states[i + 1] == upsert(states[i], binding_has_id(bs[i].id@), bs[i])
}

/// `new` is `old` with the canonical binding of each task upserted in turn.
pub open spec fn canonical_upserts(
    old: Seq<TaskModelBinding>,
    new: Seq<TaskModelBinding>,
    tasks: Seq<ModelTaskKind>,
    model_id: Seq<char>,
    runtime_id: Seq<char>,
) -> bool {
    exists|states: Seq<Seq<TaskModelBinding>>, bs: Seq<TaskModelBinding>|
        #[trigger] canonical_chain(states, bs, tasks, model_id, runtime_id) && states[0] == old
            && states.last() == new
}

fn upsert_binding(bindings: &mut Vec<TaskModelBinding>, binding: TaskModelBinding)
    ensures
        final(bindings)@ == upsert(old(bindings)@, binding_has_id(binding.id@), binding),
{
    match find_binding(bindings, binding.id.as_str()) {
        Some(i) => {
            bindings.set(i, binding);
        },
        None => {
            bindings.push(binding);
        },
    }
}

fn canonical_task_list(profile_id: &str) -> (r: Vec<ModelTaskKind>)
    ensures
        r@ == canonical_tasks(profile_id@),
{
    if str_eq(profile_id, "speaking_transcript_cleanup_12b") {
        vec![ModelTaskKind::SpeakingTranscriptCleanup]
    } else if str_eq(profile_id, "speaking_rubric_evaluation_12b") {
        vec![ModelTaskKind::SpeakingEvaluation]
    } else {
        vec![
            ModelTaskKind::QuestionTextExtraction,
            ModelTaskKind::RubricExtraction,
            ModelTaskKind::StudentAnswerOcr,
            ModelTaskKind::StudentAnswerOcrIssueCorrection,
            ModelTaskKind::SemanticScoring,
            ModelTaskKind::Analysis,
            ModelTaskKind::GeneralText,
        ]
    }
}

/// Binds the tasks a legacy Gemma profile served to the canonical model on
/// the migrated runtime of that profile, where that runtime is registered;
/// nothing changes otherwise, and nothing but the bindings ever changes.
pub fn append_canonical_bindings(config: &mut ModelPlatformConfig, profile_id: &str, canonical_model_id: &str)
    ensures
        final(config).schema_version == old(config).schema_version,
        final(config).models == old(config).models,
        final(config).runtimes == old(config).runtimes,
        final(config).task_profiles == old(config).task_profiles,
        final(config).capability_manifests == old(config).capability_manifests,
        final(config).benchmark_results == old(config).benchmark_results,
        first_index(old(config).runtimes@, runtime_has_id(canonical_runtime(profile_id@))) < 0
            ==> final(config).bindings@ == old(config).bindings@,
        first_index(old(config).runtimes@, runtime_has_id(canonical_runtime(profile_id@))) >= 0
            ==> canonical_upserts(
            old(config).bindings@,
            final(config).bindings@,
            canonical_tasks(profile_id@),
            canonical_model_id@,
            canonical_runtime(profile_id@),
        ),
{
    let text = str_eq(profile_id, "speaking_transcript_cleanup_12b") || str_eq(
        profile_id,
        "speaking_rubric_evaluation_12b",
    );
    let runtime_id = if text {
        text_runtime_id()
    } else {
        vision_runtime_id()
    };
    assert(runtime_id@ == canonical_runtime(profile_id@));
    if find_runtime(&config.runtimes, runtime_id).is_none() {
        return;
    }
    let tasks = canonical_task_list(profile_id);
    let ghost rid = runtime_id@;
    let ghost cid = canonical_model_id@;
    let ghost old_bindings = config.bindings@;
    let ghost mut states: Seq<Seq<TaskModelBinding>> = seq![old_bindings];
    let ghost mut bs: Seq<TaskModelBinding> = Seq::empty();
    let mut i: usize = 0;
    while i < tasks.len()
        invariant
            i <= tasks@.len(),
            tasks@ == canonical_tasks(profile_id@),
            rid == runtime_id@,
            cid == canonical_model_id@,
            config.schema_version == old(config).schema_version,
            config.models == old(config).models,
            config.runtimes == old(config).runtimes,
            config.task_profiles == old(config).task_profiles,
            config.capability_manifests == old(config).capability_manifests,
            config.benchmark_results == old(config).benchmark_results,
            old_bindings == old(config).bindings@,
            canonical_chain(states, bs, tasks@.take(i as int), cid, rid),
            states[0] == old_bindings,
            states.last() == config.bindings@,
        decreases tasks@.len() - i,
    {
        let task = tasks[i];
        let mut id = concat("binding-", task.id());
        id.append("-");
        id.append(canonical_model_id);
        let binding = TaskModelBinding {
            id,
            task_profile_id: task.id().to_owned(),
            model_definition_id: canonical_model_id.to_owned(),
            runtime_definition_id: runtime_id.to_owned(),
            allow_experimental_student_data: false,
            enabled: true,
        };
        let ghost b = binding;
        let ghost before = states;
        let ghost bs0 = bs;
        upsert_binding(&mut config.bindings, binding);
        proof {
            states = before.push(config.bindings@);
            bs = bs0.push(b);
            let t = tasks@.take(i + 1);
            assert(t.len() == i + 1);
            assert(is_canonical_binding(b, task, cid, rid));
            assert forall|j: int|
                0 <= j < t.len() implies #[trigger] is_canonical_binding(bs[j], t[j], cid, rid) && states[j + 1]
                    == upsert(states[j], binding_has_id(bs[j].id@), bs[j]) by {
                if j < i {
                    assert(t[j] == tasks@.take(i as int)[j]);
                    assert(states[j] == before[j] && states[j + 1] == before[j + 1] && bs[j] == bs0[j]);
                } else {
                    assert(t[j] == task);
                }
            }
            assert(canonical_chain(states, bs, t, cid, rid));
        }
        i = i + 1;
    }
    assert(canonical_chain(states, bs, tasks@.take(tasks@.len() as int), cid, rid));
    assert(tasks@.take(tasks@.len() as int) =~= tasks@);
}

fn upsert_runtime(runtimes: &mut Vec<RuntimeDefinition>, runtime: RuntimeDefinition)
    ensures
        final(runtimes)@ == upsert(old(runtimes)@, runtime_has_id(runtime.id@), runtime),
{
    match find_runtime(runtimes, runtime.id.as_str()) {
        Some(i) => {
            runtimes.set(i, runtime);
        },
        None => {
            runtimes.push(runtime);
        },
    }
}

fn upsert_model(models: &mut Vec<ModelDefinition>, model: ModelDefinition)
    ensures
        final(models)@ == upsert(old(models)@, model_has_id(model.id@), model),
        final(models)@.len() > 0,
{
    match find_model(models, model.id.as_str()) {
        Some(i) => {
            models.set(i, model);
        },
        None => {
            models.push(model);
        },
    }
}

/// A runtime with this id is registered.
pub open spec fn has_runtime(rs: Seq<RuntimeDefinition>, id: Seq<char>) -> bool {
    first_index(rs, runtime_has_id(id)) >= 0
}

/// An upsert of a runtime keeps every registered runtime id and registers
/// its own.
proof fn lemma_upsert_runtime_found(s: Seq<RuntimeDefinition>, x: RuntimeDefinition, id: Seq<char>)
    requires
        has_runtime(s, id) || x.id@ == id,
    ensures
        has_runtime(upsert(s, runtime_has_id(x.id@), x), id),
{
    let n = upsert(s, runtime_has_id(x.id@), x);
    let j = first_index(s, runtime_has_id(x.id@));
    lemma_first_index(s, runtime_has_id(x.id@));
    lemma_first_index(s, runtime_has_id(id));
    let pos = if x.id@ == id {
        if j >= 0 {
            j
        } else {
            s.len() as int
        }
    } else {
        first_index(s, runtime_has_id(id))
    };
    assert(0 <= pos < n.len());
    assert(runtime_has_id(id)(n[pos]));
    lemma_first_index(n, runtime_has_id(id));
}

pub open spec fn is_gemma_id(ids: Seq<Seq<char>>, id: Seq<char>) -> bool {
    ids.contains(id)
}

fn contains_str(ids: &[&str], id: &str) -> (r: bool)
    ensures
        r == is_gemma_id(crate::json::keys_view(ids@), id@),
{
    let ghost kv = crate::json::keys_view(ids@);
    let mut i: usize = 0;
    while i < ids.len()
        invariant
            i <= ids@.len(),
            kv == crate::json::keys_view(ids@),
            forall|j: int| 0 <= j < i ==> kv[j] != id@,
        decreases ids@.len() - i,
    {
        if str_eq(ids[i], id) {
            assert(kv[i as int] == id@);
            return true;
        }
        i = i + 1;
    }
    false
}

fn migration_error(profile_count: usize) -> (e: AppError)
    ensures
        e.code == AppErrorCode::ModelConfigMigrationFailed,
{
    app_error(
        AppErrorCode::ModelConfigMigrationFailed,
        "Legacy profil(ler) okunabildi fakat dönüştürülebilir model bulunamadı.",
        Some(concat("profile_count=", decimal_string(profile_count as u64).as_str())),
        Some("Legacy model ayarlarını koruyun ve migration tanılamasını kontrol edin.".to_owned()),
    )
}

/// The registry built from legacy profiles: the legacy Gemma profiles (those
/// among `legacy_gemma_ids`) merge into the canonical model, served on a
/// vision runtime (from the first Gemma profile) and a text runtime (from a
/// speaking profile), with the tasks each served bound to it; every other
/// profile becomes a production model of its own on the runtime
/// `legacy-runtime-{id}`, with its bindings. Each migrated model and runtime
/// gets its grandfathered baseline manifest. A profile's own migration is
/// `migrate`, the canonical model's fingerprint refresh is `refresh`.
/// With no profile there is nothing to migrate, which is an error.
pub fn build_platform_config_from_legacy<
    M: Fn(&ModelProfile) -> LegacyProfileMigration,
    R: Fn(ModelDefinition) -> ModelDefinition,
>(
    profiles: &Vec<ModelProfile>,
    legacy_gemma_ids: &[&str],
    canonical_model_id: &str,
    migrate: &M,
    refresh: &R,
) -> (r: Result<ModelPlatformConfig, AppError>)
    requires
        legacy_gemma_ids@.len() > 0,
        forall|p: &ModelProfile| migrate.requires((p,)),
        forall|m: ModelDefinition| refresh.requires((m,)),
    ensures
        r is Err <==> profiles@.len() == 0,
        r matches Err(e) ==> e.code == AppErrorCode::ModelConfigMigrationFailed,
        r matches Ok(c) ==> {
            let ids = crate::json::keys_view(legacy_gemma_ids@);
            &&& c.schema_version@ == spec_schema_version()
            &&& is_default_task_profiles(c.task_profiles@)
            &&& c.benchmark_results@.len() == 0
            &&& c.models@.len() > 0
            &&& (exists|i: int| 0 <= i < profiles@.len() && #[trigger] profiles@[i].id@ == ids[0])
                ==> has_runtime(c.runtimes@, "llama-local-vision"@)
            &&& (exists|i: int|
                0 <= i < profiles@.len() && is_gemma_id(ids, profiles@[i].id@) && is_text_gemma_profile(
                    #[trigger] profiles@[i].id@,
                )) ==> has_runtime(c.runtimes@, "llama-local-text"@)
            &&& forall|i: int|
                0 <= i < profiles@.len() && !is_gemma_id(ids, #[trigger] profiles@[i].id@) ==> has_runtime(
                    c.runtimes@,
                    "legacy-runtime-"@ + sanitize_id_spec(profiles@[i].id@),
                )
        },
{
    let ghost ids = crate::json::keys_view(legacy_gemma_ids@);
    let mut config = ModelPlatformConfig {
        schema_version: model_platform_schema_version().to_owned(),
        models: Vec::new(),
        runtimes: Vec::new(),
        task_profiles: default_task_profiles(),
        bindings: Vec::new(),
        capability_manifests: Vec::new(),
        benchmark_results: Vec::new(),
    };
    let ghost task_profiles = config.task_profiles;
    let first_id = legacy_gemma_ids[0];
    assert(first_id@ == ids[0]);
    let mut canonical: Vec<ModelProfile> = Vec::new();
    let mut i: usize = 0;
    while i < profiles.len()
        invariant
            i <= profiles@.len(),
            ids == crate::json::keys_view(legacy_gemma_ids@),
            forall|k: int| 0 <= k < canonical@.len() ==> is_gemma_id(ids, #[trigger] canonical@[k].id@),
            canonical@.len() <= i,
            forall|j: int|
                0 <= j < i && is_gemma_id(ids, #[trigger] profiles@[j].id@) ==> canonical@.contains(profiles@[j]),
        decreases profiles@.len() - i,
    {
        let ghost c0 = canonical@;
        if contains_str(legacy_gemma_ids, profiles[i].id.as_str()) {
            canonical.push(profiles[i].clone());
            proof {
                assert(canonical@[c0.len() as int] == profiles@[i as int]);
                assert forall|q: int|
                    0 <= q < i + 1 && is_gemma_id(ids, #[trigger] profiles@[q].id@) implies canonical@.contains(
                    profiles@[q],
                ) by {
                    if q < i {
                        let k = choose|k: int| 0 <= k < c0.len() && c0[k] == profiles@[q];
                        assert(canonical@[k] == profiles@[q]);
                    }
                }
            }
        }
        i = i + 1;
    }
    let ghost want_vision = exists|q: int| 0 <= q < profiles@.len() && #[trigger] profiles@[q].id@ == ids[0];
    let ghost want_text = exists|q: int|
        0 <= q < profiles@.len() && is_gemma_id(ids, profiles@[q].id@) && is_text_gemma_profile(
            #[trigger] profiles@[q].id@,
        );
    proof {
        assert(ids.contains(ids[0])) by {
            assert(ids[0] == ids[0]);
        }
        if want_vision {
            let q = choose|q: int| 0 <= q < profiles@.len() && #[trigger] profiles@[q].id@ == ids[0];
            assert(is_gemma_id(ids, profiles@[q].id@));
            assert(canonical@.contains(profiles@[q]));
        }
        if want_text {
            let q = choose|q: int|
                0 <= q < profiles@.len() && is_gemma_id(ids, profiles@[q].id@) && is_text_gemma_profile(
                    #[trigger] profiles@[q].id@,
                );
            assert(canonical@.contains(profiles@[q]));
        }
    }
    if canonical.len() > 0 {
        let model = merge_gemma_model(&canonical, first_id, canonical_model_id, migrate, refresh);
        config.models.push(model.clone());
        match find_profile(&canonical, first_id) {
            Some(b) => {
                let mut runtime = migrate(&canonical[b]).runtime;
                runtime.id = vision_runtime_id().to_owned();
                let ghost rs = config.runtimes@;
                upsert_runtime(&mut config.runtimes, runtime.clone());
                proof {
                    lemma_upsert_runtime_found(rs, runtime, "llama-local-vision"@);
                }
                seed_baseline_manifest(&mut config, &model, &runtime, true);
            },
            None => {
                proof {
                    lemma_first_index(canonical@, crate::config::profile_has_id(first_id@));
                    if want_vision {
                        let q = choose|q: int| 0 <= q < profiles@.len() && #[trigger] profiles@[q].id@ == ids[0];
                        assert(is_gemma_id(ids, profiles@[q].id@));
                        let k = choose|k: int| 0 <= k < canonical@.len() && canonical@[k] == profiles@[q];
                        assert(crate::config::profile_has_id(first_id@)(canonical@[k]));
                    }
                }
            },
        }
        assert(want_vision ==> has_runtime(config.runtimes@, "llama-local-vision"@));
        let mut t: usize = 0;
        let mut text_index: Option<usize> = None;
        while t < canonical.len()
            invariant
                t <= canonical@.len(),
                match text_index {
                    Some(k) => k < canonical@.len() && is_text_gemma_profile(canonical@[k as int].id@),
                    None => forall|k: int| 0 <= k < t ==> !is_text_gemma_profile(#[trigger] canonical@[k].id@),
                },
            decreases canonical@.len() - t,
        {
            if text_index.is_none() && (str_eq(canonical[t].id.as_str(), "speaking_transcript_cleanup_12b")
                || str_eq(canonical[t].id.as_str(), "speaking_rubric_evaluation_12b")) {
                text_index = Some(t);
            }
            t = t + 1;
        }
        match text_index {
            Some(b) => {
                let mut runtime = migrate(&canonical[b]).runtime;
                runtime.id = text_runtime_id().to_owned();
                let ghost rs = config.runtimes@;
                upsert_runtime(&mut config.runtimes, runtime.clone());
                proof {
                    lemma_upsert_runtime_found(rs, runtime, "llama-local-text"@);
                    if has_runtime(rs, "llama-local-vision"@) {
                        lemma_upsert_runtime_found(rs, runtime, "llama-local-vision"@);
                    }
                }
                seed_baseline_manifest(&mut config, &model, &runtime, false);
            },
            None => {
                proof {
                    if want_text {
                        let q = choose|q: int|
                            0 <= q < profiles@.len() && is_gemma_id(ids, profiles@[q].id@) && is_text_gemma_profile(
                                #[trigger] profiles@[q].id@,
                            );
                        let k = choose|k: int| 0 <= k < canonical@.len() && canonical@[k] == profiles@[q];
                        assert(is_text_gemma_profile(canonical@[k].id@));
                    }
                }
            },
        }
        assert(want_text ==> has_runtime(config.runtimes@, "llama-local-text"@));
        assert(want_vision ==> has_runtime(config.runtimes@, "llama-local-vision"@));
        let ghost rt = config.runtimes;
        let mut k: usize = 0;
        while k < canonical.len()
            invariant
                k <= canonical@.len(),
                config.models@.len() > 0,
                config.schema_version@ == spec_schema_version(),
                config.task_profiles == task_profiles,
                config.benchmark_results@.len() == 0,
                config.runtimes == rt,
                want_text ==> has_runtime(config.runtimes@, "llama-local-text"@),
                want_vision ==> has_runtime(config.runtimes@, "llama-local-vision"@),
            decreases canonical@.len() - k,
        {
            append_canonical_bindings(&mut config, canonical[k].id.as_str(), canonical_model_id);
            k = k + 1;
        }
    }
    proof {
        if canonical@.len() == 0 {
            if want_vision {
                let q = choose|q: int| 0 <= q < profiles@.len() && #[trigger] profiles@[q].id@ == ids[0];
                assert(is_gemma_id(ids, profiles@[q].id@));
                assert(canonical@.contains(profiles@[q]));
            }
            if want_text {
                let q = choose|q: int|
                    0 <= q < profiles@.len() && is_gemma_id(ids, profiles@[q].id@) && is_text_gemma_profile(
                        #[trigger] profiles@[q].id@,
                    );
                assert(canonical@.contains(profiles@[q]));
            }
        }
    }
    let ghost after_canonical = config.runtimes@;
    let mut j: usize = 0;
    while j < profiles.len()
        invariant
            j <= profiles@.len(),
            forall|p: &ModelProfile| migrate.requires((p,)),
            want_vision ==> has_runtime(after_canonical, "llama-local-vision"@),
            want_text ==> has_runtime(after_canonical, "llama-local-text"@),
            config.models@.len() > 0 ==> (canonical@.len() > 0 || exists|q: int|
                0 <= q < j && !is_gemma_id(ids, #[trigger] profiles@[q].id@)),
            ids == crate::json::keys_view(legacy_gemma_ids@),
            config.schema_version@ == spec_schema_version(),
            config.task_profiles == task_profiles,
            config.benchmark_results@.len() == 0,
            canonical@.len() > 0 ==> config.models@.len() > 0,
            (exists|q: int| 0 <= q < j && !is_gemma_id(ids, #[trigger] profiles@[q].id@)) ==> config.models@.len() > 0,
            has_runtime(after_canonical, "llama-local-vision"@) ==> has_runtime(config.runtimes@, "llama-local-vision"@),
            has_runtime(after_canonical, "llama-local-text"@) ==> has_runtime(config.runtimes@, "llama-local-text"@),
            forall|q: int|
                0 <= q < j && !is_gemma_id(ids, #[trigger] profiles@[q].id@) ==> has_runtime(
                    config.runtimes@,
                    "legacy-runtime-"@ + sanitize_id_spec(profiles@[q].id@),
                ),
        decreases profiles@.len() - j,
    {
        if !contains_str(legacy_gemma_ids, profiles[j].id.as_str()) {
            let migration = migrate(&profiles[j]);
            let mut model = migration.model;
            model.lifecycle_state = ModelLifecycleState::Production;
            crate::domain::metadata_insert(&mut model.metadata, "baselineVerified", "true".to_owned());
            let mut runtime = migration.runtime;
            let sanitized = sanitize_id(profiles[j].id.as_str());
            runtime.id = concat("legacy-runtime-", sanitized.as_str());
            let runtime_id = runtime.id.clone();
            let model_id = model.id.clone();
            upsert_model(&mut config.models, model.clone());
            let ghost rs = config.runtimes@;
            upsert_runtime(&mut config.runtimes, runtime.clone());
            proof {
                let x = runtime;
                lemma_upsert_runtime_found(rs, x, x.id@);
                if has_runtime(rs, "llama-local-vision"@) {
                    lemma_upsert_runtime_found(rs, x, "llama-local-vision"@);
                }
                if has_runtime(rs, "llama-local-text"@) {
                    lemma_upsert_runtime_found(rs, x, "llama-local-text"@);
                }
                assert forall|q: int|
                    0 <= q < j && !is_gemma_id(ids, #[trigger] profiles@[q].id@) implies has_runtime(
                        upsert(rs, runtime_has_id(x.id@), x),
                        "legacy-runtime-"@ + sanitize_id_spec(profiles@[q].id@),
                    ) by {
                    lemma_upsert_runtime_found(rs, x, "legacy-runtime-"@ + sanitize_id_spec(profiles@[q].id@));
                }
            }
            let vision = model.capabilities.vision;
            seed_baseline_manifest(&mut config, &model, &runtime, vision);
            let mut bindings = migration.bindings;
            let mut b: usize = 0;
            while b < bindings.len()
                invariant
                    b <= bindings@.len(),
                    config.schema_version@ == spec_schema_version(),
                    config.task_profiles == task_profiles,
                    config.benchmark_results@.len() == 0,
                    config.models@.len() > 0,
                    config.runtimes@ == upsert(rs, runtime_has_id(runtime.id@), runtime),
                decreases bindings@.len() - b,
            {
                let mut binding = bindings[b].clone();
                binding.model_definition_id = model_id.clone();
                binding.runtime_definition_id = runtime_id.clone();
                upsert_binding(&mut config.bindings, binding);
                b = b + 1;
            }
        }
        j = j + 1;
    }
    if config.models.len() == 0 {
        assert(profiles@.len() == 0) by {
            if profiles@.len() > 0 {
                if is_gemma_id(ids, profiles@[0].id@) {
                    assert(canonical@.contains(profiles@[0]));
                } else {
                    assert(!is_gemma_id(ids, profiles@[0].id@));
                }
            }
        }
        return Err(migration_error(profiles.len()));
    }
    Ok(config)
}

impl ModelPlatformMigrationService {
    /// Migrates the legacy profiles into an empty registry, once the legacy
    /// file has been backed up (to `legacy_backup_path`, where there was
    /// one): a registry that already holds models or bindings is left as it
    /// is; with no legacy profile to migrate the registry stays empty, with a
    /// warning; otherwise the registry built from them replaces it.
    pub fn bootstrap_from_legacy<
        M: Fn(&ModelProfile) -> LegacyProfileMigration,
        R: Fn(ModelDefinition) -> ModelDefinition,
    >(
        &mut self,
        legacy_backup_path: Option<String>,
        legacy_gemma_ids: &[&str],
        canonical_model_id: &str,
        migrate: &M,
        refresh: &R,
    ) -> (r: Result<ModelPlatformMigrationReport, AppError>)
        requires
            legacy_gemma_ids@.len() > 0,
            forall|p: &ModelProfile| migrate.requires((p,)),
            forall|m: ModelDefinition| refresh.requires((m,)),
        ensures
            final(self).legacy == old(self).legacy,
            final(self).platform.spec_config_path() == old(self).platform.spec_config_path(),
            ({
                let c = old(self).platform.registry();
                let profiles = collected_profiles(
                    old(self).legacy.spec_store(),
                    crate::json::keys_view(legacy_gemma_ids@),
                );
                if c.models@.len() > 0 || c.bindings@.len() > 0 {
                    r matches Ok(rep) && !rep.migrated && rep.legacy_backup_path is None && rep.model_count
                        == c.models@.len() && rep.runtime_count == c.runtimes@.len() && rep.binding_count
                        == c.bindings@.len() && rep.warnings@.len() == 0 && final(self).platform.registry() == c
                } else if profiles.len() == 0 {
                    r matches Ok(rep) && !rep.migrated && rep.legacy_backup_path == legacy_backup_path
                        && rep.model_count == 0 && rep.runtime_count == 0 && rep.binding_count == 0
                        && views(rep.warnings@) == seq!["Legacy model profile bulunamadı; registry boş bırakıldı."@]
                        && final(self).platform.registry() == c
                } else {
                    r matches Ok(rep) && rep.migrated && rep.legacy_backup_path == legacy_backup_path
                        && rep.warnings@.len() == 0 && {
                        let n = final(self).platform.registry();
                        &&& rep.model_count == n.models@.len()
                        &&& rep.runtime_count == n.runtimes@.len()
                        &&& rep.binding_count == n.bindings@.len()
                        &&& n.models@.len() > 0
                        &&& n.schema_version@ == spec_schema_version()
                        &&& is_default_task_profiles(n.task_profiles@)
                    }
                }
            }),
    {
        match self.existing_registry_report() {
            Some(rep) => {
                return Ok(rep);
            },
            None => {},
        }
        let profiles = self.collect_legacy_profiles(legacy_gemma_ids);
        if profiles.len() == 0 {
            let warnings = vec!["Legacy model profile bulunamadı; registry boş bırakıldı.".to_owned()];
            assert(views(warnings@) =~= seq!["Legacy model profile bulunamadı; registry boş bırakıldı."@]);
            return Ok(
                ModelPlatformMigrationReport {
                    migrated: false,
                    legacy_backup_path,
                    model_count: 0,
                    runtime_count: 0,
                    binding_count: 0,
                    warnings,
                },
            );
        }
        let config = build_platform_config_from_legacy(
            &profiles,
            legacy_gemma_ids,
            canonical_model_id,
            migrate,
            refresh,
        )?;
        let report = ModelPlatformMigrationReport {
            migrated: true,
            legacy_backup_path,
            model_count: config.models.len(),
            runtime_count: config.runtimes.len(),
            binding_count: config.bindings.len(),
            warnings: Vec::new(),
        };
        self.platform.replace_config(config)?;
        Ok(report)
    }
}

} // verus!
