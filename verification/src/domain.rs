//! The model-platform data model: legacy model profiles, model and runtime
//! definitions, task profiles, bindings, capability manifests and benchmark
//! results.
use vstd::prelude::*;

verus! {

#[derive(PartialEq, Eq, Structural, Clone, Copy, Debug)]
pub enum PrivacyMode {
    StrictLocal,
    ExplicitExternal,
}

#[derive(PartialEq, Eq, Structural, Clone, Copy, Debug)]
pub enum ModelMode {
    Managed,
    External,
}

#[derive(PartialEq, Eq, Structural, Clone, Copy, Debug)]
pub enum ModelRuntimePreset {
    Standard,
    SpeakingRubricText,
}

#[derive(PartialEq, Eq, Structural, Clone, Copy, Debug)]
pub enum ModelTaskKind {
    QuestionTextExtraction,
    RubricExtraction,
    StudentAnswerOcr,
    StudentAnswerOcrIssueCorrection,
    SemanticScoring,
    SpeakingTranscriptCleanup,
    SpeakingEvaluation,
    Analysis,
    GeneralText,
}

impl ModelTaskKind {
    pub open spec fn spec_id(self) -> Seq<char> {
        match self {
            ModelTaskKind::QuestionTextExtraction => "question_text_extraction"@,
            ModelTaskKind::RubricExtraction => "rubric_extraction"@,
            ModelTaskKind::StudentAnswerOcr => "student_answer_ocr"@,
            ModelTaskKind::StudentAnswerOcrIssueCorrection => "student_answer_ocr_issue_correction"@,
            ModelTaskKind::SemanticScoring => "semantic_scoring"@,
            ModelTaskKind::SpeakingTranscriptCleanup => "speaking_transcript_cleanup"@,
            ModelTaskKind::SpeakingEvaluation => "speaking_evaluation"@,
            ModelTaskKind::Analysis => "analysis"@,
            ModelTaskKind::GeneralText => "general_text"@,
        }
    }

    /// The task-profile id of the task kind.
    pub fn id(&self) -> (r: &'static str)
        ensures
            r@ == self.spec_id(),
    {
        match self {
            ModelTaskKind::QuestionTextExtraction => "question_text_extraction",
            ModelTaskKind::RubricExtraction => "rubric_extraction",
            ModelTaskKind::StudentAnswerOcr => "student_answer_ocr",
            ModelTaskKind::StudentAnswerOcrIssueCorrection => "student_answer_ocr_issue_correction",
            ModelTaskKind::SemanticScoring => "semantic_scoring",
            ModelTaskKind::SpeakingTranscriptCleanup => "speaking_transcript_cleanup",
            ModelTaskKind::SpeakingEvaluation => "speaking_evaluation",
            ModelTaskKind::Analysis => "analysis",
            ModelTaskKind::GeneralText => "general_text",
        }
    }

    pub open spec fn spec_contains_student_data(self) -> bool {
        match self {
            ModelTaskKind::StudentAnswerOcr | ModelTaskKind::StudentAnswerOcrIssueCorrection
            | ModelTaskKind::SemanticScoring | ModelTaskKind::SpeakingTranscriptCleanup
            | ModelTaskKind::SpeakingEvaluation => true,
            _ => false,
        }
    }

    /// Whether requests of the task kind carry student data.
    pub fn contains_student_data(&self) -> (r: bool)
        ensures
            r == self.spec_contains_student_data(),
    {
        match self {
            ModelTaskKind::StudentAnswerOcr | ModelTaskKind::StudentAnswerOcrIssueCorrection
            | ModelTaskKind::SemanticScoring | ModelTaskKind::SpeakingTranscriptCleanup
            | ModelTaskKind::SpeakingEvaluation => true,
            _ => false,
        }
    }
}

#[derive(PartialEq, Eq, Structural, Clone, Copy, Debug)]
pub enum ModelCapabilityKind {
    Text,
    Vision,
    StructuredJson,
    JsonSchema,
    ThinkingControl,
    MultimodalProjector,
}

#[derive(PartialEq, Eq, Structural, Clone, Copy, Debug)]
pub enum CapabilitySupport {
    Pass,
    Partial,
    Fail,
    Unverified,
}

#[derive(PartialEq, Eq, Structural, Clone, Copy, Debug)]
pub enum ModelLifecycleState {
    Imported,
    Probing,
    ProbeFailed,
    Compatible,
    Unsupported,
    Experimental,
    BenchmarkVerified,
    BenchmarkFailed,
    Production,
}

impl ModelLifecycleState {
    pub open spec fn spec_may_receive_production_student_data(self) -> bool {
        self == ModelLifecycleState::Production
    }

    /// Only a production model may receive production student data.
    pub fn may_receive_production_student_data(&self) -> (r: bool)
        ensures
            r == self.spec_may_receive_production_student_data(),
    {
        *self == ModelLifecycleState::Production
    }

    pub open spec fn spec_may_receive_explicit_experiment_student_data(self) -> bool {
        self == ModelLifecycleState::Experimental || self
            == ModelLifecycleState::BenchmarkVerified || self == ModelLifecycleState::Production
    }

    /// States in which an explicitly authorised experiment may send student data.
    pub fn may_receive_explicit_experiment_student_data(&self) -> (r: bool)
        ensures
            r == self.spec_may_receive_explicit_experiment_student_data(),
    {
        *self == ModelLifecycleState::Experimental || *self
            == ModelLifecycleState::BenchmarkVerified || *self == ModelLifecycleState::Production
    }
}

#[derive(PartialEq, Eq, Structural, Clone, Copy, Debug)]
pub enum BenchmarkGateState {
    Pass,
    Fail,
}

#[derive(PartialEq, Eq, Structural, Clone, Copy, Debug)]
pub enum ModelFormat {
    Gguf,
}

#[derive(PartialEq, Eq, Structural, Clone, Copy, Debug)]
pub struct ModelCapabilities {
    pub text: bool,
    pub vision: bool,
    pub structured_json: bool,
    pub json_schema: bool,
    pub thinking_control: bool,
    pub multimodal_projector_required: bool,
}

pub fn clone_opt_string(v: &Option<String>) -> (r: Option<String>)
    ensures
        r == *v,
{
    match v {
        Some(s) => Some(s.clone()),
        None => None,
    }
}

/// A legacy model profile (one managed or external llama-server setup).
#[derive(Debug)]
pub struct ModelProfile {
    pub id: String,
    pub display_name: String,
    pub mode: ModelMode,
    pub server_path: String,
    pub model_path: String,
    pub mmproj_path: String,
    pub host: String,
    pub port: u16,
    pub base_url: String,
    pub runtime_preset: ModelRuntimePreset,
    pub privacy_mode: PrivacyMode,
}

impl ModelProfile {
    pub open spec fn spec_requires_mmproj(&self) -> bool {
        crate::text::trim(self.mmproj_path@).len() > 0
    }

    /// A profile needs its multimodal projector when it names one.
    pub fn requires_mmproj(&self) -> (r: bool)
        ensures
            r == self.spec_requires_mmproj(),
    {
        let t = crate::text::trim_str(self.mmproj_path.as_str());
        !t.as_str().is_empty()
    }
}

impl Clone for ModelProfile {
    fn clone(&self) -> (r: Self)
        ensures
            r == *self,
    {
        ModelProfile {
            id: self.id.clone(),
            display_name: self.display_name.clone(),
            mode: self.mode,
            server_path: self.server_path.clone(),
            model_path: self.model_path.clone(),
            mmproj_path: self.mmproj_path.clone(),
            host: self.host.clone(),
            port: self.port,
            base_url: self.base_url.clone(),
            runtime_preset: self.runtime_preset,
            privacy_mode: self.privacy_mode,
        }
    }
}

/// One key/value pair of a model definition's metadata.
#[derive(Debug)]
pub struct MetadataEntry {
    pub key: String,
    pub value: String,
}

impl Clone for MetadataEntry {
    fn clone(&self) -> (r: Self)
        ensures
            r == *self,
    {
        MetadataEntry { key: self.key.clone(), value: self.value.clone() }
    }
}

pub fn clone_metadata(v: &Vec<MetadataEntry>) -> (r: Vec<MetadataEntry>)
    ensures
        r@ == v@,
{
    let mut r: Vec<MetadataEntry> = Vec::new();
    let mut i: usize = 0;
    while i < v.len()
        invariant
            i <= v.len(),
            r@ == v@.subrange(0, i as int),
        decreases v.len() - i,
    {
        r.push(v[i].clone());
        assert(v@.subrange(0, i + 1) == v@.subrange(0, i as int).push(v@[i as int]));
        i = i + 1;
    }
    assert(v@.subrange(0, v@.len() as int) == v@);
    r
}

/// The value stored under `key` (the first entry with that key).
pub open spec fn metadata_get(m: Seq<MetadataEntry>, key: Seq<char>) -> Option<Seq<char>>
    decreases m.len(),
{
    if m.len() == 0 {
        None
    } else if m[0].key@ == key {
        Some(m[0].value@)
    } else {
        metadata_get(m.drop_first(), key)
    }
}

/// Looks up a metadata value.
pub fn metadata_lookup<'a>(m: &'a Vec<MetadataEntry>, key: &str) -> (r: Option<&'a String>)
    ensures
        match r {
            Some(v) => metadata_get(m@, key@) == Some(v@),
            None => metadata_get(m@, key@) is None,
        },
{
    let mut i: usize = 0;
    assert(m@.subrange(0, m@.len() as int) == m@);
    while i < m.len()
        invariant
            i <= m.len(),
            metadata_get(m@, key@) == metadata_get(m@.subrange(i as int, m@.len() as int), key@),
        decreases m.len() - i,
    {
        let ghost rest = m@.subrange(i as int, m@.len() as int);
        assert(rest.drop_first() == m@.subrange(i + 1, m@.len() as int));
        if crate::text::str_eq(m[i].key.as_str(), key) {
            return Some(&m[i].value);
        }
        i = i + 1;
    }
    None
}

/// Metadata with `key` set to `value`: the first entry with that key is
/// replaced, otherwise the pair is appended (`BTreeMap::insert`).
pub open spec fn metadata_put(m: Seq<MetadataEntry>, key: Seq<char>, value: Seq<char>) -> Seq<
    (Seq<char>, Seq<char>),
>
    decreases m.len(),
{
    if m.len() == 0 {
        seq![(key, value)]
    } else if m[0].key@ == key {
        seq![(key, value)] + metadata_pairs(m.drop_first())
    } else {
        seq![(m[0].key@, m[0].value@)] + metadata_put(m.drop_first(), key, value)
    }
}

/// The metadata as key/value character sequences.
pub open spec fn metadata_pairs(m: Seq<MetadataEntry>) -> Seq<(Seq<char>, Seq<char>)> {
    m.map_values(|e: MetadataEntry| (e.key@, e.value@))
}

proof fn lemma_metadata_put_split(m: Seq<MetadataEntry>, key: Seq<char>, value: Seq<char>, i: int)
    requires
        0 <= i <= m.len(),
        forall|j: int| 0 <= j < i ==> #[trigger] m[j].key@ != key,
    ensures
        metadata_put(m, key, value) == metadata_pairs(m.subrange(0, i)) + metadata_put(
            m.subrange(i, m.len() as int),
            key,
            value,
        ),
    decreases i,
{
    if i > 0 {
        let t = m.drop_first();
        assert forall|j: int| 0 <= j < i - 1 implies #[trigger] t[j].key@ != key by {
            assert(t[j] == m[j + 1]);
        }
        lemma_metadata_put_split(t, key, value, i - 1);
        assert(t.subrange(i - 1, t.len() as int) == m.subrange(i, m.len() as int));
        assert(metadata_pairs(m.subrange(0, i)) == seq![(m[0].key@, m[0].value@)]
            + metadata_pairs(t.subrange(0, i - 1)));
    } else {
        assert(m.subrange(0, m.len() as int) == m);
    }
}

/// Sets a metadata key (replacing its first entry, or appending).
pub fn metadata_insert(m: &mut Vec<MetadataEntry>, key: &str, value: String)
    ensures
        metadata_pairs(final(m)@) == metadata_put(old(m)@, key@, value@),
{
    let ghost m0 = m@;
    let mut i: usize = 0;
    let mut found = false;
    while i < m.len()
        invariant_except_break
            !found,
        invariant
            i <= m.len(),
            m@ == m0,
            forall|j: int| 0 <= j < i ==> #[trigger] m0[j].key@ != key@,
        ensures
            i <= m.len(),
            m@ == m0,
            forall|j: int| 0 <= j < i ==> #[trigger] m0[j].key@ != key@,
            found ==> i < m.len() && m0[i as int].key@ == key@,
            !found ==> i == m.len(),
        decreases m.len() - i,
    {
        if crate::text::str_eq(m[i].key.as_str(), key) {
            found = true;
            break;
        }
        i = i + 1;
    }
    if found {
        proof {
            lemma_metadata_put_split(m0, key@, value@, i as int);
            let rest = m0.subrange(i as int, m0.len() as int);
            assert(rest[0] == m0[i as int]);
            assert(rest.drop_first() == m0.subrange(i + 1, m0.len() as int));
            assert(metadata_put(rest, key@, value@) == seq![(key@, value@)] + metadata_pairs(
                rest.drop_first(),
            ));
        }
        let entry = MetadataEntry { key: key.to_owned(), value };
        m.set(i, entry);
        proof {
            let n = m@;
            let lhs = metadata_pairs(n);
            let rhs = metadata_pairs(m0.subrange(0, i as int)) + seq![(key@, value@)]
                + metadata_pairs(m0.subrange(i + 1, m0.len() as int));
            assert forall|j: int| 0 <= j < lhs.len() implies lhs[j] == rhs[j] by {
                if j < i {
                    assert(n[j] == m0[j]);
                } else if j > i {
                    assert(n[j] == m0[j]);
                    assert(m0.subrange(i + 1, m0.len() as int)[j - i - 1] == m0[j]);
                }
            }
            assert(lhs =~= rhs);
        }
    } else {
        proof {
            lemma_metadata_put_split(m0, key@, value@, m0.len() as int);
            assert(m0.subrange(0, m0.len() as int) == m0);
        }
        m.push(MetadataEntry { key: key.to_owned(), value });
        proof {
            assert(metadata_pairs(m@) =~= metadata_pairs(m0) + seq![(key@, value@)]);
        }
    }
}

/// A model file registered in the platform registry.
#[derive(Debug)]
pub struct ModelDefinition {
    pub id: String,
    pub family: String,
    pub display_name: String,
    pub model_path: String,
    pub mmproj_path: Option<String>,
    pub format: ModelFormat,
    pub quantization: Option<String>,
    pub capabilities: ModelCapabilities,
    pub context_limit: Option<u32>,
    pub metadata: Vec<MetadataEntry>,
    pub model_fingerprint: String,
    pub lifecycle_state: ModelLifecycleState,
}

/// The value of a model definition, with its metadata as a sequence.
pub struct ModelDefinitionView {
    pub id: String,
    pub family: String,
    pub display_name: String,
    pub model_path: String,
    pub mmproj_path: Option<String>,
    pub format: ModelFormat,
    pub quantization: Option<String>,
    pub capabilities: ModelCapabilities,
    pub context_limit: Option<u32>,
    pub metadata: Seq<MetadataEntry>,
    pub model_fingerprint: String,
    pub lifecycle_state: ModelLifecycleState,
}

impl View for ModelDefinition {
    type V = ModelDefinitionView;

    open spec fn view(&self) -> ModelDefinitionView {
        ModelDefinitionView {
            id: self.id,
            family: self.family,
            display_name: self.display_name,
            model_path: self.model_path,
            mmproj_path: self.mmproj_path,
            format: self.format,
            quantization: self.quantization,
            capabilities: self.capabilities,
            context_limit: self.context_limit,
            metadata: self.metadata@,
            model_fingerprint: self.model_fingerprint,
            lifecycle_state: self.lifecycle_state,
        }
    }
}

impl Clone for ModelDefinition {
    fn clone(&self) -> (r: Self)
        ensures
            r@ == self@,
    {
        ModelDefinition {
            id: self.id.clone(),
            family: self.family.clone(),
            display_name: self.display_name.clone(),
            model_path: self.model_path.clone(),
            mmproj_path: clone_opt_string(&self.mmproj_path),
            format: self.format,
            quantization: clone_opt_string(&self.quantization),
            capabilities: self.capabilities,
            context_limit: self.context_limit,
            metadata: clone_metadata(&self.metadata),
            model_fingerprint: self.model_fingerprint.clone(),
            lifecycle_state: self.lifecycle_state,
        }
    }
}

impl ModelDefinition {
    /// Whether the model carries the grandfathered-baseline mark
    /// (`baselineVerified` = `true`).
    pub open spec fn spec_is_grandfathered(self) -> bool {
        metadata_get(self.metadata@, "baselineVerified"@) == Some("true"@)
    }
}

/// A llama.cpp runtime configuration.
#[derive(Debug)]
pub struct RuntimeDefinition {
    pub id: String,
    pub managed: bool,
    pub server_path: String,
    pub host: String,
    pub port: u16,
    pub privacy_mode: PrivacyMode,
}

impl Clone for RuntimeDefinition {
    fn clone(&self) -> (r: Self)
        ensures
            r == *self,
    {
        RuntimeDefinition {
            id: self.id.clone(),
            managed: self.managed,
            server_path: self.server_path.clone(),
            host: self.host.clone(),
            port: self.port,
            privacy_mode: self.privacy_mode,
        }
    }
}

/// A set of capability kinds.
#[derive(PartialEq, Eq, Structural, Clone, Copy, Debug)]
pub struct CapabilitySet {
    pub text: bool,
    pub vision: bool,
    pub structured_json: bool,
    pub json_schema: bool,
    pub thinking_control: bool,
    pub multimodal_projector: bool,
}

impl CapabilitySet {
    pub open spec fn has(self, k: ModelCapabilityKind) -> bool {
        match k {
            ModelCapabilityKind::Text => self.text,
            ModelCapabilityKind::Vision => self.vision,
            ModelCapabilityKind::StructuredJson => self.structured_json,
            ModelCapabilityKind::JsonSchema => self.json_schema,
            ModelCapabilityKind::ThinkingControl => self.thinking_control,
            ModelCapabilityKind::MultimodalProjector => self.multimodal_projector,
        }
    }

    pub open spec fn spec_empty() -> CapabilitySet {
        CapabilitySet {
            text: false,
            vision: false,
            structured_json: false,
            json_schema: false,
            thinking_control: false,
            multimodal_projector: false,
        }
    }

    pub fn empty() -> (r: CapabilitySet)
        ensures
            r == CapabilitySet::spec_empty(),
            forall|k: ModelCapabilityKind| !r.has(k),
    {
        CapabilitySet {
            text: false,
            vision: false,
            structured_json: false,
            json_schema: false,
            thinking_control: false,
            multimodal_projector: false,
        }
    }

    pub open spec fn spec_with(self, k: ModelCapabilityKind) -> CapabilitySet {
        match k {
            ModelCapabilityKind::Text => CapabilitySet { text: true, ..self },
            ModelCapabilityKind::Vision => CapabilitySet { vision: true, ..self },
            ModelCapabilityKind::StructuredJson => CapabilitySet { structured_json: true, ..self },
            ModelCapabilityKind::JsonSchema => CapabilitySet { json_schema: true, ..self },
            ModelCapabilityKind::ThinkingControl => CapabilitySet { thinking_control: true, ..self },
            ModelCapabilityKind::MultimodalProjector => CapabilitySet {
                multimodal_projector: true,
                ..self
            },
        }
    }

    /// Adds a capability (`BTreeSet::insert`).
    pub fn insert(&mut self, k: ModelCapabilityKind)
        ensures
            *final(self) == old(self).spec_with(k),
            forall|q: ModelCapabilityKind| final(self).has(q) == (old(self).has(q) || q == k),
    {
        match k {
            ModelCapabilityKind::Text => self.text = true,
            ModelCapabilityKind::Vision => self.vision = true,
            ModelCapabilityKind::StructuredJson => self.structured_json = true,
            ModelCapabilityKind::JsonSchema => self.json_schema = true,
            ModelCapabilityKind::ThinkingControl => self.thinking_control = true,
            ModelCapabilityKind::MultimodalProjector => self.multimodal_projector = true,
        }
    }

    /// Membership test (`BTreeSet::contains`).
    pub fn contains(&self, k: ModelCapabilityKind) -> (r: bool)
        ensures
            r == self.has(k),
    {
        match k {
            ModelCapabilityKind::Text => self.text,
            ModelCapabilityKind::Vision => self.vision,
            ModelCapabilityKind::StructuredJson => self.structured_json,
            ModelCapabilityKind::JsonSchema => self.json_schema,
            ModelCapabilityKind::ThinkingControl => self.thinking_control,
            ModelCapabilityKind::MultimodalProjector => self.multimodal_projector,
        }
    }
}

/// The six capability kinds in declaration order.
pub fn all_capability_kinds() -> (r: Vec<ModelCapabilityKind>)
    ensures
        r@ == seq![
            ModelCapabilityKind::Text,
            ModelCapabilityKind::Vision,
            ModelCapabilityKind::StructuredJson,
            ModelCapabilityKind::JsonSchema,
            ModelCapabilityKind::ThinkingControl,
            ModelCapabilityKind::MultimodalProjector,
        ],
{
    vec![
        ModelCapabilityKind::Text,
        ModelCapabilityKind::Vision,
        ModelCapabilityKind::StructuredJson,
        ModelCapabilityKind::JsonSchema,
        ModelCapabilityKind::ThinkingControl,
        ModelCapabilityKind::MultimodalProjector,
    ]
}

/// The capabilities a task needs from its model/runtime pair.
#[derive(Debug)]
pub struct TaskProfile {
    pub id: String,
    pub required_capabilities: CapabilitySet,
}

impl Clone for TaskProfile {
    fn clone(&self) -> (r: Self)
        ensures
            r == *self,
    {
        TaskProfile {
            id: self.id.clone(),
            required_capabilities: self.required_capabilities,
        }
    }
}

/// Assignment of a task to a model and a runtime.
#[derive(Debug)]
pub struct TaskModelBinding {
    pub id: String,
    pub task_profile_id: String,
    pub model_definition_id: String,
    pub runtime_definition_id: String,
    pub allow_experimental_student_data: bool,
    pub enabled: bool,
}

impl Clone for TaskModelBinding {
    fn clone(&self) -> (r: Self)
        ensures
            r == *self,
    {
        TaskModelBinding {
            id: self.id.clone(),
            task_profile_id: self.task_profile_id.clone(),
            model_definition_id: self.model_definition_id.clone(),
            runtime_definition_id: self.runtime_definition_id.clone(),
            allow_experimental_student_data: self.allow_experimental_student_data,
            enabled: self.enabled,
        }
    }
}

/// One probed capability.
#[derive(Debug)]
pub struct CapabilityProbeResult {
    pub capability: ModelCapabilityKind,
    pub support: CapabilitySupport,
    pub detail: Option<String>,
    pub duration_ms: Option<u64>,
}

impl Clone for CapabilityProbeResult {
    fn clone(&self) -> (r: Self)
        ensures
            r == *self,
    {
        CapabilityProbeResult {
            capability: self.capability,
            support: self.support,
            detail: clone_opt_string(&self.detail),
            duration_ms: self.duration_ms,
        }
    }
}

/// The probed capabilities of one model/runtime pair, tied to their
/// fingerprints.
#[derive(Debug)]
pub struct CapabilityManifest {
    pub model_definition_id: String,
    pub runtime_definition_id: String,
    pub model_fingerprint: String,
    pub runtime_fingerprint: String,
    pub verified_at: String,
    pub results: Vec<CapabilityProbeResult>,
}

/// The value of a capability manifest, with its results as a sequence.
pub struct CapabilityManifestView {
    pub model_definition_id: String,
    pub runtime_definition_id: String,
    pub model_fingerprint: String,
    pub runtime_fingerprint: String,
    pub verified_at: String,
    pub results: Seq<CapabilityProbeResult>,
}

impl View for CapabilityManifest {
    type V = CapabilityManifestView;

    open spec fn view(&self) -> CapabilityManifestView {
        CapabilityManifestView {
            model_definition_id: self.model_definition_id,
            runtime_definition_id: self.runtime_definition_id,
            model_fingerprint: self.model_fingerprint,
            runtime_fingerprint: self.runtime_fingerprint,
            verified_at: self.verified_at,
            results: self.results@,
        }
    }
}

impl Clone for CapabilityManifest {
    fn clone(&self) -> (r: Self)
        ensures
            r@ == self@,
    {
        let mut results: Vec<CapabilityProbeResult> = Vec::new();
        let mut i: usize = 0;
        while i < self.results.len()
            invariant
                i <= self.results.len(),
                results@ == self.results@.subrange(0, i as int),
            decreases self.results.len() - i,
        {
            results.push(self.results[i].clone());
            assert(self.results@.subrange(0, i + 1) == self.results@.subrange(0, i as int).push(
                self.results@[i as int],
            ));
            i = i + 1;
        }
        assert(self.results@.subrange(0, self.results@.len() as int) == self.results@);
        CapabilityManifest {
            model_definition_id: self.model_definition_id.clone(),
            runtime_definition_id: self.runtime_definition_id.clone(),
            model_fingerprint: self.model_fingerprint.clone(),
            runtime_fingerprint: self.runtime_fingerprint.clone(),
            verified_at: self.verified_at.clone(),
            results,
        }
    }
}

impl CapabilityManifest {
    /// Every required capability has a passing result.
    pub open spec fn spec_satisfies(self, required: CapabilitySet) -> bool {
        forall|k: ModelCapabilityKind|
            #[trigger] required.has(k) ==> exists|j: int|
                0 <= j < self.results@.len() && #[trigger] self.results@[j].capability == k
                    && self.results@[j].support == CapabilitySupport::Pass
    }

    /// Whether some result for `k` passed.
    pub open spec fn spec_passes(self, k: ModelCapabilityKind) -> bool {
        exists|j: int|
            0 <= j < self.results@.len() && #[trigger] self.results@[j].capability == k
                && self.results@[j].support == CapabilitySupport::Pass
    }

    fn passes(&self, k: ModelCapabilityKind) -> (r: bool)
        ensures
            r == self.spec_passes(k),
    {
        let mut j: usize = 0;
        while j < self.results.len()
            invariant
                j <= self.results.len(),
                forall|jj: int|
                    0 <= jj < j ==> !(#[trigger] self.results@[jj].capability == k
                        && self.results@[jj].support == CapabilitySupport::Pass),
            decreases self.results.len() - j,
        {
            if self.results[j].capability == k && self.results[j].support
                == CapabilitySupport::Pass {
                return true;
            }
            j = j + 1;
        }
        false
    }

    pub fn satisfies(&self, required: &CapabilitySet) -> (r: bool)
        ensures
            r == self.spec_satisfies(*required),
    {
        let kinds = all_capability_kinds();
        let mut i: usize = 0;
        while i < kinds.len()
            invariant
                i <= kinds.len(),
                kinds@ == seq![
                    ModelCapabilityKind::Text,
                    ModelCapabilityKind::Vision,
                    ModelCapabilityKind::StructuredJson,
                    ModelCapabilityKind::JsonSchema,
                    ModelCapabilityKind::ThinkingControl,
                    ModelCapabilityKind::MultimodalProjector,
                ],
                forall|k: int|
                    0 <= k < i ==> (required.has(#[trigger] kinds@[k]) ==> self.spec_passes(
                        kinds@[k],
                    )),
            decreases kinds.len() - i,
        {
            let k = kinds[i];
            if required.contains(k) && !self.passes(k) {
                return false;
            }
            i = i + 1;
        }
        assert forall|k: ModelCapabilityKind| #[trigger] required.has(k) implies self.spec_passes(
            k,
        ) by {
            match k {
                ModelCapabilityKind::Text => assert(kinds@[0] == k),
                ModelCapabilityKind::Vision => assert(kinds@[1] == k),
                ModelCapabilityKind::StructuredJson => assert(kinds@[2] == k),
                ModelCapabilityKind::JsonSchema => assert(kinds@[3] == k),
                ModelCapabilityKind::ThinkingControl => assert(kinds@[4] == k),
                ModelCapabilityKind::MultimodalProjector => assert(kinds@[5] == k),
            }
        }
        true
    }
}

/// A recorded benchmark gate result.
#[derive(Debug)]
pub struct BenchmarkResultSummary {
    pub id: String,
    pub task_profile_id: String,
    pub model_definition_id: String,
    pub runtime_definition_id: String,
    pub model_fingerprint: String,
    pub runtime_fingerprint: String,
    pub state: BenchmarkGateState,
    pub evaluated_at: String,
}

impl Clone for BenchmarkResultSummary {
    fn clone(&self) -> (r: Self)
        ensures
            r == *self,
    {
        BenchmarkResultSummary {
            id: self.id.clone(),
            task_profile_id: self.task_profile_id.clone(),
            model_definition_id: self.model_definition_id.clone(),
            runtime_definition_id: self.runtime_definition_id.clone(),
            model_fingerprint: self.model_fingerprint.clone(),
            runtime_fingerprint: self.runtime_fingerprint.clone(),
            state: self.state,
            evaluated_at: self.evaluated_at.clone(),
        }
    }
}

/// The persisted model-platform registry.
#[derive(Debug)]
pub struct ModelPlatformConfig {
    pub schema_version: String,
    pub models: Vec<ModelDefinition>,
    pub runtimes: Vec<RuntimeDefinition>,
    pub task_profiles: Vec<TaskProfile>,
    pub bindings: Vec<TaskModelBinding>,
    pub capability_manifests: Vec<CapabilityManifest>,
    pub benchmark_results: Vec<BenchmarkResultSummary>,
}

#[derive(PartialEq, Eq, Structural, Clone, Copy, Debug)]
pub enum ModelInputImageKind {
    QuestionText,
    Rubric,
    StudentOcr,
    StudentIdentityOcr,
    StudentAnswerOcrIssueCorrection,
}

/// One page image prepared as model input.
#[derive(Debug)]
pub struct ModelInputImage {
    pub kind: ModelInputImageKind,
    pub document_id: String,
    pub page_number: u32,
    pub source_image_path: String,
    pub output_image_path: String,
    pub source_width: u32,
    pub source_height: u32,
    pub output_width: u32,
    pub output_height: u32,
    pub source_bytes: u64,
    pub output_bytes: u64,
    pub base64_approx_bytes: u64,
    pub long_edge_max: u32,
    pub jpeg_quality: u8,
    pub created_at: String,
    pub source_sha256: Option<String>,
    pub output_sha256: Option<String>,
    pub cache_key: Option<String>,
    pub cache_transaction_id: Option<String>,
    pub cache_hit: bool,
}

impl Clone for ModelInputImage {
    fn clone(&self) -> (r: Self)
        ensures
            r == *self,
    {
        ModelInputImage {
            kind: self.kind,
            document_id: self.document_id.clone(),
            page_number: self.page_number,
            source_image_path: self.source_image_path.clone(),
            output_image_path: self.output_image_path.clone(),
            source_width: self.source_width,
            source_height: self.source_height,
            output_width: self.output_width,
            output_height: self.output_height,
            source_bytes: self.source_bytes,
            output_bytes: self.output_bytes,
            base64_approx_bytes: self.base64_approx_bytes,
            long_edge_max: self.long_edge_max,
            jpeg_quality: self.jpeg_quality,
            created_at: self.created_at.clone(),
            source_sha256: clone_opt_string(&self.source_sha256),
            output_sha256: clone_opt_string(&self.output_sha256),
            cache_key: clone_opt_string(&self.cache_key),
            cache_transaction_id: clone_opt_string(&self.cache_transaction_id),
            cache_hit: self.cache_hit,
        }
    }
}

} // verus!
