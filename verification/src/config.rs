//! The legacy model-profile store: the bundled profiles, the active profile,
//! profile lookup and the in-memory profiles that platform routes
//! materialize.
use vstd::prelude::*;
use crate::domain::{ModelMode, ModelProfile, ModelRuntimePreset, PrivacyMode};
use crate::errors::{app_error, concat, AppError, AppErrorCode};
use crate::seqs::{first_index, lemma_filter_push, lemma_first_index, lemma_first_index_is,
    lemma_first_index_none, upsert};
use crate::text::str_eq;

verus! {

/// The persisted profile store: the active profile id and every profile.
#[derive(Debug)]
pub struct ModelConfigStore {
    pub active_profile_id: String,
    pub profiles: Vec<ModelProfile>,
}

pub open spec fn spec_profile(
    id: Seq<char>,
    display_name: Seq<char>,
    port: u16,
    base_url: Seq<char>,
    preset: ModelRuntimePreset,
) -> spec_fn(ModelProfile) -> bool {
    |p: ModelProfile|
        {
            &&& p.id@ == id
            &&& p.display_name@ == display_name
            &&& p.mode == ModelMode::Managed
            &&& p.server_path@ == Seq::<char>::empty()
            &&& p.model_path@ == Seq::<char>::empty()
            &&& p.mmproj_path@ == Seq::<char>::empty()
            &&& p.host@ == "127.0.0.1"@
            &&& p.port == port
            &&& p.base_url@ == base_url
            &&& p.runtime_preset == preset
            &&& p.privacy_mode == PrivacyMode::StrictLocal
        }
}

pub open spec fn is_default_profile(p: ModelProfile) -> bool {
    spec_profile(
        "gemma4-ocr-q8"@,
        "Gemma 4 OCR (Q8)"@,
        8080,
        "http://127.0.0.1:8080"@,
        ModelRuntimePreset::Standard,
    )(p)
}

pub open spec fn is_speaking_cleanup_profile(p: ModelProfile) -> bool {
    spec_profile(
        "speaking_transcript_cleanup_12b"@,
        "Gemma 4 12B — Konuşma Transkript Temizleme"@,
        8081,
        "http://127.0.0.1:8081"@,
        ModelRuntimePreset::SpeakingRubricText,
    )(p)
}

pub open spec fn is_speaking_rubric_profile(p: ModelProfile) -> bool {
    spec_profile(
        "speaking_rubric_evaluation_12b"@,
        "Gemma 4 12B — Konuşma Rubrik Değerlendirme"@,
        8082,
        "http://127.0.0.1:8082"@,
        ModelRuntimePreset::SpeakingRubricText,
    )(p)
}

fn local_profile(
    id: &str,
    display_name: &str,
    port: u16,
    base_url: &str,
    preset: ModelRuntimePreset,
) -> (p: ModelProfile)
    ensures
        spec_profile(id@, display_name@, port, base_url@, preset)(p),
{
    let p = ModelProfile {
        id: id.to_owned(),
        display_name: display_name.to_owned(),
        mode: ModelMode::Managed,
        server_path: String::new(),
        model_path: String::new(),
        mmproj_path: String::new(),
        host: "127.0.0.1".to_owned(),
        port,
        base_url: base_url.to_owned(),
        runtime_preset: preset,
        privacy_mode: PrivacyMode::StrictLocal,
    };
    proof {
        reveal_strlit("");
    }
    p
}

/// The bundled OCR profile, managed on the loopback host.
pub fn default_model_profile() -> (p: ModelProfile)
    ensures
        is_default_profile(p),
{
    local_profile(
        "gemma4-ocr-q8",
        "Gemma 4 OCR (Q8)",
        8080,
        "http://127.0.0.1:8080",
        ModelRuntimePreset::Standard,
    )
}

/// The bundled speaking transcript cleanup profile.
pub fn speaking_asr_cleanup_model_profile() -> (p: ModelProfile)
    ensures
        is_speaking_cleanup_profile(p),
{
    local_profile(
        "speaking_transcript_cleanup_12b",
        "Gemma 4 12B — Konuşma Transkript Temizleme",
        8081,
        "http://127.0.0.1:8081",
        ModelRuntimePreset::SpeakingRubricText,
    )
}

/// The bundled speaking rubric evaluation profile.
pub fn speaking_rubric_model_profile() -> (p: ModelProfile)
    ensures
        is_speaking_rubric_profile(p),
{
    local_profile(
        "speaking_rubric_evaluation_12b",
        "Gemma 4 12B — Konuşma Rubrik Değerlendirme",
        8082,
        "http://127.0.0.1:8082",
        ModelRuntimePreset::SpeakingRubricText,
    )
}

/// The bundled profiles, the OCR profile first and active.
pub open spec fn is_default_store(s: ModelConfigStore) -> bool {
    &&& s.profiles@.len() == 3
    &&& is_default_profile(s.profiles@[0])
    &&& is_speaking_cleanup_profile(s.profiles@[1])
    &&& is_speaking_rubric_profile(s.profiles@[2])
    &&& s.active_profile_id@ == "gemma4-ocr-q8"@
}

/// The store with only the bundled profiles.
pub fn default_store() -> (s: ModelConfigStore)
    ensures
        is_default_store(s),
{
    let profile = default_model_profile();
    let active = profile.id.clone();
    let profiles = vec![profile, speaking_asr_cleanup_model_profile(), speaking_rubric_model_profile()];
    ModelConfigStore { active_profile_id: active, profiles }
}

pub open spec fn profile_has_id(id: Seq<char>) -> spec_fn(ModelProfile) -> bool {
    |p: ModelProfile| p.id@ == id
}

pub open spec fn profile_pos(profiles: Seq<ModelProfile>, id: Seq<char>) -> int {
    first_index(profiles, profile_has_id(id))
}

/// Position of the first profile with this id.
pub fn find_profile(profiles: &Vec<ModelProfile>, id: &str) -> (r: Option<usize>)
    ensures
        match r {
            Some(i) => i < profiles@.len() && i as int == profile_pos(profiles@, id@),
            None => profile_pos(profiles@, id@) == -1,
        },
{
    let ghost p = profile_has_id(id@);
    let mut i: usize = 0;
    while i < profiles.len()
        invariant
            i <= profiles.len(),
            p == profile_has_id(id@),
            forall|j: int| 0 <= j < i ==> !p(#[trigger] profiles@[j]),
        decreases profiles.len() - i,
    {
        if str_eq(profiles[i].id.as_str(), id) {
            proof {
                lemma_first_index_is(profiles@, p, i as int);
            }
            return Some(i);
        }
        i = i + 1;
    }
    proof {
        lemma_first_index_none(profiles@, p);
    }
    None
}

/// The profile a request names: the given id, or the active profile.
pub open spec fn target_id(s: ModelConfigStore, profile_id: Option<&str>) -> Seq<char> {
    match profile_id {
        Some(id) => id@,
        None => s.active_profile_id@,
    }
}

/// Replaces the first profile with the same id, or appends the profile.
pub open spec fn profiles_upsert(profiles: Seq<ModelProfile>, p: ModelProfile) -> Seq<ModelProfile> {
    upsert(profiles, profile_has_id(p.id@), p)
}

fn upsert_profile(profiles: &mut Vec<ModelProfile>, profile: ModelProfile)
    ensures
        final(profiles)@ == profiles_upsert(old(profiles)@, profile),
{
    match find_profile(profiles, profile.id.as_str()) {
        Some(i) => {
            profiles.set(i, profile);
        },
        None => {
            profiles.push(profile);
        },
    }
}

fn not_found(target: &str, action: &str) -> (e: AppError)
    ensures
        e.code == AppErrorCode::ModelProfileNotFound,
{
    let mut e = app_error(
        AppErrorCode::ModelProfileNotFound,
        "Model profili bulunamadı.",
        Some(concat("profile_id=", target)),
        Some(action.to_owned()),
    );
    e.recoverable = false;
    e
}

/// The legacy model-profile store: the profiles visible in memory
/// (ephemeral ones included), the store persisted to the file (never
/// holding an ephemeral profile), and the path it is persisted to; the
/// caller persists `store_ref` after every change.
#[derive(Debug)]
pub struct ModelConfigService {
    config_path: String,
    store: ModelConfigStore,
    persisted: ModelConfigStore,
}

/// The persisted profiles after the profile with `p`'s id is replaced by
/// `p` where the file holds that id; an id held only in memory (an
/// ephemeral profile) leaves them as they were.
pub open spec fn persisted_after_edit(ps: Seq<ModelProfile>, p: ModelProfile) -> Seq<ModelProfile> {
    let j = profile_pos(ps, p.id@);
    if j >= 0 {
        ps.update(j, p)
    } else {
        ps
    }
}

/// `after` is the persisted store `before` once the profile `p` was edited
/// and made active: the persisted profile with `p`'s id is replaced and
/// becomes active where there is one; an in-memory profile leaves the
/// persisted store unchanged.
pub open spec fn persisted_edit(before: ModelConfigStore, after: ModelConfigStore, p: ModelProfile) -> bool {
    &&& after.profiles@ == persisted_after_edit(before.profiles@, p)
    &&& if profile_pos(before.profiles@, p.id@) >= 0 {
        after.active_profile_id@ == p.id@
    } else {
        after.active_profile_id == before.active_profile_id
    }
}

fn copy_profiles(v: &Vec<ModelProfile>) -> (r: Vec<ModelProfile>)
    ensures
        r@ == v@,
{
    let mut r: Vec<ModelProfile> = Vec::new();
    let mut i: usize = 0;
    while i < v.len()
        invariant
            i <= v@.len(),
            r@ == v@.take(i as int),
        decreases v@.len() - i,
    {
        r.push(v[i].clone());
        proof {
            assert(v@.take(i + 1) == v@.take(i as int).push(v@[i as int]));
        }
        i = i + 1;
    }
    assert(v@.take(v@.len() as int) == v@);
    r
}

fn copy_store(s: &ModelConfigStore) -> (r: ModelConfigStore)
    ensures
        r.profiles@ == s.profiles@,
        r.active_profile_id == s.active_profile_id,
{
    ModelConfigStore { active_profile_id: s.active_profile_id.clone(), profiles: copy_profiles(&s.profiles) }
}

impl ModelConfigService {
    pub closed spec fn spec_store(&self) -> ModelConfigStore {
        self.store
    }

    /// The store persisted to the file.
    pub closed spec fn spec_persisted(&self) -> ModelConfigStore {
        self.persisted
    }

    pub closed spec fn spec_config_path(&self) -> Seq<char> {
        self.config_path@
    }

    /// A service over the store read from `config_path`, or over the
    /// bundled profiles when none could be read.
    pub fn new_with_path(config_path: String, stored: Option<ModelConfigStore>) -> (s: Self)
        ensures
            s.spec_config_path() == config_path@,
            match stored {
                Some(st) => s.spec_store() == st,
                None => is_default_store(s.spec_store()),
            },
            s.spec_persisted().profiles@ == s.spec_store().profiles@,
            s.spec_persisted().active_profile_id == s.spec_store().active_profile_id,
    {
        let store = match stored {
            Some(st) => st,
            None => default_store(),
        };
        let persisted = copy_store(&store);
        ModelConfigService { config_path, store, persisted }
    }

    /// The persistence path.
    pub fn config_path(&self) -> (r: &str)
        ensures
            r@ == self.spec_config_path(),
    {
        self.config_path.as_str()
    }

    /// The store to persist: the profiles of the file and their edits,
    /// without the in-memory profiles.
    pub fn store_ref(&self) -> (r: &ModelConfigStore)
        ensures
            *r == self.spec_persisted(),
    {
        &self.persisted
    }

    /// Applies an edit of a profile to the persisted store: where the file
    /// holds the profile's id, the profile is replaced and made active;
    /// otherwise (an in-memory profile) the persisted store stays as it is.
    fn edit_persisted(&mut self, p: ModelProfile)
        ensures
            final(self).config_path == old(self).config_path,
            final(self).store == old(self).store,
            persisted_edit(old(self).persisted, final(self).persisted, p),
    {
        match find_profile(&self.persisted.profiles, p.id.as_str()) {
            Some(j) => {
                let id = p.id.clone();
                self.persisted.profiles.set(j, p);
                self.persisted.active_profile_id = id;
            },
            None => {},
        }
    }

    /// The named profile, or the active one.
    pub fn get_profile(&self, profile_id: Option<&str>) -> (r: Result<ModelProfile, AppError>)
        ensures
            ({
                let i = profile_pos(self.spec_store().profiles@, target_id(self.spec_store(), profile_id));
                match r {
                    Ok(p) => i >= 0 && p == self.spec_store().profiles@[i],
                    Err(e) => i == -1 && e.code == AppErrorCode::ModelProfileNotFound,
                }
            }),
    {
        let target = match profile_id {
            Some(id) => id,
            None => self.store.active_profile_id.as_str(),
        };
        match find_profile(&self.store.profiles, target) {
            Some(i) => Ok(self.store.profiles[i].clone()),
            None => Err(not_found(target, "Varsayılan modeli yeniden yükleyin.")),
        }
    }

    /// The profile with this id.
    pub fn get_model_profile(&self, profile_id: &str) -> (r: Result<ModelProfile, AppError>)
        ensures
            ({
                let i = profile_pos(self.spec_store().profiles@, profile_id@);
                match r {
                    Ok(p) => i >= 0 && p == self.spec_store().profiles@[i],
                    Err(e) => i == -1 && e.code == AppErrorCode::ModelProfileNotFound,
                }
            }),
    {
        self.get_profile(Some(profile_id))
    }

    /// The active profile id.
    pub fn active_profile_id(&self) -> (r: String)
        ensures
            r == self.spec_store().active_profile_id,
    {
        self.store.active_profile_id.clone()
    }

    /// Sets the mode of the named (or active) profile and makes it active.
    pub fn set_mode(&mut self, profile_id: Option<&str>, mode: ModelMode) -> (r: Result<
        ModelProfile,
        AppError,
    >)
        ensures
            final(self).spec_config_path() == old(self).spec_config_path(),
            ({
                let s = old(self).spec_store();
                let i = profile_pos(s.profiles@, target_id(s, profile_id));
                match r {
                    Ok(p) => {
                        &&& i >= 0
                        &&& p == ModelProfile { mode: mode, ..s.profiles@[i] }
                        &&& final(self).spec_store().profiles@ == s.profiles@.update(i, p)
                        &&& final(self).spec_store().active_profile_id@ == p.id@
                        &&& persisted_edit(old(self).spec_persisted(), final(self).spec_persisted(), p)
                    },
                    Err(e) => i == -1 && e.code == AppErrorCode::ModelProfileNotFound
                        && final(self).spec_store() == s
                        && final(self).spec_persisted() == old(self).spec_persisted(),
                }
            }),
    {
        let target = match profile_id {
            Some(id) => id.to_owned(),
            None => self.store.active_profile_id.clone(),
        };
        match find_profile(&self.store.profiles, target.as_str()) {
            Some(i) => {
                let mut p = self.store.profiles[i].clone();
                p.mode = mode;
                let cloned = p.clone();
                self.store.profiles.set(i, p);
                self.store.active_profile_id = cloned.id.clone();
                self.edit_persisted(cloned.clone());
                Ok(cloned)
            },
            None => Err(not_found(target.as_str(), "Varsayılan profili açmayı deneyin.")),
        }
    }

    /// Restores the bundled profiles and returns the bundled OCR profile.
    pub fn reset_active_profile(&mut self) -> (r: ModelProfile)
        ensures
            final(self).spec_config_path() == old(self).spec_config_path(),
            is_default_store(final(self).spec_store()),
            is_default_store(final(self).spec_persisted()),
            is_default_profile(r),
    {
        let store = default_store();
        let profile = store.profiles[0].clone();
        self.store = store;
        self.persisted = default_store();
        profile
    }

    /// Switches the named (or active) profile to explicit external use and
    /// makes it active.
    pub fn enable_external_profile(&mut self, profile_id: Option<&str>) -> (r: Result<
        ModelProfile,
        AppError,
    >)
        ensures
            final(self).spec_config_path() == old(self).spec_config_path(),
            ({
                let s = old(self).spec_store();
                let i = profile_pos(s.profiles@, target_id(s, profile_id));
                match r {
                    Ok(p) => {
                        &&& i >= 0
                        &&& p == ModelProfile {
                            privacy_mode: PrivacyMode::ExplicitExternal,
                            mode: ModelMode::External,
                            ..s.profiles@[i]
                        }
                        &&& final(self).spec_store().profiles@ == s.profiles@.update(i, p)
                        &&& final(self).spec_store().active_profile_id@ == p.id@
                        &&& persisted_edit(old(self).spec_persisted(), final(self).spec_persisted(), p)
                    },
                    Err(e) => i == -1 && e.code == AppErrorCode::ModelProfileNotFound
                        && final(self).spec_store() == s
                        && final(self).spec_persisted() == old(self).spec_persisted(),
                }
            }),
    {
        let target = match profile_id {
            Some(id) => id.to_owned(),
            None => self.store.active_profile_id.clone(),
        };
        match find_profile(&self.store.profiles, target.as_str()) {
            Some(i) => {
                let mut p = self.store.profiles[i].clone();
                p.privacy_mode = PrivacyMode::ExplicitExternal;
                p.mode = ModelMode::External;
                let cloned = p.clone();
                self.store.profiles.set(i, p);
                self.store.active_profile_id = cloned.id.clone();
                self.edit_persisted(cloned.clone());
                Ok(cloned)
            },
            None => Err(not_found(target.as_str(), "Geçerli bir model profili seçin.")),
        }
    }

    /// Adds or replaces a profile in memory only: the persisted store never
    /// receives it, and the active profile stays.
    pub fn update_ephemeral_profile(&mut self, profile: ModelProfile)
        ensures
            ephemeral_step(*old(self), *final(self), profile),
    {
        upsert_profile(&mut self.store.profiles, profile);
    }

    /// Drops every profile with this id from memory; the persisted store
    /// stays as it is.
    pub fn remove_ephemeral_profile(&mut self, profile_id: &str)
        ensures
            final(self).spec_config_path() == old(self).spec_config_path(),
            final(self).spec_persisted() == old(self).spec_persisted(),
            final(self).spec_store().profiles@ == old(self).spec_store().profiles@.filter(
                |p: ModelProfile| p.id@ != profile_id@,
            ),
            final(self).spec_store().active_profile_id == old(self).spec_store().active_profile_id,
    {
        let ghost q = |p: ModelProfile| p.id@ != profile_id@;
        let ghost o = self.store.profiles@;
        let mut kept: Vec<ModelProfile> = Vec::new();
        let mut i: usize = 0;
        while i < self.store.profiles.len()
            invariant
                i <= self.store.profiles@.len(),
                self.store.profiles@ == o,
                q == (|p: ModelProfile| p.id@ != profile_id@),
                kept@ == o.take(i as int).filter(q),
            decreases self.store.profiles@.len() - i,
        {
            proof {
                assert(o.take(i + 1) == o.take(i as int).push(o[i as int]));
                lemma_filter_push(o.take(i as int), q, o[i as int]);
            }
            if !str_eq(self.store.profiles[i].id.as_str(), profile_id) {
                kept.push(self.store.profiles[i].clone());
            }
            i = i + 1;
        }
        assert(o.take(o.len() as int) == o);
        self.store.profiles = kept;
    }

    /// Adds or replaces a profile and makes it active, in memory and in the
    /// persisted store.
    pub fn update_profile(&mut self, profile: ModelProfile)
        ensures
            final(self).spec_config_path() == old(self).spec_config_path(),
            final(self).spec_persisted().profiles@ == profiles_upsert(
                old(self).spec_persisted().profiles@,
                profile,
            ),
            final(self).spec_persisted().active_profile_id@ == profile.id@,
            final(self).spec_store().profiles@ == profiles_upsert(
                old(self).spec_store().profiles@,
                profile,
            ),
            final(self).spec_store().active_profile_id@ == profile.id@,
    {
        let id = profile.id.clone();
        upsert_profile(&mut self.persisted.profiles, profile.clone());
        self.persisted.active_profile_id = id.clone();
        upsert_profile(&mut self.store.profiles, profile);
        self.store.active_profile_id = id;
    }
}

/// `after` is `before` once the in-memory profile `p` was added or
/// replaced: the visible profiles take `p`, while the path, the persisted
/// store and the active profile stay.
pub open spec fn ephemeral_step(before: ModelConfigService, after: ModelConfigService, p: ModelProfile) -> bool {
    &&& after.spec_config_path() == before.spec_config_path()
    &&& after.spec_persisted() == before.spec_persisted()
    &&& after.spec_store().profiles@ == profiles_upsert(before.spec_store().profiles@, p)
    &&& after.spec_store().active_profile_id == before.spec_store().active_profile_id
}

/// Once a profile has been made active (by `set_mode`,
/// `enable_external_profile` or `update_profile`), any run of later calls
/// that only read profiles or add in-memory profiles leaves it the active
/// profile, and leaves the persisted store as it was.
pub proof fn lemma_active_profile_stays(states: Seq<ModelConfigService>, added: Seq<ModelProfile>)
    requires
        states.len() == added.len() + 1,
        forall|i: int|
            0 <= i < added.len() ==> states[i + 1] == states[i] || ephemeral_step(
                states[i],
                #[trigger] states[i + 1],
                added[i],
            ),
    ensures
        states.last().spec_store().active_profile_id == states[0].spec_store().active_profile_id,
        states.last().spec_persisted() == states[0].spec_persisted(),
    decreases added.len(),
{
    if added.len() > 0 {
        let n = added.len() - 1;
        let front = states.take(states.len() - 1);
        let fa = added.take(n);
        assert forall|i: int| 0 <= i < fa.len() implies front[i + 1] == front[i] || ephemeral_step(
            front[i],
            #[trigger] front[i + 1],
            fa[i],
        ) by {
            assert(states[i + 1] == front[i + 1]);
        }
        lemma_active_profile_stays(front, fa);
        assert(states[n + 1] == states[n] || ephemeral_step(states[n], states[n + 1], added[n]));
    }
}

/// Editing and activating a profile never adds a profile to the persisted
/// store: each persisted profile keeps the id of the one in its place, so an
/// id held only in memory never reaches the store.
pub proof fn lemma_edit_adds_no_profile(before: ModelConfigStore, after: ModelConfigStore, p: ModelProfile)
    requires
        persisted_edit(before, after, p),
    ensures
        after.profiles@.len() == before.profiles@.len(),
        forall|i: int|
            0 <= i < after.profiles@.len() ==> (#[trigger] after.profiles@[i]).id@ == before.profiles@[i].id@,
{
    lemma_first_index(before.profiles@, profile_has_id(p.id@));
}

/// A profile stored with this id is what a lookup of the id returns next.
pub proof fn lemma_lookup_after_upsert(profiles: Seq<ModelProfile>, p: ModelProfile)
    ensures
        ({
            let s = profiles_upsert(profiles, p);
            let i = profile_pos(s, p.id@);
            i >= 0 && s[i] == p
        }),
{
    let q = profile_has_id(p.id@);
    let s = profiles_upsert(profiles, p);
    let k = first_index(profiles, q);
    lemma_first_index(profiles, q);
    if k >= 0 {
        assert forall|j: int| 0 <= j < k implies !q(#[trigger] s[j]) by {
            assert(s[j] == profiles[j]);
        }
        lemma_first_index_is(s, q, k);
    } else {
        assert forall|j: int| 0 <= j < profiles.len() implies !q(#[trigger] s[j]) by {
            assert(s[j] == profiles[j]);
        }
        lemma_first_index_is(s, q, profiles.len() as int);
    }
}

/// After a profile id is removed, no lookup finds it.
pub proof fn lemma_lookup_after_remove(profiles: Seq<ModelProfile>, id: Seq<char>)
    ensures
        profile_pos(profiles.filter(|p: ModelProfile| p.id@ != id), id) == -1,
{
    let q = |p: ModelProfile| p.id@ != id;
    let s = profiles.filter(q);
    crate::seqs::lemma_filter_subset(profiles, q);
    assert forall|j: int| 0 <= j < s.len() implies !profile_has_id(id)(#[trigger] s[j]) by {
        assert(q(s[j]));
    }
    lemma_first_index_none(s, profile_has_id(id));
}

// ---------------------------------------------------------------------------
// Startup repair of a stored profile set
// ---------------------------------------------------------------------------
/// The profile with the local model paths replacing its display name,
/// paths, host, port and base URL.
pub open spec fn with_local_paths(p: ModelProfile, local: ModelProfile) -> ModelProfile {
    ModelProfile {
        display_name: local.display_name,
        server_path: local.server_path,
        model_path: local.model_path,
        mmproj_path: local.mmproj_path,
        host: local.host,
        port: local.port,
        base_url: local.base_url,
        ..p
    }
}

/// Brings a stored profile set up to date: every profile with the id of the
/// locally installed model takes its paths, and the bundled speaking
/// profiles are added when missing. Returns whether anything changed.
pub fn bootstrap_local_model_profile(store: &mut ModelConfigStore, local: Option<&ModelProfile>) -> (changed: bool)
    ensures
        final(store).active_profile_id == old(store).active_profile_id,
        ({
            let refreshed = match local {
                Some(l) => old(store).profiles@.map_values(
                    |p: ModelProfile| if p.id@ == l.id@ { with_local_paths(p, *l) } else { p },
                ),
                None => old(store).profiles@,
            };
            let has_cleanup = profile_pos(refreshed, "speaking_transcript_cleanup_12b"@) >= 0;
            let has_rubric = profile_pos(refreshed, "speaking_rubric_evaluation_12b"@) >= 0;
            &&& final(store).profiles@.len() == refreshed.len() + (if has_cleanup { 0int } else { 1int }) + (if has_rubric { 0int } else { 1int })
            &&& forall|j: int| 0 <= j < refreshed.len() ==> final(store).profiles@[j] == refreshed[j]
            &&& !has_cleanup ==> is_speaking_cleanup_profile(final(store).profiles@[refreshed.len() as int])
            &&& !has_rubric ==> is_speaking_rubric_profile(final(store).profiles@[final(store).profiles@.len() - 1])
            &&& (!has_cleanup || !has_rubric) ==> changed
        }),
{
    let mut changed = false;
    let ghost o = store.profiles@;
    match local {
        Some(l) => {
            let mut i: usize = 0;
            while i < store.profiles.len()
                invariant
                    i <= store.profiles@.len(),
                    store.profiles@.len() == o.len(),
                    store.active_profile_id == old(store).active_profile_id,
                    o == old(store).profiles@,
                    forall|j: int| 0 <= j < i ==> store.profiles@[j] == (if o[j].id@ == l.id@ {
                        with_local_paths(o[j], *l)
                    } else {
                        o[j]
                    }),
                    forall|j: int| i <= j < o.len() ==> store.profiles@[j] == o[j],
                decreases store.profiles@.len() - i,
            {
                if str_eq(store.profiles[i].id.as_str(), l.id.as_str()) {
                    let mut p = store.profiles[i].clone();
                    if !str_eq(p.display_name.as_str(), l.display_name.as_str()) {
                        changed = true;
                    }
                    if !str_eq(p.server_path.as_str(), l.server_path.as_str()) {
                        changed = true;
                    }
                    if !str_eq(p.model_path.as_str(), l.model_path.as_str()) {
                        changed = true;
                    }
                    if !str_eq(p.mmproj_path.as_str(), l.mmproj_path.as_str()) {
                        changed = true;
                    }
                    if !str_eq(p.host.as_str(), l.host.as_str()) {
                        changed = true;
                    }
                    if p.port != l.port {
                        changed = true;
                    }
                    if !str_eq(p.base_url.as_str(), l.base_url.as_str()) {
                        changed = true;
                    }
                    p.display_name = l.display_name.clone();
                    p.server_path = l.server_path.clone();
                    p.model_path = l.model_path.clone();
                    p.mmproj_path = l.mmproj_path.clone();
                    p.host = l.host.clone();
                    p.port = l.port;
                    p.base_url = l.base_url.clone();
                    store.profiles.set(i, p);
                }
                i = i + 1;
            }
            assert(store.profiles@ =~= o.map_values(
                |p: ModelProfile| if p.id@ == l.id@ { with_local_paths(p, *l) } else { p },
            ));
        },
        None => {},
    }
    let ghost refreshed = store.profiles@;
    let has_cleanup = find_profile(&store.profiles, "speaking_transcript_cleanup_12b").is_some();
    if !has_cleanup {
        store.profiles.push(speaking_asr_cleanup_model_profile());
        changed = true;
    }
    let has_rubric = find_profile(&store.profiles, "speaking_rubric_evaluation_12b").is_some();
    proof {
        if has_cleanup {
            assert(store.profiles@ == refreshed);
        } else {
            // the appended cleanup profile does not carry the rubric id
            reveal_strlit("speaking_transcript_cleanup_12b");
            reveal_strlit("speaking_rubric_evaluation_12b");
            let q = profile_has_id("speaking_rubric_evaluation_12b"@);
            lemma_first_index(refreshed, q);
            lemma_first_index(store.profiles@, q);
            assert(store.profiles@[refreshed.len() as int].id@ == "speaking_transcript_cleanup_12b"@);
            assert("speaking_transcript_cleanup_12b"@[9] != "speaking_rubric_evaluation_12b"@[9]);
            assert(!q(store.profiles@[refreshed.len() as int]));
            if first_index(refreshed, q) >= 0 {
                let k = first_index(refreshed, q);
                assert(store.profiles@[k] == refreshed[k]);
                assert forall|j: int| 0 <= j < k implies !q(#[trigger] store.profiles@[j]) by {
                    assert(store.profiles@[j] == refreshed[j]);
                }
                lemma_first_index_is(store.profiles@, q, k);
            } else {
                assert forall|j: int| 0 <= j < store.profiles@.len() implies !q(#[trigger] store.profiles@[j]) by {
                    if j < refreshed.len() {
                        assert(store.profiles@[j] == refreshed[j]);
                    }
                }
                lemma_first_index_none(store.profiles@, q);
            }
        }
    }
    if !has_rubric {
        store.profiles.push(speaking_rubric_model_profile());
        changed = true;
    }
    changed
}

} // verus!
