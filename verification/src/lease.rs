//! The runtime lease registry of the model process manager: which runtime
//! instance and profile the leases hold, admission of new leases, release,
//! draining, idle shutdown and diagnostics.
use vstd::prelude::*;
use crate::errors::{app_error, concat, AppError, AppErrorCode};
use crate::domain::{ModelMode, ModelProfile};
use crate::runtime::{RuntimeLeaseDiagnostics, RuntimeLeaseGrant};
use crate::seqs::{first_index, lemma_first_index, lemma_first_index_is, lemma_first_index_none, upsert};
use crate::text::str_eq;

verus! {

/// One granted lease.
#[derive(Debug)]
pub struct LeaseRecord {
    pub lease_id: String,
    pub runtime_instance_id: String,
    pub profile_id: String,
    pub consumer_id: String,
    pub job_id: Option<String>,
    pub operation_kind: String,
    /// When the lease was granted, in milliseconds since the Unix epoch.
    pub acquired_at_millis: i64,
}

/// The leases held on the running model server.
#[derive(Debug)]
pub struct LeaseRegistry {
    runtime_instance_id: Option<String>,
    profile_id: Option<String>,
    profile_fingerprint: Option<String>,
    leases: Vec<LeaseRecord>,
    draining: bool,
    unexpected_exit_count: u64,
    idle_generation: u64,
}

/// The value of a lease registry.
pub struct LeaseState {
    pub runtime_instance_id: Option<String>,
    pub profile_id: Option<String>,
    pub profile_fingerprint: Option<String>,
    pub leases: Seq<LeaseRecord>,
    pub draining: bool,
    pub unexpected_exit_count: u64,
    pub idle_generation: u64,
}

impl View for LeaseRegistry {
    type V = LeaseState;

    closed spec fn view(&self) -> LeaseState {
        LeaseState {
            runtime_instance_id: self.runtime_instance_id,
            profile_id: self.profile_id,
            profile_fingerprint: self.profile_fingerprint,
            leases: self.leases@,
            draining: self.draining,
            unexpected_exit_count: self.unexpected_exit_count,
            idle_generation: self.idle_generation,
        }
    }
}

pub open spec fn has_lease_id(id: Seq<char>) -> spec_fn(LeaseRecord) -> bool {
    |l: LeaseRecord| l.lease_id@ == id
}

pub open spec fn lease_pos(s: LeaseState, id: Seq<char>) -> int {
    first_index(s.leases, has_lease_id(id))
}

/// No two leases share an id.
pub open spec fn unique_ids(leases: Seq<LeaseRecord>) -> bool {
    forall|i: int, j: int|
        0 <= i < j < leases.len() ==> (#[trigger] leases[i]).lease_id@ != (#[trigger] leases[j]).lease_id@
}

pub open spec fn opt_text(o: Option<String>) -> Option<Seq<char>> {
    match o {
        Some(s) => Some(s@),
        None => None,
    }
}

/// The registry after granting lease `l` for a profile (fingerprint `fp`)
/// on a runtime instance: the lease is recorded (replacing one with its id),
/// the registry follows the instance and profile, draining stops and the
/// idle generation advances.
pub open spec fn spec_grant(s: LeaseState, l: LeaseRecord, fp: String) -> LeaseState {
    LeaseState {
        runtime_instance_id: Some(l.runtime_instance_id),
        profile_id: Some(l.profile_id),
        profile_fingerprint: Some(fp),
        leases: upsert(s.leases, has_lease_id(l.lease_id@), l),
        draining: false,
        unexpected_exit_count: s.unexpected_exit_count,
        idle_generation: (if s.idle_generation == u64::MAX { 0 } else { s.idle_generation + 1 }) as u64,
    }
}

/// The outcome of releasing a lease: the error code when the lease is not
/// held or belongs to another runtime instance; otherwise the registry
/// without it and whether it was the last one (which advances the idle
/// generation).
pub open spec fn spec_release(s: LeaseState, id: Seq<char>, instance: Seq<char>) -> Result<
    (LeaseState, bool),
    AppErrorCode,
> {
    let i = lease_pos(s, id);
    if i < 0 {
        Err(AppErrorCode::ModelRuntimeLeaseAlreadyReleased)
    } else if s.leases[i].runtime_instance_id@ != instance {
        Err(AppErrorCode::ModelRuntimeLeaseInvalid)
    } else {
        let rest = s.leases.remove(i);
        let last = rest.len() == 0;
        Ok(
            (
                LeaseState {
                    leases: rest,
                    idle_generation: if last {
                        (if s.idle_generation == u64::MAX { 0 } else { s.idle_generation + 1 }) as u64
                    } else {
                        s.idle_generation
                    },
                    ..s
                },
                last,
            ),
        )
    }
}

/// Why a new lease for a profile is refused, if it is: the registry is
/// draining, or another profile's runtime still holds leases.
pub open spec fn spec_admission(s: LeaseState, fp: Seq<char>) -> Option<AppErrorCode> {
    if s.draining {
        Some(AppErrorCode::ModelRuntimeDraining)
    } else if opt_text(s.profile_fingerprint) matches Some(current) && current != fp && s.leases.len()
        > 0 {
        Some(AppErrorCode::ModelRuntimeProfileBusy)
    } else {
        None
    }
}

/// Seconds a lease has been held at `now` (never negative).
pub open spec fn lease_age(now: i64, acquired: i64) -> int {
    if now > acquired {
        (now - acquired) / 1000
    } else {
        0
    }
}

/// Whether one of the strings reads `k`.
pub open spec fn has_text(strings: Seq<String>, k: Seq<char>) -> bool {
    exists|a: int| 0 <= a < strings.len() && #[trigger] strings[a]@ == k
}

/// Whether one of the first `n` leases has operation kind `k`.
pub open spec fn has_kind(leases: Seq<LeaseRecord>, k: Seq<char>, n: int) -> bool {
    exists|a: int| 0 <= a < n && #[trigger] leases[a].operation_kind@ == k
}

fn find_lease(leases: &Vec<LeaseRecord>, id: &str) -> (r: Option<usize>)
    ensures
        match r {
            Some(i) => i < leases@.len() && i as int == first_index(leases@, has_lease_id(id@)),
            None => first_index(leases@, has_lease_id(id@)) == -1,
        },
{
    let ghost p = has_lease_id(id@);
    let mut i: usize = 0;
    while i < leases.len()
        invariant
            i <= leases.len(),
            p == has_lease_id(id@),
            forall|j: int| 0 <= j < i ==> !p(#[trigger] leases@[j]),
        decreases leases.len() - i,
    {
        if str_eq(leases[i].lease_id.as_str(), id) {
            proof {
                lemma_first_index_is(leases@, p, i as int);
            }
            return Some(i);
        }
        i = i + 1;
    }
    proof {
        lemma_first_index_none(leases@, p);
    }
    None
}

proof fn lemma_upsert_unique(leases: Seq<LeaseRecord>, l: LeaseRecord)
    requires
        unique_ids(leases),
    ensures
        unique_ids(upsert(leases, has_lease_id(l.lease_id@), l)),
{
    let p = has_lease_id(l.lease_id@);
    let r = upsert(leases, p, l);
    lemma_first_index(leases, p);
    let k = first_index(leases, p);
    assert forall|i: int, j: int| 0 <= i < j < r.len() implies (#[trigger] r[i]).lease_id@ != (
    #[trigger] r[j]).lease_id@ by {
        if k >= 0 {
            if i == k {
                assert(leases[k].lease_id@ == l.lease_id@);
            } else if j == k {
                assert(leases[k].lease_id@ == l.lease_id@);
            }
        } else {
            if j == leases.len() {
                assert(!p(leases[i]));
            }
        }
    }
}

proof fn lemma_remove_unique(leases: Seq<LeaseRecord>, i: int)
    requires
        unique_ids(leases),
        0 <= i < leases.len(),
    ensures
        unique_ids(leases.remove(i)),
        forall|j: int| 0 <= j < leases.remove(i).len() ==> (#[trigger] leases.remove(i)[j]).lease_id@
            != leases[i].lease_id@,
{
    let r = leases.remove(i);
    assert forall|a: int, b: int| 0 <= a < b < r.len() implies (#[trigger] r[a]).lease_id@ != (
    #[trigger] r[b]).lease_id@ by {
        let a0 = if a < i { a } else { a + 1 };
        let b0 = if b < i { b } else { b + 1 };
        assert(r[a] == leases[a0] && r[b] == leases[b0]);
    }
    assert forall|j: int| 0 <= j < r.len() implies (#[trigger] r[j]).lease_id@ != leases[i].lease_id@ by {
        let j0 = if j < i { j } else { j + 1 };
        assert(r[j] == leases[j0]);
    }
}

fn wrapping_next(g: u64) -> (r: u64)
    ensures
        r == (if g == u64::MAX { 0 } else { g + 1 }) as u64,
{
    if g == u64::MAX {
        0
    } else {
        g + 1
    }
}

impl LeaseRegistry {
    /// The registry's invariant: lease ids are unique.
    #[verifier::type_invariant]
    spec fn wf(&self) -> bool {
        unique_ids(self.leases@)
    }

    /// An empty registry.
    pub fn new() -> (r: Self)
        ensures
            r@.runtime_instance_id is None,
            r@.profile_id is None,
            r@.profile_fingerprint is None,
            r@.leases.len() == 0,
            !r@.draining,
            r@.unexpected_exit_count == 0,
            r@.idle_generation == 0,
    {
        LeaseRegistry {
            runtime_instance_id: None,
            profile_id: None,
            profile_fingerprint: None,
            leases: Vec::new(),
            draining: false,
            unexpected_exit_count: 0,
            idle_generation: 0,
        }
    }

    /// The number of leases held; no two of them share an id.
    pub fn active_lease_count(&self) -> (r: usize)
        ensures
            r == self@.leases.len(),
            unique_ids(self@.leases),
    {
        proof {
            use_type_invariant(self);
        }
        self.leases.len()
    }

    /// How many times the leased runtime exited unexpectedly.
    pub fn unexpected_exit_count(&self) -> (r: u64)
        ensures
            r == self@.unexpected_exit_count,
    {
        self.unexpected_exit_count
    }

    pub fn is_draining(&self) -> (r: bool)
        ensures
            r == self@.draining,
    {
        self.draining
    }

    /// Starts or stops draining; nothing else changes.
    pub fn set_draining(&mut self, draining: bool)
        ensures
            final(self)@ == (LeaseState { draining: draining, ..old(self)@ }),
    {
        proof {
            use_type_invariant(&*self);
        }
        self.draining = draining;
    }

    /// The runtime instance the leases are held on.
    pub fn runtime_instance_id(&self) -> (r: Option<String>)
        ensures
            r == self@.runtime_instance_id,
    {
        crate::domain::clone_opt_string(&self.runtime_instance_id)
    }

    /// The fingerprint of the profile the leases are held for.
    pub fn profile_fingerprint(&self) -> (r: Option<String>)
        ensures
            r == self@.profile_fingerprint,
    {
        crate::domain::clone_opt_string(&self.profile_fingerprint)
    }

    /// Refuses a new lease for the profile with fingerprint `fp` while
    /// draining, or while another profile's runtime holds leases.
    pub fn check_admission(&self, fp: &str, profile_id: &str) -> (r: Result<(), AppError>)
        ensures
            match spec_admission(self@, fp@) {
                Some(code) => r matches Err(e) && e.code == code,
                None => r is Ok,
            },
    {
        if self.draining {
            return Err(
                app_error(
                    AppErrorCode::ModelRuntimeDraining,
                    "Yerel model işlemlerin bitmesi beklenirken yeni kullanım kabul etmiyor.",
                    Some(concat("active_leases=", crate::text::decimal_string(self.leases.len() as u64).as_str())),
                    Some("Mevcut işlemlerin bitmesini bekleyin.".to_owned()),
                ),
            );
        }
        match &self.profile_fingerprint {
            Some(current) => {
                if !str_eq(current.as_str(), fp) && self.leases.len() > 0 {
                    return Err(
                        app_error(
                            AppErrorCode::ModelRuntimeProfileBusy,
                            "Yerel model başka bir runtime profili tarafından kullanılıyor.",
                            Some(concat("requested_profile=", profile_id)),
                            Some("Etkin model işlemi tamamlandıktan sonra tekrar deneyin.".to_owned()),
                        ),
                    );
                }
            },
            None => {},
        }
        Ok(())
    }

    /// Whether the running runtime belongs to another profile (and must be
    /// stopped before a lease for `fp` is granted).
    pub fn profile_switch_needed(&self, fp: &str) -> (r: bool)
        ensures
            r == (opt_text(self@.profile_fingerprint) matches Some(current) && current != fp@),
    {
        match &self.profile_fingerprint {
            Some(current) => !str_eq(current.as_str(), fp),
            None => false,
        }
    }

    /// Forgets the runtime and its leases; the count of unexpected exits
    /// stays.
    pub fn reset(&mut self)
        ensures
            final(self)@.runtime_instance_id is None,
            final(self)@.profile_id is None,
            final(self)@.profile_fingerprint is None,
            final(self)@.leases.len() == 0,
            !final(self)@.draining,
            final(self)@.unexpected_exit_count == old(self)@.unexpected_exit_count,
            final(self)@.idle_generation == 0,
    {
        let kept = self.unexpected_exit_count;
        *self = LeaseRegistry::new();
        self.unexpected_exit_count = kept;
    }

    /// Records a granted lease and returns the number of leases held.
    pub fn grant(&mut self, lease: LeaseRecord, profile_fingerprint: String) -> (count: usize)
        ensures
            final(self)@ == spec_grant(old(self)@, lease, profile_fingerprint),
            count == final(self)@.leases.len(),
    {
        proof {
            use_type_invariant(&*self);
            lemma_upsert_unique(self.leases@, lease);
        }
        self.runtime_instance_id = Some(lease.runtime_instance_id.clone());
        self.profile_id = Some(lease.profile_id.clone());
        self.profile_fingerprint = Some(profile_fingerprint);
        self.draining = false;
        self.idle_generation = wrapping_next(self.idle_generation);
        let mut leases: Vec<LeaseRecord> = Vec::new();
        std::mem::swap(&mut leases, &mut self.leases);
        match find_lease(&leases, lease.lease_id.as_str()) {
            Some(i) => {
                leases.set(i, lease);
            },
            None => {
                leases.push(lease);
            },
        }
        self.leases = leases;
        self.leases.len()
    }

    /// Releases a lease of a runtime instance; returns whether no lease is
    /// left, and the idle generation an idle shutdown must match.
    pub fn release(&mut self, lease_id: &str, runtime_instance_id: &str) -> (r: Result<
        (bool, u64),
        AppError,
    >)
        ensures
            match spec_release(old(self)@, lease_id@, runtime_instance_id@) {
                Ok((st, last)) => r matches Ok((l, g)) && l == last && g == st.idle_generation
                    && final(self)@ == st,
                Err(code) => r matches Err(e) && e.code == code && final(self)@ == old(self)@,
            },
    {
        match find_lease(&self.leases, lease_id) {
            None => Err(
                app_error(
                    AppErrorCode::ModelRuntimeLeaseAlreadyReleased,
                    "Model lease daha önce bırakılmış veya bulunamıyor.",
                    Some(concat("lease_id=", lease_id)),
                    None,
                ),
            ),
            Some(i) => {
                if !str_eq(self.leases[i].runtime_instance_id.as_str(), runtime_instance_id) {
                    let mut details = concat("lease_id=", lease_id);
                    details.append("; runtime_instance_id=");
                    details.append(runtime_instance_id);
                    return Err(
                        app_error(
                            AppErrorCode::ModelRuntimeLeaseInvalid,
                            "Model lease farklı bir runtime örneğine uygulanamaz.",
                            Some(details),
                            None,
                        ),
                    );
                }
                proof {
                    use_type_invariant(&*self);
                    lemma_remove_unique(self.leases@, i as int);
                }
                let mut leases: Vec<LeaseRecord> = Vec::new();
                std::mem::swap(&mut leases, &mut self.leases);
                let _removed = leases.remove(i);
                self.leases = leases;
                let last = self.leases.len() == 0;
                if last {
                    self.idle_generation = wrapping_next(self.idle_generation);
                }
                Ok((last, self.idle_generation))
            },
        }
    }

    /// A runtime instance exited unexpectedly: when it is the one the
    /// leases are held on, its leases are dropped and the exit is counted.
    pub fn runtime_exited(&mut self, runtime_instance_id: &str)
        requires
            old(self)@.unexpected_exit_count < u64::MAX,
        ensures
            (opt_text(old(self)@.runtime_instance_id) == Some(runtime_instance_id@))
                ==> final(self)@ == (LeaseState {
                runtime_instance_id: None,
                profile_id: None,
                profile_fingerprint: None,
                leases: Seq::empty(),
                draining: false,
                unexpected_exit_count: (old(self)@.unexpected_exit_count + 1) as u64,
                idle_generation: old(self)@.idle_generation,
            }),
            (opt_text(old(self)@.runtime_instance_id) != Some(runtime_instance_id@))
                ==> final(self)@ == old(self)@,
    {
        let matches = match &self.runtime_instance_id {
            Some(current) => str_eq(current.as_str(), runtime_instance_id),
            None => false,
        };
        proof {
            use_type_invariant(&*self);
        }
        if matches {
            self.unexpected_exit_count = self.unexpected_exit_count + 1;
            self.leases = Vec::new();
            self.runtime_instance_id = None;
            self.profile_id = None;
            self.profile_fingerprint = None;
            self.draining = false;
            assert(self.leases@ =~= Seq::<LeaseRecord>::empty());
        }
    }

    /// Whether a scheduled idle shutdown of `runtime_instance_id` taken at
    /// `generation` may still stop it: nothing leased or draining since.
    pub fn idle_shutdown_due(&self, runtime_instance_id: &str, generation: u64) -> (r: bool)
        ensures
            r == (opt_text(self@.runtime_instance_id) == Some(runtime_instance_id@)
                && self@.leases.len() == 0 && !self@.draining && self@.idle_generation
                == generation),
    {
        let same = match &self.runtime_instance_id {
            Some(current) => str_eq(current.as_str(), runtime_instance_id),
            None => false,
        };
        same && self.leases.len() == 0 && !self.draining && self.idle_generation == generation
    }

    /// The delay before an idle shutdown: none while draining.
    pub fn idle_delay_millis(&self, idle_timeout_millis: u64) -> (r: u64)
        ensures
            r == (if self@.draining { 0 } else { idle_timeout_millis }),
    {
        if self.draining {
            0
        } else {
            idle_timeout_millis
        }
    }

    /// The leases held at `now_millis`: how many, the age in seconds of the
    /// oldest, and each operation kind once.
    pub fn diagnostics(&self, now_millis: i64) -> (d: RuntimeLeaseDiagnostics)
        ensures
            d.active_lease_count == self@.leases.len(),
            self@.leases.len() == 0 ==> d.oldest_lease_age_seconds is None,
            self@.leases.len() > 0 ==> (d.oldest_lease_age_seconds matches Some(a) && (exists|i: int|
                0 <= i < self@.leases.len() && a == lease_age(now_millis, #[trigger] self@.leases[i].acquired_at_millis))
                && forall|i: int|
                    0 <= i < self@.leases.len() ==> lease_age(now_millis, #[trigger] self@.leases[i].acquired_at_millis) <= a),
            forall|i: int, j: int|
                0 <= i < j < d.operation_kinds@.len() ==> (#[trigger] d.operation_kinds@[i])@ != (
                #[trigger] d.operation_kinds@[j])@,
            forall|k: Seq<char>|
                #[trigger] has_text(d.operation_kinds@, k) <==> has_kind(self@.leases, k, self@.leases.len() as int),
    {
        let mut kinds: Vec<String> = Vec::new();
        let mut oldest: Option<i64> = None;
        let mut i: usize = 0;
        while i < self.leases.len()
            invariant
                i <= self.leases@.len(),
                forall|a: int, b: int|
                    0 <= a < b < kinds@.len() ==> (#[trigger] kinds@[a])@ != (#[trigger] kinds@[b])@,
                forall|k: Seq<char>| #[trigger] has_text(kinds@, k) <==> has_kind(self.leases@, k, i as int),
                i == 0 ==> oldest is None,
                i > 0 ==> (oldest matches Some(o) && (exists|a: int|
                    0 <= a < i && o == lease_age(now_millis, #[trigger] self.leases@[a].acquired_at_millis))
                    && forall|a: int|
                        0 <= a < i ==> lease_age(now_millis, #[trigger] self.leases@[a].acquired_at_millis) <= o),
            decreases self.leases@.len() - i,
        {
            let record = &self.leases[i];
            let age: i64 = if now_millis > record.acquired_at_millis {
                let diff: i128 = (now_millis as i128) - (record.acquired_at_millis as i128);
                (diff / 1000) as i64
            } else {
                0
            };
            assert(age == lease_age(now_millis, self.leases@[i as int].acquired_at_millis));
            oldest = match oldest {
                Some(o) => if age > o {
                    Some(age)
                } else {
                    Some(o)
                },
                None => Some(age),
            };
            let mut present = false;
            let mut j: usize = 0;
            while j < kinds.len()
                invariant
                    j <= kinds@.len(),
                    present == exists|a: int| 0 <= a < j && #[trigger] kinds@[a]@ == record.operation_kind@,
                decreases kinds@.len() - j,
            {
                if str_eq(kinds[j].as_str(), record.operation_kind.as_str()) {
                    present = true;
                }
                j = j + 1;
            }
            let ghost before = kinds@;
            if !present {
                kinds.push(record.operation_kind.clone());
            }
            proof {
                let leases = self.leases@;
                let kind = leases[i as int].operation_kind@;
                assert forall|k: Seq<char>| #[trigger] has_text(kinds@, k) implies has_kind(
                    leases,
                    k,
                    i + 1,
                ) by {
                    let a = choose|a: int| 0 <= a < kinds@.len() && #[trigger] kinds@[a]@ == k;
                    if a < before.len() {
                        assert(before[a]@ == k);
                        assert(has_text(before, k));
                        let b = choose|b: int| 0 <= b < i && #[trigger] leases[b].operation_kind@ == k;
                        assert(leases[b].operation_kind@ == k);
                    } else {
                        assert(leases[i as int].operation_kind@ == k);
                    }
                }
                assert forall|k: Seq<char>| has_kind(leases, k, i + 1) implies #[trigger] has_text(
                    kinds@,
                    k,
                ) by {
                    let b = choose|b: int| 0 <= b < i + 1 && #[trigger] leases[b].operation_kind@ == k;
                    if b < i {
                        assert(has_kind(leases, k, i as int));
                        assert(has_text(before, k));
                        let a = choose|a: int| 0 <= a < before.len() && #[trigger] before[a]@ == k;
                        assert(kinds@[a] == before[a]);
                    } else if present {
                        let a = choose|a: int| 0 <= a < before.len() && #[trigger] before[a]@ == kind;
                        assert(kinds@[a]@ == k);
                    } else {
                        assert(kinds@[before.len() as int]@ == k);
                    }
                }
                assert forall|x: int, y: int| 0 <= x < y < kinds@.len() implies (#[trigger] kinds@[x])@
                    != (#[trigger] kinds@[y])@ by {
                    if y == before.len() && !present {
                        assert(kinds@[x] == before[x]);
                    }
                }
            }
            i = i + 1;
        }
        RuntimeLeaseDiagnostics {
            active_lease_count: self.leases.len(),
            oldest_lease_age_seconds: oldest,
            operation_kinds: kinds,
        }
    }
}

// ---------------------------------------------------------------------------
// Acquiring a lease
// ---------------------------------------------------------------------------
/// Refuses a lease for an operation that needs a multimodal projector on a
/// profile that names none.
pub fn check_mmproj_for_lease(requires_mmproj: bool, profile: &ModelProfile) -> (r: Result<(), AppError>)
    ensures
        r is Err <==> (requires_mmproj && !profile.spec_requires_mmproj()),
        r matches Err(e) ==> e.code == AppErrorCode::ModelMmprojMissing,
{
    if requires_mmproj && !profile.requires_mmproj() {
        return Err(
            app_error(
                AppErrorCode::ModelMmprojMissing,
                "Bu model işlemi için mmproj dosyası gerekiyor.",
                Some(concat("profile_id=", profile.id.as_str())),
                Some("Vision model profilini ve mmproj yolunu kontrol edin.".to_owned()),
            ),
        );
    }
    Ok(())
}

/// Refuses a lease on a profile whose recorded process could not be
/// verified as the one this application started.
pub fn check_runtime_verified(runtime_unverified: bool, profile_id: &str) -> (r: Result<(), AppError>)
    ensures
        r is Err <==> runtime_unverified,
        r matches Err(e) ==> e.code == AppErrorCode::ModelProcessUnverified,
{
    if runtime_unverified {
        return Err(
            app_error(
                AppErrorCode::ModelProcessUnverified,
                "Kayıtlı model süreci güvenli biçimde doğrulanamadı.",
                Some(concat("profile_id=", profile_id)),
                Some("Tanılama ayrıntılarını kontrol edin.".to_owned()),
            ),
        );
    }
    Ok(())
}

/// Whether a healthy server already answering can carry the lease: no
/// process is recorded for the profile, or this application started it, or
/// the profile is external.
pub open spec fn spec_existing_runtime_usable(
    health_ok: bool,
    has_metadata: bool,
    started_by_app: bool,
    mode: ModelMode,
) -> bool {
    health_ok && (!has_metadata || started_by_app || mode == ModelMode::External)
}

/// Decides whether acquiring a lease must start the managed server first:
/// `Ok(false)` when the running server can be used, `Ok(true)` when a
/// managed profile has to be started, and `ModelServerNotRunning` when an
/// external profile's server is not usable.
pub fn lease_needs_start(
    health_ok: bool,
    has_metadata: bool,
    started_by_app: bool,
    profile: &ModelProfile,
    consumer_id: &str,
) -> (r: Result<bool, AppError>)
    ensures
        spec_existing_runtime_usable(health_ok, has_metadata, started_by_app, profile.mode) ==> r == Ok::<
            bool,
            AppError,
        >(false),
        !spec_existing_runtime_usable(health_ok, has_metadata, started_by_app, profile.mode) ==> (
        if profile.mode == ModelMode::Managed {
            r == Ok::<bool, AppError>(true)
        } else {
            r matches Err(e) && e.code == AppErrorCode::ModelServerNotRunning
        }),
{
    let usable = health_ok && (!has_metadata || started_by_app || profile.mode == ModelMode::External);
    if usable {
        return Ok(false);
    }
    if profile.mode != ModelMode::Managed {
        let mut details = concat("profile_id=", profile.id.as_str());
        details.append("; consumer_id=");
        details.append(consumer_id);
        return Err(
            app_error(
                AppErrorCode::ModelServerNotRunning,
                "Model sunucusu hazır değil.",
                Some(details),
                Some("Model sunucusunu başlatın veya yönetilen moda geçin.".to_owned()),
            ),
        );
    }
    Ok(true)
}

/// The code a start failure carries when it happens while acquiring a lease.
pub open spec fn spec_lease_start_code(code: AppErrorCode) -> AppErrorCode {
    match code {
        AppErrorCode::ModelServerReadyTimeout => AppErrorCode::ModelRuntimeReadinessTimeout,
        AppErrorCode::ModelServerStartFailed => AppErrorCode::ModelRuntimeStartFailed,
        _ => code,
    }
}

/// Re-labels a start failure as a runtime failure of the lease; the rest of
/// the error stays.
pub fn lease_start_error(error: AppError) -> (r: AppError)
    ensures
        r == (AppError { code: spec_lease_start_code(error.code), ..error }),
{
    let mut error = error;
    match error.code {
        AppErrorCode::ModelServerReadyTimeout => {
            error.code = AppErrorCode::ModelRuntimeReadinessTimeout;
        },
        AppErrorCode::ModelServerStartFailed => {
            error.code = AppErrorCode::ModelRuntimeStartFailed;
        },
        _ => {},
    }
    error
}

/// Refuses the lease when the server never became ready.
pub fn check_lease_ready(ready: bool, profile_id: &str, current_runtime: &Option<String>) -> (r: Result<(), AppError>)
    ensures
        r is Err <==> !ready,
        r matches Err(e) ==> e.code == AppErrorCode::ModelRuntimeReadinessTimeout,
{
    if !ready {
        let mut details = concat("profile_id=", profile_id);
        details.append("; runtime_instance=");
        match current_runtime {
            Some(id) => {
                details.append("Some(");
                details.append(id.as_str());
                details.append(")");
            },
            None => {
                details.append("None");
            },
        }
        return Err(
            app_error(
                AppErrorCode::ModelRuntimeReadinessTimeout,
                "Model sunucusu hazır olmadan lease verilemedi.",
                Some(details),
                Some("Model durumunu ve sunucu loglarını kontrol edin.".to_owned()),
            ),
        );
    }
    Ok(())
}

pub open spec fn opt_str_view(o: Option<&str>) -> Option<Seq<char>> {
    match o {
        Some(s) => Some(s@),
        None => None,
    }
}

/// Whether `l` is the lease described by these fields (its grant time
/// aside).
pub open spec fn lease_matches(
    l: LeaseRecord,
    lease_id: Seq<char>,
    runtime_instance_id: Seq<char>,
    profile_id: Seq<char>,
    consumer_id: Seq<char>,
    job_id: Option<Seq<char>>,
    operation_kind: Seq<char>,
) -> bool {
    &&& l.lease_id@ == lease_id
    &&& l.runtime_instance_id@ == runtime_instance_id
    &&& l.profile_id@ == profile_id
    &&& l.consumer_id@ == consumer_id
    &&& opt_text(l.job_id) == job_id
    &&& l.operation_kind@ == operation_kind
}

fn opt_owned(o: Option<&str>) -> (r: Option<String>)
    ensures
        opt_text(r) == opt_str_view(o),
{
    match o {
        Some(s) => Some(s.to_owned()),
        None => None,
    }
}

/// Grants a fresh lease on the runtime instance recorded for the profile (or
/// on a fresh `external-` instance when none is recorded), stamped with the
/// current time, and describes it.
pub fn issue_lease(
    registry: &mut LeaseRegistry,
    recorded_instance: Option<String>,
    profile: &ModelProfile,
    profile_fingerprint: String,
    model_fingerprint: Option<String>,
    consumer_id: &str,
    job_id: Option<&str>,
    operation_kind: &str,
    correlation_id: &str,
) -> (g: RuntimeLeaseGrant)
    ensures
        match recorded_instance {
            Some(id) => g.runtime_instance_id@ == id@,
            None => g.runtime_instance_id@.len() >= 9 && g.runtime_instance_id@.take(9) == "external-"@,
        },
        exists|l: LeaseRecord|
            #[trigger] lease_matches(
                l,
                g.lease_id@,
                g.runtime_instance_id@,
                profile.id@,
                consumer_id@,
                opt_str_view(job_id),
                operation_kind@,
            ) && final(registry)@ == spec_grant(old(registry)@, l, profile_fingerprint),
        g.profile_id@ == profile.id@,
        g.profile_fingerprint == profile_fingerprint,
        g.model_fingerprint == model_fingerprint,
        g.base_url@ == profile.base_url@,
        g.correlation_id@ == correlation_id@,
        g.active_lease_count == final(registry)@.leases.len(),
{
    let runtime_instance_id = match recorded_instance {
        Some(id) => id,
        None => {
            let fresh = crate::errors::new_correlation_id();
            let r = concat("external-", fresh.as_str());
            proof {
                reveal_strlit("external-");
                assert(r@.take(9) =~= "external-"@);
            }
            r
        },
    };
    let lease_id = crate::errors::new_correlation_id();
    let record = LeaseRecord {
        lease_id: lease_id.clone(),
        runtime_instance_id: runtime_instance_id.clone(),
        profile_id: profile.id.clone(),
        consumer_id: consumer_id.to_owned(),
        job_id: opt_owned(job_id),
        operation_kind: operation_kind.to_owned(),
        acquired_at_millis: crate::platform::now_timestamp_millis(),
    };
    let ghost rec = record;
    let count = registry.grant(record, profile_fingerprint.clone());
    let g = RuntimeLeaseGrant {
        lease_id,
        runtime_instance_id,
        profile_id: profile.id.clone(),
        profile_fingerprint,
        model_fingerprint,
        base_url: profile.base_url.clone(),
        correlation_id: correlation_id.to_owned(),
        active_lease_count: count,
    };
    assert(g.lease_id@ == rec.lease_id@);
    assert(g.runtime_instance_id@ == rec.runtime_instance_id@);
    assert(lease_matches(
        rec,
        g.lease_id@,
        g.runtime_instance_id@,
        profile.id@,
        consumer_id@,
        opt_str_view(job_id),
        operation_kind@,
    ));
    g
}

// ---------------------------------------------------------------------------
// Acquiring a lease, step by step
// ---------------------------------------------------------------------------
/// What a lease is asked for: the profile and its fingerprints, whether the
/// operation needs a multimodal projector, and who asks.
#[derive(Debug)]
pub struct LeaseRequest {
    pub profile: ModelProfile,
    pub profile_fingerprint: String,
    pub model_fingerprint: Option<String>,
    pub requires_mmproj: bool,
    pub consumer_id: String,
    pub job_id: Option<String>,
    pub operation_kind: String,
    pub correlation_id: String,
}

/// What the caller reports back while a lease is acquired.
#[derive(Debug)]
pub enum AcquireEvent {
    /// The request arrives.
    Begin,
    /// The runtime of the other profile was stopped.
    RuntimeStopped,
    /// The profile's recorded process and the server's status were read.
    Probed { unverified: bool, has_metadata: bool, health_ok: bool, started_by_app: bool },
    /// The managed server was started: whether it answered healthy, or why
    /// it could not start.
    StartFinished(Result<bool, AppError>),
    /// Waiting for readiness ended: whether the server became ready.
    WaitFinished(Result<bool, AppError>),
    /// The runtime instance recorded for the profile, if any.
    InstanceFound(Option<String>),
}

/// What the caller does next.
#[derive(Debug)]
pub enum AcquireAction {
    StopCurrentRuntime,
    ProbeStatus,
    StartServer,
    WaitUntilReady,
    LookupInstance,
    Granted(RuntimeLeaseGrant),
    Failed(AppError),
}

/// One step of acquiring a lease. The request is admitted (projector,
/// draining, a busy other profile) and the other profile's runtime is
/// stopped first where one runs; an unverified recorded process is refused;
/// a usable healthy server is taken as it is, a managed one is started and,
/// where it did not answer healthy, awaited; an external one that is not
/// usable is refused; once ready, the lease is granted on the recorded
/// runtime instance.
pub fn acquire_lease_step(registry: &mut LeaseRegistry, request: &LeaseRequest, event: AcquireEvent) -> (r:
    AcquireAction)
    ensures
        match event {
            AcquireEvent::Begin => final(registry)@ == old(registry)@ && if request.requires_mmproj
                && !request.profile.spec_requires_mmproj() {
                r matches AcquireAction::Failed(e) && e.code == AppErrorCode::ModelMmprojMissing
            } else {
                match spec_admission(old(registry)@, request.profile_fingerprint@) {
                    Some(code) => r matches AcquireAction::Failed(e) && e.code == code,
                    None => if opt_text(old(registry)@.profile_fingerprint) matches Some(current) && current
                        != request.profile_fingerprint@ {
                        r is StopCurrentRuntime
                    } else {
                        r is ProbeStatus
                    },
                }
            },
            AcquireEvent::RuntimeStopped => {
                &&& r is ProbeStatus
                &&& final(registry)@.runtime_instance_id is None
                &&& final(registry)@.profile_fingerprint is None
                &&& final(registry)@.leases.len() == 0
                &&& !final(registry)@.draining
                &&& final(registry)@.unexpected_exit_count == old(registry)@.unexpected_exit_count
            },
            AcquireEvent::Probed { unverified, has_metadata, health_ok, started_by_app } => final(registry)@
                == old(registry)@ && if unverified {
                r matches AcquireAction::Failed(e) && e.code == AppErrorCode::ModelProcessUnverified
            } else if spec_existing_runtime_usable(health_ok, has_metadata, started_by_app, request.profile.mode) {
                r is LookupInstance
            } else if request.profile.mode == ModelMode::Managed {
                r is StartServer
            } else {
                r matches AcquireAction::Failed(e) && e.code == AppErrorCode::ModelServerNotRunning
            },
            AcquireEvent::StartFinished(out) => final(registry)@ == old(registry)@ && match out {
                Ok(true) => r is LookupInstance,
                Ok(false) => r is WaitUntilReady,
                Err(e) => r == AcquireAction::Failed(AppError { code: spec_lease_start_code(e.code), ..e }),
            },
            AcquireEvent::WaitFinished(out) => final(registry)@ == old(registry)@ && match out {
                Ok(true) => r is LookupInstance,
                Ok(false) => r matches AcquireAction::Failed(e) && e.code == AppErrorCode::ModelRuntimeReadinessTimeout,
                Err(e) => r == AcquireAction::Failed(e),
            },
            AcquireEvent::InstanceFound(recorded) => r matches AcquireAction::Granted(g) && {
                &&& match recorded {
                    Some(id) => g.runtime_instance_id@ == id@,
                    None => g.runtime_instance_id@.len() >= 9 && g.runtime_instance_id@.take(9) == "external-"@,
                }
                &&& exists|l: LeaseRecord|
                    #[trigger] lease_matches(
                        l,
                        g.lease_id@,
                        g.runtime_instance_id@,
                        request.profile.id@,
                        request.consumer_id@,
                        opt_text(request.job_id),
                        request.operation_kind@,
                    ) && final(registry)@ == spec_grant(old(registry)@, l, request.profile_fingerprint)
                &&& g.profile_id@ == request.profile.id@
                &&& g.profile_fingerprint == request.profile_fingerprint
                &&& g.model_fingerprint == request.model_fingerprint
                &&& g.base_url@ == request.profile.base_url@
                &&& g.correlation_id@ == request.correlation_id@
                &&& g.active_lease_count == final(registry)@.leases.len()
            },
        },
{
    match event {
        AcquireEvent::Begin => {
            if let Err(e) = check_mmproj_for_lease(request.requires_mmproj, &request.profile) {
                return AcquireAction::Failed(e);
            }
            if let Err(e) = registry.check_admission(request.profile_fingerprint.as_str(), request.profile.id.as_str()) {
                return AcquireAction::Failed(e);
            }
            if registry.profile_switch_needed(request.profile_fingerprint.as_str()) {
                AcquireAction::StopCurrentRuntime
            } else {
                AcquireAction::ProbeStatus
            }
        },
        AcquireEvent::RuntimeStopped => {
            registry.reset();
            AcquireAction::ProbeStatus
        },
        AcquireEvent::Probed { unverified, has_metadata, health_ok, started_by_app } => {
            if let Err(e) = check_runtime_verified(unverified, request.profile.id.as_str()) {
                return AcquireAction::Failed(e);
            }
            match lease_needs_start(health_ok, has_metadata, started_by_app, &request.profile, request.consumer_id.as_str()) {
                Ok(false) => AcquireAction::LookupInstance,
                Ok(true) => AcquireAction::StartServer,
                Err(e) => AcquireAction::Failed(e),
            }
        },
        AcquireEvent::StartFinished(out) => match out {
            Ok(true) => AcquireAction::LookupInstance,
            Ok(false) => AcquireAction::WaitUntilReady,
            Err(e) => AcquireAction::Failed(lease_start_error(e)),
        },
        AcquireEvent::WaitFinished(out) => match out {
            Ok(true) => AcquireAction::LookupInstance,
            Ok(false) => {
                let current = registry.runtime_instance_id();
                match check_lease_ready(false, request.profile.id.as_str(), &current) {
                    Err(e) => AcquireAction::Failed(e),
                    Ok(()) => AcquireAction::LookupInstance,
                }
            },
            Err(e) => AcquireAction::Failed(e),
        },
        AcquireEvent::InstanceFound(recorded) => {
            let job = match &request.job_id {
                Some(j) => Some(j.as_str()),
                None => None,
            };
            let g = issue_lease(
                registry,
                recorded,
                &request.profile,
                request.profile_fingerprint.clone(),
                crate::domain::clone_opt_string(&request.model_fingerprint),
                request.consumer_id.as_str(),
                job,
                request.operation_kind.as_str(),
                request.correlation_id.as_str(),
            );
            AcquireAction::Granted(g)
        },
    }
}

// ---------------------------------------------------------------------------
// Laws of the lease registry
// ---------------------------------------------------------------------------
/// A granted lease can be released on its runtime instance, and releasing it
/// leaves every other lease in place.
pub proof fn lemma_release_after_grant(s: LeaseState, l: LeaseRecord, fp: String)
    requires
        unique_ids(s.leases),
    ensures
        ({
            let g = spec_grant(s, l, fp);
            spec_release(g, l.lease_id@, l.runtime_instance_id@) matches Ok((st, last)) && {
                &&& forall|i: int| 0 <= i < st.leases.len() ==> (#[trigger] st.leases[i]).lease_id@ != l.lease_id@
                &&& forall|i: int|
                    0 <= i < s.leases.len() && (#[trigger] s.leases[i]).lease_id@ != l.lease_id@
                        ==> st.leases.contains(s.leases[i])
                &&& last == (st.leases.len() == 0)
            }
        }),
{
    let g = spec_grant(s, l, fp);
    let p = has_lease_id(l.lease_id@);
    lemma_upsert_unique(s.leases, l);
    lemma_first_index(s.leases, p);
    let k = first_index(s.leases, p);
    let pos = if k >= 0 { k } else { s.leases.len() as int };
    assert(g.leases[pos] == l);
    assert forall|j: int| 0 <= j < pos implies !p(#[trigger] g.leases[j]) by {
        assert(g.leases[j] == s.leases[j]);
    }
    lemma_first_index_is(g.leases, p, pos);
    lemma_remove_unique(g.leases, pos);
    let st = g.leases.remove(pos);
    assert forall|i: int|
        0 <= i < s.leases.len() && (#[trigger] s.leases[i]).lease_id@ != l.lease_id@ implies st.contains(
        s.leases[i],
    ) by {
        assert(g.leases[i] == s.leases[i]);
        assert(i != pos);
        if i < pos {
            assert(st[i] == s.leases[i]);
        } else {
            assert(st[i - 1] == s.leases[i]);
        }
    }
}

/// A released lease cannot be released again.
pub proof fn lemma_release_twice_fails(s: LeaseState, id: Seq<char>, instance: Seq<char>)
    requires
        unique_ids(s.leases),
        spec_release(s, id, instance) is Ok,
    ensures
        spec_release(spec_release(s, id, instance).unwrap().0, id, instance) == Err::<
            (LeaseState, bool),
            AppErrorCode,
        >(AppErrorCode::ModelRuntimeLeaseAlreadyReleased),
{
    let i = lease_pos(s, id);
    lemma_first_index(s.leases, has_lease_id(id));
    lemma_remove_unique(s.leases, i);
    let st = spec_release(s, id, instance).unwrap().0;
    assert forall|j: int| 0 <= j < st.leases.len() implies !has_lease_id(id)(#[trigger] st.leases[j]) by {
        assert(st.leases[j].lease_id@ != s.leases[i].lease_id@);
    }
    lemma_first_index_none(st.leases, has_lease_id(id));
}

/// While draining, no lease is admitted.
pub proof fn lemma_draining_refuses_leases(s: LeaseState, fp: Seq<char>)
    requires
        s.draining,
    ensures
        spec_admission(s, fp) == Some(AppErrorCode::ModelRuntimeDraining),
{
}

/// A lease for the profile whose runtime is running is never refused as a
/// busy profile.
pub proof fn lemma_same_profile_not_busy(s: LeaseState, fp: String)
    requires
        s.profile_fingerprint == Some(fp),
    ensures
        spec_admission(s, fp@) != Some(AppErrorCode::ModelRuntimeProfileBusy),
{
}

} // verus!
