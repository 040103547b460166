//! The table of model server processes the process manager has recorded:
//! one record per profile it started (or found), looked up by profile or by
//! runtime instance, flagged verified or unverified, forgotten when the
//! process is gone, and restored from (and persisted to) disk.
use vstd::prelude::*;
use crate::process_identity::ProcessIdentity;
use crate::seqs::{first_index, lemma_first_index, lemma_first_index_is, lemma_first_index_none};
use crate::text::str_eq;

verus! {

/// A model server process the manager recorded.
#[derive(Debug)]
pub struct ManagedModelProcess {
    pub pid: Option<u32>,
    pub started_by_app: bool,
    pub profile_id: String,
    pub base_url: String,
    pub log_path: String,
    pub started_at: Option<String>,
    pub identity: Option<ProcessIdentity>,
    pub runtime_instance_id: Option<String>,
    pub runtime_profile_fingerprint: Option<String>,
    /// The process could not be shown to be the one recorded; it is never
    /// signalled.
    pub unverified: bool,
}

/// The recorded processes.
#[derive(Debug)]
pub struct RuntimeTable {
    processes: Vec<ManagedModelProcess>,
}

pub open spec fn for_profile(id: Seq<char>) -> spec_fn(ManagedModelProcess) -> bool {
    |p: ManagedModelProcess| p.profile_id@ == id
}

pub open spec fn for_instance(id: Seq<char>) -> spec_fn(ManagedModelProcess) -> bool {
    |p: ManagedModelProcess| p.runtime_instance_id matches Some(r) && r@ == id
}

/// The schema version of the persisted table.
pub const RUNTIME_STATE_SCHEMA_VERSION: u32 = 2;

impl View for RuntimeTable {
    type V = Seq<ManagedModelProcess>;

    closed spec fn view(&self) -> Seq<ManagedModelProcess> {
        self.processes@
    }
}

fn find_by_profile(v: &Vec<ManagedModelProcess>, id: &str) -> (r: Option<usize>)
    ensures
        match r {
            Some(i) => i < v@.len() && i as int == first_index(v@, for_profile(id@)),
            None => first_index(v@, for_profile(id@)) == -1,
        },
{
    let ghost p = for_profile(id@);
    let mut i: usize = 0;
    while i < v.len()
        invariant
            i <= v.len(),
            p == for_profile(id@),
            forall|j: int| 0 <= j < i ==> !p(#[trigger] v@[j]),
        decreases v.len() - i,
    {
        if str_eq(v[i].profile_id.as_str(), id) {
            proof {
                lemma_first_index_is(v@, p, i as int);
            }
            return Some(i);
        }
        i = i + 1;
    }
    proof {
        lemma_first_index_none(v@, p);
    }
    None
}

fn instance_is(p: &ManagedModelProcess, id: &str) -> (r: bool)
    ensures
        r == for_instance(id@)(*p),
{
    match &p.runtime_instance_id {
        Some(r) => str_eq(r.as_str(), id),
        None => false,
    }
}

impl RuntimeTable {
    /// An empty table.
    pub fn new() -> (t: Self)
        ensures
            t@ == Seq::<ManagedModelProcess>::empty(),
    {
        RuntimeTable { processes: Vec::new() }
    }

    /// The number of recorded processes.
    pub fn len(&self) -> (n: usize)
        ensures
            n == self@.len(),
    {
        self.processes.len()
    }

    /// Records a process at the end of the table.
    pub fn push(&mut self, process: ManagedModelProcess)
        ensures
            final(self)@ == old(self)@.push(process),
    {
        self.processes.push(process);
    }

    /// The first process recorded for the profile.
    pub fn for_profile(&self, profile_id: &str) -> (r: Option<&ManagedModelProcess>)
        ensures
            ({
                let i = first_index(self@, for_profile(profile_id@));
                match r {
                    Some(p) => i >= 0 && *p == self@[i],
                    None => i == -1,
                }
            }),
    {
        match find_by_profile(&self.processes, profile_id) {
            Some(i) => Some(&self.processes[i]),
            None => None,
        }
    }

    /// The first process recorded under the runtime instance.
    pub fn for_instance(&self, runtime_instance_id: &str) -> (r: Option<&ManagedModelProcess>)
        ensures
            ({
                let i = first_index(self@, for_instance(runtime_instance_id@));
                match r {
                    Some(p) => i >= 0 && *p == self@[i],
                    None => i == -1,
                }
            }),
    {
        let ghost p = for_instance(runtime_instance_id@);
        let mut i: usize = 0;
        while i < self.processes.len()
            invariant
                i <= self.processes@.len(),
                p == for_instance(runtime_instance_id@),
                forall|j: int| 0 <= j < i ==> !p(#[trigger] self.processes@[j]),
            decreases self.processes@.len() - i,
        {
            if instance_is(&self.processes[i], runtime_instance_id) {
                proof {
                    lemma_first_index_is(self.processes@, p, i as int);
                }
                return Some(&self.processes[i]);
            }
            i = i + 1;
        }
        proof {
            lemma_first_index_none(self.processes@, p);
        }
        None
    }

    /// Flags the first process of the profile verified or unverified;
    /// nothing else changes.
    pub fn set_unverified(&mut self, profile_id: &str, unverified: bool)
        ensures
            ({
                let i = first_index(old(self)@, for_profile(profile_id@));
                &&& i >= 0 ==> final(self)@ == old(self)@.update(
                    i,
                    ManagedModelProcess { unverified, ..old(self)@[i] },
                )
                &&& i < 0 ==> final(self)@ == old(self)@
            }),
    {
        match find_by_profile(&self.processes, profile_id) {
            Some(i) => {
                let mut p = self.processes.remove(i);
                p.unverified = unverified;
                self.processes.insert(i, p);
                proof {
                    assert(self.processes@ =~= old(self)@.update(
                        i as int,
                        ManagedModelProcess { unverified, ..old(self)@[i as int] },
                    ));
                }
            },
            None => {},
        }
    }

    /// Forgets every process recorded for the profile, keeping the others in
    /// order.
    pub fn remove_profile(&mut self, profile_id: &str)
        ensures
            final(self)@ == old(self)@.filter(|p: ManagedModelProcess| p.profile_id@ != profile_id@),
    {
        let ghost keep = |p: ManagedModelProcess| p.profile_id@ != profile_id@;
        let mut old_processes: Vec<ManagedModelProcess> = Vec::new();
        std::mem::swap(&mut old_processes, &mut self.processes);
        let ghost src = old_processes@;
        let mut i: usize = 0;
        while i < old_processes.len()
            invariant
                i <= src.len(),
                src == old_processes@,
                self.processes@ == src.take(i as int).filter(keep),
                keep == (|p: ManagedModelProcess| p.profile_id@ != profile_id@),
            decreases src.len() - i,
        {
            proof {
                assert(src.take(i + 1).drop_last() =~= src.take(i as int));
                crate::seqs::lemma_filter_push(src.take(i as int), keep, src[i as int]);
                assert(src.take(i + 1) =~= src.take(i as int).push(src[i as int]));
            }
            if !str_eq(old_processes[i].profile_id.as_str(), profile_id) {
                self.processes.push(clone_process(&old_processes[i]));
            }
            i = i + 1;
        }
        proof {
            assert(src.take(src.len() as int) =~= src);
        }
    }

    /// Forgets every process of the runtime instance (it exited), keeping the
    /// others in order.
    pub fn remove_instance(&mut self, runtime_instance_id: &str)
        ensures
            final(self)@ == old(self)@.filter(|p: ManagedModelProcess| !for_instance(runtime_instance_id@)(p)),
    {
        let ghost keep = |p: ManagedModelProcess| !for_instance(runtime_instance_id@)(p);
        let mut old_processes: Vec<ManagedModelProcess> = Vec::new();
        std::mem::swap(&mut old_processes, &mut self.processes);
        let ghost src = old_processes@;
        let mut i: usize = 0;
        while i < old_processes.len()
            invariant
                i <= src.len(),
                src == old_processes@,
                self.processes@ == src.take(i as int).filter(keep),
                keep == (|p: ManagedModelProcess| !for_instance(runtime_instance_id@)(p)),
            decreases src.len() - i,
        {
            proof {
                crate::seqs::lemma_filter_push(src.take(i as int), keep, src[i as int]);
                assert(src.take(i + 1) =~= src.take(i as int).push(src[i as int]));
            }
            if !instance_is(&old_processes[i], runtime_instance_id) {
                self.processes.push(clone_process(&old_processes[i]));
            }
            i = i + 1;
        }
        proof {
            assert(src.take(src.len() as int) =~= src);
        }
    }

    /// What is persisted of the table: nothing when it is empty (the state
    /// file is removed), otherwise its processes under the current schema.
    pub fn persisted(&self) -> (r: Option<(u32, Vec<ManagedModelProcess>)>)
        ensures
            self@.len() == 0 ==> r is None,
            self@.len() > 0 ==> (r matches Some((v, ps)) && v == RUNTIME_STATE_SCHEMA_VERSION && ps@ == self@),
    {
        if self.processes.len() == 0 {
            return None;
        }
        let mut ps: Vec<ManagedModelProcess> = Vec::new();
        let mut i: usize = 0;
        while i < self.processes.len()
            invariant
                i <= self.processes@.len(),
                ps@ == self.processes@.take(i as int),
            decreases self.processes@.len() - i,
        {
            ps.push(clone_process(&self.processes[i]));
            assert(self.processes@.take(i + 1) =~= self.processes@.take(i as int).push(self.processes@[i as int]));
            i = i + 1;
        }
        assert(self.processes@.take(self.processes@.len() as int) =~= self.processes@);
        Some((RUNTIME_STATE_SCHEMA_VERSION, ps))
    }

    /// The table read back from a persisted state: nothing from a newer
    /// schema; otherwise the listed processes, followed by the single
    /// process of the older layout unless its profile is already listed.
    pub fn restored(schema_version: u32, processes: Vec<ManagedModelProcess>, legacy: Option<ManagedModelProcess>) -> (t:
        Self)
        ensures
            schema_version > RUNTIME_STATE_SCHEMA_VERSION ==> t@ == Seq::<ManagedModelProcess>::empty(),
            schema_version <= RUNTIME_STATE_SCHEMA_VERSION ==> t@ == match legacy {
                Some(m) => if first_index(processes@, for_profile(m.profile_id@)) >= 0 {
                    processes@
                } else {
                    processes@.push(m)
                },
                None => processes@,
            },
    {
        if schema_version > RUNTIME_STATE_SCHEMA_VERSION {
            return RuntimeTable::new();
        }
        let mut processes = processes;
        match legacy {
            Some(m) => {
                if find_by_profile(&processes, m.profile_id.as_str()).is_none() {
                    processes.push(m);
                }
            },
            None => {},
        }
        RuntimeTable { processes }
    }
}

fn clone_identity(i: &ProcessIdentity) -> (r: ProcessIdentity)
    ensures
        r == *i,
{
    ProcessIdentity {
        pid: i.pid,
        owner_uid: i.owner_uid,
        process_start_time_unix_ms: i.process_start_time_unix_ms,
        canonical_executable_path: i.canonical_executable_path.clone(),
        executable_fingerprint: i.executable_fingerprint.clone(),
        argv_fingerprint: i.argv_fingerprint.clone(),
        expected_port: i.expected_port,
        runtime_profile_fingerprint: i.runtime_profile_fingerprint.clone(),
        launch_instance_id: i.launch_instance_id.clone(),
    }
}

/// A copy of a recorded process.
pub fn clone_process(p: &ManagedModelProcess) -> (r: ManagedModelProcess)
    ensures
        r == *p,
{
    ManagedModelProcess {
        pid: p.pid,
        started_by_app: p.started_by_app,
        profile_id: p.profile_id.clone(),
        base_url: p.base_url.clone(),
        log_path: p.log_path.clone(),
        started_at: crate::domain::clone_opt_string(&p.started_at),
        identity: match &p.identity {
            Some(i) => Some(clone_identity(i)),
            None => None,
        },
        runtime_instance_id: crate::domain::clone_opt_string(&p.runtime_instance_id),
        runtime_profile_fingerprint: crate::domain::clone_opt_string(&p.runtime_profile_fingerprint),
        unverified: p.unverified,
    }
}

// ---------------------------------------------------------------------------
// Laws of the runtime table
// ---------------------------------------------------------------------------
/// After a profile's processes are forgotten, a lookup of the profile finds
/// none.
pub proof fn lemma_removed_profile_not_found(s: Seq<ManagedModelProcess>, id: Seq<char>)
    ensures
        first_index(s.filter(|p: ManagedModelProcess| p.profile_id@ != id), for_profile(id)) == -1,
{
    let f = s.filter(|p: ManagedModelProcess| p.profile_id@ != id);
    crate::seqs::lemma_filter_subset(s, |p: ManagedModelProcess| p.profile_id@ != id);
    assert forall|j: int| 0 <= j < f.len() implies !for_profile(id)(#[trigger] f[j]) by {
        assert(f[j].profile_id@ != id);
    }
    lemma_first_index_none(f, for_profile(id));
}

/// Flagging a profile's process leaves the lookup of that profile on the
/// same process, with the flag set.
pub proof fn lemma_flag_is_read_back(s: Seq<ManagedModelProcess>, id: Seq<char>, unverified: bool)
    requires
        first_index(s, for_profile(id)) >= 0,
    ensures
        ({
            let i = first_index(s, for_profile(id));
            let t = s.update(i, ManagedModelProcess { unverified, ..s[i] });
            first_index(t, for_profile(id)) == i && t[i].unverified == unverified
        }),
{
    let p = for_profile(id);
    let i = first_index(s, p);
    lemma_first_index(s, p);
    let t = s.update(i, ManagedModelProcess { unverified, ..s[i] });
    assert forall|j: int| 0 <= j < i implies !p(#[trigger] t[j]) by {
        assert(t[j] == s[j]);
    }
    lemma_first_index_is(t, p, i);
}

} // verus!
