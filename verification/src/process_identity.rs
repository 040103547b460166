//! The identity of a model server process the application started, and the
//! checks that guard it: whether a live process is still the one recorded,
//! what recovering a recorded process does, and when a signal may be sent.
//! A process is only ever signalled after it has been shown to be the
//! recorded one; a mismatch never signals an unrelated process.
use vstd::prelude::*;
use crate::errors::{app_error, concat, AppError, AppErrorCode};
use crate::model_text::{find, find_chars};
use crate::text::{chars_of, decimal, decimal_string, str_eq};

verus! {

/// What was recorded about a started model server process.
#[derive(Debug)]
pub struct ProcessIdentity {
    pub pid: u32,
    pub owner_uid: u32,
    pub process_start_time_unix_ms: u64,
    pub canonical_executable_path: String,
    pub executable_fingerprint: String,
    pub argv_fingerprint: String,
    pub expected_port: u16,
    pub runtime_profile_fingerprint: String,
    pub launch_instance_id: String,
}

/// What the process table says of a live process.
#[derive(Debug)]
pub struct ProcessSnapshot {
    pub pid: u32,
    pub owner_uid: u32,
    pub process_start_time_unix_ms: u64,
    pub canonical_executable_path: String,
    pub argv_fingerprint: Option<String>,
}

pub open spec fn ends_with(s: Seq<char>, suffix: Seq<char>) -> bool {
    s.len() >= suffix.len() && s.subrange(s.len() - suffix.len(), s.len() as int) == suffix
}

/// An executable name of a script launcher (a Python interpreter, `env`, or
/// a Python or shell script), whose path may legitimately differ between
/// the recorded and the live process.
pub open spec fn launcher_name(name: Seq<char>) -> bool {
    ||| find(name, "python"@) >= 0
    ||| find(name, "Python"@) >= 0
    ||| name == "env"@
    ||| ends_with(name, ".py"@)
    ||| ends_with(name, ".sh"@)
}

fn str_ends_with(s: &Vec<char>, suffix: &str) -> (r: bool)
    ensures
        r == ends_with(s@, suffix@),
{
    let t = chars_of(suffix);
    if t.len() > s.len() {
        return false;
    }
    let off = s.len() - t.len();
    let mut i: usize = 0;
    while i < t.len()
        invariant
            i <= t.len(),
            off == s@.len() - t@.len(),
            off + t.len() == s.len(),
            t@ == suffix@,
            forall|j: int| 0 <= j < i ==> s@[off + j] == t@[j],
        decreases t.len() - i,
    {
        if s[off + i] != t[i] {
            assert(s@.subrange(off as int, s@.len() as int)[i as int] != t@[i as int]);
            return false;
        }
        i = i + 1;
    }
    assert(s@.subrange(off as int, s@.len() as int) =~= t@);
    true
}

/// Whether an executable name is a script launcher's.
pub fn is_launcher_name(name: &str) -> (r: bool)
    ensures
        r == launcher_name(name@),
{
    let v = chars_of(name);
    let python = chars_of("python");
    let python_upper = chars_of("Python");
    proof {
        reveal_strlit("python");
        reveal_strlit("Python");
        reveal_strlit("env");
    }
    find_chars(&v, &python, 0).is_some() || find_chars(&v, &python_upper, 0).is_some() || str_eq(name, "env")
        || str_ends_with(&v, ".py") || str_ends_with(&v, ".sh")
}

/// Whether a live process is still the recorded one, port ownership aside:
/// same pid, owned by the current user and by the recorded owner, started
/// within half a second of the recorded start, the same executable (path
/// and fingerprint, unless both names are script launchers), the same
/// expected port and runtime profile, and the same arguments when the live
/// ones are known. `recorded_pid` is the pid stored beside the identity,
/// `live_executable_fingerprint` the fingerprint of the live executable's
/// path, `expected_profile_fingerprint` the profile's current runtime
/// fingerprint, and the two names the file names of the recorded and live
/// executables.
pub open spec fn spec_identity_matches(
    identity: ProcessIdentity,
    recorded_pid: Option<u32>,
    snapshot: ProcessSnapshot,
    current_uid: u32,
    profile_port: u16,
    live_executable_fingerprint: Seq<char>,
    expected_profile_fingerprint: Seq<char>,
    recorded_name: Seq<char>,
    live_name: Seq<char>,
) -> bool {
    let wrapper = launcher_name(recorded_name) && launcher_name(live_name);
    let start_diff = if identity.process_start_time_unix_ms >= snapshot.process_start_time_unix_ms {
        identity.process_start_time_unix_ms - snapshot.process_start_time_unix_ms
    } else {
        snapshot.process_start_time_unix_ms - identity.process_start_time_unix_ms
    };
    &&& identity.pid != 0
    &&& identity.pid == (match recorded_pid {
        Some(p) => p,
        None => 0u32,
    })
    &&& snapshot.pid == identity.pid
    &&& snapshot.owner_uid == current_uid
    &&& snapshot.owner_uid == identity.owner_uid
    &&& start_diff <= 500
    &&& (snapshot.canonical_executable_path@ == identity.canonical_executable_path@ || wrapper)
    &&& (live_executable_fingerprint == identity.executable_fingerprint@ || wrapper)
    &&& identity.expected_port == profile_port
    &&& identity.runtime_profile_fingerprint@ == expected_profile_fingerprint
    &&& match snapshot.argv_fingerprint {
        Some(a) => a@ == identity.argv_fingerprint@ || wrapper,
        None => true,
    }
}

/// Checks a live process against its recorded identity (port ownership
/// aside).
pub fn identity_matches(
    identity: &ProcessIdentity,
    recorded_pid: Option<u32>,
    snapshot: &ProcessSnapshot,
    current_uid: u32,
    profile_port: u16,
    live_executable_fingerprint: &str,
    expected_profile_fingerprint: &str,
    recorded_name: &str,
    live_name: &str,
) -> (r: bool)
    ensures
        r == spec_identity_matches(
            *identity,
            recorded_pid,
            *snapshot,
            current_uid,
            profile_port,
            live_executable_fingerprint@,
            expected_profile_fingerprint@,
            recorded_name@,
            live_name@,
        ),
{
    let wrapper = is_launcher_name(recorded_name) && is_launcher_name(live_name);
    let pid_recorded: u32 = match recorded_pid {
        Some(p) => p,
        None => 0,
    };
    if identity.pid == 0 || identity.pid != pid_recorded {
        return false;
    }
    let start_diff: u64 = if identity.process_start_time_unix_ms >= snapshot.process_start_time_unix_ms {
        identity.process_start_time_unix_ms - snapshot.process_start_time_unix_ms
    } else {
        snapshot.process_start_time_unix_ms - identity.process_start_time_unix_ms
    };
    let c_pid = snapshot.pid != identity.pid;
    let c_uid = snapshot.owner_uid != current_uid;
    let c_owner = snapshot.owner_uid != identity.owner_uid;
    let c_time = start_diff > 500;
    let c_exe = !str_eq(snapshot.canonical_executable_path.as_str(), identity.canonical_executable_path.as_str())
        && !wrapper;
    let c_fp = !str_eq(live_executable_fingerprint, identity.executable_fingerprint.as_str()) && !wrapper;
    let c_port = identity.expected_port != profile_port;
    let c_prof = !str_eq(identity.runtime_profile_fingerprint.as_str(), expected_profile_fingerprint);
    if c_pid || c_uid || c_owner || c_time || c_exe || c_fp || c_port || c_prof {
        return false;
    }
    match &snapshot.argv_fingerprint {
        Some(a) => {
            if !str_eq(a.as_str(), identity.argv_fingerprint.as_str()) && !wrapper {
                return false;
            }
        },
        None => {},
    }
    true
}

/// What inspecting a recorded process found.
pub enum InspectOutcome {
    /// The process table could not be read.
    Failed,
    /// No process has the recorded pid.
    Gone,
    /// A live process has the recorded pid; whether it still is the
    /// recorded one, and whether it owns the profile's port.
    Live { identity_matches: bool, owns_port: bool },
}

/// What recovering a recorded process does with its record.
#[derive(PartialEq, Eq, Structural, Clone, Copy, Debug)]
pub enum RecoveryAction {
    /// Keep it as verified.
    MarkVerified,
    /// Keep it, flagged as not verifiable (it is never signalled).
    MarkUnverified,
    /// Forget it.
    Remove,
}

/// Decides what recovering a recorded process does: a record without an
/// identity, or whose process cannot be inspected, is flagged unverified; a
/// vanished process is forgotten; a live process that still matches and
/// owns its port is verified; a mismatching process that holds the port is
/// flagged unverified, and one that does not is forgotten.
pub fn recovery_action(has_identity: bool, outcome: &InspectOutcome) -> (r: RecoveryAction)
    ensures
        !has_identity ==> r == RecoveryAction::MarkUnverified,
        has_identity ==> r == match *outcome {
            InspectOutcome::Failed => RecoveryAction::MarkUnverified,
            InspectOutcome::Gone => RecoveryAction::Remove,
            InspectOutcome::Live { identity_matches, owns_port } => if identity_matches && owns_port {
                RecoveryAction::MarkVerified
            } else if owns_port {
                RecoveryAction::MarkUnverified
            } else {
                RecoveryAction::Remove
            },
        },
{
    if !has_identity {
        return RecoveryAction::MarkUnverified;
    }
    match outcome {
        InspectOutcome::Failed => RecoveryAction::MarkUnverified,
        InspectOutcome::Gone => RecoveryAction::Remove,
        InspectOutcome::Live { identity_matches, owns_port } => {
            if *identity_matches && *owns_port {
                RecoveryAction::MarkVerified
            } else if *owns_port {
                RecoveryAction::MarkUnverified
            } else {
                RecoveryAction::Remove
            }
        },
    }
}

/// The first check before signalling a recorded process: it must have an
/// identity with a usable pid (non-zero, a valid process-group id) recorded
/// for the profile's port. Gives the pid to inspect.
pub fn check_signal_target(identity: Option<&ProcessIdentity>, profile_port: u16) -> (r: Result<u32, AppError>)
    ensures
        match identity {
            None => r matches Err(e) && e.code == AppErrorCode::ModelProcessUnverified,
            Some(id) => if id.pid == 0 || id.pid > i32::MAX || id.expected_port != profile_port {
                r matches Err(e) && e.code == AppErrorCode::ModelProcessIdentityMismatch
            } else {
                r == Ok::<u32, AppError>(id.pid)
            },
        },
{
    let id = match identity {
        None => {
            return Err(
                app_error(
                    AppErrorCode::ModelProcessUnverified,
                    "Model süreci kimliği doğrulanamadı; sinyal gönderilmedi.",
                    None,
                    Some("Tanılama ayrıntılarını kontrol edin.".to_owned()),
                ),
            );
        },
        Some(id) => id,
    };
    if id.pid == 0 || id.pid > 2147483647u32 || id.expected_port != profile_port {
        let mut details = concat("pid=", decimal_string(id.pid as u64).as_str());
        details.append("; port=");
        details.append(decimal_string(id.expected_port as u64).as_str());
        return Err(
            app_error(
                AppErrorCode::ModelProcessIdentityMismatch,
                "Geçersiz model süreç kimliği; sinyal gönderilmedi.",
                Some(details),
                None,
            ),
        );
    }
    Ok(id.pid)
}

/// Whether the live process may be signalled as the recorded one: owned by
/// the recorded owner and the current user, started at the recorded time,
/// running the recorded executable.
pub open spec fn spec_signal_snapshot_ok(identity: ProcessIdentity, snapshot: ProcessSnapshot, current_uid: u32) -> bool {
    &&& snapshot.owner_uid == identity.owner_uid
    &&& snapshot.owner_uid == current_uid
    &&& snapshot.process_start_time_unix_ms == identity.process_start_time_unix_ms
    &&& snapshot.canonical_executable_path@ == identity.canonical_executable_path@
}

/// The second check before signalling: the inspected process must still be
/// there and be the recorded one.
pub fn check_signal_snapshot(identity: &ProcessIdentity, snapshot: Option<&ProcessSnapshot>, current_uid: u32) -> (r:
    Result<(), AppError>)
    ensures
        match snapshot {
            None => r matches Err(e) && e.code == AppErrorCode::ModelRuntimeExited,
            Some(s) => if spec_signal_snapshot_ok(*identity, *s, current_uid) {
                r is Ok
            } else {
                r matches Err(e) && e.code == AppErrorCode::ModelProcessIdentityMismatch
            },
        },
{
    let pid_detail = concat("pid=", decimal_string(identity.pid as u64).as_str());
    let s = match snapshot {
        None => {
            return Err(
                app_error(AppErrorCode::ModelRuntimeExited, "Model süreci zaten çalışmıyor.", Some(pid_detail), None),
            );
        },
        Some(s) => s,
    };
    if s.owner_uid != identity.owner_uid || s.owner_uid != current_uid || s.process_start_time_unix_ms
        != identity.process_start_time_unix_ms || !str_eq(
        s.canonical_executable_path.as_str(),
        identity.canonical_executable_path.as_str(),
    ) {
        return Err(
            app_error(
                AppErrorCode::ModelProcessIdentityMismatch,
                "Model süreci kimliği değişti; sinyal gönderilmedi.",
                Some(pid_detail),
                Some("Tanılama ayrıntılarını kontrol edin.".to_owned()),
            ),
        );
    }
    Ok(())
}

/// The last check before signalling: the process must own the profile's
/// port.
pub fn check_signal_port(owns_port: bool, pid: u32, port: u16) -> (r: Result<(), AppError>)
    ensures
        r is Ok <==> owns_port,
        r matches Err(e) ==> e.code == AppErrorCode::ModelProcessIdentityMismatch,
{
    if !owns_port {
        let mut details = concat("pid=", decimal_string(pid as u64).as_str());
        details.append("; port=");
        details.append(decimal_string(port as u64).as_str());
        return Err(
            app_error(
                AppErrorCode::ModelProcessIdentityMismatch,
                "Model süreci beklenen portu sahiplenmiyor; sinyal gönderilmedi.",
                Some(details),
                Some("Tanılama ayrıntılarını kontrol edin.".to_owned()),
            ),
        );
    }
    Ok(())
}

/// Whether every check before a signal passes.
pub open spec fn spec_signal_permitted(
    identity: Option<&ProcessIdentity>,
    profile_port: u16,
    snapshot: Option<&ProcessSnapshot>,
    current_uid: u32,
    owns_port: bool,
) -> bool {
    match identity {
        Some(id) => {
            &&& id.pid != 0
            &&& id.pid <= i32::MAX
            &&& id.expected_port == profile_port
            &&& match snapshot {
                Some(s) => spec_signal_snapshot_ok(*id, *s, current_uid),
                None => false,
            }
            &&& owns_port
        },
        None => false,
    }
}

/// The three checks before a signal, in order: a signal is sent only when
/// all pass.
pub fn signal_permitted(
    identity: Option<&ProcessIdentity>,
    profile_port: u16,
    snapshot: Option<&ProcessSnapshot>,
    current_uid: u32,
    owns_port: bool,
) -> (r: Result<u32, AppError>)
    ensures
        r is Ok <==> spec_signal_permitted(identity, profile_port, snapshot, current_uid, owns_port),
        r matches Ok(pid) ==> (identity matches Some(id) && pid == id.pid),
{
    let pid = check_signal_target(identity, profile_port)?;
    let id = match identity {
        Some(id) => id,
        None => {
            return Err(
                app_error(
                    AppErrorCode::ModelProcessUnverified,
                    "Model süreci kimliği doğrulanamadı; sinyal gönderilmedi.",
                    None,
                    Some("Tanılama ayrıntılarını kontrol edin.".to_owned()),
                ),
            );
        },
    };
    check_signal_snapshot(id, snapshot, current_uid)?;
    check_signal_port(owns_port, pid, profile_port)?;
    Ok(pid)
}

// ---------------------------------------------------------------------------
// Laws of process identity
// ---------------------------------------------------------------------------
/// A live process that another user owns, or that started at another time,
/// or that runs another executable than the recorded one, is never
/// signalled.
pub proof fn lemma_mismatch_never_signalled(identity: ProcessIdentity, snapshot: ProcessSnapshot, current_uid: u32)
    requires
        snapshot.owner_uid != current_uid || snapshot.owner_uid != identity.owner_uid
            || snapshot.process_start_time_unix_ms != identity.process_start_time_unix_ms
            || snapshot.canonical_executable_path@ != identity.canonical_executable_path@,
    ensures
        !spec_signal_snapshot_ok(identity, snapshot, current_uid),
{
}

/// A recorded process is kept as verified only when it still matches its
/// identity and owns its port.
pub proof fn lemma_verified_only_on_match(has_identity: bool, identity_matches: bool, owns_port: bool)
    ensures
        ({
            let outcome = InspectOutcome::Live { identity_matches, owns_port };
            (has_identity && identity_matches && owns_port) <==> (if !has_identity {
                RecoveryAction::MarkUnverified
            } else if identity_matches && owns_port {
                RecoveryAction::MarkVerified
            } else if owns_port {
                RecoveryAction::MarkUnverified
            } else {
                RecoveryAction::Remove
            }) == RecoveryAction::MarkVerified
        }),
{
}

} // verus!
