//! How the process manager's observations of a model server become the
//! status shown for its profile: the facts gathered first, the privacy
//! block, the recorded process and the port, the health probe, and the
//! missing files and start actions.
use vstd::prelude::*;
use crate::domain::{ModelMode, ModelProfile};
use crate::errors::{app_error, concat, AppError, AppErrorCode};
use crate::platform::strings_view;
use crate::runtime::{ModelStatus, ModelSuggestedAction};

verus! {

/// What the process manager observed of a profile's server before any
/// health check.
#[derive(Debug)]
pub struct StatusFacts {
    pub server_path_exists: bool,
    pub model_path_exists: bool,
    /// Whether the profile's projector path names a file.
    pub mmproj_file_exists: bool,
    /// Whether a managed process is recorded for the profile.
    pub runtime_recorded: bool,
    pub runtime_pid: Option<u32>,
    pub runtime_started_by_app: bool,
    pub runtime_marked_unverified: bool,
    /// Whether the recorded process was verified to be the one started.
    pub identity_verified: bool,
    pub log_path: String,
    pub model_fingerprint: Option<String>,
    pub active_lease_count: usize,
    pub draining: bool,
}

/// What a health check (or a completion probe) of a server reported.
#[derive(Debug)]
pub struct ServerProbe {
    pub server_running: bool,
    pub health_ok: bool,
    pub completion_probe_ok: bool,
    pub health_verified_at: Option<String>,
    pub completion_probe_verified_at: Option<String>,
    pub last_error: Option<AppError>,
}

/// The status before privacy, port and health are looked at.
pub fn initial_model_status(profile: &ModelProfile, facts: &StatusFacts) -> (s: ModelStatus)
    ensures
        s.profile_id == profile.id,
        s.display_name == profile.display_name,
        s.mode == profile.mode,
        s.base_url == profile.base_url,
        s.server_path_exists == facts.server_path_exists,
        s.model_path_exists == facts.model_path_exists,
        s.mmproj_path_exists == (!profile.spec_requires_mmproj() || facts.mmproj_file_exists),
        !s.server_running && !s.health_ok && !s.completion_probe_ok,
        s.health_verified_at is None && s.completion_probe_verified_at is None,
        s.privacy_mode == profile.privacy_mode,
        !s.privacy_blocked && s.privacy_block_reason is None,
        s.model_fingerprint == facts.model_fingerprint,
        s.managed_process_pid == (if facts.runtime_recorded { facts.runtime_pid } else { None }),
        s.started_by_app == (facts.runtime_recorded && facts.runtime_started_by_app
            && facts.identity_verified),
        s.active_lease_count == facts.active_lease_count,
        s.draining == facts.draining,
        s.log_path == Some(facts.log_path),
        s.last_error is None,
        s.warnings@.len() == 0,
        !s.can_start_from_app && !s.can_stop_from_app && !s.start_requires_mode_change,
        s.start_disabled_reason is None,
        s.suggested_actions@.len() == 0,
{
    let needs_mmproj = profile.requires_mmproj();
    ModelStatus {
        profile_id: profile.id.clone(),
        display_name: profile.display_name.clone(),
        mode: profile.mode,
        base_url: profile.base_url.clone(),
        server_path_exists: facts.server_path_exists,
        model_path_exists: facts.model_path_exists,
        mmproj_path_exists: !needs_mmproj || facts.mmproj_file_exists,
        server_running: false,
        health_ok: false,
        completion_probe_ok: false,
        health_verified_at: None,
        completion_probe_verified_at: None,
        privacy_mode: profile.privacy_mode,
        privacy_blocked: false,
        privacy_block_reason: None,
        model_fingerprint: crate::domain::clone_opt_string(&facts.model_fingerprint),
        managed_process_pid: if facts.runtime_recorded {
            facts.runtime_pid
        } else {
            None
        },
        started_by_app: facts.runtime_recorded && facts.runtime_started_by_app
            && facts.identity_verified,
        active_lease_count: facts.active_lease_count,
        draining: facts.draining,
        log_path: Some(facts.log_path.clone()),
        last_error: None,
        warnings: Vec::new(),
        can_start_from_app: false,
        can_stop_from_app: false,
        start_requires_mode_change: false,
        start_disabled_reason: None,
        suggested_actions: Vec::new(),
    }
}

fn action(code: &str, label: &str) -> (a: ModelSuggestedAction)
    ensures
        a.code@ == code@,
        a.label@ == label@,
{
    ModelSuggestedAction { code: code.to_owned(), label: label.to_owned() }
}

pub open spec fn actions_view(v: Seq<ModelSuggestedAction>) -> Seq<(Seq<char>, Seq<char>)> {
    v.map_values(|a: ModelSuggestedAction| (a.code@, a.label@))
}

/// A status whose base URL breaks the privacy policy: blocked, not
/// startable or stoppable, with the policy error and the managed-profile
/// suggestion.
pub fn block_for_privacy(status: ModelStatus, error: AppError) -> (s: ModelStatus)
    ensures
        s.privacy_blocked,
        s.privacy_block_reason matches Some(r) && r == error.message,
        strings_view(s.warnings@) == strings_view(status.warnings@).push(error.message@),
        s.last_error == Some(error),
        !s.can_start_from_app && !s.can_stop_from_app,
        s.start_disabled_reason matches Some(r) && r@
            == "Model adresi Strict Local gizlilik politikasını karşılamıyor."@,
        actions_view(s.suggested_actions@) == actions_view(status.suggested_actions@).push(
            ("use_managed_local_model"@, "Yönetilen yerel model profilini seç"@),
        ),
        s.server_running == status.server_running,
        s.health_ok == status.health_ok,
        s.started_by_app == status.started_by_app,
        s.server_path_exists == status.server_path_exists,
        s.model_path_exists == status.model_path_exists,
        s.mmproj_path_exists == status.mmproj_path_exists,
        s.profile_id == status.profile_id,
        s.mode == status.mode,
        s.active_lease_count == status.active_lease_count,
        s.draining == status.draining,
{
    let mut s = status;
    let ghost w0 = strings_view(s.warnings@);
    let ghost a0 = actions_view(s.suggested_actions@);
    s.privacy_blocked = true;
    s.privacy_block_reason = Some(error.message.clone());
    s.warnings.push(error.message.clone());
    s.last_error = Some(error);
    s.can_start_from_app = false;
    s.can_stop_from_app = false;
    s.start_disabled_reason = Some(
        "Model adresi Strict Local gizlilik politikasını karşılamıyor.".to_owned(),
    );
    s.suggested_actions.push(action("use_managed_local_model", "Yönetilen yerel model profilini seç"));
    proof {
        reveal_strlit("Model adresi Strict Local gizlilik politikasını karşılamıyor.");
        assert(strings_view(s.warnings@) =~= w0.push(error.message@));
        assert(actions_view(s.suggested_actions@) =~= a0.push(
            ("use_managed_local_model"@, "Yönetilen yerel model profilini seç"@),
        ));
    }
    s
}

pub open spec fn unverified_warning() -> Seq<char> {
    "Kayıtlı model sürecinin kimliği doğrulanamadı; RubrikaV3 bu sürece dokunmaz."@
}

pub open spec fn started_warning() -> Seq<char> {
    "RubrikaV3 tarafından başlatıldı."@
}

pub open spec fn foreign_port_warning() -> Seq<char> {
    "Port başka bir süreç tarafından kullanılıyor; bu süreç harici görünüyor."@
}

/// The warnings the recorded process and the port add, in order.
pub open spec fn process_warnings(unverified: bool, started_by_app: bool, port_in_use: bool) -> Seq<
    Seq<char>,
> {
    (if unverified {
        seq![unverified_warning()]
    } else {
        Seq::empty()
    }) + (if started_by_app {
        seq![started_warning()]
    } else {
        Seq::empty()
    }) + (if port_in_use && !started_by_app {
        seq![foreign_port_warning()]
    } else {
        Seq::empty()
    })
}

fn push_text(v: &mut Vec<String>, t: &str)
    ensures
        strings_view(final(v)@) == strings_view(old(v)@).push(t@),
{
    let ghost w0 = strings_view(v@);
    v.push(t.to_owned());
    assert(strings_view(v@) =~= w0.push(t@));
}

/// Folds in what is known of the recorded process and the port: an
/// unverified process is reported, a process we started runs, and a port in
/// use means a server runs (a foreign one unless we started it).
pub fn observe_process(status: ModelStatus, runtime_unverified: bool, port_in_use: bool) -> (s: ModelStatus)
    ensures
        strings_view(s.warnings@) == strings_view(status.warnings@) + process_warnings(
            runtime_unverified,
            status.started_by_app,
            port_in_use,
        ),
        s.server_running == (status.server_running || status.started_by_app || port_in_use),
        runtime_unverified ==> (s.last_error matches Some(e) && e.code
            == AppErrorCode::ModelProcessUnverified),
        !runtime_unverified ==> s.last_error == status.last_error,
        s.health_ok == status.health_ok,
        s.started_by_app == status.started_by_app,
        s.server_path_exists == status.server_path_exists,
        s.model_path_exists == status.model_path_exists,
        s.mmproj_path_exists == status.mmproj_path_exists,
        s.mode == status.mode,
        s.base_url == status.base_url,
        s.can_start_from_app == status.can_start_from_app,
        s.suggested_actions == status.suggested_actions,
        s.start_disabled_reason == status.start_disabled_reason,
{
    let mut s = status;
    let ghost w0 = strings_view(s.warnings@);
    if runtime_unverified {
        push_text(&mut s.warnings, "Kayıtlı model sürecinin kimliği doğrulanamadı; RubrikaV3 bu sürece dokunmaz.");
        let mut details = concat("profile_id=", s.profile_id.as_str());
        details.append("; identity_verified=false");
        s.last_error = Some(
            app_error(
                AppErrorCode::ModelProcessUnverified,
                "Yerel model süreci güvenli biçimde doğrulanamadı.",
                Some(details),
                Some("Tanılama ayrıntılarını kontrol edin.".to_owned()),
            ),
        );
    }
    let ghost w1 = strings_view(s.warnings@);
    if s.started_by_app {
        push_text(&mut s.warnings, "RubrikaV3 tarafından başlatıldı.");
        s.server_running = true;
    }
    let ghost w2 = strings_view(s.warnings@);
    if port_in_use {
        s.server_running = true;
        if !s.started_by_app {
            push_text(&mut s.warnings, "Port başka bir süreç tarafından kullanılıyor; bu süreç harici görünüyor.");
        }
    }
    proof {
        assert(strings_view(s.warnings@) =~= w0 + process_warnings(
            runtime_unverified,
            status.started_by_app,
            port_in_use,
        ));
    }
    s
}

/// A running server with a known binary is probed.
pub fn should_probe(status: &ModelStatus) -> (r: bool)
    ensures
        r == (status.server_path_exists && status.server_running),
{
    status.server_path_exists && status.server_running
}

/// Folds in a health check, or, with `completion`, a completion probe: the
/// server runs if either says so, health (and completion) come from the
/// probe, and so does its error when it reports one.
pub fn apply_probe(status: ModelStatus, probe: ServerProbe, completion: bool) -> (s: ModelStatus)
    ensures
        s.server_running == (probe.server_running || status.server_running),
        s.health_ok == probe.health_ok,
        s.health_verified_at == probe.health_verified_at,
        s.completion_probe_ok == (if completion { probe.completion_probe_ok } else { status.completion_probe_ok }),
        s.completion_probe_verified_at == (if completion { probe.completion_probe_verified_at } else { status.completion_probe_verified_at }),
        s.last_error == (match probe.last_error {
            Some(e) => Some(e),
            None => status.last_error,
        }),
        s.started_by_app == status.started_by_app,
        s.server_path_exists == status.server_path_exists,
        s.model_path_exists == status.model_path_exists,
        s.mmproj_path_exists == status.mmproj_path_exists,
        s.mode == status.mode,
        s.base_url == status.base_url,
        s.warnings == status.warnings,
        s.suggested_actions == status.suggested_actions,
{
    let mut s = status;
    s.server_running = probe.server_running || s.server_running;
    s.health_ok = probe.health_ok;
    s.health_verified_at = probe.health_verified_at;
    if completion {
        s.completion_probe_ok = probe.completion_probe_ok;
        s.completion_probe_verified_at = probe.completion_probe_verified_at;
    }
    match probe.last_error {
        Some(e) => {
            s.last_error = Some(e);
        },
        None => {},
    }
    s
}

/// The code of the error that the missing files or a failed health check
/// set, if any.
pub open spec fn missing_error_code(status: ModelStatus, profile: ModelProfile) -> Option<
    AppErrorCode,
> {
    if !status.server_path_exists {
        Some(AppErrorCode::ModelServerPathMissing)
    } else if !status.model_path_exists {
        Some(AppErrorCode::ModelModelPathMissing)
    } else if profile.spec_requires_mmproj() && !status.mmproj_path_exists {
        Some(AppErrorCode::ModelMmprojPathMissing)
    } else if status.server_running && !status.health_ok && status.last_error is None {
        Some(AppErrorCode::ModelHealthFailed)
    } else {
        None
    }
}

/// The start actions offered for a status.
pub open spec fn start_actions(status: ModelStatus, profile: ModelProfile) -> Seq<(Seq<char>, Seq<char>)> {
    if status.server_running {
        Seq::empty()
    } else if !status.server_path_exists || !status.model_path_exists || (
    profile.spec_requires_mmproj() && !status.mmproj_path_exists) {
        seq![("open_model_status_page"@, "Model durumunu aç"@)]
    } else if status.mode == ModelMode::External {
        seq![
            ("switch_to_managed_and_start"@, "Yönetilen moda al ve modeli başlat"@),
            ("open_model_status_page"@, "Model durumunu aç"@),
        ]
    } else {
        seq![("start_model_server"@, "Model Server’ı Başlat"@)]
    }
}

/// Completes a status: the error of a missing file or a failed health
/// check, the closed-server warning, and what may be started or stopped.
pub fn finish_model_status(status: ModelStatus, profile: &ModelProfile) -> (s: ModelStatus)
    ensures
        match missing_error_code(status, *profile) {
            Some(code) => s.last_error matches Some(e) && e.code == code,
            None => s.last_error == status.last_error,
        },
        strings_view(s.warnings@) == (if status.server_running {
            strings_view(status.warnings@)
        } else {
            strings_view(status.warnings@).push("Model sunucusu kapalı görünüyor."@)
        }),
        s.can_stop_from_app == status.started_by_app,
        s.can_start_from_app == (!status.server_running && status.server_path_exists
            && status.model_path_exists && !(profile.spec_requires_mmproj()
            && !status.mmproj_path_exists)),
        s.start_requires_mode_change == (if s.can_start_from_app {
            status.mode == ModelMode::External
        } else {
            status.start_requires_mode_change
        }),
        status.server_running ==> (s.start_disabled_reason matches Some(r) && r@
            == "Model sunucusu zaten çalışıyor."@),
        !status.server_running && !s.can_start_from_app ==> (s.start_disabled_reason matches Some(
            r,
        ) && r@ == "Model, server veya mmproj dosyası eksik."@),
        s.can_start_from_app ==> s.start_disabled_reason == status.start_disabled_reason,
        actions_view(s.suggested_actions@) == actions_view(status.suggested_actions@) + start_actions(
            status,
            *profile,
        ),
        s.server_running == status.server_running,
        s.health_ok == status.health_ok,
        s.started_by_app == status.started_by_app,
{
    let mut s = status;
    let needs_mmproj = profile.requires_mmproj();
    if !s.server_path_exists {
        s.last_error = Some(
            app_error(
                AppErrorCode::ModelServerPathMissing,
                "llama-server binary bulunamadı.",
                Some(profile.server_path.clone()),
                None,
            ),
        );
    } else if !s.model_path_exists {
        s.last_error = Some(
            app_error(
                AppErrorCode::ModelModelPathMissing,
                "Model dosyası bulunamadı.",
                Some(profile.model_path.clone()),
                None,
            ),
        );
    } else if needs_mmproj && !s.mmproj_path_exists {
        s.last_error = Some(
            app_error(
                AppErrorCode::ModelMmprojPathMissing,
                "MMProj dosyası bulunamadı.",
                Some(profile.mmproj_path.clone()),
                None,
            ),
        );
    } else if s.server_running && !s.health_ok && s.last_error.is_none() {
        s.last_error = Some(
            app_error(
                AppErrorCode::ModelHealthFailed,
                "Model sunucusuna sağlık yanıtı alınamadı.",
                Some(profile.base_url.clone()),
                Some("Sunucu uyumlu değilse harici olarak kapatılmaz.".to_owned()),
            ),
        );
    }
    if !s.server_running {
        push_text(&mut s.warnings, "Model sunucusu kapalı görünüyor.");
    }
    s.can_stop_from_app = s.started_by_app;
    let ghost a0 = actions_view(s.suggested_actions@);
    if s.server_running {
        s.can_start_from_app = false;
        s.start_disabled_reason = Some("Model sunucusu zaten çalışıyor.".to_owned());
        proof {
            reveal_strlit("Model sunucusu zaten çalışıyor.");
        }
    } else if !s.server_path_exists || !s.model_path_exists || (needs_mmproj && !s.mmproj_path_exists) {
        s.can_start_from_app = false;
        s.start_disabled_reason = Some("Model, server veya mmproj dosyası eksik.".to_owned());
        s.suggested_actions.push(action("open_model_status_page", "Model durumunu aç"));
        proof {
            reveal_strlit("Model, server veya mmproj dosyası eksik.");
        }
    } else {
        s.can_start_from_app = true;
        if s.mode == ModelMode::External {
            s.start_requires_mode_change = true;
            s.suggested_actions.push(
                action("switch_to_managed_and_start", "Yönetilen moda al ve modeli başlat"),
            );
            s.suggested_actions.push(action("open_model_status_page", "Model durumunu aç"));
        } else {
            s.start_requires_mode_change = false;
            s.suggested_actions.push(action("start_model_server", "Model Server’ı Başlat"));
        }
    }
    assert(actions_view(s.suggested_actions@) =~= a0 + start_actions(status, *profile));
    s
}

/// Appends the server log tail to an error's technical details.
pub fn with_tail(error: AppError, tail: String) -> (r: AppError)
    ensures
        tail@.len() == 0 ==> r == error,
        tail@.len() > 0 ==> (r.technical_details matches Some(d) && d@ == (match error.technical_details {
            Some(existing) => existing@ + "\n\nLog Tail:\n"@ + tail@,
            None => "Log Tail:\n"@ + tail@,
        })),
        r.code == error.code,
        r.message == error.message,
        r.recoverable == error.recoverable,
        r.suggested_action == error.suggested_action,
        r.correlation_id == error.correlation_id,
{
    if tail.as_str().is_empty() {
        return error;
    }
    let mut error = error;
    let details = match &error.technical_details {
        Some(existing) => {
            let mut d = existing.clone();
            d.append("\n\nLog Tail:\n");
            d.append(tail.as_str());
            d
        },
        None => {
            let mut d = "Log Tail:\n".to_owned();
            d.append(tail.as_str());
            d
        },
    };
    error.technical_details = Some(details);
    error
}

} // verus!
