//! The decisions of starting and stopping the managed model server. The
//! process manager reads the process table, the disk and the port, and hands
//! what it found to these functions; they say what to answer or what to do
//! next.
use vstd::prelude::*;
use crate::domain::{ModelMode, ModelProfile};
use crate::errors::{app_error, concat, AppError, AppErrorCode};
use crate::lease::LeaseRegistry;
use crate::runtime::{StartModelServerOutput, StopModelServerOutput};
use crate::text::{decimal, decimal_string, trim};

verus! {

/// Refuses to start or stop a profile that is not managed by the
/// application.
pub fn require_managed(profile: &ModelProfile) -> (r: Result<(), AppError>)
    ensures
        r is Ok <==> profile.mode == ModelMode::Managed,
        r matches Err(e) ==> e.code == AppErrorCode::ModelProfileNotManaged,
{
    if profile.mode == ModelMode::Managed {
        return Ok(());
    }
    Err(
        app_error(
            AppErrorCode::ModelProfileNotManaged,
            "Bu profil yönetilen modda değil.",
            Some(concat("profile_id=", profile.id.as_str())),
            Some("Önce Model Laboratuvarı'ndan profili managed moduna alın.".to_owned()),
        ),
    )
}

/// Refuses a (re)start while the runtime is draining.
pub fn check_start_not_draining(draining: bool, profile_id: &str) -> (r: Result<(), AppError>)
    ensures
        r is Err <==> draining,
        r matches Err(e) ==> e.code == AppErrorCode::ModelRuntimeDraining,
{
    if draining {
        return Err(
            app_error(
                AppErrorCode::ModelRuntimeDraining,
                "Yerel model işlemlerin bitmesi beklenirken yeniden başlatılamaz.",
                Some(concat("profile_id=", profile_id)),
                Some("Mevcut işlemlerin bitmesini bekleyin.".to_owned()),
            ),
        );
    }
    Ok(())
}

/// Refuses a start while another profile's runtime started by the
/// application is running.
pub fn check_no_other_runtime(running_profile: Option<String>) -> (r: Result<(), AppError>)
    ensures
        r is Err <==> running_profile is Some,
        r matches Err(e) ==> e.code == AppErrorCode::ModelPortAlreadyInUse && e.technical_details
            == running_profile,
{
    match running_profile {
        Some(p) => Err(
            app_error(
                AppErrorCode::ModelPortAlreadyInUse,
                "Başka bir yerel model runtime'ı şu anda RubrikaV3 tarafından kullanılıyor.",
                Some(p),
                Some("Etkin model işi tamamlandığında tekrar deneyin.".to_owned()),
            ),
        ),
        None => Ok(()),
    }
}

/// A configured path is usable when it is not blank and exists on disk.
pub open spec fn path_usable(path: Seq<char>, exists_on_disk: bool) -> bool {
    trim(path).len() > 0 && exists_on_disk
}

/// The first missing file a managed start needs, if any: the server binary,
/// the model, then the projector when the profile names one.
pub open spec fn spec_missing_path(
    profile: ModelProfile,
    server_exists: bool,
    model_exists: bool,
    mmproj_exists: bool,
) -> Option<AppErrorCode> {
    if !path_usable(profile.server_path@, server_exists) {
        Some(AppErrorCode::ModelServerPathMissing)
    } else if !path_usable(profile.model_path@, model_exists) {
        Some(AppErrorCode::ModelModelPathMissing)
    } else if profile.spec_requires_mmproj() && !path_usable(profile.mmproj_path@, mmproj_exists) {
        Some(AppErrorCode::ModelMmprojPathMissing)
    } else {
        None
    }
}

fn path_ok(path: &str, exists_on_disk: bool) -> (r: bool)
    ensures
        r == path_usable(path@, exists_on_disk),
{
    let t = crate::text::trim_str(path);
    !t.as_str().is_empty() && exists_on_disk
}

/// Refuses a managed start whose files are missing; `*_exists` say whether
/// each configured path exists on disk.
pub fn require_paths(profile: &ModelProfile, server_exists: bool, model_exists: bool, mmproj_exists: bool) -> (r:
    Result<(), AppError>)
    ensures
        match spec_missing_path(*profile, server_exists, model_exists, mmproj_exists) {
            Some(code) => r matches Err(e) && e.code == code,
            None => r is Ok,
        },
{
    if !path_ok(profile.server_path.as_str(), server_exists) {
        return Err(
            app_error(
                AppErrorCode::ModelServerPathMissing,
                "llama-server binary bulunamadı.",
                Some(profile.server_path.clone()),
                Some("Sunucu binary yolunu kontrol edin.".to_owned()),
            ),
        );
    }
    if !path_ok(profile.model_path.as_str(), model_exists) {
        return Err(
            app_error(
                AppErrorCode::ModelModelPathMissing,
                "Model dosyası bulunamadı.",
                Some(profile.model_path.clone()),
                Some("GGUF model yolunu kontrol edin.".to_owned()),
            ),
        );
    }
    if profile.requires_mmproj() && !path_ok(profile.mmproj_path.as_str(), mmproj_exists) {
        return Err(
            app_error(
                AppErrorCode::ModelMmprojPathMissing,
                "MMProj dosyası bulunamadı.",
                Some(profile.mmproj_path.clone()),
                Some("MMProj dosya yolunu kontrol edin.".to_owned()),
            ),
        );
    }
    Ok(())
}

/// The answer to a start request when the profile's server already runs,
/// started by the application.
pub fn already_running_output(profile: &ModelProfile, pid: Option<u32>, health_ok: bool, log_path: String) -> (r:
    StartModelServerOutput)
    ensures
        !r.started,
        r.mode == ModelMode::Managed,
        r.pid == pid,
        r.base_url@ == profile.base_url@,
        r.log_path == log_path,
        r.health_ok == health_ok,
{
    StartModelServerOutput {
        started: false,
        mode: ModelMode::Managed,
        pid,
        base_url: profile.base_url.clone(),
        log_path,
        health_ok,
        message: "Model sunucusu zaten RubrikaV3 tarafından başlatılmış.".to_owned(),
    }
}

/// The answer to a start request when the profile's port is taken: a
/// healthy server there is used as it is; otherwise the start is refused.
pub fn port_in_use_outcome(profile: &ModelProfile, server_running: bool, health_ok: bool, log_path: String) -> (r:
    Result<StartModelServerOutput, AppError>)
    ensures
        server_running && health_ok ==> (r matches Ok(out) && !out.started && out.mode == ModelMode::Managed
            && out.pid is None && out.health_ok && out.base_url@ == profile.base_url@ && out.log_path
            == log_path),
        !(server_running && health_ok) ==> (r matches Err(e) && e.code == AppErrorCode::ModelPortAlreadyInUse
            && e.message@ == decimal(profile.port as nat) + " portu başka bir süreç tarafından kullanılıyor."@),
{
    if server_running && health_ok {
        return Ok(
            StartModelServerOutput {
                started: false,
                mode: ModelMode::Managed,
                pid: None,
                base_url: profile.base_url.clone(),
                log_path,
                health_ok: true,
                message: "Port kullanımda; mevcut model sunucusu harici olarak kullanılabilir.".to_owned(),
            },
        );
    }
    let port = decimal_string(profile.port as u64);
    let message = concat(port.as_str(), " portu başka bir süreç tarafından kullanılıyor.");
    Err(
        app_error(
            AppErrorCode::ModelPortAlreadyInUse,
            message.as_str(),
            Some(profile.base_url.clone()),
            Some("RubrikaV3 başka bir süreci kapatmaz.".to_owned()),
        ),
    )
}

/// The flash-attention setting handed to a started server: off for a
/// multimodal launch, automatic otherwise.
pub fn flash_attention_setting(requires_mmproj: bool) -> (r: &'static str)
    ensures
        r@ == (if requires_mmproj { "off"@ } else { "auto"@ }),
{
    if requires_mmproj {
        "off"
    } else {
        "auto"
    }
}

/// The answer to a start request that launched the server.
pub fn started_output(profile: &ModelProfile, pid: u32, health_ok: bool, log_path: String) -> (r:
    StartModelServerOutput)
    ensures
        r.started,
        r.mode == ModelMode::Managed,
        r.pid == Some(pid),
        r.base_url@ == profile.base_url@,
        r.log_path == log_path,
        r.health_ok == health_ok,
{
    StartModelServerOutput {
        started: true,
        mode: ModelMode::Managed,
        pid: Some(pid),
        base_url: profile.base_url.clone(),
        log_path,
        health_ok,
        message: "Model sunucusu başarıyla başlatıldı.".to_owned(),
    }
}

/// What the process manager recorded about the process it would stop.
#[derive(Clone, Copy, Debug)]
pub struct StopFacts {
    pub started_by_app: bool,
    pub unverified: bool,
    pub has_identity: bool,
    pub pid: Option<u32>,
}

/// What a stop request comes to before any process is touched.
pub enum StopDecision {
    /// Answer at once with this output; nothing is stopped.
    Answer(StopModelServerOutput),
    /// Stop the recorded process, then forget it and the leases.
    StopProcess,
}

/// Decides a stop request: while leases are held the runtime starts
/// draining instead; with no recorded process, or one without a strong
/// identity, nothing is stopped; an unverified process, or one the
/// application did not start, is refused.
pub fn plan_stop(registry: &mut LeaseRegistry, recorded: Option<StopFacts>, profile_id: &str) -> (r: Result<
    StopDecision,
    AppError,
>)
    ensures
        old(registry)@.leases.len() > 0 ==> final(registry)@ == (crate::lease::LeaseState {
            draining: true,
            ..old(registry)@
        }),
        old(registry)@.leases.len() > 0 ==> (r matches Ok(StopDecision::Answer(out)) && !out.stopped
            && out.draining && out.active_lease_count == old(registry)@.leases.len()),
        old(registry)@.leases.len() == 0 ==> final(registry)@ == old(registry)@,
        old(registry)@.leases.len() == 0 ==> match recorded {
            None => r matches Ok(StopDecision::Answer(out)) && !out.stopped && !out.draining
                && out.active_lease_count == 0,
            Some(f) => if !f.started_by_app || f.unverified {
                r matches Err(e) && e.code == AppErrorCode::ModelProcessUnverified
            } else if !f.has_identity {
                r matches Ok(StopDecision::Answer(out)) && !out.stopped && !out.draining
                    && out.active_lease_count == 0
            } else {
                r matches Ok(StopDecision::StopProcess)
            },
        },
{
    let active = registry.active_lease_count();
    if active > 0 {
        registry.set_draining(true);
        let mut message = "Yerel model şu anda ".to_owned();
        let count = decimal_string(active as u64);
        message.append(count.as_str());
        message.append(" işlem tarafından kullanılıyor. İşlemler bitince durdurulacak.");
        return Ok(
            StopDecision::Answer(
                StopModelServerOutput { stopped: false, draining: true, active_lease_count: active, message },
            ),
        );
    }
    match recorded {
        None => Ok(
            StopDecision::Answer(
                StopModelServerOutput {
                    stopped: false,
                    draining: false,
                    active_lease_count: 0,
                    message: "Durdurulacak yönetilen model süreci bulunamadı.".to_owned(),
                },
            ),
        ),
        Some(f) => {
            if !f.started_by_app || f.unverified {
                let mut details = concat("profile_id=", profile_id);
                details.append("; pid=");
                match f.pid {
                    Some(pid) => {
                        let n = decimal_string(pid as u64);
                        details.append("Some(");
                        details.append(n.as_str());
                        details.append(")");
                    },
                    None => {
                        details.append("None");
                    },
                }
                return Err(
                    app_error(
                        AppErrorCode::ModelProcessUnverified,
                        "Yerel model süreci güvenli biçimde doğrulanamadı; kapatılmadı.",
                        Some(details),
                        Some(
                            "Tanılama ayrıntılarını kontrol edin ve süreci işletim sistemi üzerinden yönetin.".to_owned(),
                        ),
                    ),
                );
            }
            if !f.has_identity {
                return Ok(
                    StopDecision::Answer(
                        StopModelServerOutput {
                            stopped: false,
                            draining: false,
                            active_lease_count: 0,
                            message: "Model sürecinin güçlü kimliği bulunamadığı için kapatılmadı.".to_owned(),
                        },
                    ),
                );
            }
            Ok(StopDecision::StopProcess)
        },
    }
}

/// Forgets the stopped process's leases and answers the stop request.
pub fn finish_stop(registry: &mut LeaseRegistry) -> (out: StopModelServerOutput)
    ensures
        final(registry)@.runtime_instance_id is None,
        final(registry)@.leases.len() == 0,
        !final(registry)@.draining,
        final(registry)@.unexpected_exit_count == old(registry)@.unexpected_exit_count,
        out.stopped,
        !out.draining,
        out.active_lease_count == 0,
{
    registry.reset();
    StopModelServerOutput {
        stopped: true,
        draining: false,
        active_lease_count: 0,
        message: "RubrikaV3 tarafından başlatılan doğrulanmış süreç güvenle durduruldu.".to_owned(),
    }
}

/// The pause between two health probes while waiting for a started server:
/// 50 ms doubled for every quarter second waited (at most four times), and
/// never past the time left.
pub open spec fn spec_readiness_backoff(elapsed_ms: u64, remaining_ms: u64) -> int {
    let q = (elapsed_ms / 250) % 0x1_0000_0000;
    let shift: int = if q < 4 { q as int } else { 4 };
    let pause: int = (50 * vstd::arithmetic::power2::pow2(shift as nat)) as int;
    if pause < remaining_ms { pause } else { remaining_ms as int }
}

pub fn readiness_backoff_millis(elapsed_ms: u64, remaining_ms: u64) -> (r: u64)
    ensures
        r == spec_readiness_backoff(elapsed_ms, remaining_ms),
{
    let q: u64 = (elapsed_ms / 250) % 0x1_0000_0000;
    let shift: u64 = if q < 4 { q } else { 4 };
    let pause: u64 = if shift == 0 {
        50
    } else if shift == 1 {
        100
    } else if shift == 2 {
        200
    } else if shift == 3 {
        400
    } else {
        800
    };
    proof {
        vstd::arithmetic::power2::lemma2_to64();
    }
    if pause < remaining_ms {
        pause
    } else {
        remaining_ms
    }
}

/// The error of a server that did not become ready in time.
pub fn ready_timeout_error(profile_id: &str) -> (e: AppError)
    ensures
        e.code == AppErrorCode::ModelServerReadyTimeout,
        e.technical_details matches Some(d) && d@ == "profile_id="@ + profile_id@,
{
    proof {
        reveal_strlit("profile_id=");
    }
    app_error(
        AppErrorCode::ModelServerReadyTimeout,
        "Model sunucusu zamanında hazır olmadı.",
        Some(concat("profile_id=", profile_id)),
        Some("Log dosyasını inceleyin.".to_owned()),
    )
}

/// The error of a started server whose process exited before it became
/// ready.
pub fn exited_before_ready_error(profile_id: &str) -> (e: AppError)
    ensures
        e.code == AppErrorCode::ModelServerStartFailed,
        e.technical_details matches Some(d) && d@ == "profile_id="@ + profile_id@,
{
    proof {
        reveal_strlit("profile_id=");
    }
    app_error(
        AppErrorCode::ModelServerStartFailed,
        "Model süreci hazır olmadan kapandı.",
        Some(concat("profile_id=", profile_id)),
        Some("Log dosyasını kontrol edin.".to_owned()),
    )
}

} // verus!
