//! The runtime service's decisions around a lease: which profile a request
//! runs on (a legacy profile, or the profile materialized from the routed
//! platform model), whether switching platform routes may stop the running
//! runtime, and the errors a lease request reports.
use vstd::prelude::*;
use crate::config::{profile_pos, profiles_upsert, target_id, ModelConfigService, ModelConfigStore};
use crate::domain::{ModelPlatformConfig, ModelProfile, ModelTaskKind};
use crate::errors::{app_error, concat, AppError, AppErrorCode};
use crate::migration::{is_materialized_profile, materialize_route_as_legacy_profile, materialized_id};
use crate::platform::ModelPlatformService;
use crate::router::{resolve_route, route_outcome, route_result_matches, ResolvedModelRoute, RouteUsageMode};
use crate::runtime::{normalize_model_error, spec_normalized_code, ModelStatus, ModelUseCase, PlatformRuntimeSelection, same_selection};
use crate::text::decimal_string;

verus! {

/// The profile a request runs on.
#[derive(Debug)]
pub struct EffectiveProfile {
    /// The id the request names: the requested id on the legacy path, the
    /// materialized profile's id on the platform path.
    pub profile_id: Option<String>,
    pub profile: ModelProfile,
    pub route: Option<ResolvedModelRoute>,
}

/// The profile stored under `id`, if any.
pub open spec fn lookup(store: ModelConfigStore, id: Seq<char>) -> Option<ModelProfile> {
    let i = profile_pos(store.profiles@, id);
    if i >= 0 {
        Some(store.profiles@[i])
    } else {
        None
    }
}

/// Whether requests go through the platform registry: one is configured and
/// it holds a model or a binding.
pub open spec fn routes_through(c: ModelPlatformConfig) -> bool {
    !(c.models@.len() == 0 && c.bindings@.len() == 0)
}

pub open spec fn opt_text_view(o: Option<&str>) -> Option<Seq<char>> {
    match o {
        Some(s) => Some(s@),
        None => None,
    }
}

pub open spec fn opt_string_view(o: Option<String>) -> Option<Seq<char>> {
    match o {
        Some(s) => Some(s@),
        None => None,
    }
}

/// The profile of a request routed to `task` in `c`: the route resolved
/// for production use, materialized as a legacy profile (stored in the
/// profiles, which go from `before` to `after`) under its id.
pub open spec fn materialized_outcome(
    e: EffectiveProfile,
    c: ModelPlatformConfig,
    task: ModelTaskKind,
    before: Seq<ModelProfile>,
    after: Seq<ModelProfile>,
) -> bool {
    match e.route {
        Some(route) => {
            &&& route_result_matches(Ok(route), c, task, RouteUsageMode::Production)
            &&& opt_string_view(e.profile_id) == Some(materialized_id(route))
            &&& is_materialized_profile(e.profile, route)
            &&& after == profiles_upsert(before, e.profile)
        },
        None => false,
    }
}

/// Resolves the profile a request runs on. Without a platform registry, or
/// with an empty one, it is the requested (or active) legacy profile. With
/// one, the task of the use case is routed for production use, the route is
/// materialized as a legacy profile and that profile is used; routing errors
/// carry the request's correlation id.
pub fn resolve_effective_profile(
    config: &mut ModelConfigService,
    platform: Option<&ModelPlatformService>,
    requested_profile_id: Option<&str>,
    use_case: ModelUseCase,
    correlation_id: &str,
) -> (r: Result<EffectiveProfile, AppError>)
    ensures
        final(config).spec_config_path() == old(config).spec_config_path(),
        final(config).spec_store().active_profile_id == old(config).spec_store().active_profile_id,
        (platform is None || !routes_through(platform.unwrap().registry())) ==> {
            &&& final(config).spec_store() == old(config).spec_store()
            &&& match lookup(old(config).spec_store(), target_id(old(config).spec_store(), requested_profile_id)) {
                Some(p) => r matches Ok(e) && e.profile == p && e.route is None && opt_string_view(e.profile_id)
                    == opt_text_view(requested_profile_id),
                None => r matches Err(e) && e.code == AppErrorCode::ModelProfileNotFound,
            }
        },
        (platform is Some && routes_through(platform.unwrap().registry())) ==> ({
            let c = platform.unwrap().registry();
            let task = use_case.spec_platform_task(opt_text_view(requested_profile_id));
            match route_outcome(c, task, RouteUsageMode::Production) {
                Err(code) => r matches Err(e) && e.code == code && e.correlation_id@ == correlation_id@
                    && final(config).spec_store() == old(config).spec_store(),
                Ok(_) => r matches Ok(e) && materialized_outcome(
                    e,
                    c,
                    task,
                    old(config).spec_store().profiles@,
                    final(config).spec_store().profiles@,
                ),
            }
        }),
{
    let platform = match platform {
        Some(p) => {
            let c = p.registry_ref();
            if c.models.len() == 0 && c.bindings.len() == 0 {
                None
            } else {
                Some(p)
            }
        },
        None => None,
    };
    match platform {
        None => {
            let profile = config.get_profile(requested_profile_id)?;
            let profile_id = match requested_profile_id {
                Some(id) => Some(id.to_owned()),
                None => None,
            };
            Ok(EffectiveProfile { profile_id, profile, route: None })
        },
        Some(p) => {
            let task = use_case.platform_task(requested_profile_id);
            let route = match resolve_route(p.registry_ref(), task, RouteUsageMode::Production) {
                Ok(route) => route,
                Err(e) => {
                    return Err(AppError { correlation_id: correlation_id.to_owned(), ..e });
                },
            };
            let materialized = match materialize_route_as_legacy_profile(config, &route) {
                Ok(id) => id,
                Err(e) => {
                    return Err(AppError { correlation_id: correlation_id.to_owned(), ..e });
                },
            };
            proof {
                let q = choose|q: ModelProfile|
                    is_materialized_profile(q, route) && config.spec_store().profiles@ == profiles_upsert(
                        old(config).spec_store().profiles@,
                        q,
                    );
                crate::config::lemma_lookup_after_upsert(old(config).spec_store().profiles@, q);
            }
            let profile = config.get_profile(Some(materialized.as_str()))?;
            Ok(EffectiveProfile { profile_id: Some(materialized), profile, route: Some(route) })
        },
    }
}

/// Decides whether moving to the platform route `desired` must first stop
/// the runtime of another route: `Ok(true)` to stop it, `Ok(false)` when no
/// other route runs, and `ModelRuntimeProfileBusy` while leases are held on
/// it.
pub fn check_selection_switch(
    current: &Option<PlatformRuntimeSelection>,
    desired: &PlatformRuntimeSelection,
    active_leases: usize,
    correlation_id: &str,
) -> (r: Result<bool, AppError>)
    ensures
        !(*current matches Some(c) && !same_selection(c, *desired)) ==> r == Ok::<bool, AppError>(false),
        (*current matches Some(c) && !same_selection(c, *desired)) ==> if active_leases > 0 {
            r matches Err(e) && e.code == AppErrorCode::ModelRuntimeProfileBusy && e.correlation_id@
                == correlation_id@
        } else {
            r == Ok::<bool, AppError>(true)
        },
{
    if !crate::runtime::selection_changes(current, desired) {
        return Ok(false);
    }
    if active_leases > 0 {
        let mut details = concat("active_leases=", decimal_string(active_leases as u64).as_str());
        details.append("; current_profile=");
        match current {
            Some(c) => details.append(c.profile_id.as_str()),
            None => {},
        }
        details.append("; requested_profile=");
        details.append(desired.profile_id.as_str());
        let e = app_error(
            AppErrorCode::ModelRuntimeProfileBusy,
            "Etkin model işlemi sürerken model/runtime değiştirilemez.",
            Some(details),
            Some("Etkin model işlemlerinin tamamlanmasını bekleyin.".to_owned()),
        );
        return Err(AppError { correlation_id: correlation_id.to_owned(), ..e });
    }
    Ok(true)
}

/// Refuses a managed platform runtime whose port answers for a server the
/// application did not start.
pub fn check_runtime_port(
    route: &ResolvedModelRoute,
    status: &ModelStatus,
    profile_id: &str,
    correlation_id: &str,
) -> (r: Result<(), AppError>)
    ensures
        r is Err <==> (route.runtime.managed && status.server_running && !status.started_by_app),
        r matches Err(e) ==> e.code == AppErrorCode::ModelRuntimePortOccupied && e.correlation_id@
            == correlation_id@,
{
    if route.runtime.managed && status.server_running && !status.started_by_app {
        let mut details = concat("profile_id=", profile_id);
        details.append("; base_url=");
        details.append(status.base_url.as_str());
        details.append("; managed=true; started_by_app=false");
        let e = app_error(
            AppErrorCode::ModelRuntimePortOccupied,
            "Seçili managed runtime portu doğrulanmamış başka bir süreç tarafından kullanılıyor.",
            Some(details),
            Some("Çakışan süreci kapatın veya model runtime için başka bir port seçin.".to_owned()),
        );
        return Err(AppError { correlation_id: correlation_id.to_owned(), ..e });
    }
    Ok(())
}

/// The error a failed lease acquisition reports to the request: the request's
/// correlation id and the model-operation code of the failure.
pub fn lease_request_error(error: AppError, correlation_id: &str) -> (r: AppError)
    ensures
        r.code == spec_normalized_code(error.code),
        r.correlation_id@ == correlation_id@,
        r.message == error.message,
        r.recoverable == error.recoverable,
        r.suggested_action == error.suggested_action,
        r.technical_details == error.technical_details,
{
    normalize_model_error(AppError { correlation_id: correlation_id.to_owned(), ..error })
}

} // verus!
