//! Application error values produced by the library.
use vstd::prelude::*;

verus! {

#[derive(PartialEq, Eq, Structural, Clone, Copy, Debug)]
pub enum AppErrorCode {
    FileReadFailed,
    FileWriteFailed,
    ModelBenchmarkFailed,
    ModelBenchmarkRequired,
    ModelBinaryMissing,
    ModelBindingNotFound,
    ModelBindingUnavailable,
    ModelCapabilityMismatch,
    ModelCapabilityUnverified,
    ModelConfigMigrationFailed,
    ModelConfigMissing,
    ModelConnectionReset,
    ModelExternalConsentRequired,
    ModelFileMissing,
    ModelHealthFailed,
    ModelMmprojMissing,
    ModelMmprojPathMissing,
    ModelModelPathMissing,
    ModelNotProductionApproved,
    ModelPortAlreadyInUse,
    ModelPortBlocked,
    ModelPrivacyBlocked,
    ModelProcessIdentityMismatch,
    ModelProcessUnverified,
    ModelProfileNotFound,
    ModelProfileNotManaged,
    ModelRedirectRejected,
    ModelRequestTooLarge,
    ModelResponseEmpty,
    ModelResponseInvalidContentType,
    ModelResponseInvalidJson,
    ModelResponseInvalidSchema,
    ModelResponseReasoningOnly,
    ModelResponseTooLarge,
    ModelRegistryEntryNotFound,
    ModelRuntimePortOccupied,
    ModelRuntimeDraining,
    ModelRuntimeExited,
    ModelRuntimeLeaseAlreadyReleased,
    ModelRuntimeLeaseInvalid,
    ModelRuntimeProfileBusy,
    ModelRuntimeReadinessTimeout,
    ModelRuntimeStartFailed,
    ModelServerPathMissing,
    ModelServerNotRunning,
    ModelServerReadyTimeout,
    ModelServerStopFailed,
    ModelServerStartFailed,
    ModelStartFailed,
    ModelStartTimeout,
    ModelStateAccessFailed,
    ModelTimeout,
    RubricJsonParseFailed,
    RubricSchemaValidationFailed,
    UnknownError,
}

#[derive(Debug)]
pub struct AppError {
    pub code: AppErrorCode,
    pub message: String,
    pub recoverable: bool,
    pub suggested_action: Option<String>,
    pub technical_details: Option<String>,
    pub correlation_id: String,
}

/// A fresh correlation identifier (`uuid::Uuid::new_v4`, rendered with
/// `to_string`). Random: nothing is promised of the value.
#[verifier::external_body]
pub(crate) fn new_correlation_id() -> String {
    uuid::Uuid::new_v4().to_string()
}

/// A recoverable error with a fresh correlation id.
pub fn app_error(
    code: AppErrorCode,
    message: &str,
    technical_details: Option<String>,
    suggested_action: Option<String>,
) -> (e: AppError)
    ensures
        e.code == code,
        e.message@ == message@,
        e.recoverable,
        e.technical_details == technical_details,
        e.suggested_action == suggested_action,
{
    AppError {
        code,
        message: message.to_owned(),
        recoverable: true,
        suggested_action,
        technical_details,
        correlation_id: new_correlation_id(),
    }
}

/// `a` followed by `b`.
pub fn concat(a: &str, b: &str) -> (r: String)
    ensures
        r@ == a@ + b@,
{
    let mut r = a.to_owned();
    r.append(b);
    r
}

/// `a` followed by `b` and `c`.
pub fn concat3(a: &str, b: &str, c: &str) -> (r: String)
    ensures
        r@ == a@ + b@ + c@,
{
    let mut r = a.to_owned();
    r.append(b);
    r.append(c);
    r
}

} // verus!
