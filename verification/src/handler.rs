//! The ingestion handler's decisions: which persistence outcomes succeed a
//! request, what the success response says, and the rule that the
//! notification outcome never reaches the response.

use crate::notify::NotifyError;
use vstd::prelude::*;
use vstd::string::*;

verus! {

/// The response body returned for a handled log request.
pub struct LogResponse {
    pub status: String,
    pub message: String,
}

/// A failure that aborts the request with an error response. Only the
/// persistence write can cause one.
#[derive(Clone, Copy, Debug, PartialEq, Eq, Structural)]
pub enum IngestError {
    Internal,
}

impl IngestError {
    /// The HTTP status code that the error maps to: always an internal
    /// server error, with no detail leaked to the caller.
    pub fn http_status(&self) -> (c: u16)
        ensures
            c == 500,
    {
        500
    }
}

/// The status text of a success response.
pub open spec fn spec_success_status() -> Seq<char> {
    "success"@
}

/// The message text of a success response.
pub open spec fn spec_success_message() -> Seq<char> {
    "Log entry written successfully"@
}

/// The handler's outcome as a pair of status and message texts, decided by
/// the persistence outcome alone.
pub open spec fn spec_response(persist_ok: bool) -> Result<(Seq<char>, Seq<char>), IngestError> {
    if persist_ok {
        Ok((spec_success_status(), spec_success_message()))
    } else {
        Err(IngestError::Internal)
    }
}

/// The outcome of a whole request, given the persistence outcome and the
/// notification outcome: the notification is invoked only for its side
/// effect, so the response is the persistence outcome's alone.
pub open spec fn spec_request_outcome(persist_ok: bool, notify: Result<(), NotifyError>) -> Result<
    (Seq<char>, Seq<char>),
    IngestError,
> {
    spec_response(persist_ok)
}

/// Whether the notifier is invoked for a request: exactly when the entry
/// was durably appended. A request that failed to persist sends nothing.
pub open spec fn spec_should_notify(persist_ok: bool) -> bool {
    persist_ok
}

/// Decides whether to invoke the notifier: only after a successful
/// persist, and then always, whatever the notification may later return.
pub fn should_notify(persisted: &Result<(), String>) -> (r: bool)
    ensures
        r == spec_should_notify(persisted is Ok),
{
    persisted.is_ok()
}

/// Law: notification failure never changes the response for a request.
/// Whatever the notification outcome, a request with the same persistence
/// outcome gets the same response.
pub proof fn lemma_notify_never_affects_response(
    persist_ok: bool,
    notify_a: Result<(), NotifyError>,
    notify_b: Result<(), NotifyError>,
)
    ensures
        spec_request_outcome(persist_ok, notify_a) == spec_request_outcome(persist_ok, notify_b),
{
}

/// The log-file path to use: the configured one where present, otherwise
/// the fixed default `server.log`.
pub fn log_path_or_default(configured: Option<String>) -> (r: String)
    ensures
        configured matches Some(p) ==> r@ == p@,
        configured is None ==> r@ == "server.log"@,
{
    match configured {
        Some(p) => p,
        None => String::from_str("server.log"),
    }
}

/// Decides the response from the persistence outcome: success with the
/// fixed body exactly when the entry was durably appended, otherwise an
/// internal error that carries no detail of the failure.
pub fn response_for_persist(persisted: &Result<(), String>) -> (r: Result<LogResponse, IngestError>)
    ensures
        r matches Ok(resp) ==> spec_response(persisted is Ok) == Ok::<_, IngestError>(
            (resp.status@, resp.message@),
        ),
        r is Err ==> spec_response(persisted is Ok) == Err::<(Seq<char>, Seq<char>), _>(
            IngestError::Internal,
        ),
        r is Ok <==> persisted is Ok,
        r matches Err(e) ==> e == IngestError::Internal,
{
    match persisted {
        Ok(_) => {
            Ok(
                LogResponse {
                    status: String::from_str("success"),
                    message: String::from_str("Log entry written successfully"),
                },
            )
        },
        Err(_) => Err(IngestError::Internal),
    }
}

} // verus!
