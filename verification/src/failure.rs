//! The failures of the server: stable protocol failures and start-up failures.

use vstd::prelude::*;

use crate::client::{ErrorCode, ServerFrame, ServerResponse};
use crate::text::join3;

verus! {

/// Stable failure sent through the database protocol.
#[derive(Debug, PartialEq, Eq)]
pub struct ProtocolFailure {
    /// Stable machine-readable category.
    pub code: ErrorCode,
    /// Human-readable diagnostic.
    pub message: String,
    /// Whether retrying later without changing the request may succeed.
    pub retryable: bool,
}

/// What a protocol failure says.
#[verifier::ext_equal]
pub struct FailureView {
    /// Stable machine-readable category.
    pub code: ErrorCode,
    /// Human-readable diagnostic.
    pub message: Seq<char>,
    /// Whether retrying later may succeed.
    pub retryable: bool,
}

impl View for ProtocolFailure {
    type V = FailureView;

    open spec fn view(&self) -> FailureView {
        FailureView { code: self.code, message: self.message@, retryable: self.retryable }
    }
}

/// A failure that retrying does not mend.
pub open spec fn permanent(code: ErrorCode, message: Seq<char>) -> FailureView {
    FailureView { code, message, retryable: false }
}

/// A failure that a later retry may not meet.
pub open spec fn transient(code: ErrorCode, message: Seq<char>) -> FailureView {
    FailureView { code, message, retryable: true }
}

/// An unexpected internal failure.
pub open spec fn internal_view(message: Seq<char>) -> FailureView {
    permanent(ErrorCode::InternalError, message)
}

/// The failure for a name that no Database has.
pub open spec fn not_found_view(name: Seq<char>) -> FailureView {
    permanent(ErrorCode::DatabaseNotFound, "Database `"@ + name + "` does not exist"@)
}

/// The failure while a Database is closed for a lifecycle operation.
pub open spec fn busy_view() -> FailureView {
    transient(ErrorCode::DatabaseBusy, "Database is unavailable"@)
}

impl ProtocolFailure {
    /// A failure that retrying does not mend.
    pub fn new(code: ErrorCode, message: &str) -> (failure: Self)
        ensures
            failure@ == permanent(code, message@),
    {
        ProtocolFailure { code, message: message.to_owned(), retryable: false }
    }

    /// A failure that a later retry may not meet.
    pub fn retryable(code: ErrorCode, message: &str) -> (failure: Self)
        ensures
            failure@ == transient(code, message@),
    {
        ProtocolFailure { code, message: message.to_owned(), retryable: true }
    }

    /// A copy of the failure.
    pub fn copy(&self) -> (failure: Self)
        ensures
            failure == *self,
    {
        ProtocolFailure {
            code: self.code,
            message: self.message.clone(),
            retryable: self.retryable,
        }
    }
}

/// An unexpected internal failure.
pub fn internal(message: &str) -> (failure: ProtocolFailure)
    ensures
        failure@ == internal_view(message@),
{
    ProtocolFailure::new(ErrorCode::InternalError, message)
}

/// The failure for a name that no Database has.
pub fn not_found(name: &str) -> (failure: ProtocolFailure)
    ensures
        failure@ == not_found_view(name@),
{
    ProtocolFailure::new(
        ErrorCode::DatabaseNotFound,
        join3("Database `", name, "` does not exist").as_str(),
    )
}

/// The failure while a Database is closed for a lifecycle operation.
pub fn busy() -> (failure: ProtocolFailure)
    ensures
        failure@ == busy_view(),
{
    ProtocolFailure::retryable(ErrorCode::DatabaseBusy, "Database is unavailable")
}

/// Whether `frame` answers request `request_id` with the failure `failure`.
pub open spec fn is_failure_frame(
    frame: ServerFrame,
    request_id: u64,
    failure: FailureView,
) -> bool {
    &&& frame.request_id == request_id
    &&& frame.response matches ServerResponse::Error { code, message, retryable }
        && code == failure.code && message@ == failure.message && retryable == failure.retryable
}

/// The frame that answers `request_id` with `error`.
pub fn failure_frame(request_id: u64, error: ProtocolFailure) -> (frame: ServerFrame)
    ensures
        is_failure_frame(frame, request_id, error@),
        frame.request_id == request_id,
        frame.response == (ServerResponse::Error {
            code: error.code,
            message: error.message,
            retryable: error.retryable,
        }),
{
    ServerFrame {
        request_id,
        response: ServerResponse::Error {
            code: error.code,
            message: error.message,
            retryable: error.retryable,
        },
    }
}

/// Configuration or database initialization failure.
#[derive(Debug, PartialEq, Eq)]
pub struct ServerError(pub String);

impl View for ServerError {
    type V = Seq<char>;

    open spec fn view(&self) -> Seq<char> {
        self.0@
    }
}

impl ServerError {
    /// A failure with this diagnostic.
    pub fn new(message: &str) -> (error: Self)
        ensures
            error@ == message@,
    {
        ServerError(message.to_owned())
    }

    /// The diagnostic.
    pub fn text(&self) -> (text: &str)
        ensures
            text@ == self@,
    {
        self.0.as_str()
    }
}

/// A failure keeps the code and the message that it was made with, and says that a retry may help
/// exactly where it was made so.
pub proof fn law_failures_keep_what_they_say(code: ErrorCode, message: Seq<char>)
    ensures
        permanent(code, message).code == code && permanent(code, message).message == message
            && !permanent(code, message).retryable,
        transient(code, message).code == code && transient(code, message).message == message
            && transient(code, message).retryable,
        internal_view(message).code is InternalError && internal_view(message).message == message
            && !internal_view(message).retryable,
        not_found_view(message).code is DatabaseNotFound && not_found_view(message).message
            == "Database `"@ + message + "` does not exist"@ && !not_found_view(message).retryable,
        busy_view().code is DatabaseBusy && busy_view().message == "Database is unavailable"@
            && busy_view().retryable,
{
}

/// A frame that answers with a failure carries the request's identifier and all that the failure
/// says.
pub proof fn law_failure_frames_say_everything(
    frame: ServerFrame,
    request_id: u64,
    failure: FailureView,
)
    requires
        is_failure_frame(frame, request_id, failure),
    ensures
        frame.request_id == request_id,
        frame.response matches ServerResponse::Error { code, message, retryable } && code
            == failure.code && message@ == failure.message && retryable == failure.retryable,
{
}

/// A failure is seen with its code, its message and its word on a retry, and a server error with its
/// text.
pub proof fn law_failures_are_seen_whole(failure: ProtocolFailure, error: ServerError)
    ensures
        failure@.code == failure.code,
        failure@.message == failure.message@,
        failure@.retryable == failure.retryable,
        error@ == error.0@,
{
}

} // verus!
