//! The rules of the HTTP API.

use vstd::prelude::*;
use vstd::string::*;
use vstd::utf8::*;

use crate::config::{constant_time_equal, QueryLimits};
use crate::execution::{fixed_hex, hex16, lowered};
use crate::json::{
    fields_view, json_array, json_count, json_field, json_object, json_text, values_view, Json,
    JsonField, JsonView, NumberView,
};
use crate::package::{
    ImportFailure, LogicalModuleDocument, LogicalPackageDocument, ModuleFault,
};
use crate::server::{counted, Counted, Metrics, SERVER_PROTOCOL_VERSION};
use crate::text::{contains, join2, join3, occurs_at, occurs_in, strip_prefix};
use crate::time::Duration;
use crate::wire::{
    all_convert, converted_fields, fields_map, integer_json, number_range_text, parameters,
    cell_json, law_row_objects_show_their_columns, law_statement_json_loses_nothing,
    parameter_value, query_fields_view, row_map, row_object, same_rows, sorted_fields,
    statement_json, statements, texts_json, texts_to_json, texts_view, value_json, QueryField,
    QueryResult, StatementResult,
};

verus! {

/// A failure of the HTTP API.
#[derive(Debug, PartialEq, Eq)]
pub struct ApiError {
    /// HTTP status.
    pub status: u16,
    /// Stable code.
    pub code: String,
    /// Diagnostic.
    pub message: String,
}

/// What a failure of the HTTP API says.
#[verifier::ext_equal]
pub struct ApiView {
    /// HTTP status.
    pub status: u16,
    /// Stable code.
    pub code: Seq<char>,
    /// Diagnostic.
    pub message: Seq<char>,
}

impl View for ApiError {
    type V = ApiView;

    open spec fn view(&self) -> ApiView {
        ApiView { status: self.status, code: self.code@, message: self.message@ }
    }
}

/// A failure with this status, code and message.
pub open spec fn api_view(status: u16, code: Seq<char>, message: Seq<char>) -> ApiView {
    ApiView { status, code, message }
}

/// A request that cannot be served as it is.
pub open spec fn bad_request_view(message: Seq<char>) -> ApiView {
    api_view(400, "bad_request"@, message)
}

/// An unexpected failure.
pub open spec fn internal_error_view(message: Seq<char>) -> ApiView {
    api_view(500, "internal_error"@, message)
}

impl ApiError {
    /// A failure with this status, code and message.
    pub fn new(status: u16, code: &str, message: &str) -> (error: Self)
        ensures
            error@ == api_view(status, code@, message@),
    {
        ApiError { status, code: code.to_owned(), message: message.to_owned() }
    }

    /// A request that cannot be served as it is.
    pub fn bad_request(message: &str) -> (error: Self)
        ensures
            error@ == bad_request_view(message@),
    {
        ApiError::new(400, "bad_request", message)
    }

    /// An unexpected failure.
    pub fn internal(message: &str) -> (error: Self)
        ensures
            error@ == internal_error_view(message@),
    {
        ApiError::new(500, "internal_error", message)
    }
}

/// Whether an `Authorization` header carries the API key as a bearer token.
pub open spec fn is_authorized(header: Option<&str>, api_key: Seq<char>) -> bool {
    header matches Some(value) && "Bearer "@.is_prefix_of(value@) && value@.skip(7) == api_key
}

/// A header is good exactly where it is the word `Bearer`, one space and the whole key: there is no
/// other key, and no header at all is none.
pub proof fn law_only_the_key_is_authorized(header: &str, api_key: Seq<char>)
    ensures
        is_authorized(Some(header), api_key) <==> header@ == "Bearer "@ + api_key,
        !is_authorized(None, api_key),
{
    reveal_strlit("Bearer ");
    if is_authorized(Some(header), api_key) {
        assert(header@ =~= header@.take(7) + header@.skip(7));
        assert(header@.take(7) =~= "Bearer "@);
    }
    if header@ == "Bearer "@ + api_key {
        assert(header@.subrange(0, 7) =~= "Bearer "@);
        assert(header@.skip(7) =~= api_key);
    }
}

/// Tests whether an `Authorization` header carries the API key as a bearer token.
pub fn authorized(header: Option<&str>, api_key: &str) -> (valid: bool)
    ensures
        valid == is_authorized(header, api_key@),
{
    proof {
        reveal_strlit("Bearer ");
    }
    match header {
        None => false,
        Some(value) => match strip_prefix(value, "Bearer ") {
            None => false,
            Some(supplied) => {
                proof {
                    encode_utf8_decode_utf8(supplied@);
                    encode_utf8_decode_utf8(api_key@);
                }
                constant_time_equal(supplied.as_bytes(), api_key.as_bytes())
            },
        },
    }
}

/// The failure of a request without a valid key.
pub fn unauthorized() -> (error: ApiError)
    ensures
        error@ == api_view(401, "unauthorized"@, "invalid API key"@),
{
    ApiError::new(401, "unauthorized", "invalid API key")
}

/// Admits a request to a protected endpoint exactly where its `Authorization` header carries the
/// API key. Every request is counted, and a refused one as a failure too.
pub fn authenticate(metrics: &mut Metrics, header: Option<&str>, api_key: &str) -> (result: Result<
    (),
    ApiError,
>)
    ensures
        result is Ok <==> is_authorized(header, api_key@),
        result is Err ==> result->Err_0@ == api_view(401, "unauthorized"@, "invalid API key"@),
        *final(metrics) == (if is_authorized(header, api_key@) {
            counted(*old(metrics), Counted::Request)
        } else {
            counted(counted(*old(metrics), Counted::Request), Counted::AuthFailure)
        }),
{
    metrics.count(Counted::Request);
    if !authorized(header, api_key) {
        metrics.count(Counted::AuthFailure);
        return Err(unauthorized());
    }
    Ok(())
}

/// Limits of one request. Each may only lower the configured one.
#[derive(Clone, Copy, Debug, PartialEq, Eq, Structural)]
pub struct RequestLimits {
    /// Maximum result rows.
    pub max_rows: Option<u64>,
    /// Maximum estimated materialized bytes.
    pub max_memory_bytes: Option<u64>,
    /// Maximum evaluator and row-processing work units.
    pub max_operations: Option<u64>,
    /// Maximum relationship candidates examined.
    pub max_traversals: Option<u64>,
    /// Wall-clock timeout.
    pub timeout_ms: Option<u64>,
}

/// What a query runs under.
#[derive(Clone, Copy, Debug, PartialEq, Eq, Structural)]
pub struct Budget {
    /// Its limits.
    pub limits: QueryLimits,
    /// Its wall-clock timeout.
    pub timeout: Duration,
}

/// The limits that a request leaves of the configured ones.
pub open spec fn effective_limits(requested: RequestLimits, configured: QueryLimits) -> QueryLimits {
    QueryLimits {
        max_rows: lowered(configured.max_rows, requested.max_rows),
        max_memory_bytes: lowered(configured.max_memory_bytes, requested.max_memory_bytes),
        max_operations: lowered(configured.max_operations, requested.max_operations),
        max_traversals: lowered(configured.max_traversals, requested.max_traversals),
    }
}

/// The timeout in nanoseconds that a request leaves of the configured one.
pub open spec fn effective_timeout(requested: Option<u64>, configured: nat) -> nat {
    match requested {
        Some(millis) => if millis as nat * 1_000_000 < configured {
            millis as nat * 1_000_000
        } else {
            configured
        },
        None => configured,
    }
}

fn lower(configured: u64, requested: Option<u64>) -> (limit: u64)
    ensures
        limit == lowered(configured, requested),
{
    match requested {
        Some(value) => if value < configured {
            value
        } else {
            configured
        },
        None => configured,
    }
}

impl RequestLimits {
    /// The budget of a request with limits of its own.
    pub fn effective(self, configured: Budget) -> (result: Result<Budget, ApiError>)
        requires
            configured.timeout.normal(),
        ensures
            match result {
                Ok(budget) => {
                    &&& effective_timeout(self.timeout_ms, configured.timeout@) > 0
                    &&& budget.limits == effective_limits(self, configured.limits)
                    &&& budget.timeout@ == effective_timeout(self.timeout_ms, configured.timeout@)
                    &&& budget.timeout.normal()
                },
                Err(error) => effective_timeout(self.timeout_ms, configured.timeout@) == 0
                    && error@ == bad_request_view("timeout_ms must be positive"@),
            },
    {
        let limits = QueryLimits {
            max_rows: lower(configured.limits.max_rows, self.max_rows),
            max_memory_bytes: lower(configured.limits.max_memory_bytes, self.max_memory_bytes),
            max_operations: lower(configured.limits.max_operations, self.max_operations),
            max_traversals: lower(configured.limits.max_traversals, self.max_traversals),
        };
        let timeout = match self.timeout_ms {
            Some(millis) => Duration::from_millis(millis).min(configured.timeout),
            None => configured.timeout,
        };
        if timeout.is_zero() {
            return Err(ApiError::bad_request("timeout_ms must be positive"));
        }
        Ok(Budget { limits, timeout })
    }
}

/// A request never runs under more than the configured budget.
pub proof fn law_requests_only_lower_the_budget(
    requested: RequestLimits,
    configured: QueryLimits,
    timeout: nat,
)
    ensures
        crate::execution::within(effective_limits(requested, configured), configured),
        effective_timeout(requested.timeout_ms, timeout) <= timeout,
{
}

/// Each limit of a request stands where it is lower than the configured one; elsewhere, and where
/// the request names none, the configured one stands. The timeout counts in milliseconds.
pub proof fn law_the_lower_limit_stands(
    requested: RequestLimits,
    configured: QueryLimits,
    timeout: nat,
)
    ensures
        ({
            let limits = effective_limits(requested, configured);
            &&& requested.max_rows is None ==> limits.max_rows == configured.max_rows
            &&& requested.max_rows matches Some(rows) ==> limits.max_rows <= rows && (
            limits.max_rows == rows || limits.max_rows == configured.max_rows)
            &&& requested.max_memory_bytes is None ==> limits.max_memory_bytes
                == configured.max_memory_bytes
            &&& requested.max_memory_bytes matches Some(bytes) ==> limits.max_memory_bytes <= bytes
                && (limits.max_memory_bytes == bytes || limits.max_memory_bytes
                == configured.max_memory_bytes)
            &&& requested.max_operations is None ==> limits.max_operations
                == configured.max_operations
            &&& requested.max_operations matches Some(count) ==> limits.max_operations <= count && (
            limits.max_operations == count || limits.max_operations == configured.max_operations)
            &&& requested.max_traversals is None ==> limits.max_traversals
                == configured.max_traversals
            &&& requested.max_traversals matches Some(count) ==> limits.max_traversals <= count && (
            limits.max_traversals == count || limits.max_traversals == configured.max_traversals)
        }),
        crate::execution::within(effective_limits(requested, configured), configured),
        requested.timeout_ms is None ==> effective_timeout(None, timeout) == timeout,
        requested.timeout_ms matches Some(millis) ==> {
            let span = effective_timeout(Some(millis), timeout);
            &&& span <= timeout && span <= millis * 1_000_000
            &&& span == timeout || span == millis * 1_000_000
        },
{
}

/// A listing shows at most what the request asks for and the configuration allows, and no fewer.
pub proof fn law_listings_are_bounded(requested: Option<u64>, max_rows: u64)
    ensures
        listing_limit(requested, max_rows) <= max_rows,
        requested is None ==> listing_limit(requested, max_rows) == max_rows,
        requested matches Some(wanted) ==> listing_limit(requested, max_rows) <= wanted && (
        listing_limit(requested, max_rows) == wanted || listing_limit(requested, max_rows)
            == max_rows),
{
}

/// How many entries a listing shows.
pub open spec fn listing_limit(requested: Option<u64>, max_rows: u64) -> nat {
    lowered(max_rows, requested) as nat
}

/// How many entries a listing shows; as many as fit in memory where the limit is beyond that.
pub fn effective_limit(requested: Option<u64>, max_rows: u64) -> (limit: usize)
    ensures
        limit == (if listing_limit(requested, max_rows) <= usize::MAX {
            listing_limit(requested, max_rows)
        } else {
            usize::MAX as nat
        }),
{
    let limit: u64 = lower(max_rows, requested);
    if limit > usize::MAX as u64 {
        usize::MAX
    } else {
        limit as usize
    }
}

/// Checks the size of a JSON request body.
pub fn check_query_body(length: usize, maximum: usize) -> (result: Result<(), ApiError>)
    ensures
        result is Ok <==> length <= maximum,
        result is Err ==> result->Err_0@ == api_view(
            413,
            "request_too_large"@,
            "JSON request body exceeds the configured limit"@,
        ),
{
    if length > maximum {
        return Err(
            ApiError::new(
                413,
                "request_too_large",
                "JSON request body exceeds the configured limit",
            ),
        );
    }
    Ok(())
}

/// A query request.
#[derive(Debug, PartialEq, Eq)]
pub struct QueryRequest {
    /// Query text.
    pub query: String,
    /// Named parameters in increasing order of their names.
    pub parameters: Vec<JsonField>,
    /// Whether rows are sent as lines.
    pub stream: bool,
    /// Whether write syntax is rejected.
    pub read_only: bool,
    /// Limits of the request.
    pub limits: Option<RequestLimits>,
}

/// The failure of a read-only request that the engine does not prepare as one.
pub open spec fn read_only_view(error: Seq<char>) -> ApiView {
    api_view(400, "query_error"@, "read-only query required: "@ + error)
}

/// Checks that a read-only request reads only; `prepared` is what came of preparing it so.
pub fn require_read_only(request: &QueryRequest, prepared: &Result<(), String>) -> (result: Result<
    (),
    ApiError,
>)
    ensures
        result is Ok <==> !request.read_only || prepared is Ok,
        result is Err ==> result->Err_0@ == read_only_view(prepared->Err_0@),
{
    if request.read_only {
        match prepared {
            Ok(()) => {},
            Err(error) => {
                return Err(
                    ApiError::new(
                        400,
                        "query_error",
                        join2("read-only query required: ", error.as_str()).as_str(),
                    ),
                );
            },
        }
    }
    Ok(())
}

/// What a request is refused with before it is executed or queued, if it is.
pub open spec fn request_refusal(request: QueryRequest, prepared: Result<(), String>) -> Option<
    ApiView,
> {
    if request.read_only && prepared is Err {
        Some(read_only_view(prepared->Err_0@))
    } else if !all_convert(fields_view(request.parameters@)) {
        Some(bad_request_view(number_range_text()))
    } else {
        None
    }
}

/// A request is admitted exactly where it is no read-only one that the engine does not prepare as
/// such, and each of its parameters stands for a value. A write in a read-only request is told
/// first; both are bad requests.
pub proof fn law_read_only_requests_never_write(
    request: QueryRequest,
    prepared: Result<(), String>,
)
    ensures
        request_refusal(request, prepared) is None <==> (request.read_only ==> prepared is Ok) && (
        forall|i: int|
            0 <= i < request.parameters@.len() ==> parameter_value(
                (#[trigger] request.parameters@[i]).value@,
            ) is Some),
        request_refusal(request, prepared) matches Some(refusal) ==> refusal.status == 400,
        request_refusal(request, prepared) matches Some(refusal) ==> if request.read_only
            && prepared is Err {
            refusal.code == "query_error"@ && refusal.message == "read-only query required: "@
                + prepared->Err_0@
        } else {
            refusal.code == "bad_request"@ && refusal.message
                == "parameter number is outside the supported range"@
        },
{
    let views = fields_view(request.parameters@);
    if all_convert(views) {
        assert forall|i: int| 0 <= i < request.parameters@.len() implies parameter_value(
            (#[trigger] request.parameters@[i]).value@,
        ) is Some by {
            assert(parameter_value(views[i].1) is Some);
        }
    }
}

/// Checks a request and converts its parameters.
pub fn admit_request(request: &QueryRequest, prepared: &Result<(), String>) -> (result: Result<
    Vec<QueryField>,
    ApiError,
>)
    ensures
        match result {
            Ok(values) => request_refusal(*request, *prepared) is None && query_fields_view(values@)
                == converted_fields(fields_view(request.parameters@)),
            Err(error) => request_refusal(*request, *prepared) == Some(error@),
        },
{
    match require_read_only(request, prepared) {
        Err(error) => {
            return Err(error);
        },
        Ok(()) => {},
    }
    match parameters(&request.parameters) {
        Ok(values) => Ok(values),
        Err(message) => Err(ApiError::bad_request(message.as_str())),
    }
}

/// The budget of a request: the configured one where it has no limits of its own.
pub fn request_budget(request: &QueryRequest, configured: Budget) -> (result: Result<
    Budget,
    ApiError,
>)
    requires
        configured.timeout.normal(),
    ensures
        match request.limits {
            None => result == Ok::<Budget, ApiError>(configured),
            Some(limits) => match result {
                Ok(budget) => {
                    &&& effective_timeout(limits.timeout_ms, configured.timeout@) > 0
                    &&& budget.limits == effective_limits(limits, configured.limits)
                    &&& budget.timeout@ == effective_timeout(
                        limits.timeout_ms,
                        configured.timeout@,
                    )
                },
                Err(error) => effective_timeout(limits.timeout_ms, configured.timeout@) == 0
                    && error@ == bad_request_view("timeout_ms must be positive"@),
            },
        },
{
    match request.limits {
        None => Ok(configured),
        Some(limits) => limits.effective(configured),
    }
}

/// A failure of the storage engine, as the HTTP API tells them apart.
#[derive(Debug, PartialEq, Eq)]
pub enum EngineFailure {
    /// A resource limit or a cancellation stopped a query.
    ResourceLimit(String),
    /// A query failed.
    Query(String),
    /// The storage failed.
    Storage(String),
}

/// The text by which a worker reports a failure of the storage engine.
pub open spec fn engine_failure_text(failure: EngineFailure) -> Seq<char> {
    match failure {
        EngineFailure::ResourceLimit(message) => "resource_limit|"@ + message@,
        EngineFailure::Query(message) => "query_error|"@ + message@,
        EngineFailure::Storage(message) => "database_error|"@ + message@,
    }
}

impl EngineFailure {
    /// The text by which a worker reports the failure.
    pub fn text(&self) -> (text: String)
        ensures
            text@ == engine_failure_text(*self),
    {
        match self {
            EngineFailure::ResourceLimit(message) => join2("resource_limit|", message.as_str()),
            EngineFailure::Query(message) => join2("query_error|", message.as_str()),
            EngineFailure::Storage(message) => join2("database_error|", message.as_str()),
        }
    }
}

/// The failure that a worker's report stands for.
pub open spec fn reported_view(message: Seq<char>) -> ApiView {
    if "resource_limit|"@.is_prefix_of(message) {
        api_view(429, "resource_limit"@, message.skip("resource_limit|"@.len() as int))
    } else if "query_error|"@.is_prefix_of(message) {
        api_view(400, "query_error"@, message.skip("query_error|"@.len() as int))
    } else if "database_error|"@.is_prefix_of(message) {
        api_view(500, "database_error"@, message.skip("database_error|"@.len() as int))
    } else {
        internal_error_view(message)
    }
}

/// The failure that a worker's report stands for.
pub fn database_message(message: &str) -> (error: ApiError)
    ensures
        error@ == reported_view(message@),
{
    if let Some(rest) = strip_prefix(message, "resource_limit|") {
        return ApiError::new(429, "resource_limit", rest);
    }
    if let Some(rest) = strip_prefix(message, "query_error|") {
        return ApiError::new(400, "query_error", rest);
    }
    if let Some(rest) = strip_prefix(message, "database_error|") {
        return ApiError::new(500, "database_error", rest);
    }
    ApiError::internal(message)
}

proof fn lemma_behind(prefix: Seq<char>, message: Seq<char>)
    ensures
        prefix.is_prefix_of(prefix + message),
        (prefix + message).skip(prefix.len() as int) == message,
{
    assert((prefix + message).subrange(0, prefix.len() as int) =~= prefix);
    assert((prefix + message).skip(prefix.len() as int) =~= message);
}

/// Each kind of engine failure reaches the client under its own status and code, with its message
/// unchanged.
pub proof fn law_engine_failures_keep_their_kind(failure: EngineFailure)
    ensures
        reported_view(engine_failure_text(failure)) == (match failure {
            EngineFailure::ResourceLimit(message) => api_view(429, "resource_limit"@, message@),
            EngineFailure::Query(message) => api_view(400, "query_error"@, message@),
            EngineFailure::Storage(message) => api_view(500, "database_error"@, message@),
        }),
{
    reveal_strlit("resource_limit|");
    reveal_strlit("query_error|");
    reveal_strlit("database_error|");
    match failure {
        EngineFailure::ResourceLimit(message) => {
            lemma_behind("resource_limit|"@, message@);
        },
        EngineFailure::Query(message) => {
            lemma_behind("query_error|"@, message@);
            let text = "query_error|"@ + message@;
            assert(text[0] == 'q');
            assert("resource_limit|"@[0] == 'r');
        },
        EngineFailure::Storage(message) => {
            lemma_behind("database_error|"@, message@);
            let text = "database_error|"@ + message@;
            assert(text[0] == 'd');
            assert("resource_limit|"@[0] == 'r');
            assert("query_error|"@[0] == 'q');
        },
    }
}

/// A report that names no kind of engine failure is an internal error, with its text unchanged; one
/// that names a kind has that kind and nothing else.
pub proof fn law_other_reports_are_internal(message: Seq<char>)
    ensures
        !"resource_limit|"@.is_prefix_of(message) && !"query_error|"@.is_prefix_of(message)
            && !"database_error|"@.is_prefix_of(message) ==> {
            let told = reported_view(message);
            told.status == 500 && told.code == "internal_error"@ && told.message == message
        },
{
}

/// How a worker ended.
pub enum WorkerEnd<T> {
    /// It returned.
    Returned(Result<T, String>),
    /// It broke down.
    Broken(String),
}

/// What a worker that ended in time gives.
pub fn join_result<T>(end: WorkerEnd<T>) -> (result: Result<T, ApiError>)
    ensures
        match end {
            WorkerEnd::Returned(Ok(value)) => result == Ok::<T, ApiError>(value),
            WorkerEnd::Returned(Err(message)) => result is Err && result->Err_0@ == reported_view(
                message@,
            ),
            WorkerEnd::Broken(error) => result is Err && result->Err_0@ == internal_error_view(
                "query worker failed: "@ + error@,
            ),
        },
{
    match end {
        WorkerEnd::Returned(Ok(value)) => Ok(value),
        WorkerEnd::Returned(Err(message)) => Err(database_message(message.as_str())),
        WorkerEnd::Broken(error) => Err(
            ApiError::internal(join2("query worker failed: ", error.as_str()).as_str()),
        ),
    }
}

/// Whether a worker's report says that it was cancelled.
pub open spec fn says_cancelled(message: Seq<char>) -> bool {
    occurs_in(message, "query execution cancelled"@)
}

/// A report says that its query was cancelled exactly where these words stand somewhere in it.
pub proof fn law_cancellations_are_told_by_their_words(before: Seq<char>, behind: Seq<char>, m: Seq<char>)
    ensures
        says_cancelled(before + "query execution cancelled"@ + behind),
        says_cancelled(m) ==> exists|i: int, j: int|
            0 <= i <= j <= m.len() && #[trigger] m.subrange(i, j) == "query execution cancelled"@,
{
    let words = "query execution cancelled"@;
    let text = before + words + behind;
    let i = before.len() as int;
    assert(text.subrange(i, i + words.len()) =~= words);
    assert(occurs_at(text, words, i));
    if says_cancelled(m) {
        let i = choose|i: int| #[trigger] occurs_at(m, words, i);
        assert(m.subrange(i, i + words.len()) == words);
    }
}

/// What a worker gives that was cancelled at its time limit. One that succeeds nevertheless has
/// succeeded: a committed write is never called a timeout.
pub fn finish_timeout<T>(end: WorkerEnd<T>, message: &str) -> (result: Result<T, ApiError>)
    ensures
        match end {
            WorkerEnd::Returned(Ok(value)) => result == Ok::<T, ApiError>(value),
            WorkerEnd::Returned(Err(report)) => result is Err && result->Err_0@ == (
            if says_cancelled(report@) {
                api_view(408, "query_timeout"@, message@)
            } else {
                reported_view(report@)
            }),
            WorkerEnd::Broken(error) => result is Err && result->Err_0@ == internal_error_view(
                "query worker failed after timeout: "@ + error@,
            ),
        },
{
    match end {
        WorkerEnd::Returned(Ok(value)) => Ok(value),
        WorkerEnd::Returned(Err(report)) => {
            if contains(report.as_str(), "query execution cancelled") {
                return Err(ApiError::new(408, "query_timeout", message));
            }
            Err(database_message(report.as_str()))
        },
        WorkerEnd::Broken(error) => Err(
            ApiError::internal(
                join2("query worker failed after timeout: ", error.as_str()).as_str(),
            ),
        ),
    }
}

/// Which counters the end of a query or transaction moves.
#[derive(Clone, Copy, Debug, PartialEq, Eq, Structural)]
pub enum QueryCount {
    /// None.
    Nothing,
    /// The failed ones.
    Error,
    /// The timed-out ones.
    Timeout,
}

/// Which counters move: a failure in time counts as an error, a cancellation at the time limit as
/// a timeout.
pub fn query_count<T>(end: &WorkerEnd<T>, late: bool) -> (count: QueryCount)
    ensures
        count == (match *end {
            WorkerEnd::Returned(Ok(_)) => QueryCount::Nothing,
            WorkerEnd::Returned(Err(report)) => if !late {
                QueryCount::Error
            } else if says_cancelled(report@) {
                QueryCount::Timeout
            } else {
                QueryCount::Nothing
            },
            WorkerEnd::Broken(_) => if late {
                QueryCount::Nothing
            } else {
                QueryCount::Error
            },
        }),
{
    match end {
        WorkerEnd::Returned(Ok(_)) => QueryCount::Nothing,
        WorkerEnd::Returned(Err(report)) => if !late {
            QueryCount::Error
        } else if contains(report.as_str(), "query execution cancelled") {
            QueryCount::Timeout
        } else {
            QueryCount::Nothing
        },
        WorkerEnd::Broken(_) => if late {
            QueryCount::Nothing
        } else {
            QueryCount::Error
        },
    }
}

/// The counters after a query or transaction has ended.
pub open spec fn end_counted(metrics: Metrics, count: QueryCount) -> Metrics {
    match count {
        QueryCount::Nothing => metrics,
        QueryCount::Error => counted(metrics, Counted::QueryError),
        QueryCount::Timeout => counted(metrics, Counted::Timeout),
    }
}

/// Counts the end of a query or transaction.
pub fn count_end(metrics: &mut Metrics, count: QueryCount)
    ensures
        count is Nothing ==> *final(metrics) == *old(metrics),
        count is Error ==> *final(metrics) == (Metrics {
            query_errors: final(metrics).query_errors,
            ..*old(metrics)
        }) && (old(metrics).query_errors < u64::MAX ==> final(metrics).query_errors == old(
            metrics,
        ).query_errors + 1),
        count is Timeout ==> *final(metrics) == (Metrics {
            timeouts: final(metrics).timeouts,
            ..*old(metrics)
        }) && (old(metrics).timeouts < u64::MAX ==> final(metrics).timeouts == old(metrics).timeouts
            + 1),
        *final(metrics) == end_counted(*old(metrics), count),
{
    match count {
        QueryCount::Nothing => {},
        QueryCount::Error => metrics.count(Counted::QueryError),
        QueryCount::Timeout => metrics.count(Counted::Timeout),
    }
}

/// One field.
pub open spec fn field(name: Seq<char>, value: JsonView) -> (Seq<char>, JsonView) {
    (name, value)
}

/// The object `{"status": status}`.
pub open spec fn status_json(status: Seq<char>) -> JsonView {
    JsonView::Object(seq![field("status"@, JsonView::Text(status))])
}

/// The object `{"status": status}`.
pub fn status_body(status: &str) -> (json: Json)
    ensures
        json@ == status_json(status@),
        json@ matches JsonView::Object(fields) && fields.len() == 1 && fields[0].0
            == "status"@ && fields[0].1 == JsonView::Text(status@),
{
    let mut fields: Vec<JsonField> = Vec::new();
    fields.push(json_field("status", json_text(status)));
    proof {
        assert(fields_view(fields@) =~= status_json(status@)->Object_0);
    }
    json_object(fields)
}

fn counted_body(name: &str, count: u64, status: &str) -> (json: Json)
    ensures
        json@ == JsonView::Object(
            seq![
                field(name@, integer_json(count as int)),
                field("status"@, JsonView::Text(status@)),
            ],
        ),
{
    let mut fields: Vec<JsonField> = Vec::new();
    fields.push(json_field(name, json_count(count)));
    fields.push(json_field("status", json_text(status)));
    proof {
        assert(fields_view(fields@) =~= seq![
            field(name@, integer_json(count as int)),
            field("status"@, JsonView::Text(status@)),
        ]);
    }
    json_object(fields)
}

/// The body of a health response.
pub fn health_body() -> (json: Json)
    ensures
        json@ == JsonView::Object(
            seq![
                field("protocol_version"@, integer_json(SERVER_PROTOCOL_VERSION as int)),
                field("status"@, JsonView::Text("ok"@)),
            ],
        ),
{
    counted_body("protocol_version", SERVER_PROTOCOL_VERSION as u64, "ok")
}

/// The body that confirms a queued statement.
pub fn queued_body(statement_count: u64) -> (json: Json)
    ensures
        json@ == JsonView::Object(
            seq![
                field("statement_count"@, integer_json(statement_count as int)),
                field("status"@, JsonView::Text("queued"@)),
            ],
        ),
{
    counted_body("statement_count", statement_count, "queued")
}

/// The body that confirms a restored snapshot.
pub fn restored_body(bytes: u64) -> (json: Json)
    ensures
        json@ == JsonView::Object(
            seq![
                field("bytes"@, integer_json(bytes as int)),
                field("status"@, JsonView::Text("restored"@)),
            ],
        ),
{
    counted_body("bytes", bytes, "restored")
}

/// The body that confirms an imported package.
pub fn imported_body(modules: u64) -> (json: Json)
    ensures
        json@ == JsonView::Object(
            seq![
                field("modules"@, integer_json(modules as int)),
                field("status"@, JsonView::Text("imported"@)),
            ],
        ),
{
    counted_body("modules", modules, "imported")
}

/// One module of a logical package.
pub open spec fn module_json(module: LogicalModuleDocument) -> JsonView {
    JsonView::Object(
        seq![
            field("path"@, JsonView::Text(module.path@)),
            field("source"@, JsonView::Text(module.source@)),
            field("stable_module_id"@, JsonView::Text(module.stable_module_id@)),
        ],
    )
}

/// The body of a logical package: its configuration stands under `settings`.
pub open spec fn package_json(document: LogicalPackageDocument) -> JsonView {
    JsonView::Object(
        seq![
            field("language_version"@, integer_json(document.language_version as int)),
            field(
                "modules"@,
                JsonView::Array(
                    Seq::new(
                        document.modules@.len(),
                        |i: int| module_json(document.modules@[i]),
                    ),
                ),
            ),
            field("package_version"@, integer_json(document.package_version as int)),
            field("settings"@, JsonView::Text(document.config@)),
        ],
    )
}

/// The JSON of a package keeps it: its versions, its configuration and every module, at its place,
/// with its path, its source and its identity.
pub proof fn law_package_bodies_keep_the_package(document: LogicalPackageDocument)
    ensures
        package_json(document) matches JsonView::Object(fields) && {
            &&& fields.len() == 4
            &&& fields[0] == (
                "language_version"@,
                JsonView::Number(NumberView::Integer(document.language_version as int)),
            )
            &&& fields[1].0 == "modules"@
            &&& fields[1].1 matches JsonView::Array(modules) && modules.len()
                == document.modules@.len() && forall|i: int|
                0 <= i < modules.len() ==> (#[trigger] modules[i] matches JsonView::Object(parts)
                    && parts.len() == 3 && parts[0] == (
                    "path"@,
                    JsonView::Text(document.modules@[i].path@),
                ) && parts[1] == ("source"@, JsonView::Text(document.modules@[i].source@))
                    && parts[2] == (
                    "stable_module_id"@,
                    JsonView::Text(document.modules@[i].stable_module_id@),
                ))
            &&& fields[2] == (
                "package_version"@,
                JsonView::Number(NumberView::Integer(document.package_version as int)),
            )
            &&& fields[3] == ("settings"@, JsonView::Text(document.config@))
        },
{
}

fn module_body(module: &LogicalModuleDocument) -> (json: Json)
    ensures
        json@ == module_json(*module),
{
    let mut fields: Vec<JsonField> = Vec::new();
    fields.push(json_field("path", json_text(module.path.as_str())));
    fields.push(json_field("source", json_text(module.source.as_str())));
    fields.push(json_field("stable_module_id", json_text(module.stable_module_id.as_str())));
    proof {
        assert(fields_view(fields@) =~= module_json(*module)->Object_0);
    }
    json_object(fields)
}

/// The body of a logical package.
pub fn package_body(document: &LogicalPackageDocument) -> (json: Json)
    ensures
        json@ == package_json(*document),
{
    let mut modules: Vec<Json> = Vec::new();
    let mut i: usize = 0;
    while i < document.modules.len()
        invariant
            i <= document.modules@.len(),
            modules@.len() == i,
            forall|k: int| 0 <= k < i ==> #[trigger] modules@[k]@ == module_json(
                document.modules@[k],
            ),
        decreases document.modules.len() - i,
    {
        modules.push(module_body(&document.modules[i]));
        i = i + 1;
    }
    proof {
        assert(values_view(modules@) =~= package_json(*document)->Object_0[1].1->Array_0);
    }
    let mut fields: Vec<JsonField> = Vec::new();
    fields.push(json_field("language_version", json_count(document.language_version as u64)));
    fields.push(json_field("modules", json_array(modules)));
    fields.push(json_field("package_version", json_count(document.package_version as u64)));
    fields.push(json_field("settings", json_text(document.config.as_str())));
    proof {
        assert(fields_view(fields@) =~= package_json(*document)->Object_0);
    }
    json_object(fields)
}

/// The body that hands out a new session's identity.
pub fn session_body(session_id: &str) -> (json: Json)
    ensures
        json@ == JsonView::Object(seq![field("session_id"@, JsonView::Text(session_id@))]),
{
    let mut fields: Vec<JsonField> = Vec::new();
    fields.push(json_field("session_id", json_text(session_id)));
    proof {
        assert(fields_view(fields@) =~= seq![field("session_id"@, JsonView::Text(session_id@))]);
    }
    json_object(fields)
}

/// The JSON shapes of the results of a committed transaction.
pub open spec fn results_json(results: Seq<StatementResult>) -> Seq<JsonView> {
    Seq::new(results.len(), |i: int| statement_json(results[i]))
}

/// The body that confirms a committed transaction, with its ordered results.
pub fn committed_body(results: &Vec<StatementResult>) -> (json: Json)
    ensures
        json@ matches JsonView::Object(fields) && fields.len() == 2 && fields[0].0 == "results"@
            && fields[1] == ("status"@, JsonView::Text("committed"@)) && (
        fields[0].1 matches JsonView::Array(entries) && entries.len() == results@.len()
            && forall|i: int|
            0 <= i < entries.len() ==> #[trigger] entries[i] == statement_json(results@[i])),
        json@ == JsonView::Object(
            seq![
                field("results"@, JsonView::Array(results_json(results@))),
                field("status"@, JsonView::Text("committed"@)),
            ],
        ),
{
    let values = statements(results);
    proof {
        assert(values_view(values@) =~= results_json(results@));
    }
    let mut fields: Vec<JsonField> = Vec::new();
    fields.push(json_field("results", json_array(values)));
    fields.push(json_field("status", json_text("committed")));
    proof {
        assert(fields_view(fields@) =~= seq![
            field("results"@, JsonView::Array(results_json(results@))),
            field("status"@, JsonView::Text("committed"@)),
        ]);
    }
    json_object(fields)
}

/// A committed transaction is answered with one result for each of its statements, in their order,
/// and the answer loses nothing of them: two transactions with the same answer had as many
/// statements, each of the same kind and with the same result.
pub proof fn law_commits_answer_every_statement(a: Seq<StatementResult>, b: Seq<StatementResult>)
    ensures
        results_json(a).len() == a.len(),
        forall|i: int| 0 <= i < a.len() ==> #[trigger] results_json(a)[i] == statement_json(a[i]),
        results_json(a) == results_json(b) ==> a.len() == b.len() && forall|i: int|
            0 <= i < a.len() ==> (match (#[trigger] a[i], b[i]) {
                (StatementResult::Read(x), StatementResult::Read(y)) => same_rows(x, y),
                (StatementResult::Write(x), StatementResult::Write(y)) => x.summary == y.summary
                    && (x.result is Some <==> y.result is Some) && (x.result is Some ==> same_rows(
                    x.result->0,
                    y.result->0,
                )),
                _ => false,
            }),
{
    if results_json(a) == results_json(b) {
        assert(results_json(a).len() == results_json(b).len());
        assert forall|i: int| 0 <= i < a.len() implies (match (#[trigger] a[i], b[i]) {
            (StatementResult::Read(x), StatementResult::Read(y)) => same_rows(x, y),
            (StatementResult::Write(x), StatementResult::Write(y)) => x.summary == y.summary && (
            x.result is Some <==> y.result is Some) && (x.result is Some ==> same_rows(
                x.result->0,
                y.result->0,
            )),
            _ => false,
        }) by {
            assert(results_json(a)[i] == statement_json(a[i]));
            assert(results_json(b)[i] == statement_json(b[i]));
            law_statement_json_loses_nothing(a[i], b[i]);
        }
    }
}

/// The body of a failure.
pub open spec fn error_json(error: ApiView) -> JsonView {
    JsonView::Object(
        seq![
            field(
                "error"@,
                JsonView::Object(
                    seq![
                        field("code"@, JsonView::Text(error.code)),
                        field("message"@, JsonView::Text(error.message)),
                    ],
                ),
            ),
        ],
    )
}

/// The body of a failure.
pub fn error_body(error: &ApiError) -> (json: Json)
    ensures
        json@ == error_json(error@),
{
    let mut detail: Vec<JsonField> = Vec::new();
    detail.push(json_field("code", json_text(error.code.as_str())));
    detail.push(json_field("message", json_text(error.message.as_str())));
    proof {
        assert(fields_view(detail@) =~= error_json(error@)->Object_0[0].1->Object_0);
    }
    let mut fields: Vec<JsonField> = Vec::new();
    fields.push(json_field("error", json_object(detail)));
    proof {
        assert(fields_view(fields@) =~= error_json(error@)->Object_0);
    }
    json_object(fields)
}

/// The body of a failure tells its code and its message, and nothing else.
pub proof fn law_error_bodies_tell_code_and_message(error: ApiView)
    ensures
        error_json(error) matches JsonView::Object(fields) && fields.len() == 1 && fields[0].0
            == "error"@ && (fields[0].1 matches JsonView::Object(detail) && detail.len() == 2
            && detail[0] == ("code"@, JsonView::Text(error.code)) && detail[1] == (
            "message"@,
            JsonView::Text(error.message),
        )),
{
}

/// What the storage engine says of the served database.
#[derive(Clone, Copy, Debug, PartialEq, Eq, Structural)]
pub struct CatalogInfo {
    /// Independent `.ndb` format version.
    pub ndb_format_version: u32,
    /// Backend schema revision.
    pub schema_revision: u32,
    /// Value encoding version.
    pub value_codec_version: u32,
    /// Checksum encoding version.
    pub checksum_codec_version: u32,
    /// Committed write generation.
    pub generation: u64,
    /// Logical checksum.
    pub logical_checksum: u64,
    /// Whether a human-readable source has authority.
    pub source_managed: bool,
    /// Durable Schema count.
    pub schemas: u64,
    /// Durable Node count.
    pub nodes: u64,
    /// Durable Edge count.
    pub edges: u64,
    /// Adjacency entry count.
    pub adjacency: u64,
    /// Property count.
    pub properties: u64,
}

/// The body of a catalog response.
pub open spec fn catalog_json(info: CatalogInfo) -> JsonView {
    JsonView::Object(
        seq![
            field(
                "counts"@,
                JsonView::Object(
                    seq![
                        field("adjacency"@, integer_json(info.adjacency as int)),
                        field("edges"@, integer_json(info.edges as int)),
                        field("nodes"@, integer_json(info.nodes as int)),
                        field("properties"@, integer_json(info.properties as int)),
                        field("schemas"@, integer_json(info.schemas as int)),
                    ],
                ),
            ),
            field(
                "database"@,
                JsonView::Object(
                    seq![
                        field(
                            "checksum_codec_version"@,
                            integer_json(info.checksum_codec_version as int),
                        ),
                        field("generation"@, integer_json(info.generation as int)),
                        field("logical_checksum"@, JsonView::Text(hex16(info.logical_checksum))),
                        field("ndb_format_version"@, integer_json(info.ndb_format_version as int)),
                        field("schema_revision"@, integer_json(info.schema_revision as int)),
                        field("source_managed"@, JsonView::Bool(info.source_managed)),
                        field(
                            "value_codec_version"@,
                            integer_json(info.value_codec_version as int),
                        ),
                    ],
                ),
            ),
            field("protocol_version"@, integer_json(SERVER_PROTOCOL_VERSION as int)),
        ],
    )
}

/// The catalog tells every count and every version under its own name, and so loses nothing: two
/// databases with the same catalog body are told the same.
pub proof fn law_catalog_bodies_tell_everything(info: CatalogInfo)
    ensures
        catalog_json(info) matches JsonView::Object(fields) && fields.len() == 3 && {
            &&& fields[0].0 == "counts"@
            &&& fields[0].1 matches JsonView::Object(counts) && {
                &&& counts.len() == 5
                &&& counts.contains(("schemas"@, number_json(info.schemas as int)))
                &&& counts.contains(("nodes"@, number_json(info.nodes as int)))
                &&& counts.contains(("edges"@, number_json(info.edges as int)))
                &&& counts.contains(("adjacency"@, number_json(info.adjacency as int)))
                &&& counts.contains(("properties"@, number_json(info.properties as int)))
            }
            &&& fields[1].0 == "database"@
            &&& fields[1].1 matches JsonView::Object(database) && {
                &&& database.len() == 7
                &&& database.contains(
                    ("ndb_format_version"@, number_json(info.ndb_format_version as int)),
                )
                &&& database.contains(("schema_revision"@, number_json(info.schema_revision as int)))
                &&& database.contains(
                    ("value_codec_version"@, number_json(info.value_codec_version as int)),
                )
                &&& database.contains(
                    ("checksum_codec_version"@, number_json(info.checksum_codec_version as int)),
                )
                &&& database.contains(("generation"@, number_json(info.generation as int)))
                &&& database.contains(
                    ("logical_checksum"@, JsonView::Text(hex16(info.logical_checksum))),
                )
                &&& database.contains(("source_managed"@, JsonView::Bool(info.source_managed)))
            }
            &&& fields[2] == ("protocol_version"@, number_json(1))
        },
{
    let fields = catalog_json(info)->Object_0;
    let counts = fields[0].1->Object_0;
    assert(counts.contains(counts[0]) && counts.contains(counts[1]) && counts.contains(counts[2])
        && counts.contains(counts[3]) && counts.contains(counts[4]));
    let database = fields[1].1->Object_0;
    assert(database.contains(database[0]) && database.contains(database[1]) && database.contains(
        database[2],
    ) && database.contains(database[3]) && database.contains(database[4]) && database.contains(
        database[5],
    ) && database.contains(database[6]));
}

/// A whole number in JSON.
pub open spec fn number_json(number: int) -> JsonView {
    JsonView::Number(NumberView::Integer(number))
}

/// The body of a catalog response.
pub fn catalog_body(info: &CatalogInfo) -> (json: Json)
    ensures
        json@ == catalog_json(*info),
{
    let mut counts: Vec<JsonField> = Vec::new();
    counts.push(json_field("adjacency", json_count(info.adjacency)));
    counts.push(json_field("edges", json_count(info.edges)));
    counts.push(json_field("nodes", json_count(info.nodes)));
    counts.push(json_field("properties", json_count(info.properties)));
    counts.push(json_field("schemas", json_count(info.schemas)));
    proof {
        assert(fields_view(counts@) =~= catalog_json(*info)->Object_0[0].1->Object_0);
    }
    let mut database: Vec<JsonField> = Vec::new();
    database.push(
        json_field("checksum_codec_version", json_count(info.checksum_codec_version as u64)),
    );
    database.push(json_field("generation", json_count(info.generation)));
    database.push(json_field("logical_checksum", Json::Text(fixed_hex(info.logical_checksum))));
    database.push(json_field("ndb_format_version", json_count(info.ndb_format_version as u64)));
    database.push(json_field("schema_revision", json_count(info.schema_revision as u64)));
    database.push(json_field("source_managed", Json::Bool(info.source_managed)));
    database.push(json_field("value_codec_version", json_count(info.value_codec_version as u64)));
    proof {
        assert(fields_view(database@) =~= catalog_json(*info)->Object_0[1].1->Object_0);
    }
    let mut fields: Vec<JsonField> = Vec::new();
    fields.push(json_field("counts", json_object(counts)));
    fields.push(json_field("database", json_object(database)));
    fields.push(json_field("protocol_version", json_count(SERVER_PROTOCOL_VERSION as u64)));
    proof {
        assert(fields_view(fields@) =~= catalog_json(*info)->Object_0);
    }
    json_object(fields)
}

/// The first `limit` entries, or all where there are no more.
pub open spec fn shown(entries: Seq<Json>, limit: nat) -> Seq<Json> {
    if entries.len() > limit {
        entries.take(limit as int)
    } else {
        entries
    }
}

/// A listing shows as many entries as the limit allows and there are, from the first on and in
/// their order.
pub proof fn law_listings_show_the_first_entries(entries: Seq<Json>, limit: nat)
    ensures
        shown(entries, limit).len() <= limit,
        shown(entries, limit).len() == limit || shown(entries, limit).len() == entries.len(),
        shown(entries, limit).len() <= entries.len(),
        forall|i: int|
            0 <= i < shown(entries, limit).len() ==> #[trigger] shown(entries, limit)[i]
                == entries[i],
{
}

/// Shows no more entries than the limit allows and returns whether some were left out.
pub fn truncate_entries(entries: &mut Vec<Json>, limit: usize) -> (truncated: bool)
    ensures
        truncated == (old(entries)@.len() > limit),
        final(entries)@ == shown(old(entries)@, limit as nat),
{
    let truncated: bool = entries.len() > limit;
    if truncated {
        entries.truncate(limit);
        proof {
            assert(entries@ =~= old(entries)@.take(limit as int));
        }
    }
    truncated
}

/// The body of a listing of Schemas.
pub fn schema_body(schemas: Vec<Json>, limit: usize) -> (json: Json)
    ensures
        json@ == JsonView::Object(
            seq![
                field("returned"@, integer_json(shown(schemas@, limit as nat).len() as int)),
                field("schemas"@, JsonView::Array(values_view(shown(schemas@, limit as nat)))),
                field("truncated"@, JsonView::Bool(schemas@.len() > limit)),
            ],
        ),
{
    let ghost all = schemas@;
    let mut entries = schemas;
    let truncated: bool = truncate_entries(&mut entries, limit);
    let mut fields: Vec<JsonField> = Vec::new();
    fields.push(json_field("returned", json_count(entries.len() as u64)));
    fields.push(json_field("schemas", json_array(entries)));
    fields.push(json_field("truncated", Json::Bool(truncated)));
    proof {
        assert(fields_view(fields@) =~= seq![
            field("returned"@, integer_json(shown(all, limit as nat).len() as int)),
            field("schemas"@, JsonView::Array(values_view(shown(all, limit as nat)))),
            field("truncated"@, JsonView::Bool(all.len() > limit)),
        ]);
    }
    json_object(fields)
}

/// The body of a listing of unresolved entries.
pub fn unresolved_body(unresolved: Vec<Json>, limit: usize) -> (json: Json)
    ensures
        json@ == JsonView::Object(
            seq![
                field("entries"@, JsonView::Array(values_view(shown(unresolved@, limit as nat)))),
                field("returned"@, integer_json(shown(unresolved@, limit as nat).len() as int)),
                field("truncated"@, JsonView::Bool(unresolved@.len() > limit)),
            ],
        ),
{
    let ghost all = unresolved@;
    let mut entries = unresolved;
    let truncated: bool = truncate_entries(&mut entries, limit);
    let count: u64 = entries.len() as u64;
    let mut fields: Vec<JsonField> = Vec::new();
    fields.push(json_field("entries", json_array(entries)));
    fields.push(json_field("returned", json_count(count)));
    fields.push(json_field("truncated", Json::Bool(truncated)));
    proof {
        assert(fields_view(fields@) =~= seq![
            field("entries"@, JsonView::Array(values_view(shown(all, limit as nat)))),
            field("returned"@, integer_json(shown(all, limit as nat).len() as int)),
            field("truncated"@, JsonView::Bool(all.len() > limit)),
        ]);
    }
    json_object(fields)
}

/// The entry of a Schema in a listing.
pub fn schema_entry(constraints: Json, identity: Json, properties: Vec<Json>, state: Json) -> (json:
    Json)
    ensures
        json@ == JsonView::Object(
            seq![
                field("constraints"@, constraints@),
                field("identity"@, identity@),
                field("properties"@, JsonView::Array(values_view(properties@))),
                field("state"@, state@),
            ],
        ),
{
    let ghost expected = seq![
        field("constraints"@, constraints@),
        field("identity"@, identity@),
        field("properties"@, JsonView::Array(values_view(properties@))),
        field("state"@, state@),
    ];
    let mut fields: Vec<JsonField> = Vec::new();
    fields.push(json_field("constraints", constraints));
    fields.push(json_field("identity", identity));
    fields.push(json_field("properties", json_array(properties)));
    fields.push(json_field("state", state));
    proof {
        assert(fields_view(fields@) =~= expected);
    }
    json_object(fields)
}

/// The entry of a property in a Schema.
pub fn property_entry(name: Json, property_type: Json) -> (json: Json)
    ensures
        json@ == JsonView::Object(seq![field("name"@, name@), field("type"@, property_type@)]),
{
    let ghost expected = seq![field("name"@, name@), field("type"@, property_type@)];
    let mut fields: Vec<JsonField> = Vec::new();
    fields.push(json_field("name", name));
    fields.push(json_field("type", property_type));
    proof {
        assert(fields_view(fields@) =~= expected);
    }
    json_object(fields)
}

/// The entry of an unresolved identity in a listing.
pub fn unresolved_entry(identity: Json, internal_id: Json, kind: Json, state: Json) -> (json: Json)
    ensures
        json@ == JsonView::Object(
            seq![
                field("identity"@, identity@),
                field("internal_id"@, internal_id@),
                field("kind"@, kind@),
                field("state"@, state@),
            ],
        ),
{
    let ghost expected = seq![
        field("identity"@, identity@),
        field("internal_id"@, internal_id@),
        field("kind"@, kind@),
        field("state"@, state@),
    ];
    let mut fields: Vec<JsonField> = Vec::new();
    fields.push(json_field("identity", identity));
    fields.push(json_field("internal_id", internal_id));
    fields.push(json_field("kind", kind));
    fields.push(json_field("state", state));
    proof {
        assert(fields_view(fields@) =~= expected);
    }
    json_object(fields)
}

/// Whether a line is the JSON object of a row.
pub open spec fn is_row_line(line: Json, result: QueryResult, i: int) -> bool {
    line@ matches JsonView::Object(fields) && sorted_fields(fields) && fields_map(fields)
        == row_map(result.columns@, result.rows@[i]@, result.columns@.len())
}

/// The first line of a streamed read.
pub open spec fn stream_header_json(result: QueryResult) -> JsonView {
    JsonView::Object(
        seq![
            field("columns"@, texts_json(texts_view(result.columns@))),
            field("ordered"@, JsonView::Bool(result.ordered)),
        ],
    )
}

/// A streamed read begins with its columns, in their order, and its ordering guarantee.
pub proof fn law_streams_begin_with_their_columns(result: QueryResult)
    ensures
        stream_header_json(result) matches JsonView::Object(fields) && fields.len() == 2
            && fields[0].0 == "columns"@ && (fields[0].1 matches JsonView::Array(names)
            && names.len() == result.columns@.len() && forall|k: int|
            0 <= k < names.len() ==> #[trigger] names[k] == JsonView::Text(result.columns@[k]@))
            && fields[1] == ("ordered"@, JsonView::Bool(result.ordered)),
{
}

/// Each row's line of a streamed read names every column once, with the cell of the last column of
/// that name, and nothing else.
#[verifier::spinoff_prover]
#[verifier::rlimit(50)]
pub proof fn law_streams_show_every_row(result: QueryResult, line: Json, i: int)
    requires
        is_row_line(line, result, i),
    ensures
        line@ matches JsonView::Object(fields) && {
            &&& forall|k: int|
                0 <= k < result.columns@.len() ==> exists|f: int|
                    0 <= f < fields.len() && (#[trigger] fields[f]).0 == (
                    #[trigger] result.columns@[k])@
            &&& forall|f: int|
                0 <= f < fields.len() ==> exists|k: int|
                    0 <= k < result.columns@.len() && (#[trigger] result.columns@[k])@ == (
                    #[trigger] fields[f]).0 && fields[f].1 == cell_json(result.rows@[i]@, k) && (
                    forall|later: int|
                        k < later < result.columns@.len() ==> (#[trigger] result.columns@[later])@
                            != fields[f].0)
            &&& forall|f: int, g: int|
                #![trigger fields[f], fields[g]]
                0 <= f < g < fields.len() ==> fields[f].0 != fields[g].0
        },
{
    let columns = result.columns@;
    let row = result.rows@[i]@;
    let fields = line@->Object_0;
    law_row_objects_show_their_columns(columns, row, fields);
    assert forall|f: int| 0 <= f < fields.len() implies exists|k: int|
        0 <= k < columns.len() && (#[trigger] columns[k])@ == (#[trigger] fields[f]).0
            && fields[f].1 == cell_json(row, k) && (forall|later: int|
            k < later < columns.len() ==> (#[trigger] columns[later])@ != fields[f].0) by {
        let k = choose|k: int|
            0 <= k < columns.len() && (#[trigger] columns[k])@ == fields[f].0 && fields[f].1 == (if k
                < row.len() {
                value_json(row[k]@)
            } else {
                JsonView::Null
            }) && (forall|later: int|
                k < later < columns.len() ==> (#[trigger] columns[later])@ != fields[f].0);
        assert(fields[f].1 == cell_json(row, k));
        assert(columns[k]@ == fields[f].0);
    }
}

/// The lines of a streamed read: its columns, then its rows.
pub fn stream_lines(result: &QueryResult) -> (lines: Vec<Json>)
    ensures
        lines@.len() == result.rows@.len() + 1,
        lines@[0]@ == stream_header_json(*result),
        forall|i: int|
            0 <= i < result.rows@.len() ==> is_row_line(#[trigger] lines@[i + 1], *result, i),
{
    let mut fields: Vec<JsonField> = Vec::new();
    fields.push(json_field("columns", texts_to_json(&result.columns)));
    fields.push(json_field("ordered", Json::Bool(result.ordered)));
    proof {
        assert(fields_view(fields@) =~= stream_header_json(*result)->Object_0);
    }
    let mut lines: Vec<Json> = Vec::new();
    lines.push(json_object(fields));
    let mut i: usize = 0;
    while i < result.rows.len()
        invariant
            i <= result.rows@.len(),
            lines@.len() == i + 1,
            lines@[0]@ == stream_header_json(*result),
            forall|k: int| 0 <= k < i ==> is_row_line(#[trigger] lines@[k + 1], *result, k),
        decreases result.rows.len() - i,
    {
        let ghost before = lines@;
        lines.push(row_object(&result.columns, &result.rows[i]));
        proof {
            assert forall|k: int| 0 <= k < i + 1 implies is_row_line(
                #[trigger] lines@[k + 1],
                *result,
                k,
            ) by {
                if k < i {
                    assert(lines@[k + 1] == before[k + 1]);
                }
            }
        }
        i = i + 1;
    }
    lines
}

/// Checks the size of a logical package's body.
pub fn check_package_body(length: usize, maximum: usize) -> (result: Result<(), ApiError>)
    ensures
        result is Ok <==> length <= maximum,
        result is Err ==> result->Err_0@ == api_view(
            413,
            "request_too_large"@,
            "logical package exceeds the configured JSON body limit"@,
        ),
{
    if length > maximum {
        return Err(
            ApiError::new(
                413,
                "request_too_large",
                "logical package exceeds the configured JSON body limit",
            ),
        );
    }
    Ok(())
}

/// What a package is refused with for its versions, if it is.
pub open spec fn version_refusal(document: LogicalPackageDocument) -> Option<ApiView> {
    if document.package_version != 1 {
        Some(
            api_view(
                422,
                "unsupported_logical_package"@,
                "logical package_version must be 1"@,
            ),
        )
    } else if document.language_version != 1 {
        Some(
            api_view(
                422,
                "unsupported_logical_package"@,
                "logical language_version must be 1"@,
            ),
        )
    } else {
        None
    }
}

/// A package is admitted exactly where both of its versions are 1; the package's own is told
/// first.
pub proof fn law_only_known_versions_are_admitted(document: LogicalPackageDocument)
    ensures
        version_refusal(document) is None <==> document.package_version == 1
            && document.language_version == 1,
        version_refusal(document) matches Some(refusal) ==> refusal.status == 422 && refusal.code
            == "unsupported_logical_package"@ && refusal.message == (if document.package_version
            != 1 {
            "logical package_version must be 1"@
        } else {
            "logical language_version must be 1"@
        }),
{
}

/// Admits a package of the known versions.
pub fn admit_versions(document: &LogicalPackageDocument) -> (result: Result<(), ApiError>)
    ensures
        version_refusal(*document) == (match result {
            Ok(()) => None,
            Err(error) => Some(error@),
        }),
{
    if document.package_version != 1 {
        return Err(
            ApiError::new(
                422,
                "unsupported_logical_package",
                "logical package_version must be 1",
            ),
        );
    }
    if document.language_version != 1 {
        return Err(
            ApiError::new(
                422,
                "unsupported_logical_package",
                "logical language_version must be 1",
            ),
        );
    }
    Ok(())
}

/// The failure of an import.
pub open spec fn api_import_view(failure: ImportFailure<ApiError>) -> ApiView {
    match failure {
        ImportFailure::Internal(message) => internal_error_view(message@),
        ImportFailure::Rejected(message) => api_view(422, "invalid_logical_package"@, message@),
        ImportFailure::Incompatible(message) => api_view(422, "incompatible_snapshot"@, message@),
        ImportFailure::Install(error) => error@,
        ImportFailure::Module { fault, path } => bad_request_view(
            match fault {
                ModuleFault::Path => "invalid logical module path `"@ + path@ + "`"@,
                ModuleFault::Repeated => "logical package repeats a module path"@,
                ModuleFault::Malformed => "invalid stable_module_id for "@ + path@,
                ModuleFault::Different => "stable_module_id does not match nostdb.toml for "@
                    + path@,
            },
        ),
    }
}

/// A failed import is answered by its cause: a faulty module is a bad request, a package that does
/// not load or compile and a candidate that cannot be used are unprocessable, the file system's
/// failures are the server's, and a failed replacement is told as it is.
pub proof fn law_import_failures_are_answered_by_cause(failure: ImportFailure<ApiError>)
    ensures
        match failure {
            ImportFailure::Internal(message) => api_import_view(failure) == (ApiView {
                status: 500,
                code: "internal_error"@,
                message: message@,
            }),
            ImportFailure::Rejected(message) => api_import_view(failure) == (ApiView {
                status: 422,
                code: "invalid_logical_package"@,
                message: message@,
            }),
            ImportFailure::Incompatible(message) => api_import_view(failure) == (ApiView {
                status: 422,
                code: "incompatible_snapshot"@,
                message: message@,
            }),
            ImportFailure::Install(error) => api_import_view(failure) == error@,
            ImportFailure::Module { fault, path } => api_import_view(failure).status == 400
                && api_import_view(failure).code == "bad_request"@ && api_import_view(
                failure,
            ).message == (match fault {
                ModuleFault::Path => "invalid logical module path `"@ + path@ + "`"@,
                ModuleFault::Repeated => "logical package repeats a module path"@,
                ModuleFault::Malformed => "invalid stable_module_id for "@ + path@,
                ModuleFault::Different => "stable_module_id does not match nostdb.toml for "@
                    + path@,
            }),
        },
{
}

/// The failure of an import.
pub fn api_import_failure(failure: ImportFailure<ApiError>) -> (error: ApiError)
    ensures
        error@ == api_import_view(failure),
{
    match failure {
        ImportFailure::Internal(message) => ApiError::internal(message.as_str()),
        ImportFailure::Rejected(message) => ApiError::new(
            422,
            "invalid_logical_package",
            message.as_str(),
        ),
        ImportFailure::Incompatible(message) => ApiError::new(
            422,
            "incompatible_snapshot",
            message.as_str(),
        ),
        ImportFailure::Install(error) => error,
        ImportFailure::Module { fault, path } => match fault {
            ModuleFault::Path => ApiError::bad_request(
                join3("invalid logical module path `", path.as_str(), "`").as_str(),
            ),
            ModuleFault::Repeated => ApiError::bad_request("logical package repeats a module path"),
            ModuleFault::Malformed => ApiError::bad_request(
                join2("invalid stable_module_id for ", path.as_str()).as_str(),
            ),
            ModuleFault::Different => ApiError::bad_request(
                join2(
                    "stable_module_id does not match nostdb.toml for ",
                    path.as_str(),
                ).as_str(),
            ),
        },
    }
}

/// The failure of a logical export.
pub fn export_failure(message: &str) -> (error: ApiError)
    ensures
        error@ == api_view(422, "logical_export_failed"@, message@),
{
    ApiError::new(422, "logical_export_failed", message)
}

/// A refusal is seen with its status, its code and its message.
pub proof fn law_refusals_are_seen_whole(error: ApiError)
    ensures
        error@.status == error.status,
        error@.code == error.code@,
        error@.message == error.message@,
{
}

} // verus!
