//! Running queries: limits, parameters, the engine's failures, and what inspection shows.

use vstd::prelude::*;

use crate::catalog::{is_summary_of, CatalogDatabase};
use crate::client::{ClientRequest, DatabaseDetails, ErrorCode, WireQueryLimits};
use crate::config::QueryLimits;
use crate::failure::{permanent, transient, FailureView, ProtocolFailure};
use crate::json::{fields_view, JsonField, JsonView};
use crate::protocol::{
    accepted, breaks_read_only, mutating_view, ConnectionState, QueuedStatement, Step, Work,
};
use crate::text::{digit_char, join2, number_string};
use crate::wire::{
    all_convert, converted_fields, number_range_text, parameter_value, parameters,
    query_fields_view, QueryField,
};

verus! {

/// The lower of a default and a requested limit.
pub open spec fn lowered(default: u64, requested: Option<u64>) -> u64 {
    match requested {
        Some(value) => if value < default {
            value
        } else {
            default
        },
        None => default,
    }
}

/// The limits that a client's request leaves of the defaults.
pub open spec fn lowered_limits(
    defaults: QueryLimits,
    requested: Option<WireQueryLimits>,
) -> QueryLimits {
    match requested {
        None => defaults,
        Some(requested) => QueryLimits {
            max_rows: lowered(defaults.max_rows, requested.max_rows),
            max_memory_bytes: lowered(defaults.max_memory_bytes, requested.max_memory_bytes),
            max_operations: lowered(defaults.max_operations, requested.max_operations),
            max_traversals: lowered(defaults.max_traversals, requested.max_traversals),
        },
    }
}

fn lower(default: u64, requested: Option<u64>) -> (limit: u64)
    ensures
        limit == lowered(default, requested),
{
    match requested {
        Some(value) => if value < default {
            value
        } else {
            default
        },
        None => default,
    }
}

/// Lowers the default limits by a client's.
pub fn lower_limits(defaults: QueryLimits, requested: Option<WireQueryLimits>) -> (limits:
    QueryLimits)
    ensures
        limits == lowered_limits(defaults, requested),
{
    match requested {
        None => defaults,
        Some(requested) => QueryLimits {
            max_rows: lower(defaults.max_rows, requested.max_rows),
            max_memory_bytes: lower(defaults.max_memory_bytes, requested.max_memory_bytes),
            max_operations: lower(defaults.max_operations, requested.max_operations),
            max_traversals: lower(defaults.max_traversals, requested.max_traversals),
        },
    }
}

/// Whether no limit of `a` is above that of `b`.
pub open spec fn within(a: QueryLimits, b: QueryLimits) -> bool {
    &&& a.max_rows <= b.max_rows
    &&& a.max_memory_bytes <= b.max_memory_bytes
    &&& a.max_operations <= b.max_operations
    &&& a.max_traversals <= b.max_traversals
}

/// A client can lower the server's limits and never raise one.
pub proof fn law_clients_only_lower_limits(
    defaults: QueryLimits,
    requested: Option<WireQueryLimits>,
)
    ensures
        within(lowered_limits(defaults, requested), defaults),
{
}

/// Each limit of a client stands where it is lower than the server's; elsewhere, and where the
/// client names none, the server's stands.
pub proof fn law_the_lower_limit_counts(
    defaults: QueryLimits,
    requested: Option<WireQueryLimits>,
)
    ensures
        ({
            let limits = lowered_limits(defaults, requested);
            &&& requested is None ==> limits == defaults
            &&& requested matches Some(wanted) ==> {
                &&& limits.max_rows == smaller(defaults.max_rows, wanted.max_rows)
                &&& limits.max_memory_bytes == smaller(
                    defaults.max_memory_bytes,
                    wanted.max_memory_bytes,
                )
                &&& limits.max_operations == smaller(defaults.max_operations, wanted.max_operations)
                &&& limits.max_traversals == smaller(defaults.max_traversals, wanted.max_traversals)
            }
        }),
        forall|default: u64, wanted: u64| #[trigger]
            lowered(default, Some(wanted)) <= default && lowered(default, Some(wanted)) <= wanted
                && (lowered(default, Some(wanted)) == default || lowered(default, Some(wanted))
                == wanted),
        forall|default: u64| #[trigger] lowered(default, None) == default,
{
}

/// The smaller of a limit and a wanted one, if there is one.
pub open spec fn smaller(limit: u64, wanted: Option<u64>) -> int {
    if wanted is Some && wanted->0 <= limit {
        wanted->0 as int
    } else {
        limit as int
    }
}

/// A failure of the storage engine.
#[derive(Debug, PartialEq, Eq)]
pub enum DatabaseError {
    /// A query failed.
    Query {
        /// Whether a resource limit or a cancellation stopped it.
        resource_limit: bool,
        /// What the engine says.
        message: String,
    },
    /// The storage failed.
    Storage {
        /// Whether another owner holds it.
        busy: bool,
        /// What the engine says.
        message: String,
    },
}

/// The protocol failure for a failure of the storage engine; `cancelled` says whether the client
/// cancelled the request.
pub open spec fn database_failure_view(error: DatabaseError, cancelled: bool) -> FailureView {
    match error {
        DatabaseError::Query { resource_limit, message } => if !resource_limit {
            permanent(ErrorCode::QueryError, message@)
        } else if cancelled {
            permanent(ErrorCode::Cancelled, message@)
        } else {
            permanent(ErrorCode::ResourceLimit, message@)
        },
        DatabaseError::Storage { busy, message } => if busy {
            transient(ErrorCode::DatabaseBusy, message@)
        } else {
            permanent(ErrorCode::InternalError, message@)
        },
    }
}

/// A failure of the storage engine keeps its message. A query that a limit stopped is told apart
/// from one that its client cancelled, and both from one that is wrong; only a Database that another
/// owner holds is worth a retry.
pub proof fn law_engine_failures_are_told_apart(error: DatabaseError, cancelled: bool)
    ensures
        ({
            let told = database_failure_view(error, cancelled);
            &&& error matches DatabaseError::Query { resource_limit, message } ==> {
                &&& told.message == message@
                &&& told.code is QueryError <==> !resource_limit
                &&& told.code is Cancelled <==> resource_limit && cancelled
                &&& told.code is ResourceLimit <==> resource_limit && !cancelled
                &&& !told.retryable
            }
            &&& error matches DatabaseError::Storage { busy, message } ==> {
                &&& told.message == message@
                &&& told.code is DatabaseBusy <==> busy
                &&& told.code is InternalError <==> !busy
                &&& told.retryable <==> busy
            }
        }),
{
}

/// The protocol failure for a failure of the storage engine.
pub fn database_failure(error: DatabaseError, cancelled: bool) -> (failure: ProtocolFailure)
    ensures
        failure@ == database_failure_view(error, cancelled),
{
    match error {
        DatabaseError::Query { resource_limit, message } => if !resource_limit {
            ProtocolFailure::new(ErrorCode::QueryError, message.as_str())
        } else if cancelled {
            ProtocolFailure::new(ErrorCode::Cancelled, message.as_str())
        } else {
            ProtocolFailure::new(ErrorCode::ResourceLimit, message.as_str())
        },
        DatabaseError::Storage { busy, message } => if busy {
            ProtocolFailure::retryable(ErrorCode::DatabaseBusy, message.as_str())
        } else {
            ProtocolFailure::new(ErrorCode::InternalError, message.as_str())
        },
    }
}

/// What a query is executed with.
pub struct PreparedQuery {
    /// Its parameters.
    pub parameters: Vec<QueryField>,
    /// Its limits.
    pub limits: QueryLimits,
}

/// The failure for a parameter that no query value holds.
pub open spec fn parameter_view() -> FailureView {
    permanent(ErrorCode::QueryError, number_range_text())
}

/// What a query is refused with before its Database is looked at, if it is; `mutating` says
/// whether the query is a write.
pub open spec fn execute_refusal(
    read_only: bool,
    mutating: bool,
    parameters: Seq<(Seq<char>, JsonView)>,
) -> Option<FailureView> {
    if read_only && mutating {
        Some(mutating_view())
    } else if !all_convert(parameters) {
        Some(parameter_view())
    } else {
        None
    }
}

/// A query is prepared exactly where it does not write against its client's word and each of its
/// parameters stands for a value; a write against the client's word is told first.
pub proof fn law_queries_are_prepared_on_their_terms(
    read_only: bool,
    mutating: bool,
    parameters: Seq<(Seq<char>, JsonView)>,
)
    ensures
        execute_refusal(read_only, mutating, parameters) is None <==> !(read_only && mutating) && (
        forall|i: int|
            0 <= i < parameters.len() ==> parameter_value((#[trigger] parameters[i]).1) is Some),
        execute_refusal(read_only, mutating, parameters) matches Some(failure) ==> failure.code
            is QueryError && !failure.retryable && failure.message == (if read_only && mutating {
            "read_only request rejected a mutating query"@
        } else {
            "parameter number is outside the supported range"@
        }),
{
}

/// A request that its client calls read-only never leads to a write: where the query is a write, its
/// execution is refused, and where it is queued, so is the commit of the transaction.
pub proof fn law_read_only_requests_are_never_executed_as_writes(
    before: ConnectionState,
    after: ConnectionState,
    request: ClientRequest,
    step: Step,
    mutating: Seq<bool>,
)
    requires
        request is Query,
        request->read_only,
        accepted(before, after, request, step),
        after.transaction matches Some(queued) ==> mutating.len() == queued@.len()
            && mutating.last(),
    ensures
        before.transaction is None ==> (step matches Step::Perform(
            Work::Execute { query, parameters, read_only, .. },
        ) && query == request->query && parameters == request->parameters && execute_refusal(
            read_only,
            true,
            fields_view(parameters@),
        ) is Some),
        before.transaction is Some ==> !(step is Perform) && after.transaction is Some
            && breaks_read_only(after.transaction->0@, mutating),
{
    if let Some(statements) = before.transaction {
        let queued = after.transaction->0@;
        let last = queued.len() - 1;
        assert(queued[last].read_only);
        assert(mutating[last]);
    }
}

/// Prepares a query for execution.
pub fn prepare_query(
    values: &Vec<JsonField>,
    read_only: bool,
    mutating: bool,
    defaults: QueryLimits,
    requested: Option<WireQueryLimits>,
) -> (prepared: Result<PreparedQuery, ProtocolFailure>)
    ensures
        match prepared {
            Ok(prepared) => {
                &&& execute_refusal(read_only, mutating, fields_view(values@)) is None
                &&& query_fields_view(prepared.parameters@) == converted_fields(
                    fields_view(values@),
                )
                &&& prepared.limits == lowered_limits(defaults, requested)
            },
            Err(failure) => execute_refusal(read_only, mutating, fields_view(values@)) == Some(
                failure@,
            ),
        },
{
    if read_only && mutating {
        return Err(
            ProtocolFailure::new(
                ErrorCode::QueryError,
                "read_only request rejected a mutating query",
            ),
        );
    }
    match parameters(values) {
        Ok(parameters) => Ok(
            PreparedQuery { parameters, limits: lower_limits(defaults, requested) },
        ),
        Err(message) => Err(ProtocolFailure::new(ErrorCode::QueryError, message.as_str())),
    }
}

/// One statement of a transaction, ready to be executed.
pub struct PreparedStatement {
    /// Query text.
    pub query: String,
    /// Its parameters.
    pub parameters: Vec<QueryField>,
}

/// Prepares the statements of a transaction for execution.
pub fn prepare_transaction(statements: &Vec<QueuedStatement>) -> (prepared: Result<
    Vec<PreparedStatement>,
    ProtocolFailure,
>)
    ensures
        match prepared {
            Ok(prepared) => {
                &&& prepared@.len() == statements@.len()
                &&& forall|i: int|
                    0 <= i < prepared@.len() ==> {
                        &&& (#[trigger] prepared@[i]).query == statements@[i].query
                        &&& all_convert(fields_view(statements@[i].parameters@))
                        &&& query_fields_view(prepared@[i].parameters@) == converted_fields(
                            fields_view(statements@[i].parameters@),
                        )
                    }
            },
            Err(failure) => failure@ == parameter_view() && exists|i: int|
                0 <= i < statements@.len() && !all_convert(
                    fields_view((#[trigger] statements@[i]).parameters@),
                ),
        },
{
    let mut prepared: Vec<PreparedStatement> = Vec::new();
    let mut i: usize = 0;
    while i < statements.len()
        invariant
            i <= statements@.len(),
            prepared@.len() == i,
            forall|k: int|
                0 <= k < i ==> {
                    &&& (#[trigger] prepared@[k]).query == statements@[k].query
                    &&& all_convert(fields_view(statements@[k].parameters@))
                    &&& query_fields_view(prepared@[k].parameters@) == converted_fields(
                        fields_view(statements@[k].parameters@),
                    )
                },
        decreases statements.len() - i,
    {
        match parameters(&statements[i].parameters) {
            Ok(parameters) => {
                prepared.push(
                    PreparedStatement { query: statements[i].query.clone(), parameters },
                );
            },
            Err(message) => {
                return Err(ProtocolFailure::new(ErrorCode::QueryError, message.as_str()));
            },
        }
        i = i + 1;
    }
    Ok(prepared)
}

/// Sixteen lowercase hexadecimal digits of a number.
pub open spec fn hex16(number: u64) -> Seq<char> {
    Seq::new(16, |i: int| hex16_digit(number, i))
}

/// The digit at position `i` of sixteen.
pub open spec fn hex16_digit(number: u64, i: int) -> char {
    digit_char((number as nat / pow16((15 - i) as nat)) % 16)
}

/// Powers of sixteen.
pub open spec fn pow16(exponent: nat) -> nat
    decreases exponent,
{
    if exponent == 0 {
        1
    } else {
        16 * pow16((exponent - 1) as nat)
    }
}

/// The sixteen digits of a number are its digits to the base sixteen, the least last: they read back
/// as the number.
pub proof fn law_sixteen_digits_read_back(number: u64)
    ensures
        hex16(number).len() == 16,
        forall|i: int|
            0 <= i < 16 ==> #[trigger] hex16(number)[i] == digit_char(
                (number as nat / pow16((15 - i) as nat)) % 16,
            ),
        number as nat == digits_value(number, 16),
{
    lemma_digits_value(number, 16);
    assert(pow16(16) == 0x1_0000_0000_0000_0000) by {
        reveal_with_fuel(pow16, 17);
    }
    assert((number as nat) % pow16(16) == number as nat) by (nonlinear_arith)
        requires
            pow16(16) == 0x1_0000_0000_0000_0000,
            number as nat <= 0xffff_ffff_ffff_ffff,
    ;
}

/// What the last `count` of the sixteen digits of a number are worth.
pub open spec fn digits_value(number: u64, count: nat) -> nat
    decreases count,
{
    if count == 0 {
        0
    } else {
        digits_value(number, (count - 1) as nat) + ((number as nat / pow16((count - 1) as nat)) % 16)
            * pow16((count - 1) as nat)
    }
}

proof fn lemma_digits_value(number: u64, count: nat)
    ensures
        digits_value(number, count) == number as nat % pow16(count),
    decreases count,
{
    if count > 0 {
        let below = (count - 1) as nat;
        lemma_digits_value(number, below);
        lemma_pow16_positive(below);
        let n = number as int;
        let p = pow16(below) as int;
        assert(pow16(count) == 16 * pow16(below));
        assert(n % (16 * p) == n % p + ((n / p) % 16) * p) by {
            vstd::arithmetic::div_mod::lemma_mod_breakdown(n, p, 16);
            assert(p * 16 == 16 * p) by (nonlinear_arith);
            assert(p * ((n / p) % 16) == ((n / p) % 16) * p) by (nonlinear_arith);
        }
    } else {
        assert(number as nat % 1 == 0);
    }
}

/// Writes a number in sixteen hexadecimal digits.
pub fn fixed_hex(number: u64) -> (text: String)
    ensures
        text@ == hex16(number),
{
    let mut text = String::new();
    let mut power: u64 = 0x1000_0000_0000_0000;
    let mut i: usize = 0;
    proof {
        reveal_with_fuel(pow16, 16);
    }
    while i < 16
        invariant
            i <= 16,
            i < 16 ==> power == pow16((15 - i) as nat),
            text@.len() == i,
            forall|k: int| 0 <= k < i ==> text@[k] == hex16_digit(number, k),
        decreases 16 - i,
    {
        proof {
            reveal_with_fuel(pow16, 2);
            assert(power > 0) by {
                lemma_pow16_positive((15 - i) as nat);
            }
        }
        let digit: u64 = (number / power) % 16;
        text = join2(text.as_str(), number_string(digit, 16).as_str());
        power = power / 16;
        i = i + 1;
    }
    proof {
        assert(text@ =~= hex16(number));
    }
    text
}

proof fn lemma_pow16_positive(exponent: nat)
    ensures
        pow16(exponent) > 0,
    decreases exponent,
{
    if exponent > 0 {
        lemma_pow16_positive((exponent - 1) as nat);
    }
}

/// What the storage engine says of an open Database.
#[derive(Clone, Copy, Debug, PartialEq, Eq, Structural)]
pub struct StorageInfo {
    /// Independent `.ndb` format version.
    pub ndb_format_version: u32,
    /// Backend schema revision.
    pub schema_revision: u32,
    /// Committed write generation.
    pub generation: u64,
    /// Logical checksum.
    pub logical_checksum: u64,
    /// Durable Schema count.
    pub schemas: u64,
    /// Durable Node count.
    pub nodes: u64,
    /// Durable Edge count.
    pub edges: u64,
    /// Whether integrity checks passed.
    pub healthy: bool,
}

/// What inspecting a Database shows.
pub fn inspection(entry: &CatalogDatabase, info: StorageInfo) -> (details: DatabaseDetails)
    ensures
        is_summary_of(details.summary, entry@),
        details.ndb_format_version == info.ndb_format_version,
        details.schema_revision == info.schema_revision,
        details.generation == info.generation,
        details.logical_checksum@ == hex16(info.logical_checksum),
        details.healthy == info.healthy,
        details.schemas == info.schemas,
        details.nodes == info.nodes,
        details.edges == info.edges,
{
    DatabaseDetails {
        summary: entry.summary(),
        ndb_format_version: info.ndb_format_version,
        schema_revision: info.schema_revision,
        generation: info.generation,
        logical_checksum: fixed_hex(info.logical_checksum),
        healthy: info.healthy,
        schemas: info.schemas,
        nodes: info.nodes,
        edges: info.edges,
    }
}

} // verus!
