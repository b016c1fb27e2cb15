//! The shared types of the database protocol, its framing, and the client's side of it.

use vstd::prelude::*;
use vstd::string::*;

use crate::json::{Json, JsonField};
use crate::text::{decimal, decimal_text, join2, join3};

verus! {

/// The independently versioned database protocol implemented by this crate.
pub const DATABASE_PROTOCOL_VERSION: u32 = 1;

/// Maximum encoded JSON payload accepted in one frame.
pub const MAX_FRAME_BYTES: usize = 1048576;

/// Recommended decoded payload size for one snapshot chunk.
pub const SNAPSHOT_CHUNK_BYTES: usize = 262144;

/// One client-to-server frame.
#[derive(Debug, PartialEq)]
pub struct ClientFrame {
    /// Connection-local request identifier.
    pub request_id: u64,
    /// Requested operation.
    pub request: ClientRequest,
}

/// One server-to-client frame.
#[derive(Debug, PartialEq)]
pub struct ServerFrame {
    /// Request identifier copied from the initiating client frame.
    pub request_id: u64,
    /// Result event or typed error.
    pub response: ServerResponse,
}

/// Client operations in database protocol version 1.
#[derive(Debug, PartialEq)]
pub enum ClientRequest {
    /// Negotiates the protocol and authenticates the connection.
    Hello {
        /// Exact protocol version requested by the client.
        protocol_version: u32,
        /// Opaque credential read from an environment or protected file.
        credential: String,
        /// Diagnostic client name, never used for authorization.
        client_name: String,
    },
    /// Checks authenticated connection liveness.
    Ping,
    /// Selects the logical Database used by subsequent query operations.
    SelectDatabase {
        /// Unique catalog name, not a filesystem path.
        database: String,
    },
    /// Executes or queues one query.
    Query {
        /// Query text interpreted only by the storage engine.
        query: String,
        /// Named query parameters in increasing order of their names.
        parameters: Vec<JsonField>,
        /// Rejects write syntax when true.
        read_only: bool,
        /// Requests row events instead of one materialized result frame.
        stream: bool,
        /// Optional limits that may only lower server defaults.
        limits: Option<WireQueryLimits>,
    },
    /// Starts an explicit atomic transaction queue.
    Begin,
    /// Executes and commits the queued transaction atomically.
    Commit,
    /// Discards the queued transaction.
    Rollback,
    /// Requests cooperative cancellation of an active request on this connection.
    Cancel {
        /// Request identifier of the active query.
        target_request_id: u64,
    },
    /// Creates a managed logical Database.
    DatabaseCreate {
        /// New unique catalog name.
        name: String,
    },
    /// Lists managed Databases without exposing storage paths.
    DatabaseList,
    /// Inspects one managed Database.
    DatabaseInspect {
        /// Catalog name to inspect.
        database: String,
    },
    /// Renames a Database without changing its stable identity.
    DatabaseRename {
        /// Existing catalog name.
        database: String,
        /// New unique catalog name.
        new_name: String,
    },
    /// Drops a Database through an exact-name confirmation guard.
    DatabaseDrop {
        /// Existing catalog name.
        database: String,
        /// Must exactly equal `database`.
        confirm_name: String,
    },
    /// Exports a consistent physical snapshot as bounded chunk events.
    SnapshotExport {
        /// Catalog name to snapshot.
        database: String,
    },
    /// Begins a bounded physical snapshot restore upload.
    SnapshotRestoreBegin {
        /// Catalog name to replace after validation.
        database: String,
        /// Exact decoded byte count expected across chunks.
        total_bytes: u64,
    },
    /// Appends one base64-encoded snapshot upload chunk.
    SnapshotRestoreChunk {
        /// Zero-based contiguous chunk sequence.
        sequence: u64,
        /// Standard padded base64 payload.
        data: String,
    },
    /// Validates and atomically installs the uploaded snapshot.
    SnapshotRestoreCommit,
    /// Discards an incomplete snapshot upload.
    SnapshotRestoreAbort,
    /// Exports the portable logical `.nostdb` package.
    LogicalExport {
        /// Catalog name to export.
        database: String,
    },
    /// Imports a portable logical package after isolated compilation.
    LogicalImport {
        /// Catalog name to replace after validation.
        database: String,
        /// Versioned logical package document.
        package: Json,
    },
}

/// Server result events in database protocol version 1.
#[allow(inconsistent_fields)]
#[derive(Debug, PartialEq)]
pub enum ServerResponse {
    /// Successful protocol negotiation and authentication.
    Hello {
        /// Negotiated database protocol version.
        protocol_version: u32,
        /// Server binary package version.
        server_version: String,
        /// Authorization role assigned to this connection.
        role: ClientRole,
        /// Maximum encoded payload size in one frame.
        max_frame_bytes: u64,
    },
    /// Authenticated liveness response.
    Pong,
    /// Confirms the selected Database.
    DatabaseSelected {
        /// Selected Database summary.
        database: DatabaseSummary,
    },
    /// A complete query result represented by the stable JSON wire shape.
    Result {
        /// Read or write statement result.
        statement: Json,
    },
    /// Starts a bounded read-result stream.
    StreamStart {
        /// Projected columns in order.
        columns: Vec<String>,
        /// Whether the query included an explicit ordering guarantee.
        ordered: bool,
    },
    /// One row in a read-result stream.
    StreamRow {
        /// Values in projected column order.
        row: Vec<Json>,
    },
    /// Ends a bounded read-result stream.
    StreamEnd {
        /// Number of row events emitted.
        rows: u64,
    },
    /// Confirms a query was queued in the active transaction.
    Queued {
        /// Number of statements currently queued.
        statements: u64,
    },
    /// Reports explicit transaction state.
    Transaction {
        /// `begun`, `committed`, or `rolled_back`.
        state: String,
        /// Results returned by a commit, empty otherwise.
        results: Vec<Json>,
    },
    /// Confirms a cooperative cancellation request was delivered.
    Cancelled {
        /// Target request identifier.
        target_request_id: u64,
    },
    /// One Database was created.
    DatabaseCreated {
        /// Created Database summary.
        database: DatabaseSummary,
    },
    /// Complete deterministic catalog listing.
    DatabaseList {
        /// Databases ordered by name.
        databases: Vec<DatabaseSummary>,
    },
    /// Detailed Database health and storage metadata.
    DatabaseInfo {
        /// Inspected Database details.
        database: DatabaseDetails,
    },
    /// One Database was renamed.
    DatabaseRenamed {
        /// Updated Database summary.
        database: DatabaseSummary,
    },
    /// One Database was removed from the active catalog.
    DatabaseDropped {
        /// Stable identity of the removed Database.
        database_id: String,
        /// Former catalog name.
        name: String,
    },
    /// Starts a physical snapshot download.
    SnapshotStart {
        /// Exact decoded snapshot size.
        total_bytes: u64,
    },
    /// One base64-encoded snapshot download chunk.
    SnapshotChunk {
        /// Zero-based contiguous chunk sequence.
        sequence: u64,
        /// Standard padded base64 payload.
        data: String,
    },
    /// Ends a physical snapshot download.
    SnapshotEnd {
        /// Number of chunks emitted.
        chunks: u64,
    },
    /// Reports snapshot upload progress or installation.
    SnapshotRestore {
        /// `ready`, `chunk_accepted`, `restored`, or `aborted`.
        state: String,
        /// Decoded bytes accepted so far.
        bytes: u64,
    },
    /// Returns one versioned portable logical package document.
    LogicalPackage {
        /// Serialized package.
        package: Json,
    },
    /// Confirms a logical package import.
    LogicalImported {
        /// Number of `.nostdb` modules imported.
        modules: u64,
    },
    /// Stable typed failure. The connection remains usable unless the protocol closes it.
    Error {
        /// Stable machine-readable category.
        code: ErrorCode,
        /// Human-readable diagnostic with no secret content.
        message: String,
        /// Whether retrying later without changing the request may succeed.
        retryable: bool,
    },
}

/// Authorization role assigned during authentication.
#[derive(Clone, Copy, Debug, PartialEq, Eq, Structural)]
pub enum ClientRole {
    /// Query, transaction, liveness, and Database-selection permission.
    Query,
    /// Query permission plus Database lifecycle and import/export administration.
    Admin,
}

/// Stable protocol error categories.
#[derive(Clone, Copy, Debug, PartialEq, Eq, Structural)]
pub enum ErrorCode {
    /// Client requested a protocol version the server does not implement.
    UnsupportedProtocol,
    /// Credential was absent or invalid.
    AuthenticationFailed,
    /// Frame order or content violates the negotiated protocol.
    ProtocolViolation,
    /// The authenticated role does not permit this operation.
    PermissionDenied,
    /// A query operation has no selected Database.
    DatabaseNotSelected,
    /// No Database has the requested name.
    DatabaseNotFound,
    /// A create or rename target already exists.
    DatabaseAlreadyExists,
    /// A Database name violates the catalog naming contract.
    InvalidDatabaseName,
    /// A required ownership or lifecycle lock is unavailable.
    DatabaseBusy,
    /// Query syntax, semantics, types, evaluation, or constraints failed.
    QueryError,
    /// A configured resource or time limit stopped execution.
    ResourceLimit,
    /// Cooperative cancellation stopped execution.
    Cancelled,
    /// `BEGIN` was requested while a transaction is active.
    TransactionAlreadyActive,
    /// `COMMIT` or `ROLLBACK` was requested without an active transaction.
    NoTransaction,
    /// A frame or accumulated upload exceeds a configured bound.
    RequestTooLarge,
    /// A physical snapshot is corrupt or format-incompatible.
    SnapshotIncompatible,
    /// Startup or lifecycle recovery requires operator intervention.
    RecoveryRequired,
    /// An unexpected internal failure occurred.
    InternalError,
}

/// Query limits sent by a client. Every value can only lower the server default.
#[derive(Clone, Copy, Debug, PartialEq, Eq, Structural)]
pub struct WireQueryLimits {
    /// Maximum result rows.
    pub max_rows: Option<u64>,
    /// Maximum estimated materialized bytes.
    pub max_memory_bytes: Option<u64>,
    /// Maximum evaluator and row-processing work units.
    pub max_operations: Option<u64>,
    /// Maximum relationship candidates examined.
    pub max_traversals: Option<u64>,
}

/// Catalog-safe Database summary.
#[derive(Debug, PartialEq, Eq)]
pub struct DatabaseSummary {
    /// Immutable stable Database identity.
    pub id: String,
    /// Unique user-facing catalog name.
    pub name: String,
    /// Durable lifecycle state, currently `ready`.
    pub state: String,
}

/// Detailed Database health and storage metadata without filesystem paths.
#[derive(Debug, PartialEq, Eq)]
pub struct DatabaseDetails {
    /// Catalog summary.
    pub summary: DatabaseSummary,
    /// Independent `.ndb` format version.
    pub ndb_format_version: u32,
    /// Backend schema revision.
    pub schema_revision: u32,
    /// Committed write generation.
    pub generation: u64,
    /// Fixed-width lowercase logical checksum.
    pub logical_checksum: String,
    /// Whether integrity checks passed.
    pub healthy: bool,
    /// Durable Schema count.
    pub schemas: u64,
    /// Durable Node count.
    pub nodes: u64,
    /// Durable Edge count.
    pub edges: u64,
}

/// An input or output failure, as the code that does the input or output reports it.
#[derive(Debug, PartialEq, Eq)]
pub struct IoFailure {
    /// What went wrong, for a reader.
    pub message: String,
}

/// Blocking client failure.
#[derive(Debug, PartialEq, Eq)]
pub enum ClientError {
    /// Address, socket, or frame I/O failure.
    Io(IoFailure),
    /// Malformed, oversized, or out-of-order protocol data.
    Protocol(String),
    /// Stable error returned by the server.
    Server {
        /// Stable machine-readable category.
        code: ErrorCode,
        /// Server diagnostic.
        message: String,
        /// Whether retrying later may succeed.
        retryable: bool,
    },
}

impl ErrorCode {
    /// The stable name of the category on the wire.
    pub open spec fn name(self) -> Seq<char> {
        match self {
            ErrorCode::UnsupportedProtocol => "unsupported_protocol"@,
            ErrorCode::AuthenticationFailed => "authentication_failed"@,
            ErrorCode::ProtocolViolation => "protocol_violation"@,
            ErrorCode::PermissionDenied => "permission_denied"@,
            ErrorCode::DatabaseNotSelected => "database_not_selected"@,
            ErrorCode::DatabaseNotFound => "database_not_found"@,
            ErrorCode::DatabaseAlreadyExists => "database_already_exists"@,
            ErrorCode::InvalidDatabaseName => "invalid_database_name"@,
            ErrorCode::DatabaseBusy => "database_busy"@,
            ErrorCode::QueryError => "query_error"@,
            ErrorCode::ResourceLimit => "resource_limit"@,
            ErrorCode::Cancelled => "cancelled"@,
            ErrorCode::TransactionAlreadyActive => "transaction_already_active"@,
            ErrorCode::NoTransaction => "no_transaction"@,
            ErrorCode::RequestTooLarge => "request_too_large"@,
            ErrorCode::SnapshotIncompatible => "snapshot_incompatible"@,
            ErrorCode::RecoveryRequired => "recovery_required"@,
            ErrorCode::InternalError => "internal_error"@,
        }
    }

    /// Returns the stable name of the category.
    pub fn as_text(&self) -> (text: &'static str)
        ensures
            text@ == self.name(),
    {
        match self {
            ErrorCode::UnsupportedProtocol => "unsupported_protocol",
            ErrorCode::AuthenticationFailed => "authentication_failed",
            ErrorCode::ProtocolViolation => "protocol_violation",
            ErrorCode::PermissionDenied => "permission_denied",
            ErrorCode::DatabaseNotSelected => "database_not_selected",
            ErrorCode::DatabaseNotFound => "database_not_found",
            ErrorCode::DatabaseAlreadyExists => "database_already_exists",
            ErrorCode::InvalidDatabaseName => "invalid_database_name",
            ErrorCode::DatabaseBusy => "database_busy",
            ErrorCode::QueryError => "query_error",
            ErrorCode::ResourceLimit => "resource_limit",
            ErrorCode::Cancelled => "cancelled",
            ErrorCode::TransactionAlreadyActive => "transaction_already_active",
            ErrorCode::NoTransaction => "no_transaction",
            ErrorCode::RequestTooLarge => "request_too_large",
            ErrorCode::SnapshotIncompatible => "snapshot_incompatible",
            ErrorCode::RecoveryRequired => "recovery_required",
            ErrorCode::InternalError => "internal_error",
        }
    }
}

impl ClientError {
    /// The diagnostic shown for the failure.
    pub open spec fn diagnostic(self) -> Seq<char> {
        match self {
            ClientError::Io(failure) => "database connection failed: "@ + failure.message@,
            ClientError::Protocol(message) => "database protocol error: "@ + message@,
            ClientError::Server { code, message, .. } => code.name() + ": "@ + message@,
        }
    }

    /// Returns the diagnostic shown for the failure.
    pub fn text(&self) -> (text: String)
        ensures
            text@ == self.diagnostic(),
    {
        match self {
            ClientError::Io(failure) => join2(
                "database connection failed: ",
                failure.message.as_str(),
            ),
            ClientError::Protocol(message) => join2("database protocol error: ", message.as_str()),
            ClientError::Server { code, message, .. } => join3(
                code.as_text(),
                ": ",
                message.as_str(),
            ),
        }
    }
}

/// Whether `error` is a protocol failure with this message.
pub open spec fn is_protocol_error(error: ClientError, message: Seq<char>) -> bool {
    error matches ClientError::Protocol(text) && text@ == message
}

/// Whether a payload of `length` bytes may travel in one frame.
pub open spec fn frame_length_allowed(length: nat) -> bool {
    1 <= length <= MAX_FRAME_BYTES
}

/// The number that four bytes stand for, most significant byte first.
pub open spec fn big_endian(bytes: Seq<u8>) -> nat {
    (bytes[0] * 0x100_0000 + bytes[1] * 0x1_0000 + bytes[2] * 0x100 + bytes[3]) as nat
}

/// A frame on the wire: the payload's length in four bytes, then the payload.
pub open spec fn is_frame_of(frame: Seq<u8>, payload: Seq<u8>) -> bool {
    &&& frame.len() == payload.len() + 4
    &&& big_endian(frame.take(4)) == payload.len()
    &&& frame.skip(4) == payload
}

/// Encodes one payload as a length-prefixed frame.
pub fn write_frame(payload: &[u8]) -> (frame: Result<Vec<u8>, ClientError>)
    ensures
        frame_length_allowed(payload@.len()) ==> frame is Ok && is_frame_of(frame->Ok_0@, payload@),
        !frame_length_allowed(payload@.len()) ==> frame is Err && is_protocol_error(
            frame->Err_0,
            "encoded frame size "@ + decimal_text(payload@.len()) + " is outside 1..=1048576"@,
        ),
{
    if payload.len() == 0 || payload.len() > MAX_FRAME_BYTES {
        return Err(
            ClientError::Protocol(
                join3(
                    "encoded frame size ",
                    decimal(payload.len() as u64).as_str(),
                    " is outside 1..=1048576",
                ),
            ),
        );
    }
    let length: u32 = payload.len() as u32;
    let mut frame: Vec<u8> = Vec::new();
    frame.push((length / 0x100_0000) as u8);
    frame.push(((length / 0x1_0000) % 0x100) as u8);
    frame.push(((length / 0x100) % 0x100) as u8);
    frame.push((length % 0x100) as u8);
    frame.extend_from_slice(payload);
    proof {
        assert(frame@.skip(4) =~= payload@);
        assert(frame@.take(4)[0] == (length / 0x100_0000) as u8);
        assert(frame@.take(4)[1] == ((length / 0x1_0000) % 0x100) as u8);
        assert(frame@.take(4)[2] == ((length / 0x100) % 0x100) as u8);
        assert(frame@.take(4)[3] == (length % 0x100) as u8);
    }
    Ok(frame)
}

/// The payload length that a frame's four header bytes announce, when it is allowed.
pub fn frame_length(header: &[u8]) -> (length: Result<usize, u32>)
    requires
        header@.len() == 4,
    ensures
        frame_length_allowed(big_endian(header@)) ==> length == Ok::<usize, u32>(
            big_endian(header@) as usize,
        ),
        !frame_length_allowed(big_endian(header@)) ==> length == Err::<usize, u32>(
            big_endian(header@) as u32,
        ),
{
    let length: u32 = header[0] as u32 * 0x100_0000 + header[1] as u32 * 0x1_0000
        + header[2] as u32 * 0x100 + header[3] as u32;
    if length == 0 || length > MAX_FRAME_BYTES as u32 {
        Err(length)
    } else {
        Ok(length as usize)
    }
}

/// The failure of a reader that ends before the bytes that were asked for.
pub open spec fn is_short_read(error: ClientError) -> bool {
    error matches ClientError::Io(failure) && failure.message@ == "failed to fill whole buffer"@
}

fn short_read() -> (error: ClientError)
    ensures
        is_short_read(error),
{
    ClientError::Io(IoFailure { message: "failed to fill whole buffer".to_owned() })
}

/// Decodes the payload of the frame at the front of `input`.
pub fn read_frame(input: &[u8]) -> (payload: Result<Vec<u8>, ClientError>)
    ensures
        input@.len() < 4 ==> payload is Err && is_short_read(payload->Err_0),
        input@.len() >= 4 ==> {
            let length = big_endian(input@.take(4));
            &&& !frame_length_allowed(length) ==> payload is Err && is_protocol_error(
                payload->Err_0,
                "received frame size "@ + decimal_text(length) + " is outside 1..=1048576"@,
            )
            &&& frame_length_allowed(length) && input@.len() - 4 < length ==> payload is Err
                && is_short_read(payload->Err_0)
            &&& frame_length_allowed(length) && input@.len() - 4 >= length ==> payload is Ok
                && payload->Ok_0@ == input@.subrange(4, 4 + length as int)
        },
{
    if input.len() < 4 {
        return Err(short_read());
    }
    let (header, rest) = input.split_at(4);
    proof {
        assert(header@ =~= input@.take(4));
    }
    match frame_length(header) {
        Err(length) => Err(
            ClientError::Protocol(
                join3(
                    "received frame size ",
                    decimal(length as u64).as_str(),
                    " is outside 1..=1048576",
                ),
            ),
        ),
        Ok(length) => {
            if rest.len() < length {
                return Err(short_read());
            }
            let mut payload: Vec<u8> = Vec::new();
            let (body, _) = rest.split_at(length);
            payload.extend_from_slice(body);
            proof {
                assert(payload@ =~= input@.subrange(4, 4 + length));
            }
            Ok(payload)
        },
    }
}

/// Reading a written frame gives the payload back, whatever follows the frame.
pub proof fn law_read_frame_inverts_write_frame(frame: Seq<u8>, payload: Seq<u8>, rest: Seq<u8>)
    requires
        is_frame_of(frame, payload),
        frame_length_allowed(payload.len()),
    ensures
        (frame + rest).len() >= 4,
        frame_length_allowed(big_endian((frame + rest).take(4))),
        (frame + rest).len() - 4 >= big_endian((frame + rest).take(4)),
        (frame + rest).subrange(4, 4 + big_endian((frame + rest).take(4)) as int) == payload,
{
    assert((frame + rest).take(4) =~= frame.take(4));
    assert((frame + rest).subrange(4, 4 + payload.len() as int) =~= frame.skip(4));
}

/// Whether `c` occurs in `text`.
pub open spec fn has_char(text: Seq<char>, c: char) -> bool {
    text.contains(c)
}

/// The scheme every server address starts with.
pub open spec fn server_scheme() -> Seq<char> {
    "nostdb://"@
}

/// Whether `address` ends in a port: decimal digits after a colon that a host stands before.
pub open spec fn has_port(address: Seq<char>) -> bool {
    exists|k: int| #[trigger] is_port_colon(address, k)
}

/// Whether the character at position `k` is the colon before the port.
pub open spec fn is_port_colon(address: Seq<char>, k: int) -> bool {
    &&& 0 < k < address.len() - 1
    &&& address[k] == ':'
    &&& forall|i: int| k < i < address.len() ==> '0' <= #[trigger] address[i] <= '9'
}

/// Whether `address` is a bare `HOST:PORT`: no path, query, fragment or credential separator, and
/// a port at its end.
pub open spec fn is_host_and_port(address: Seq<char>) -> bool {
    &&& !has_char(address, '/')
    &&& !has_char(address, '?')
    &&& !has_char(address, '#')
    &&& !has_char(address, '@')
    &&& has_port(address)
}

/// Parses `nostdb://HOST:PORT` without accepting paths, credentials, or fragments.
pub fn parse_server_address(server: &str) -> (address: Result<String, ClientError>)
    ensures
        !server_scheme().is_prefix_of(server@) ==> address is Err && is_protocol_error(
            address->Err_0,
            "server address must start with nostdb://"@,
        ),
        server_scheme().is_prefix_of(server@) && !is_host_and_port(server@.skip(9))
            ==> address is Err && is_protocol_error(
            address->Err_0,
            "server address must contain only HOST:PORT"@,
        ),
        server_scheme().is_prefix_of(server@) && is_host_and_port(server@.skip(9)) ==> address is Ok
            && address->Ok_0@ == server@.skip(9),
{
    proof {
        reveal_strlit("nostdb://");
    }
    let length: usize = server.unicode_len();
    let scheme = "nostdb://";
    if length < 9 {
        return Err(
            ClientError::Protocol("server address must start with nostdb://".to_owned()),
        );
    }
    let prefix = server.substring_char(0, 9);
    if !crate::text::text_eq(prefix, scheme) {
        proof {
            if server_scheme().is_prefix_of(server@) {
                assert(prefix@ =~= scheme@);
            }
        }
        return Err(
            ClientError::Protocol("server address must start with nostdb://".to_owned()),
        );
    }
    proof {
        assert(server_scheme().is_prefix_of(server@)) by {
            assert(server@.subrange(0, 9) == scheme@);
        }
    }
    let address = server.substring_char(9, length);
    proof {
        assert(address@ =~= server@.skip(9));
    }
    let mut forbidden: bool = false;
    let mut colon: bool = false;
    let mut at: usize = 0;
    let mut digits: bool = true;
    let count: usize = address.unicode_len();
    let mut i: usize = 0;
    for c in chars: address.chars()
        invariant
            chars.seq() == address@,
            i == chars.index(),
            count == address@.len(),
            forbidden == exists|k: int|
                0 <= k < i && (address@[k] == '/' || address@[k] == '?' || address@[k] == '#'
                    || address@[k] == '@'),
            colon == exists|k: int| 0 <= k < i && address@[k] == ':',
            colon ==> at < i && address@[at as int] == ':',
            colon ==> forall|k: int| at < k < i ==> #[trigger] address@[k] != ':',
            colon ==> digits == forall|k: int|
                at < k < i ==> '0' <= #[trigger] address@[k] <= '9',
    {
        if c == '/' || c == '?' || c == '#' || c == '@' {
            forbidden = true;
        }
        if c == ':' {
            colon = true;
            at = i;
            digits = true;
        } else if !('0' <= c && c <= '9') {
            digits = false;
        }
        i = i + 1;
    }
    proof {
        if has_port(address@) {
            let k = choose|k: int| #[trigger] is_port_colon(address@, k);
            assert(at == k);
        }
        if colon && digits && 0 < at < count - 1 {
            assert(is_port_colon(address@, at as int));
        }
    }
    if forbidden || !colon || !digits || at == 0 || at >= count - 1 {
        return Err(
            ClientError::Protocol("server address must contain only HOST:PORT".to_owned()),
        );
    }
    Ok(address.to_owned())
}

/// The client's side of one connection.
#[derive(Debug, PartialEq, Eq)]
pub struct Client {
    /// The identifier of the next request.
    pub next_request_id: u64,
    /// The role that the server granted.
    pub role: ClientRole,
}

/// The text for a response to another request.
pub open spec fn wrong_response_text(expected: u64, received: u64) -> Seq<char> {
    "expected response "@ + decimal_text(expected as nat) + ", received "@ + decimal_text(
        received as nat,
    )
}

impl Client {
    /// A connection that has sent nothing yet.
    pub fn new() -> (client: Self)
        ensures
            client.next_request_id == 1,
            client.role == ClientRole::Query,
    {
        Client { next_request_id: 1, role: ClientRole::Query }
    }

    /// The request that negotiates the protocol.
    pub fn hello(credential: String, client_name: String) -> (request: ClientRequest)
        ensures
            request == (ClientRequest::Hello {
                protocol_version: DATABASE_PROTOCOL_VERSION,
                credential,
                client_name,
            }),
    {
        ClientRequest::Hello {
            protocol_version: DATABASE_PROTOCOL_VERSION,
            credential,
            client_name,
        }
    }

    /// Takes in the server's response to hello.
    pub fn connect(&mut self, response: ServerResponse) -> (result: Result<(), ClientError>)
        ensures
            final(self).next_request_id == old(self).next_request_id,
            match response {
                ServerResponse::Hello { protocol_version, role, max_frame_bytes, .. } =>
                    if protocol_version == DATABASE_PROTOCOL_VERSION && max_frame_bytes
                    == MAX_FRAME_BYTES {
                    result is Ok && final(self).role == role
                } else {
                    result is Err && is_protocol_error(
                        result->Err_0,
                        "server negotiated an incompatible framing contract"@,
                    ) && final(self).role == old(self).role
                },
                _ => result is Err && is_protocol_error(
                    result->Err_0,
                    "server did not answer hello with hello"@,
                ) && final(self).role == old(self).role,
            },
    {
        match response {
            ServerResponse::Hello { protocol_version, role, max_frame_bytes, .. } => {
                if protocol_version != DATABASE_PROTOCOL_VERSION || max_frame_bytes
                    != MAX_FRAME_BYTES as u64 {
                    return Err(
                        ClientError::Protocol(
                            "server negotiated an incompatible framing contract".to_owned(),
                        ),
                    );
                }
                self.role = role;
                Ok(())
            },
            _ => Err(ClientError::Protocol("server did not answer hello with hello".to_owned())),
        }
    }

    /// Returns the role authenticated for this connection.
    pub fn role(&self) -> (role: ClientRole)
        ensures
            role == self.role,
    {
        self.role
    }

    /// Gives a request its connection-local identifier.
    pub fn send(&mut self, request: ClientRequest) -> (frame: Result<ClientFrame, ClientError>)
        ensures
            final(self).role == old(self).role,
            old(self).next_request_id < u64::MAX ==> frame is Ok && frame->Ok_0 == (ClientFrame {
                request_id: old(self).next_request_id,
                request,
            }) && final(self).next_request_id == old(self).next_request_id + 1,
            old(self).next_request_id == u64::MAX ==> frame is Err && is_protocol_error(
                frame->Err_0,
                "request identifier exhausted"@,
            ) && final(self).next_request_id == old(self).next_request_id,
    {
        let request_id: u64 = self.next_request_id;
        if request_id == u64::MAX {
            return Err(ClientError::Protocol("request identifier exhausted".to_owned()));
        }
        self.next_request_id = request_id + 1;
        Ok(ClientFrame { request_id, request })
    }

    /// The response in the frame that answers `request_id`.
    pub fn request(request_id: u64, frame: ServerFrame) -> (response: Result<
        ServerResponse,
        ClientError,
    >)
        ensures
            frame.request_id != request_id ==> response is Err && is_protocol_error(
                response->Err_0,
                wrong_response_text(request_id, frame.request_id),
            ),
            frame.request_id == request_id ==> match frame.response {
                ServerResponse::Error { code, message, retryable } => response == Err::<
                    ServerResponse,
                    ClientError,
                >(ClientError::Server { code, message, retryable }),
                _ => response == Ok::<ServerResponse, ClientError>(frame.response),
            },
    {
        if frame.request_id != request_id {
            let prefix = join3(
                "expected response ",
                decimal(request_id).as_str(),
                ", received ",
            );
            return Err(
                ClientError::Protocol(join2(prefix.as_str(), decimal(frame.request_id).as_str())),
            );
        }
        match frame.response {
            ServerResponse::Error { code, message, retryable } => Err(
                ClientError::Server { code, message, retryable },
            ),
            response => Ok(response),
        }
    }
}

/// Every code has its own stable name: from the name follows the code.
pub proof fn law_codes_have_names_of_their_own(code: ErrorCode)
    ensures
        code.name() == "unsupported_protocol"@ <==> code is UnsupportedProtocol,
        code.name() == "authentication_failed"@ <==> code is AuthenticationFailed,
        code.name() == "protocol_violation"@ <==> code is ProtocolViolation,
        code.name() == "permission_denied"@ <==> code is PermissionDenied,
        code.name() == "database_not_selected"@ <==> code is DatabaseNotSelected,
        code.name() == "database_not_found"@ <==> code is DatabaseNotFound,
        code.name() == "database_already_exists"@ <==> code is DatabaseAlreadyExists,
        code.name() == "invalid_database_name"@ <==> code is InvalidDatabaseName,
        code.name() == "database_busy"@ <==> code is DatabaseBusy,
        code.name() == "query_error"@ <==> code is QueryError,
        code.name() == "resource_limit"@ <==> code is ResourceLimit,
        code.name() == "cancelled"@ <==> code is Cancelled,
        code.name() == "transaction_already_active"@ <==> code is TransactionAlreadyActive,
        code.name() == "no_transaction"@ <==> code is NoTransaction,
        code.name() == "request_too_large"@ <==> code is RequestTooLarge,
        code.name() == "snapshot_incompatible"@ <==> code is SnapshotIncompatible,
        code.name() == "recovery_required"@ <==> code is RecoveryRequired,
        code.name() == "internal_error"@ <==> code is InternalError,
{
    reveal_strlit("unsupported_protocol");
    reveal_strlit("authentication_failed");
    reveal_strlit("protocol_violation");
    reveal_strlit("permission_denied");
    reveal_strlit("database_not_selected");
    reveal_strlit("database_not_found");
    reveal_strlit("database_already_exists");
    reveal_strlit("invalid_database_name");
    reveal_strlit("database_busy");
    reveal_strlit("query_error");
    reveal_strlit("resource_limit");
    reveal_strlit("cancelled");
    reveal_strlit("transaction_already_active");
    reveal_strlit("no_transaction");
    reveal_strlit("request_too_large");
    reveal_strlit("snapshot_incompatible");
    reveal_strlit("recovery_required");
    reveal_strlit("internal_error");
    assert("cancelled"@.len() == 9);
    assert("query_error"@.len() == 11);
    assert("database_busy"@.len() == 13);
    assert("resource_limit"@.len() == 14);
    assert("no_transaction"@.len() == 14);
    assert("internal_error"@.len() == 14);
    assert("resource_limit"@[0] == 'r' && "no_transaction"@[0] == 'n');
    assert("resource_limit"@[0] == 'r' && "internal_error"@[0] == 'i');
    assert("no_transaction"@[0] == 'n' && "internal_error"@[0] == 'i');
    assert("permission_denied"@.len() == 17);
    assert("request_too_large"@.len() == 17);
    assert("recovery_required"@.len() == 17);
    assert("permission_denied"@[0] == 'p' && "request_too_large"@[0] == 'r');
    assert("permission_denied"@[0] == 'p' && "recovery_required"@[0] == 'r');
    assert("request_too_large"@[2] == 'q' && "recovery_required"@[2] == 'c');
    assert("protocol_violation"@.len() == 18);
    assert("database_not_found"@.len() == 18);
    assert("protocol_violation"@[0] == 'p' && "database_not_found"@[0] == 'd');
    assert("unsupported_protocol"@.len() == 20);
    assert("authentication_failed"@.len() == 21);
    assert("database_not_selected"@.len() == 21);
    assert("invalid_database_name"@.len() == 21);
    assert("snapshot_incompatible"@.len() == 21);
    assert("authentication_failed"@[0] == 'a' && "database_not_selected"@[0] == 'd');
    assert("authentication_failed"@[0] == 'a' && "invalid_database_name"@[0] == 'i');
    assert("authentication_failed"@[0] == 'a' && "snapshot_incompatible"@[0] == 's');
    assert("database_not_selected"@[0] == 'd' && "invalid_database_name"@[0] == 'i');
    assert("database_not_selected"@[0] == 'd' && "snapshot_incompatible"@[0] == 's');
    assert("invalid_database_name"@[0] == 'i' && "snapshot_incompatible"@[0] == 's');
    assert("database_already_exists"@.len() == 23);
    assert("transaction_already_active"@.len() == 26);
}

/// A failure is shown with where it comes from, or with the server's code, and with its message.
pub proof fn law_diagnostics_say_where_from(error: ClientError)
    ensures
        error matches ClientError::Io(failure) ==> error.diagnostic()
            == "database connection failed: "@ + failure.message@,
        error matches ClientError::Protocol(message) ==> error.diagnostic()
            == "database protocol error: "@ + message@,
        error matches ClientError::Server { code, message, .. } ==> error.diagnostic()
            == code.name() + ": "@ + message@,
{
}

/// A frame is four bytes with the payload's length, the most significant first, and then the payload.
/// Its payload has between one and 1048576 bytes.
pub proof fn law_frames_announce_their_payload(frame: Seq<u8>, payload: Seq<u8>)
    ensures
        is_frame_of(frame, payload) <==> {
            &&& frame.len() == payload.len() + 4
            &&& 0x100 * (0x100 * (0x100 * frame[0] + frame[1]) + frame[2]) + frame[3]
                == payload.len()
            &&& forall|i: int| 0 <= i < payload.len() ==> frame[4 + i] == #[trigger] payload[i]
        },
        frame_length_allowed(payload.len()) <==> 0 < payload.len() <= 1_048_576,
{
    if frame.len() == payload.len() + 4 {
        let header = frame.take(4);
        assert(header[0] == frame[0] && header[1] == frame[1] && header[2] == frame[2] && header[3]
            == frame[3]);
        if is_frame_of(frame, payload) {
            assert forall|i: int| 0 <= i < payload.len() implies frame[4 + i]
                == #[trigger] payload[i] by {
                assert(frame.skip(4)[i] == payload[i]);
            }
        }
        if forall|i: int| 0 <= i < payload.len() ==> frame[4 + i] == #[trigger] payload[i] {
            assert(frame.skip(4) =~= payload);
        }
    }
}

/// One sequence of bytes is the frame of at most one payload, and one payload has one frame.
pub proof fn law_frames_and_payloads_match(a: Seq<u8>, b: Seq<u8>, x: Seq<u8>, y: Seq<u8>)
    requires
        is_frame_of(a, x),
        is_frame_of(b, y),
    ensures
        a == b <==> x == y,
{
    if x == y {
        law_frames_announce_their_payload(a, x);
        law_frames_announce_their_payload(b, y);
        assert forall|i: int| 0 <= i < a.len() implies a[i] == b[i] by {
            if i >= 4 {
                assert(a[4 + (i - 4)] == x[i - 4]);
                assert(b[4 + (i - 4)] == y[i - 4]);
            }
        }
        assert(a =~= b);
    }
}

/// An address names a server exactly where it is a host and a port of digits with a colon between
/// them, both there, and holds none of the characters of a path, a query, a fragment or a user.
pub proof fn law_addresses_name_host_and_port(address: Seq<char>)
    ensures
        is_host_and_port(address) <==> {
            &&& forall|i: int|
                0 <= i < address.len() ==> #[trigger] address[i] != '/' && address[i] != '?'
                    && address[i] != '#' && address[i] != '@'
            &&& exists|host: Seq<char>, port: Seq<char>|
                host.len() > 0 && port.len() > 0 && #[trigger] (host.push(':') + port) == address
                    && (forall|i: int| 0 <= i < port.len() ==> '0' <= #[trigger] port[i] <= '9')
        },
        server_scheme() == "nostdb://"@,
{
    if is_host_and_port(address) {
        let k = choose|k: int| #[trigger] is_port_colon(address, k);
        let host = address.take(k);
        let port = address.skip(k + 1);
        assert(host.push(':') + port =~= address);
        assert forall|i: int| 0 <= i < port.len() implies '0' <= #[trigger] port[i] <= '9' by {
            assert(port[i] == address[k + 1 + i]);
        }
        assert forall|i: int| 0 <= i < address.len() implies #[trigger] address[i] != '/'
            && address[i] != '?' && address[i] != '#' && address[i] != '@' by {
            assert(address.contains(address[i]));
        }
    }
    if (forall|i: int|
        0 <= i < address.len() ==> #[trigger] address[i] != '/' && address[i] != '?' && address[i]
            != '#' && address[i] != '@') && exists|host: Seq<char>, port: Seq<char>|
        host.len() > 0 && port.len() > 0 && #[trigger] (host.push(':') + port) == address && (
        forall|i: int| 0 <= i < port.len() ==> '0' <= #[trigger] port[i] <= '9') {
        let (host, port) = choose|host: Seq<char>, port: Seq<char>|
            host.len() > 0 && port.len() > 0 && #[trigger] (host.push(':') + port) == address && (
            forall|i: int| 0 <= i < port.len() ==> '0' <= #[trigger] port[i] <= '9');
        let k = host.len() as int;
        assert(address[k] == ':');
        assert forall|i: int| k < i < address.len() implies '0' <= #[trigger] address[i]
            <= '9' by {
            assert(address[i] == port[i - k - 1]);
        }
        assert(is_port_colon(address, k));
    }
}

/// A response to another request is told with both identifiers, and a failure of the protocol or of
/// the connection with its own words.
pub proof fn law_client_failures_are_told(
    error: ClientError,
    message: Seq<char>,
    expected: u64,
    received: u64,
)
    ensures
        is_protocol_error(error, message) <==> error is Protocol && error->Protocol_0@ == message,
        is_short_read(error) <==> error is Io && error->Io_0.message@
            == "failed to fill whole buffer"@,
        wrong_response_text(expected, received) == "expected response "@ + decimal_text(
            expected as nat,
        ) + ", received "@ + decimal_text(received as nat),
{
}

} // verus!
