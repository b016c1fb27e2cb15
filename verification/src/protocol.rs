//! The server's side of one database protocol connection.
//!
//! A connection is a machine: a frame of the client either gets its reply at once or names the
//! work to do first. The caller does the work and hands its result to the function that makes the
//! reply.

use std::collections::BTreeMap;
use vstd::prelude::*;

use crate::client::{
    ClientFrame, ClientRequest, ClientRole, DatabaseSummary, ErrorCode, ServerFrame, ServerResponse,
    WireQueryLimits, DATABASE_PROTOCOL_VERSION, MAX_FRAME_BYTES, SNAPSHOT_CHUNK_BYTES,
};
use crate::config::{Credentials, LimitConfig};
use crate::failure::{
    failure_frame, internal, internal_view, is_failure_frame, permanent, FailureView,
    ProtocolFailure,
};
use crate::json::{values_view, Json, JsonField};
use crate::text::{decimal, decimal_text, join2, join3, text_eq};
use crate::wire::{
    parameters, query_values_view, statement, statement_json, statements, value_json, values_json,
    values_to_json, QueryResult, StatementResult,
};

verus! {

/// One query of a transaction that is being queued.
#[derive(Debug, PartialEq)]
pub struct QueuedStatement {
    /// Query text.
    pub query: String,
    /// Named query parameters.
    pub parameters: Vec<JsonField>,
    /// Whether write syntax is rejected.
    pub read_only: bool,
}

/// A snapshot that is being uploaded.
#[derive(Debug, PartialEq, Eq)]
pub struct SnapshotUpload {
    /// The Database to replace.
    pub database: String,
    /// How many bytes the client announced.
    pub total_bytes: u64,
    /// The sequence number of the next chunk.
    pub next_sequence: u64,
    /// The bytes so far.
    pub bytes: Vec<u8>,
}

/// What the server remembers of one connection.
#[derive(Debug, PartialEq)]
pub struct ConnectionState {
    /// The role that authentication gave.
    pub role: ClientRole,
    /// The stable identity of the selected Database.
    pub selected_database_id: Option<String>,
    /// The transaction that is being queued.
    pub transaction: Option<Vec<QueuedStatement>>,
    /// The snapshot that is being uploaded.
    pub restore: Option<SnapshotUpload>,
    /// The greatest request identifier so far.
    pub last_request_id: u64,
}

impl SnapshotUpload {
    /// An upload never holds more than was announced, and every chunk added a byte or more.
    pub open spec fn well_formed(self) -> bool {
        &&& self.bytes@.len() <= self.total_bytes
        &&& self.next_sequence <= self.bytes@.len()
    }
}

impl ConnectionState {
    /// A transaction is only queued for a selected Database.
    pub open spec fn well_formed(self) -> bool {
        &&& self.transaction is Some ==> self.selected_database_id is Some
        &&& self.restore matches Some(upload) ==> upload.well_formed()
    }

    /// Discards what only the connection holds: its queued transaction and its unfinished upload.
    pub fn abandon(&mut self)
        ensures
            *final(self) == (ConnectionState { transaction: None, restore: None, ..*old(self) }),
    {
        self.transaction = None;
        self.restore = None;
    }
}

/// The requests that are being worked on, each with a token of the caller.
pub struct ActiveRequests<T> {
    /// The tokens by request identifier.
    pub requests: BTreeMap<u64, T>,
}

impl<T> View for ActiveRequests<T> {
    type V = Map<u64, T>;

    open spec fn view(&self) -> Map<u64, T> {
        self.requests@
    }
}

impl<T> ActiveRequests<T> {
    /// No request is active.
    pub fn new() -> (active: Self)
        ensures
            active@ == Map::<u64, T>::empty(),
    {
        ActiveRequests { requests: BTreeMap::new() }
    }

    /// Notes that a request is active.
    pub fn insert(&mut self, request_id: u64, token: T) -> (result: Result<(), String>)
        ensures
            final(self)@ == old(self)@.insert(request_id, token),
            result is Ok <==> !old(self)@.dom().contains(request_id),
            result is Err ==> result->Err_0@ == "request identifier is already active"@,
    {
        broadcast use vstd::std_specs::btree::group_btree_axioms;

        if self.requests.insert(request_id, token).is_some() {
            return Err("request identifier is already active".to_owned());
        }
        Ok(())
    }

    /// The token of an active request.
    pub fn get(&self, request_id: u64) -> (token: Option<&T>)
        ensures
            match token {
                Some(token) => self@.dom().contains(request_id) && self@[request_id] == *token,
                None => !self@.dom().contains(request_id),
            },
    {
        broadcast use vstd::std_specs::btree::group_btree_axioms;

        self.requests.get(&request_id)
    }

    /// Notes that a request is over.
    pub fn remove(&mut self, request_id: u64)
        ensures
            final(self)@ == old(self)@.remove(request_id),
    {
        broadcast use vstd::std_specs::btree::group_btree_axioms;

        let _ = self.requests.remove(&request_id);
    }

    /// The identifiers of the active requests, each once.
    pub fn identifiers(&self) -> (identifiers: Vec<u64>)
        ensures
            identifiers@.to_set() == self@.dom(),
            identifiers@.no_duplicates(),
    {
        broadcast use vstd::std_specs::btree::group_btree_axioms;

        let mut identifiers: Vec<u64> = Vec::new();
        for id in keys: self.requests.keys()
            invariant
                keys.seq().unref().to_set() == self.requests@.dom(),
                keys.seq().no_duplicates(),
                identifiers@.len() == keys.index(),
                forall|k: int|
                    0 <= k < keys.index() ==> #[trigger] identifiers@[k] == keys.seq().unref()[k],
                keys.index() == keys.seq().len() ==> identifiers@ =~= keys.seq().unref(),
        {
            identifiers.push(*id);
        }
        identifiers
    }
}

/// What decoding a text as standard padded base64 gives: the bytes, or what the decoder says.
pub uninterp spec fn base64_decoded(text: Seq<char>) -> Result<Seq<u8>, Seq<char>>;

/// The standard padded base64 text of bytes.
pub uninterp spec fn base64_text(bytes: Seq<u8>) -> Seq<char>;

/// Calls `decode` of the `base64` crate's `STANDARD` engine and renders its error with `Display`.
/// Bytes and error text are a function of the text alone.
#[verifier::external_body]
fn decode_base64(text: &str) -> (result: Result<Vec<u8>, String>)
    ensures
        base64_decoded(text@) == (match result {
            Ok(bytes) => Ok::<Seq<u8>, Seq<char>>(bytes@),
            Err(error) => Err::<Seq<u8>, Seq<char>>(error@),
        }),
{
    base64::Engine::decode(&base64::engine::general_purpose::STANDARD, text).map_err(
        |error| error.to_string(),
    )
}

/// Calls `encode` of the `base64` crate's `STANDARD` engine. The text is a function of the bytes
/// alone, and the same engine's `decode` gives the bytes back.
#[verifier::external_body]
fn encode_base64(bytes: &[u8]) -> (text: String)
    requires
        bytes@.len() <= SNAPSHOT_CHUNK_BYTES,
    ensures
        text@ == base64_text(bytes@),
        base64_decoded(text@) is Ok && base64_decoded(text@)->Ok_0 == bytes@,
{
    base64::Engine::encode(&base64::engine::general_purpose::STANDARD, bytes)
}

/// Whether a request needs the administrative role.
pub open spec fn is_administrative(request: ClientRequest) -> bool {
    match request {
        ClientRequest::DatabaseCreate { .. }
        | ClientRequest::DatabaseList
        | ClientRequest::DatabaseInspect { .. }
        | ClientRequest::DatabaseRename { .. }
        | ClientRequest::DatabaseDrop { .. }
        | ClientRequest::SnapshotExport { .. }
        | ClientRequest::SnapshotRestoreBegin { .. }
        | ClientRequest::SnapshotRestoreChunk { .. }
        | ClientRequest::SnapshotRestoreCommit
        | ClientRequest::SnapshotRestoreAbort
        | ClientRequest::LogicalExport { .. }
        | ClientRequest::LogicalImport { .. } => true,
        _ => false,
    }
}

/// Whether a request changes which Database a transaction would run on, or what it holds.
pub open spec fn changes_context(request: ClientRequest) -> bool {
    match request {
        ClientRequest::SelectDatabase { .. }
        | ClientRequest::DatabaseRename { .. }
        | ClientRequest::DatabaseDrop { .. }
        | ClientRequest::SnapshotRestoreBegin { .. }
        | ClientRequest::SnapshotRestoreChunk { .. }
        | ClientRequest::SnapshotRestoreCommit
        | ClientRequest::LogicalImport { .. } => true,
        _ => false,
    }
}

/// Tests whether a request needs the administrative role.
pub fn is_admin_request(request: &ClientRequest) -> (admin: bool)
    ensures
        admin == is_administrative(*request),
{
    match request {
        ClientRequest::DatabaseCreate { .. }
        | ClientRequest::DatabaseList
        | ClientRequest::DatabaseInspect { .. }
        | ClientRequest::DatabaseRename { .. }
        | ClientRequest::DatabaseDrop { .. }
        | ClientRequest::SnapshotExport { .. }
        | ClientRequest::SnapshotRestoreBegin { .. }
        | ClientRequest::SnapshotRestoreChunk { .. }
        | ClientRequest::SnapshotRestoreCommit
        | ClientRequest::SnapshotRestoreAbort
        | ClientRequest::LogicalExport { .. }
        | ClientRequest::LogicalImport { .. } => true,
        _ => false,
    }
}

/// Tests whether a request changes what a transaction would run on.
pub fn changes_database_context(request: &ClientRequest) -> (changes: bool)
    ensures
        changes == changes_context(*request),
{
    match request {
        ClientRequest::SelectDatabase { .. }
        | ClientRequest::DatabaseRename { .. }
        | ClientRequest::DatabaseDrop { .. }
        | ClientRequest::SnapshotRestoreBegin { .. }
        | ClientRequest::SnapshotRestoreChunk { .. }
        | ClientRequest::SnapshotRestoreCommit
        | ClientRequest::LogicalImport { .. } => true,
        _ => false,
    }
}

/// Work that a request asks for before it can be answered.
#[derive(Debug, PartialEq)]
pub enum Work {
    /// Look a Database up for selection.
    Select {
        /// Catalog name.
        database: String,
    },
    /// Execute a query.
    Execute {
        /// Stable identity of the selected Database.
        database_id: String,
        /// Query text.
        query: String,
        /// Named query parameters.
        parameters: Vec<JsonField>,
        /// Whether write syntax is rejected.
        read_only: bool,
        /// Whether rows are sent as events.
        stream: bool,
        /// Limits of the client.
        limits: Option<WireQueryLimits>,
    },
    /// Execute and commit a transaction.
    Commit {
        /// Stable identity of the selected Database.
        database_id: String,
        /// The queued queries.
        statements: Vec<QueuedStatement>,
    },
    /// Cancel an active request.
    Cancel {
        /// Its identifier.
        target_request_id: u64,
    },
    /// Create a Database.
    Create {
        /// New catalog name.
        name: String,
    },
    /// List the Databases.
    List,
    /// Inspect a Database.
    Inspect {
        /// Catalog name.
        database: String,
    },
    /// Rename a Database.
    Rename {
        /// Catalog name.
        database: String,
        /// New catalog name.
        new_name: String,
    },
    /// Drop a Database.
    Drop {
        /// Catalog name.
        database: String,
        /// Confirmation.
        confirm_name: String,
    },
    /// Export a snapshot.
    ExportSnapshot {
        /// Catalog name.
        database: String,
    },
    /// Look a Database up for an upload.
    BeginUpload {
        /// Catalog name.
        database: String,
        /// Announced size.
        total_bytes: u64,
    },
    /// Replace a Database by an uploaded snapshot.
    Restore {
        /// Catalog name.
        database: String,
        /// The snapshot.
        bytes: Vec<u8>,
    },
    /// Export a logical package.
    ExportLogical {
        /// Catalog name.
        database: String,
    },
    /// Import a logical package.
    ImportLogical {
        /// Catalog name.
        database: String,
        /// The package document.
        package: Json,
    },
}

/// What the server does with a request.
#[derive(Debug, PartialEq)]
pub enum Step {
    /// Answer it at once.
    Reply(ServerResponse),
    /// Do this first.
    Perform(Work),
}

/// Whether a step answers with a failure.
pub open spec fn is_refusal(step: Step, failure: FailureView) -> bool {
    step matches Step::Reply(ServerResponse::Error { code, message, retryable }) && code
        == failure.code && message@ == failure.message && retryable == failure.retryable
}

/// What a chunk of an upload is refused with, if it is.
pub open spec fn chunk_refusal(
    upload: SnapshotUpload,
    sequence: u64,
    decoded: Result<Seq<u8>, Seq<char>>,
) -> Option<FailureView> {
    if sequence != upload.next_sequence {
        Some(
            permanent(
                ErrorCode::ProtocolViolation,
                "snapshot chunk sequence is not contiguous"@,
            ),
        )
    } else {
        match decoded {
            Err(error) => Some(
                permanent(
                    ErrorCode::ProtocolViolation,
                    "snapshot chunk is not valid base64: "@ + error,
                ),
            ),
            Ok(chunk) => if chunk.len() == 0 || chunk.len() > SNAPSHOT_CHUNK_BYTES {
                Some(
                    permanent(
                        ErrorCode::RequestTooLarge,
                        "snapshot chunk is empty or exceeds the chunk bound"@,
                    ),
                )
            } else if upload.bytes@.len() + chunk.len() > upload.total_bytes {
                Some(
                    permanent(
                        ErrorCode::RequestTooLarge,
                        "snapshot chunks exceed declared total_bytes"@,
                    ),
                )
            } else {
                None
            },
        }
    }
}

/// What a query is refused with, if it is.
pub open spec fn query_refusal(
    state: ConnectionState,
    stream: bool,
    limited: bool,
    max_statements: usize,
) -> Option<FailureView> {
    if state.selected_database_id is None {
        Some(permanent(ErrorCode::DatabaseNotSelected, "select a Database before querying"@))
    } else {
        match state.transaction {
            None => None,
            Some(statements) => if stream {
                Some(
                    permanent(
                        ErrorCode::ProtocolViolation,
                        "streaming is unavailable while a transaction is being queued"@,
                    ),
                )
            } else if limited {
                Some(
                    permanent(
                        ErrorCode::ProtocolViolation,
                        "explicit transactions use the server transaction budget"@,
                    ),
                )
            } else if statements@.len() >= max_statements {
                Some(
                    permanent(
                        ErrorCode::ResourceLimit,
                        "transaction statement limit exceeded"@,
                    ),
                )
            } else {
                None
            },
        }
    }
}

/// What a request is refused with by itself, if it is; `target_active` says whether the request it
/// wants to cancel is active.
pub open spec fn own_refusal(
    state: ConnectionState,
    request: ClientRequest,
    limits: LimitConfig,
    target_active: bool,
) -> Option<FailureView> {
    match request {
        ClientRequest::Hello { .. } => Some(
            permanent(
                ErrorCode::ProtocolViolation,
                "hello may only be sent as the first frame"@,
            ),
        ),
        ClientRequest::Query { stream, limits: requested, .. } => query_refusal(
            state,
            stream,
            requested is Some,
            limits.max_transaction_statements,
        ),
        ClientRequest::Begin => if state.transaction is Some {
            Some(
                permanent(
                    ErrorCode::TransactionAlreadyActive,
                    "a transaction is already active"@,
                ),
            )
        } else if state.selected_database_id is None {
            Some(
                permanent(
                    ErrorCode::DatabaseNotSelected,
                    "select a Database before beginning a transaction"@,
                ),
            )
        } else {
            None
        },
        ClientRequest::Commit => if state.transaction is None {
            Some(permanent(ErrorCode::NoTransaction, "no transaction is active"@))
        } else if state.selected_database_id is None {
            Some(permanent(ErrorCode::DatabaseNotSelected, "selected Database was cleared"@))
        } else {
            None
        },
        ClientRequest::Rollback => if state.transaction is None {
            Some(permanent(ErrorCode::NoTransaction, "no transaction is active"@))
        } else {
            None
        },
        ClientRequest::Cancel { .. } => if target_active {
            None
        } else {
            Some(
                permanent(
                    ErrorCode::ProtocolViolation,
                    "target request is not active on this connection"@,
                ),
            )
        },
        ClientRequest::SnapshotRestoreBegin { total_bytes, .. } => if state.restore is Some {
            Some(
                permanent(
                    ErrorCode::ProtocolViolation,
                    "a snapshot upload is already active"@,
                ),
            )
        } else if total_bytes == 0 || total_bytes > limits.max_snapshot_bytes {
            Some(
                permanent(
                    ErrorCode::RequestTooLarge,
                    "snapshot size is zero or exceeds max_snapshot_bytes"@,
                ),
            )
        } else {
            None
        },
        ClientRequest::SnapshotRestoreChunk { sequence, data } => match state.restore {
            None => Some(
                permanent(ErrorCode::ProtocolViolation, "no snapshot upload is active"@),
            ),
            Some(upload) => chunk_refusal(upload, sequence, base64_decoded(data@)),
        },
        ClientRequest::SnapshotRestoreCommit => match state.restore {
            None => Some(
                permanent(ErrorCode::ProtocolViolation, "no snapshot upload is active"@),
            ),
            Some(upload) => if upload.bytes@.len() != upload.total_bytes {
                Some(
                    permanent(
                        ErrorCode::ProtocolViolation,
                        "snapshot upload byte count does not match total_bytes"@,
                    ),
                )
            } else {
                None
            },
        },
        _ => None,
    }
}

/// What a request is refused with, if it is: first for want of the role, then for a transaction
/// that it would disturb, then by itself.
pub open spec fn refusal(
    state: ConnectionState,
    request: ClientRequest,
    limits: LimitConfig,
    target_active: bool,
) -> Option<FailureView> {
    if state.role != ClientRole::Admin && is_administrative(request) {
        Some(permanent(ErrorCode::PermissionDenied, "administrative credential is required"@))
    } else if state.transaction is Some && changes_context(request) {
        Some(
            permanent(
                ErrorCode::ProtocolViolation,
                "Database selection and lifecycle changes are unavailable during a transaction"@,
            ),
        )
    } else {
        own_refusal(state, request, limits, target_active)
    }
}

/// Whether the request wants to cancel an active one.
pub open spec fn cancels_active<T>(request: ClientRequest, active: Map<u64, T>) -> bool {
    request matches ClientRequest::Cancel { target_request_id } && active.dom().contains(
        target_request_id,
    )
}

/// Whether only the transaction may differ.
pub open spec fn same_but_transaction(before: ConnectionState, after: ConnectionState) -> bool {
    &&& after.role == before.role
    &&& after.selected_database_id == before.selected_database_id
    &&& after.restore == before.restore
    &&& after.last_request_id == before.last_request_id
}

/// Whether only the upload may differ.
pub open spec fn same_but_upload(before: ConnectionState, after: ConnectionState) -> bool {
    &&& after.role == before.role
    &&& after.selected_database_id == before.selected_database_id
    &&& after.transaction == before.transaction
    &&& after.last_request_id == before.last_request_id
}

/// What an accepted request does to the connection, and its step.
pub open spec fn accepted(
    before: ConnectionState,
    after: ConnectionState,
    request: ClientRequest,
    step: Step,
) -> bool {
    match request {
        ClientRequest::Hello { .. } => false,
        ClientRequest::Ping => after == before && step == Step::Reply(ServerResponse::Pong),
        ClientRequest::SelectDatabase { database } => after == before && step == Step::Perform(
            Work::Select { database },
        ),
        ClientRequest::Query { query, parameters, read_only, stream, limits } =>
            match before.transaction {
            None => after == before && step == Step::Perform(
                Work::Execute {
                    database_id: before.selected_database_id->0,
                    query,
                    parameters,
                    read_only,
                    stream,
                    limits,
                },
            ),
            Some(statements) => {
                &&& same_but_transaction(before, after)
                &&& after.transaction matches Some(queued) && queued@ == statements@.push(
                    QueuedStatement { query, parameters, read_only },
                )
                &&& step == Step::Reply(
                    ServerResponse::Queued { statements: (statements@.len() + 1) as u64 },
                )
            },
        },
        ClientRequest::Begin => {
            &&& same_but_transaction(before, after)
            &&& after.transaction matches Some(queued) && queued@.len() == 0
            &&& step matches Step::Reply(ServerResponse::Transaction { state, results }) && state@
                == "begun"@ && results@.len() == 0
        },
        ClientRequest::Commit => {
            &&& same_but_transaction(before, after)
            &&& after.transaction is None
            &&& step == Step::Perform(
                Work::Commit {
                    database_id: before.selected_database_id->0,
                    statements: before.transaction->0,
                },
            )
        },
        ClientRequest::Rollback => {
            &&& same_but_transaction(before, after)
            &&& after.transaction is None
            &&& step matches Step::Reply(ServerResponse::Transaction { state, results }) && state@
                == "rolled_back"@ && results@.len() == 0
        },
        ClientRequest::Cancel { target_request_id } => after == before && step == Step::Perform(
            Work::Cancel { target_request_id },
        ),
        ClientRequest::DatabaseCreate { name } => after == before && step == Step::Perform(
            Work::Create { name },
        ),
        ClientRequest::DatabaseList => after == before && step == Step::Perform(Work::List),
        ClientRequest::DatabaseInspect { database } => after == before && step == Step::Perform(
            Work::Inspect { database },
        ),
        ClientRequest::DatabaseRename { database, new_name } => after == before && step
            == Step::Perform(Work::Rename { database, new_name }),
        ClientRequest::DatabaseDrop { database, confirm_name } => after == before && step
            == Step::Perform(Work::Drop { database, confirm_name }),
        ClientRequest::SnapshotExport { database } => after == before && step == Step::Perform(
            Work::ExportSnapshot { database },
        ),
        ClientRequest::SnapshotRestoreBegin { database, total_bytes } => after == before && step
            == Step::Perform(Work::BeginUpload { database, total_bytes }),
        ClientRequest::SnapshotRestoreChunk { sequence, data } => {
            &&& same_but_upload(before, after)
            &&& before.restore is Some
            &&& after.restore is Some
            &&& upload_extended(before.restore->0, after.restore->0, base64_decoded(data@)->Ok_0)
            &&& is_restore_reply(step, "chunk_accepted"@, after.restore->0.bytes@.len())
        },
        ClientRequest::SnapshotRestoreCommit => {
            &&& same_but_upload(before, after)
            &&& after.restore is None
            &&& step == Step::Perform(
                Work::Restore {
                    database: before.restore->0.database,
                    bytes: before.restore->0.bytes,
                },
            )
        },
        ClientRequest::SnapshotRestoreAbort => {
            &&& same_but_upload(before, after)
            &&& after.restore is None
            &&& is_restore_reply(
                step,
                "aborted"@,
                match before.restore {
                    Some(upload) => upload.bytes@.len(),
                    None => 0,
                },
            )
        },
        ClientRequest::LogicalExport { database } => after == before && step == Step::Perform(
            Work::ExportLogical { database },
        ),
        ClientRequest::LogicalImport { database, package } => after == before && step
            == Step::Perform(Work::ImportLogical { database, package }),
    }
}

/// Whether an upload grew by one chunk.
pub open spec fn upload_extended(
    before: SnapshotUpload,
    after: SnapshotUpload,
    chunk: Seq<u8>,
) -> bool {
    &&& after.database == before.database
    &&& after.total_bytes == before.total_bytes
    &&& after.next_sequence == before.next_sequence + 1
    &&& after.bytes@ == before.bytes@ + chunk
}

/// Whether a step reports the progress of an upload.
pub open spec fn is_restore_reply(step: Step, state: Seq<char>, bytes: nat) -> bool {
    step matches Step::Reply(ServerResponse::SnapshotRestore { state: text, bytes: count }) && text@
        == state && count == bytes
}

fn refuse(code: ErrorCode, message: &str) -> (step: Step)
    ensures
        is_refusal(step, permanent(code, message@)),
{
    Step::Reply(ServerResponse::Error { code, message: message.to_owned(), retryable: false })
}

fn restore_reply(state: &str, bytes: u64) -> (step: Step)
    ensures
        is_restore_reply(step, state@, bytes as nat),
{
    Step::Reply(ServerResponse::SnapshotRestore { state: state.to_owned(), bytes })
}

/// Adds the chunk `decoded`, as it came out of the decoder, to an upload.
pub fn append_chunk(
    upload: &mut SnapshotUpload,
    sequence: u64,
    decoded: Result<Vec<u8>, String>,
) -> (step: Step)
    requires
        old(upload).well_formed(),
    ensures
        final(upload).well_formed(),
        match chunk_refusal(
            *old(upload),
            sequence,
            match decoded {
                Ok(chunk) => Ok::<Seq<u8>, Seq<char>>(chunk@),
                Err(error) => Err::<Seq<u8>, Seq<char>>(error@),
            },
        ) {
            Some(failure) => is_refusal(step, failure) && *final(upload) == *old(upload),
            None => upload_extended(*old(upload), *final(upload), decoded->Ok_0@)
                && is_restore_reply(step, "chunk_accepted"@, final(upload).bytes@.len()),
        },
{
    if sequence != upload.next_sequence {
        return refuse(
            ErrorCode::ProtocolViolation,
            "snapshot chunk sequence is not contiguous",
        );
    }
    match decoded {
        Err(error) => refuse(
            ErrorCode::ProtocolViolation,
            join2("snapshot chunk is not valid base64: ", error.as_str()).as_str(),
        ),
        Ok(chunk) => {
            if chunk.len() == 0 || chunk.len() > SNAPSHOT_CHUNK_BYTES {
                return refuse(
                    ErrorCode::RequestTooLarge,
                    "snapshot chunk is empty or exceeds the chunk bound",
                );
            }
            let room: u64 = upload.total_bytes - upload.bytes.len() as u64;
            if chunk.len() as u64 > room {
                return refuse(
                    ErrorCode::RequestTooLarge,
                    "snapshot chunks exceed declared total_bytes",
                );
            }
            let ghost before = upload.bytes@;
            let ghost added = chunk@;
            let mut chunk = chunk;
            upload.bytes.append(&mut chunk);
            proof {
                assert(upload.bytes@ =~= before + added);
            }
            upload.next_sequence = upload.next_sequence + 1;
            restore_reply("chunk_accepted", upload.bytes.len() as u64)
        },
    }
}

fn dispatch_query(
    state: &mut ConnectionState,
    query: String,
    parameters: Vec<JsonField>,
    read_only: bool,
    stream: bool,
    limits: Option<WireQueryLimits>,
    max_statements: usize,
) -> (step: Step)
    requires
        old(state).well_formed(),
    ensures
        final(state).well_formed(),
        match query_refusal(*old(state), stream, limits is Some, max_statements) {
            Some(failure) => is_refusal(step, failure) && *final(state) == *old(state),
            None => accepted(
                *old(state),
                *final(state),
                (ClientRequest::Query { query, parameters, read_only, stream, limits }),
                step,
            ),
        },
{
    let database_id = match &state.selected_database_id {
        Some(id) => id.clone(),
        None => {
            return refuse(ErrorCode::DatabaseNotSelected, "select a Database before querying");
        },
    };
    match state.transaction.take() {
        None => Step::Perform(
            Work::Execute { database_id, query, parameters, read_only, stream, limits },
        ),
        Some(statements) => {
            let mut statements = statements;
            if stream {
                state.transaction = Some(statements);
                return refuse(
                    ErrorCode::ProtocolViolation,
                    "streaming is unavailable while a transaction is being queued",
                );
            }
            if limits.is_some() {
                state.transaction = Some(statements);
                return refuse(
                    ErrorCode::ProtocolViolation,
                    "explicit transactions use the server transaction budget",
                );
            }
            if statements.len() >= max_statements {
                state.transaction = Some(statements);
                return refuse(ErrorCode::ResourceLimit, "transaction statement limit exceeded");
            }
            statements.push(QueuedStatement { query, parameters, read_only });
            let count: u64 = statements.len() as u64;
            state.transaction = Some(statements);
            Step::Reply(ServerResponse::Queued { statements: count })
        },
    }
}

fn dispatch_upload(state: &mut ConnectionState, request: ClientRequest, limits: &LimitConfig) -> (step:
    Step)
    requires
        old(state).well_formed(),
        request is SnapshotRestoreBegin || request is SnapshotRestoreChunk
            || request is SnapshotRestoreCommit || request is SnapshotRestoreAbort,
    ensures
        final(state).well_formed(),
        match own_refusal(*old(state), request, *limits, false) {
            Some(failure) => is_refusal(step, failure) && *final(state) == *old(state),
            None => accepted(*old(state), *final(state), request, step),
        },
{
    match request {
        ClientRequest::SnapshotRestoreBegin { database, total_bytes } => {
            if state.restore.is_some() {
                return refuse(
                    ErrorCode::ProtocolViolation,
                    "a snapshot upload is already active",
                );
            }
            if total_bytes == 0 || total_bytes > limits.max_snapshot_bytes {
                return refuse(
                    ErrorCode::RequestTooLarge,
                    "snapshot size is zero or exceeds max_snapshot_bytes",
                );
            }
            Step::Perform(Work::BeginUpload { database, total_bytes })
        },
        ClientRequest::SnapshotRestoreChunk { sequence, data } => match state.restore.take() {
            None => refuse(ErrorCode::ProtocolViolation, "no snapshot upload is active"),
            Some(upload) => {
                let mut upload = upload;
                if sequence != upload.next_sequence {
                    state.restore = Some(upload);
                    return refuse(
                        ErrorCode::ProtocolViolation,
                        "snapshot chunk sequence is not contiguous",
                    );
                }
                let step = append_chunk(&mut upload, sequence, decode_base64(data.as_str()));
                state.restore = Some(upload);
                step
            },
        },
        ClientRequest::SnapshotRestoreCommit => match state.restore.take() {
            None => refuse(ErrorCode::ProtocolViolation, "no snapshot upload is active"),
            Some(upload) => {
                if upload.bytes.len() as u64 != upload.total_bytes {
                    state.restore = Some(upload);
                    return refuse(
                        ErrorCode::ProtocolViolation,
                        "snapshot upload byte count does not match total_bytes",
                    );
                }
                Step::Perform(Work::Restore { database: upload.database, bytes: upload.bytes })
            },
        },
        _ => {
            let bytes: u64 = match state.restore.take() {
                Some(upload) => upload.bytes.len() as u64,
                None => 0,
            };
            restore_reply("aborted", bytes)
        },
    }
}

fn dispatch_transaction(state: &mut ConnectionState, request: ClientRequest, limits: &LimitConfig) -> (step:
    Step)
    requires
        old(state).well_formed(),
        request is Begin || request is Commit || request is Rollback,
    ensures
        final(state).well_formed(),
        match own_refusal(*old(state), request, *limits, false) {
            Some(failure) => is_refusal(step, failure) && *final(state) == *old(state),
            None => accepted(*old(state), *final(state), request, step),
        },
{
    match request {
        ClientRequest::Begin => {
            if state.transaction.is_some() {
                return refuse(
                    ErrorCode::TransactionAlreadyActive,
                    "a transaction is already active",
                );
            }
            if state.selected_database_id.is_none() {
                return refuse(
                    ErrorCode::DatabaseNotSelected,
                    "select a Database before beginning a transaction",
                );
            }
            state.transaction = Some(Vec::new());
            Step::Reply(
                ServerResponse::Transaction { state: "begun".to_owned(), results: Vec::new() },
            )
        },
        ClientRequest::Commit => match state.transaction.take() {
            None => refuse(ErrorCode::NoTransaction, "no transaction is active"),
            Some(statements) => match &state.selected_database_id {
                None => refuse(ErrorCode::DatabaseNotSelected, "selected Database was cleared"),
                Some(id) => Step::Perform(Work::Commit { database_id: id.clone(), statements }),
            },
        },
        _ => match state.transaction.take() {
            None => refuse(ErrorCode::NoTransaction, "no transaction is active"),
            Some(_) => Step::Reply(
                ServerResponse::Transaction { state: "rolled_back".to_owned(), results: Vec::new() },
            ),
        },
    }
}

/// Decides what to do with a request of an authenticated connection.
pub fn dispatch<T>(
    state: &mut ConnectionState,
    request: ClientRequest,
    limits: &LimitConfig,
    active: &ActiveRequests<T>,
) -> (step: Step)
    requires
        old(state).well_formed(),
    ensures
        final(state).well_formed(),
        match refusal(*old(state), request, *limits, cancels_active(request, active@)) {
            Some(failure) => is_refusal(step, failure) && *final(state) == *old(state),
            None => accepted(*old(state), *final(state), request, step),
        },
{
    if state.role != ClientRole::Admin && is_admin_request(&request) {
        return refuse(ErrorCode::PermissionDenied, "administrative credential is required");
    }
    if state.transaction.is_some() && changes_database_context(&request) {
        return refuse(
            ErrorCode::ProtocolViolation,
            "Database selection and lifecycle changes are unavailable during a transaction",
        );
    }
    match request {
        ClientRequest::Hello { .. } => refuse(
            ErrorCode::ProtocolViolation,
            "hello may only be sent as the first frame",
        ),
        ClientRequest::Ping => Step::Reply(ServerResponse::Pong),
        ClientRequest::SelectDatabase { database } => Step::Perform(Work::Select { database }),
        ClientRequest::Query { query, parameters, read_only, stream, limits: requested } =>
            dispatch_query(
            state,
            query,
            parameters,
            read_only,
            stream,
            requested,
            limits.max_transaction_statements,
        ),
        ClientRequest::Begin | ClientRequest::Commit | ClientRequest::Rollback =>
            dispatch_transaction(state, request, limits),
        ClientRequest::Cancel { target_request_id } => if active.get(target_request_id).is_some() {
            Step::Perform(Work::Cancel { target_request_id })
        } else {
            refuse(
                ErrorCode::ProtocolViolation,
                "target request is not active on this connection",
            )
        },
        ClientRequest::DatabaseCreate { name } => Step::Perform(Work::Create { name }),
        ClientRequest::DatabaseList => Step::Perform(Work::List),
        ClientRequest::DatabaseInspect { database } => Step::Perform(Work::Inspect { database }),
        ClientRequest::DatabaseRename { database, new_name } => Step::Perform(
            Work::Rename { database, new_name },
        ),
        ClientRequest::DatabaseDrop { database, confirm_name } => Step::Perform(
            Work::Drop { database, confirm_name },
        ),
        ClientRequest::SnapshotExport { database } => Step::Perform(
            Work::ExportSnapshot { database },
        ),
        ClientRequest::LogicalExport { database } => Step::Perform(Work::ExportLogical { database }),
        ClientRequest::LogicalImport { database, package } => Step::Perform(
            Work::ImportLogical { database, package },
        ),
        _ => dispatch_upload(state, request, limits),
    }
}

/// The failure for a request identifier that does not increase.
pub open spec fn stale_identifier_view() -> FailureView {
    permanent(
        ErrorCode::ProtocolViolation,
        "request identifiers must be positive and strictly increasing"@,
    )
}

/// A connection that has seen this request identifier.
pub open spec fn advanced_to(state: ConnectionState, request_id: u64) -> ConnectionState {
    ConnectionState { last_request_id: request_id, ..state }
}

/// Takes in one frame of an authenticated connection. Its answer carries the frame's identifier.
pub fn receive<T>(
    state: &mut ConnectionState,
    frame: ClientFrame,
    limits: &LimitConfig,
    active: &ActiveRequests<T>,
) -> (step: Step)
    requires
        old(state).well_formed(),
    ensures
        final(state).well_formed(),
        frame.request_id <= old(state).last_request_id ==> is_refusal(step, stale_identifier_view())
            && *final(state) == *old(state),
        frame.request_id > old(state).last_request_id ==> {
            let before = advanced_to(*old(state), frame.request_id);
            match refusal(before, frame.request, *limits, cancels_active(frame.request, active@)) {
                Some(failure) => is_refusal(step, failure) && *final(state) == before,
                None => accepted(before, *final(state), frame.request, step),
            }
        },
{
    if frame.request_id <= state.last_request_id {
        return refuse(
            ErrorCode::ProtocolViolation,
            "request identifiers must be positive and strictly increasing",
        );
    }
    state.last_request_id = frame.request_id;
    dispatch(state, frame.request, limits, active)
}

/// What the server does with the first frame of a connection.
pub enum Handshake {
    /// Answer with this frame and close.
    Reject(ServerFrame),
    /// Close without an answer, for this reason.
    Close(String),
    /// Answer with this frame and go on.
    Accept(ServerFrame, ConnectionState),
}

/// The failure for a first frame that is no hello.
pub open spec fn no_hello_view() -> FailureView {
    permanent(ErrorCode::ProtocolViolation, "the first frame must be hello"@)
}

/// The failure for a protocol version that the server does not speak.
pub open spec fn unsupported_view(version: u32) -> FailureView {
    permanent(
        ErrorCode::UnsupportedProtocol,
        "client requested protocol "@ + decimal_text(version as nat)
            + "; server supports exactly 1"@,
    )
}

/// The failure for a credential that is none of the daemon's.
pub open spec fn bad_credential_view() -> FailureView {
    permanent(ErrorCode::AuthenticationFailed, "credential is invalid"@)
}

/// The state of a connection that has just authenticated.
pub open spec fn is_fresh(state: ConnectionState, role: ClientRole, request_id: u64) -> bool {
    &&& state.role == role
    &&& state.selected_database_id is None
    &&& state.transaction is None
    &&& state.restore is None
    &&& state.last_request_id == request_id
}

/// Whether a frame answers a hello.
pub open spec fn is_hello_reply(
    frame: ServerFrame,
    request_id: u64,
    role: ClientRole,
    server_version: Seq<char>,
) -> bool {
    &&& frame.request_id == request_id
    &&& frame.response matches ServerResponse::Hello {
        protocol_version,
        server_version: version,
        role: granted,
        max_frame_bytes,
    } && protocol_version == DATABASE_PROTOCOL_VERSION && version@ == server_version && granted
        == role && max_frame_bytes == MAX_FRAME_BYTES
}

/// Decides on the first frame of a connection.
pub fn handshake(frame: ClientFrame, credentials: &Credentials, server_version: &str) -> (decision:
    Handshake)
    ensures
        match frame.request {
            ClientRequest::Hello { protocol_version, credential, .. } => if frame.request_id == 0 {
                decision matches Handshake::Close(reason) && reason@
                    == "request identifiers must be positive"@
            } else if protocol_version != DATABASE_PROTOCOL_VERSION {
                decision matches Handshake::Reject(reply) && is_failure_frame(
                    reply,
                    frame.request_id,
                    unsupported_view(protocol_version),
                )
            } else if credential@ == credentials.admin_text() {
                decision matches Handshake::Accept(reply, state) && is_hello_reply(
                    reply,
                    frame.request_id,
                    ClientRole::Admin,
                    server_version@,
                ) && is_fresh(state, ClientRole::Admin, frame.request_id)
            } else if credential@ == credentials.query_text() {
                decision matches Handshake::Accept(reply, state) && is_hello_reply(
                    reply,
                    frame.request_id,
                    ClientRole::Query,
                    server_version@,
                ) && is_fresh(state, ClientRole::Query, frame.request_id)
            } else {
                decision matches Handshake::Reject(reply) && is_failure_frame(
                    reply,
                    frame.request_id,
                    bad_credential_view(),
                )
            },
            _ => decision matches Handshake::Reject(reply) && is_failure_frame(
                reply,
                frame.request_id,
                no_hello_view(),
            ),
        },
        decision matches Handshake::Accept(_, state) ==> state.well_formed(),
{
    let request_id: u64 = frame.request_id;
    match frame.request {
        ClientRequest::Hello { protocol_version, credential, .. } => {
            if request_id == 0 {
                return Handshake::Close("request identifiers must be positive".to_owned());
            }
            if protocol_version != DATABASE_PROTOCOL_VERSION {
                let message = join3(
                    "client requested protocol ",
                    decimal(protocol_version as u64).as_str(),
                    "; server supports exactly 1",
                );
                return Handshake::Reject(
                    failure_frame(
                        request_id,
                        ProtocolFailure::new(ErrorCode::UnsupportedProtocol, message.as_str()),
                    ),
                );
            }
            match credentials.authenticate(credential.as_str()) {
                None => Handshake::Reject(
                    failure_frame(
                        request_id,
                        ProtocolFailure::new(
                            ErrorCode::AuthenticationFailed,
                            "credential is invalid",
                        ),
                    ),
                ),
                Some(role) => {
                    let reply = ServerFrame {
                        request_id,
                        response: ServerResponse::Hello {
                            protocol_version: DATABASE_PROTOCOL_VERSION,
                            server_version: server_version.to_owned(),
                            role,
                            max_frame_bytes: MAX_FRAME_BYTES as u64,
                        },
                    };
                    let state = ConnectionState {
                        role,
                        selected_database_id: None,
                        transaction: None,
                        restore: None,
                        last_request_id: request_id,
                    };
                    Handshake::Accept(reply, state)
                },
            }
        },
        _ => Handshake::Reject(
            failure_frame(
                request_id,
                ProtocolFailure::new(
                    ErrorCode::ProtocolViolation,
                    "the first frame must be hello",
                ),
            ),
        ),
    }
}

/// Whether a frame answers `request_id` with `result`.
pub open spec fn answers(
    frame: ServerFrame,
    request_id: u64,
    result: Result<ServerResponse, ProtocolFailure>,
) -> bool {
    match result {
        Ok(response) => frame == (ServerFrame { request_id, response }),
        Err(failure) => is_failure_frame(frame, request_id, failure@),
    }
}

/// The frame that answers `request_id` with a response or a failure.
pub fn respond(request_id: u64, result: Result<ServerResponse, ProtocolFailure>) -> (frame:
    ServerFrame)
    ensures
        answers(frame, request_id, result),
        frame.request_id == request_id,
        result matches Ok(response) ==> frame.response == response,
        result matches Err(failure) ==> frame.response == (ServerResponse::Error {
            code: failure.code,
            message: failure.message,
            retryable: failure.retryable,
        }),
{
    match result {
        Ok(response) => ServerFrame { request_id, response },
        Err(failure) => failure_frame(request_id, failure),
    }
}

/// Takes in what came of looking a Database up for selection.
pub fn finish_select(
    state: &mut ConnectionState,
    request_id: u64,
    result: Result<DatabaseSummary, ProtocolFailure>,
) -> (frame: ServerFrame)
    requires
        old(state).well_formed(),
    ensures
        final(state).well_formed(),
        match result {
            Ok(database) => frame == (ServerFrame {
                request_id,
                response: ServerResponse::DatabaseSelected { database },
            }) && *final(state) == (ConnectionState {
                selected_database_id: Some(database.id),
                ..*old(state)
            }),
            Err(failure) => is_failure_frame(frame, request_id, failure@) && *final(state) == *old(
                state,
            ),
        },
{
    match result {
        Ok(database) => {
            state.selected_database_id = Some(database.id.clone());
            ServerFrame { request_id, response: ServerResponse::DatabaseSelected { database } }
        },
        Err(failure) => failure_frame(request_id, failure),
    }
}

/// Whether the connection has selected the Database with this identity.
pub open spec fn has_selected(state: ConnectionState, id: Seq<char>) -> bool {
    state.selected_database_id matches Some(selected) && selected@ == id
}

/// Takes in what came of dropping a Database: a connection that had selected it has selected none
/// and queues no transaction any more.
pub fn finish_drop(
    state: &mut ConnectionState,
    request_id: u64,
    result: Result<DatabaseSummary, ProtocolFailure>,
) -> (frame: ServerFrame)
    requires
        old(state).well_formed(),
    ensures
        final(state).well_formed(),
        match result {
            Ok(database) => frame == (ServerFrame {
                request_id,
                response: ServerResponse::DatabaseDropped {
                    database_id: database.id,
                    name: database.name,
                },
            }) && *final(state) == (if old(state).selected_database_id matches Some(selected)
                && selected@ == database.id@ {
                ConnectionState { selected_database_id: None, transaction: None, ..*old(state) }
            } else {
                *old(state)
            }) && (has_selected(*old(state), database.id@) <==> (old(
                state,
            ).selected_database_id matches Some(selected) && selected@ == database.id@)),
            Err(failure) => is_failure_frame(frame, request_id, failure@) && *final(state) == *old(
                state,
            ),
        },
{
    match result {
        Ok(database) => {
            let dropped: bool = match &state.selected_database_id {
                Some(selected) => text_eq(selected.as_str(), database.id.as_str()),
                None => false,
            };
            if dropped {
                state.selected_database_id = None;
                state.transaction = None;
            }
            ServerFrame {
                request_id,
                response: ServerResponse::DatabaseDropped {
                    database_id: database.id,
                    name: database.name,
                },
            }
        },
        Err(failure) => failure_frame(request_id, failure),
    }
}

/// Whether a frame reports the progress of an upload.
pub open spec fn is_restore_frame(
    frame: ServerFrame,
    request_id: u64,
    state: Seq<char>,
    bytes: nat,
) -> bool {
    &&& frame.request_id == request_id
    &&& frame.response matches ServerResponse::SnapshotRestore { state: text, bytes: count }
        && text@ == state && count == bytes
}

/// Takes in what came of looking a Database up for an upload.
pub fn finish_upload_begin(
    state: &mut ConnectionState,
    request_id: u64,
    database: String,
    total_bytes: u64,
    result: Result<DatabaseSummary, ProtocolFailure>,
) -> (frame: ServerFrame)
    requires
        old(state).well_formed(),
    ensures
        final(state).well_formed(),
        match result {
            Ok(_) => {
                &&& is_restore_frame(frame, request_id, "ready"@, 0)
                &&& same_but_upload(*old(state), *final(state))
                &&& final(state).restore matches Some(upload) && upload.database == database
                    && upload.total_bytes == total_bytes && upload.next_sequence == 0
                    && upload.bytes@.len() == 0
            },
            Err(failure) => is_failure_frame(frame, request_id, failure@) && *final(state) == *old(
                state,
            ),
        },
{
    match result {
        Ok(_) => {
            state.restore = Some(
                SnapshotUpload { database, total_bytes, next_sequence: 0, bytes: Vec::new() },
            );
            ServerFrame {
                request_id,
                response: ServerResponse::SnapshotRestore { state: "ready".to_owned(), bytes: 0 },
            }
        },
        Err(failure) => failure_frame(request_id, failure),
    }
}

/// The frame that answers the end of an upload of `bytes` bytes.
pub fn finish_restore(request_id: u64, bytes: u64, result: Result<(), ProtocolFailure>) -> (frame:
    ServerFrame)
    ensures
        match result {
            Ok(()) => is_restore_frame(frame, request_id, "restored"@, bytes as nat),
            Err(failure) => is_failure_frame(frame, request_id, failure@),
        },
{
    match result {
        Ok(()) => ServerFrame {
            request_id,
            response: ServerResponse::SnapshotRestore { state: "restored".to_owned(), bytes },
        },
        Err(failure) => failure_frame(request_id, failure),
    }
}

/// The failure of a read-only request that would write.
pub open spec fn mutating_view() -> FailureView {
    permanent(ErrorCode::QueryError, "read_only request rejected a mutating query"@)
}

/// Whether a read-only statement of a transaction would write; `mutating` says of each statement
/// whether it is a write.
pub open spec fn breaks_read_only(statements: Seq<QueuedStatement>, mutating: Seq<bool>) -> bool {
    exists|i: int|
        0 <= i < statements.len() && (#[trigger] statements[i]).read_only && mutating[i]
}

/// Admits a transaction whose read-only statements do not write.
pub fn admit_commit(statements: &Vec<QueuedStatement>, mutating: &Vec<bool>) -> (result: Result<
    (),
    ProtocolFailure,
>)
    requires
        mutating@.len() == statements@.len(),
    ensures
        result is Err <==> breaks_read_only(statements@, mutating@),
        result is Err ==> result->Err_0@ == mutating_view(),
{
    let mut i: usize = 0;
    while i < statements.len()
        invariant
            i <= statements@.len(),
            mutating@.len() == statements@.len(),
            forall|k: int|
                0 <= k < i ==> !((#[trigger] statements@[k]).read_only && mutating@[k]),
        decreases statements.len() - i,
    {
        if statements[i].read_only && mutating[i] {
            assert(breaks_read_only(statements@, mutating@)) by {
                assert(statements@[i as int].read_only);
            }
            return Err(
                ProtocolFailure::new(
                    ErrorCode::QueryError,
                    "read_only request rejected a mutating query",
                ),
            );
        }
        i = i + 1;
    }
    Ok(())
}

/// How a piece of work with a time limit went.
pub enum TimedRun<T> {
    /// It ended in time.
    InTime(Result<T, ProtocolFailure>),
    /// It was cancelled at its time limit and then ended.
    Late(Result<T, ProtocolFailure>),
    /// It broke down.
    Broken(String),
}

/// What a piece of work with a time limit gives. One that succeeds although it was cancelled has
/// succeeded; one that fails after it was cancelled has failed of the time limit.
pub open spec fn is_settled<T>(
    run: TimedRun<T>,
    late_message: Seq<char>,
    result: Result<T, ProtocolFailure>,
) -> bool {
    match run {
        TimedRun::InTime(outcome) => result == outcome,
        TimedRun::Late(Ok(value)) => result == Ok::<T, ProtocolFailure>(value),
        TimedRun::Late(Err(_)) => result matches Err(failure) && failure@ == permanent(
            ErrorCode::ResourceLimit,
            late_message,
        ),
        TimedRun::Broken(message) => result matches Err(failure) && failure@ == internal_view(
            message@,
        ),
    }
}

/// Decides what a piece of work with a time limit gives.
pub fn settle<T>(run: TimedRun<T>, late_message: &str) -> (result: Result<T, ProtocolFailure>)
    ensures
        is_settled(run, late_message@, result),
{
    match run {
        TimedRun::InTime(outcome) => outcome,
        TimedRun::Late(outcome) => match outcome {
            Ok(value) => Ok(value),
            Err(_) => Err(ProtocolFailure::new(ErrorCode::ResourceLimit, late_message)),
        },
        TimedRun::Broken(message) => Err(internal(message.as_str())),
    }
}

/// The frame that answers a commit.
pub fn finish_commit(request_id: u64, run: TimedRun<Vec<StatementResult>>) -> (frame: ServerFrame)
    ensures
        exists|result: Result<Vec<StatementResult>, ProtocolFailure>| #[trigger]
            is_settled(run, "transaction timeout exceeded"@, result) && match result {
                Ok(results) => {
                    &&& frame.request_id == request_id
                    &&& frame.response matches ServerResponse::Transaction {
                        state,
                        results: values,
                    } && state@ == "committed"@ && values@.len() == results@.len() && forall|i: int|
                        0 <= i < values@.len() ==> (#[trigger] values@[i])@ == statement_json(
                            results@[i],
                        )
                },
                Err(failure) => is_failure_frame(frame, request_id, failure@),
            },
{
    let result = settle(run, "transaction timeout exceeded");
    let ghost settled = result;
    assert(is_settled(run, "transaction timeout exceeded"@, settled));
    match result {
        Ok(results) => ServerFrame {
            request_id,
            response: ServerResponse::Transaction {
                state: "committed".to_owned(),
                results: statements(&results),
            },
        },
        Err(failure) => failure_frame(request_id, failure),
    }
}

/// The frames that answer a query whose rows are sent as events.
pub open spec fn is_row_stream(
    frames: Seq<ServerFrame>,
    request_id: u64,
    result: QueryResult,
) -> bool {
    let count = result.rows@.len();
    &&& frames.len() == count + 2
    &&& frames[0] == (ServerFrame {
        request_id,
        response: ServerResponse::StreamStart { columns: result.columns, ordered: result.ordered },
    })
    &&& forall|i: int|
        0 <= i < count ==> is_row_frame(#[trigger] frames[i + 1], request_id, result, i)
    &&& frames.last() == (ServerFrame {
        request_id,
        response: ServerResponse::StreamEnd { rows: count as u64 },
    })
}

/// Whether a frame carries the row at position `i`.
pub open spec fn is_row_frame(
    frame: ServerFrame,
    request_id: u64,
    result: QueryResult,
    i: int,
) -> bool {
    &&& frame.request_id == request_id
    &&& frame.response matches ServerResponse::StreamRow { row } && values_view(row@)
        == values_json(query_values_view(result.rows@[i]@))
}

/// Whether frames answer a query.
pub open spec fn answers_statement(
    frames: Seq<ServerFrame>,
    request_id: u64,
    result: StatementResult,
    stream: bool,
) -> bool {
    match result {
        StatementResult::Read(rows) if stream => is_row_stream(frames, request_id, rows),
        _ => {
            &&& frames.len() == 1
            &&& frames[0].request_id == request_id
            &&& frames[0].response matches ServerResponse::Result { statement } && statement@
                == statement_json(result)
        },
    }
}

fn row_frames(request_id: u64, result: QueryResult) -> (frames: Vec<ServerFrame>)
    ensures
        is_row_stream(frames@, request_id, result),
{
    let ghost whole = result;
    let rows = result.rows;
    let mut frames: Vec<ServerFrame> = Vec::new();
    frames.push(
        ServerFrame {
            request_id,
            response: ServerResponse::StreamStart {
                columns: result.columns,
                ordered: result.ordered,
            },
        },
    );
    let mut i: usize = 0;
    while i < rows.len()
        invariant
            i <= rows@.len(),
            rows == whole.rows,
            frames@.len() == i + 1,
            frames@[0] == (ServerFrame {
                request_id,
                response: ServerResponse::StreamStart {
                    columns: whole.columns,
                    ordered: whole.ordered,
                },
            }),
            forall|k: int|
                0 <= k < i ==> is_row_frame(#[trigger] frames@[k + 1], request_id, whole, k),
        decreases rows.len() - i,
    {
        let ghost before = frames@;
        frames.push(
            ServerFrame {
                request_id,
                response: ServerResponse::StreamRow { row: values_to_json(&rows[i]) },
            },
        );
        proof {
            assert forall|k: int| 0 <= k < i + 1 implies is_row_frame(
                #[trigger] frames@[k + 1],
                request_id,
                whole,
                k,
            ) by {
                if k < i {
                    assert(frames@[k + 1] == before[k + 1]);
                }
            }
        }
        i = i + 1;
    }
    let ghost before = frames@;
    frames.push(
        ServerFrame { request_id, response: ServerResponse::StreamEnd { rows: rows.len() as u64 } },
    );
    proof {
        assert forall|k: int| 0 <= k < whole.rows@.len() implies is_row_frame(
            #[trigger] frames@[k + 1],
            request_id,
            whole,
            k,
        ) by {
            assert(frames@[k + 1] == before[k + 1]);
        }
    }
    frames
}

/// The frames that answer a query.
pub fn statement_frames(request_id: u64, result: StatementResult, stream: bool) -> (frames: Vec<
    ServerFrame,
>)
    ensures
        answers_statement(frames@, request_id, result, stream),
{
    if stream {
        if let StatementResult::Read(rows) = result {
            return row_frames(request_id, rows);
        }
    }
    let mut frames: Vec<ServerFrame> = Vec::new();
    frames.push(
        ServerFrame {
            request_id,
            response: ServerResponse::Result { statement: statement(&result) },
        },
    );
    frames
}

/// The frames that answer a query after its run.
pub fn finish_query(request_id: u64, run: TimedRun<StatementResult>, stream: bool) -> (frames: Vec<
    ServerFrame,
>)
    ensures
        exists|result: Result<StatementResult, ProtocolFailure>| #[trigger]
            is_settled(run, "query timeout exceeded"@, result) && match result {
                Ok(value) => answers_statement(frames@, request_id, value, stream),
                Err(failure) => frames@.len() == 1 && is_failure_frame(
                    frames@[0],
                    request_id,
                    failure@,
                ),
            },
{
    let result = settle(run, "query timeout exceeded");
    let ghost settled = result;
    assert(is_settled(run, "query timeout exceeded"@, settled));
    match result {
        Ok(value) => statement_frames(request_id, value, stream),
        Err(failure) => {
            let mut frames: Vec<ServerFrame> = Vec::new();
            frames.push(failure_frame(request_id, failure));
            frames
        },
    }
}

/// How many chunks a snapshot of `length` bytes has.
pub open spec fn chunk_count(length: nat) -> nat {
    (length + SNAPSHOT_CHUNK_BYTES - 1) as nat / SNAPSHOT_CHUNK_BYTES as nat
}

/// The chunk at position `k` of a snapshot.
pub open spec fn chunk_of(bytes: Seq<u8>, k: int) -> Seq<u8> {
    let from = k * SNAPSHOT_CHUNK_BYTES;
    let to = if from + SNAPSHOT_CHUNK_BYTES < bytes.len() {
        from + SNAPSHOT_CHUNK_BYTES
    } else {
        bytes.len() as int
    };
    bytes.subrange(from, to)
}

/// The response at position `k` of a snapshot download: its start, its chunks, its end.
pub open spec fn is_snapshot_response(response: ServerResponse, bytes: Seq<u8>, k: int) -> bool {
    let count = chunk_count(bytes.len());
    if k == 0 {
        response == (ServerResponse::SnapshotStart { total_bytes: bytes.len() as u64 })
    } else if k <= count {
        response matches ServerResponse::SnapshotChunk { sequence, data } && sequence == k - 1
            && data@ == base64_text(chunk_of(bytes, k - 1)) && base64_decoded(data@) is Ok
            && base64_decoded(data@)->Ok_0 == chunk_of(bytes, k - 1)
    } else {
        response == (ServerResponse::SnapshotEnd { chunks: count as u64 })
    }
}

/// The frame at position `k` of a snapshot download, while there is one.
pub fn snapshot_frame(request_id: u64, bytes: &[u8], k: usize) -> (frame: Option<ServerFrame>)
    ensures
        frame is Some <==> k <= chunk_count(bytes@.len()) + 1,
        frame matches Some(frame) ==> frame.request_id == request_id && is_snapshot_response(
            frame.response,
            bytes@,
            k as int,
        ),
{
    let length: usize = bytes.len();
    let full: usize = length / SNAPSHOT_CHUNK_BYTES;
    let count: usize = if length % SNAPSHOT_CHUNK_BYTES == 0 {
        full
    } else {
        full + 1
    };
    assert(count == chunk_count(length as nat));
    if k == 0 {
        return Some(
            ServerFrame {
                request_id,
                response: ServerResponse::SnapshotStart { total_bytes: length as u64 },
            },
        );
    }
    if k <= count {
        let from: usize = (k - 1) * SNAPSHOT_CHUNK_BYTES;
        let (_, rest) = bytes.split_at(from);
        let take: usize = if rest.len() > SNAPSHOT_CHUNK_BYTES {
            SNAPSHOT_CHUNK_BYTES
        } else {
            rest.len()
        };
        let (chunk, _) = rest.split_at(take);
        proof {
            assert(chunk@ =~= chunk_of(bytes@, k - 1));
        }
        return Some(
            ServerFrame {
                request_id,
                response: ServerResponse::SnapshotChunk {
                    sequence: (k - 1) as u64,
                    data: encode_base64(chunk),
                },
            },
        );
    }
    if k == count + 1 {
        return Some(
            ServerFrame {
                request_id,
                response: ServerResponse::SnapshotEnd { chunks: count as u64 },
            },
        );
    }
    None
}

/// What leaves the server for one response.
pub struct Outgoing {
    /// The frame to send.
    pub frame: ServerFrame,
    /// Why nothing more is sent for the request, if so.
    pub error: Option<String>,
}

/// The failure for a response that fits in no frame.
pub open spec fn oversized_view() -> FailureView {
    permanent(
        ErrorCode::RequestTooLarge,
        "response cannot be represented within the negotiated frame bound"@,
    )
}

/// Lets a frame out whose payload has `encoded_length` bytes, or the failure in its place where
/// that is outside the frame bound.
pub fn bounded_response(frame: ServerFrame, encoded_length: usize) -> (outgoing: Outgoing)
    ensures
        1 <= encoded_length <= MAX_FRAME_BYTES ==> outgoing.frame == frame && outgoing.error is None,
        !(1 <= encoded_length <= MAX_FRAME_BYTES) ==> {
            &&& is_failure_frame(outgoing.frame, frame.request_id, oversized_view())
            &&& outgoing.error matches Some(error) && error@
                == "response exceeded the negotiated frame bound"@
        },
{
    if encoded_length == 0 || encoded_length > MAX_FRAME_BYTES {
        return Outgoing {
            frame: failure_frame(
                frame.request_id,
                ProtocolFailure::new(
                    ErrorCode::RequestTooLarge,
                    "response cannot be represented within the negotiated frame bound",
                ),
            ),
            error: Some("response exceeded the negotiated frame bound".to_owned()),
        };
    }
    Outgoing { frame, error: None }
}

/// Why no further frame can be read from a client.
pub enum ReadEnd {
    /// The client closed the connection, at a frame's border or within a frame.
    Closed,
    /// The connection was reset.
    Reset,
    /// The server shuts down and reads no more.
    Shutdown,
    /// The client broke the framing: a forbidden length, or a payload that is no request.
    Violation(String),
    /// Anything else.
    Broken(String),
}

/// Whether a connection ended in order.
pub fn end_connection(end: ReadEnd) -> (result: Result<(), String>)
    ensures
        match end {
            ReadEnd::Violation(message) | ReadEnd::Broken(message) => result == Err::<(), String>(
                message,
            ),
            _ => result is Ok,
        },
{
    match end {
        ReadEnd::Violation(message) => Err(message),
        ReadEnd::Broken(message) => Err(message),
        _ => Ok(()),
    }
}

/// What the end of a connection asks for.
pub struct Closing {
    /// The active requests to cancel.
    pub cancel: Vec<u64>,
    /// Whether the connection ended in order.
    pub result: Result<(), String>,
}

/// Closes a connection: however it ends, every request that is still active is cancelled.
pub fn close_connection<T>(active: &ActiveRequests<T>, end: ReadEnd) -> (closing: Closing)
    ensures
        closing.cancel@.to_set() == active@.dom(),
        closing.cancel@.no_duplicates(),
        match end {
            ReadEnd::Violation(message) | ReadEnd::Broken(message) => closing.result == Err::<
                (),
                String,
            >(message),
            _ => closing.result is Ok,
        },
{
    Closing { cancel: active.identifiers(), result: end_connection(end) }
}

/// The payload length that a client's frame header announces, or why the frame cannot be read.
pub fn client_frame_length(header: u32) -> (length: Result<usize, String>)
    ensures
        1 <= header <= MAX_FRAME_BYTES ==> length == Ok::<usize, String>(header as usize),
        !(1 <= header <= MAX_FRAME_BYTES) ==> length is Err && length->Err_0@ == "frame size "@
            + decimal_text(header as nat) + " is outside 1..=1048576"@,
{
    if header == 0 || header > MAX_FRAME_BYTES as u32 {
        return Err(
            join3("frame size ", decimal(header as u64).as_str(), " is outside 1..=1048576"),
        );
    }
    Ok(header as usize)
}

/// A connection without the administrative role is refused every administrative request, whatever
/// else is the case.
pub proof fn law_administration_needs_the_role(
    state: ConnectionState,
    request: ClientRequest,
    limits: LimitConfig,
    target_active: bool,
)
    requires
        state.role != ClientRole::Admin,
        is_administrative(request),
    ensures
        refusal(state, request, limits, target_active) == Some(
            permanent(ErrorCode::PermissionDenied, "administrative credential is required"@),
        ),
{
}

/// No request changes the role, and none but its own selection and drop changes the selected
/// Database: what is accepted leaves both as they were.
pub proof fn law_requests_keep_role_and_selection(
    before: ConnectionState,
    after: ConnectionState,
    request: ClientRequest,
    step: Step,
)
    requires
        accepted(before, after, request, step),
    ensures
        after.role == before.role,
        after.selected_database_id == before.selected_database_id,
{
}

/// While a transaction is queued, no work is started but its own commit, cancellation and what
/// leaves the selected Database alone.
pub proof fn law_transactions_are_not_disturbed(
    before: ConnectionState,
    after: ConnectionState,
    request: ClientRequest,
    limits: LimitConfig,
    target_active: bool,
    step: Step,
)
    requires
        before.transaction is Some,
        refusal(before, request, limits, target_active) is None,
        accepted(before, after, request, step),
    ensures
        step matches Step::Perform(work) ==> !(work is Select) && !(work is Rename)
            && !(work is Drop) && !(work is Restore) && !(work is BeginUpload)
            && !(work is ImportLogical) && !(work is Execute),
{
}

/// A transaction never holds more statements than the limit.
pub proof fn law_transactions_are_bounded(
    before: ConnectionState,
    after: ConnectionState,
    request: ClientRequest,
    limits: LimitConfig,
    target_active: bool,
    step: Step,
)
    requires
        before.transaction matches Some(queued) ==> queued@.len()
            <= limits.max_transaction_statements,
        refusal(before, request, limits, target_active) is None,
        accepted(before, after, request, step),
    ensures
        after.transaction matches Some(queued) ==> queued@.len()
            <= limits.max_transaction_statements,
{
}

/// An upload is only begun within the snapshot limit.
pub proof fn law_uploads_are_bounded(
    state: ConnectionState,
    after: ConnectionState,
    request: ClientRequest,
    limits: LimitConfig,
    target_active: bool,
    step: Step,
)
    requires
        refusal(state, request, limits, target_active) is None,
        accepted(state, after, request, step),
    ensures
        step matches Step::Perform(Work::BeginUpload { total_bytes, .. }) ==> 0 < total_bytes
            <= limits.max_snapshot_bytes,
        after.restore matches Some(upload) ==> state.restore is Some && upload.total_bytes
            == state.restore->0.total_bytes,
{
}

/// The statement that a query is queued as.
pub open spec fn queued_statement(query: ClientRequest) -> QueuedStatement {
    QueuedStatement {
        query: query->query,
        parameters: query->parameters,
        read_only: query->read_only,
    }
}

/// The statements that the first `count` queries after the one that begins the transaction are
/// queued as.
pub open spec fn queued_statements(frames: Seq<ClientFrame>, count: nat) -> Seq<QueuedStatement> {
    Seq::new(count, |i: int| queued_statement(frames[i + 1].request))
}

/// Whether the connection takes in these frames one after the other, each of them accepted: the
/// first begins a transaction, the others are queries. `states` are its states in between.
pub open spec fn is_queueing(
    states: Seq<ConnectionState>,
    frames: Seq<ClientFrame>,
    steps: Seq<Step>,
) -> bool {
    &&& frames.len() > 0
    &&& states.len() == frames.len() + 1
    &&& steps.len() == frames.len()
    &&& frames[0].request is Begin
    &&& forall|i: int| 0 < i < frames.len() ==> (#[trigger] frames[i]).request is Query
    &&& forall|i: int|
        0 <= i < frames.len() ==> accepted(
            advanced_to(states[i], (#[trigger] frames[i]).request_id),
            states[i + 1],
            frames[i].request,
            steps[i],
        )
}

proof fn lemma_queueing(
    states: Seq<ConnectionState>,
    frames: Seq<ClientFrame>,
    steps: Seq<Step>,
    i: int,
)
    requires
        is_queueing(states, frames, steps),
        0 < i < states.len(),
    ensures
        same_but_transaction(advanced_to(states[0], frames[i - 1].request_id), states[i]),
        states[i].transaction is Some,
        states[i].transaction->0@ == queued_statements(frames, (i - 1) as nat),
    decreases i,
{
    let frame = frames[i - 1];
    if i == 1 {
        assert(frame.request is Begin);
        assert(states[1].transaction->0@ =~= queued_statements(frames, 0));
    } else {
        lemma_queueing(states, frames, steps, i - 1);
        assert(frame.request is Query);
        assert(queued_statements(frames, (i - 1) as nat) =~= queued_statements(
            frames,
            (i - 2) as nat,
        ).push(queued_statement(frame.request)));
    }
}

/// A commit hands over exactly the queries that were queued since the transaction was begun, in
/// their order and for the selected Database, and leaves the connection without a transaction.
pub proof fn law_commit_runs_what_was_queued(
    states: Seq<ConnectionState>,
    frames: Seq<ClientFrame>,
    steps: Seq<Step>,
    request_id: u64,
    committed: ConnectionState,
    step: Step,
)
    requires
        is_queueing(states, frames, steps),
        accepted(advanced_to(states.last(), request_id), committed, ClientRequest::Commit, step),
    ensures
        step matches Step::Perform(Work::Commit { database_id, statements }) && statements@
            == queued_statements(frames, (frames.len() - 1) as nat) && database_id
            == states[0].selected_database_id->0,
        same_but_transaction(advanced_to(states[0], request_id), committed),
        committed.transaction is None,
{
    lemma_queueing(states, frames, steps, states.len() - 1);
}

/// A roll-back leaves the connection as it was before the transaction was begun, whatever was
/// queued since, but for the request identifiers that it has seen.
pub proof fn law_rollback_undoes_begin(
    states: Seq<ConnectionState>,
    frames: Seq<ClientFrame>,
    steps: Seq<Step>,
    request_id: u64,
    after: ConnectionState,
    step: Step,
)
    requires
        states[0].transaction is None,
        is_queueing(states, frames, steps),
        accepted(advanced_to(states.last(), request_id), after, ClientRequest::Rollback, step),
    ensures
        after == advanced_to(states[0], request_id),
{
    lemma_queueing(states, frames, steps, states.len() - 1);
}

/// Whether every active request has an identifier that the connection has seen.
pub open spec fn only_seen<T>(active: Map<u64, T>, state: ConnectionState) -> bool {
    forall|id: u64| #[trigger] active.dom().contains(id) ==> id <= state.last_request_id
}

/// A frame that is not refused for its identifier never collides with an active request, and the
/// connection goes on to have seen every active one.
pub proof fn law_identifiers_are_fresh<T>(
    before: ConnectionState,
    request_id: u64,
    token: T,
    active: Map<u64, T>,
)
    requires
        only_seen(active, before),
        request_id > before.last_request_id,
    ensures
        !active.dom().contains(request_id),
        only_seen(active.insert(request_id, token), advanced_to(before, request_id)),
{
}

proof fn lemma_chunks(bytes: Seq<u8>, uploads: Seq<SnapshotUpload>, k: int)
    requires
        uploads.len() == chunk_count(bytes.len()) + 1,
        uploads[0].bytes@.len() == 0,
        uploads[0].next_sequence == 0,
        uploads[0].total_bytes == bytes.len(),
        forall|i: int|
            0 <= i < uploads.len() - 1 ==> upload_extended(
                #[trigger] uploads[i],
                uploads[i + 1],
                chunk_of(bytes, i),
            ),
        0 <= k < uploads.len(),
    ensures
        uploads[k].next_sequence == k,
        uploads[k].total_bytes == bytes.len(),
        uploads[k].bytes@ == bytes.take(
            if k * SNAPSHOT_CHUNK_BYTES < bytes.len() {
                k * SNAPSHOT_CHUNK_BYTES
            } else {
                bytes.len() as int
            },
        ),
    decreases k,
{
    if k == 0 {
        assert(uploads[0].bytes@ =~= bytes.take(0));
    } else {
        lemma_chunks(bytes, uploads, k - 1);
        assert(upload_extended(uploads[k - 1], uploads[k - 1 + 1], chunk_of(bytes, k - 1)));
        let from = (k - 1) * SNAPSHOT_CHUNK_BYTES;
        assert(from < bytes.len());
        assert(uploads[k - 1].bytes@ =~= bytes.take(from));
        assert(k * SNAPSHOT_CHUNK_BYTES == from + SNAPSHOT_CHUNK_BYTES);
        let end = if k * SNAPSHOT_CHUNK_BYTES < bytes.len() {
            k * SNAPSHOT_CHUNK_BYTES
        } else {
            bytes.len() as int
        };
        assert(chunk_of(bytes, k - 1) =~= bytes.subrange(from, end));
        assert(bytes.take(from) + bytes.subrange(from, end) =~= bytes.take(end));
    }
}

/// Uploading the chunks of a download, in order, is never refused and gives the snapshot back,
/// ready to be installed.
pub proof fn law_uploading_a_download_restores_it(
    bytes: Seq<u8>,
    uploads: Seq<SnapshotUpload>,
    state: ConnectionState,
    limits: LimitConfig,
)
    requires
        bytes.len() > 0,
        uploads.len() == chunk_count(bytes.len()) + 1,
        uploads[0].bytes@.len() == 0,
        uploads[0].next_sequence == 0,
        uploads[0].total_bytes == bytes.len(),
        forall|i: int|
            0 <= i < uploads.len() - 1 ==> upload_extended(
                #[trigger] uploads[i],
                uploads[i + 1],
                chunk_of(bytes, i),
            ),
        state.restore == Some(uploads.last()),
    ensures
        forall|k: int|
            0 <= k < uploads.len() - 1 ==> chunk_refusal(
                #[trigger] uploads[k],
                k as u64,
                Ok::<Seq<u8>, Seq<char>>(chunk_of(bytes, k)),
            ) is None,
        uploads.last().bytes@ == bytes,
        own_refusal(state, ClientRequest::SnapshotRestoreCommit, limits, false) is None,
{
    assert forall|k: int| 0 <= k < uploads.len() - 1 implies chunk_refusal(
        #[trigger] uploads[k],
        k as u64,
        Ok::<Seq<u8>, Seq<char>>(chunk_of(bytes, k)),
    ) is None by {
        lemma_chunks(bytes, uploads, k);
        assert(k * SNAPSHOT_CHUNK_BYTES < bytes.len());
    }
    let last = uploads.len() - 1;
    lemma_chunks(bytes, uploads, last);
    assert(last * SNAPSHOT_CHUNK_BYTES >= bytes.len());
    assert(bytes.take(bytes.len() as int) =~= bytes);
}

/// A result is reported as a success exactly when the work succeeded: work that committed in the
/// race with its timeout is never called a timeout, and work that was rolled back is never called
/// committed.
pub proof fn law_timeouts_tell_the_truth<T>(
    run: TimedRun<T>,
    late_message: Seq<char>,
    result: Result<T, ProtocolFailure>,
)
    requires
        is_settled(run, late_message, result),
    ensures
        match run {
            TimedRun::InTime(Ok(value)) => result == Ok::<T, ProtocolFailure>(value),
            TimedRun::Late(Ok(value)) => result == Ok::<T, ProtocolFailure>(value),
            _ => result is Err,
        },
{
}

/// A connection that has just authenticated has no Database: it can neither query nor begin,
/// commit or roll back anything.
pub proof fn law_nothing_is_selected_at_first(
    state: ConnectionState,
    role: ClientRole,
    request_id: u64,
    request: ClientRequest,
    limits: LimitConfig,
    target_active: bool,
)
    requires
        is_fresh(state, role, request_id),
        request is Query || request is Begin || request is Commit || request is Rollback,
    ensures
        refusal(state, request, limits, target_active) matches Some(failure) && failure.code == (
        if request is Query || request is Begin {
            ErrorCode::DatabaseNotSelected
        } else {
            ErrorCode::NoTransaction
        }),
{
}

/// An administrative connection that queues no transaction and uploads nothing is admitted to begin
/// an upload exactly where the announced size is positive and within the configured limit, however
/// large that limit is.
pub proof fn law_uploads_begin_within_the_limit(
    state: ConnectionState,
    database: String,
    total_bytes: u64,
    limits: LimitConfig,
    target_active: bool,
)
    requires
        state.role is Admin,
        state.transaction is None,
        state.restore is None,
    ensures
        ({
            let request = ClientRequest::SnapshotRestoreBegin { database, total_bytes };
            let refused = refusal(state, request, limits, target_active);
            &&& refused is None <==> 0 < total_bytes <= limits.max_snapshot_bytes
            &&& refused matches Some(failure) ==> failure.code is RequestTooLarge
                && !failure.retryable
        }),
{
}

/// A request is admitted exactly on its own terms: administration needs the role, what would
/// disturb a transaction needs that there is none, queries and transactions need a selected
/// Database, a cancellation an active target, and each step of an upload the one before it.
pub proof fn law_requests_are_admitted_on_their_terms(
    state: ConnectionState,
    request: ClientRequest,
    limits: LimitConfig,
    target_active: bool,
)
    ensures
        refusal(state, request, limits, target_active) is None <==> {
            let admin = state.role is Admin;
            let idle = state.transaction is None;
            let selected = state.selected_database_id is Some;
            match request {
                ClientRequest::Hello { .. } => false,
                ClientRequest::Ping => true,
                ClientRequest::SelectDatabase { .. } => idle,
                ClientRequest::Query { stream, limits: requested, .. } => selected && (idle || (
                !stream && requested is None && state.transaction->0@.len()
                    < limits.max_transaction_statements)),
                ClientRequest::Begin => idle && selected,
                ClientRequest::Commit => !idle && selected,
                ClientRequest::Rollback => !idle,
                ClientRequest::Cancel { .. } => target_active,
                ClientRequest::DatabaseCreate { .. } => admin,
                ClientRequest::DatabaseList => admin,
                ClientRequest::DatabaseInspect { .. } => admin,
                ClientRequest::DatabaseRename { .. } => admin && idle,
                ClientRequest::DatabaseDrop { .. } => admin && idle,
                ClientRequest::SnapshotExport { .. } => admin,
                ClientRequest::SnapshotRestoreBegin { total_bytes, .. } => admin && idle
                    && state.restore is None && 0 < total_bytes <= limits.max_snapshot_bytes,
                ClientRequest::SnapshotRestoreChunk { sequence, data } => admin && idle
                    && state.restore is Some && sequence == state.restore->0.next_sequence
                    && base64_decoded(data@) is Ok && 0 < base64_decoded(data@)->Ok_0.len()
                    <= 262_144 && state.restore->0.bytes@.len() + base64_decoded(
                    data@,
                )->Ok_0.len() <= state.restore->0.total_bytes,
                ClientRequest::SnapshotRestoreCommit => admin && idle && state.restore is Some
                    && state.restore->0.bytes@.len() == state.restore->0.total_bytes,
                ClientRequest::SnapshotRestoreAbort => admin,
                ClientRequest::LogicalExport { .. } => admin,
                ClientRequest::LogicalImport { .. } => admin && idle,
            }
        },
{
}

/// A refusal names its cause, the first that applies: the missing role, then the disturbed
/// transaction, then what the request itself lacks. Sending the same request again mends none.
pub proof fn law_refusals_name_their_cause(
    state: ConnectionState,
    request: ClientRequest,
    limits: LimitConfig,
    target_active: bool,
)
    ensures
        refusal(state, request, limits, target_active) matches Some(failure) ==> {
            let administrative = request is DatabaseCreate || request is DatabaseList || request
                is DatabaseInspect || request is DatabaseRename || request is DatabaseDrop
                || request is SnapshotExport || request is SnapshotRestoreBegin || request
                is SnapshotRestoreChunk || request is SnapshotRestoreCommit || request
                is SnapshotRestoreAbort || request is LogicalExport || request is LogicalImport;
            let disturbing = request is SelectDatabase || request is DatabaseRename || request
                is DatabaseDrop || request is SnapshotRestoreBegin || request
                is SnapshotRestoreChunk || request is SnapshotRestoreCommit || request
                is LogicalImport;
            let idle = state.transaction is None;
            let selected = state.selected_database_id is Some;
            &&& !failure.retryable
            &&& if administrative && state.role !is Admin {
                failure.code is PermissionDenied
            } else if disturbing && !idle {
                failure.code is ProtocolViolation
            } else {
                match request {
                    ClientRequest::Query { stream, limits: requested, .. } => if !selected {
                        failure.code is DatabaseNotSelected
                    } else if stream || requested is Some {
                        failure.code is ProtocolViolation
                    } else {
                        failure.code is ResourceLimit
                    },
                    ClientRequest::Begin => if !idle {
                        failure.code is TransactionAlreadyActive
                    } else {
                        failure.code is DatabaseNotSelected
                    },
                    ClientRequest::Commit => if idle {
                        failure.code is NoTransaction
                    } else {
                        failure.code is DatabaseNotSelected
                    },
                    ClientRequest::Rollback => failure.code is NoTransaction,
                    ClientRequest::SnapshotRestoreBegin { .. } => if state.restore is Some {
                        failure.code is ProtocolViolation
                    } else {
                        failure.code is RequestTooLarge
                    },
                    ClientRequest::SnapshotRestoreChunk { sequence, data } => if state.restore
                        is None || sequence != state.restore->0.next_sequence || base64_decoded(
                        data@,
                    ) is Err {
                        failure.code is ProtocolViolation
                    } else {
                        failure.code is RequestTooLarge
                    },
                    _ => failure.code is ProtocolViolation,
                }
            }
        },
{
}

/// A query outside a transaction is executed as it was asked: on the selected Database, with its
/// own text, parameters and limits, read-only exactly where the client said so, and streamed
/// exactly where the client wants rows as events. The connection stays as it was.
pub proof fn law_queries_run_as_asked(
    before: ConnectionState,
    after: ConnectionState,
    request: ClientRequest,
    step: Step,
    limits: LimitConfig,
    target_active: bool,
)
    requires
        request is Query,
        before.transaction is None,
        refusal(before, request, limits, target_active) is None,
        accepted(before, after, request, step),
    ensures
        after == before,
        step matches Step::Perform(
            Work::Execute { database_id, query, parameters, read_only, stream, limits: requested },
        ) && {
            &&& before.selected_database_id == Some(database_id)
            &&& query == request->query
            &&& parameters == request->parameters
            &&& read_only == request->read_only
            &&& stream == request->stream
            &&& requested == request->Query_limits
        },
{
}

/// A query within a transaction is queued as it was asked, behind those queued before, and the
/// reply counts it. Nothing is executed yet.
pub proof fn law_queries_are_queued_as_asked(
    before: ConnectionState,
    after: ConnectionState,
    request: ClientRequest,
    step: Step,
)
    requires
        request is Query,
        before.transaction is Some,
        accepted(before, after, request, step),
    ensures
        after.transaction matches Some(queued) && {
            let count = before.transaction->0@.len() as int;
            &&& queued@.len() == count + 1
            &&& forall|i: int| 0 <= i < count ==> #[trigger] queued@[i] == before.transaction->0@[i]
            &&& queued@[count].query == request->query
            &&& queued@[count].parameters == request->parameters
            &&& queued@[count].read_only == request->read_only
        },
        step matches Step::Reply(ServerResponse::Queued { statements }) && (
        before.transaction->0@.len() < u64::MAX ==> statements == before.transaction->0@.len() + 1),
{
}

/// The work that an accepted request asks for is the work that the client named: each request has
/// its own kind, with the client's names, sizes and documents unchanged. A request without work is
/// answered at once.
pub proof fn law_work_is_what_was_asked(
    before: ConnectionState,
    after: ConnectionState,
    request: ClientRequest,
    step: Step,
)
    requires
        accepted(before, after, request, step),
    ensures
        match request {
            ClientRequest::Hello { .. } => false,
            ClientRequest::Ping => step == Step::Reply(ServerResponse::Pong),
            ClientRequest::SelectDatabase { database } => step matches Step::Perform(
                Work::Select { database: wanted },
            ) && wanted == database,
            ClientRequest::Query { .. } => step is Perform <==> before.transaction is None,
            ClientRequest::Begin => step matches Step::Reply(
                ServerResponse::Transaction { state, results },
            ) && state@ == "begun"@ && results@.len() == 0 && (after.transaction matches Some(
                queued,
            ) && queued@.len() == 0),
            ClientRequest::Commit => after.transaction is None && (step matches Step::Perform(
                Work::Commit { database_id, statements },
            ) && (before.selected_database_id matches Some(selected) ==> database_id == selected)
                && (before.transaction matches Some(queued) ==> statements == queued)),
            ClientRequest::Rollback => after.transaction is None && (step matches Step::Reply(
                ServerResponse::Transaction { state, results },
            ) && state@ == "rolled_back"@ && results@.len() == 0),
            ClientRequest::Cancel { target_request_id } => step matches Step::Perform(
                Work::Cancel { target_request_id: target },
            ) && target == target_request_id,
            ClientRequest::DatabaseCreate { name } => step matches Step::Perform(
                Work::Create { name: wanted },
            ) && wanted == name,
            ClientRequest::DatabaseList => step == Step::Perform(Work::List),
            ClientRequest::DatabaseInspect { database } => step matches Step::Perform(
                Work::Inspect { database: wanted },
            ) && wanted == database,
            ClientRequest::DatabaseRename { database, new_name } => step matches Step::Perform(
                Work::Rename { database: wanted, new_name: name },
            ) && wanted == database && name == new_name,
            ClientRequest::DatabaseDrop { database, confirm_name } => step matches Step::Perform(
                Work::Drop { database: wanted, confirm_name: name },
            ) && wanted == database && name == confirm_name,
            ClientRequest::SnapshotExport { database } => step matches Step::Perform(
                Work::ExportSnapshot { database: wanted },
            ) && wanted == database,
            ClientRequest::SnapshotRestoreBegin { database, total_bytes } =>
                step matches Step::Perform(Work::BeginUpload { database: wanted, total_bytes: size })
                && wanted == database && size == total_bytes,
            ClientRequest::SnapshotRestoreChunk { .. } => step matches Step::Reply(
                ServerResponse::SnapshotRestore { state, bytes },
            ) && state@ == "chunk_accepted"@ && after.restore is Some && bytes
                == after.restore->0.bytes@.len(),
            ClientRequest::SnapshotRestoreCommit => step matches Step::Perform(
                Work::Restore { database, bytes },
            ) && (before.restore matches Some(upload) ==> database == upload.database && bytes
                == upload.bytes),
            ClientRequest::SnapshotRestoreAbort => step matches Step::Reply(
                ServerResponse::SnapshotRestore { state, bytes },
            ) && state@ == "aborted"@ && (before.restore is None ==> bytes == 0) && (
            before.restore matches Some(upload) ==> bytes == upload.bytes@.len()),
            ClientRequest::LogicalExport { database } => step matches Step::Perform(
                Work::ExportLogical { database: wanted },
            ) && wanted == database,
            ClientRequest::LogicalImport { database, package } => step matches Step::Perform(
                Work::ImportLogical { database: wanted, package: document },
            ) && wanted == database && document == package,
        },
{
}

/// An accepted request touches only what is its own: the role, the selection and the identifier stay
/// as they are; the queued transaction changes only by a query in it, by its begin and by its end;
/// the upload changes only by a chunk, which is appended to its bytes and nothing else, and by its
/// end, which leaves none.
pub proof fn law_requests_touch_only_their_own(
    before: ConnectionState,
    after: ConnectionState,
    request: ClientRequest,
    step: Step,
)
    requires
        accepted(before, after, request, step),
    ensures
        after.role == before.role,
        after.selected_database_id == before.selected_database_id,
        after.last_request_id == before.last_request_id,
        after.transaction != before.transaction ==> request is Begin || request is Commit || request
            is Rollback || (request is Query && before.transaction is Some),
        after.restore != before.restore ==> request is SnapshotRestoreChunk || request
            is SnapshotRestoreCommit || request is SnapshotRestoreAbort,
        request is SnapshotRestoreCommit || request is SnapshotRestoreAbort ==> after.restore
            is None,
        request matches ClientRequest::SnapshotRestoreChunk { data, .. } ==> {
            &&& before.restore is Some && after.restore is Some
            &&& after.restore->0.database == before.restore->0.database
            &&& after.restore->0.total_bytes == before.restore->0.total_bytes
            &&& after.restore->0.next_sequence == before.restore->0.next_sequence + 1
            &&& after.restore->0.bytes@ == before.restore->0.bytes@ + base64_decoded(data@)->Ok_0
        },
{
}

/// Taking in a frame notes its identifier and nothing else.
pub proof fn law_frames_note_only_their_identifier(state: ConnectionState, request_id: u64)
    ensures
        advanced_to(state, request_id).last_request_id == request_id,
        advanced_to(state, request_id).role == state.role,
        advanced_to(state, request_id).selected_database_id == state.selected_database_id,
        advanced_to(state, request_id).transaction == state.transaction,
        advanced_to(state, request_id).restore == state.restore,
{
}

/// A cancellation has a target exactly where the request that it names is active.
pub proof fn law_only_active_requests_are_cancelled<T>(request: ClientRequest, active: Map<u64, T>)
    ensures
        cancels_active(request, active) <==> request is Cancel && active.dom().contains(
            request->target_request_id,
        ),
{
}

/// An accepted hello is answered with the protocol's version, the frame bound and the role of the
/// credential, and the connection begins with that role and with nothing else.
pub proof fn law_connections_begin_empty(
    reply: ServerFrame,
    state: ConnectionState,
    role: ClientRole,
    request_id: u64,
    server_version: Seq<char>,
)
    requires
        is_hello_reply(reply, request_id, role, server_version),
        is_fresh(state, role, request_id),
    ensures
        reply.request_id == request_id,
        reply.response matches ServerResponse::Hello {
            protocol_version,
            server_version: version,
            role: granted,
            max_frame_bytes,
        } && protocol_version == 1 && version@ == server_version && granted == role
            && max_frame_bytes == 1_048_576,
        state.role == role,
        state.last_request_id == request_id,
        state.selected_database_id is None && state.transaction is None && state.restore is None,
{
}

/// What a connection is refused for by itself is told by a stable code: framing and order are
/// violations of the protocol, and neither these nor a bad credential nor another version is mended
/// by trying again.
pub proof fn law_connection_refusals_are_stable(version: u32)
    ensures
        no_hello_view() == (FailureView {
            code: ErrorCode::ProtocolViolation,
            message: "the first frame must be hello"@,
            retryable: false,
        }),
        unsupported_view(version) == (FailureView {
            code: ErrorCode::UnsupportedProtocol,
            message: "client requested protocol "@ + decimal_text(version as nat)
                + "; server supports exactly 1"@,
            retryable: false,
        }),
        bad_credential_view() == (FailureView {
            code: ErrorCode::AuthenticationFailed,
            message: "credential is invalid"@,
            retryable: false,
        }),
        stale_identifier_view() == (FailureView {
            code: ErrorCode::ProtocolViolation,
            message: "request identifiers must be positive and strictly increasing"@,
            retryable: false,
        }),
        mutating_view() == (FailureView {
            code: ErrorCode::QueryError,
            message: "read_only request rejected a mutating query"@,
            retryable: false,
        }),
        oversized_view() == (FailureView {
            code: ErrorCode::RequestTooLarge,
            message: "response cannot be represented within the negotiated frame bound"@,
            retryable: false,
        }),
{
}

/// A transaction is refused for writing exactly where one of its statements is a write although it
/// was queued as read-only.
pub proof fn law_read_only_statements_never_write(
    statements: Seq<QueuedStatement>,
    mutating: Seq<bool>,
)
    requires
        mutating.len() == statements.len(),
    ensures
        !breaks_read_only(statements, mutating) <==> forall|i: int|
            0 <= i < statements.len() && (#[trigger] statements[i]).read_only ==> !mutating[i],
{
}

/// Work that fails after its time limit has failed of it, work that breaks down has failed
/// internally, and work that ends in time gives what it gave.
pub proof fn law_time_limits_are_told<T>(
    run: TimedRun<T>,
    late_message: Seq<char>,
    result: Result<T, ProtocolFailure>,
)
    requires
        is_settled(run, late_message, result),
    ensures
        run matches TimedRun::InTime(outcome) ==> result == outcome,
        run matches TimedRun::Late(Err(_)) ==> (result matches Err(failure) && failure.code
            is ResourceLimit && failure.message@ == late_message && !failure.retryable),
        run matches TimedRun::Broken(message) ==> (result matches Err(failure) && failure.code
            is InternalError && failure.message@ == message@ && !failure.retryable),
{
}

/// The events of a streamed read carry it whole: first its columns and its ordering guarantee, then
/// each row in order with the JSON of each of its cells, then how many rows there were. All of them
/// carry the identifier of the request.
pub proof fn law_row_events_carry_every_cell(
    frames: Seq<ServerFrame>,
    request_id: u64,
    result: QueryResult,
)
    requires
        is_row_stream(frames, request_id, result),
    ensures
        frames.len() == result.rows@.len() + 2,
        forall|i: int| 0 <= i < frames.len() ==> (#[trigger] frames[i]).request_id == request_id,
        frames[0].response matches ServerResponse::StreamStart { columns, ordered } && columns
            == result.columns && ordered == result.ordered,
        forall|i: int|
            0 <= i < result.rows@.len() ==> ((#[trigger] frames[i
                + 1]).response matches ServerResponse::StreamRow { row } && row@.len()
                == result.rows@[i]@.len() && forall|j: int|
                0 <= j < row@.len() ==> (#[trigger] row@[j])@ == value_json(
                    result.rows@[i]@[j]@,
                )),
        frames[frames.len() - 1].response matches ServerResponse::StreamEnd { rows } && (
        result.rows@.len() <= u64::MAX ==> rows == result.rows@.len()),
{
    assert forall|i: int| 0 <= i < frames.len() implies (#[trigger] frames[i]).request_id
        == request_id by {
        if 0 < i < frames.len() - 1 {
            assert(is_row_frame(frames[(i - 1) + 1], request_id, result, i - 1));
        }
    }
    assert forall|i: int| 0 <= i < result.rows@.len() implies ((#[trigger] frames[i
        + 1]).response matches ServerResponse::StreamRow { row } && row@.len()
        == result.rows@[i]@.len() && forall|j: int|
        0 <= j < row@.len() ==> (#[trigger] row@[j])@ == value_json(result.rows@[i]@[j]@)) by {
        assert(is_row_frame(frames[i + 1], request_id, result, i));
        let row = frames[i + 1].response->row;
        let cells = values_json(query_values_view(result.rows@[i]@));
        assert(values_view(row@).len() == cells.len());
        assert forall|j: int| 0 <= j < row@.len() implies (#[trigger] row@[j])@ == value_json(
            result.rows@[i]@[j]@,
        ) by {
            assert(values_view(row@)[j] == cells[j]);
        }
    }
}

/// A query is answered by its own result: a read as events where the client wants them so, and else
/// by one frame with the JSON of the result.
pub proof fn law_queries_are_answered_by_their_result(
    frames: Seq<ServerFrame>,
    request_id: u64,
    result: StatementResult,
    stream: bool,
)
    requires
        answers_statement(frames, request_id, result, stream),
    ensures
        result is Read && stream ==> is_row_stream(frames, request_id, result->Read_0),
        !(result is Read && stream) ==> frames.len() == 1 && frames[0].request_id == request_id && (
        frames[0].response matches ServerResponse::Result { statement } && statement@
            == statement_json(result)),
{
}

/// The chunks of a snapshot are the snapshot: every chunk but the last holds 262144 bytes, each
/// begins where the one before ends, and together they end with the last byte.
pub proof fn law_chunks_cut_the_snapshot(bytes: Seq<u8>, k: int)
    requires
        0 <= k < chunk_count(bytes.len()),
    ensures
        262_144 * k < bytes.len(),
        chunk_of(bytes, k).len() > 0,
        k + 1 < chunk_count(bytes.len()) ==> chunk_of(bytes, k).len() == 262_144,
        k + 1 == chunk_count(bytes.len()) ==> 262_144 * k + chunk_of(bytes, k).len() == bytes.len(),
        chunk_of(bytes, k).len() <= 262_144,
        forall|j: int|
            0 <= j < chunk_of(bytes, k).len() ==> #[trigger] chunk_of(bytes, k)[j] == bytes[262_144
                * k + j],
{
}

/// The frames of a download announce the size, carry each chunk with its own sequence number, and
/// end with the number of chunks.
pub proof fn law_downloads_carry_every_chunk(response: ServerResponse, bytes: Seq<u8>, k: int)
    requires
        is_snapshot_response(response, bytes, k),
        0 <= k <= chunk_count(bytes.len()) + 1,
        bytes.len() <= u64::MAX,
    ensures
        k == 0 ==> (response matches ServerResponse::SnapshotStart { total_bytes } && total_bytes
            == bytes.len()),
        0 < k <= chunk_count(bytes.len()) ==> (response matches ServerResponse::SnapshotChunk {
            sequence,
            data,
        } && sequence == k - 1 && base64_decoded(data@) is Ok && base64_decoded(data@)->Ok_0
            == chunk_of(bytes, k - 1)),
        k == chunk_count(bytes.len()) + 1 ==> (response matches ServerResponse::SnapshotEnd {
            chunks,
        } && chunks == chunk_count(bytes.len())),
        chunk_count(bytes.len()) == 0 <==> bytes.len() == 0,
{
}

/// The progress of an upload is told by its state and by its number of bytes, under the identifier
/// of the request.
pub proof fn law_upload_progress_is_told(
    frame: ServerFrame,
    request_id: u64,
    state: Seq<char>,
    bytes: nat,
)
    requires
        is_restore_frame(frame, request_id, state, bytes),
    ensures
        frame.request_id == request_id,
        frame.response matches ServerResponse::SnapshotRestore { state: text, bytes: count }
            && text@ == state && count == bytes,
{
}

/// A refusal is answered at once, with the failure's code, its message and its word on a retry.
pub proof fn law_refusals_are_answered_at_once(step: Step, failure: FailureView)
    requires
        is_refusal(step, failure),
    ensures
        step matches Step::Reply(ServerResponse::Error { code, message, retryable }) && code
            == failure.code && message@ == failure.message && retryable == failure.retryable,
{
}

/// A connection is sound exactly where a transaction has a Database to run on, and an upload has no
/// more bytes than were announced, in no more chunks than it has bytes.
pub proof fn law_connections_are_sound(state: ConnectionState, upload: SnapshotUpload)
    ensures
        state.well_formed() <==> {
            &&& state.transaction is Some ==> state.selected_database_id is Some
            &&& state.restore matches Some(upload) ==> upload.bytes@.len() <= upload.total_bytes
                && upload.next_sequence <= upload.bytes@.len()
        },
        upload.well_formed() <==> upload.next_sequence <= upload.bytes@.len()
            <= upload.total_bytes,
{
}

} // verus!
