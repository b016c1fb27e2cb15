//! The server's side of a connection.

use nostdb_server::client::{
    ClientFrame, ClientRequest, ClientRole, DatabaseSummary, ErrorCode, ServerFrame,
    ServerResponse, WireQueryLimits, MAX_FRAME_BYTES, SNAPSHOT_CHUNK_BYTES,
};
use nostdb_server::config::{Credentials, DaemonConfig, LimitConfig, QueryLimits};
use nostdb_server::execution::{
    database_failure, fixed_hex, inspection, lower_limits, prepare_query, prepare_transaction,
    DatabaseError, StorageInfo,
};
use nostdb_server::failure::{busy, failure_frame, not_found, ProtocolFailure};
use nostdb_server::json::{Json, JsonField, JsonNumber};
use nostdb_server::protocol::{
    admit_commit, bounded_response, client_frame_length, close_connection, end_connection,
    finish_commit, finish_drop, finish_query, finish_restore, finish_select, finish_upload_begin,
    handshake, receive, respond, settle, snapshot_frame, ActiveRequests, ConnectionState, Handshake,
    QueuedStatement, ReadEnd, Step, TimedRun, Work,
};
use nostdb_server::wire::{QueryResult, QueryValue, StatementResult};

fn limits() -> LimitConfig {
    let mut limits = DaemonConfig::new("/d".to_owned(), "127.0.0.1:0".to_owned()).limits;
    limits.max_transaction_statements = 2;
    limits.max_snapshot_bytes = 300_000;
    limits
}

fn credentials() -> Credentials {
    Credentials::load("q".repeat(32), "a".repeat(32)).ok().expect("they differ")
}

fn hello(request_id: u64, protocol_version: u32, credential: String) -> ClientFrame {
    ClientFrame {
        request_id,
        request: ClientRequest::Hello {
            protocol_version,
            credential,
            client_name: "test".to_owned(),
        },
    }
}

fn connect(credential: char) -> ConnectionState {
    let frame = hello(1, 1, credential.to_string().repeat(32));
    match handshake(frame, &credentials(), "0.1.0") {
        Handshake::Accept(_, state) => state,
        _ => panic!("the credential is valid"),
    }
}

fn ask(state: &mut ConnectionState, request: ClientRequest) -> Step {
    let active: ActiveRequests<u8> = ActiveRequests::new();
    let frame = ClientFrame { request_id: state.last_request_id + 1, request };
    receive(state, frame, &limits(), &active)
}

fn refused(step: Step) -> (ErrorCode, String) {
    match step {
        Step::Reply(ServerResponse::Error { code, message, .. }) => (code, message),
        other => panic!("expected a refusal, got {other:?}"),
    }
}

fn query(text: &str) -> ClientRequest {
    ClientRequest::Query {
        query: text.to_owned(),
        parameters: Vec::new(),
        read_only: false,
        stream: false,
        limits: None,
    }
}

fn summary(id: &str, name: &str) -> DatabaseSummary {
    DatabaseSummary { id: id.to_owned(), name: name.to_owned(), state: "ready".to_owned() }
}

fn select(state: &mut ConnectionState, id: &str) {
    let frame = finish_select(state, 2, Ok(summary(id, "knowledge")));
    assert!(matches!(frame.response, ServerResponse::DatabaseSelected { .. }));
}

#[test]
fn the_first_frame_negotiates_and_authenticates() {
    match handshake(hello(7, 1, "a".repeat(32)), &credentials(), "0.1.0") {
        Handshake::Accept(frame, state) => {
            assert_eq!(
                frame,
                ServerFrame {
                    request_id: 7,
                    response: ServerResponse::Hello {
                        protocol_version: 1,
                        server_version: "0.1.0".to_owned(),
                        role: ClientRole::Admin,
                        max_frame_bytes: 1_048_576,
                    },
                }
            );
            assert_eq!(state.role, ClientRole::Admin);
            assert_eq!(state.last_request_id, 7);
        }
        _ => panic!("the credential is valid"),
    }
    let rejected = |frame: ClientFrame| match handshake(frame, &credentials(), "0.1.0") {
        Handshake::Reject(frame) => match frame.response {
            ServerResponse::Error { code, message, .. } => (frame.request_id, code, message),
            _ => panic!("a rejection is an error"),
        },
        _ => panic!("the frame is rejected"),
    };
    assert_eq!(
        rejected(hello(1, 999, "a".repeat(32))),
        (
            1,
            ErrorCode::UnsupportedProtocol,
            "client requested protocol 999; server supports exactly 1".to_owned()
        )
    );
    assert_eq!(
        rejected(hello(3, 1, "x".repeat(32))),
        (3, ErrorCode::AuthenticationFailed, "credential is invalid".to_owned())
    );
    assert_eq!(
        rejected(ClientFrame { request_id: 5, request: ClientRequest::Ping }),
        (5, ErrorCode::ProtocolViolation, "the first frame must be hello".to_owned())
    );
    match handshake(hello(0, 1, "a".repeat(32)), &credentials(), "0.1.0") {
        Handshake::Close(reason) => assert_eq!(reason, "request identifiers must be positive"),
        _ => panic!("an identifier of zero closes the connection"),
    }
}

#[test]
fn identifiers_must_increase() {
    let mut state = connect('q');
    let active: ActiveRequests<u8> = ActiveRequests::new();
    let ping = |request_id| ClientFrame { request_id, request: ClientRequest::Ping };
    assert_eq!(
        receive(&mut state, ping(5), &limits(), &active),
        Step::Reply(ServerResponse::Pong)
    );
    for request_id in [5, 4, 0] {
        assert_eq!(
            refused(receive(&mut state, ping(request_id), &limits(), &active)),
            (
                ErrorCode::ProtocolViolation,
                "request identifiers must be positive and strictly increasing".to_owned()
            )
        );
    }
    assert_eq!(state.last_request_id, 5);
}

#[test]
fn administration_needs_the_administrative_role() {
    let requests = || {
        let database = || "d".to_owned();
        vec![
            ClientRequest::DatabaseCreate { name: database() },
            ClientRequest::DatabaseList,
            ClientRequest::DatabaseInspect { database: database() },
            ClientRequest::DatabaseRename { database: database(), new_name: database() },
            ClientRequest::DatabaseDrop { database: database(), confirm_name: database() },
            ClientRequest::SnapshotExport { database: database() },
            ClientRequest::SnapshotRestoreBegin { database: database(), total_bytes: 1 },
            ClientRequest::LogicalExport { database: database() },
            ClientRequest::LogicalImport { database: database(), package: Json::Null },
        ]
    };
    for request in requests() {
        let mut state = connect('q');
        assert_eq!(refused(ask(&mut state, request)).0, ErrorCode::PermissionDenied);
    }
    for request in requests() {
        let mut state = connect('a');
        assert!(matches!(ask(&mut state, request), Step::Perform(_)));
    }
}

#[test]
fn queries_go_to_the_selected_database() {
    let mut state = connect('q');
    assert_eq!(
        refused(ask(&mut state, query("RETURN 1"))),
        (ErrorCode::DatabaseNotSelected, "select a Database before querying".to_owned())
    );
    assert_eq!(
        ask(&mut state, ClientRequest::SelectDatabase { database: "knowledge".to_owned() }),
        Step::Perform(Work::Select { database: "knowledge".to_owned() })
    );
    select(&mut state, "id-1");
    assert_eq!(
        ask(&mut state, query("RETURN 1")),
        Step::Perform(Work::Execute {
            database_id: "id-1".to_owned(),
            query: "RETURN 1".to_owned(),
            parameters: Vec::new(),
            read_only: false,
            stream: false,
            limits: None,
        })
    );
    let failed = finish_select(&mut state, 9, Err(not_found("gone")));
    assert!(matches!(
        failed.response,
        ServerResponse::Error { code: ErrorCode::DatabaseNotFound, .. }
    ));
    assert_eq!(state.selected_database_id, Some("id-1".to_owned()));
}

#[test]
fn transactions_queue_commit_and_roll_back() {
    let mut state = connect('q');
    for request in [ClientRequest::Commit, ClientRequest::Rollback] {
        assert_eq!(refused(ask(&mut state, request)).0, ErrorCode::NoTransaction);
    }
    assert_eq!(refused(ask(&mut state, ClientRequest::Begin)).0, ErrorCode::DatabaseNotSelected);
    select(&mut state, "id-1");
    let begun = |state: &mut ConnectionState| {
        assert_eq!(
            ask(state, ClientRequest::Begin),
            Step::Reply(ServerResponse::Transaction {
                state: "begun".to_owned(),
                results: Vec::new()
            })
        );
    };
    begun(&mut state);
    assert_eq!(
        refused(ask(&mut state, ClientRequest::Begin)).0,
        ErrorCode::TransactionAlreadyActive
    );
    for (count, text) in [(1, "CREATE (n {name: 'Alice'})"), (2, "CREATE (n {name: 'Bob'})")] {
        assert_eq!(
            ask(&mut state, query(text)),
            Step::Reply(ServerResponse::Queued { statements: count })
        );
    }
    assert_eq!(
        refused(ask(&mut state, query("RETURN 1"))),
        (ErrorCode::ResourceLimit, "transaction statement limit exceeded".to_owned())
    );
    match ask(&mut state, ClientRequest::Commit) {
        Step::Perform(Work::Commit { database_id, statements }) => {
            assert_eq!(database_id, "id-1");
            let texts: Vec<&str> = statements.iter().map(|s| s.query.as_str()).collect();
            assert_eq!(texts, vec!["CREATE (n {name: 'Alice'})", "CREATE (n {name: 'Bob'})"]);
        }
        other => panic!("expected a commit, got {other:?}"),
    }
    assert!(state.transaction.is_none());
    begun(&mut state);
    ask(&mut state, query("CREATE (n {name: 'Discarded'})"));
    assert_eq!(
        ask(&mut state, ClientRequest::Rollback),
        Step::Reply(ServerResponse::Transaction {
            state: "rolled_back".to_owned(),
            results: Vec::new()
        })
    );
    assert!(state.transaction.is_none());
}

#[test]
fn a_transaction_keeps_its_database_and_its_budget() {
    let mut state = connect('a');
    select(&mut state, "id-1");
    ask(&mut state, ClientRequest::Begin);
    for request in [
        ClientRequest::SelectDatabase { database: "other".to_owned() },
        ClientRequest::DatabaseDrop { database: "a".to_owned(), confirm_name: "a".to_owned() },
    ] {
        assert_eq!(
            refused(ask(&mut state, request)).1,
            "Database selection and lifecycle changes are unavailable during a transaction"
        );
    }
    let limited = |stream, limits| ClientRequest::Query {
        query: "RETURN 1".to_owned(),
        parameters: Vec::new(),
        read_only: false,
        stream,
        limits,
    };
    assert_eq!(
        refused(ask(&mut state, limited(true, None))).1,
        "streaming is unavailable while a transaction is being queued"
    );
    let budget = WireQueryLimits {
        max_rows: None,
        max_memory_bytes: None,
        max_operations: None,
        max_traversals: None,
    };
    assert_eq!(
        refused(ask(&mut state, limited(false, Some(budget)))).1,
        "explicit transactions use the server transaction budget"
    );
    assert_eq!(ask(&mut state, ClientRequest::Ping), Step::Reply(ServerResponse::Pong));
    assert_eq!(
        refused(ask(&mut state, hello(1, 1, String::new()).request)).1,
        "hello may only be sent as the first frame"
    );
}

#[test]
fn only_active_requests_are_cancelled() {
    let mut state = connect('q');
    let mut active: ActiveRequests<&str> = ActiveRequests::new();
    assert_eq!(active.insert(2, "token"), Ok(()));
    assert_eq!(active.get(2), Some(&"token"));
    assert_eq!(
        active.insert(2, "again"),
        Err("request identifier is already active".to_owned())
    );
    let cancel = |request_id, target_request_id| ClientFrame {
        request_id,
        request: ClientRequest::Cancel { target_request_id },
    };
    assert_eq!(
        receive(&mut state, cancel(3, 2), &limits(), &active),
        Step::Perform(Work::Cancel { target_request_id: 2 })
    );
    active.remove(2);
    assert_eq!(active.get(2), None);
    assert_eq!(
        refused(receive(&mut state, cancel(4, 2), &limits(), &active)).1,
        "target request is not active on this connection"
    );
}

#[test]
fn a_dropped_database_is_no_longer_selected() {
    let mut state = connect('a');
    select(&mut state, "id-1");
    let frame = finish_drop(&mut state, 3, Ok(summary("id-2", "other")));
    assert_eq!(
        frame.response,
        ServerResponse::DatabaseDropped { database_id: "id-2".to_owned(), name: "other".to_owned() }
    );
    assert_eq!(state.selected_database_id, Some("id-1".to_owned()));
    finish_drop(&mut state, 4, Err(busy()));
    assert_eq!(state.selected_database_id, Some("id-1".to_owned()));
    finish_drop(&mut state, 5, Ok(summary("id-1", "knowledge")));
    assert_eq!(state.selected_database_id, None);
}

fn upload(state: &mut ConnectionState, total_bytes: u64) {
    let request = ClientRequest::SnapshotRestoreBegin { database: "d".to_owned(), total_bytes };
    assert_eq!(
        ask(state, request),
        Step::Perform(Work::BeginUpload { database: "d".to_owned(), total_bytes })
    );
    let frame = finish_upload_begin(state, 9, "d".to_owned(), total_bytes, Ok(summary("i", "d")));
    assert_eq!(
        frame.response,
        ServerResponse::SnapshotRestore { state: "ready".to_owned(), bytes: 0 }
    );
}

#[test]
fn a_downloaded_snapshot_is_uploaded_again() {
    let bytes: Vec<u8> = (0..SNAPSHOT_CHUNK_BYTES + 777).map(|i| (i % 251) as u8).collect();
    let mut state = connect('a');
    upload(&mut state, bytes.len() as u64);
    let first = snapshot_frame(4, &bytes, 0).expect("a download has a start");
    assert_eq!(
        first,
        ServerFrame {
            request_id: 4,
            response: ServerResponse::SnapshotStart { total_bytes: bytes.len() as u64 },
        }
    );
    let mut received = 0;
    let mut k = 1;
    while let Some(frame) = snapshot_frame(4, &bytes, k) {
        match frame.response {
            ServerResponse::SnapshotChunk { sequence, data } => {
                assert_eq!(sequence, k as u64 - 1);
                received += if sequence == 0 { SNAPSHOT_CHUNK_BYTES as u64 } else { 777 };
                assert_eq!(
                    ask(&mut state, ClientRequest::SnapshotRestoreChunk { sequence, data }),
                    Step::Reply(ServerResponse::SnapshotRestore {
                        state: "chunk_accepted".to_owned(),
                        bytes: received,
                    })
                );
            }
            response => assert_eq!(response, ServerResponse::SnapshotEnd { chunks: 2 }),
        }
        k += 1;
    }
    assert_eq!(k, 4);
    match ask(&mut state, ClientRequest::SnapshotRestoreCommit) {
        Step::Perform(Work::Restore { database, bytes: restored }) => {
            assert_eq!(database, "d");
            assert_eq!(restored, bytes);
        }
        other => panic!("expected a restore, got {other:?}"),
    }
    assert!(state.restore.is_none());
    assert_eq!(
        finish_restore(8, 3, Ok(())).response,
        ServerResponse::SnapshotRestore { state: "restored".to_owned(), bytes: 3 }
    );
    assert_eq!(finish_restore(8, 3, Err(busy())), failure_frame(8, busy()));
}

#[test]
fn chunks_are_standard_base64() {
    let frame = snapshot_frame(1, b"any carnal pleas", 1).expect("there is one chunk");
    assert_eq!(
        frame.response,
        ServerResponse::SnapshotChunk {
            sequence: 0,
            data: "YW55IGNhcm5hbCBwbGVhcw==".to_owned()
        }
    );
    assert_eq!(snapshot_frame(1, b"", 1).map(|f| f.response), Some(ServerResponse::SnapshotEnd { chunks: 0 }));
    assert_eq!(snapshot_frame(1, b"", 2), None);
}

#[test]
fn uploads_are_checked() {
    let begin = |total_bytes| ClientRequest::SnapshotRestoreBegin {
        database: "d".to_owned(),
        total_bytes,
    };
    let chunk = |sequence, data: &str| ClientRequest::SnapshotRestoreChunk {
        sequence,
        data: data.to_owned(),
    };
    let mut state = connect('a');
    for total in [0, 300_001] {
        assert_eq!(
            refused(ask(&mut state, begin(total))),
            (
                ErrorCode::RequestTooLarge,
                "snapshot size is zero or exceeds max_snapshot_bytes".to_owned()
            )
        );
    }
    for request in [chunk(0, "AA=="), ClientRequest::SnapshotRestoreCommit] {
        assert_eq!(refused(ask(&mut state, request)).1, "no snapshot upload is active");
    }
    upload(&mut state, 2);
    assert_eq!(refused(ask(&mut state, begin(2))).1, "a snapshot upload is already active");
    assert_eq!(
        refused(ask(&mut state, chunk(1, "AA=="))).1,
        "snapshot chunk sequence is not contiguous"
    );
    assert!(refused(ask(&mut state, chunk(0, "A?==")))
        .1
        .starts_with("snapshot chunk is not valid base64: "));
    assert_eq!(
        refused(ask(&mut state, chunk(0, ""))).1,
        "snapshot chunk is empty or exceeds the chunk bound"
    );
    assert_eq!(
        refused(ask(&mut state, chunk(0, "AAAA"))).1,
        "snapshot chunks exceed declared total_bytes"
    );
    assert!(matches!(ask(&mut state, chunk(0, "AA==")), Step::Reply(_)));
    assert_eq!(
        refused(ask(&mut state, ClientRequest::SnapshotRestoreCommit)).1,
        "snapshot upload byte count does not match total_bytes"
    );
    assert_eq!(state.restore.as_ref().map(|upload| upload.bytes.len()), Some(1));
    assert_eq!(
        ask(&mut state, ClientRequest::SnapshotRestoreAbort),
        Step::Reply(ServerResponse::SnapshotRestore { state: "aborted".to_owned(), bytes: 1 })
    );
    assert!(state.restore.is_none());
    assert_eq!(
        ask(&mut state, ClientRequest::SnapshotRestoreAbort),
        Step::Reply(ServerResponse::SnapshotRestore { state: "aborted".to_owned(), bytes: 0 })
    );
}

fn failure(message: &str) -> ProtocolFailure {
    ProtocolFailure::new(ErrorCode::QueryError, message)
}

#[test]
fn late_work_that_committed_is_reported_as_done() {
    assert_eq!(settle(TimedRun::InTime(Ok(1)), "late"), Ok(1));
    assert_eq!(settle(TimedRun::<u8>::InTime(Err(failure("x"))), "late"), Err(failure("x")));
    assert_eq!(settle(TimedRun::Late(Ok(1)), "late"), Ok(1));
    assert_eq!(
        settle(TimedRun::<u8>::Late(Err(failure("x"))), "late"),
        Err(ProtocolFailure::new(ErrorCode::ResourceLimit, "late"))
    );
    assert_eq!(
        settle(TimedRun::<u8>::Broken("panic".to_owned()), "late").expect_err("it broke").code,
        ErrorCode::InternalError
    );
    let late = finish_commit(3, TimedRun::Late(Err(failure("x"))));
    assert_eq!(
        late,
        failure_frame(
            3,
            ProtocolFailure::new(ErrorCode::ResourceLimit, "transaction timeout exceeded")
        )
    );
    assert_eq!(
        finish_commit(3, TimedRun::InTime(Ok(Vec::new()))).response,
        ServerResponse::Transaction { state: "committed".to_owned(), results: Vec::new() }
    );
}

fn rows() -> StatementResult {
    StatementResult::Read(QueryResult {
        columns: vec!["value".to_owned()],
        rows: vec![vec![QueryValue::Integer(1)], vec![QueryValue::Integer(2)]],
        ordered: true,
    })
}

#[test]
fn rows_are_streamed_or_sent_at_once() {
    let integer = |value| Json::Number(JsonNumber::Integer(value));
    let frames = finish_query(5, TimedRun::InTime(Ok(rows())), true);
    let responses: Vec<ServerResponse> = frames.into_iter().map(|frame| frame.response).collect();
    assert_eq!(
        responses,
        vec![
            ServerResponse::StreamStart { columns: vec!["value".to_owned()], ordered: true },
            ServerResponse::StreamRow { row: vec![integer(1)] },
            ServerResponse::StreamRow { row: vec![integer(2)] },
            ServerResponse::StreamEnd { rows: 2 },
        ]
    );
    let frames = finish_query(5, TimedRun::InTime(Ok(rows())), false);
    assert_eq!(frames.len(), 1);
    assert!(matches!(frames[0].response, ServerResponse::Result { .. }));
    let frames = finish_query(5, TimedRun::Late(Err(failure("x"))), false);
    assert!(matches!(
        &frames[0].response,
        ServerResponse::Error { code: ErrorCode::ResourceLimit, .. }
    ));
}

#[test]
fn frames_stay_within_the_bound() {
    let frame = || respond(4, Ok(ServerResponse::Pong));
    let sent = bounded_response(frame(), MAX_FRAME_BYTES);
    assert_eq!((sent.frame, sent.error), (frame(), None));
    let cut = bounded_response(frame(), MAX_FRAME_BYTES + 1);
    assert_eq!(cut.error, Some("response exceeded the negotiated frame bound".to_owned()));
    assert_eq!(
        cut.frame,
        failure_frame(
            4,
            ProtocolFailure::new(
                ErrorCode::RequestTooLarge,
                "response cannot be represented within the negotiated frame bound"
            )
        )
    );
    assert_eq!(respond(4, Err(busy())), failure_frame(4, busy()));
    assert_eq!(client_frame_length(17), Ok(17));
    assert_eq!(client_frame_length(0), Err("frame size 0 is outside 1..=1048576".to_owned()));
    assert_eq!(
        client_frame_length(u32::MAX),
        Err("frame size 4294967295 is outside 1..=1048576".to_owned())
    );
    assert_eq!(end_connection(ReadEnd::Closed), Ok(()));
    assert_eq!(end_connection(ReadEnd::Reset), Ok(()));
    assert_eq!(end_connection(ReadEnd::Shutdown), Ok(()));
    assert_eq!(end_connection(ReadEnd::Violation("v".to_owned())), Err("v".to_owned()));
    assert_eq!(end_connection(ReadEnd::Broken("x".to_owned())), Err("x".to_owned()));
}

#[test]
fn every_close_cancels_what_is_active() {
    let mut active = ActiveRequests::new();
    for request_id in [7_u64, 3, 11] {
        assert_eq!(active.insert(request_id, "token"), Ok(()));
    }
    active.remove(11);
    let violation = client_frame_length(0).expect_err("no frame is empty");
    for end in [
        ReadEnd::Closed,
        ReadEnd::Reset,
        ReadEnd::Shutdown,
        ReadEnd::Violation(violation),
        ReadEnd::Broken("broken".to_owned()),
    ] {
        let in_order = !matches!(end, ReadEnd::Violation(_) | ReadEnd::Broken(_));
        let closing = close_connection(&active, end);
        let mut cancel = closing.cancel;
        cancel.sort_unstable();
        assert_eq!(cancel, vec![3, 7]);
        assert_eq!(closing.result.is_ok(), in_order);
    }
    let closing = close_connection(&ActiveRequests::<()>::new(), ReadEnd::Closed);
    assert!(closing.cancel.is_empty());
}

#[test]
fn client_limits_can_only_lower_server_limits() {
    let defaults = QueryLimits {
        max_rows: 10,
        max_memory_bytes: 20,
        max_operations: 30,
        max_traversals: 40,
    };
    let lowered = lower_limits(
        defaults,
        Some(WireQueryLimits {
            max_rows: Some(5),
            max_memory_bytes: Some(200),
            max_operations: None,
            max_traversals: Some(0),
        }),
    );
    assert_eq!(lowered.max_rows, 5);
    assert_eq!(lowered.max_memory_bytes, 20);
    assert_eq!(lowered.max_operations, 30);
    assert_eq!(lowered.max_traversals, 0);
    assert_eq!(lower_limits(defaults, None), defaults);
}

fn statement(query: &str, read_only: bool) -> QueuedStatement {
    QueuedStatement { query: query.to_owned(), parameters: Vec::new(), read_only }
}

#[test]
fn read_only_requests_do_not_write() {
    let statements = vec![statement("CREATE (n)", false), statement("CREATE (n)", true)];
    assert_eq!(admit_commit(&statements, &vec![true, false]), Ok(()));
    assert_eq!(
        admit_commit(&statements, &vec![true, true]).expect_err("the second writes"),
        failure("read_only request rejected a mutating query")
    );
    let defaults = DaemonConfig::new("/d".to_owned(), "127.0.0.1:0".to_owned()).query_limits();
    let none: Vec<JsonField> = Vec::new();
    assert!(prepare_query(&none, true, false, defaults, None).is_ok());
    assert!(prepare_query(&none, true, true, defaults, None).is_err());
    let prepared = prepare_transaction(&statements).ok().expect("there are no parameters");
    assert_eq!(prepared.len(), 2);
    let mut wrong = statement("RETURN $x", true);
    wrong.parameters.push(JsonField {
        name: "x".to_owned(),
        value: Json::Number(JsonNumber::Decimal("1e999".to_owned())),
    });
    assert_eq!(
        prepare_transaction(&vec![wrong]).err().expect("the number is out of range").message,
        "parameter number is outside the supported range"
    );
}

#[test]
fn engine_failures_have_stable_codes() {
    let storage = |busy| DatabaseError::Storage { busy, message: "locked".to_owned() };
    let query = |resource_limit| DatabaseError::Query { resource_limit, message: "m".to_owned() };
    let busy = database_failure(storage(true), false);
    assert_eq!((busy.code, busy.retryable), (ErrorCode::DatabaseBusy, true));
    assert_eq!(database_failure(storage(false), false).code, ErrorCode::InternalError);
    assert_eq!(database_failure(query(true), false).code, ErrorCode::ResourceLimit);
    assert_eq!(database_failure(query(false), false).code, ErrorCode::QueryError);
    assert_eq!(database_failure(query(false), true).code, ErrorCode::QueryError);
    assert_eq!(database_failure(query(true), true).code, ErrorCode::Cancelled);
}

#[test]
fn inspection_renders_a_fixed_width_checksum() {
    assert_eq!(fixed_hex(0xab), "00000000000000ab");
    assert_eq!(fixed_hex(u64::MAX), "ffffffffffffffff");
    let entry = nostdb_server::catalog::CatalogDatabase {
        id: "id".to_owned(),
        name: "knowledge".to_owned(),
        state: "ready".to_owned(),
    };
    let details = inspection(
        &entry,
        StorageInfo {
            ndb_format_version: 1,
            schema_revision: 2,
            generation: 3,
            logical_checksum: 4,
            schemas: 5,
            nodes: 6,
            edges: 7,
            healthy: true,
        },
    );
    assert_eq!(details.summary, summary("id", "knowledge"));
    assert_eq!(details.logical_checksum, "0000000000000004");
    assert_eq!((details.schemas, details.nodes, details.edges), (5, 6, 7));
    assert!(details.healthy);
}

#[test]
fn an_abandoned_connection_holds_nothing() {
    let mut state = connect('a');
    select(&mut state, "id-1");
    ask(&mut state, ClientRequest::Begin);
    assert!(state.transaction.is_some());
    let seen = state.last_request_id;
    state.abandon();
    assert!(state.transaction.is_none() && state.restore.is_none());
    assert_eq!(state.selected_database_id, Some("id-1".to_owned()));
    assert_eq!(state.last_request_id, seen);
}
