//! The HTTP surface: its rules, its bodies and its sessions.

use nostdb_server::config::QueryLimits;
use nostdb_server::http::{
    admit_request, admit_versions, authenticate, authorized, catalog_body, check_package_body,
    check_query_body, committed_body, count_end, database_message, effective_limit, error_body,
    export_failure, finish_timeout, health_body, imported_body, join_result, property_entry, query_count, queued_body,
    request_budget, restored_body, schema_body, schema_entry, session_body, status_body,
    stream_lines, truncate_entries, unauthorized, unresolved_body, unresolved_entry, ApiError,
    Budget, CatalogInfo, EngineFailure, QueryCount, QueryRequest, RequestLimits, WorkerEnd,
};
use nostdb_server::json::{
    json_array, json_count, json_field, json_object, json_text, Json, JsonNumber,
};
use nostdb_server::package::LogicalPackageDocument;
use nostdb_server::server::{
    admit_database, Counted, Metrics, ServerConfig, SERVER_PROTOCOL_VERSION,
};
use nostdb_server::sessions::{SessionStatement, Sessions};
use nostdb_server::time::Duration;
use nostdb_server::wire::{QueryResult, QueryValue, StatementResult};

fn config() -> ServerConfig {
    ServerConfig::new("/db.ndb".to_owned(), "key".to_owned())
}

fn budget() -> Budget {
    Budget {
        limits: QueryLimits {
            max_rows: 10,
            max_memory_bytes: 20,
            max_operations: 30,
            max_traversals: 40,
        },
        timeout: Duration::from_millis(50),
    }
}

fn request(limits: Option<RequestLimits>) -> QueryRequest {
    QueryRequest {
        query: "RETURN 1".to_owned(),
        parameters: Vec::new(),
        stream: false,
        read_only: true,
        limits,
    }
}

fn parts(error: ApiError) -> (u16, String, String) {
    (error.status, error.code, error.message)
}

fn part(status: u16, code: &str, message: &str) -> (u16, String, String) {
    (status, code.to_owned(), message.to_owned())
}

#[test]
fn the_default_configuration_is_valid() {
    let config = config();
    assert_eq!(SERVER_PROTOCOL_VERSION, 1);
    assert_eq!(config.validate(), Ok(()));
    assert_eq!(config.query_timeout, Duration::from_secs(30));
    let refusal = |config: ServerConfig| {
        config.validate().expect_err("the configuration is invalid").text().to_owned()
    };
    let mut unnamed = self::config();
    unnamed.api_key = String::new();
    assert_eq!(refusal(unnamed), "API key must not be empty");
    let mut still = self::config();
    still.query_timeout = Duration::from_millis(0);
    assert_eq!(refusal(still), "server limits must be positive and consistent");
    let mut idle = self::config();
    idle.max_sessions = 0;
    assert_eq!(refusal(idle), "server limits must be positive and consistent");
    assert_eq!(admit_database(false), Ok(()));
    assert!(admit_database(true)
        .expect_err("the Database has a source baseline")
        .text()
        .starts_with("server mode refuses a database"));
}

#[test]
fn only_the_bearer_key_is_authorized() {
    assert!(authorized(Some("Bearer key"), "key"));
    for header in [None, Some("key"), Some("Bearer other"), Some("bearer key"), Some("Bearer key ")] {
        assert!(!authorized(header, "key"));
    }
    assert_eq!(parts(unauthorized()), part(401, "unauthorized", "invalid API key"));
}

#[test]
fn every_request_and_every_refusal_is_counted() {
    let mut metrics = Metrics::new();
    assert_eq!(authenticate(&mut metrics, Some("Bearer key"), "key"), Ok(()));
    assert_eq!(metrics, Metrics { requests: 1, ..Metrics::new() });
    for header in [None, Some("Bearer other"), Some("key")] {
        let refused = authenticate(&mut metrics, header, "key").expect_err("the key is wrong");
        assert_eq!(parts(refused), part(401, "unauthorized", "invalid API key"));
    }
    assert_eq!(metrics, Metrics { requests: 4, auth_failures: 3, ..Metrics::new() });
    metrics.count(Counted::Query);
    count_end(&mut metrics, QueryCount::Nothing);
    metrics.count(Counted::Query);
    count_end(&mut metrics, QueryCount::Error);
    metrics.count(Counted::Query);
    count_end(&mut metrics, QueryCount::Timeout);
    metrics.count(Counted::Session);
    metrics.count(Counted::Restore);
    assert_eq!(
        metrics,
        Metrics {
            requests: 4,
            queries: 3,
            query_errors: 1,
            auth_failures: 3,
            timeouts: 1,
            sessions_created: 1,
            snapshot_restores: 1,
        }
    );
    let mut full = Metrics { requests: u64::MAX, ..Metrics::new() };
    full.count(Counted::Request);
    assert_eq!(full, Metrics::new());
}

#[test]
fn metrics_are_rendered_in_a_fixed_order() {
    let metrics = Metrics {
        requests: 1,
        queries: 2,
        query_errors: 3,
        auth_failures: 3,
        timeouts: 5,
        sessions_created: 6,
        snapshot_restores: 7,
    };
    let text = metrics.render(8);
    assert!(text.contains("nostdb_auth_failures_total 3"));
    assert_eq!(
        text,
        "# TYPE nostdb_http_requests_total counter\n\
         nostdb_http_requests_total 1\n\
         # TYPE nostdb_queries_total counter\n\
         nostdb_queries_total 2\n\
         nostdb_query_errors_total 3\n\
         nostdb_auth_failures_total 3\n\
         nostdb_query_timeouts_total 5\n\
         nostdb_sessions_created_total 6\n\
         nostdb_snapshot_restores_total 7\n\
         # TYPE nostdb_sessions_active gauge\n\
         nostdb_sessions_active 8\n"
    );
}

#[test]
fn requests_only_lower_the_budget() {
    let asked = |timeout_ms| RequestLimits {
        max_rows: Some(1),
        max_memory_bytes: Some(100),
        max_operations: None,
        max_traversals: Some(0),
        timeout_ms,
    };
    let lowered = request_budget(&request(Some(asked(Some(5)))), budget()).ok().expect("it is positive");
    assert_eq!(
        lowered.limits,
        QueryLimits { max_rows: 1, max_memory_bytes: 20, max_operations: 30, max_traversals: 0 }
    );
    assert_eq!(lowered.timeout, Duration::from_millis(5));
    let same = request_budget(&request(Some(asked(Some(5_000)))), budget()).ok().expect("it is positive");
    assert_eq!(same.timeout, Duration::from_millis(50));
    let plain = request_budget(&request(None), budget()).ok().expect("nothing is asked for");
    assert_eq!(plain.limits, budget().limits);
    let zero = request_budget(&request(Some(asked(Some(0)))), budget()).err().expect("it is zero");
    assert_eq!(parts(zero), part(400, "bad_request", "timeout_ms must be positive"));
    assert_eq!(effective_limit(None, 7), 7);
    assert_eq!(effective_limit(Some(999), 7), 7);
    assert_eq!(effective_limit(Some(3), 7), 3);
}

#[test]
fn bodies_are_bounded() {
    assert_eq!(check_query_body(64, 64), Ok(()));
    assert_eq!(
        parts(check_query_body(65, 64).expect_err("it is too long")),
        part(413, "request_too_large", "JSON request body exceeds the configured limit")
    );
    assert_eq!(check_package_body(1, 1), Ok(()));
    assert_eq!(
        parts(check_package_body(2, 1).expect_err("it is too long")),
        part(
            413,
            "request_too_large",
            "logical package exceeds the configured JSON body limit"
        )
    );
}

#[test]
fn read_only_requests_are_prepared_first() {
    assert_eq!(admit_request(&request(None), &Ok(())), Ok(Vec::new()));
    assert_eq!(
        parts(admit_request(&request(None), &Err("it writes".to_owned())).expect_err("it writes")),
        part(400, "query_error", "read-only query required: it writes")
    );
    let mut writing = request(None);
    writing.read_only = false;
    assert_eq!(admit_request(&writing, &Err("it writes".to_owned())), Ok(Vec::new()));
    writing.parameters.push(json_field("x", Json::Number(JsonNumber::Decimal("1e999".to_owned()))));
    assert_eq!(
        parts(admit_request(&writing, &Ok(())).expect_err("the number is out of range")),
        part(400, "bad_request", "parameter number is outside the supported range")
    );
}

#[test]
fn engine_failures_keep_their_kind() {
    let answered = |failure: EngineFailure| parts(database_message(&failure.text()));
    let message = || "max_rows exceeded".to_owned();
    assert_eq!(
        answered(EngineFailure::ResourceLimit(message())),
        part(429, "resource_limit", "max_rows exceeded")
    );
    assert_eq!(
        answered(EngineFailure::Query(message())),
        part(400, "query_error", "max_rows exceeded")
    );
    assert_eq!(
        answered(EngineFailure::Storage(message())),
        part(500, "database_error", "max_rows exceeded")
    );
    assert_eq!(parts(database_message("other")), part(500, "internal_error", "other"));
}

#[test]
fn a_cancelled_query_timed_out_and_a_committed_one_did_not() {
    let cancelled = || WorkerEnd::<u8>::Returned(Err(
        "resource_limit|query execution cancelled".to_owned(),
    ));
    assert_eq!(
        parts(finish_timeout(cancelled(), "query timeout exceeded").expect_err("it was cancelled")),
        part(408, "query_timeout", "query timeout exceeded")
    );
    assert_eq!(finish_timeout(WorkerEnd::Returned(Ok(7)), "late"), Ok(7));
    assert_eq!(
        parts(
            finish_timeout(WorkerEnd::<u8>::Returned(Err("query_error|bad".to_owned())), "late")
                .expect_err("it failed first")
        ),
        part(400, "query_error", "bad")
    );
    assert_eq!(
        parts(finish_timeout(WorkerEnd::<u8>::Broken("panic".to_owned()), "late").expect_err("it broke")),
        part(500, "internal_error", "query worker failed after timeout: panic")
    );
    assert_eq!(join_result(WorkerEnd::Returned(Ok(7))), Ok(7));
    assert_eq!(
        parts(join_result(WorkerEnd::<u8>::Broken("panic".to_owned())).expect_err("it broke")),
        part(500, "internal_error", "query worker failed: panic")
    );
    assert!(matches!(query_count(&cancelled(), true), QueryCount::Timeout));
    assert!(matches!(query_count(&cancelled(), false), QueryCount::Error));
    assert!(matches!(query_count(&WorkerEnd::Returned(Ok(7)), true), QueryCount::Nothing));
}

#[test]
fn bodies_have_sorted_fields() {
    let object = |fields: Vec<(&str, Json)>| {
        json_object(fields.into_iter().map(|(name, value)| json_field(name, value)).collect())
    };
    assert_eq!(status_body("begun"), object(vec![("status", json_text("begun"))]));
    assert_eq!(
        health_body(),
        object(vec![("protocol_version", json_count(1)), ("status", json_text("ok"))])
    );
    assert_eq!(
        queued_body(2),
        object(vec![("statement_count", json_count(2)), ("status", json_text("queued"))])
    );
    assert_eq!(
        restored_body(9),
        object(vec![("bytes", json_count(9)), ("status", json_text("restored"))])
    );
    assert_eq!(
        imported_body(3),
        object(vec![("modules", json_count(3)), ("status", json_text("imported"))])
    );
    assert_eq!(session_body("id"), object(vec![("session_id", json_text("id"))]));
    assert_eq!(
        error_body(&unauthorized()),
        object(vec![(
            "error",
            object(vec![
                ("code", json_text("unauthorized")),
                ("message", json_text("invalid API key"))
            ])
        )])
    );
    let committed = committed_body(&vec![StatementResult::Read(table())]);
    match committed {
        Json::Object(fields) => {
            assert_eq!(fields[0].name, "results");
            assert_eq!(fields[1], json_field("status", json_text("committed")));
        }
        _ => panic!("a body is an object"),
    }
}

#[test]
fn listings_are_truncated() {
    let entries = || vec![json_count(1), json_count(2), json_count(3)];
    let mut listed = entries();
    assert!(truncate_entries(&mut listed, 2));
    assert_eq!(listed, vec![json_count(1), json_count(2)]);
    let mut whole = entries();
    assert!(!truncate_entries(&mut whole, 3));
    assert_eq!(
        schema_body(entries(), 1),
        json_object(vec![
            json_field("returned", json_count(1)),
            json_field("schemas", json_array(vec![json_count(1)])),
            json_field("truncated", Json::Bool(true)),
        ])
    );
    assert_eq!(
        unresolved_body(entries(), 9),
        json_object(vec![
            json_field("entries", json_array(entries())),
            json_field("returned", json_count(3)),
            json_field("truncated", Json::Bool(false)),
        ])
    );
    assert_eq!(
        property_entry(json_text("name"), json_text("String")),
        json_object(vec![
            json_field("name", json_text("name")),
            json_field("type", json_text("String")),
        ])
    );
    let names = |json: Json| match json {
        Json::Object(fields) => fields.into_iter().map(|field| field.name).collect::<Vec<_>>(),
        _ => panic!("an entry is an object"),
    };
    assert_eq!(
        names(schema_entry(Json::Null, Json::Null, Vec::new(), Json::Null)),
        vec!["constraints", "identity", "properties", "state"]
    );
    assert_eq!(
        names(unresolved_entry(Json::Null, Json::Null, Json::Null, Json::Null)),
        vec!["identity", "internal_id", "kind", "state"]
    );
}

#[test]
fn the_catalog_names_counts_and_versions() {
    let body = catalog_body(&CatalogInfo {
        ndb_format_version: 1,
        schema_revision: 2,
        value_codec_version: 3,
        checksum_codec_version: 4,
        generation: 5,
        logical_checksum: 0xabc,
        source_managed: false,
        schemas: 6,
        nodes: 7,
        edges: 8,
        adjacency: 9,
        properties: 10,
    });
    let count = |name: &str, value| json_field(name, json_count(value));
    assert_eq!(
        body,
        json_object(vec![
            json_field(
                "counts",
                json_object(vec![
                    count("adjacency", 9),
                    count("edges", 8),
                    count("nodes", 7),
                    count("properties", 10),
                    count("schemas", 6),
                ])
            ),
            json_field(
                "database",
                json_object(vec![
                    count("checksum_codec_version", 4),
                    count("generation", 5),
                    json_field("logical_checksum", json_text("0000000000000abc")),
                    count("ndb_format_version", 1),
                    count("schema_revision", 2),
                    json_field("source_managed", Json::Bool(false)),
                    count("value_codec_version", 3),
                ])
            ),
            count("protocol_version", 1),
        ])
    );
}

fn table() -> QueryResult {
    QueryResult {
        columns: vec!["value".to_owned()],
        rows: vec![vec![QueryValue::Integer(1)], vec![QueryValue::Integer(2)]],
        ordered: true,
    }
}

#[test]
fn a_stream_starts_with_its_columns() {
    let lines = stream_lines(&table());
    assert_eq!(lines.len(), 3);
    assert_eq!(
        lines[0],
        json_object(vec![
            json_field("columns", json_array(vec![json_text("value")])),
            json_field("ordered", Json::Bool(true)),
        ])
    );
    let row = |value| json_object(vec![json_field("value", Json::Number(JsonNumber::Integer(value)))]);
    assert_eq!(lines[1], row(1));
    assert_eq!(lines[2], row(2));
}

#[test]
fn package_versions_are_refused_one_by_one() {
    let document = |package_version, language_version| LogicalPackageDocument {
        package_version,
        language_version,
        config: String::new(),
        modules: Vec::new(),
    };
    assert_eq!(admit_versions(&document(1, 1)), Ok(()));
    assert_eq!(
        parts(admit_versions(&document(2, 2)).expect_err("the package is unknown")),
        part(422, "unsupported_logical_package", "logical package_version must be 1")
    );
    assert_eq!(
        parts(admit_versions(&document(1, 2)).expect_err("the language is unknown")),
        part(422, "unsupported_logical_package", "logical language_version must be 1")
    );
    assert_eq!(parts(export_failure("busy")), part(422, "logical_export_failed", "busy"));
}

fn statement(query: &str) -> SessionStatement {
    SessionStatement { query: query.to_owned(), parameters: Vec::new() }
}

#[test]
fn sessions_are_bounded_and_forgotten() {
    let mut sessions = Sessions::new();
    let id = sessions.create(1).ok().expect("there is room");
    assert_eq!(uuid::Uuid::parse_str(&id).expect("an identity is a UUID").to_string(), id);
    assert_eq!(
        parts(sessions.create(1).expect_err("there is no room")),
        part(429, "session_limit", "maximum session count reached")
    );
    let other = sessions.create(2).ok().expect("there is room");
    assert_ne!(id, other);
    assert_eq!(sessions.delete(&id), Ok(()));
    assert_eq!(
        parts(sessions.delete(&id).expect_err("it is gone")),
        part(404, "session_not_found", "session does not exist")
    );
    assert_eq!(sessions.queued(&other), Ok(None));
    assert!(sessions.begin(&id).is_err());
}

#[test]
fn session_transactions_queue_and_end() {
    let mut sessions = Sessions::new();
    let id = sessions.create(4).ok().expect("there is room");
    assert_eq!(
        parts(sessions.commit(&id).err().expect("nothing was begun")),
        part(409, "no_transaction", "session has no active transaction")
    );
    assert_eq!(sessions.begin(&id), Ok(()));
    assert_eq!(
        parts(sessions.begin(&id).expect_err("it was begun")),
        part(409, "transaction_active", "session already has an active transaction")
    );
    assert_eq!(sessions.queue(&id, statement("CREATE (a)"), false, true, 2), Ok(1));
    assert!(sessions.queue(&id, statement("RETURN"), false, false, 2).is_err());
    assert!(sessions.queue(&id, statement("RETURN 1"), true, true, 2).is_err());
    assert_eq!(sessions.queue(&id, statement("CREATE (b)"), false, true, 2), Ok(2));
    assert_eq!(
        parts(sessions.queue(&id, statement("RETURN 1"), false, true, 2).expect_err("it is full")),
        part(429, "transaction_statement_limit", "transaction statement limit reached")
    );
    assert_eq!(sessions.queued(&id), Ok(Some(2)));
    let committed = sessions.commit(&id).ok().expect("two statements are queued");
    let texts: Vec<&str> = committed.iter().map(|entry| entry.query.as_str()).collect();
    assert_eq!(texts, vec!["CREATE (a)", "CREATE (b)"]);
    assert_eq!(sessions.queued(&id), Ok(None));
    assert_eq!(sessions.begin(&id), Ok(()));
    assert_eq!(sessions.rollback(&id), Ok(()));
    assert_eq!(sessions.queued(&id), Ok(None));
}

#[test]
fn sessions_do_not_see_each_other() {
    let mut sessions = Sessions::new();
    let first = sessions.create(4).ok().expect("there is room");
    let second = sessions.create(4).ok().expect("there is room");
    assert_eq!(sessions.begin(&first), Ok(()));
    assert_eq!(sessions.queue(&first, statement("CREATE (a)"), false, true, 4), Ok(1));
    assert_eq!(sessions.queued(&second), Ok(None));
    assert_eq!(sessions.begin(&second), Ok(()));
    assert_eq!(sessions.queue(&second, statement("CREATE (b)"), false, true, 4), Ok(1));
    assert_eq!(sessions.rollback(&first), Ok(()));
    assert_eq!(sessions.queued(&first), Ok(None));
    let committed = sessions.commit(&second).ok().expect("one statement is queued");
    assert_eq!(committed, vec![statement("CREATE (b)")]);
}
