//! Texts, paths, wire values and logical packages.

use nostdb_server::client::ErrorCode;
use nostdb_server::failure::ProtocolFailure;
use nostdb_server::http::{api_import_failure, package_body, ApiError};
use nostdb_server::json::{
    json_array, json_count, json_field, json_object, json_text, FloatValue, Json, JsonField,
    JsonNumber,
};
use nostdb_server::package::{
    admit_package, export_document, import_directory, import_failure, judge_module, ImportEvent,
    ImportFailure, ImportMachine, ImportStep, LogicalModuleDocument, LogicalPackageDocument,
    ModuleFault, ModuleIdentity,
};
use nostdb_server::path::{is_absolute, join, safe_module_path, same_path, valid_module_path};
use nostdb_server::text::{
    ascii_lowercase, bytes_eq, contains, decimal, hex, join2, join3, number_string, strip_prefix,
    text_before, text_eq, trim, white_space,
};
use nostdb_server::wire::{
    parameters, query_result, query_value, row_object, statement, to_json, EdgeValue, NodeValue,
    QueryField, QueryResult, QueryValue, StatementResult, WriteResult, WriteSummary,
};

#[test]
fn white_space_is_that_of_the_standard_library() {
    for code in 0..=0x10_FFFF_u32 {
        if let Some(c) = char::from_u32(code) {
            assert_eq!(white_space(c), c.is_whitespace(), "{code:x}");
        }
    }
    for text in ["", "  ", "a", " a b\t", "\u{3000}a\u{85}", "\n\r"] {
        assert_eq!(trim(text), text.trim());
    }
}

#[test]
fn texts_are_compared_joined_and_searched() {
    assert!(text_eq("한글", "한글") && !text_eq("a", "ab"));
    assert!(bytes_eq(b"ab", b"ab") && !bytes_eq(b"ab", b"ba"));
    for (a, b) in [("", "a"), ("a", "b"), ("a", "aa"), ("Z", "a"), ("z", "é"), ("\u{ffff}", "\u{10000}")] {
        assert!(text_before(a, b) && !text_before(b, a));
        assert!(a < b);
    }
    assert!(!text_before("a", "a"));
    assert_eq!(join2("a", "b"), "ab");
    assert_eq!(join3("a", "", "c"), "ac");
    assert!(contains("query execution cancelled early", "execution cancelled"));
    assert!(contains("abc", "") && !contains("", "a") && !contains("abd", "abc"));
    assert_eq!(strip_prefix("Bearer key", "Bearer "), Some("key"));
    assert_eq!(strip_prefix("bearer key", "Bearer "), None);
    assert_eq!(ascii_lowercase("Active-\u{c4}Z09"), "active-\u{c4}z09");
}

#[test]
fn numbers_are_rendered_in_any_base() {
    for number in [0, 1, 9, 10, 1_048_576, u64::MAX] {
        assert_eq!(decimal(number), number.to_string());
        assert_eq!(number_string(number, 16), format!("{number:x}"));
        assert_eq!(number_string(number, 2), format!("{number:b}"));
        assert_eq!(number_string(number, 8), format!("{number:o}"));
    }
    assert_eq!(hex(&[0, 15, 16, 255]), "000f10ff");
    assert_eq!(hex(&[]), "");
}

#[test]
fn paths_are_joined_and_compared_by_their_parts() {
    assert_eq!(join("/a", "b"), "/a/b");
    assert_eq!(join("/a/", "b"), "/a/b");
    assert_eq!(join("", "b"), "b");
    assert_eq!(join("/a", "/b"), "/b");
    assert!(is_absolute("/a") && !is_absolute("a") && !is_absolute(""));
    for (a, b, same) in [
        ("/a/b", "/a//b/", true),
        ("/a/./b", "/a/b", true),
        ("a", "./a", false),
        ("/a", "a", false),
        ("/a/../b", "/b", false),
        ("/a/b", "/a/c", false),
        ("/a", "/a/b", false),
    ] {
        assert_eq!(same_path(a, b), same, "{a} {b}");
        assert_eq!(std::path::Path::new(a) == std::path::Path::new(b), same, "{a} {b}");
    }
}

#[test]
fn module_paths_are_relative_and_normalized() {
    for path in ["a.nostdb", "dir/sub/a.nostdb", "a.b.nostdb"] {
        assert!(valid_module_path(path), "{path}");
        assert_eq!(safe_module_path(path), Ok(path.to_owned()));
    }
    for path in [
        "",
        ".nostdb",
        "a.txt",
        "/a.nostdb",
        "../outside.nostdb",
        "a/../b.nostdb",
        "./a.nostdb",
        "a//b.nostdb",
        "a/./b.nostdb",
        "a.nostdb/",
        "dir/.nostdb",
    ] {
        assert!(!valid_module_path(path), "{path}");
        assert_eq!(
            safe_module_path(path).expect_err("the path is unsafe").code,
            ErrorCode::QueryError
        );
    }
}

fn integer(value: i64) -> Json {
    Json::Number(JsonNumber::Integer(value))
}

fn text(value: &str) -> QueryValue {
    QueryValue::Text(value.to_owned())
}

fn field(name: &str, value: QueryValue) -> QueryField {
    QueryField { name: name.to_owned(), value }
}

#[test]
fn plain_values_survive_the_wire() {
    let one = FloatValue::Bits(1.5_f64.to_bits());
    let value = QueryValue::Record(vec![
        field("flag", QueryValue::Boolean(true)),
        field("list", QueryValue::List(vec![QueryValue::Null, QueryValue::Integer(-3)])),
        field("number", QueryValue::Float(one)),
        field("text", text("한글")),
    ]);
    let json = to_json(&value);
    assert_eq!(
        json,
        json_object(vec![
            json_field("flag", Json::Bool(true)),
            json_field("list", json_array(vec![Json::Null, integer(-3)])),
            json_field("number", Json::Number(JsonNumber::Float(one))),
            json_field("text", json_text("한글")),
        ])
    );
    assert_eq!(query_value(&json), Ok(value));
}

#[test]
fn numbers_outside_the_integers_become_floats() {
    assert_eq!(
        query_value(&Json::Number(JsonNumber::Unsigned(u64::MAX))),
        Ok(QueryValue::Float(FloatValue::Nearest(u64::MAX)))
    );
    assert_eq!(
        query_value(&Json::Number(JsonNumber::Unsigned(7))),
        Ok(QueryValue::Integer(7))
    );
    assert_eq!(query_value(&integer(i64::MIN)), Ok(QueryValue::Integer(i64::MIN)));
    let huge = Json::Number(JsonNumber::Decimal("1e999".to_owned()));
    let error = Err("parameter number is outside the supported range".to_owned());
    assert_eq!(query_value(&json_array(vec![Json::Null, huge])), error);
    let fields = vec![
        JsonField { name: "a".to_owned(), value: integer(1) },
        JsonField { name: "b".to_owned(), value: Json::Null },
    ];
    assert_eq!(
        parameters(&fields),
        Ok(vec![field("a", QueryValue::Integer(1)), field("b", QueryValue::Null)])
    );
    for bits in [f64::NAN.to_bits(), f64::INFINITY.to_bits()] {
        assert_eq!(to_json(&QueryValue::Float(FloatValue::Bits(bits))), Json::Null);
    }
    assert!(FloatValue::Bits(0).finite() && FloatValue::Nearest(1).finite());
}

#[test]
fn graph_values_have_a_documented_shape() {
    assert_eq!(to_json(&QueryValue::Bytes(vec![0xde, 0xad])), json_text("dead"));
    assert_eq!(
        to_json(&QueryValue::Duration(-5)),
        json_object(vec![json_field("nanoseconds", integer(-5))])
    );
    let node = QueryValue::Node(NodeValue {
        id: 4,
        state: "Active".to_owned(),
        labels: vec!["Person".to_owned()],
        properties: vec![field("name", text("Alice"))],
    });
    assert_eq!(
        to_json(&node),
        json_object(vec![
            json_field("id", json_count(4)),
            json_field("labels", json_array(vec![json_text("Person")])),
            json_field("properties", json_object(vec![json_field("name", json_text("Alice"))])),
            json_field("state", json_text("active")),
        ])
    );
    let edge = QueryValue::Edge(EdgeValue {
        id: 1,
        kind: "Resolved".to_owned(),
        source: 2,
        target: 3,
        relationship_type: "KNOWS".to_owned(),
        properties: Vec::new(),
    });
    assert_eq!(
        to_json(&edge),
        json_object(vec![
            json_field("id", json_count(1)),
            json_field("kind", json_text("resolved")),
            json_field("properties", json_object(Vec::new())),
            json_field("source", json_count(2)),
            json_field("target", json_count(3)),
            json_field("type", json_text("KNOWS")),
        ])
    );
}

fn table() -> QueryResult {
    QueryResult {
        columns: vec!["b".to_owned(), "a".to_owned(), "b".to_owned()],
        rows: vec![vec![QueryValue::Integer(1), QueryValue::Integer(2), QueryValue::Integer(3)]],
        ordered: false,
    }
}

#[test]
fn results_are_rendered_by_kind() {
    let table_json = || {
        json_object(vec![
            json_field(
                "columns",
                json_array(vec![json_text("b"), json_text("a"), json_text("b")]),
            ),
            json_field("ordered", Json::Bool(false)),
            json_field("rows", json_array(vec![json_array(vec![integer(1), integer(2), integer(3)])])),
        ])
    };
    assert_eq!(query_result(&table()), table_json());
    assert_eq!(
        statement(&StatementResult::Read(table())),
        json_object(vec![
            json_field("kind", json_text("read")),
            json_field("result", table_json()),
        ])
    );
    let write = StatementResult::Write(WriteResult {
        summary: WriteSummary {
            nodes_created: 1,
            edges_created: 2,
            nodes_deleted: 3,
            edges_deleted: 4,
            properties_set: 5,
            properties_removed: 6,
        },
        result: None,
    });
    assert_eq!(
        statement(&write),
        json_object(vec![
            json_field("kind", json_text("write")),
            json_field(
                "write",
                json_object(vec![
                    json_field("result", Json::Null),
                    json_field(
                        "summary",
                        json_object(vec![
                            json_field("edges_created", json_count(2)),
                            json_field("edges_deleted", json_count(4)),
                            json_field("nodes_created", json_count(1)),
                            json_field("nodes_deleted", json_count(3)),
                            json_field("properties_removed", json_count(6)),
                            json_field("properties_set", json_count(5)),
                        ])
                    ),
                ])
            ),
        ])
    );
}

#[test]
fn a_row_object_keeps_the_last_of_equal_columns() {
    let table = table();
    assert_eq!(
        row_object(&table.columns, &table.rows[0]),
        json_object(vec![json_field("a", integer(2)), json_field("b", integer(3))])
    );
    assert_eq!(
        row_object(&table.columns, &vec![QueryValue::Integer(1)]),
        json_object(vec![json_field("a", Json::Null), json_field("b", Json::Null)])
    );
}

fn module(path: &str) -> LogicalModuleDocument {
    LogicalModuleDocument {
        path: path.to_owned(),
        stable_module_id: "m".to_owned(),
        source: "source".to_owned(),
    }
}

fn import(
    modules: Vec<LogicalModuleDocument>,
    adopt: bool,
    inject: impl Fn(ImportStep, usize) -> Option<ImportEvent<&'static str>>,
) -> (Vec<ImportStep>, Result<u64, ImportFailure<&'static str>>) {
    let mut machine = ImportMachine::start(modules, adopt);
    let mut steps = Vec::new();
    while machine.step != ImportStep::Finished {
        steps.push(machine.step);
        let event = match inject(machine.step, machine.index) {
            Some(event) => event,
            None if machine.step == ImportStep::IdentifyModule => {
                ImportEvent::Identity(ModuleIdentity::Same)
            }
            None => ImportEvent::Done,
        };
        machine.advance(event);
    }
    (steps, machine.result())
}

#[test]
fn a_package_is_installed_when_every_module_is_fine() {
    let (steps, result) = import(vec![module("a.nostdb"), module("b.nostdb")], true, |_, _| None);
    assert_eq!(result, Ok(2));
    assert_eq!(
        steps,
        vec![
            ImportStep::MakeDirectory,
            ImportStep::WriteConfig,
            ImportStep::LoadConfig,
            ImportStep::IdentifyModule,
            ImportStep::WriteModule,
            ImportStep::IdentifyModule,
            ImportStep::WriteModule,
            ImportStep::Compile,
            ImportStep::OpenCandidate,
            ImportStep::AdoptCandidate,
            ImportStep::CheckpointCandidate,
            ImportStep::ReadCandidate,
            ImportStep::Install,
            ImportStep::CleanUp,
        ]
    );
    let (steps, result) = import(Vec::new(), false, |_, _| None);
    assert_eq!(result, Ok(0));
    assert!(!steps.contains(&ImportStep::AdoptCandidate));
    let (_, result) = import(Vec::new(), false, |step, _| {
        (step == ImportStep::CleanUp).then_some(ImportEvent::Failed("busy".to_owned()))
    });
    assert_eq!(result, Ok(0));
}

#[test]
fn failed_logical_import_removes_its_temporary_directory() {
    let package = LogicalPackageDocument {
        package_version: 1,
        language_version: 1,
        config: "this is not valid TOML =".to_owned(),
        modules: Vec::new(),
    };
    assert_eq!(admit_package(&package), Ok(()));
    let directory = import_directory("/data/databases/database-id", "logical-import-");
    let config = package.config;
    let mut entries = vec!["database.ndb".to_owned()];
    let mut machine: ImportMachine<ProtocolFailure> = ImportMachine::start(package.modules, false);
    while machine.step != ImportStep::Finished {
        let event = match machine.step {
            ImportStep::MakeDirectory => {
                entries.push(directory.clone());
                ImportEvent::Done
            }
            ImportStep::LoadConfig => ImportEvent::Failed(format!("cannot parse `{config}`")),
            ImportStep::CleanUp => {
                entries.retain(|entry| *entry != directory);
                ImportEvent::Done
            }
            ImportStep::WriteConfig => ImportEvent::Done,
            step => panic!("an invalid configuration does not lead to {step:?}"),
        };
        machine.advance(event);
    }
    let error = machine.result().expect_err("invalid package rejects");
    assert_eq!(
        import_failure(error),
        ProtocolFailure::new(ErrorCode::QueryError, "cannot parse `this is not valid TOML =`")
    );
    assert_eq!(entries, vec!["database.ndb".to_owned()]);
}

#[test]
fn an_exported_package_names_its_settings() {
    let document = export_document(1, "[project]".to_owned(), vec![module("a.nostdb")]);
    assert_eq!(
        package_body(&document),
        json_object(vec![
            json_field("language_version", json_count(1)),
            json_field(
                "modules",
                Json::Array(vec![json_object(vec![
                    json_field("path", json_text("a.nostdb")),
                    json_field("source", json_text("source")),
                    json_field("stable_module_id", json_text("m")),
                ])])
            ),
            json_field("package_version", json_count(1)),
            json_field("settings", json_text("[project]")),
        ])
    );
}

#[test]
fn faulty_packages_never_reach_the_database() {
    let fault = |modules: Vec<LogicalModuleDocument>, identity| {
        let (steps, result) = import(modules, true, |step, index| {
            (step == ImportStep::IdentifyModule && index == 1)
                .then_some(ImportEvent::Identity(identity))
        });
        assert!(!steps.contains(&ImportStep::Install));
        assert_eq!(steps.last(), Some(&ImportStep::CleanUp));
        match result {
            Err(ImportFailure::Module { fault, path }) => (fault, path),
            other => panic!("expected a module fault, got {other:?}"),
        }
    };
    let pair = |second: &str| vec![module("a.nostdb"), module(second)];
    let same = ModuleIdentity::Same;
    assert_eq!(
        fault(pair("../outside.nostdb"), same),
        (ModuleFault::Path, "../outside.nostdb".to_owned())
    );
    assert_eq!(fault(pair("a.nostdb"), same).0, ModuleFault::Repeated);
    assert_eq!(fault(pair("..\\b.nostdb"), ModuleIdentity::Outside).0, ModuleFault::Path);
    assert_eq!(fault(pair("b.nostdb"), ModuleIdentity::Malformed).0, ModuleFault::Malformed);
    assert_eq!(fault(pair("b.nostdb"), ModuleIdentity::Different).0, ModuleFault::Different);
    assert_eq!(judge_module(&pair("b.nostdb"), 1, same), None);

    let failing = |at: ImportStep, event: fn() -> ImportEvent<&'static str>| {
        import(vec![module("a.nostdb")], true, move |step, _| {
            if step == at { Some(event()) } else { None }
        })
        .1
        .expect_err("the step fails")
    };
    let failed = || ImportEvent::Failed("x".to_owned());
    assert_eq!(failing(ImportStep::MakeDirectory, failed), ImportFailure::Internal("x".to_owned()));
    assert_eq!(failing(ImportStep::WriteModule, failed), ImportFailure::Internal("x".to_owned()));
    assert_eq!(failing(ImportStep::Compile, failed), ImportFailure::Rejected("x".to_owned()));
    assert_eq!(
        failing(ImportStep::AdoptCandidate, failed),
        ImportFailure::Incompatible("x".to_owned())
    );
    assert_eq!(
        failing(ImportStep::Install, || ImportEvent::NotInstalled("y")),
        ImportFailure::Install("y")
    );
}

#[test]
fn import_failures_are_answered_on_both_surfaces() {
    let module = |fault| ImportFailure::Module { fault, path: "a.nostdb".to_owned() };
    let over_protocol = import_failure(ImportFailure::Rejected("bad".to_owned()));
    assert_eq!(over_protocol, ProtocolFailure::new(ErrorCode::QueryError, "bad"));
    let installed = ProtocolFailure::new(ErrorCode::RecoveryRequired, "later");
    assert_eq!(import_failure(ImportFailure::Install(installed.copy())), installed);
    assert_eq!(
        import_failure(ImportFailure::Incompatible("old".to_owned())).code,
        ErrorCode::SnapshotIncompatible
    );
    assert_eq!(
        import_failure(ImportFailure::Internal("disk".to_owned())).code,
        ErrorCode::InternalError
    );
    for fault in
        [ModuleFault::Path, ModuleFault::Repeated, ModuleFault::Malformed, ModuleFault::Different]
    {
        assert_eq!(import_failure(module(fault)).code, ErrorCode::QueryError);
    }
    let over_http: ApiError = api_import_failure(ImportFailure::Module {
        fault: ModuleFault::Path,
        path: "../outside.nostdb".to_owned(),
    });
    assert_eq!(
        over_http,
        ApiError::new(400, "bad_request", "invalid logical module path `../outside.nostdb`")
    );
    let kept = ApiError::new(500, "internal_error", "kept");
    assert_eq!(
        api_import_failure(ImportFailure::Install(ApiError::new(500, "internal_error", "kept"))),
        kept
    );
}

#[test]
fn packages_carry_their_versions() {
    let document = export_document(1, "config".to_owned(), vec![module("a.nostdb")]);
    assert_eq!((document.package_version, document.language_version), (1, 1));
    assert_eq!(admit_package(&document), Ok(()));
    let other = |package_version, language_version| LogicalPackageDocument {
        package_version,
        language_version,
        config: String::new(),
        modules: Vec::new(),
    };
    for document in [other(2, 1), other(1, 2)] {
        assert_eq!(
            admit_package(&document).expect_err("the version is unknown").message,
            "logical package and language versions must both be 1"
        );
    }
    let first = import_directory("/data", "logical-import-");
    let second = import_directory("/data", "logical-import-");
    assert_ne!(first, second);
    let mark = first.strip_prefix("/data/logical-import-").expect("the prefix is fixed");
    assert_eq!(uuid::Uuid::parse_str(mark).expect("the mark is a UUID").to_string(), mark);
}
