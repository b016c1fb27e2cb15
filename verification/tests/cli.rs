//! The command lines of the two programs.

use nostdb_server::cli::{
    help_requested, number, parse_arguments, parse_daemon, parse_init, parse_serve,
    select_default_config_path, DaemonCommand, DAEMON_HELP, DEFAULT_LISTEN, INIT_HELP, SERVER_HELP,
    SERVE_HELP,
};
use nostdb_server::time::Duration;

fn words(line: &str) -> Vec<String> {
    line.split_whitespace().map(str::to_owned).collect()
}

#[test]
fn config_environment_has_priority_over_nostdb_home() {
    assert_eq!(
        select_default_config_path(
            Some("/explicit/server.toml".to_owned()),
            Some("/user/.nostdb".to_owned()),
            "/platform/server.toml".to_owned(),
        ),
        "/explicit/server.toml"
    );
}

#[test]
fn nostdb_home_contains_the_default_config_directory() {
    assert_eq!(
        select_default_config_path(
            None,
            Some("/user/.nostdb".to_owned()),
            "/platform/server.toml".to_owned(),
        ),
        "/user/.nostdb/config/server.toml"
    );
}

#[test]
fn the_platform_default_comes_last() {
    assert_eq!(
        select_default_config_path(None, None, "/platform/server.toml".to_owned()),
        "/platform/server.toml"
    );
}

#[test]
fn subcommand_help_is_successful_and_actionable() {
    for (command, option) in [("init", "--data-dir"), ("serve", "--config")] {
        let parsed = parse_daemon(&words(&format!("{command} --help")), "/d");
        let help = match parsed {
            Ok(DaemonCommand::InitHelp) => INIT_HELP,
            Ok(DaemonCommand::ServeHelp) => SERVE_HELP,
            _ => panic!("{command} help must succeed"),
        };
        assert!(help.contains(&format!("nostd {command}")));
        assert!(help.contains(option));
    }
}

#[test]
fn daemon_commands_are_told_apart() {
    for line in ["", "-h", "--help", "--help init"] {
        assert!(matches!(parse_daemon(&words(line), "/d"), Ok(DaemonCommand::Help)));
    }
    for line in ["-V", "--version"] {
        assert!(matches!(parse_daemon(&words(line), "/d"), Ok(DaemonCommand::Version)));
    }
    let error = |line: &str| parse_daemon(&words(line), "/d").err().expect("the line is refused");
    assert_eq!(error("--version now"), "--version does not accept arguments");
    assert_eq!(error("start"), format!("unknown command `start`\n\n{DAEMON_HELP}"));
    match parse_daemon(&words("serve --config /c"), "/d") {
        Ok(DaemonCommand::Serve(path)) => assert_eq!(path, "/c"),
        _ => panic!("serve is a command"),
    }
    match parse_daemon(&words("init --data-dir /data"), "/d") {
        Ok(DaemonCommand::Init(options)) => assert_eq!(options.config_path, "/d"),
        _ => panic!("init is a command"),
    }
    assert!(help_requested(&words("init x -h"), 1));
    assert!(!help_requested(&words("--help x"), 1));
}

#[test]
fn init_options_have_defaults() {
    let options = parse_init(&words("init --data-dir /data"), 1, "/d").expect("options parse");
    assert_eq!(options.data_directory, "/data");
    assert_eq!(options.config_path, "/d");
    assert_eq!(options.listen, DEFAULT_LISTEN);
    let line = "--data-dir /a --config /c --listen 0.0.0.0:1 --data-dir /b";
    let options = parse_init(&words(line), 0, "/d").expect("options parse");
    assert_eq!(options.data_directory, "/b");
    assert_eq!(options.config_path, "/c");
    assert_eq!(options.listen, "0.0.0.0:1");
    let error = |line: &str| parse_init(&words(line), 0, "/d").err().expect("options are refused");
    assert_eq!(error(""), "init requires --data-dir PATH");
    assert_eq!(error("--data-dir"), "option requires a value");
    assert_eq!(error("--port 1"), "unknown init option `--port`");
}

#[test]
fn serve_takes_one_option() {
    assert_eq!(parse_serve(&words(""), 0, "/d"), Ok("/d".to_owned()));
    assert_eq!(parse_serve(&words("--config /a --config /b"), 0, "/d"), Ok("/b".to_owned()));
    assert_eq!(
        parse_serve(&words("--config"), 0, "/d"),
        Err("option requires a value".to_owned())
    );
    assert_eq!(
        parse_serve(&words("--listen x"), 0, "/d"),
        Err("unknown serve option `--listen`".to_owned())
    );
}

#[test]
fn numbers_are_non_negative_integers() {
    assert_eq!(number("0"), Ok(0));
    assert_eq!(number("+18446744073709551615"), Ok(u64::MAX));
    assert_eq!(number("007"), Ok(7));
    for text in ["", "+", "-1", "1_000", "18446744073709551616", "a", "1 "] {
        assert_eq!(number(text), Err(format!("`{text}` is not a valid non-negative integer")));
        assert!(text.parse::<u64>().is_err());
    }
}

#[test]
fn server_arguments_lower_and_raise_the_defaults() {
    assert_eq!(parse_arguments(&words("--database x --help"), None).map(|a| a.is_none()), Ok(true));
    assert!(SERVER_HELP.contains("nostdb-server --database PATH"));
    let line = "--database /db --timeout-ms 5 --max-rows 1 --max-memory-bytes 2 \
                --max-operations 3 --max-traversals 4 --listen 127.0.0.1:1";
    let invocation = parse_arguments(&words(line), Some("key".to_owned()))
        .expect("arguments parse")
        .expect("no help was asked for");
    assert_eq!(invocation.listen, "127.0.0.1:1");
    assert_eq!(invocation.config.database_path, "/db");
    assert_eq!(invocation.config.api_key, "key");
    assert_eq!(invocation.config.query_timeout, Duration::from_millis(5));
    assert_eq!(invocation.config.query_limits.max_rows, 1);
    assert_eq!(invocation.config.query_limits.max_memory_bytes, 2);
    assert_eq!(invocation.config.query_limits.max_operations, 3);
    assert_eq!(invocation.config.query_limits.max_traversals, 4);

    let plain = parse_arguments(&words("--database /db --api-key k"), Some("key".to_owned()))
        .expect("arguments parse")
        .expect("no help was asked for");
    assert_eq!(plain.listen, "127.0.0.1:7878");
    assert_eq!(plain.config.api_key, "k");
    assert_eq!(plain.config.query_timeout, Duration::from_secs(30));
}

#[test]
fn server_arguments_are_checked() {
    let error = |line: &str, key: Option<&str>| {
        parse_arguments(&words(line), key.map(str::to_owned)).err().expect("arguments are refused")
    };
    assert_eq!(error("--database", Some("k")), "--database requires a value");
    assert_eq!(error("--bogus", Some("k")), "--bogus requires a value");
    assert_eq!(error("--bogus 1", Some("k")), "unknown option `--bogus`");
    assert_eq!(error("", Some("k")), "--database is required");
    assert_eq!(error("--database d", None), "--api-key or NOSTDB_API_KEY is required");
    assert_eq!(
        error("--max-rows x --database d", Some("k")),
        "`x` is not a valid non-negative integer"
    );
}
