//! Configurations, credentials and durations.

use nostdb_server::client::ClientRole;
use nostdb_server::config::{
    connection_limit, constant_time_equal, credential_file, generate_credential, persist_failure,
    read_credential, resolve_path, validate_credential_permissions, Credentials, DaemonConfig,
    NativePaths, PartialFile, QueryLimits,
};
use nostdb_server::path::NativePath;
use nostdb_server::time::Duration;

fn parsed(text: &str) -> Result<String, String> {
    text.parse::<core::net::SocketAddr>()
        .map(|address| address.to_string())
        .map_err(|error| error.to_string())
}

fn config() -> DaemonConfig {
    DaemonConfig::new("/srv/data".to_owned(), "127.0.0.1:0".to_owned())
}

fn refusal(config: &DaemonConfig) -> String {
    config
        .validate(&parsed(&config.network.listen))
        .expect_err("the configuration is invalid")
        .text()
        .to_owned()
}

#[test]
fn credential_comparison_covers_equal_and_different_lengths() {
    assert!(constant_time_equal(b"same", b"same"));
    assert!(!constant_time_equal(b"same", b"other"));
    assert!(!constant_time_equal(b"short", b"longer"));
}

#[test]
fn configuration_round_trips_and_rejects_unknown_versions() {
    let config = config();
    let listen = parsed(&config.network.listen);
    let loaded = config.load("/srv", None, &listen).expect("configuration loads");
    assert_eq!(loaded, self::config());

    let mut invalid = self::config();
    invalid.config_version = 999;
    assert!(invalid.load("/srv", None, &listen).is_err());
}

#[test]
fn fresh_configurations_hold_the_documented_defaults() {
    let config = config();
    assert_eq!(config.config_version, 1);
    assert_eq!(
        config.authentication.query_credential_file,
        "/srv/data/credentials/client.token"
    );
    assert_eq!(
        config.authentication.admin_credential_file,
        "/srv/data/credentials/admin.token"
    );
    assert_eq!(config.limits.max_connections, 256);
    assert_eq!(config.limits.max_sessions, 1024);
    assert_eq!(config.limits.max_transaction_statements, 1000);
    assert_eq!(config.limits.max_snapshot_bytes, 1024 * 1024 * 1024);
    assert_eq!(
        config.query_limits(),
        QueryLimits {
            max_rows: 10_000,
            max_memory_bytes: 64 * 1024 * 1024,
            max_operations: 10_000_000,
            max_traversals: 1_000_000,
        }
    );
    assert_eq!(config.query_timeout(), Duration { secs: 30, nanos: 0 });
    assert_eq!(config.validate(&parsed("127.0.0.1:0")), Ok(()));
    assert_eq!(config.listen_address(&parsed("127.0.0.1:0")), Ok("127.0.0.1:0".to_owned()));
}

#[test]
fn each_fault_of_a_configuration_is_named() {
    let mut version = config();
    version.config_version = 2;
    assert_eq!(
        refusal(&version),
        "unsupported config_version 2; this binary supports exactly 1"
    );
    let mut listen = config();
    listen.network.listen = "localhost:1".to_owned();
    assert_eq!(
        refusal(&listen),
        "invalid network.listen `localhost:1`: invalid socket address syntax"
    );
    listen.network.listen = "[0:0:0:0:0:0:0:1]:1".to_owned();
    assert_eq!(
        refusal(&listen),
        "network.listen must be a canonical numeric IP:PORT address"
    );
    let mut data = config();
    data.data_directory = String::new();
    assert_eq!(refusal(&data), "data_directory must not be empty");
    let mut same = config();
    same.authentication.admin_credential_file = "/srv/data//credentials/./client.token".to_owned();
    assert_eq!(refusal(&same), "query and admin credential files must be different");
    let mut limit = config();
    limit.limits.max_traversals = 0;
    assert_eq!(refusal(&limit), "all daemon limits must be positive");
}

#[test]
fn relative_paths_start_at_the_configuration() {
    assert_eq!(resolve_path("/etc/nostdb", "data", &None), Ok("/etc/nostdb/data".to_owned()));
    assert_eq!(resolve_path("/etc/nostdb", "/data", &None), Ok("/data".to_owned()));
    assert_eq!(resolve_path("", "data", &None), Ok("data".to_owned()));
    assert_eq!(
        resolve_path("", "", &None).expect_err("the path is empty").text(),
        "configuration path must not be empty"
    );
    let config = DaemonConfig::new("data".to_owned(), "127.0.0.1:7878".to_owned());
    let loaded = config
        .load("/etc/nostdb", None, &parsed("127.0.0.1:7878"))
        .expect("configuration loads");
    assert_eq!(loaded.data_directory, "/etc/nostdb/data");
    assert_eq!(
        loaded.authentication.admin_credential_file,
        "/etc/nostdb/data/credentials/admin.token"
    );
}

#[test]
fn the_smaller_bound_limits_connections() {
    let mut limits = config().limits;
    assert_eq!(connection_limit(&limits), 256);
    limits.max_sessions = 7;
    assert_eq!(connection_limit(&limits), 7);
}

#[test]
fn credentials_name_one_role_each() {
    let query = "q".repeat(32);
    let admin = "a".repeat(32);
    let credentials = Credentials::load(query.clone(), admin.clone()).expect("they differ");
    assert_eq!(credentials.authenticate(&admin), Some(ClientRole::Admin));
    assert_eq!(credentials.authenticate(&query), Some(ClientRole::Query));
    assert_eq!(credentials.authenticate("other"), None);
    assert_eq!(credentials.authenticate(""), None);
    let equal = Credentials::load(query.clone(), query).err().expect("they are equal");
    assert_eq!(
        equal.text(),
        "query and admin credentials must not have the same value"
    );
}

#[test]
fn credential_files_hold_one_long_token() {
    let token = "x".repeat(32);
    assert_eq!(read_credential("/t", &format!("{token}\r\n\n")), Ok(token.clone()));
    assert_eq!(credential_file(&token), format!("{token}\n"));
    assert_eq!(read_credential("/t", &credential_file(&token)), Ok(token.clone()));
    let text = "credential file /t must contain one non-whitespace token of at least 32 characters";
    for contents in [
        "short\n".to_owned(),
        format!("{token} {token}"),
        format!("{token}\u{2003}{token}"),
        format!("\n{token}"),
    ] {
        assert_eq!(
            read_credential("/t", &contents).expect_err("the file is refused").text(),
            text
        );
    }
}

#[test]
fn generated_credentials_are_fresh_tokens() {
    let first = generate_credential();
    let second = generate_credential();
    assert_ne!(first, second);
    for credential in [first, second] {
        assert_eq!(credential.len(), 64);
        assert!(credential.bytes().all(|byte| byte.is_ascii_hexdigit()));
        assert_eq!(read_credential("/t", &credential_file(&credential)), Ok(credential.clone()));
    }
}

#[test]
fn serve_rejects_group_or_other_credential_permissions() {
    let error = validate_credential_permissions("/srv/credentials/client.token", 0o100_644)
        .expect_err("others can read the file");
    assert_eq!(
        error.text(),
        "credential file /srv/credentials/client.token has mode 644; remove all group and other \
         permissions (0600 or stricter is required)"
    );
    assert!(validate_credential_permissions("/t", 0o100_600).is_ok());
    assert!(validate_credential_permissions("/t", 0o400).is_ok());
    assert!(validate_credential_permissions("/t", 0o010)
        .expect_err("the group can run the file")
        .text()
        .contains("mode 010;"));
}

#[test]
fn failed_writes_say_what_is_left() {
    assert_eq!(
        persist_failure("/t", "disk full", PartialFile::Gone).text(),
        "cannot persist /t: disk full"
    );
    assert_eq!(
        persist_failure("/t", "disk full", PartialFile::Left("denied".to_owned())).text(),
        "cannot persist /t: disk full; cannot remove partial file: denied"
    );
}

#[test]
fn durations_are_normal() {
    assert_eq!(Duration::from_millis(1_234), Duration { secs: 1, nanos: 234_000_000 });
    assert_eq!(Duration::from_secs(3), Duration { secs: 3, nanos: 0 });
    assert!(Duration::from_millis(0).is_zero());
    assert!(!Duration::from_millis(1).is_zero());
    assert_eq!(
        Duration::from_millis(999).min(Duration::from_secs(1)),
        Duration { secs: 0, nanos: 999_000_000 }
    );
    assert_eq!(
        Duration::from_millis(2_001).min(Duration::from_millis(2_000)),
        Duration::from_secs(2)
    );
}

fn native(absolute: bool, below: &str) -> NativePath {
    NativePath { absolute, below: below.to_owned() }
}

#[test]
fn configured_paths_are_read_as_the_platform_reads_them() {
    let reading = Some(native(true, "C:\\data"));
    assert_eq!(resolve_path("C:\\etc", "C:\\data", &reading), Ok("C:\\data".to_owned()));
    let reading = Some(native(false, "C:\\etc\\data"));
    assert_eq!(resolve_path("C:\\etc", "data", &reading), Ok("C:\\etc\\data".to_owned()));
    let load = |same_credentials| {
        let config = DaemonConfig::new("C:\\data".to_owned(), "127.0.0.1:7878".to_owned());
        let readings = NativePaths {
            data_directory: native(true, "C:\\data"),
            query_credential_file: native(true, "C:\\data\\client"),
            admin_credential_file: native(false, "C:\\etc\\admin"),
            same_credentials,
        };
        config.load("C:\\etc", Some(readings), &parsed("127.0.0.1:7878"))
    };
    let loaded = load(false).expect("configuration loads");
    assert_eq!(loaded.data_directory, "C:\\data");
    assert_eq!(
        loaded.authentication.query_credential_file,
        "C:\\data/credentials/client.token"
    );
    assert_eq!(loaded.authentication.admin_credential_file, "C:\\etc\\admin");
    assert_eq!(
        load(true).expect_err("one file for both").text(),
        "query and admin credential files must be different"
    );
}
