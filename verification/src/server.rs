//! The single-database HTTP server's configuration and metrics.

use vstd::prelude::*;

use crate::config::QueryLimits;
use crate::failure::ServerError;
use crate::text::{decimal, decimal_text, join2, join3};
use crate::time::Duration;

verus! {

/// Independent version of the public HTTP protocol.
pub const SERVER_PROTOCOL_VERSION: u32 = 1;

/// Runtime configuration for one server process.
#[derive(Debug, PartialEq, Eq)]
pub struct ServerConfig {
    /// Path to the authoritative server-mode `.nostdb` database.
    pub database_path: String,
    /// Required bearer API key. Empty keys are rejected.
    pub api_key: String,
    /// Default cooperative query limits.
    pub query_limits: QueryLimits,
    /// Wall-clock query timeout.
    pub query_timeout: Duration,
    /// Maximum JSON request body size.
    pub request_body_bytes: usize,
    /// Maximum snapshot upload size.
    pub snapshot_body_bytes: usize,
    /// Maximum concurrent retained sessions.
    pub max_sessions: usize,
    /// Maximum statements queued in one explicit transaction.
    pub max_transaction_statements: usize,
}

/// What is wrong with a server configuration.
pub open spec fn server_config_error(config: ServerConfig) -> Option<Seq<char>> {
    if config.api_key@.len() == 0 {
        Some("API key must not be empty"@)
    } else if config.query_timeout@ == 0 || config.request_body_bytes == 0
        || config.snapshot_body_bytes < config.request_body_bytes || config.max_sessions == 0
        || config.max_transaction_statements == 0 {
        Some("server limits must be positive and consistent"@)
    } else {
        None
    }
}

/// A configuration is accepted exactly where there is a key, every limit is positive and a snapshot
/// may be as large as any other body.
pub proof fn law_server_limits_are_consistent(config: ServerConfig)
    ensures
        server_config_error(config) is None <==> {
            &&& config.api_key@.len() > 0
            &&& config.query_timeout@ > 0
            &&& config.request_body_bytes > 0
            &&& config.snapshot_body_bytes >= config.request_body_bytes
            &&& config.max_sessions > 0
            &&& config.max_transaction_statements > 0
        },
        server_config_error(config) matches Some(error) ==> error == (if config.api_key@.len()
            == 0 {
            "API key must not be empty"@
        } else {
            "server limits must be positive and consistent"@
        }),
{
}

impl ServerConfig {
    /// Returns conservative initial limits for an explicit path and API key.
    pub fn new(database_path: String, api_key: String) -> (config: Self)
        ensures
            config.database_path == database_path,
            config.api_key == api_key,
            config.query_limits == (QueryLimits {
                max_rows: 10_000,
                max_memory_bytes: 67_108_864,
                max_operations: 10_000_000,
                max_traversals: 1_000_000,
            }),
            config.query_timeout@ == 30_000_000_000,
            config.query_timeout.normal(),
            config.request_body_bytes == 1_048_576,
            config.snapshot_body_bytes == 1_073_741_824,
            config.max_sessions == 1024,
            config.max_transaction_statements == 1000,
    {
        ServerConfig {
            database_path,
            api_key,
            query_limits: QueryLimits {
                max_rows: 10_000,
                max_memory_bytes: 67_108_864,
                max_operations: 10_000_000,
                max_traversals: 1_000_000,
            },
            query_timeout: Duration::from_secs(30),
            request_body_bytes: 1_048_576,
            snapshot_body_bytes: 1_073_741_824,
            max_sessions: 1024,
            max_transaction_statements: 1000,
        }
    }

    /// Validates the configuration.
    pub fn validate(&self) -> (result: Result<(), ServerError>)
        ensures
            server_config_error(*self) == (match result {
                Ok(()) => None,
                Err(error) => Some(error@),
            }),
    {
        if self.api_key.as_str().is_empty() {
            return Err(ServerError::new("API key must not be empty"));
        }
        if self.query_timeout.is_zero() || self.request_body_bytes == 0 || self.snapshot_body_bytes
            < self.request_body_bytes || self.max_sessions == 0 || self.max_transaction_statements
            == 0 {
            return Err(ServerError::new("server limits must be positive and consistent"));
        }
        Ok(())
    }
}

/// Admits a database that no human-readable source has authority over.
pub fn admit_database(source_enabled: bool) -> (result: Result<(), ServerError>)
    ensures
        result is Ok <==> !source_enabled,
        result is Err ==> result->Err_0@
            == "server mode refuses a database with a human-readable-source synchronization baseline; import an NDB-only snapshot"@,
{
    if source_enabled {
        return Err(
            ServerError::new(
                "server mode refuses a database with a human-readable-source synchronization baseline; import an NDB-only snapshot",
            ),
        );
    }
    Ok(())
}

/// The counters of a server.
#[derive(Clone, Copy, Debug, PartialEq, Eq, Structural)]
pub struct Metrics {
    /// Requests.
    pub requests: u64,
    /// Queries and transactions.
    pub queries: u64,
    /// Queries and transactions that failed.
    pub query_errors: u64,
    /// Requests without a valid key.
    pub auth_failures: u64,
    /// Queries and transactions that were cancelled at their time limit.
    pub timeouts: u64,
    /// Sessions created.
    pub sessions_created: u64,
    /// Snapshots restored.
    pub snapshot_restores: u64,
}

/// What a server counts.
#[derive(Clone, Copy, Debug, PartialEq, Eq, Structural)]
pub enum Counted {
    /// A request to a protected endpoint.
    Request,
    /// A request without a valid key.
    AuthFailure,
    /// A query or transaction that is begun.
    Query,
    /// A query or transaction that failed.
    QueryError,
    /// A query or transaction that was cancelled at its time limit.
    Timeout,
    /// A session that was created.
    Session,
    /// A snapshot that was restored.
    Restore,
}

/// A counter after one more; it begins again at zero behind its greatest value.
pub open spec fn one_more(counter: u64) -> u64 {
    if counter == u64::MAX {
        0
    } else {
        (counter + 1) as u64
    }
}

/// The counters after one more of `what`: its own counter grows by one, and no other changes.
pub open spec fn counted(metrics: Metrics, what: Counted) -> Metrics {
    match what {
        Counted::Request => Metrics { requests: one_more(metrics.requests), ..metrics },
        Counted::AuthFailure => Metrics {
            auth_failures: one_more(metrics.auth_failures),
            ..metrics
        },
        Counted::Query => Metrics { queries: one_more(metrics.queries), ..metrics },
        Counted::QueryError => Metrics { query_errors: one_more(metrics.query_errors), ..metrics },
        Counted::Timeout => Metrics { timeouts: one_more(metrics.timeouts), ..metrics },
        Counted::Session => Metrics {
            sessions_created: one_more(metrics.sessions_created),
            ..metrics
        },
        Counted::Restore => Metrics {
            snapshot_restores: one_more(metrics.snapshot_restores),
            ..metrics
        },
    }
}

/// Counting moves the counter of what is counted up by one and leaves every other as it is. Behind
/// its greatest value a counter begins again.
pub proof fn law_counting_moves_one_counter(metrics: Metrics, what: Counted)
    ensures
        ({
            let after = counted(metrics, what);
            &&& after.requests == next_count(metrics.requests, what is Request)
            &&& after.auth_failures == next_count(metrics.auth_failures, what is AuthFailure)
            &&& after.queries == next_count(metrics.queries, what is Query)
            &&& after.query_errors == next_count(metrics.query_errors, what is QueryError)
            &&& after.timeouts == next_count(metrics.timeouts, what is Timeout)
            &&& after.sessions_created == next_count(metrics.sessions_created, what is Session)
            &&& after.snapshot_restores == next_count(metrics.snapshot_restores, what is Restore)
        }),
{
}

/// What a counter shows after an event that moves it or not.
pub open spec fn next_count(counter: u64, moves: bool) -> int {
    if moves {
        (counter + 1) % 0x1_0000_0000_0000_0000
    } else {
        counter as int
    }
}

fn add_one(counter: u64) -> (next: u64)
    ensures
        next == one_more(counter),
{
    if counter == u64::MAX {
        0
    } else {
        counter + 1
    }
}

/// One metric line.
pub open spec fn metric_line(name: Seq<char>, value: nat) -> Seq<char> {
    name + " "@ + decimal_text(value) + "\n"@
}

/// The metrics as text.
pub open spec fn metrics_text(metrics: Metrics, active_sessions: nat) -> Seq<char> {
    "# TYPE nostdb_http_requests_total counter\n"@ + metric_line(
        "nostdb_http_requests_total"@,
        metrics.requests as nat,
    ) + "# TYPE nostdb_queries_total counter\n"@ + metric_line(
        "nostdb_queries_total"@,
        metrics.queries as nat,
    ) + metric_line("nostdb_query_errors_total"@, metrics.query_errors as nat) + metric_line(
        "nostdb_auth_failures_total"@,
        metrics.auth_failures as nat,
    ) + metric_line("nostdb_query_timeouts_total"@, metrics.timeouts as nat) + metric_line(
        "nostdb_sessions_created_total"@,
        metrics.sessions_created as nat,
    ) + metric_line("nostdb_snapshot_restores_total"@, metrics.snapshot_restores as nat)
        + "# TYPE nostdb_sessions_active gauge\n"@ + metric_line(
        "nostdb_sessions_active"@,
        active_sessions,
    )
}

fn metric(text: String, name: &str, value: u64) -> (longer: String)
    ensures
        longer@ == text@ + metric_line(name@, value as nat),
{
    let line = join2(join3(name, " ", decimal(value).as_str()).as_str(), "\n");
    join2(text.as_str(), line.as_str())
}

impl Metrics {
    /// Nothing is counted yet.
    pub fn new() -> (metrics: Self)
        ensures
            metrics == (Metrics {
                requests: 0,
                queries: 0,
                query_errors: 0,
                auth_failures: 0,
                timeouts: 0,
                sessions_created: 0,
                snapshot_restores: 0,
            }),
    {
        Metrics {
            requests: 0,
            queries: 0,
            query_errors: 0,
            auth_failures: 0,
            timeouts: 0,
            sessions_created: 0,
            snapshot_restores: 0,
        }
    }

    /// Counts one more of `what`.
    pub fn count(&mut self, what: Counted)
        ensures
            *final(self) == counted(*old(self), what),
    {
        match what {
            Counted::Request => {
                self.requests = add_one(self.requests);
            },
            Counted::AuthFailure => {
                self.auth_failures = add_one(self.auth_failures);
            },
            Counted::Query => {
                self.queries = add_one(self.queries);
            },
            Counted::QueryError => {
                self.query_errors = add_one(self.query_errors);
            },
            Counted::Timeout => {
                self.timeouts = add_one(self.timeouts);
            },
            Counted::Session => {
                self.sessions_created = add_one(self.sessions_created);
            },
            Counted::Restore => {
                self.snapshot_restores = add_one(self.snapshot_restores);
            },
        }
    }

    /// Renders the metrics.
    pub fn render(&self, active_sessions: usize) -> (text: String)
        ensures
            text@ == metrics_text(*self, active_sessions as nat),
    {
        let text = "# TYPE nostdb_http_requests_total counter\n".to_owned();
        let text = metric(text, "nostdb_http_requests_total", self.requests);
        let text = join2(text.as_str(), "# TYPE nostdb_queries_total counter\n");
        let text = metric(text, "nostdb_queries_total", self.queries);
        let text = metric(text, "nostdb_query_errors_total", self.query_errors);
        let text = metric(text, "nostdb_auth_failures_total", self.auth_failures);
        let text = metric(text, "nostdb_query_timeouts_total", self.timeouts);
        let text = metric(text, "nostdb_sessions_created_total", self.sessions_created);
        let text = metric(text, "nostdb_snapshot_restores_total", self.snapshot_restores);
        let text = join2(text.as_str(), "# TYPE nostdb_sessions_active gauge\n");
        metric(text, "nostdb_sessions_active", active_sessions as u64)
    }
}

/// The metrics show each counter on a line of its own, behind its name and one space.
pub proof fn law_metrics_show_every_counter(metrics: Metrics, active_sessions: nat)
    ensures
        has_line(
            metrics_text(metrics, active_sessions),
            "nostdb_http_requests_total"@ + " "@ + decimal_text(metrics.requests as nat) + "\n"@,
        ),
        has_line(
            metrics_text(metrics, active_sessions),
            "nostdb_queries_total"@ + " "@ + decimal_text(metrics.queries as nat) + "\n"@,
        ),
        has_line(
            metrics_text(metrics, active_sessions),
            "nostdb_query_errors_total"@ + " "@ + decimal_text(metrics.query_errors as nat) + "\n"@,
        ),
        has_line(
            metrics_text(metrics, active_sessions),
            "nostdb_auth_failures_total"@ + " "@ + decimal_text(metrics.auth_failures as nat)
                + "\n"@,
        ),
        has_line(
            metrics_text(metrics, active_sessions),
            "nostdb_query_timeouts_total"@ + " "@ + decimal_text(metrics.timeouts as nat) + "\n"@,
        ),
        has_line(
            metrics_text(metrics, active_sessions),
            "nostdb_sessions_created_total"@ + " "@ + decimal_text(metrics.sessions_created as nat)
                + "\n"@,
        ),
        has_line(
            metrics_text(metrics, active_sessions),
            "nostdb_snapshot_restores_total"@ + " "@ + decimal_text(
                metrics.snapshot_restores as nat,
            ) + "\n"@,
        ),
        has_line(
            metrics_text(metrics, active_sessions),
            "nostdb_sessions_active"@ + " "@ + decimal_text(active_sessions) + "\n"@,
        ),
{
    let l1 = metric_line("nostdb_http_requests_total"@, metrics.requests as nat);
    let l2 = metric_line("nostdb_queries_total"@, metrics.queries as nat);
    let l3 = metric_line("nostdb_query_errors_total"@, metrics.query_errors as nat);
    let l4 = metric_line("nostdb_auth_failures_total"@, metrics.auth_failures as nat);
    let l5 = metric_line("nostdb_query_timeouts_total"@, metrics.timeouts as nat);
    let l6 = metric_line("nostdb_sessions_created_total"@, metrics.sessions_created as nat);
    let l7 = metric_line("nostdb_snapshot_restores_total"@, metrics.snapshot_restores as nat);
    let l8 = metric_line("nostdb_sessions_active"@, active_sessions);
    let h1 = "# TYPE nostdb_http_requests_total counter\n"@;
    let h2 = "# TYPE nostdb_queries_total counter\n"@;
    let h3 = "# TYPE nostdb_sessions_active gauge\n"@;
    let text = metrics_text(metrics, active_sessions);
    assert(text == h1 + l1 + h2 + l2 + l3 + l4 + l5 + l6 + l7 + h3 + l8);
    assert(text =~= h1 + l1 + (h2 + l2 + l3 + l4 + l5 + l6 + l7 + h3 + l8));
    assert(text =~= (h1 + l1 + h2) + l2 + (l3 + l4 + l5 + l6 + l7 + h3 + l8));
    assert(text =~= (h1 + l1 + h2 + l2) + l3 + (l4 + l5 + l6 + l7 + h3 + l8));
    assert(text =~= (h1 + l1 + h2 + l2 + l3) + l4 + (l5 + l6 + l7 + h3 + l8));
    assert(text =~= (h1 + l1 + h2 + l2 + l3 + l4) + l5 + (l6 + l7 + h3 + l8));
    assert(text =~= (h1 + l1 + h2 + l2 + l3 + l4 + l5) + l6 + (l7 + h3 + l8));
    assert(text =~= (h1 + l1 + h2 + l2 + l3 + l4 + l5 + l6) + l7 + (h3 + l8));
    assert(text =~= (h1 + l1 + h2 + l2 + l3 + l4 + l5 + l6 + l7 + h3) + l8 + Seq::<char>::empty());
}

/// Whether a line stands in a text.
pub open spec fn has_line(text: Seq<char>, line: Seq<char>) -> bool {
    exists|before: Seq<char>, behind: Seq<char>| #[trigger] (before + line + behind) == text
}

} // verus!
