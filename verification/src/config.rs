//! Versioned daemon configuration and protected credential files.

use vstd::prelude::*;
use vstd::string::*;
use vstd::utf8::*;

use crate::catalog::is_hex_digit;
use crate::client::ClientRole;
use crate::failure::ServerError;
use crate::path::{
    is_absolute_path, is_single_name, join, joined, lemma_names_apart, place, placed, same_path,
    same_place, NativePath,
};
use crate::text::{
    decimal, decimal_text, digit_char, is_white_space, join2, join3, number_string, text_eq, trim,
    trimmed, white_space,
};
use crate::time::Duration;

verus! {

/// Current version of `server.toml`.
pub const CONFIG_VERSION: u32 = 1;

/// Complete versioned `nostd` configuration.
#[derive(Debug, PartialEq, Eq)]
pub struct DaemonConfig {
    /// Configuration format version, independent from every other version.
    pub config_version: u32,
    /// Daemon-owned directory containing catalog, Databases, locks, and recovery state.
    pub data_directory: String,
    /// Database protocol listener settings.
    pub network: NetworkConfig,
    /// Protected credential-file locations.
    pub authentication: AuthenticationConfig,
    /// Bounded runtime resources.
    pub limits: LimitConfig,
}

/// Database protocol listener settings.
#[derive(Debug, PartialEq, Eq)]
pub struct NetworkConfig {
    /// `IP:PORT` address. Initialization defaults to loopback.
    pub listen: String,
}

/// Paths to separate query and administrative credentials.
#[derive(Debug, PartialEq, Eq)]
pub struct AuthenticationConfig {
    /// File containing the ordinary query credential and no other content.
    pub query_credential_file: String,
    /// File containing the administrative credential and no other content.
    pub admin_credential_file: String,
}

/// Resource limits applied before any client-provided lowering.
#[derive(Clone, Copy, Debug, PartialEq, Eq, Structural)]
pub struct LimitConfig {
    /// Maximum concurrently retained network connections.
    pub max_connections: usize,
    /// Maximum concurrently retained connection-local sessions.
    pub max_sessions: usize,
    /// Maximum queued statements in one explicit transaction.
    pub max_transaction_statements: usize,
    /// Wall-clock query timeout.
    pub query_timeout_ms: u64,
    /// Maximum rows in one statement or transaction batch.
    pub max_rows: u64,
    /// Maximum estimated materialized bytes.
    pub max_memory_bytes: u64,
    /// Maximum evaluator and row-processing work units.
    pub max_operations: u64,
    /// Maximum relationship candidates examined.
    pub max_traversals: u64,
    /// Maximum decoded physical snapshot upload size.
    pub max_snapshot_bytes: u64,
}

/// The storage engine's cooperative limits for one statement or batch.
#[derive(Clone, Copy, Debug, PartialEq, Eq, Structural)]
pub struct QueryLimits {
    /// Maximum result rows.
    pub max_rows: u64,
    /// Maximum estimated materialized bytes.
    pub max_memory_bytes: u64,
    /// Maximum evaluator and row-processing work units.
    pub max_operations: u64,
    /// Maximum relationship candidates examined.
    pub max_traversals: u64,
}

/// The limits of a fresh configuration.
pub open spec fn default_limits() -> LimitConfig {
    LimitConfig {
        max_connections: 256,
        max_sessions: 1024,
        max_transaction_statements: 1000,
        query_timeout_ms: 30_000,
        max_rows: 10_000,
        max_memory_bytes: 67_108_864,
        max_operations: 10_000_000,
        max_traversals: 1_000_000,
        max_snapshot_bytes: 1_073_741_824,
    }
}

impl LimitConfig {
    /// Whether every limit is positive.
    pub open spec fn positive(self) -> bool {
        &&& self.max_connections > 0
        &&& self.max_sessions > 0
        &&& self.max_transaction_statements > 0
        &&& self.query_timeout_ms > 0
        &&& self.max_rows > 0
        &&& self.max_memory_bytes > 0
        &&& self.max_operations > 0
        &&& self.max_traversals > 0
        &&& self.max_snapshot_bytes > 0
    }
}

/// How many connections are served at a time: each also retains a session.
pub fn connection_limit(limits: &LimitConfig) -> (maximum: usize)
    ensures
        maximum == (if limits.max_sessions < limits.max_connections {
            limits.max_sessions
        } else {
            limits.max_connections
        }),
{
    if limits.max_sessions < limits.max_connections {
        limits.max_sessions
    } else {
        limits.max_connections
    }
}

/// The text for a listener that does not parse.
pub open spec fn listen_error_text(listen: Seq<char>, error: Seq<char>) -> Seq<char> {
    "invalid network.listen `"@ + listen + "`: "@ + error
}

/// What is wrong with a configuration; `parsed` is what came of parsing its listener: the
/// canonical text of the address, or what the parser said.
pub open spec fn config_error(config: DaemonConfig, parsed: Result<String, String>) -> Option<
    Seq<char>,
> {
    config_fault(
        config,
        parsed,
        same_place(
            config.authentication.query_credential_file@,
            config.authentication.admin_credential_file@,
        ),
    )
}

/// What is wrong with a configuration whose two credential files are one where `same` says so.
pub open spec fn config_fault(
    config: DaemonConfig,
    parsed: Result<String, String>,
    same: bool,
) -> Option<Seq<char>> {
    if config.config_version != CONFIG_VERSION {
        Some(
            "unsupported config_version "@ + decimal_text(config.config_version as nat)
                + "; this binary supports exactly 1"@,
        )
    } else if parsed is Err {
        Some(listen_error_text(config.network.listen@, parsed->Err_0@))
    } else if trimmed(config.network.listen@) != parsed->Ok_0@ {
        Some("network.listen must be a canonical numeric IP:PORT address"@)
    } else if config.data_directory@.len() == 0 {
        Some("data_directory must not be empty"@)
    } else if same {
        Some("query and admin credential files must be different"@)
    } else if !config.limits.positive() {
        Some("all daemon limits must be positive"@)
    } else {
        None
    }
}

/// How the platform reads the paths of a configuration below the configuration's directory.
#[derive(Debug, PartialEq, Eq)]
pub struct NativePaths {
    /// The data directory.
    pub data_directory: NativePath,
    /// The ordinary credential's file.
    pub query_credential_file: NativePath,
    /// The administrative credential's file.
    pub admin_credential_file: NativePath,
    /// Whether the two credential files are one for the platform.
    pub same_credentials: bool,
}

/// A path of the configuration, taken relative to the configuration's directory.
pub open spec fn resolved(base: Seq<char>, value: Seq<char>, native: Option<NativePath>) -> Option<
    Seq<char>,
> {
    if placed(base, value, native).len() == 0 {
        None
    } else {
        Some(placed(base, value, native))
    }
}

/// Takes a path of the configuration relative to the configuration's directory.
pub fn resolve_path(base: &str, value: &str, native: &Option<NativePath>) -> (path: Result<
    String,
    ServerError,
>)
    ensures
        match path {
            Ok(path) => resolved(base@, value@, *native) == Some(path@),
            Err(error) => resolved(base@, value@, *native) is None && error@
                == "configuration path must not be empty"@,
        },
{
    let path = place(base, value, native);
    if path.as_str().is_empty() {
        return Err(ServerError::new("configuration path must not be empty"));
    }
    Ok(path)
}

/// Whether `config` is `decoded` with its paths taken below `base`.
pub open spec fn is_resolution(
    decoded: DaemonConfig,
    base: Seq<char>,
    native: Option<NativePaths>,
    config: DaemonConfig,
) -> bool {
    let (data, query, admin) = match native {
        Some(native) => (
            Some(native.data_directory),
            Some(native.query_credential_file),
            Some(native.admin_credential_file),
        ),
        None => (None, None, None),
    };
    &&& config.config_version == decoded.config_version
    &&& Some(config.data_directory@) == resolved(base, decoded.data_directory@, data)
    &&& config.network == decoded.network
    &&& Some(config.authentication.query_credential_file@) == resolved(
        base,
        decoded.authentication.query_credential_file@,
        query,
    )
    &&& Some(config.authentication.admin_credential_file@) == resolved(
        base,
        decoded.authentication.admin_credential_file@,
        admin,
    )
    &&& config.limits == decoded.limits
}

/// What is wrong with a configuration that was read, if anything.
pub open spec fn loaded_fault(
    config: DaemonConfig,
    parsed: Result<String, String>,
    native: Option<NativePaths>,
) -> Option<Seq<char>> {
    match native {
        Some(native) => config_fault(config, parsed, native.same_credentials),
        None => config_error(config, parsed),
    }
}

/// Whether each path of a configuration stands for a place below `base`.
pub open spec fn paths_resolve(
    decoded: DaemonConfig,
    base: Seq<char>,
    native: Option<NativePaths>,
) -> bool {
    let (data, query, admin) = match native {
        Some(native) => (
            Some(native.data_directory),
            Some(native.query_credential_file),
            Some(native.admin_credential_file),
        ),
        None => (None, None, None),
    };
    &&& resolved(base, decoded.data_directory@, data) is Some
    &&& resolved(base, decoded.authentication.query_credential_file@, query) is Some
    &&& resolved(base, decoded.authentication.admin_credential_file@, admin) is Some
}

impl DaemonConfig {
    /// Creates conservative local-only defaults for one data directory.
    pub fn new(data_directory: String, listen: String) -> (config: Self)
        ensures
            config.config_version == CONFIG_VERSION,
            config.data_directory == data_directory,
            config.network.listen == listen,
            config.authentication.query_credential_file@ == joined(
                joined(data_directory@, "credentials"@),
                "client.token"@,
            ),
            config.authentication.admin_credential_file@ == joined(
                joined(data_directory@, "credentials"@),
                "admin.token"@,
            ),
            config.limits == default_limits(),
            config.limits.max_connections == 256,
            config.limits.max_sessions == 1024,
            config.limits.max_transaction_statements == 1000,
            config.limits.query_timeout_ms == 30_000,
            config.limits.max_rows == 10_000,
            config.limits.max_memory_bytes == 67_108_864,
            config.limits.max_operations == 10_000_000,
            config.limits.max_traversals == 1_000_000,
            config.limits.max_snapshot_bytes == 1_073_741_824,
    {
        let credentials = join(data_directory.as_str(), "credentials");
        let query_credential_file = join(credentials.as_str(), "client.token");
        let admin_credential_file = join(credentials.as_str(), "admin.token");
        DaemonConfig {
            config_version: CONFIG_VERSION,
            data_directory,
            network: NetworkConfig { listen },
            authentication: AuthenticationConfig { query_credential_file, admin_credential_file },
            limits: LimitConfig {
                max_connections: 256,
                max_sessions: 1024,
                max_transaction_statements: 1000,
                query_timeout_ms: 30_000,
                max_rows: 10_000,
                max_memory_bytes: 67_108_864,
                max_operations: 10_000_000,
                max_traversals: 1_000_000,
                max_snapshot_bytes: 1_073_741_824,
            },
        }
    }

    /// The canonical text of the configured listener, from what came of parsing it.
    pub fn listen_address(&self, parsed: &Result<String, String>) -> (address: Result<
        String,
        ServerError,
    >)
        ensures
            match *parsed {
                Ok(text) => address is Ok && address->Ok_0@ == text@,
                Err(error) => address is Err && address->Err_0@ == listen_error_text(
                    self.network.listen@,
                    error@,
                ),
            },
    {
        match parsed {
            Ok(text) => Ok(text.clone()),
            Err(error) => {
                let prefix = join3("invalid network.listen `", self.network.listen.as_str(), "`: ");
                Err(ServerError(join2(prefix.as_str(), error.as_str())))
            },
        }
    }

    /// Validates the configuration.
    pub fn validate(&self, parsed: &Result<String, String>) -> (result: Result<(), ServerError>)
        ensures
            config_error(*self, *parsed) == (match result {
                Ok(()) => None,
                Err(error) => Some(error@),
            }),
    {
        let same: bool = same_path(
            self.authentication.query_credential_file.as_str(),
            self.authentication.admin_credential_file.as_str(),
        );
        self.check(parsed, same)
    }

    fn check(&self, parsed: &Result<String, String>, same: bool) -> (result: Result<
        (),
        ServerError,
    >)
        ensures
            config_fault(*self, *parsed, same) == (match result {
                Ok(()) => None,
                Err(error) => Some(error@),
            }),
    {
        if self.config_version != CONFIG_VERSION {
            return Err(
                ServerError(
                    join3(
                        "unsupported config_version ",
                        decimal(self.config_version as u64).as_str(),
                        "; this binary supports exactly 1",
                    ),
                ),
            );
        }
        let address = match self.listen_address(parsed) {
            Ok(address) => address,
            Err(error) => {
                return Err(error);
            },
        };
        if !text_eq(trim(self.network.listen.as_str()), address.as_str()) {
            return Err(
                ServerError::new("network.listen must be a canonical numeric IP:PORT address"),
            );
        }
        if self.data_directory.as_str().is_empty() {
            return Err(ServerError::new("data_directory must not be empty"));
        }
        if same {
            return Err(ServerError::new("query and admin credential files must be different"));
        }
        let limits = &self.limits;
        if limits.max_connections == 0 || limits.max_sessions == 0
            || limits.max_transaction_statements == 0 || limits.query_timeout_ms == 0
            || limits.max_rows == 0 || limits.max_memory_bytes == 0 || limits.max_operations == 0
            || limits.max_traversals == 0 || limits.max_snapshot_bytes == 0 {
            return Err(ServerError::new("all daemon limits must be positive"));
        }
        Ok(())
    }

    /// Takes the paths of a decoded configuration relative to `base`, the directory of its file,
    /// and validates it. `native` is how the platform reads the paths, where it has to be asked.
    pub fn load(
        self,
        base: &str,
        native: Option<NativePaths>,
        parsed: &Result<String, String>,
    ) -> (result: Result<DaemonConfig, ServerError>)
        ensures
            if paths_resolve(self, base@, native) {
                match result {
                    Ok(config) => is_resolution(self, base@, native, config) && loaded_fault(
                        config,
                        *parsed,
                        native,
                    ) is None,
                    Err(error) => exists|config: DaemonConfig| #[trigger]
                        is_resolution(self, base@, native, config) && loaded_fault(
                            config,
                            *parsed,
                            native,
                        ) == Some(error@),
                }
            } else {
                result is Err && result->Err_0@ == "configuration path must not be empty"@
            },
    {
        let ghost readings = native;
        let mut asked: Option<bool> = None;
        let mut data: Option<NativePath> = None;
        let mut query: Option<NativePath> = None;
        let mut admin: Option<NativePath> = None;
        match native {
            Some(native) => {
                asked = Some(native.same_credentials);
                data = Some(native.data_directory);
                query = Some(native.query_credential_file);
                admin = Some(native.admin_credential_file);
            },
            None => {},
        }
        let data_directory = match resolve_path(base, self.data_directory.as_str(), &data) {
            Ok(path) => path,
            Err(error) => {
                return Err(error);
            },
        };
        let query_credential_file = match resolve_path(
            base,
            self.authentication.query_credential_file.as_str(),
            &query,
        ) {
            Ok(path) => path,
            Err(error) => {
                return Err(error);
            },
        };
        let admin_credential_file = match resolve_path(
            base,
            self.authentication.admin_credential_file.as_str(),
            &admin,
        ) {
            Ok(path) => path,
            Err(error) => {
                return Err(error);
            },
        };
        let config = DaemonConfig {
            config_version: self.config_version,
            data_directory,
            network: self.network,
            authentication: AuthenticationConfig { query_credential_file, admin_credential_file },
            limits: self.limits,
        };
        assert(is_resolution(self, base@, readings, config));
        let checked = match asked {
            Some(same) => config.check(parsed, same),
            None => config.validate(parsed),
        };
        match checked {
            Ok(()) => Ok(config),
            Err(error) => Err(error),
        }
    }

    /// Returns default query limits.
    pub fn query_limits(&self) -> (limits: QueryLimits)
        ensures
            limits == (QueryLimits {
                max_rows: self.limits.max_rows,
                max_memory_bytes: self.limits.max_memory_bytes,
                max_operations: self.limits.max_operations,
                max_traversals: self.limits.max_traversals,
            }),
    {
        QueryLimits {
            max_rows: self.limits.max_rows,
            max_memory_bytes: self.limits.max_memory_bytes,
            max_operations: self.limits.max_operations,
            max_traversals: self.limits.max_traversals,
        }
    }

    /// Returns the wall-clock query timeout.
    pub fn query_timeout(&self) -> (span: Duration)
        ensures
            span@ == self.limits.query_timeout_ms as nat * 1_000_000,
            span.normal(),
    {
        Duration::from_millis(self.limits.query_timeout_ms)
    }
}

/// Compares two byte strings in a time that depends on their lengths alone.
pub fn constant_time_equal(left: &[u8], right: &[u8]) -> (equal: bool)
    ensures
        equal == (left@ == right@),
{
    let mut difference: u8 = if left.len() == right.len() {
        0
    } else {
        1
    };
    let maximum: usize = if left.len() < right.len() {
        right.len()
    } else {
        left.len()
    };
    let mut index: usize = 0;
    while index < maximum
        invariant
            index <= maximum,
            left@.len() <= maximum,
            right@.len() <= maximum,
            maximum == left@.len() || maximum == right@.len(),
            difference == 0 <==> left@.len() == right@.len() && forall|k: int|
                0 <= k < index ==> left@[k] == right@[k],
        decreases maximum - index,
    {
        let a: u8 = if index < left.len() {
            left[index]
        } else {
            0
        };
        let b: u8 = if index < right.len() {
            right[index]
        } else {
            0
        };
        proof {
            assert((difference | (a ^ b)) == 0u8 <==> difference == 0u8 && a == b) by (bit_vector);
        }
        difference = difference | (a ^ b);
        index = index + 1;
    }
    proof {
        if difference == 0 {
            assert(left@ =~= right@);
        }
    }
    difference == 0
}

/// The two credentials of a daemon.
#[derive(Debug, PartialEq, Eq)]
pub struct Credentials {
    query: String,
    admin: String,
}

impl Credentials {
    /// The ordinary credential.
    pub closed spec fn query_text(self) -> Seq<char> {
        self.query@
    }

    /// The administrative credential.
    pub closed spec fn admin_text(self) -> Seq<char> {
        self.admin@
    }

    /// The two credentials are not the same.
    #[verifier::type_invariant]
    spec fn distinct(self) -> bool {
        self.query@ != self.admin@
    }

    /// Takes the two credentials. They must not be the same.
    pub fn load(query: String, admin: String) -> (credentials: Result<Self, ServerError>)
        ensures
            query@ == admin@ ==> credentials is Err && credentials->Err_0@
                == "query and admin credentials must not have the same value"@,
            query@ != admin@ ==> credentials is Ok && credentials->Ok_0.query_text() == query@
                && credentials->Ok_0.admin_text() == admin@,
    {
        if text_eq(query.as_str(), admin.as_str()) {
            return Err(
                ServerError::new("query and admin credentials must not have the same value"),
            );
        }
        Ok(Credentials { query, admin })
    }

    /// The role that a supplied credential has.
    pub fn authenticate(&self, supplied: &str) -> (role: Option<ClientRole>)
        ensures
            self.query_text() != self.admin_text(),
            role == Some(ClientRole::Admin) <==> supplied@ == self.admin_text(),
            role == Some(ClientRole::Query) <==> supplied@ == self.query_text(),
            role is None <==> supplied@ != self.admin_text() && supplied@ != self.query_text(),
    {
        proof {
            use_type_invariant(self);
            encode_utf8_decode_utf8(supplied@);
            encode_utf8_decode_utf8(self.admin@);
            encode_utf8_decode_utf8(self.query@);
        }
        if constant_time_equal(supplied.as_bytes(), self.admin.as_str().as_bytes()) {
            Some(ClientRole::Admin)
        } else if constant_time_equal(supplied.as_bytes(), self.query.as_str().as_bytes()) {
            Some(ClientRole::Query)
        } else {
            None
        }
    }
}

/// `text` without the line ends at its end.
pub open spec fn without_line_ends(text: Seq<char>) -> Seq<char>
    decreases text.len(),
{
    if text.len() > 0 && (text.last() == '\r' || text.last() == '\n') {
        without_line_ends(text.drop_last())
    } else {
        text
    }
}

/// Whether a text can be a credential: no white space, and at least 32 bytes.
pub open spec fn is_credential(token: Seq<char>) -> bool {
    &&& encode_utf8(token).len() >= 32
    &&& forall|i: int| 0 <= i < token.len() ==> !is_white_space(#[trigger] token[i])
}

/// The text for a file that holds no credential.
pub open spec fn credential_error_text(path: Seq<char>) -> Seq<char> {
    "credential file "@ + path
        + " must contain one non-whitespace token of at least 32 characters"@
}

fn has_white_space(text: &str) -> (has: bool)
    ensures
        has == exists|i: int| 0 <= i < text@.len() && is_white_space(#[trigger] text@[i]),
{
    let mut has: bool = false;
    let mut i: usize = 0;
    let count: usize = text.unicode_len();
    for c in chars: text.chars()
        invariant
            chars.seq() == text@,
            i == chars.index(),
            count == text@.len(),
            has == exists|k: int| 0 <= k < i && is_white_space(#[trigger] text@[k]),
    {
        if white_space(c) {
            assert(is_white_space(text@[i as int]));
            has = true;
        }
        i = i + 1;
    }
    has
}

/// The credential in a credential file.
pub fn read_credential(path: &str, contents: &str) -> (credential: Result<String, ServerError>)
    ensures
        is_credential(without_line_ends(contents@)) ==> credential is Ok && credential->Ok_0@
            == without_line_ends(contents@),
        !is_credential(without_line_ends(contents@)) ==> credential is Err && credential->Err_0@
            == credential_error_text(path@),
{
    let mut length: usize = contents.unicode_len();
    proof {
        assert(contents@.take(length as int) =~= contents@);
    }
    while length > 0 && (contents.get_char(length - 1) == '\r' || contents.get_char(length - 1)
        == '\n')
        invariant
            length <= contents@.len(),
            without_line_ends(contents@) == without_line_ends(contents@.take(length as int)),
        decreases length,
    {
        proof {
            let part = contents@.take(length as int);
            assert(part.last() == contents@[length - 1]);
            assert(part.drop_last() =~= contents@.take(length - 1));
        }
        length = length - 1;
    }
    let token = contents.substring_char(0, length);
    proof {
        assert(token@ =~= contents@.take(length as int));
        if length > 0 {
            assert(token@.last() == contents@[length - 1]);
        }
    }
    if token.as_bytes().len() < 32 || has_white_space(token) {
        return Err(
            ServerError(
                join3(
                    "credential file ",
                    path,
                    " must contain one non-whitespace token of at least 32 characters",
                ),
            ),
        );
    }
    Ok(token.to_owned())
}

/// The contents of a credential file.
pub fn credential_file(credential: &str) -> (contents: String)
    ensures
        contents@ == credential@ + "\n"@,
{
    join2(credential, "\n")
}

/// Reading a credential file that was written gives the credential back.
pub proof fn law_written_credentials_read_back(credential: Seq<char>)
    requires
        is_credential(credential),
    ensures
        without_line_ends(credential + "\n"@) == credential,
{
    reveal_strlit("\n");
    let contents = credential + "\n"@;
    assert(contents.last() == '\n');
    assert(contents.drop_last() =~= credential);
    assert(without_line_ends(contents) == without_line_ends(credential));
    if credential.len() > 0 {
        assert(!is_white_space(credential[credential.len() - 1]));
    }
}

/// Three octal digits of the permission bits of a file mode.
pub open spec fn mode_text(mode: u32) -> Seq<char> {
    let bits = (mode % 512) as nat;
    seq![digit_char(bits / 64), digit_char((bits / 8) % 8), digit_char(bits % 8)]
}

/// Checks that neither group nor others may use a credential file of this mode.
pub fn validate_credential_permissions(path: &str, mode: u32) -> (result: Result<(), ServerError>)
    ensures
        mode % 64 == 0 ==> result is Ok,
        mode % 64 != 0 ==> result is Err && result->Err_0@ == "credential file "@ + path@
            + " has mode "@ + mode_text(mode)
            + "; remove all group and other permissions (0600 or stricter is required)"@,
{
    if mode % 64 == 0 {
        return Ok(());
    }
    let bits: u32 = mode % 512;
    let high = number_string((bits / 64) as u64, 8);
    let middle = number_string(((bits / 8) % 8) as u64, 8);
    let low = number_string((bits % 8) as u64, 8);
    let octal = join3(high.as_str(), middle.as_str(), low.as_str());
    proof {
        assert(octal@ =~= mode_text(mode));
    }
    let prefix = join3("credential file ", path, " has mode ");
    Err(
        ServerError(
            join3(
                prefix.as_str(),
                octal.as_str(),
                "; remove all group and other permissions (0600 or stricter is required)",
            ),
        ),
    )
}

/// What came of removing a file that could not be written whole.
#[derive(Debug, PartialEq, Eq)]
pub enum PartialFile {
    /// It is gone.
    Gone,
    /// It could not be removed.
    Left(String),
}

/// The text for a file that could not be written whole.
pub open spec fn persist_error_text(
    path: Seq<char>,
    error: Seq<char>,
    cleanup: PartialFile,
) -> Seq<char> {
    let text = "cannot persist "@ + path + ": "@ + error;
    match cleanup {
        PartialFile::Gone => text,
        PartialFile::Left(reason) => text + "; cannot remove partial file: "@ + reason@,
    }
}

/// The failure for a file that could not be written whole.
pub fn persist_failure(path: &str, error: &str, cleanup: PartialFile) -> (failure: ServerError)
    ensures
        failure@ == persist_error_text(path@, error@, cleanup),
{
    let text = join2(join3("cannot persist ", path, ": ").as_str(), error);
    match cleanup {
        PartialFile::Gone => ServerError(text),
        PartialFile::Left(reason) => ServerError(
            join3(text.as_str(), "; cannot remove partial file: ", reason.as_str()),
        ),
    }
}

/// Calls `uuid::Uuid::new_v4` and renders the result with `Uuid::simple`: 32 lowercase hexadecimal
/// digits. They are random: nothing else is said of them.
#[verifier::external_body]
fn random_digits() -> (digits: String)
    ensures
        digits@.len() == 32,
        forall|i: int| 0 <= i < 32 ==> is_hex_digit(#[trigger] digits@[i]),
{
    uuid::Uuid::new_v4().simple().to_string()
}

/// A fresh credential: 64 random hexadecimal digits.
pub fn generate_credential() -> (credential: String)
    ensures
        credential@.len() == 64,
        forall|i: int| 0 <= i < 64 ==> is_hex_digit(#[trigger] credential@[i]),
        is_credential(credential@),
{
    let first = random_digits();
    let second = random_digits();
    let credential = join2(first.as_str(), second.as_str());
    proof {
        assert forall|i: int| 0 <= i < 64 implies is_hex_digit(#[trigger] credential@[i]) by {
            if i < 32 {
                assert(credential@[i] == first@[i]);
            } else {
                assert(credential@[i] == second@[i - 32]);
            }
        }
        assert(is_ascii_chars(credential@));
        is_ascii_chars_encode_utf8(credential@);
        assert forall|i: int| 0 <= i < credential@.len() implies !is_white_space(
            #[trigger] credential@[i],
        ) by {
            assert(is_hex_digit(credential@[i]));
        }
    }
    credential
}

/// A fresh configuration of a data directory is valid whenever its listener is a canonical
/// address.
pub proof fn law_fresh_configurations_are_valid(
    config: DaemonConfig,
    parsed: Result<String, String>,
)
    requires
        config.config_version == CONFIG_VERSION,
        config.data_directory@.len() > 0,
        config.authentication.query_credential_file@ == joined(
            joined(config.data_directory@, "credentials"@),
            "client.token"@,
        ),
        config.authentication.admin_credential_file@ == joined(
            joined(config.data_directory@, "credentials"@),
            "admin.token"@,
        ),
        config.limits == default_limits(),
        parsed is Ok,
        parsed->Ok_0@ == trimmed(config.network.listen@),
    ensures
        config_error(config, parsed) is None,
{
    reveal_strlit("credentials");
    reveal_strlit("client.token");
    reveal_strlit("admin.token");
    let base = joined(config.data_directory@, "credentials"@);
    assert("credentials"@[0] == 'c');
    assert("credentials"@.last() == 's');
    assert(base.last() == 's');
    assert("client.token"@.len() == 12 && "admin.token"@.len() == 11);
    assert(is_single_name("client.token"@)) by {
        assert("client.token"@[0] == 'c');
    }
    assert(is_single_name("admin.token"@)) by {
        assert("admin.token"@[0] == 'a');
    }
    lemma_names_apart(base, "client.token"@, "admin.token"@);
}

/// Loading a configuration whose paths are absolute changes nothing in it, wherever its file
/// stands: a written configuration of an absolute data directory loads back.
pub proof fn law_absolute_configurations_load_back(config: DaemonConfig, base: Seq<char>)
    requires
        is_absolute_path(config.data_directory@),
        config.authentication.query_credential_file@ == joined(
            joined(config.data_directory@, "credentials"@),
            "client.token"@,
        ),
        config.authentication.admin_credential_file@ == joined(
            joined(config.data_directory@, "credentials"@),
            "admin.token"@,
        ),
    ensures
        paths_resolve(config, base, None),
        is_resolution(config, base, None, config),
{
    reveal_strlit("credentials");
    reveal_strlit("client.token");
    reveal_strlit("admin.token");
    assert("credentials"@[0] == 'c' && "client.token"@[0] == 'c' && "admin.token"@[0] == 'a');
    assert(is_absolute_path(joined(config.data_directory@, "credentials"@)));
}

/// Where the platform is asked, its reading decides: a path that it takes for absolute stays as it
/// is, and any other is what the platform makes of it below the configuration's directory.
pub proof fn law_the_platform_decides_what_is_absolute(
    base: Seq<char>,
    value: Seq<char>,
    native: NativePath,
)
    requires
        value.len() > 0,
        native.below@.len() > 0,
    ensures
        resolved(base, value, Some(native)) == Some(
            if native.absolute {
                value
            } else {
                native.below@
            },
        ),
{
}

/// A configuration is accepted exactly where it is of version 1, its address is canonical, it names
/// a data directory and two different credential files, and every limit is positive.
pub proof fn law_configurations_are_accepted_on_these_terms(
    config: DaemonConfig,
    parsed: Result<String, String>,
    same: bool,
)
    ensures
        config_fault(config, parsed, same) is None <==> {
            &&& config.config_version == 1
            &&& parsed is Ok && trimmed(config.network.listen@) == parsed->Ok_0@
            &&& config.data_directory@.len() > 0
            &&& !same
            &&& config.limits.max_connections > 0
            &&& config.limits.max_sessions > 0
            &&& config.limits.max_transaction_statements > 0
            &&& config.limits.query_timeout_ms > 0
            &&& config.limits.max_rows > 0
            &&& config.limits.max_memory_bytes > 0
            &&& config.limits.max_operations > 0
            &&& config.limits.max_traversals > 0
            &&& config.limits.max_snapshot_bytes > 0
        },
        config_error(config, parsed) == config_fault(
            config,
            parsed,
            same_place(
                config.authentication.query_credential_file@,
                config.authentication.admin_credential_file@,
            ),
        ),
{
}

/// What is wrong with a configuration is told in a fixed order: its version, its address, its data
/// directory, its credential files, its limits.
pub proof fn law_configuration_faults_are_told_in_order(
    config: DaemonConfig,
    parsed: Result<String, String>,
    same: bool,
)
    ensures
        config_fault(config, parsed, same) matches Some(fault) ==> fault == (
        if config.config_version != 1 {
            "unsupported config_version "@ + decimal_text(config.config_version as nat)
                + "; this binary supports exactly 1"@
        } else if parsed is Err {
            "invalid network.listen `"@ + config.network.listen@ + "`: "@ + parsed->Err_0@
        } else if trimmed(config.network.listen@) != parsed->Ok_0@ {
            "network.listen must be a canonical numeric IP:PORT address"@
        } else if config.data_directory@.len() == 0 {
            "data_directory must not be empty"@
        } else if same {
            "query and admin credential files must be different"@
        } else {
            "all daemon limits must be positive"@
        }),
{
}

/// Loading a configuration places its three paths below the directory of its file and changes
/// nothing else; a path that comes out empty is none.
pub proof fn law_loading_only_places_the_paths(
    decoded: DaemonConfig,
    base: Seq<char>,
    native: Option<NativePaths>,
    config: DaemonConfig,
)
    requires
        is_resolution(decoded, base, native, config),
    ensures
        config.config_version == decoded.config_version,
        config.network == decoded.network,
        config.limits == decoded.limits,
        config.data_directory@.len() > 0,
        config.authentication.query_credential_file@.len() > 0,
        config.authentication.admin_credential_file@.len() > 0,
        native is None ==> {
            &&& config.data_directory@ == placed(base, decoded.data_directory@, None)
            &&& config.authentication.query_credential_file@ == placed(
                base,
                decoded.authentication.query_credential_file@,
                None,
            )
            &&& config.authentication.admin_credential_file@ == placed(
                base,
                decoded.authentication.admin_credential_file@,
                None,
            )
        },
        native matches Some(paths) ==> {
            &&& config.data_directory@ == placed(
                base,
                decoded.data_directory@,
                Some(paths.data_directory),
            )
            &&& config.authentication.query_credential_file@ == placed(
                base,
                decoded.authentication.query_credential_file@,
                Some(paths.query_credential_file),
            )
            &&& config.authentication.admin_credential_file@ == placed(
                base,
                decoded.authentication.admin_credential_file@,
                Some(paths.admin_credential_file),
            )
        },
{
}

/// The paths of a configuration can be placed exactly where none of the three comes out empty, and
/// a placed configuration is judged by its own credential files, or by the platform's word on them.
pub proof fn law_configurations_load_where_paths_are_named(
    decoded: DaemonConfig,
    base: Seq<char>,
    parsed: Result<String, String>,
    native: NativePaths,
)
    ensures
        paths_resolve(decoded, base, None) <==> placed(base, decoded.data_directory@, None).len()
            > 0 && placed(base, decoded.authentication.query_credential_file@, None).len() > 0
            && placed(base, decoded.authentication.admin_credential_file@, None).len() > 0,
        paths_resolve(decoded, base, Some(native)) <==> placed(
            base,
            decoded.data_directory@,
            Some(native.data_directory),
        ).len() > 0 && placed(
            base,
            decoded.authentication.query_credential_file@,
            Some(native.query_credential_file),
        ).len() > 0 && placed(
            base,
            decoded.authentication.admin_credential_file@,
            Some(native.admin_credential_file),
        ).len() > 0,
        loaded_fault(decoded, parsed, None) == config_error(decoded, parsed),
        loaded_fault(decoded, parsed, Some(native)) == config_fault(
            decoded,
            parsed,
            native.same_credentials,
        ),
{
}

/// A credential is at least 32 bytes long and holds no white space.
pub proof fn law_credentials_are_long_and_plain(token: Seq<char>)
    ensures
        is_credential(token) <==> encode_utf8(token).len() >= 32 && !(exists|i: int|
            0 <= i < token.len() && is_white_space(#[trigger] token[i])),
{
}

/// Only line ends are taken off the end of a credential file, and all of them.
pub proof fn law_only_line_ends_are_taken_off(text: Seq<char>)
    ensures
        without_line_ends(text).len() <= text.len(),
        without_line_ends(text) == text.take(without_line_ends(text).len() as int),
        forall|i: int|
            without_line_ends(text).len() <= i < text.len() ==> #[trigger] text[i] == '\r'
                || text[i] == '\n',
        without_line_ends(text).len() > 0 ==> without_line_ends(text).last() != '\r'
            && without_line_ends(text).last() != '\n',
    decreases text.len(),
{
    if text.len() > 0 && (text.last() == '\r' || text.last() == '\n') {
        let front = text.drop_last();
        law_only_line_ends_are_taken_off(front);
        let rest = without_line_ends(text);
        assert(text.take(rest.len() as int) =~= front.take(rest.len() as int));
        assert forall|i: int| rest.len() <= i < text.len() implies #[trigger] text[i] == '\r'
            || text[i] == '\n' by {
            if i < front.len() {
                assert(front[i] == text[i]);
            }
        }
    } else {
        assert(text.take(text.len() as int) =~= text);
    }
}

/// A file's mode is shown in three octal digits: what its owner, its group and others may do.
pub proof fn law_modes_are_shown_in_octal(mode: u32)
    ensures
        mode_text(mode).len() == 3,
        mode_text(mode)[0] as int - '0' as int == (mode / 64) % 8,
        mode_text(mode)[1] as int - '0' as int == (mode / 8) % 8,
        mode_text(mode)[2] as int - '0' as int == mode % 8,
        forall|i: int| 0 <= i < 3 ==> '0' <= #[trigger] mode_text(mode)[i] <= '7',
{
    let bits = (mode % 512) as nat;
    assert(bits / 64 == (mode / 64) % 8) by (nonlinear_arith)
        requires
            bits == mode % 512,
    ;
    assert((bits / 8) % 8 == (mode / 8) % 8) by (nonlinear_arith)
        requires
            bits == mode % 512,
    ;
    assert(bits % 8 == mode % 8) by (nonlinear_arith)
        requires
            bits == mode % 512,
    ;
    assert(bits / 64 < 8);
}

/// A file that could not be written is named with the cause, and a part of it that could not be
/// removed is told too.
pub proof fn law_persist_failures_tell_what_is_left(
    path: Seq<char>,
    error: Seq<char>,
    cleanup: PartialFile,
)
    ensures
        persist_error_text(path, error, cleanup) == (match cleanup {
            PartialFile::Gone => "cannot persist "@ + path + ": "@ + error,
            PartialFile::Left(reason) => "cannot persist "@ + path + ": "@ + error
                + "; cannot remove partial file: "@ + reason@,
        }),
        credential_error_text(path) == "credential file "@ + path
            + " must contain one non-whitespace token of at least 32 characters"@,
{
}

} // verus!
