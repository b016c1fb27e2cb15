//! The command lines of the two programs.

use vstd::prelude::*;
use vstd::string::*;

use crate::config::QueryLimits;
use crate::path::{join, joined};
use crate::server::ServerConfig;
use crate::text::{
    decimal_text, join2, join3, law_numbers_read_back, number_text, text_eq, text_value,
};
use crate::time::Duration;

verus! {

/// The listener where none is given.
pub const DEFAULT_LISTEN: &'static str = "127.0.0.1:7878";

/// The HTTP server's help.
pub const SERVER_HELP: &'static str = "NostDB single-node server

Usage:
    nostdb-server --database PATH [--listen ADDRESS] [--api-key KEY]
                  [--timeout-ms N] [--max-rows N] [--max-memory-bytes N]
                  [--max-operations N] [--max-traversals N]

The API key may instead be supplied through NOSTDB_API_KEY.
The default listen address is 127.0.0.1:7878.";

/// The daemon's help.
pub const DAEMON_HELP: &'static str = "NostDB installable database daemon

Usage:
    nostd init --data-dir PATH [--config PATH] [--listen IP:PORT]
    nostd serve [--config PATH]
    nostd --help
    nostd --version

Initialization creates separate protected client and admin credential files.
Credential values are never accepted as command-line arguments.
Configuration lookup is --config, NOSTDB_CONFIG, NOSTDB_HOME/config/server.toml,
then the platform default.
The default database-protocol listener is 127.0.0.1:7878.";

/// The help of `nostd init`.
pub const INIT_HELP: &'static str = "Initialize a fresh NostDB daemon installation

Usage:
    nostd init --data-dir PATH [--config PATH] [--listen IP:PORT]

Options:
    --data-dir PATH   Required fresh or empty daemon-owned data directory
    --config PATH     New configuration file; defaults to the platform lookup path
    --listen IP:PORT  Canonical numeric listener address [default: 127.0.0.1:7878]
    -h, --help        Show this help

Initialization never adopts existing data and never replaces an existing config.";

/// The help of `nostd serve`.
pub const SERVE_HELP: &'static str = "Run the NostDB database daemon in the foreground

Usage:
    nostd serve [--config PATH]

Options:
    --config PATH  Existing configuration file; defaults to the platform lookup path
    -h, --help     Show this help

SIGINT and, on Unix, SIGTERM request a graceful shutdown.";

/// Whether an argument asks for help.
pub open spec fn is_help(argument: Seq<char>) -> bool {
    argument == "-h"@ || argument == "--help"@
}

/// Whether one of the arguments from position `from` on asks for help.
pub open spec fn asks_for_help(arguments: Seq<String>, from: int) -> bool {
    exists|i: int| from <= i < arguments.len() && is_help((#[trigger] arguments[i])@)
}

fn help(argument: &str) -> (asks: bool)
    ensures
        asks == is_help(argument@),
{
    text_eq(argument, "-h") || text_eq(argument, "--help")
}

/// Tests whether one of the arguments from position `from` on asks for help.
pub fn help_requested(arguments: &Vec<String>, from: usize) -> (requested: bool)
    ensures
        requested == asks_for_help(arguments@, from as int),
{
    let mut i: usize = from;
    while i < arguments.len()
        invariant
            from <= i,
            i <= arguments@.len() || i == from,
            forall|k: int| from <= k < i ==> !is_help((#[trigger] arguments@[k])@),
        decreases arguments.len() - i,
    {
        if help(arguments[i].as_str()) {
            return true;
        }
        i = i + 1;
    }
    false
}

/// The configuration file where the command line names none: the environment's, then the one
/// below the environment's home, then the platform's.
pub fn select_default_config_path(
    config_path: Option<String>,
    nostdb_home: Option<String>,
    platform_default: String,
) -> (path: String)
    ensures
        path@ == (match (config_path, nostdb_home) {
            (Some(path), _) => path@,
            (None, Some(home)) => joined(home@, "config/server.toml"@),
            (None, None) => platform_default@,
        }),
{
    match config_path {
        Some(path) => path,
        None => match nostdb_home {
            Some(home) => join(home.as_str(), "config/server.toml"),
            None => platform_default,
        },
    }
}

/// What `nostd init` is asked to do.
#[derive(Debug, PartialEq, Eq)]
pub struct InitOptions {
    /// The data directory to set up.
    pub data_directory: String,
    /// The configuration file to write.
    pub config_path: String,
    /// The listener to configure.
    pub listen: String,
}

/// How many places for an option there are among the arguments from position `from` on: every
/// second one, beginning with the first.
pub open spec fn option_places(arguments: Seq<String>, from: int) -> int {
    if from < arguments.len() {
        (arguments.len() - from + 1) / 2
    } else {
        0
    }
}

/// The option at place `k`.
pub open spec fn option_at(arguments: Seq<String>, from: int, k: int) -> Seq<char> {
    arguments[from + 2 * k]@
}

/// Whether the first option that is not `known` stands at place `k`.
pub open spec fn is_first_unknown(
    arguments: Seq<String>,
    from: int,
    known: Seq<Seq<char>>,
    k: int,
) -> bool {
    &&& 0 <= k < option_places(arguments, from)
    &&& !known.contains(option_at(arguments, from, k))
    &&& forall|j: int| 0 <= j < k ==> known.contains(#[trigger] option_at(arguments, from, j))
}

/// Whether every option is `known`.
pub open spec fn all_known(arguments: Seq<String>, from: int, known: Seq<Seq<char>>) -> bool {
    forall|j: int|
        0 <= j < option_places(arguments, from) ==> known.contains(
            #[trigger] option_at(arguments, from, j),
        )
}

/// Whether every option is followed by a value.
pub open spec fn all_valued(arguments: Seq<String>, from: int) -> bool {
    from < arguments.len() ==> (arguments.len() - from) % 2 == 0
}

/// Whether the option `name` is given for the last time at place `k`.
pub open spec fn is_last_use(arguments: Seq<String>, from: int, name: Seq<char>, k: int) -> bool {
    &&& 0 <= k < option_places(arguments, from)
    &&& option_at(arguments, from, k) == name
    &&& forall|j: int|
        k < j < option_places(arguments, from) ==> #[trigger] option_at(arguments, from, j) != name
}

/// The value that stands behind the last use of the option `name`, if it is used.
pub open spec fn last_value(arguments: Seq<String>, from: int, name: Seq<char>) -> Option<
    Seq<char>,
> {
    if exists|k: int| is_last_use(arguments, from, name, k) {
        let k = choose|k: int| is_last_use(arguments, from, name, k);
        Some(arguments[from + 2 * k + 1]@)
    } else {
        None
    }
}

/// The options that `nostd init` knows.
pub open spec fn known_init_options() -> Seq<Seq<char>> {
    seq!["--data-dir"@, "--config"@, "--listen"@]
}

/// The options that `nostd serve` knows.
pub open spec fn known_serve_options() -> Seq<Seq<char>> {
    seq!["--config"@]
}

/// What is wrong with the options of `command`, if anything: the first that is not known, or one
/// without a value.
pub open spec fn is_option_fault(
    message: Seq<char>,
    arguments: Seq<String>,
    from: int,
    command: Seq<char>,
    known: Seq<Seq<char>>,
) -> bool {
    if all_known(arguments, from, known) {
        !all_valued(arguments, from) && message == "option requires a value"@
    } else {
        exists|k: int| #[trigger]
            is_first_unknown(arguments, from, known, k) && message == "unknown "@ + command
                + " option `"@ + option_at(arguments, from, k) + "`"@
    }
}

/// Whether `result` is what the arguments from position `from` on ask `nostd init` to do.
pub open spec fn is_init_request(
    result: Result<InitOptions, String>,
    arguments: Seq<String>,
    from: int,
    default_config: Seq<char>,
) -> bool {
    let known = known_init_options();
    if !all_known(arguments, from, known) || !all_valued(arguments, from) {
        result matches Err(message) && is_option_fault(
            message@,
            arguments,
            from,
            "init"@,
            known,
        )
    } else {
        match last_value(arguments, from, "--data-dir"@) {
            None => result matches Err(message) && message@ == "init requires --data-dir PATH"@,
            Some(directory) => {
                &&& result is Ok
                &&& result->Ok_0.data_directory@ == directory
                &&& result->Ok_0.config_path@ == (match last_value(
                    arguments,
                    from,
                    "--config"@,
                ) {
                    Some(path) => path,
                    None => default_config,
                })
                &&& result->Ok_0.listen@ == (match last_value(arguments, from, "--listen"@) {
                    Some(listen) => listen,
                    None => DEFAULT_LISTEN@,
                })
            },
        }
    }
}

/// Whether `result` is what the arguments from position `from` on ask `nostd serve` to do.
pub open spec fn is_serve_request(
    result: Result<String, String>,
    arguments: Seq<String>,
    from: int,
    default_config: Seq<char>,
) -> bool {
    let known = known_serve_options();
    if !all_known(arguments, from, known) || !all_valued(arguments, from) {
        result matches Err(message) && is_option_fault(
            message@,
            arguments,
            from,
            "serve"@,
            known,
        )
    } else {
        result is Ok && result->Ok_0@ == (match last_value(arguments, from, "--config"@) {
            Some(path) => path,
            None => default_config,
        })
    }
}

/// The value behind the last use of `name` among the first `read` places.
spec fn value_so_far(arguments: Seq<String>, from: int, name: Seq<char>, read: int) -> Option<
    Seq<char>,
>
    decreases read,
{
    if read <= 0 {
        None
    } else if option_at(arguments, from, read - 1) == name {
        Some(arguments[from + 2 * (read - 1) + 1]@)
    } else {
        value_so_far(arguments, from, name, read - 1)
    }
}

proof fn lemma_value_so_far(arguments: Seq<String>, from: int, name: Seq<char>, read: int)
    requires
        0 <= read <= option_places(arguments, from),
        forall|j: int|
            read <= j < option_places(arguments, from) ==> #[trigger] option_at(arguments, from, j)
                != name,
    ensures
        value_so_far(arguments, from, name, read) == last_value(arguments, from, name),
    decreases read,
{
    if read > 0 {
        if option_at(arguments, from, read - 1) == name {
            assert(is_last_use(arguments, from, name, read - 1));
            let k = choose|k: int| is_last_use(arguments, from, name, k);
            assert(k == read - 1);
        } else {
            lemma_value_so_far(arguments, from, name, read - 1);
        }
    } else if exists|k: int| is_last_use(arguments, from, name, k) {
        let k = choose|k: int| is_last_use(arguments, from, name, k);
        assert(option_at(arguments, from, k) == name);
    }
}

proof fn lemma_unknown_option(
    arguments: Seq<String>,
    from: int,
    known: Seq<Seq<char>>,
    k: int,
)
    requires
        is_first_unknown(arguments, from, known, k),
    ensures
        !all_known(arguments, from, known),
{
    assert(!known.contains(option_at(arguments, from, k)));
}

proof fn lemma_init_options()
    ensures
        forall|option: Seq<char>| #[trigger]
            known_init_options().contains(option) <==> option == "--data-dir"@ || option
                == "--config"@ || option == "--listen"@,
        forall|option: Seq<char>| #[trigger]
            known_serve_options().contains(option) <==> option == "--config"@,
{
    let known = known_init_options();
    assert(known[0] == "--data-dir"@ && known[1] == "--config"@ && known[2] == "--listen"@);
    assert(known_serve_options()[0] == "--config"@);
}

/// What a text option holds.
pub open spec fn text_option(option: Option<String>) -> Option<Seq<char>> {
    match option {
        Some(text) => Some(text@),
        None => None,
    }
}

proof fn lemma_init_fault_text(option: Seq<char>)
    ensures
        "unknown init option `"@ + option + "`"@ == "unknown "@ + "init"@ + " option `"@ + option
            + "`"@,
{
    reveal_strlit("unknown init option `");
    reveal_strlit("unknown ");
    reveal_strlit("init");
    reveal_strlit(" option `");
    assert("unknown init option `"@ =~= "unknown "@ + "init"@ + " option `"@);
}

proof fn lemma_serve_fault_text(option: Seq<char>)
    ensures
        "unknown serve option `"@ + option + "`"@ == "unknown "@ + "serve"@ + " option `"@ + option
            + "`"@,
{
    reveal_strlit("unknown serve option `");
    reveal_strlit("unknown ");
    reveal_strlit("serve");
    reveal_strlit(" option `");
    assert("unknown serve option `"@ =~= "unknown "@ + "serve"@ + " option `"@);
}

/// Reads the arguments of `nostd init`.
pub fn parse_init(arguments: &Vec<String>, from: usize, default_config: &str) -> (result: Result<
    InitOptions,
    String,
>)
    ensures
        is_init_request(result, arguments@, from as int, default_config@),
{
    let mut data_directory: Option<String> = None;
    let mut config_path: Option<String> = None;
    let mut listen: Option<String> = None;
    let mut i: usize = from;
    let ghost mut read: int = 0;
    proof {
        lemma_init_options();
    }
    while i < arguments.len()
        invariant
            from <= arguments@.len() || i == from,
            i == from + 2 * read,
            0 <= read <= option_places(arguments@, from as int),
            from < arguments@.len() ==> i <= arguments@.len(),
            forall|j: int|
                0 <= j < read ==> known_init_options().contains(
                    #[trigger] option_at(arguments@, from as int, j),
                ),
            forall|option: Seq<char>| #[trigger]
                known_init_options().contains(option) <==> option == "--data-dir"@ || option
                    == "--config"@ || option == "--listen"@,
            text_option(data_directory) == value_so_far(
                arguments@,
                from as int,
                "--data-dir"@,
                read,
            ),
            text_option(config_path) == value_so_far(arguments@, from as int, "--config"@, read),
            text_option(listen) == value_so_far(arguments@, from as int, "--listen"@, read),
        decreases arguments.len() - i,
    {
        let option = arguments[i].as_str();
        let is_data: bool = text_eq(option, "--data-dir");
        let is_config: bool = text_eq(option, "--config");
        let is_listen: bool = text_eq(option, "--listen");
        assert(option@ == option_at(arguments@, from as int, read));
        if !is_data && !is_config && !is_listen {
            let message = join3("unknown init option `", option, "`");
            proof {
                assert(is_first_unknown(arguments@, from as int, known_init_options(), read));
                lemma_unknown_option(arguments@, from as int, known_init_options(), read);
                lemma_init_fault_text(option@);
            }
            return Err(message);
        }
        if i >= arguments.len() - 1 {
            proof {
                assert(option_places(arguments@, from as int) == read + 1);
                assert(all_known(arguments@, from as int, known_init_options()));
            }
            return Err("option requires a value".to_owned());
        }
        let value = arguments[i + 1].clone();
        proof {
            reveal_strlit("--data-dir");
            reveal_strlit("--config");
            reveal_strlit("--listen");
            assert("--data-dir"@.len() == 10 && "--config"@[2] == 'c' && "--listen"@[2] == 'l');
        }
        if is_data {
            data_directory = Some(value);
        } else if is_config {
            config_path = Some(value);
        } else {
            listen = Some(value);
        }
        let count: usize = arguments.len();
        i = i + 1;
        assert(i < count);
        i = i + 1;
        proof {
            read = read + 1;
        }
    }
    proof {
        assert(read == option_places(arguments@, from as int));
        assert(all_known(arguments@, from as int, known_init_options()));
        lemma_value_so_far(arguments@, from as int, "--data-dir"@, read);
        lemma_value_so_far(arguments@, from as int, "--config"@, read);
        lemma_value_so_far(arguments@, from as int, "--listen"@, read);
    }
    match data_directory {
        None => Err("init requires --data-dir PATH".to_owned()),
        Some(data_directory) => Ok(
            InitOptions {
                data_directory,
                config_path: match config_path {
                    Some(path) => path,
                    None => default_config.to_owned(),
                },
                listen: match listen {
                    Some(listen) => listen,
                    None => DEFAULT_LISTEN.to_owned(),
                },
            },
        ),
    }
}

/// Reads the arguments of `nostd serve`.
pub fn parse_serve(arguments: &Vec<String>, from: usize, default_config: &str) -> (result: Result<
    String,
    String,
>)
    ensures
        is_serve_request(result, arguments@, from as int, default_config@),
{
    let mut config_path: Option<String> = None;
    let mut i: usize = from;
    let ghost mut read: int = 0;
    proof {
        lemma_init_options();
    }
    while i < arguments.len()
        invariant
            from <= arguments@.len() || i == from,
            i == from + 2 * read,
            0 <= read <= option_places(arguments@, from as int),
            from < arguments@.len() ==> i <= arguments@.len(),
            forall|j: int|
                0 <= j < read ==> known_serve_options().contains(
                    #[trigger] option_at(arguments@, from as int, j),
                ),
            forall|option: Seq<char>| #[trigger]
                known_serve_options().contains(option) <==> option == "--config"@,
            text_option(config_path) == value_so_far(arguments@, from as int, "--config"@, read),
        decreases arguments.len() - i,
    {
        let option = arguments[i].as_str();
        assert(option@ == option_at(arguments@, from as int, read));
        if !text_eq(option, "--config") {
            let message = join3("unknown serve option `", option, "`");
            proof {
                assert(is_first_unknown(arguments@, from as int, known_serve_options(), read));
                lemma_unknown_option(arguments@, from as int, known_serve_options(), read);
                lemma_serve_fault_text(option@);
            }
            return Err(message);
        }
        if i >= arguments.len() - 1 {
            proof {
                assert(option_places(arguments@, from as int) == read + 1);
                assert(all_known(arguments@, from as int, known_serve_options()));
            }
            return Err("option requires a value".to_owned());
        }
        config_path = Some(arguments[i + 1].clone());
        let count: usize = arguments.len();
        i = i + 1;
        assert(i < count);
        i = i + 1;
        proof {
            read = read + 1;
        }
    }
    proof {
        assert(read == option_places(arguments@, from as int));
        assert(all_known(arguments@, from as int, known_serve_options()));
        lemma_value_so_far(arguments@, from as int, "--config"@, read);
    }
    Ok(
        match config_path {
            Some(path) => path,
            None => default_config.to_owned(),
        },
    )
}

/// What the daemon's command line asks for.
#[derive(Debug, PartialEq, Eq)]
pub enum DaemonCommand {
    /// Show the help.
    Help,
    /// Show the version.
    Version,
    /// Show the help of `init`.
    InitHelp,
    /// Initialize.
    Init(InitOptions),
    /// Show the help of `serve`.
    ServeHelp,
    /// Serve with this configuration file.
    Serve(String),
}

/// Whether an argument asks for the version.
pub open spec fn is_version(argument: Seq<char>) -> bool {
    argument == "-V"@ || argument == "--version"@
}

/// Whether `result` is what the daemon's arguments ask for.
pub open spec fn is_daemon_request(
    result: Result<DaemonCommand, String>,
    arguments: Seq<String>,
    default_config: Seq<char>,
) -> bool {
    if arguments.len() == 0 || is_help(arguments[0]@) {
        result == Ok::<DaemonCommand, String>(DaemonCommand::Help)
    } else if is_version(arguments[0]@) {
        if arguments.len() != 1 {
            result matches Err(error) && error@ == "--version does not accept arguments"@
        } else {
            result == Ok::<DaemonCommand, String>(DaemonCommand::Version)
        }
    } else if arguments[0]@ == "init"@ {
        if asks_for_help(arguments, 1) {
            result == Ok::<DaemonCommand, String>(DaemonCommand::InitHelp)
        } else {
            match result {
                Ok(DaemonCommand::Init(options)) => is_init_request(
                    Ok(options),
                    arguments,
                    1,
                    default_config,
                ),
                Err(error) => is_init_request(Err(error), arguments, 1, default_config),
                _ => false,
            }
        }
    } else if arguments[0]@ == "serve"@ {
        if asks_for_help(arguments, 1) {
            result == Ok::<DaemonCommand, String>(DaemonCommand::ServeHelp)
        } else {
            match result {
                Ok(DaemonCommand::Serve(path)) => is_serve_request(
                    Ok(path),
                    arguments,
                    1,
                    default_config,
                ),
                Err(error) => is_serve_request(Err(error), arguments, 1, default_config),
                _ => false,
            }
        }
    } else {
        result matches Err(error) && error@ == "unknown command `"@ + arguments[0]@ + "`\n\n"@
            + DAEMON_HELP@
    }
}

/// Reads the daemon's command line.
pub fn parse_daemon(arguments: &Vec<String>, default_config: &str) -> (result: Result<
    DaemonCommand,
    String,
>)
    ensures
        is_daemon_request(result, arguments@, default_config@),
{
    if arguments.len() == 0 {
        return Ok(DaemonCommand::Help);
    }
    let command = arguments[0].as_str();
    if help(command) {
        return Ok(DaemonCommand::Help);
    }
    if text_eq(command, "-V") || text_eq(command, "--version") {
        if arguments.len() != 1 {
            return Err("--version does not accept arguments".to_owned());
        }
        return Ok(DaemonCommand::Version);
    }
    if text_eq(command, "init") {
        if help_requested(arguments, 1) {
            return Ok(DaemonCommand::InitHelp);
        }
        return match parse_init(arguments, 1, default_config) {
            Ok(options) => Ok(DaemonCommand::Init(options)),
            Err(error) => Err(error),
        };
    }
    if text_eq(command, "serve") {
        if help_requested(arguments, 1) {
            return Ok(DaemonCommand::ServeHelp);
        }
        return match parse_serve(arguments, 1, default_config) {
            Ok(path) => Ok(DaemonCommand::Serve(path)),
            Err(error) => Err(error),
        };
    }
    let prefix = join3("unknown command `", command, "`\n\n");
    Err(join2(prefix.as_str(), DAEMON_HELP))
}

/// The number that decimal digits stand for.
pub open spec fn digits_value(digits: Seq<char>) -> nat
    decreases digits.len(),
{
    if digits.len() == 0 {
        0
    } else {
        digits_value(digits.drop_last()) * 10 + (digits.last() as nat - '0' as nat) as nat
    }
}

/// Whether a text is one or more decimal digits.
pub open spec fn is_digits(text: Seq<char>) -> bool {
    text.len() > 0 && forall|i: int| 0 <= i < text.len() ==> '0' <= #[trigger] text[i] <= '9'
}

/// The digits of a number: what follows a plus sign, where there is one.
pub open spec fn unsigned_digits(text: Seq<char>) -> Seq<char> {
    if text.len() > 0 && text[0] == '+' {
        text.drop_first()
    } else {
        text
    }
}

/// The number that a text stands for, if it is one of 64 bits.
pub open spec fn number_value(text: Seq<char>) -> Option<u64> {
    let digits = unsigned_digits(text);
    if is_digits(digits) && digits_value(digits) <= u64::MAX {
        Some(digits_value(digits) as u64)
    } else {
        None
    }
}

/// The text for a value that is no number.
pub open spec fn number_error_text(text: Seq<char>) -> Seq<char> {
    "`"@ + text + "` is not a valid non-negative integer"@
}

fn number_failure(value: &str) -> (error: String)
    ensures
        error@ == number_error_text(value@),
{
    join3("`", value, "` is not a valid non-negative integer")
}

/// Reads a non-negative integer.
pub fn number(value: &str) -> (result: Result<u64, String>)
    ensures
        match number_value(value@) {
            Some(number) => result == Ok::<u64, String>(number),
            None => result is Err && result->Err_0@ == number_error_text(value@),
        },
{
    let length: usize = value.unicode_len();
    let start: usize = if length > 0 && value.get_char(0) == '+' {
        1
    } else {
        0
    };
    let ghost digits = unsigned_digits(value@);
    if start >= length {
        return Err(number_failure(value));
    }
    let text = value.substring_char(start, length);
    proof {
        assert(text@ =~= digits);
    }
    let mut total: u64 = 0;
    let mut valid: bool = true;
    let mut fits: bool = true;
    let mut i: usize = 0;
    let count: usize = text.unicode_len();
    for c in chars: text.chars()
        invariant
            chars.seq() == text@,
            text@ == digits,
            i == chars.index(),
            count == text@.len(),
            valid == forall|k: int| 0 <= k < i ==> '0' <= #[trigger] digits[k] <= '9',
            valid && fits ==> total == digits_value(digits.take(i as int)),
            valid && !fits ==> digits_value(digits.take(i as int)) > u64::MAX,
    {
        proof {
            assert(digits.take(i + 1).drop_last() =~= digits.take(i as int));
            assert(digits.take(i + 1).last() == c);
        }
        if c < '0' || c > '9' {
            valid = false;
            assert(!('0' <= digits[i as int] <= '9'));
        } else if valid {
            let digit: u64 = (c as u32 - '0' as u32) as u64;
            if fits {
                match total.checked_mul(10) {
                    None => {
                        fits = false;
                    },
                    Some(tens) => match tens.checked_add(digit) {
                        None => {
                            fits = false;
                        },
                        Some(sum) => {
                            total = sum;
                        },
                    },
                }
            }
        }
        i = i + 1;
    }
    proof {
        assert(digits.take(i as int) =~= digits);
    }
    if !valid || !fits {
        return Err(number_failure(value));
    }
    Ok(total)
}

/// What the options of the HTTP server say.
#[verifier::ext_equal]
pub struct ServerView {
    /// The database file.
    pub database: Option<Seq<char>>,
    /// The API key.
    pub api_key: Option<Seq<char>>,
    /// The listener.
    pub listen: Seq<char>,
    /// The query timeout in milliseconds.
    pub timeout_ms: Option<u64>,
    /// Maximum result rows.
    pub max_rows: Option<u64>,
    /// Maximum estimated materialized bytes.
    pub max_memory_bytes: Option<u64>,
    /// Maximum work units.
    pub max_operations: Option<u64>,
    /// Maximum relationship candidates.
    pub max_traversals: Option<u64>,
}

/// The options of the HTTP server as far as they were read.
pub struct ServerArguments {
    /// The database file.
    pub database: Option<String>,
    /// The API key.
    pub api_key: Option<String>,
    /// The listener.
    pub listen: String,
    /// The query timeout in milliseconds.
    pub timeout_ms: Option<u64>,
    /// Maximum result rows.
    pub max_rows: Option<u64>,
    /// Maximum estimated materialized bytes.
    pub max_memory_bytes: Option<u64>,
    /// Maximum work units.
    pub max_operations: Option<u64>,
    /// Maximum relationship candidates.
    pub max_traversals: Option<u64>,
}

impl View for ServerArguments {
    type V = ServerView;

    open spec fn view(&self) -> ServerView {
        ServerView {
            database: text_option(self.database),
            api_key: text_option(self.api_key),
            listen: self.listen@,
            timeout_ms: self.timeout_ms,
            max_rows: self.max_rows,
            max_memory_bytes: self.max_memory_bytes,
            max_operations: self.max_operations,
            max_traversals: self.max_traversals,
        }
    }
}

/// The options after `option` was given with `value`, or what is wrong with it.
spec fn server_option(
    options: ServerView,
    option: Seq<char>,
    value: Seq<char>,
) -> Result<ServerView, Seq<char>> {
    if option == "--database"@ {
        Ok(ServerView { database: Some(value), ..options })
    } else if option == "--api-key"@ {
        Ok(ServerView { api_key: Some(value), ..options })
    } else if option == "--listen"@ {
        Ok(ServerView { listen: value, ..options })
    } else if option == "--timeout-ms"@ || option == "--max-rows"@ || option
        == "--max-memory-bytes"@ || option == "--max-operations"@ || option == "--max-traversals"@ {
        match number_value(value) {
            None => Err(number_error_text(value)),
            Some(number) => if option == "--timeout-ms"@ {
                Ok(ServerView { timeout_ms: Some(number), ..options })
            } else if option == "--max-rows"@ {
                Ok(ServerView { max_rows: Some(number), ..options })
            } else if option == "--max-memory-bytes"@ {
                Ok(ServerView { max_memory_bytes: Some(number), ..options })
            } else if option == "--max-operations"@ {
                Ok(ServerView { max_operations: Some(number), ..options })
            } else {
                Ok(ServerView { max_traversals: Some(number), ..options })
            },
        }
    } else {
        Err("unknown option `"@ + option + "`"@)
    }
}

impl ServerArguments {
    fn set(&mut self, option: &str, value: &str) -> (result: Result<(), String>)
        ensures
            match server_option(old(self)@, option@, value@) {
                Ok(next) => result is Ok && final(self)@ == next,
                Err(error) => result is Err && result->Err_0@ == error,
            },
    {
        if text_eq(option, "--database") {
            self.database = Some(value.to_owned());
            return Ok(());
        }
        if text_eq(option, "--api-key") {
            self.api_key = Some(value.to_owned());
            return Ok(());
        }
        if text_eq(option, "--listen") {
            self.listen = value.to_owned();
            return Ok(());
        }
        let is_timeout: bool = text_eq(option, "--timeout-ms");
        let is_rows: bool = text_eq(option, "--max-rows");
        let is_memory: bool = text_eq(option, "--max-memory-bytes");
        let is_operations: bool = text_eq(option, "--max-operations");
        let is_traversals: bool = text_eq(option, "--max-traversals");
        if !is_timeout && !is_rows && !is_memory && !is_operations && !is_traversals {
            return Err(join3("unknown option `", option, "`"));
        }
        let parsed: u64 = match number(value) {
            Ok(parsed) => parsed,
            Err(error) => {
                return Err(error);
            },
        };
        if is_timeout {
            self.timeout_ms = Some(parsed);
        } else if is_rows {
            self.max_rows = Some(parsed);
        } else if is_memory {
            self.max_memory_bytes = Some(parsed);
        } else if is_operations {
            self.max_operations = Some(parsed);
        } else {
            self.max_traversals = Some(parsed);
        }
        Ok(())
    }
}

/// What the HTTP server is asked to do.
#[derive(Debug, PartialEq, Eq)]
pub struct ServerInvocation {
    /// The listener, not parsed yet.
    pub listen: String,
    /// The configuration.
    pub config: ServerConfig,
}

/// Whether the HTTP server has an option of this name that takes a text.
pub open spec fn is_text_option(option: Seq<char>) -> bool {
    option == "--database"@ || option == "--api-key"@ || option == "--listen"@
}

/// Whether the HTTP server has an option of this name that takes a number.
pub open spec fn is_number_option(option: Seq<char>) -> bool {
    ||| option == "--timeout-ms"@
    ||| option == "--max-rows"@
    ||| option == "--max-memory-bytes"@
    ||| option == "--max-operations"@
    ||| option == "--max-traversals"@
}

/// What is wrong with the option at place `k`, if anything.
pub open spec fn server_option_fault(arguments: Seq<String>, k: int) -> Option<Seq<char>> {
    let option = option_at(arguments, 0, k);
    if 2 * k + 1 >= arguments.len() {
        Some(option + " requires a value"@)
    } else if is_text_option(option) {
        None
    } else if is_number_option(option) {
        if number_value(arguments[2 * k + 1]@) is None {
            Some(number_error_text(arguments[2 * k + 1]@))
        } else {
            None
        }
    } else {
        Some("unknown option `"@ + option + "`"@)
    }
}

/// Whether the first option with a fault stands at place `k`.
pub open spec fn is_first_fault(arguments: Seq<String>, k: int) -> bool {
    &&& 0 <= k < option_places(arguments, 0)
    &&& server_option_fault(arguments, k) is Some
    &&& forall|j: int| 0 <= j < k ==> (#[trigger] server_option_fault(arguments, j)) is None
}

/// The number behind the last use of the option `name`, if it is used.
pub open spec fn last_number(arguments: Seq<String>, name: Seq<char>) -> Option<u64> {
    match last_value(arguments, 0, name) {
        Some(value) => number_value(value),
        None => None,
    }
}

/// What the arguments say, the last use of each option counting; the API key may come from the
/// environment.
pub open spec fn given_server_options(
    arguments: Seq<String>,
    api_key: Option<Seq<char>>,
) -> ServerView {
    ServerView {
        database: last_value(arguments, 0, "--database"@),
        api_key: match last_value(arguments, 0, "--api-key"@) {
            Some(key) => Some(key),
            None => api_key,
        },
        listen: match last_value(arguments, 0, "--listen"@) {
            Some(listen) => listen,
            None => DEFAULT_LISTEN@,
        },
        timeout_ms: last_number(arguments, "--timeout-ms"@),
        max_rows: last_number(arguments, "--max-rows"@),
        max_memory_bytes: last_number(arguments, "--max-memory-bytes"@),
        max_operations: last_number(arguments, "--max-operations"@),
        max_traversals: last_number(arguments, "--max-traversals"@),
    }
}

spec fn number_so_far(arguments: Seq<String>, name: Seq<char>, read: int) -> Option<u64> {
    match value_so_far(arguments, 0, name, read) {
        Some(value) => number_value(value),
        None => None,
    }
}

/// What the options at the first `read` places say.
spec fn server_options_so_far(
    arguments: Seq<String>,
    api_key: Option<Seq<char>>,
    read: int,
) -> ServerView {
    ServerView {
        database: value_so_far(arguments, 0, "--database"@, read),
        api_key: match value_so_far(arguments, 0, "--api-key"@, read) {
            Some(key) => Some(key),
            None => api_key,
        },
        listen: match value_so_far(arguments, 0, "--listen"@, read) {
            Some(listen) => listen,
            None => DEFAULT_LISTEN@,
        },
        timeout_ms: number_so_far(arguments, "--timeout-ms"@, read),
        max_rows: number_so_far(arguments, "--max-rows"@, read),
        max_memory_bytes: number_so_far(arguments, "--max-memory-bytes"@, read),
        max_operations: number_so_far(arguments, "--max-operations"@, read),
        max_traversals: number_so_far(arguments, "--max-traversals"@, read),
    }
}

proof fn lemma_server_options_differ()
    ensures
        "--database"@.len() == 10,
        "--database"@[2] == 'd',
        "--api-key"@.len() == 9,
        "--listen"@.len() == 8,
        "--timeout-ms"@.len() == 12,
        "--max-rows"@.len() == 10,
        "--max-rows"@[2] == 'm',
        "--max-memory-bytes"@.len() == 18,
        "--max-operations"@.len() == 16,
        "--max-operations"@[6] == 'o',
        "--max-traversals"@.len() == 16,
        "--max-traversals"@[6] == 't',
{
    reveal_strlit("--database");
    reveal_strlit("--api-key");
    reveal_strlit("--listen");
    reveal_strlit("--timeout-ms");
    reveal_strlit("--max-rows");
    reveal_strlit("--max-memory-bytes");
    reveal_strlit("--max-operations");
    reveal_strlit("--max-traversals");
}

proof fn lemma_server_option(arguments: Seq<String>, api_key: Option<Seq<char>>, read: int)
    requires
        0 <= read,
        2 * read + 1 < arguments.len(),
    ensures
        ({
            let next = server_option(
                server_options_so_far(arguments, api_key, read),
                option_at(arguments, 0, read),
                arguments[2 * read + 1]@,
            );
            match server_option_fault(arguments, read) {
                Some(fault) => next == Err::<ServerView, Seq<char>>(fault),
                None => next == Ok::<ServerView, Seq<char>>(
                    server_options_so_far(arguments, api_key, read + 1),
                ),
            }
        }),
{
    lemma_server_options_differ();
    if server_option_fault(arguments, read) is None {
        let next = server_option(
            server_options_so_far(arguments, api_key, read),
            option_at(arguments, 0, read),
            arguments[2 * read + 1]@,
        );
        assert(next->Ok_0 =~= server_options_so_far(arguments, api_key, read + 1));
    }
}

proof fn lemma_all_server_options(arguments: Seq<String>, api_key: Option<Seq<char>>)
    ensures
        server_options_so_far(arguments, api_key, option_places(arguments, 0))
            == given_server_options(arguments, api_key),
{
    let read = option_places(arguments, 0);
    lemma_value_so_far(arguments, 0, "--database"@, read);
    lemma_value_so_far(arguments, 0, "--api-key"@, read);
    lemma_value_so_far(arguments, 0, "--listen"@, read);
    lemma_value_so_far(arguments, 0, "--timeout-ms"@, read);
    lemma_value_so_far(arguments, 0, "--max-rows"@, read);
    lemma_value_so_far(arguments, 0, "--max-memory-bytes"@, read);
    lemma_value_so_far(arguments, 0, "--max-operations"@, read);
    lemma_value_so_far(arguments, 0, "--max-traversals"@, read);
}

/// A limit: the one that was given, or the default.
pub open spec fn given(value: Option<u64>, default: u64) -> u64 {
    match value {
        Some(value) => value,
        None => default,
    }
}

/// Whether an invocation is what the options ask for.
pub open spec fn is_invocation(invocation: ServerInvocation, options: ServerView) -> bool {
    let config = invocation.config;
    &&& invocation.listen@ == options.listen
    &&& Some(config.database_path@) == options.database
    &&& Some(config.api_key@) == options.api_key
    &&& config.query_limits == (QueryLimits {
        max_rows: given(options.max_rows, 10_000),
        max_memory_bytes: given(options.max_memory_bytes, 67_108_864),
        max_operations: given(options.max_operations, 10_000_000),
        max_traversals: given(options.max_traversals, 1_000_000),
    })
    &&& config.query_timeout@ == given(options.timeout_ms, 30_000) as nat * 1_000_000
    &&& config.query_timeout.normal()
    &&& config.request_body_bytes == 1_048_576
    &&& config.snapshot_body_bytes == 1_073_741_824
    &&& config.max_sessions == 1024
    &&& config.max_transaction_statements == 1000
}

/// Whether `result` is what the HTTP server's arguments ask for: nothing but its help where one of
/// them asks for it.
pub open spec fn is_server_request(
    result: Result<Option<ServerInvocation>, String>,
    arguments: Seq<String>,
    api_key: Option<Seq<char>>,
) -> bool {
    if asks_for_help(arguments, 0) {
        result == Ok::<Option<ServerInvocation>, String>(None)
    } else if exists|k: int| is_first_fault(arguments, k) {
        exists|k: int| #[trigger]
            is_first_fault(arguments, k) && (result matches Err(message) && Some(message@)
                == server_option_fault(arguments, k))
    } else {
        let options = given_server_options(arguments, api_key);
        if options.database is None {
            result matches Err(message) && message@ == "--database is required"@
        } else if options.api_key is None {
            result matches Err(message) && message@ == "--api-key or NOSTDB_API_KEY is required"@
        } else {
            result matches Ok(Some(invocation)) && is_invocation(invocation, options)
        }
    }
}

/// Reads the HTTP server's command line; `api_key` is the one of the environment.
pub fn parse_arguments(arguments: &Vec<String>, api_key: Option<String>) -> (result: Result<
    Option<ServerInvocation>,
    String,
>)
    ensures
        is_server_request(result, arguments@, text_option(api_key)),
{
    if help_requested(arguments, 0) {
        return Ok(None);
    }
    let ghost environment = text_option(api_key);
    let mut options = ServerArguments {
        database: None,
        api_key,
        listen: DEFAULT_LISTEN.to_owned(),
        timeout_ms: None,
        max_rows: None,
        max_memory_bytes: None,
        max_operations: None,
        max_traversals: None,
    };
    let mut i: usize = 0;
    let ghost mut read: int = 0;
    proof {
        assert(options@ =~= server_options_so_far(arguments@, environment, 0));
    }
    while i < arguments.len()
        invariant
            !asks_for_help(arguments@, 0),
            i == 2 * read,
            0 <= read <= option_places(arguments@, 0),
            i <= arguments@.len(),
            forall|j: int|
                0 <= j < read ==> (#[trigger] server_option_fault(arguments@, j)) is None,
            options@ == server_options_so_far(arguments@, environment, read),
        decreases arguments.len() - i,
    {
        let option = arguments[i].as_str();
        assert(option@ == option_at(arguments@, 0, read));
        if i >= arguments.len() - 1 {
            assert(is_first_fault(arguments@, read));
            return Err(join2(option, " requires a value"));
        }
        proof {
            lemma_server_option(arguments@, environment, read);
        }
        match options.set(option, arguments[i + 1].as_str()) {
            Ok(()) => {},
            Err(error) => {
                assert(is_first_fault(arguments@, read));
                return Err(error);
            },
        }
        let count: usize = arguments.len();
        i = i + 1;
        assert(i < count);
        i = i + 1;
        proof {
            read = read + 1;
        }
    }
    proof {
        assert(read == option_places(arguments@, 0));
        assert(!exists|k: int| is_first_fault(arguments@, k));
        lemma_all_server_options(arguments@, environment);
    }
    let ghost asked = options@;
    let database = match options.database {
        Some(database) => database,
        None => {
            return Err("--database is required".to_owned());
        },
    };
    let api_key = match options.api_key {
        Some(api_key) => api_key,
        None => {
            return Err("--api-key or NOSTDB_API_KEY is required".to_owned());
        },
    };
    let mut config = ServerConfig::new(database, api_key);
    if let Some(millis) = options.timeout_ms {
        config.query_timeout = Duration::from_millis(millis);
    }
    if let Some(value) = options.max_rows {
        config.query_limits.max_rows = value;
    }
    if let Some(value) = options.max_memory_bytes {
        config.query_limits.max_memory_bytes = value;
    }
    if let Some(value) = options.max_operations {
        config.query_limits.max_operations = value;
    }
    if let Some(value) = options.max_traversals {
        config.query_limits.max_traversals = value;
    }
    let invocation = ServerInvocation { listen: options.listen, config };
    assert(is_invocation(invocation, asked));
    Ok(Some(invocation))
}

/// Help and the version are asked for by their short and their long names, and by nothing else. Help
/// counts wherever it stands.
pub proof fn law_help_is_asked_for_by_name(arguments: Seq<String>, from: int, argument: Seq<char>)
    ensures
        is_help(argument) <==> argument == "-h"@ || argument == "--help"@,
        is_version(argument) <==> argument == "-V"@ || argument == "--version"@,
        asks_for_help(arguments, from) <==> exists|i: int|
            from <= i < arguments.len() && ((#[trigger] arguments[i])@ == "-h"@ || arguments[i]@
                == "--help"@),
{
    if exists|i: int|
        from <= i < arguments.len() && ((#[trigger] arguments[i])@ == "-h"@ || arguments[i]@
            == "--help"@) {
        let i = choose|i: int|
            from <= i < arguments.len() && ((#[trigger] arguments[i])@ == "-h"@ || arguments[i]@
                == "--help"@);
        assert(is_help(arguments[i]@));
    }
}

/// The value of an option is what stands behind its last use, and there is none only where the
/// option is not used. Options stand at every second place.
pub proof fn law_the_last_use_of_an_option_counts(
    arguments: Seq<String>,
    from: int,
    name: Seq<char>,
)
    requires
        0 <= from,
    ensures
        match last_value(arguments, from, name) {
            Some(value) => exists|k: int|
                0 <= k && from + 2 * k < arguments.len() && #[trigger] option_at(arguments, from, k)
                    == name && arguments[from + 2 * k]@ == name && value == arguments[from + 2 * k
                    + 1]@ && (forall|j: int|
                    k < j && from + 2 * j < arguments.len() ==> #[trigger] option_at(
                        arguments,
                        from,
                        j,
                    ) != name),
            None => forall|j: int|
                0 <= j && from + 2 * j < arguments.len() ==> #[trigger] option_at(
                    arguments,
                    from,
                    j,
                ) != name,
        },
        forall|j: int|
            0 <= j ==> #[trigger] option_at(arguments, from, j) == arguments[from + 2 * j]@,
        forall|j: int|
            0 <= j ==> (#[trigger] option_at(arguments, from, j) == arguments[from + 2 * j]@ && (j
                < option_places(arguments, from) <==> from + 2 * j < arguments.len())),
{
    let places = option_places(arguments, from);
    assert forall|j: int|
        0 <= j && from + 2 * j < arguments.len() implies 0 <= j < places && #[trigger] option_at(
        arguments,
        from,
        j,
    ) == arguments[from + 2 * j]@ by {}
    lemma_value_so_far(arguments, from, name, places);
    if exists|k: int| is_last_use(arguments, from, name, k) {
        let k = choose|k: int| is_last_use(arguments, from, name, k);
        assert(option_at(arguments, from, k) == name);
    } else {
        assert forall|j: int|
            0 <= j && from + 2 * j < arguments.len() implies #[trigger] option_at(
            arguments,
            from,
            j,
        ) != name by {
            if option_at(arguments, from, j) == name {
                lemma_some_last_use(arguments, from, name, j);
            }
        }
    }
}

proof fn lemma_some_last_use(arguments: Seq<String>, from: int, name: Seq<char>, j: int)
    requires
        0 <= j < option_places(arguments, from),
        option_at(arguments, from, j) == name,
    ensures
        exists|k: int| is_last_use(arguments, from, name, k),
    decreases option_places(arguments, from) - j,
{
    if is_last_use(arguments, from, name, j) {
    } else {
        let later = choose|later: int|
            j < later < option_places(arguments, from) && #[trigger] option_at(
                arguments,
                from,
                later,
            ) == name;
        lemma_some_last_use(arguments, from, name, later);
    }
}

/// A command line of `init` is accepted exactly where every option is known and has a value and the
/// data directory is named; it then says the last value of each option, or the default.
pub proof fn law_init_reads_its_options(
    result: Result<InitOptions, String>,
    arguments: Seq<String>,
    from: int,
    default_config: Seq<char>,
)
    requires
        0 <= from <= arguments.len(),
        is_init_request(result, arguments, from, default_config),
    ensures
        ({
            let known = forall|k: int|
                0 <= k < option_places(arguments, from) ==> (#[trigger] option_at(
                    arguments,
                    from,
                    k,
                ) == "--data-dir"@ || option_at(arguments, from, k) == "--config"@ || option_at(
                    arguments,
                    from,
                    k,
                ) == "--listen"@);
            let valued = (arguments.len() - from) % 2 == 0;
            let directory = last_value(arguments, from, "--data-dir"@);
            &&& result is Ok <==> known && valued && directory is Some
            &&& result matches Ok(options) ==> {
                &&& Some(options.data_directory@) == directory
                &&& last_value(arguments, from, "--config"@) matches Some(path)
                    ==> options.config_path@ == path
                &&& last_value(arguments, from, "--config"@) is None ==> options.config_path@
                    == default_config
                &&& last_value(arguments, from, "--listen"@) matches Some(listen)
                    ==> options.listen@ == listen
                &&& last_value(arguments, from, "--listen"@) is None ==> options.listen@
                    == "127.0.0.1:7878"@
            }
            &&& result matches Err(message) ==> {
                &&& known && valued ==> message@ == "init requires --data-dir PATH"@
                &&& known && !valued ==> message@ == "option requires a value"@
                &&& !known ==> exists|k: int|
                    0 <= k < option_places(arguments, from) && message@ == "unknown "@ + "init"@
                        + " option `"@ + #[trigger] option_at(arguments, from, k) + "`"@ && (forall|
                        j: int,
                    |
                        0 <= j < k ==> known_init_options().contains(
                            #[trigger] option_at(arguments, from, j),
                        )) && option_at(arguments, from, k) != "--data-dir"@ && option_at(
                        arguments,
                        from,
                        k,
                    ) != "--config"@ && option_at(arguments, from, k) != "--listen"@
            }
        }),
{
    lemma_init_options();
    let known = known_init_options();
    if all_known(arguments, from, known) {
        assert forall|k: int| 0 <= k < option_places(arguments, from) implies (
        #[trigger] option_at(arguments, from, k) == "--data-dir"@ || option_at(arguments, from, k)
            == "--config"@ || option_at(arguments, from, k) == "--listen"@) by {
            assert(known.contains(option_at(arguments, from, k)));
        }
    } else {
        let j = choose|j: int|
            0 <= j < option_places(arguments, from) && !known.contains(
                #[trigger] option_at(arguments, from, j),
            );
        assert(!known.contains(option_at(arguments, from, j)));
    }
}

/// A command line of `serve` is accepted exactly where every option is `--config` and has a value; it
/// then says the last value, or the default.
pub proof fn law_serve_reads_its_options(
    result: Result<String, String>,
    arguments: Seq<String>,
    from: int,
    default_config: Seq<char>,
)
    requires
        0 <= from <= arguments.len(),
        is_serve_request(result, arguments, from, default_config),
    ensures
        ({
            let known = forall|k: int|
                0 <= k < option_places(arguments, from) ==> #[trigger] option_at(arguments, from, k)
                    == "--config"@;
            let valued = (arguments.len() - from) % 2 == 0;
            &&& result is Ok <==> known && valued
            &&& result matches Ok(path) ==> {
                &&& last_value(arguments, from, "--config"@) matches Some(given) ==> path@ == given
                &&& last_value(arguments, from, "--config"@) is None ==> path@ == default_config
            }
            &&& result matches Err(message) ==> {
                &&& known ==> message@ == "option requires a value"@
                &&& !known ==> exists|k: int|
                    0 <= k < option_places(arguments, from) && message@ == "unknown "@ + "serve"@
                        + " option `"@ + #[trigger] option_at(arguments, from, k) + "`"@
                        && option_at(arguments, from, k) != "--config"@ && (forall|j: int|
                        0 <= j < k ==> known_serve_options().contains(
                            #[trigger] option_at(arguments, from, j),
                        ))
            }
        }),
{
    lemma_init_options();
    let known = known_serve_options();
    if all_known(arguments, from, known) {
        assert forall|k: int| 0 <= k < option_places(arguments, from) implies #[trigger] option_at(
            arguments,
            from,
            k,
        ) == "--config"@ by {
            assert(known.contains(option_at(arguments, from, k)));
        }
    } else {
        let j = choose|j: int|
            0 <= j < option_places(arguments, from) && !known.contains(
                #[trigger] option_at(arguments, from, j),
            );
        assert(!known.contains(option_at(arguments, from, j)));
    }
}

/// The first argument decides what the daemon does. Help comes before everything, the version stands
/// alone, and within `init` and `serve` a wish for help comes before their options.
pub proof fn law_the_first_argument_decides(
    result: Result<DaemonCommand, String>,
    arguments: Seq<String>,
    default_config: Seq<char>,
)
    requires
        is_daemon_request(result, arguments, default_config),
    ensures
        ({
            let first = arguments[0]@;
            let helped = exists|i: int|
                1 <= i < arguments.len() && is_help((#[trigger] arguments[i])@);
            let shows_help = arguments.len() == 0 || is_help(first);
            let shows_version = !shows_help && is_version(first);
            let inits = !shows_help && !shows_version && first == "init"@;
            let serves = !shows_help && !shows_version && first == "serve"@;
            &&& (result is Ok && result->Ok_0 is Help) <==> shows_help
            &&& (result is Ok && result->Ok_0 is Version) <==> shows_version && arguments.len() == 1
            &&& (result is Ok && result->Ok_0 is InitHelp) <==> inits && helped
            &&& (result is Ok && result->Ok_0 is ServeHelp) <==> serves && helped
            &&& result is Ok && result->Ok_0 is Init ==> inits && !helped
            &&& result is Ok && result->Ok_0 is Serve ==> serves && !helped
            &&& result matches Ok(DaemonCommand::Init(options)) ==> is_init_request(
                Ok(options),
                arguments,
                1,
                default_config,
            )
            &&& result matches Ok(DaemonCommand::Serve(path)) ==> is_serve_request(
                Ok(path),
                arguments,
                1,
                default_config,
            )
            &&& result matches Err(error) ==> if shows_version {
                error@ == "--version does not accept arguments"@
            } else if inits {
                is_init_request(Err(error), arguments, 1, default_config)
            } else if serves {
                is_serve_request(Err(error), arguments, 1, default_config)
            } else {
                error@ == "unknown command `"@ + first + "`\n\n"@ + DAEMON_HELP@
            }
        }),
{
    reveal_strlit("-h");
    reveal_strlit("--help");
    reveal_strlit("-V");
    reveal_strlit("--version");
    reveal_strlit("init");
    reveal_strlit("serve");
    assert("-h"@.len() == 2 && "--help"@.len() == 6 && "-V"@.len() == 2 && "--version"@.len() == 9
        && "init"@.len() == 4 && "serve"@.len() == 5);
    assert("-h"@[1] == 'h' && "-V"@[1] == 'V');
}

proof fn lemma_digits_are_text_value(digits: Seq<char>)
    requires
        forall|i: int| 0 <= i < digits.len() ==> '0' <= #[trigger] digits[i] <= '9',
    ensures
        digits_value(digits) == text_value(digits, 10),
    decreases digits.len(),
{
    if digits.len() > 0 {
        assert forall|i: int| 0 <= i < digits.drop_last().len() implies '0'
            <= #[trigger] digits.drop_last()[i] <= '9' by {
            assert(digits.drop_last()[i] == digits[i]);
        }
        lemma_digits_are_text_value(digits.drop_last());
        assert('0' <= digits[digits.len() - 1] <= '9');
    }
}

proof fn lemma_decimal_digits(number: nat)
    ensures
        is_digits(number_text(number, 10)),
    decreases number,
{
    let text = number_text(number, 10);
    if number >= 10 {
        lemma_decimal_digits(number / 10);
        let front = number_text(number / 10, 10);
        assert forall|i: int| 0 <= i < text.len() implies '0' <= #[trigger] text[i] <= '9' by {
            if i < front.len() {
                assert(text[i] == front[i]);
            }
        }
    }
}

/// A number is read as it is written: every 64-bit number reads back from its decimal digits, with or
/// without a plus sign in front, and what holds anything but digits behind the sign, or none, is no
/// number.
pub proof fn law_numbers_are_read_as_written(number: u64, text: Seq<char>)
    ensures
        number_value(decimal_text(number as nat)) == Some(number),
        number_value(seq!['+'] + decimal_text(number as nat)) == Some(number),
        number_value(text) is Some ==> ({
            let digits = if text.len() > 0 && text[0] == '+' {
                text.skip(1)
            } else {
                text
            };
            &&& digits.len() > 0
            &&& forall|i: int| 0 <= i < digits.len() ==> '0' <= #[trigger] digits[i] <= '9'
            &&& number_value(text)->0 as nat == text_value(digits, 10)
        }),
        number_error_text(text) == "`"@ + text + "` is not a valid non-negative integer"@,
{
    let digits = decimal_text(number as nat);
    law_numbers_read_back(number as nat, 10);
    lemma_decimal_digits(number as nat);
    lemma_digits_are_text_value(digits);
    assert('0' <= digits[0] <= '9');
    let signed = seq!['+'] + digits;
    assert(signed[0] == '+');
    assert(signed.drop_first() =~= digits);
    if number_value(text) is Some {
        assert(text.skip(1) =~= text.drop_first());
        lemma_digits_are_text_value(unsigned_digits(text));
    }
}

/// A server's option is faulty exactly where it has no value, is not known, or wants a number and has
/// none; what is wrong names the option or the value.
pub proof fn law_server_options_are_judged(arguments: Seq<String>, k: int)
    requires
        0 <= k < option_places(arguments, 0),
    ensures
        ({
            let option = arguments[2 * k]@;
            let text = option == "--database"@ || option == "--api-key"@ || option == "--listen"@;
            let number = option == "--timeout-ms"@ || option == "--max-rows"@ || option
                == "--max-memory-bytes"@ || option == "--max-operations"@ || option
                == "--max-traversals"@;
            let valued = 2 * k + 1 < arguments.len();
            let fault = server_option_fault(arguments, k);
            &&& fault is None <==> valued && (text || (number && number_value(
                arguments[2 * k + 1]@,
            ) is Some))
            &&& fault matches Some(message) ==> message == (if !valued {
                option + " requires a value"@
            } else if number {
                "`"@ + arguments[2 * k + 1]@ + "` is not a valid non-negative integer"@
            } else {
                "unknown option `"@ + option + "`"@
            })
        }),
{
    lemma_server_options_differ();
}

/// A server is invoked exactly where every option is good and both the database and a key are named,
/// the key by an option or, without one, by the environment. It is then configured as the last value
/// of each option says, and else by the defaults.
pub proof fn law_servers_are_invoked_as_asked(
    result: Result<Option<ServerInvocation>, String>,
    arguments: Seq<String>,
    api_key: Option<Seq<char>>,
)
    requires
        is_server_request(result, arguments, api_key),
        !asks_for_help(arguments, 0),
    ensures
        ({
            let good = forall|k: int|
                0 <= k < option_places(arguments, 0) ==> (#[trigger] server_option_fault(
                    arguments,
                    k,
                )) is None;
            let database = last_value(arguments, 0, "--database"@);
            let key = last_value(arguments, 0, "--api-key"@);
            &&& result is Ok <==> good && database is Some && (key is Some || api_key is Some)
            &&& result matches Ok(invoked) ==> invoked is Some && {
                let invocation = invoked->0;
                let config = invocation.config;
                &&& Some(config.database_path@) == database
                &&& key is Some ==> Some(config.api_key@) == key
                &&& key is None ==> Some(config.api_key@) == api_key
                &&& last_value(arguments, 0, "--listen"@) matches Some(listen)
                    ==> invocation.listen@ == listen
                &&& last_value(arguments, 0, "--listen"@) is None ==> invocation.listen@
                    == "127.0.0.1:7878"@
                &&& config.query_timeout@ == number_or(arguments, "--timeout-ms"@, 30_000)
                    * 1_000_000
                &&& config.query_limits.max_rows == number_or(arguments, "--max-rows"@, 10_000)
                &&& config.query_limits.max_memory_bytes == number_or(
                    arguments,
                    "--max-memory-bytes"@,
                    67_108_864,
                )
                &&& config.query_limits.max_operations == number_or(
                    arguments,
                    "--max-operations"@,
                    10_000_000,
                )
                &&& config.query_limits.max_traversals == number_or(
                    arguments,
                    "--max-traversals"@,
                    1_000_000,
                )
                &&& config.request_body_bytes == 1_048_576
                &&& config.snapshot_body_bytes == 1_073_741_824
                &&& config.max_sessions == 1024
                &&& config.max_transaction_statements == 1000
            }
            &&& result matches Err(message) ==> {
                &&& good && database is None ==> message@ == "--database is required"@
                &&& good && database is Some ==> message@
                    == "--api-key or NOSTDB_API_KEY is required"@
                &&& !good ==> exists|k: int|
                    0 <= k < option_places(arguments, 0) && #[trigger] server_option_fault(
                        arguments,
                        k,
                    ) == Some(message@) && forall|j: int|
                        0 <= j < k ==> (#[trigger] server_option_fault(arguments, j)) is None
            }
        }),
{
    if exists|k: int| is_first_fault(arguments, k) {
        let k = choose|k: int| #[trigger]
            is_first_fault(arguments, k) && (result matches Err(message) && Some(message@)
                == server_option_fault(arguments, k));
        assert(server_option_fault(arguments, k) is Some);
    } else {
        assert forall|k: int| 0 <= k < option_places(arguments, 0) implies (
        #[trigger] server_option_fault(arguments, k)) is None by {
            if server_option_fault(arguments, k) is Some {
                lemma_some_first_fault(arguments, k);
            }
        }
    }
}

proof fn lemma_some_first_fault(arguments: Seq<String>, k: int)
    requires
        0 <= k < option_places(arguments, 0),
        server_option_fault(arguments, k) is Some,
    ensures
        exists|j: int| is_first_fault(arguments, j),
    decreases k,
{
    if is_first_fault(arguments, k) {
    } else {
        let j = choose|j: int|
            0 <= j < k && (#[trigger] server_option_fault(arguments, j)) is Some;
        lemma_some_first_fault(arguments, j);
    }
}

/// The number that the last use of an option gives, or the default.
pub open spec fn number_or(arguments: Seq<String>, name: Seq<char>, default: u64) -> int {
    let value = last_value(arguments, 0, name);
    if value is Some && number_value(value->0) is Some {
        number_value(value->0)->0 as int
    } else {
        default as int
    }
}

/// Options of the server are seen as they were given, each under its own name.
pub proof fn law_server_options_are_seen_as_given(arguments: ServerArguments)
    ensures
        arguments.database is None <==> arguments@.database is None,
        arguments.database matches Some(path) ==> arguments@.database == Some(path@),
        arguments.api_key is None <==> arguments@.api_key is None,
        arguments.api_key matches Some(key) ==> arguments@.api_key == Some(key@),
        arguments@.listen == arguments.listen@,
        arguments@.timeout_ms == arguments.timeout_ms,
        arguments@.max_rows == arguments.max_rows,
        arguments@.max_memory_bytes == arguments.max_memory_bytes,
        arguments@.max_operations == arguments.max_operations,
        arguments@.max_traversals == arguments.max_traversals,
{
}

/// Options stand at every second place, beginning with the first, and each has a value exactly where
/// the arguments come in pairs.
pub proof fn law_options_stand_at_every_second_place(arguments: Seq<String>, from: int, k: int)
    requires
        0 <= from <= arguments.len(),
        k >= 0,
    ensures
        k < option_places(arguments, from) <==> from + 2 * k < arguments.len(),
        option_at(arguments, from, k) == arguments[from + 2 * k]@,
        all_valued(arguments, from) <==> (arguments.len() - from) % 2 == 0,
        all_valued(arguments, from) && k < option_places(arguments, from) ==> from + 2 * k + 1
            < arguments.len(),
{
}

} // verus!
