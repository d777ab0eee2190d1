//! Command-line commands and the service settings read from environment
//! variables.

use vstd::prelude::*;
use crate::number::{
    int_error_text, parse_u16, parse_u16_spec, parse_u64, parse_u64_spec, IntErrorKind,
};
use crate::json::opt_string_view;
use crate::text::{has_prefix, same_text, starts_with};

verus! {

/// What the program is asked to do.
#[derive(Debug, Clone, Copy, PartialEq, Eq, Structural)]
pub enum Command {
    Serve,
    Scan,
    Sync,
    Migrate,
}

/// The parsed command line.
#[derive(Debug, Clone, Copy, PartialEq, Eq, Structural)]
pub struct Cli {
    pub command: Option<Command>,
}

impl Cli {
    /// The command to run: the one given, else `Serve`.
    pub fn command_or_serve(&self) -> (res: Command)
        ensures
            res == match self.command {
                Some(c) => c,
                None => Command::Serve,
            },
    {
        match self.command {
            Some(c) => c,
            None => Command::Serve,
        }
    }
}

impl Command {
    /// Whether the command runs with the lenient settings that need no
    /// credentials (only `Migrate` does).
    pub fn needs_credentials(&self) -> (res: bool)
        ensures
            res == !(*self == Command::Migrate),
    {
        match self {
            Command::Migrate => false,
            _ => true,
        }
    }
}

/// The service settings, with durations in seconds and the bind address as text.
#[derive(Debug, Clone)]
pub struct Settings {
    pub database_url: String,
    pub bind_addr: String,
    pub gmail_scan_interval_secs: u64,
    pub track17_sync_interval_secs: u64,
    pub gmail_query: String,
    pub openai_api_key: String,
    pub openai_model: String,
    pub openai_url: String,
    pub gmail_imap_host: String,
    pub gmail_imap_port: u16,
    pub gmail_imap_username: String,
    pub gmail_imap_password: String,
    pub gmail_imap_mailbox: String,
    pub track17_security_key: String,
}

/// Why settings cannot be read.
#[derive(Debug, Clone)]
pub enum ConfigError {
    /// A required variable is not set.
    Missing { key: String },
    /// A variable that must be a number is not one.
    InvalidNumber { key: String, kind: IntErrorKind },
}

/// The description of a settings error.
pub open spec fn config_error_text(e: ConfigErrorView) -> Seq<char> {
    match e {
        ConfigErrorView::Missing(key) => "missing required env var "@ + key,
        ConfigErrorView::InvalidNumber(_, kind) => int_error_text(kind),
    }
}

impl ConfigError {
    /// The description of the error: the missing variable's name, or how the
    /// number is malformed.
    pub fn message(&self) -> (res: String)
        ensures
            res@ == config_error_text(self@),
    {
        match self {
            ConfigError::Missing { key } => {
                let mut out = String::new();
                out.append("missing required env var ");
                out.append(key.as_str());
                assert(out@ =~= "missing required env var "@ + key@);
                out
            },
            ConfigError::InvalidNumber { kind, .. } => kind.message().to_owned(),
        }
    }
}

/// The plain content of a `ConfigError`.
pub enum ConfigErrorView {
    Missing(Seq<char>),
    InvalidNumber(Seq<char>, IntErrorKind),
}

impl View for ConfigError {
    type V = ConfigErrorView;

    open spec fn view(&self) -> ConfigErrorView {
        match self {
            ConfigError::Missing { key } => ConfigErrorView::Missing(key@),
            ConfigError::InvalidNumber { key, kind } => ConfigErrorView::InvalidNumber(
                key@,
                *kind,
            ),
        }
    }
}

/// The plain content of `Settings`.
pub struct SettingsView {
    pub database_url: Seq<char>,
    pub bind_addr: Seq<char>,
    pub gmail_scan_interval_secs: int,
    pub track17_sync_interval_secs: int,
    pub gmail_query: Seq<char>,
    pub openai_api_key: Seq<char>,
    pub openai_model: Seq<char>,
    pub openai_url: Seq<char>,
    pub gmail_imap_host: Seq<char>,
    pub gmail_imap_port: int,
    pub gmail_imap_username: Seq<char>,
    pub gmail_imap_password: Seq<char>,
    pub gmail_imap_mailbox: Seq<char>,
    pub track17_security_key: Seq<char>,
}

impl View for Settings {
    type V = SettingsView;

    open spec fn view(&self) -> SettingsView {
        SettingsView {
            database_url: self.database_url@,
            bind_addr: self.bind_addr@,
            gmail_scan_interval_secs: self.gmail_scan_interval_secs as int,
            track17_sync_interval_secs: self.track17_sync_interval_secs as int,
            gmail_query: self.gmail_query@,
            openai_api_key: self.openai_api_key@,
            openai_model: self.openai_model@,
            openai_url: self.openai_url@,
            gmail_imap_host: self.gmail_imap_host@,
            gmail_imap_port: self.gmail_imap_port as int,
            gmail_imap_username: self.gmail_imap_username@,
            gmail_imap_password: self.gmail_imap_password@,
            gmail_imap_mailbox: self.gmail_imap_mailbox@,
            track17_security_key: self.track17_security_key@,
        }
    }
}

/// The value of the first variable named `key`.
pub open spec fn var_lookup(vars: Seq<(String, String)>, key: Seq<char>) -> Option<Seq<char>>
    decreases vars.len(),
{
    if vars.len() == 0 {
        None
    } else if vars[0].0@ == key {
        Some(vars[0].1@)
    } else {
        var_lookup(vars.drop_first(), key)
    }
}

/// The value of `key`, or `default` where it is not set.
pub open spec fn var_or(vars: Seq<(String, String)>, key: Seq<char>, default: Seq<char>) -> Seq<
    char,
> {
    match var_lookup(vars, key) {
        Some(v) => v,
        None => default,
    }
}

/// The database location used where none is set.
pub open spec fn default_database_url() -> Seq<char> {
    "sqlite:///data/trackhound.sqlite"@
}

/// The listening address used where none is set.
pub open spec fn default_bind_addr() -> Seq<char> {
    "0.0.0.0:8080"@
}

/// The Gmail search used where none is set.
pub open spec fn default_gmail_query() -> Seq<char> {
    "newer_than:14d (shipment OR tracking OR package OR parcel OR delivery OR amazon OR dhl OR dpd OR ups OR fedex OR gls)"@
}

/// The first error that reading the full settings meets, in the order the
/// settings are read; nothing when all can be read.
pub open spec fn first_config_error(vars: Seq<(String, String)>) -> Option<ConfigErrorView> {
    let scan = parse_u64_spec(var_or(vars, "TRACKHOUND_GMAIL_SCAN_INTERVAL_SECONDS"@, "1800"@));
    let sync = parse_u64_spec(var_or(vars, "TRACKHOUND_TRACK17_SYNC_INTERVAL_SECONDS"@, "3600"@));
    let port = parse_u16_spec(var_or(vars, "GMAIL_IMAP_PORT"@, "993"@));
    if scan is Err {
        Some(
            ConfigErrorView::InvalidNumber(
                "TRACKHOUND_GMAIL_SCAN_INTERVAL_SECONDS"@,
                scan->Err_0,
            ),
        )
    } else if sync is Err {
        Some(
            ConfigErrorView::InvalidNumber(
                "TRACKHOUND_TRACK17_SYNC_INTERVAL_SECONDS"@,
                sync->Err_0,
            ),
        )
    } else if var_lookup(vars, "OPENAI_API_KEY"@) is None {
        Some(ConfigErrorView::Missing("OPENAI_API_KEY"@))
    } else if port is Err {
        Some(ConfigErrorView::InvalidNumber("GMAIL_IMAP_PORT"@, port->Err_0))
    } else if var_lookup(vars, "GMAIL_IMAP_USERNAME"@) is None {
        Some(ConfigErrorView::Missing("GMAIL_IMAP_USERNAME"@))
    } else if var_lookup(vars, "GMAIL_IMAP_PASSWORD"@) is None {
        Some(ConfigErrorView::Missing("GMAIL_IMAP_PASSWORD"@))
    } else if var_lookup(vars, "TRACK17_SECURITY_KEY"@) is None {
        Some(ConfigErrorView::Missing("TRACK17_SECURITY_KEY"@))
    } else {
        None
    }
}

/// The settings that the variables give, when `first_config_error` finds none.
pub open spec fn full_settings(vars: Seq<(String, String)>) -> SettingsView {
    SettingsView {
        database_url: var_or(vars, "TRACKHOUND_DATABASE_URL"@, default_database_url()),
        bind_addr: var_or(vars, "TRACKHOUND_BIND_ADDR"@, default_bind_addr()),
        gmail_scan_interval_secs: parse_u64_spec(
            var_or(vars, "TRACKHOUND_GMAIL_SCAN_INTERVAL_SECONDS"@, "1800"@),
        )->Ok_0,
        track17_sync_interval_secs: parse_u64_spec(
            var_or(vars, "TRACKHOUND_TRACK17_SYNC_INTERVAL_SECONDS"@, "3600"@),
        )->Ok_0,
        gmail_query: var_or(vars, "TRACKHOUND_GMAIL_QUERY"@, default_gmail_query()),
        openai_api_key: var_lookup(vars, "OPENAI_API_KEY"@)->0,
        openai_model: var_or(vars, "TRACKHOUND_OPENAI_MODEL"@, "gpt-4.1-nano"@),
        openai_url: var_or(
            vars,
            "TRACKHOUND_OPENAI_URL"@,
            "https://api.openai.com/v1/chat/completions"@,
        ),
        gmail_imap_host: var_or(vars, "GMAIL_IMAP_HOST"@, "imap.gmail.com"@),
        gmail_imap_port: parse_u16_spec(var_or(vars, "GMAIL_IMAP_PORT"@, "993"@))->Ok_0,
        gmail_imap_username: var_lookup(vars, "GMAIL_IMAP_USERNAME"@)->0,
        gmail_imap_password: var_lookup(vars, "GMAIL_IMAP_PASSWORD"@)->0,
        gmail_imap_mailbox: var_or(vars, "GMAIL_IMAP_MAILBOX"@, "INBOX"@),
        track17_security_key: var_lookup(vars, "TRACK17_SECURITY_KEY"@)->0,
    }
}

/// The settings for migrating the database, which need no credentials: fixed
/// intervals, and empty query and secrets.
pub open spec fn lenient_settings(vars: Seq<(String, String)>) -> SettingsView {
    SettingsView {
        database_url: var_or(vars, "TRACKHOUND_DATABASE_URL"@, default_database_url()),
        bind_addr: var_or(vars, "TRACKHOUND_BIND_ADDR"@, default_bind_addr()),
        gmail_scan_interval_secs: 1800,
        track17_sync_interval_secs: 3600,
        gmail_query: Seq::empty(),
        openai_api_key: Seq::empty(),
        openai_model: var_or(vars, "TRACKHOUND_OPENAI_MODEL"@, "gpt-4.1-nano"@),
        openai_url: var_or(
            vars,
            "TRACKHOUND_OPENAI_URL"@,
            "https://api.openai.com/v1/chat/completions"@,
        ),
        gmail_imap_host: var_or(vars, "GMAIL_IMAP_HOST"@, "imap.gmail.com"@),
        gmail_imap_port: parse_u16_spec(var_or(vars, "GMAIL_IMAP_PORT"@, "993"@))->Ok_0,
        gmail_imap_username: Seq::empty(),
        gmail_imap_password: Seq::empty(),
        gmail_imap_mailbox: var_or(vars, "GMAIL_IMAP_MAILBOX"@, "INBOX"@),
        track17_security_key: Seq::empty(),
    }
}

/// The value of the first variable named `key`.
pub fn lookup_var<'a>(vars: &'a Vec<(String, String)>, key: &str) -> (res: Option<&'a String>)
    ensures
        match res {
            Some(v) => var_lookup(vars@, key@) == Some(v@),
            None => var_lookup(vars@, key@) is None,
        },
{
    let mut i: usize = 0;
    assert(vars@.skip(0) == vars@);
    while i < vars.len()
        invariant
            i <= vars@.len(),
            var_lookup(vars@, key@) == var_lookup(vars@.skip(i as int), key@),
        decreases vars@.len() - i,
    {
        assert(vars@.skip(i as int)[0] == vars@[i as int]);
        assert(vars@.skip(i as int).drop_first() == vars@.skip(i + 1));
        if same_text(vars[i].0.as_str(), key) {
            return Some(&vars[i].1);
        }
        i = i + 1;
    }
    None
}

/// The value of `key`, or `default` where it is not set.
pub fn var_or_default(vars: &Vec<(String, String)>, key: &str, default: &str) -> (res: String)
    ensures
        res@ == var_or(vars@, key@, default@),
{
    match lookup_var(vars, key) {
        Some(v) => v.clone(),
        None => default.to_owned(),
    }
}

/// The value of a required variable.
fn required_var(vars: &Vec<(String, String)>, key: &str) -> (res: Result<String, ConfigError>)
    ensures
        match res {
            Ok(v) => var_lookup(vars@, key@) == Some(v@),
            Err(e) => var_lookup(vars@, key@) is None && e@ == ConfigErrorView::Missing(key@),
        },
{
    match lookup_var(vars, key) {
        Some(v) => Ok(v.clone()),
        None => Err(ConfigError::Missing { key: key.to_owned() }),
    }
}

/// A variable read as a `u64`, with a default.
fn u64_var(vars: &Vec<(String, String)>, key: &str, default: &str) -> (res: Result<u64, ConfigError>)
    ensures
        match res {
            Ok(n) => parse_u64_spec(var_or(vars@, key@, default@)) == Ok::<int, IntErrorKind>(
                n as int,
            ),
            Err(e) => parse_u64_spec(var_or(vars@, key@, default@)) is Err && e@
                == ConfigErrorView::InvalidNumber(
                key@,
                parse_u64_spec(var_or(vars@, key@, default@))->Err_0,
            ),
        },
{
    let text = var_or_default(vars, key, default);
    match parse_u64(text.as_str()) {
        Ok(n) => Ok(n),
        Err(kind) => Err(ConfigError::InvalidNumber { key: key.to_owned(), kind }),
    }
}

/// A variable read as a `u16`, with a default.
fn u16_var(vars: &Vec<(String, String)>, key: &str, default: &str) -> (res: Result<u16, ConfigError>)
    ensures
        match res {
            Ok(n) => parse_u16_spec(var_or(vars@, key@, default@)) == Ok::<int, IntErrorKind>(
                n as int,
            ),
            Err(e) => parse_u16_spec(var_or(vars@, key@, default@)) is Err && e@
                == ConfigErrorView::InvalidNumber(
                key@,
                parse_u16_spec(var_or(vars@, key@, default@))->Err_0,
            ),
        },
{
    let text = var_or_default(vars, key, default);
    match parse_u16(text.as_str()) {
        Ok(n) => Ok(n),
        Err(kind) => Err(ConfigError::InvalidNumber { key: key.to_owned(), kind }),
    }
}

/// Reads the full service settings from the variables (name, value): each
/// setting from its variable or its default; the intervals and the IMAP port
/// must be numbers, and the OpenAI key, IMAP user and password and 17TRACK
/// key must be set. The first failure, in that reading order, is the error.
pub fn settings_from_vars(vars: &Vec<(String, String)>) -> (res: Result<Settings, ConfigError>)
    ensures
        match res {
            Ok(s) => first_config_error(vars@) is None && s@ == full_settings(vars@),
            Err(e) => first_config_error(vars@) == Some(e@),
        },
{
    let database_url = var_or_default(
        vars,
        "TRACKHOUND_DATABASE_URL",
        "sqlite:///data/trackhound.sqlite",
    );
    let bind_addr = var_or_default(vars, "TRACKHOUND_BIND_ADDR", "0.0.0.0:8080");
    let gmail_scan_interval_secs = u64_var(vars, "TRACKHOUND_GMAIL_SCAN_INTERVAL_SECONDS", "1800")?;
    let track17_sync_interval_secs = u64_var(
        vars,
        "TRACKHOUND_TRACK17_SYNC_INTERVAL_SECONDS",
        "3600",
    )?;
    let gmail_query = var_or_default(
        vars,
        "TRACKHOUND_GMAIL_QUERY",
        "newer_than:14d (shipment OR tracking OR package OR parcel OR delivery OR amazon OR dhl OR dpd OR ups OR fedex OR gls)",
    );
    let openai_api_key = required_var(vars, "OPENAI_API_KEY")?;
    let openai_model = var_or_default(vars, "TRACKHOUND_OPENAI_MODEL", "gpt-4.1-nano");
    let openai_url = var_or_default(
        vars,
        "TRACKHOUND_OPENAI_URL",
        "https://api.openai.com/v1/chat/completions",
    );
    let gmail_imap_host = var_or_default(vars, "GMAIL_IMAP_HOST", "imap.gmail.com");
    let gmail_imap_port = u16_var(vars, "GMAIL_IMAP_PORT", "993")?;
    let gmail_imap_username = required_var(vars, "GMAIL_IMAP_USERNAME")?;
    let gmail_imap_password = required_var(vars, "GMAIL_IMAP_PASSWORD")?;
    let gmail_imap_mailbox = var_or_default(vars, "GMAIL_IMAP_MAILBOX", "INBOX");
    let track17_security_key = required_var(vars, "TRACK17_SECURITY_KEY")?;
    Ok(
        Settings {
            database_url,
            bind_addr,
            gmail_scan_interval_secs,
            track17_sync_interval_secs,
            gmail_query,
            openai_api_key,
            openai_model,
            openai_url,
            gmail_imap_host,
            gmail_imap_port,
            gmail_imap_username,
            gmail_imap_password,
            gmail_imap_mailbox,
            track17_security_key,
        },
    )
}

/// Reads the settings for migrating the database: no credentials are
/// needed, the intervals are fixed and the query and secrets are empty; only
/// the IMAP port can fail, when it is not a number.
pub fn lenient_settings_from_vars(vars: &Vec<(String, String)>) -> (res: Result<
    Settings,
    ConfigError,
>)
    ensures
        match res {
            Ok(s) => parse_u16_spec(var_or(vars@, "GMAIL_IMAP_PORT"@, "993"@)) is Ok && s@
                == lenient_settings(vars@),
            Err(e) => parse_u16_spec(var_or(vars@, "GMAIL_IMAP_PORT"@, "993"@)) is Err && e@
                == ConfigErrorView::InvalidNumber(
                "GMAIL_IMAP_PORT"@,
                parse_u16_spec(var_or(vars@, "GMAIL_IMAP_PORT"@, "993"@))->Err_0,
            ),
        },
{
    let database_url = var_or_default(
        vars,
        "TRACKHOUND_DATABASE_URL",
        "sqlite:///data/trackhound.sqlite",
    );
    let bind_addr = var_or_default(vars, "TRACKHOUND_BIND_ADDR", "0.0.0.0:8080");
    let openai_model = var_or_default(vars, "TRACKHOUND_OPENAI_MODEL", "gpt-4.1-nano");
    let openai_url = var_or_default(
        vars,
        "TRACKHOUND_OPENAI_URL",
        "https://api.openai.com/v1/chat/completions",
    );
    let gmail_imap_host = var_or_default(vars, "GMAIL_IMAP_HOST", "imap.gmail.com");
    let gmail_imap_port = u16_var(vars, "GMAIL_IMAP_PORT", "993")?;
    let gmail_imap_mailbox = var_or_default(vars, "GMAIL_IMAP_MAILBOX", "INBOX");
    Ok(
        Settings {
            database_url,
            bind_addr,
            gmail_scan_interval_secs: 1800,
            track17_sync_interval_secs: 3600,
            gmail_query: String::new(),
            openai_api_key: String::new(),
            openai_model,
            openai_url,
            gmail_imap_host,
            gmail_imap_port,
            gmail_imap_username: String::new(),
            gmail_imap_password: String::new(),
            gmail_imap_mailbox,
            track17_security_key: String::new(),
        },
    )
}


/// The file that an SQLite database URL names: the text after `sqlite://`;
/// nothing for other URLs and for the in-memory database.
pub open spec fn sqlite_file_path_of(url: Seq<char>) -> Option<Seq<char>> {
    if starts_with(url, "sqlite://"@) {
        let path = url.skip("sqlite://"@.len() as int);
        if path == ":memory:"@ {
            None
        } else {
            Some(path)
        }
    } else {
        None
    }
}

/// The file path of an SQLite database URL, whose directory must exist
/// before the database is opened; nothing for other URLs and `sqlite://:memory:`.
pub fn sqlite_file_path(database_url: &str) -> (res: Option<String>)
    ensures
        opt_string_view(res) == sqlite_file_path_of(database_url@),
{
    if !has_prefix(database_url, "sqlite://") {
        return None;
    }
    let n = database_url.unicode_len();
    let prefix_len = "sqlite://".unicode_len();
    let path = database_url.substring_char(prefix_len, n);
    assert(path@ =~= database_url@.skip("sqlite://"@.len() as int));
    if same_text(path, ":memory:") {
        None
    } else {
        Some(path.to_owned())
    }
}

} // verus!
