use trackhound::config::sqlite_file_path;
use trackhound::config::{lenient_settings_from_vars, settings_from_vars, Cli, Command};
use trackhound::number::IntErrorKind;
use trackhound::config::ConfigError;

fn vars(pairs: &[(&str, &str)]) -> Vec<(String, String)> {
    pairs.iter().map(|(k, v)| (k.to_string(), v.to_string())).collect()
}

#[test]
fn config_requires_imap_credentials_but_not_oauth_credentials() {
    let env = vars(&[
        ("OPENAI_API_KEY", "openai"),
        ("GMAIL_IMAP_USERNAME", "kirill@example.com"),
        ("GMAIL_IMAP_PASSWORD", "app-password"),
        ("TRACK17_SECURITY_KEY", "track17"),
    ]);

    let cfg = settings_from_vars(&env).unwrap();

    assert_eq!(cfg.gmail_imap_host, "imap.gmail.com");
    assert_eq!(cfg.gmail_imap_port, 993);
    assert_eq!(cfg.gmail_imap_username, "kirill@example.com");
    assert_eq!(cfg.openai_url, "https://api.openai.com/v1/chat/completions");
}

#[test]
fn config_accepts_custom_openai_url() {
    let env = vars(&[
        ("OPENAI_API_KEY", "openai"),
        ("TRACKHOUND_OPENAI_URL", "http://openai-compatible.local/v1/chat/completions"),
        ("GMAIL_IMAP_USERNAME", "kirill@example.com"),
        ("GMAIL_IMAP_PASSWORD", "app-password"),
        ("TRACK17_SECURITY_KEY", "track17"),
    ]);

    let cfg = settings_from_vars(&env).unwrap();

    assert_eq!(cfg.openai_url, "http://openai-compatible.local/v1/chat/completions");
}

#[test]
fn config_rejects_missing_imap_password() {
    let env = vars(&[
        ("OPENAI_API_KEY", "openai"),
        ("GMAIL_IMAP_USERNAME", "kirill@example.com"),
        ("TRACK17_SECURITY_KEY", "track17"),
    ]);

    let err = settings_from_vars(&env).unwrap_err().message();

    assert!(err.contains("GMAIL_IMAP_PASSWORD"));
}

#[test]
fn defaults_and_number_errors() {
    let base = [
        ("OPENAI_API_KEY", "k"),
        ("GMAIL_IMAP_USERNAME", "u"),
        ("GMAIL_IMAP_PASSWORD", "p"),
        ("TRACK17_SECURITY_KEY", "t"),
    ];
    let cfg = settings_from_vars(&vars(&base)).unwrap();
    assert_eq!(cfg.database_url, "sqlite:///data/trackhound.sqlite");
    assert_eq!(cfg.bind_addr, "0.0.0.0:8080");
    assert_eq!(cfg.gmail_scan_interval_secs, 1800);
    assert_eq!(cfg.track17_sync_interval_secs, 3600);
    assert_eq!(cfg.openai_model, "gpt-4.1-nano");
    assert_eq!(cfg.gmail_imap_mailbox, "INBOX");
    assert!(cfg.gmail_query.starts_with("newer_than:14d"));

    let mut bad = vars(&base);
    bad.push(("GMAIL_IMAP_PORT".into(), "70000".into()));
    match settings_from_vars(&bad) {
        Err(ConfigError::InvalidNumber { key, kind }) => {
            assert_eq!(key, "GMAIL_IMAP_PORT");
            assert_eq!(kind, IntErrorKind::PosOverflow);
        }
        other => panic!("unexpected {other:?}"),
    }
    // the scan interval is read before the missing key is noticed
    let first = vars(&[("TRACKHOUND_GMAIL_SCAN_INTERVAL_SECONDS", "")]);
    let err = settings_from_vars(&first).unwrap_err();
    assert_eq!(err.message(), "cannot parse integer from empty string");
    let missing = settings_from_vars(&vars(&[])).unwrap_err();
    assert_eq!(missing.message(), "missing required env var OPENAI_API_KEY");
}

#[test]
fn lenient_settings_need_no_secrets() {
    let cfg = lenient_settings_from_vars(&vars(&[("GMAIL_IMAP_PORT", "143")])).unwrap();
    assert_eq!(cfg.gmail_imap_port, 143);
    assert_eq!(cfg.openai_api_key, "");
    assert_eq!(cfg.gmail_query, "");
    assert_eq!(cfg.gmail_scan_interval_secs, 1800);
    let err = lenient_settings_from_vars(&vars(&[("GMAIL_IMAP_PORT", "x")])).unwrap_err();
    assert_eq!(err.message(), "invalid digit found in string");
}

#[test]
fn command_defaults_to_serve() {
    assert_eq!(Cli { command: None }.command_or_serve(), Command::Serve);
    assert_eq!(Cli { command: Some(Command::Scan) }.command_or_serve(), Command::Scan);
    assert!(!Command::Migrate.needs_credentials());
    assert!(Command::Sync.needs_credentials());
}

#[test]
fn sqlite_file_paths() {
    assert_eq!(
        sqlite_file_path("sqlite:///data/trackhound.sqlite").as_deref(),
        Some("/data/trackhound.sqlite")
    );
    assert_eq!(sqlite_file_path("sqlite://./trackhound.sqlite").as_deref(), Some("./trackhound.sqlite"));
    assert_eq!(sqlite_file_path("sqlite://:memory:"), None);
    assert_eq!(sqlite_file_path("sqlite::memory:"), None);
    assert_eq!(sqlite_file_path("postgres://db"), None);
    assert_eq!(sqlite_file_path("sqlite://").as_deref(), Some(""));
}
