use csshd::commands::login::{login_helpdesk, poll_interval_secs, timed_out};
use csshd::config::{config_path, insecure_warning, resolve_helpdesk, tidy_url_text, Config, ConfigError};

fn cfg_with(url: Option<&str>) -> Config {
    Config {
        helpdesk: url.map(str::to_string),
        last_user: None,
    }
}

#[test]
fn cli_flag_wins_and_trailing_slash_is_stripped() {
    let got = resolve_helpdesk(
        Some("https://flag.example.com/".into()),
        None,
        &cfg_with(Some("https://config.example.com")),
    )
    .unwrap();
    assert_eq!(got, "https://flag.example.com");
}

#[test]
fn falls_back_to_config() {
    let got = resolve_helpdesk(None, None, &cfg_with(Some("https://config.example.com"))).unwrap();
    assert_eq!(got, "https://config.example.com");
}

#[test]
fn missing_url_is_an_error_that_names_the_fix() {
    let err = resolve_helpdesk(None, None, &cfg_with(None))
        .unwrap_err()
        .message();
    assert!(
        err.contains("csshd login --helpdesk"),
        "unhelpful error: {err}"
    );
}

#[test]
fn garbage_url_is_rejected() {
    assert!(resolve_helpdesk(Some("not a url".into()), None, &cfg_with(None)).is_err());
}

#[test]
fn environment_comes_between_flag_and_config() {
    let got = resolve_helpdesk(
        None,
        Some("  https://env.example.com// ".into()),
        &cfg_with(Some("https://config.example.com")),
    )
    .unwrap();
    assert_eq!(got, "https://env.example.com");
}

#[test]
fn invalid_url_error_names_the_trimmed_url() {
    let err = resolve_helpdesk(Some(" not a url/ ".into()), None, &cfg_with(None)).unwrap_err();
    assert_eq!(err, ConfigError::InvalidUrl("not a url".to_string()));
    assert_eq!(err.message(), "invalid helpdesk URL: not a url");
}

#[test]
fn tidy_url_keeps_inner_slashes() {
    assert_eq!(tidy_url_text("\thttps://a.example.com/x///\n"), "https://a.example.com/x");
    assert_eq!(tidy_url_text("///"), "");
}

#[test]
fn plaintext_url_gets_a_warning() {
    assert_eq!(
        insecure_warning("http://lab.local").unwrap(),
        "warning: http://lab.local is not HTTPS — your CLI token will be sent in cleartext on every request."
    );
    assert_eq!(insecure_warning("https://lab.local"), None);
}

#[test]
fn config_file_is_named_config_toml() {
    if let Ok(p) = config_path() {
        assert!(p.ends_with("config.toml"));
    }
}

#[test]
fn default_config_is_empty() {
    let c = Config::default();
    assert_eq!(c.helpdesk, None);
    assert_eq!(c.last_user, None);
}

#[test]
fn login_prefers_the_argument_and_tidies_it() {
    let got = login_helpdesk(Some(" https://h.example.com/ ".into()), &cfg_with(Some("https://c.example.com"))).unwrap();
    assert_eq!(got, "https://h.example.com");
    let got = login_helpdesk(None, &cfg_with(Some("https://c.example.com"))).unwrap();
    assert_eq!(got, "https://c.example.com");
}

#[test]
fn first_login_needs_a_url() {
    let err = login_helpdesk(None, &cfg_with(None)).unwrap_err();
    assert!(err.starts_with("First login — pass --helpdesk <url>"));
    let err = login_helpdesk(Some("nope".into()), &cfg_with(None)).unwrap_err();
    assert_eq!(err, "invalid URL: nope");
}

#[test]
fn polling_waits_at_least_two_seconds() {
    assert_eq!(poll_interval_secs(0), 2);
    assert_eq!(poll_interval_secs(1), 2);
    assert_eq!(poll_interval_secs(5), 5);
    assert!(!timed_out(10, 1, 1_000_000_009));
    assert!(timed_out(10, 1, 1_000_000_010));
}

#[test]
fn kept_urls_never_end_in_a_slash() {
    for raw in ["https://a.example.com/", " https://a.example.com// ", "x/ /", "/", "a"] {
        assert!(!tidy_url_text(raw).ends_with('/'), "{raw:?}");
    }
}

#[test]
fn config_file_sits_in_the_found_directory() {
    let p = csshd::config::config_file_in(Some(std::path::PathBuf::from("/cfg/csshd"))).unwrap();
    assert_eq!(p, std::path::PathBuf::from("/cfg/csshd/config.toml"));
    assert_eq!(csshd::config::config_file_in(None), Err(ConfigError::NoConfigDir));
}

#[test]
fn configuration_is_looked_up_under_the_project_names() {
    assert_eq!(csshd::config::project_names(), ("org", "css-md", "csshd"));
}
