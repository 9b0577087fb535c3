//! Persistent CLI configuration: the helpdesk URL and the last signed-in
//! user, where the file lives, and how the helpdesk URL is chosen.
//!
//! Tokens never live here; they go to the OS keychain.

use vstd::prelude::*;

use crate::text::{
    chars_of, concat, starts_with, string_from, string_of, strip_trailing, strip_trailing_char,
    trim, trim_ws,
};

verus! {

broadcast use vstd::string::group_string_axioms;

/// The configuration file's contents.
#[derive(Debug, Clone)]
pub struct Config {
    /// Helpdesk base URL, e.g. https://helpdesk.example.com (no trailing slash).
    pub helpdesk: Option<String>,
    /// Last-known signed-in user, purely cosmetic, refreshed by `whoami`.
    pub last_user: Option<String>,
}

impl Default for Config {
    fn default() -> (c: Config)
        ensures
            c.helpdesk is None,
            c.last_user is None,
    {
        Config { helpdesk: None, last_user: None }
    }
}

/// Why a configuration lookup failed.
#[derive(Debug, Clone, PartialEq, Eq)]
pub enum ConfigError {
    /// No per-user configuration directory could be determined.
    NoConfigDir,
    /// No helpdesk URL was given by flag, environment or file.
    NoHelpdesk,
    /// The helpdesk URL (after trimming) does not parse as a URL.
    InvalidUrl(String),
}

impl ConfigError {
    pub open spec fn text(&self) -> Seq<char> {
        match self {
            ConfigError::NoConfigDir => "Could not resolve a config directory for this user"@,
            ConfigError::NoHelpdesk => "No helpdesk URL configured. Run `csshd login --helpdesk <url>` to set one."@,
            ConfigError::InvalidUrl(u) => "invalid helpdesk URL: "@ + u@,
        }
    }

    /// The message shown to the user.
    pub fn message(&self) -> (r: String)
        ensures
            r@ == self.text(),
    {
        match self {
            ConfigError::NoConfigDir => string_of(
                "Could not resolve a config directory for this user",
            ),
            ConfigError::NoHelpdesk => string_of(
                "No helpdesk URL configured. Run `csshd login --helpdesk <url>` to set one.",
            ),
            ConfigError::InvalidUrl(u) => concat("invalid helpdesk URL: ", u.as_str()),
        }
    }
}

// ── URLs ────────────────────────────────────────────────────────────────

/// Whether `url::Url::parse` accepts the text.
pub uninterp spec fn url_parses(s: Seq<char>) -> bool;

/// `url::Url::parse(s).is_ok()`.
/// Trusted: the result is `url_parses` of the argument.
#[verifier::external_body]
pub(crate) fn parses_as_url(s: &str) -> (b: bool)
    ensures
        b == url_parses(s@),
{
    url::Url::parse(s).is_ok()
}

/// A URL as given, made canonical: surrounding whitespace and trailing slashes
/// removed.
pub open spec fn tidy_url(raw: Seq<char>) -> Seq<char> {
    strip_trailing(trim_ws(raw), '/')
}

/// `raw.trim().trim_end_matches('/')`.
pub fn tidy_url_text(raw: &str) -> (r: String)
    ensures
        r@ == tidy_url(raw@),
{
    let v = chars_of(raw);
    let t = trim(&v);
    let s = strip_trailing_char(&t, '/');
    string_from(&s)
}

/// The helpdesk URL chosen from the command-line flag, then the
/// `CSSHD_HELPDESK` environment variable, then the configuration file.
pub open spec fn chosen_helpdesk(
    cli: Option<String>,
    env: Option<String>,
    cfg: Config,
) -> Option<String> {
    match cli {
        Some(u) => Some(u),
        None => match env {
            Some(u) => Some(u),
            None => cfg.helpdesk,
        },
    }
}

proof fn lemma_strip_trailing_ends_otherwise(s: Seq<char>, c: char)
    ensures
        strip_trailing(s, c).len() > 0 ==> strip_trailing(s, c).last() != c,
    decreases s.len(),
{
    if s.len() > 0 && s.last() == c {
        lemma_strip_trailing_ends_otherwise(s.drop_last(), c);
    }
}

/// A helpdesk URL as it is kept never ends in `/`, so joining it with an API
/// path (which starts with `/`) never doubles the slash.
pub proof fn lemma_tidy_url_has_no_trailing_slash(raw: Seq<char>)
    ensures
        tidy_url(raw).len() > 0 ==> tidy_url(raw).last() != '/',
{
    lemma_strip_trailing_ends_otherwise(trim_ws(raw), '/');
}

/// `r` is what resolving the helpdesk URL gives: no URL given by flag,
/// environment or file is an error; else the chosen URL, trimmed and without
/// trailing slashes, if it parses as a URL, and an error naming it if not.
pub open spec fn helpdesk_resolved(
    cli: Option<String>,
    env: Option<String>,
    cfg: Config,
    r: Result<String, ConfigError>,
) -> bool {
    &&& chosen_helpdesk(cli, env, cfg) is None ==> r == Err::<String, ConfigError>(
        ConfigError::NoHelpdesk,
    )
    &&& chosen_helpdesk(cli, env, cfg) is Some ==> {
        let u = tidy_url(chosen_helpdesk(cli, env, cfg)->0@);
        &&& url_parses(u) ==> r is Ok && r->Ok_0@ == u
        &&& !url_parses(u) ==> r is Err && r->Err_0 == ConfigError::InvalidUrl(
            r->Err_0->InvalidUrl_0,
        ) && r->Err_0->InvalidUrl_0@ == u
    }
}

/// The URL `raw`, trimmed and without trailing slashes, is what resolving
/// gives: the URL itself when it parses, else the error naming it.
pub open spec fn resolves_to(raw: Seq<char>, r: Result<String, ConfigError>) -> bool {
    let u = strip_trailing(trim_ws(raw), '/');
    &&& url_parses(u) ==> r is Ok && r->Ok_0@ == u
    &&& !url_parses(u) ==> r is Err && r->Err_0 is InvalidUrl && r->Err_0->InvalidUrl_0@ == u
}

/// The `--helpdesk` flag wins: whatever `CSSHD_HELPDESK` and the config file
/// say, the result is the flag's URL, tidied (or the error naming it).
pub proof fn lemma_flag_wins(
    u: String,
    env: Option<String>,
    cfg: Config,
    r: Result<String, ConfigError>,
)
    requires
        helpdesk_resolved(Some(u), env, cfg, r),
    ensures
        resolves_to(u@, r),
{
}

/// Without the flag, `CSSHD_HELPDESK` wins over the config file.
pub proof fn lemma_environment_before_file(
    e: String,
    cfg: Config,
    r: Result<String, ConfigError>,
)
    requires
        helpdesk_resolved(None, Some(e), cfg, r),
    ensures
        resolves_to(e@, r),
{
}

/// The config file's URL is used only when neither the flag nor
/// `CSSHD_HELPDESK` gives one, and with none at all resolving fails with
/// `NoHelpdesk`.
pub proof fn lemma_file_last(cfg: Config, r: Result<String, ConfigError>)
    requires
        helpdesk_resolved(None, None, cfg, r),
    ensures
        cfg.helpdesk matches Some(h) ==> resolves_to(h@, r),
        cfg.helpdesk is None ==> r == Err::<String, ConfigError>(ConfigError::NoHelpdesk),
{
}

/// Two resolutions with the same flag give the same answer, whatever else
/// differs.
pub proof fn lemma_flag_decides_alone(
    u: String,
    env1: Option<String>,
    cfg1: Config,
    r1: Result<String, ConfigError>,
    env2: Option<String>,
    cfg2: Config,
    r2: Result<String, ConfigError>,
)
    requires
        helpdesk_resolved(Some(u), env1, cfg1, r1),
        helpdesk_resolved(Some(u), env2, cfg2, r2),
    ensures
        r1 is Ok <==> r2 is Ok,
        r1 is Ok ==> r1->Ok_0@ == r2->Ok_0@,
        r1 is Err ==> r1->Err_0 is InvalidUrl && r2->Err_0 is InvalidUrl
            && r1->Err_0->InvalidUrl_0@ == r2->Err_0->InvalidUrl_0@,
{
}

/// Resolves the helpdesk URL from CLI flag → environment → config: the first
/// one given, trimmed and without trailing slashes, if it parses as a URL.
/// `env` is the value of `CSSHD_HELPDESK`, if set.
pub fn resolve_helpdesk(cli: Option<String>, env: Option<String>, cfg: &Config) -> (r: Result<
    String,
    ConfigError,
>)
    ensures
        helpdesk_resolved(cli, env, *cfg, r),
{
    let raw = match cli {
        Some(u) => u,
        None => match env {
            Some(u) => u,
            None => match &cfg.helpdesk {
                Some(u) => u.clone(),
                None => {
                    return Err(ConfigError::NoHelpdesk);
                },
            },
        },
    };
    let trimmed = tidy_url_text(raw.as_str());
    if parses_as_url(trimmed.as_str()) {
        Ok(trimmed)
    } else {
        Err(ConfigError::InvalidUrl(trimmed))
    }
}

/// A warning to print when the helpdesk URL is plain `http://`: the bearer
/// token would cross the network in cleartext.
pub open spec fn insecure_warning_text(url: Seq<char>) -> Option<Seq<char>> {
    if starts_with(url, "http://"@) {
        Some(
            "warning: "@ + url
                + " is not HTTPS — your CLI token will be sent in cleartext on every request."@,
        )
    } else {
        None
    }
}

/// The warning for a plaintext helpdesk URL, if it is one.
pub fn insecure_warning(url: &str) -> (r: Option<String>)
    ensures
        r is Some <==> insecure_warning_text(url@) is Some,
        r is Some ==> insecure_warning_text(url@) == Some(r->0@),
{
    let v = chars_of(url);
    let p = chars_of("http://");
    if crate::text::has_prefix(&v, &p) {
        let a = concat("warning: ", url);
        Some(
            concat(
                a.as_str(),
                " is not HTTPS — your CLI token will be sent in cleartext on every request.",
            ),
        )
    } else {
        None
    }
}

// ── the file's place ────────────────────────────────────────────────────

#[verifier::external_type_specification]
#[verifier::external_body]
pub struct ExPathBuf(std::path::PathBuf);

/// The names the platform's directories are looked up under: qualifier
/// `org`, organization `css-md`, application `csshd`.
pub open spec fn project_names_of() -> (Seq<char>, Seq<char>, Seq<char>) {
    ("org"@, "css-md"@, "csshd"@)
}

/// The names the configuration directory is looked up under.
pub fn project_names() -> (r: (&'static str, &'static str, &'static str))
    ensures
        (r.0@, r.1@, r.2@) == project_names_of(),
{
    ("org", "css-md", "csshd")
}

/// `ProjectDirs::from(qualifier, organization, application)` then
/// `config_dir()`: the platform's per-user configuration directory for the
/// application.
/// Nothing is stated: the answer depends on the environment (home directory,
/// `XDG_CONFIG_HOME`, platform), and is `None` where no home directory is found.
#[verifier::external_body]
fn project_config_dir(qualifier: &str, organization: &str, application: &str) -> (r: Option<
    std::path::PathBuf,
>) {
    directories::ProjectDirs::from(qualifier, organization, application).map(
        |d| d.config_dir().to_path_buf(),
    )
}

/// What `Path::join(dir, name)` gives: `name` appended to `dir` as a new
/// component, with the platform's separator.
pub uninterp spec fn path_joined(dir: std::path::PathBuf, name: Seq<char>) -> std::path::PathBuf;

/// `Path::join(dir, name)`.
/// Trusted: the result is `path_joined` of the arguments; joining reads
/// nothing but them.
#[verifier::external_body]
fn join_path(dir: std::path::PathBuf, name: &str) -> (r: std::path::PathBuf)
    ensures
        r == path_joined(dir, name@),
{
    dir.join(name)
}

/// The configuration file's name.
pub open spec fn config_file_name() -> Seq<char> {
    "config.toml"@
}

/// The configuration file in a looked-up configuration directory:
/// `config.toml` inside it, or the error for a directory that could not be
/// determined.
pub fn config_file_in(dir: Option<std::path::PathBuf>) -> (r: Result<std::path::PathBuf, ConfigError>)
    ensures
        r is Ok <==> dir is Some,
        r is Ok ==> r->Ok_0 == path_joined(dir->0, config_file_name()),
        r is Err ==> r->Err_0 == ConfigError::NoConfigDir,
{
    match dir {
        Some(d) => Ok(join_path(d, "config.toml")),
        None => Err(ConfigError::NoConfigDir),
    }
}

/// Where the configuration file lives: `config.toml` in the platform's
/// configuration directory for `org` / `css-md` / `csshd`
/// (`$XDG_CONFIG_HOME/csshd` on Linux, `~/Library/Application Support/csshd`
/// on macOS, `%APPDATA%\csshd` on Windows), or an error when no directory can
/// be determined.
pub fn config_path() -> (r: Result<std::path::PathBuf, ConfigError>)
    ensures
        r is Ok ==> exists|d: std::path::PathBuf| r->Ok_0 == path_joined(d, config_file_name()),
        r is Err ==> r->Err_0 == ConfigError::NoConfigDir,
{
    let (qualifier, organization, application) = project_names();
    config_file_in(project_config_dir(qualifier, organization, application))
}

} // verus!
