//! `csshd login`: which helpdesk to sign in to, and what to say afterwards.

use vstd::prelude::*;

use crate::client::TokenResponse;
use crate::config::{parses_as_url, tidy_url, tidy_url_text, url_parses, Config};
use crate::text::{concat, string_of};
use crate::time::{chrono_formatted, format_instant, Timestamp};

verus! {

broadcast use vstd::string::group_string_axioms;

pub open spec fn first_login_text() -> Seq<char> {
    "First login — pass --helpdesk <url> (e.g. https://helpdesk.example.com).\nSubsequent logins remember the URL."@
}

/// The helpdesk to sign in to: the `--helpdesk` argument, trimmed and
/// without trailing slashes, else the configured one; it must parse as a URL.
pub open spec fn login_target(arg: Option<String>, cfg: Config) -> Result<Seq<char>, Seq<char>> {
    let chosen = match arg {
        Some(u) => Some(tidy_url(u@)),
        None => match cfg.helpdesk {
            Some(h) => Some(h@),
            None => None,
        },
    };
    match chosen {
        None => Err(first_login_text()),
        Some(h) => if url_parses(h) {
            Ok(h)
        } else {
            Err("invalid URL: "@ + h)
        },
    }
}

/// Chooses and checks the helpdesk URL for `csshd login`.
pub fn login_helpdesk(arg: Option<String>, cfg: &Config) -> (r: Result<String, String>)
    ensures
        match login_target(arg, *cfg) {
            Ok(h) => r is Ok && r->Ok_0@ == h,
            Err(e) => r is Err && r->Err_0@ == e,
        },
{
    let helpdesk = match arg {
        Some(u) => tidy_url_text(u.as_str()),
        None => match &cfg.helpdesk {
            Some(h) => h.clone(),
            None => {
                return Err(
                    string_of(
                        "First login — pass --helpdesk <url> (e.g. https://helpdesk.example.com).\nSubsequent logins remember the URL.",
                    ),
                );
            },
        },
    };
    if parses_as_url(helpdesk.as_str()) {
        Ok(helpdesk)
    } else {
        Err(concat("invalid URL: ", helpdesk.as_str()))
    }
}

/// What is printed once signed in: the user's name (or email), the email,
/// and the day the token expires.
pub open spec fn signed_in_text(
    name: Option<String>,
    email: Seq<char>,
    expires: Timestamp,
) -> Seq<char> {
    "Signed in as "@ + (match name {
        Some(n) => n@,
        None => email,
    }) + " ("@ + email + "). Token expires "@ + chrono_formatted(
        expires.secs as int,
        expires.nanos as int,
        "%b %d, %Y"@,
    ) + "."@
}

/// The message after a successful login.
pub fn signed_in_message(name: Option<String>, email: &str, expires: Timestamp) -> (r: String)
    requires
        expires.wf(),
    ensures
        r@ == signed_in_text(name, email@, expires),
{
    let who = match &name {
        Some(n) => n.clone(),
        None => string_of(email),
    };
    let a = concat("Signed in as ", who.as_str());
    let b = concat(a.as_str(), " (");
    let c = concat(b.as_str(), email);
    let d = concat(c.as_str(), "). Token expires ");
    let day = format_instant(expires, "%b %d, %Y");
    let e = concat(d.as_str(), day.as_str());
    concat(e.as_str(), ".")
}

/// How long to wait between polls: the server's interval, but at least two
/// seconds.
pub fn poll_interval_secs(interval: u32) -> (r: u64)
    ensures
        r == (if interval < 2 {
            2
        } else {
            interval
        }),
{
    if interval < 2 {
        2
    } else {
        interval as u64
    }
}

/// Whether the login has run out of time at `now` (all in nanoseconds on one
/// clock): the deadline is `expires_in` seconds after `started`.
pub open spec fn login_timed_out(started: u64, expires_in: u32, now: u64) -> bool {
    now >= started + expires_in * 1_000_000_000
}

/// Whether the login has run out of time.
pub fn timed_out(started: u64, expires_in: u32, now: u64) -> (r: bool)
    ensures
        r == login_timed_out(started, expires_in, now),
{
    let window: u128 = expires_in as u128 * 1_000_000_000;
    now as u128 >= started as u128 + window
}

/// The error when the approval did not come in time.
pub fn timeout_message() -> (r: String)
    ensures
        r@ == "Timed out waiting for approval. Run `csshd login` to try again."@,
{
    string_of("Timed out waiting for approval. Run `csshd login` to try again.")
}

/// What the login does after one poll.
#[derive(Debug, Clone)]
pub enum LoginStep {
    /// The login was approved: the token is the result.
    Approved(TokenResponse),
    /// Not approved yet: wait and poll again.
    PollAgain,
    /// The login ends with this error.
    Failed(String),
}

/// The next step of the login after a poll answered `outcome`: a token ends
/// it, no answer yet polls again, and an error ends it as "login failed: …".
pub fn after_poll(outcome: Result<Option<TokenResponse>, String>) -> (r: LoginStep)
    ensures
        match outcome {
            Ok(Some(t)) => r == LoginStep::Approved(t),
            Ok(None) => r == LoginStep::PollAgain,
            Err(e) => r is Failed && r->Failed_0@ == "login failed: "@ + e@,
        },
{
    match outcome {
        Ok(Some(t)) => LoginStep::Approved(t),
        Ok(None) => LoginStep::PollAgain,
        Err(e) => LoginStep::Failed(concat("login failed: ", e.as_str())),
    }
}

} // verus!
