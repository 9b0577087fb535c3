//! The bearer token's place in the OS keychain: under which service and
//! account it is kept, and what the keychain's answers mean for it.
//!
//! The keychain is a hard requirement: when it cannot be reached the user
//! gets an error, never a plaintext fallback. A missing entry is no error: it
//! reads as "no token", and clearing it is already done.

use vstd::prelude::*;

use crate::text::{concat, string_of};

verus! {

/// Why a keychain operation did not succeed.
#[derive(Debug, Clone, PartialEq, Eq)]
pub enum KeychainError {
    /// No token is stored for the account.
    NoEntry,
    /// The keychain refused or could not be reached; the text says why.
    Failure(String),
}

/// The keychain service every token is stored under.
pub open spec fn service_name() -> Seq<char> {
    "csshd"@
}

/// The keychain service name.
pub fn keychain_service() -> (r: String)
    ensures
        r@ == service_name(),
{
    string_of("csshd")
}

/// `"keyring open (csshd / {helpdesk})"`: the context of an error opening
/// the keychain entry of a helpdesk (tokens are keyed by helpdesk URL).
pub fn open_context(helpdesk: &str) -> (r: String)
    ensures
        r@ == "keyring open ("@ + service_name() + " / "@ + helpdesk@ + ")"@,
{
    let a = concat("keyring open (", "csshd");
    let b = concat(a.as_str(), " / ");
    let c = concat(b.as_str(), helpdesk);
    concat(c.as_str(), ")")
}

/// The stored token after a keychain read: the password read, `None` when
/// there is no entry, and any other failure passed on.
pub fn loaded_token(read: Result<String, KeychainError>) -> (r: Result<Option<String>, KeychainError>)
    ensures
        match read {
            Ok(t) => r == Ok::<Option<String>, KeychainError>(Some(t)),
            Err(KeychainError::NoEntry) => r == Ok::<Option<String>, KeychainError>(None),
            Err(e) => r == Err::<Option<String>, KeychainError>(e),
        },
{
    match read {
        Ok(t) => Ok(Some(t)),
        Err(KeychainError::NoEntry) => Ok(None),
        Err(e) => Err(e),
    }
}

/// The outcome of clearing the token: a missing entry counts as cleared, any
/// other failure is passed on.
pub fn cleared(deleted: Result<(), KeychainError>) -> (r: Result<(), KeychainError>)
    ensures
        match deleted {
            Ok(()) => r is Ok,
            Err(KeychainError::NoEntry) => r is Ok,
            Err(e) => r == Err::<(), KeychainError>(e),
        },
{
    match deleted {
        Ok(()) => Ok(()),
        Err(KeychainError::NoEntry) => Ok(()),
        Err(e) => Err(e),
    }
}

} // verus!
