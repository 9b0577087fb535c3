use csshd::credentials::{cleared, keychain_service, loaded_token, open_context, KeychainError};

#[test]
fn tokens_live_under_the_csshd_service() {
    assert_eq!(keychain_service(), "csshd");
    assert_eq!(
        open_context("https://helpdesk.example.com"),
        "keyring open (csshd / https://helpdesk.example.com)"
    );
}

#[test]
fn a_stored_token_is_read_back() {
    assert_eq!(loaded_token(Ok("abc".to_string())), Ok(Some("abc".to_string())));
}

#[test]
fn a_missing_entry_reads_as_no_token() {
    assert_eq!(loaded_token(Err(KeychainError::NoEntry)), Ok(None));
}

#[test]
fn other_read_failures_are_errors() {
    let e = KeychainError::Failure("locked".to_string());
    assert_eq!(loaded_token(Err(e.clone())), Err(e));
}

#[test]
fn clearing_a_missing_entry_succeeds() {
    assert_eq!(cleared(Ok(())), Ok(()));
    assert_eq!(cleared(Err(KeychainError::NoEntry)), Ok(()));
}

#[test]
fn other_delete_failures_are_errors() {
    let e = KeychainError::Failure("no dbus".to_string());
    assert_eq!(cleared(Err(e.clone())), Err(e));
}
