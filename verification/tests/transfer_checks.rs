use data_transfers::error::TransferError;
use data_transfers::transfer::{check_transfer_paths, require_authenticated, server_address};

#[test]
fn empty_remote_path_is_refused_first() {
    assert!(matches!(check_transfer_paths("", ""), Err(TransferError::EmptyRemotePath)));
    assert!(matches!(
        check_transfer_paths("", "local/file.txt"),
        Err(TransferError::EmptyRemotePath)
    ));
}

#[test]
fn empty_local_path_is_refused() {
    assert!(matches!(
        check_transfer_paths("/remote/file.txt", ""),
        Err(TransferError::EmptyLocalPath)
    ));
}

#[test]
fn non_empty_paths_are_accepted() {
    assert!(check_transfer_paths("/remote/file.txt", "local/file.txt").is_ok());
    assert!(check_transfer_paths("a", "b").is_ok());
}

#[test]
fn path_errors_report_their_message() {
    let remote = check_transfer_paths("", "x").unwrap_err();
    assert_eq!(remote.message(), "Remote path cannot be empty");
    let local = check_transfer_paths("x", "").unwrap_err();
    assert_eq!(local.message(), "Local path cannot be empty");
}

#[test]
fn address_joins_host_and_port() {
    assert_eq!(server_address("ftp.example.com", "21"), "ftp.example.com:21");
    assert_eq!(server_address("sftp.example.com", "22"), "sftp.example.com:22");
    assert_eq!(server_address("", ""), ":");
}

#[test]
fn unauthenticated_session_is_refused() {
    assert!(require_authenticated(true).is_ok());
    let err = require_authenticated(false).unwrap_err();
    assert!(matches!(err, TransferError::NotAuthenticated));
    assert_eq!(err.message(), "Authentication failed");
}
