//! The checks and values that FTP and SFTP transfers share.
use vstd::prelude::*;
use vstd::string::StringExecFns;

use crate::error::TransferError;

verus! {

/// What checking a remote and a local path gives: the first empty one, the
/// remote path checked first.
pub open spec fn spec_check_transfer_paths(remote_path: Seq<char>, local_path: Seq<char>) -> Result<
    (),
    TransferError,
> {
    if remote_path.len() == 0 {
        Err(TransferError::EmptyRemotePath)
    } else if local_path.len() == 0 {
        Err(TransferError::EmptyLocalPath)
    } else {
        Ok(())
    }
}

/// Checks the two paths of a transfer before anything is opened: an empty
/// remote path is refused first, then an empty local path.
pub fn check_transfer_paths(remote_path: &str, local_path: &str) -> (r: Result<(), TransferError>)
    ensures
        r == spec_check_transfer_paths(remote_path@, local_path@),
        r is Ok <==> (remote_path@.len() > 0 && local_path@.len() > 0),
        r == Err::<(), TransferError>(TransferError::EmptyRemotePath) <==> remote_path@.len() == 0,
        r == Err::<(), TransferError>(TransferError::EmptyLocalPath) <==> (remote_path@.len() > 0
            && local_path@.len() == 0),
{
    if remote_path.is_empty() {
        return Err(TransferError::EmptyRemotePath);
    }
    if local_path.is_empty() {
        return Err(TransferError::EmptyLocalPath);
    }
    Ok(())
}

/// The address `host:port` that a client connects to.
pub open spec fn spec_server_address(host: Seq<char>, port: Seq<char>) -> Seq<char> {
    host + ":"@ + port
}

/// Joins a host and a port into the address `host:port`.
pub fn server_address(host: &str, port: &str) -> (address: String)
    ensures
        address@ == spec_server_address(host@, port@),
        address@.len() == host@.len() + 1 + port@.len(),
        address@.take(host@.len() as int) == host@,
        address@[host@.len() as int] == ':',
        address@.skip(host@.len() as int + 1) == port@,
{
    proof {
        address_is_host_colon_port(host@, port@);
    }
    String::from_str(host).concat(":").concat(port)
}

/// Decides, once the password was accepted, whether the SSH session may go
/// on: it may only when the session reports that it is authenticated.
pub fn require_authenticated(authenticated: bool) -> (r: Result<(), TransferError>)
    ensures
        authenticated ==> r is Ok,
        !authenticated ==> r == Err::<(), TransferError>(TransferError::NotAuthenticated),
{
    if authenticated {
        Ok(())
    } else {
        Err(TransferError::NotAuthenticated)
    }
}

/// A transfer is refused only for an empty path: two non-empty paths are
/// always accepted, an empty remote path is always refused as such, and an
/// empty local path is refused as such only when the remote path is not
/// empty.
pub proof fn paths_refused_only_when_empty(remote_path: Seq<char>, local_path: Seq<char>)
    ensures
        spec_check_transfer_paths(remote_path, local_path) is Ok <==> (remote_path.len() > 0
            && local_path.len() > 0),
        spec_check_transfer_paths(remote_path, local_path) == Err::<(), TransferError>(
            TransferError::EmptyRemotePath,
        ) <==> remote_path.len() == 0,
        spec_check_transfer_paths(remote_path, local_path) == Err::<(), TransferError>(
            TransferError::EmptyLocalPath,
        ) <==> (remote_path.len() > 0 && local_path.len() == 0),
{
}

/// The address is the whole host, one colon, then the whole port: its
/// length is theirs plus one, it starts with the host, holds a colon right
/// after it, and ends with the port.
pub proof fn address_is_host_colon_port(host: Seq<char>, port: Seq<char>)
    ensures
        spec_server_address(host, port).len() == host.len() + 1 + port.len(),
        spec_server_address(host, port).take(host.len() as int) == host,
        spec_server_address(host, port)[host.len() as int] == ':',
        spec_server_address(host, port).skip(host.len() as int + 1) == port,
{
    reveal_strlit(":");
    let a = spec_server_address(host, port);
    assert(a.take(host.len() as int) =~= host);
    assert(a.skip(host.len() as int + 1) =~= port);
}

} // verus!
