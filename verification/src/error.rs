//! The errors of every transfer, with the message that each one reports.
//!
//! Each error knows its own context message, the sentence that tells the
//! user which step of a transfer failed. Where an outside library reported
//! the failure, the variant also carries that library's own text as `cause`.
use vstd::prelude::*;
use vstd::string::StringExecFns;

use crate::database::Refusal;
use crate::oracle::CsvExport;

verus! {

/// An error of a transfer between a database, the local filesystem and a
/// remote file server.
pub enum TransferError {
    /// The remote path handed to a transfer was empty.
    EmptyRemotePath,
    /// The local path handed to a transfer was empty.
    EmptyLocalPath,
    /// No connection could be opened to the FTP server at `address`.
    FtpConnect { address: String, cause: String },
    /// The FTP server refused the credentials.
    FtpLogin { cause: String },
    /// The FTP server did not deliver the remote file.
    FtpDownload { remote_path: String, cause: String },
    /// The FTP server did not accept the upload.
    FtpUpload { remote_path: String, cause: String },
    /// The local file could not be created.
    LocalCreate { local_path: String, cause: String },
    /// The local file could not be written.
    LocalWrite { local_path: String, cause: String },
    /// The local file could not be opened for reading.
    LocalOpen { local_path: String, cause: String },
    /// No connection could be opened to the SFTP server at `address`.
    SftpConnect { address: String, cause: String },
    /// The SSH session failed before authentication (setup or handshake).
    SshSession { cause: String },
    /// The SFTP server refused the credentials.
    SftpLogin { cause: String },
    /// The SSH session reports that it is not authenticated.
    NotAuthenticated,
    /// The SFTP subsystem could not be started.
    SftpSubsystem { cause: String },
    /// The local file to upload over SFTP could not be opened.
    SftpOpenLocal { local_path: String, cause: String },
    /// The remote file could not be created over SFTP.
    SftpCreateRemote { remote_path: String, cause: String },
    /// The remote file could not be opened over SFTP.
    SftpOpenRemote { remote_path: String, cause: String },
    /// The local file to download into over SFTP could not be created.
    SftpCreateLocal { local_path: String, cause: String },
    /// Copying bytes from `from` to `to` failed.
    SftpCopy { from: String, to: String, cause: String },
    /// No connection could be opened to the Oracle database.
    OracleConnect { cause: String },
    /// The server refused to prepare the SQL text; `refusal` is the
    /// refused call.
    OraclePrepare { cause: String, refusal: Refusal },
    /// The server refused to execute the prepared query; `refusal` is the
    /// refused call.
    OracleExecute { cause: String, refusal: Refusal },
    /// A row of the result set could not be read; `partial` is the export
    /// of the rows read before it.
    OracleRow { cause: String, partial: CsvExport },
    /// The CSV header record could not be written.
    CsvHeader,
    /// A CSV data record could not be written.
    CsvRecord,
    /// The CSV output could not be flushed to its destination.
    CsvFlush { cause: String },
}

impl TransferError {
    /// The context message of this error.
    pub open spec fn spec_message(self) -> Seq<char> {
        match self {
            TransferError::EmptyRemotePath => "Remote path cannot be empty"@,
            TransferError::EmptyLocalPath => "Local path cannot be empty"@,
            TransferError::FtpConnect { address, .. } => "Failed to connect to FTP server "@ + address@,
            TransferError::FtpLogin { .. } => "Failed to authenticate with FTP server"@,
            TransferError::FtpDownload { remote_path, .. } => "Failed to download remote file "@
                + remote_path@,
            TransferError::FtpUpload { remote_path, .. } => "Failed to upload file to "@ + remote_path@,
            TransferError::LocalCreate { local_path, .. } => "Failed to create local file "@
                + local_path@,
            TransferError::LocalWrite { local_path, .. } => "Failed to write local file "@
                + local_path@,
            TransferError::LocalOpen { local_path, .. } => "Failed to open local file "@
                + local_path@,
            TransferError::SftpConnect { address, .. } => "Failed to connect to SFTP server "@
                + address@,
            TransferError::SshSession { .. } => "Failed to establish SSH session"@,
            TransferError::SftpLogin { .. } => "Failed to authenticate with SFTP server"@,
            TransferError::NotAuthenticated => "Authentication failed"@,
            TransferError::SftpSubsystem { .. } => "Failed to start SFTP subsystem"@,
            TransferError::SftpOpenLocal { local_path, .. } => "Failed to open "@ + local_path@,
            TransferError::SftpCreateRemote { remote_path, .. } => "Failed to create remote file "@
                + remote_path@,
            TransferError::SftpOpenRemote { remote_path, .. } => "Failed to open remote file "@
                + remote_path@,
            TransferError::SftpCreateLocal { local_path, .. } => "Failed to create "@ + local_path@,
            TransferError::SftpCopy { from, to, .. } => "Failed to copy "@ + from@ + " to "@ + to@,
            TransferError::OracleConnect { .. } => "Failed to connect to Oracle database"@,
            TransferError::OraclePrepare { .. } => "Failed to prepare Oracle query"@,
            TransferError::OracleExecute { .. } => "Failed to execute Oracle query"@,
            TransferError::OracleRow { .. } => "Failed to read Oracle row"@,
            TransferError::CsvHeader => "Failed to write CSV headers"@,
            TransferError::CsvRecord => "Failed to write CSV record"@,
            TransferError::CsvFlush { .. } => "Failed to flush CSV file"@,
        }
    }

    /// Returns the context message of this error: which step failed, and on
    /// which path or address.
    pub fn message(&self) -> (m: String)
        ensures
            m@ == self.spec_message(),
    {
        match self {
            TransferError::EmptyRemotePath => String::from_str("Remote path cannot be empty"),
            TransferError::EmptyLocalPath => String::from_str("Local path cannot be empty"),
            TransferError::FtpConnect { address, .. } => {
                String::from_str("Failed to connect to FTP server ").concat(address.as_str())
            },
            TransferError::FtpLogin { .. } => String::from_str(
                "Failed to authenticate with FTP server",
            ),
            TransferError::FtpDownload { remote_path, .. } => {
                String::from_str("Failed to download remote file ").concat(remote_path.as_str())
            },
            TransferError::FtpUpload { remote_path, .. } => {
                String::from_str("Failed to upload file to ").concat(remote_path.as_str())
            },
            TransferError::LocalCreate { local_path, .. } => {
                String::from_str("Failed to create local file ").concat(local_path.as_str())
            },
            TransferError::LocalWrite { local_path, .. } => {
                String::from_str("Failed to write local file ").concat(local_path.as_str())
            },
            TransferError::LocalOpen { local_path, .. } => {
                String::from_str("Failed to open local file ").concat(local_path.as_str())
            },
            TransferError::SftpConnect { address, .. } => {
                String::from_str("Failed to connect to SFTP server ").concat(address.as_str())
            },
            TransferError::SshSession { .. } => String::from_str("Failed to establish SSH session"),
            TransferError::SftpLogin { .. } => String::from_str(
                "Failed to authenticate with SFTP server",
            ),
            TransferError::NotAuthenticated => String::from_str("Authentication failed"),
            TransferError::SftpSubsystem { .. } => String::from_str("Failed to start SFTP subsystem"),
            TransferError::SftpOpenLocal { local_path, .. } => {
                String::from_str("Failed to open ").concat(local_path.as_str())
            },
            TransferError::SftpCreateRemote { remote_path, .. } => {
                String::from_str("Failed to create remote file ").concat(remote_path.as_str())
            },
            TransferError::SftpOpenRemote { remote_path, .. } => {
                String::from_str("Failed to open remote file ").concat(remote_path.as_str())
            },
            TransferError::SftpCreateLocal { local_path, .. } => {
                String::from_str("Failed to create ").concat(local_path.as_str())
            },
            TransferError::SftpCopy { from, to, .. } => {
                String::from_str("Failed to copy ").concat(from.as_str()).concat(" to ").concat(
                    to.as_str(),
                )
            },
            TransferError::OracleConnect { .. } => String::from_str(
                "Failed to connect to Oracle database",
            ),
            TransferError::OraclePrepare { .. } => String::from_str(
                "Failed to prepare Oracle query",
            ),
            TransferError::OracleExecute { .. } => String::from_str(
                "Failed to execute Oracle query",
            ),
            TransferError::OracleRow { .. } => String::from_str("Failed to read Oracle row"),
            TransferError::CsvHeader => String::from_str("Failed to write CSV headers"),
            TransferError::CsvRecord => String::from_str("Failed to write CSV record"),
            TransferError::CsvFlush { .. } => String::from_str("Failed to flush CSV file"),
        }
    }
}

} // verus!
