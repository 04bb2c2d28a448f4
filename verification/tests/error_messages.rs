use data_transfers::error::TransferError;

fn s(text: &str) -> String {
    text.to_string()
}

#[test]
fn ftp_messages_name_the_address_and_paths() {
    let connect = TransferError::FtpConnect { address: s("ftp.example.com:21"), cause: s("refused") };
    assert_eq!(connect.message(), "Failed to connect to FTP server ftp.example.com:21");
    let login = TransferError::FtpLogin { cause: s("530") };
    assert_eq!(login.message(), "Failed to authenticate with FTP server");
    let download = TransferError::FtpDownload { remote_path: s("/remote/file.csv"), cause: s("550") };
    assert_eq!(download.message(), "Failed to download remote file /remote/file.csv");
    let upload = TransferError::FtpUpload { remote_path: s("/remote/a.txt"), cause: s("553") };
    assert_eq!(upload.message(), "Failed to upload file to /remote/a.txt");
}

#[test]
fn local_file_messages_name_the_path() {
    let create = TransferError::LocalCreate { local_path: s("out.csv"), cause: s("denied") };
    assert_eq!(create.message(), "Failed to create local file out.csv");
    let write = TransferError::LocalWrite { local_path: s("out.csv"), cause: s("full") };
    assert_eq!(write.message(), "Failed to write local file out.csv");
    let open = TransferError::LocalOpen { local_path: s("in.txt"), cause: s("missing") };
    assert_eq!(open.message(), "Failed to open local file in.txt");
}

#[test]
fn sftp_messages_name_the_paths() {
    let connect = TransferError::SftpConnect { address: s("h:22"), cause: s("x") };
    assert_eq!(connect.message(), "Failed to connect to SFTP server h:22");
    assert_eq!(
        TransferError::SftpLogin { cause: s("x") }.message(),
        "Failed to authenticate with SFTP server"
    );
    assert_eq!(
        TransferError::SshSession { cause: s("handshake failed") }.message(),
        "Failed to establish SSH session"
    );
    assert_eq!(
        TransferError::SftpSubsystem { cause: s("no sftp") }.message(),
        "Failed to start SFTP subsystem"
    );
    assert_eq!(
        TransferError::SftpOpenLocal { local_path: s("a.txt"), cause: s("x") }.message(),
        "Failed to open a.txt"
    );
    assert_eq!(
        TransferError::SftpCreateRemote { remote_path: s("/r/a.txt"), cause: s("x") }.message(),
        "Failed to create remote file /r/a.txt"
    );
    assert_eq!(
        TransferError::SftpOpenRemote { remote_path: s("/r/b.txt"), cause: s("x") }.message(),
        "Failed to open remote file /r/b.txt"
    );
    assert_eq!(
        TransferError::SftpCreateLocal { local_path: s("b.txt"), cause: s("x") }.message(),
        "Failed to create b.txt"
    );
    assert_eq!(
        TransferError::SftpCopy { from: s("a.txt"), to: s("/r/a.txt"), cause: s("x") }.message(),
        "Failed to copy a.txt to /r/a.txt"
    );
}

#[test]
fn oracle_and_csv_messages() {
    assert_eq!(
        TransferError::OracleConnect { cause: s("ORA-01017") }.message(),
        "Failed to connect to Oracle database"
    );
    assert_eq!(TransferError::CsvHeader.message(), "Failed to write CSV headers");
    assert_eq!(TransferError::CsvRecord.message(), "Failed to write CSV record");
    assert_eq!(TransferError::CsvFlush { cause: s("x") }.message(), "Failed to flush CSV file");
}
