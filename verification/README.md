# data_transfers

Transfers of data between an Oracle database, the local filesystem and FTP
or SFTP servers, with the library part verified by Verus.

- `src/` is the verified library:
  - `error.rs`: the transfer errors and the message each one reports;
  - `transfer.rs`: the path checks, server addresses and the SSH
    authentication decision that FTP and SFTP transfers share;
  - `export.rs`: the CSV document of a table (header, then rows, NULL as an
    empty field), written through the `csv` crate;
  - `database.rs`: the `oracle` crate's session, prepared statement and
    result cursor, each recording (in ghost fields set by the calls into the
    crate) the credentials, the SQL text and the rows handed out;
  - `oracle.rs`: the Oracle client, which runs a query, reads every row to
    the end and turns them into a CSV export; a failed read hands back the
    export of the rows read before it.
- `app/` holds the clients' network and file work: the FTP (`suppaftp`) and
  SFTP (`ssh2`) clients, and the writing of an export to its local file.
- `tests/` exercises the library on concrete values.
