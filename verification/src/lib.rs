//! Transfers of data between an Oracle database, the local filesystem and
//! FTP or SFTP servers.
//!
//! The library holds what these transfers decide and compute: which paths
//! a transfer accepts, the address a client connects to, the query that
//! exports a table or a view, and the CSV document that an export produces
//! from the rows that the database returned.
pub mod database;
pub mod error;
pub mod export;
pub mod oracle;
pub mod transfer;
