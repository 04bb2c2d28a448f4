//! The Oracle session, statements and result cursors, as the `oracle` crate
//! provides them, each with a record of what was handed to the database and
//! what the database handed back.
//!
//! The records are ghost fields, private to this module and set by the
//! calls into the `oracle` crate alone: a session records the credentials
//! it was opened with, a prepared statement its SQL text, a cursor the SQL
//! text it runs, its column names, every row it has handed out, in order,
//! whether it has reported the end of the rows, and how many of its fetches
//! failed; a refused call names the SQL text it carried. `QueryRecord` keeps a
//! cursor's record once the cursor is done. The bodies of those calls are
//! not verified and their ghost values are erased: what a record holds is
//! what the calls' `ensures` clauses state.
use vstd::pervasive::arbitrary;
use vstd::prelude::*;

verus! {

/// A connection of the `oracle` crate.
#[verifier::external_type_specification]
#[verifier::external_body]
pub struct ExConnection(::oracle::Connection);

/// A prepared statement of the `oracle` crate.
#[verifier::external_type_specification]
#[verifier::external_body]
pub struct ExStatement(::oracle::Statement);

/// The `oracle` crate's error.
#[verifier::external_type_specification]
#[verifier::external_body]
pub struct ExOracleError(::oracle::Error);

/// The values of one row as they are read: `Ok(None)` for a NULL,
/// `Ok(Some(text))` for a value that reads as text, `Err(reason)` otherwise.
pub type RowValues = Seq<Result<Option<String>, String>>;

/// An open connection to an Oracle database.
pub struct Session {
    conn: ::oracle::Connection,
    opened_with: Ghost<(Seq<char>, Seq<char>, Seq<char>)>,
}

impl Session {
    /// The user name, password and connect string the session was opened with.
    pub closed spec fn opened_with(self) -> (Seq<char>, Seq<char>, Seq<char>) {
        self.opened_with@
    }
}

/// A statement prepared on a session.
pub struct Prepared {
    stmt: ::oracle::Statement,
    sql: Ghost<Seq<char>>,
    executions: Ghost<nat>,
}

impl Prepared {
    /// The SQL text that was prepared.
    pub closed spec fn sql(self) -> Seq<char> {
        self.sql@
    }

    /// How many times the statement was executed.
    pub closed spec fn executions(self) -> nat {
        self.executions@
    }
}

/// The rows of an executed query (an `oracle::ResultSet`). The result set
/// is held in a private field, since its type cannot be declared to Verus
/// (its `RowValue` bound is a trait of the `oracle` crate).
#[verifier::external_body]
struct ResultRows<'a> {
    rows: ::oracle::ResultSet<'a, ::oracle::Row>,
}

/// The rows of an executed query, read one at a time from the database.
pub struct RowCursor<'a> {
    rows: ResultRows<'a>,
    sql: Ghost<Seq<char>>,
    columns: Ghost<Seq<Seq<char>>>,
    fetched: Ghost<Seq<RowValues>>,
    ended: Ghost<bool>,
    failures: Ghost<nat>,
    execution: Ghost<nat>,
}

impl<'a> RowCursor<'a> {
    /// The SQL text of the query whose rows these are.
    pub closed spec fn sql(self) -> Seq<char> {
        self.sql@
    }

    /// The names of the query's columns.
    pub closed spec fn columns(self) -> Seq<Seq<char>> {
        self.columns@
    }

    /// The rows the cursor has handed out, in order.
    pub closed spec fn fetched(self) -> Seq<RowValues> {
        self.fetched@
    }

    /// Whether the cursor has reported that no row is left.
    pub closed spec fn ended(self) -> bool {
        self.ended@
    }

    /// How many fetches of the cursor failed.
    pub closed spec fn failures(self) -> nat {
        self.failures@
    }

    /// Which execution of its statement the cursor came from (the first is 1).
    pub closed spec fn execution(self) -> nat {
        self.execution@
    }
}

/// What a finished cursor handed out: the SQL text it ran, its column
/// names, every row it handed out, in order, whether it reached the end of
/// the rows, and how many of its fetches failed.
pub struct QueryRecord {
    sql: Ghost<Seq<char>>,
    columns: Ghost<Seq<Seq<char>>>,
    fetched: Ghost<Seq<RowValues>>,
    ended: Ghost<bool>,
    failures: Ghost<nat>,
    execution: Ghost<nat>,
}

impl QueryRecord {
    /// The SQL text of the query.
    pub closed spec fn sql(self) -> Seq<char> {
        self.sql@
    }

    /// The names of the query's columns.
    pub closed spec fn columns(self) -> Seq<Seq<char>> {
        self.columns@
    }

    /// The rows the cursor handed out, in order.
    pub closed spec fn fetched(self) -> Seq<RowValues> {
        self.fetched@
    }

    /// Whether the cursor reached the end of the rows.
    pub closed spec fn ended(self) -> bool {
        self.ended@
    }

    /// How many fetches of the cursor failed.
    pub closed spec fn failures(self) -> nat {
        self.failures@
    }

    /// Which execution of its statement the cursor came from (the first is 1).
    pub closed spec fn execution(self) -> nat {
        self.execution@
    }
}

/// A call that the server refused: the SQL text it carried, and whether
/// the refusal came when executing the statement (rather than preparing
/// it). Only the calls into the `oracle` crate make one.
pub struct Refusal {
    sql: Ghost<Seq<char>>,
    executing: Ghost<bool>,
}

impl Refusal {
    /// The SQL text of the refused call.
    pub closed spec fn sql(self) -> Seq<char> {
        self.sql@
    }

    /// Whether executing (rather than preparing) the statement was refused.
    pub closed spec fn executing(self) -> bool {
        self.executing@
    }
}

/// Closes a cursor and keeps its record.
pub fn finish(cursor: RowCursor<'_>) -> (record: QueryRecord)
    ensures
        record.sql() == cursor.sql(),
        record.columns() == cursor.columns(),
        record.fetched() == cursor.fetched(),
        record.ended() == cursor.ended(),
        record.failures() == cursor.failures(),
        record.execution() == cursor.execution(),
{
    QueryRecord {
        sql: Ghost(cursor.sql@),
        columns: Ghost(cursor.columns@),
        fetched: Ghost(cursor.fetched@),
        ended: Ghost(cursor.ended@),
        failures: Ghost(cursor.failures@),
        execution: Ghost(cursor.execution@),
    }
}

/// Calls `oracle::Connection::connect` with the three arguments as given.
/// Whether a connection is made rests on the server; claims only that a
/// session, when there is one, records these arguments.
#[verifier::external_body]
pub(crate) fn open_session(username: &str, password: &str, connect_string: &str) -> (r: Result<
    Session,
    ::oracle::Error,
>)
    ensures
        r is Ok ==> r->Ok_0.opened_with() == (username@, password@, connect_string@),
{
    match ::oracle::Connection::connect(username, password, connect_string) {
        Ok(conn) => Ok(Session { conn, opened_with: Ghost((username@, password@, connect_string@)) }),
        Err(e) => Err(e),
    }
}

/// Calls `to_string` on an `oracle::Error`, its `Display` text. The text is
/// the database's or the driver's, so nothing is claimed of it.
#[verifier::external_body]
pub(crate) fn oracle_error_text(e: &::oracle::Error) -> (text: String) {
    e.to_string()
}

/// Calls `oracle::Connection::statement(sql).build()`, which prepares the
/// SQL text on the server. Whether it succeeds rests on the server; claims
/// that a prepared statement records this SQL text and has not been
/// executed, and that a refusal
/// names this SQL text, refused when preparing.
#[verifier::external_body]
pub(crate) fn prepare(session: &Session, sql: &str) -> (r: Result<
    Prepared,
    (::oracle::Error, Refusal),
>)
    ensures
        r is Ok ==> r->Ok_0.sql() == sql@ && r->Ok_0.executions() == 0,
        r is Err ==> r->Err_0.1.sql() == sql@ && !r->Err_0.1.executing(),
{
    match session.conn.statement(sql).build() {
        Ok(stmt) => Ok(Prepared { stmt, sql: Ghost(sql@), executions: Ghost(0) }),
        Err(e) => Err((e, Refusal { sql: Ghost(sql@), executing: Ghost(false) })),
    }
}

/// Calls `oracle::Statement::query` with no bind parameters. Whether it
/// succeeds rests on the server; claims that a new cursor runs the
/// statement's SQL text, has handed out no row, has not ended and has had
/// no failed fetch, that the statement counts one more execution, which
/// the cursor came from, and that a refusal names the statement's SQL
/// text, refused when executing. The cursor's column names are the
/// server's.
#[verifier::external_body]
pub(crate) fn execute<'a>(prepared: &'a mut Prepared) -> (r: Result<
    RowCursor<'a>,
    (::oracle::Error, Refusal),
>)
    ensures
        final(prepared).sql() == old(prepared).sql(),
        final(prepared).executions() == old(prepared).executions() + 1,
        r is Ok ==> r->Ok_0.execution() == old(prepared).executions() + 1,
        r is Ok ==> r->Ok_0.sql() == old(prepared).sql(),
        r is Ok ==> r->Ok_0.fetched() == Seq::<RowValues>::empty(),
        r is Ok ==> !r->Ok_0.ended(),
        r is Ok ==> r->Ok_0.failures() == 0,
        r is Err ==> r->Err_0.1.sql() == old(prepared).sql() && r->Err_0.1.executing(),
{
    let (sql, execution) = (Ghost(prepared.sql@), Ghost(prepared.executions@ + 1));
    match prepared.stmt.query(&[]) {
        Ok(rows) => Ok(RowCursor {
            rows: ResultRows { rows },
            sql,
            columns: Ghost(arbitrary()),
            fetched: Ghost(Seq::empty()),
            ended: Ghost(false),
            failures: Ghost(0),
            execution,
        }),
        Err(e) => Err((e, Refusal { sql, executing: Ghost(true) })),
    }
}

/// Calls `oracle::ResultSet::column_info` and takes each column's name.
/// Claims that these are the cursor's column names.
#[verifier::external_body]
pub(crate) fn column_names(cursor: &RowCursor<'_>) -> (names: Vec<String>)
    ensures
        names.deep_view() == cursor.columns(),
{
    cursor.rows.rows.column_info().iter().map(|column| column.name().to_string()).collect()
}

/// Calls `Iterator::next` on the `oracle::ResultSet`, which fetches the
/// next row, and reads each of its values with
/// `oracle::SqlValue::get::<Option<String>>` (a NULL reads as `None`; a
/// value that cannot be read gives its error's `Display` text). Claims that
/// a row has one value per column (the `oracle` crate builds every row from
/// its result set's column list), that the cursor records the row, the end
/// of the rows, or the failed fetch, and that a cursor past its end hands
/// out nothing more (the result set is a fused iterator). What the rows
/// hold is the server's.
#[verifier::external_body]
pub(crate) fn fetch_row(cursor: &mut RowCursor<'_>) -> (r: Option<
    Result<Vec<Result<Option<String>, String>>, ::oracle::Error>,
>)
    ensures
        final(cursor).sql() == old(cursor).sql(),
        final(cursor).columns() == old(cursor).columns(),
        final(cursor).execution() == old(cursor).execution(),
        old(cursor).ended() ==> r is None,
        r is None ==> final(cursor).ended() && final(cursor).fetched() == old(cursor).fetched()
            && final(cursor).failures() == old(cursor).failures(),
        r is Some && r->Some_0 is Err ==> final(cursor).ended() == old(cursor).ended()
            && final(cursor).fetched() == old(cursor).fetched() && final(cursor).failures()
            == old(cursor).failures() + 1,
        r is Some && r->Some_0 is Ok ==> {
            &&& !final(cursor).ended()
            &&& final(cursor).failures() == old(cursor).failures()
            &&& r->Some_0->Ok_0@.len() == old(cursor).columns().len()
            &&& final(cursor).fetched() == old(cursor).fetched().push(r->Some_0->Ok_0@)
        },
{
    match cursor.rows.rows.next() {
        None => None,
        Some(Err(e)) => Some(Err(e)),
        Some(Ok(row)) => Some(Ok(row.sql_values().iter().map(|v| v.get::<Option<String>>().map_err(|e| e.to_string())).collect())),
    }
}

} // verus!
