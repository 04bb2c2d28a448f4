//! Exports of Oracle query results as CSV documents.
//!
//! A client holds one connection. An export prepares the SQL text, runs
//! it, reads every row of the result set and writes the column names and
//! the rows as a CSV document (see `crate::export`). The document, with the
//! local path it is meant for, is handed back to be written to disk.
use vstd::prelude::*;
use vstd::string::StringExecFns;

use crate::database::{
    column_names, execute, fetch_row, finish, open_session, oracle_error_text, prepare, Prepared,
    QueryRecord, Refusal, RowCursor, RowValues, Session,
};
use crate::error::TransferError;
use crate::export::{csv_document, export_csv, rows_fit, table_cells, CellValue};

verus! {

// ---------------------------------------------------------------------------
// Queries
// ---------------------------------------------------------------------------

/// The query that exports every row of a table or a view.
pub open spec fn spec_select_all(name: Seq<char>) -> Seq<char> {
    "SELECT * FROM "@ + name
}

/// Returns the query `SELECT * FROM name`.
pub fn select_all(name: &str) -> (sql: String)
    ensures
        sql@ == spec_select_all(name@),
        sql@.len() == 14 + name@.len(),
        sql@.take(14) == seq!['S', 'E', 'L', 'E', 'C', 'T', ' ', '*', ' ', 'F', 'R', 'O', 'M', ' '],
        sql@.skip(14) == name@,
{
    proof {
        select_all_is_prefix_then_name(name@);
    }
    String::from_str("SELECT * FROM ").concat(name)
}

/// The cell that a value read from a row becomes: a NULL, a text, or a
/// value that could not be read, with the reason.
pub open spec fn spec_cell_value(value: Result<Option<String>, String>) -> CellValue {
    match value {
        Ok(Some(text)) => CellValue::Text(text),
        Ok(None) => CellValue::Null,
        Err(reason) => CellValue::Unreadable(reason),
    }
}

/// Turns the values read from a row into the cells that the export writes.
pub fn row_cells(values: &Vec<Result<Option<String>, String>>) -> (cells: Vec<CellValue>)
    ensures
        cells@ == values@.map_values(|v: Result<Option<String>, String>| spec_cell_value(v)),
        cells@.len() == values@.len(),
        forall|k: int|
            0 <= k < values@.len() ==> (values@[k] matches Ok(Some(t)) ==> #[trigger] cells@[k]
                == CellValue::Text(t)),
        forall|k: int|
            0 <= k < values@.len() ==> ((#[trigger] cells@[k] is Null) <==> values@[k] == Ok::<
                Option<String>,
                String,
            >(None)),
        forall|k: int|
            0 <= k < values@.len() ==> (values@[k] matches Err(m) ==> #[trigger] cells@[k]
                == CellValue::Unreadable(m)),
{
    let mut cells: Vec<CellValue> = Vec::new();
    let mut k: usize = 0;
    while k < values.len()
        invariant
            0 <= k <= values.len(),
            cells@.len() == k,
            forall|i: int| 0 <= i < k ==> #[trigger] cells@[i] == spec_cell_value(values@[i]),
        decreases values.len() - k,
    {
        let cell = match &values[k] {
            Ok(Some(text)) => CellValue::Text(text.clone()),
            Ok(None) => CellValue::Null,
            Err(reason) => CellValue::Unreadable(reason.clone()),
        };
        cells.push(cell);
        k = k + 1;
    }
    assert(cells@ =~= values@.map_values(|v: Result<Option<String>, String>| spec_cell_value(v)));
    assert forall|k: int| 0 <= k < values@.len() implies ((#[trigger] cells@[k] is Null) <==> values@[k]
        == Ok::<Option<String>, String>(None)) by {
        cell_value_keeps_what_was_read(values@[k]);
    }
    cells
}

/// A value is kept as it was read: a text stays a text cell holding exactly
/// that text, a reason stays an unreadable cell holding exactly that
/// reason, and only a SQL NULL becomes a NULL cell.
pub proof fn cell_value_keeps_what_was_read(value: Result<Option<String>, String>)
    ensures
        value matches Ok(Some(t)) ==> spec_cell_value(value) == CellValue::Text(t),
        value matches Err(m) ==> spec_cell_value(value) == CellValue::Unreadable(m),
        spec_cell_value(value) is Null <==> value == Ok::<Option<String>, String>(None),
{
}

/// The export query is the fixed text `SELECT * FROM ` followed by the whole
/// name as given: fourteen characters longer than the name, starting with
/// that text and ending with the name.
pub proof fn select_all_is_prefix_then_name(name: Seq<char>)
    ensures
        spec_select_all(name).len() == 14 + name.len(),
        spec_select_all(name).take(14) == seq!['S', 'E', 'L', 'E', 'C', 'T', ' ', '*', ' ', 'F', 'R', 'O', 'M', ' '],
        spec_select_all(name).skip(14) == name,
{
    reveal_strlit("SELECT * FROM ");
    let q = spec_select_all(name);
    assert(q.take(14) =~= seq!['S', 'E', 'L', 'E', 'C', 'T', ' ', '*', ' ', 'F', 'R', 'O', 'M', ' ']);
    assert(q.skip(14) =~= name);
}

/// The cells of the rows a cursor handed out, in order.
pub open spec fn cells_of(fetched: Seq<RowValues>) -> Seq<Seq<CellValue>> {
    fetched.map_values(|row: RowValues| row.map_values(|v: Result<Option<String>, String>| spec_cell_value(v)))
}

/// The rows read before a fetch failed, and the reason it failed.
pub struct FetchFailure {
    /// The rows read before the failure, in order.
    pub rows: Vec<Vec<CellValue>>,
    /// The driver's reason.
    pub cause: String,
}

/// Reads every row left in a cursor, in order, until the cursor reports
/// the end. The rows are the cells of what the cursor hands out; when a
/// fetch fails, the rows read before it are handed back with the reason.
pub fn fetch_all(cursor: &mut RowCursor<'_>) -> (r: Result<Vec<Vec<CellValue>>, FetchFailure>)
    ensures
        final(cursor).sql() == old(cursor).sql(),
        final(cursor).columns() == old(cursor).columns(),
        final(cursor).execution() == old(cursor).execution(),
        old(cursor).fetched().len() <= final(cursor).fetched().len(),
        final(cursor).fetched().take(old(cursor).fetched().len() as int) == old(cursor).fetched(),
        old(cursor).ended() ==> r is Ok,
        r is Ok ==> final(cursor).ended(),
        r is Ok ==> final(cursor).failures() == old(cursor).failures(),
        r is Err ==> final(cursor).failures() == old(cursor).failures() + 1,
        r is Ok ==> table_cells(r->Ok_0@) == cells_of(
            final(cursor).fetched().skip(old(cursor).fetched().len() as int),
        ),
        r is Err ==> final(cursor).ended() == old(cursor).ended(),
        r is Err ==> table_cells(r->Err_0.rows@) == cells_of(
            final(cursor).fetched().skip(old(cursor).fetched().len() as int),
        ),
        forall|k: int|
            old(cursor).fetched().len() <= k < final(cursor).fetched().len() ==> (
            #[trigger] final(cursor).fetched()[k]).len() == old(cursor).columns().len(),
{
    let ghost start = cursor.fetched();
    let mut rows: Vec<Vec<CellValue>> = Vec::new();
    loop
        invariant_except_break
            cursor.ended() == old(cursor).ended(),
        invariant
            cursor.failures() == old(cursor).failures(),
            cursor.execution() == old(cursor).execution(),
            cursor.sql() == old(cursor).sql(),
            cursor.columns() == old(cursor).columns(),
            cursor.fetched().len() == start.len() + rows@.len(),
            cursor.fetched().take(start.len() as int) == start,
            start == old(cursor).fetched(),
            table_cells(rows@) == cells_of(cursor.fetched().skip(start.len() as int)),
            forall|k: int|
                start.len() <= k < cursor.fetched().len() ==> (#[trigger] cursor.fetched()[k]).len()
                    == old(cursor).columns().len(),
        ensures
            cursor.sql() == old(cursor).sql(),
            cursor.failures() == old(cursor).failures(),
            cursor.execution() == old(cursor).execution(),
            cursor.columns() == old(cursor).columns(),
            cursor.fetched().len() == start.len() + rows@.len(),
            cursor.fetched().take(start.len() as int) == start,
            cursor.ended(),
            table_cells(rows@) == cells_of(cursor.fetched().skip(start.len() as int)),
            forall|k: int|
                start.len() <= k < cursor.fetched().len() ==> (#[trigger] cursor.fetched()[k]).len()
                    == old(cursor).columns().len(),
        decreases usize::MAX - rows.len(),
    {
        let ghost before = cursor.fetched();
        match fetch_row(cursor) {
            None => {
                break ;
            },
            Some(Err(e)) => {
                return Err(FetchFailure { rows, cause: oracle_error_text(&e) });
            },
            Some(Ok(values)) => {
                let cells = row_cells(&values);
                let ghost old_rows = rows@;
                rows.push(cells);
                proof {
                    let after = cursor.fetched();
                    assert(after == before.push(values@));
                    assert(after.take(start.len() as int) =~= before.take(start.len() as int));
                    assert(after.skip(start.len() as int) =~= before.skip(start.len() as int).push(
                        values@,
                    ));
                    assert(table_cells(rows@) =~= table_cells(old_rows).push(cells@));
                    assert(cells_of(after.skip(start.len() as int)) =~= cells_of(
                        before.skip(start.len() as int),
                    ).push(cells@));
                }
            },
        }
    }
    Ok(rows)
}

/// What a refused or accepted connection gives: the session, or
/// `OracleConnect` with the driver's reason, for every error.
pub fn connected(opened: Result<Session, ::oracle::Error>) -> (r: Result<OracleClient, TransferError>)
    ensures
        opened is Ok <==> r is Ok,
        opened is Ok ==> r->Ok_0.opened_with() == opened->Ok_0.opened_with(),
        r is Err ==> r->Err_0 is OracleConnect,
{
    match opened {
        Ok(session) => Ok(OracleClient { session }),
        Err(e) => Err(TransferError::OracleConnect { cause: oracle_error_text(&e) }),
    }
}

/// What preparing a statement gives: the statement, or `OraclePrepare`
/// with the driver's reason and the refused call, for every error.
pub fn prepared(result: Result<Prepared, (::oracle::Error, Refusal)>) -> (r: Result<
    Prepared,
    TransferError,
>)
    ensures
        result is Ok <==> r is Ok,
        result is Ok ==> r->Ok_0 == result->Ok_0,
        r is Err ==> r->Err_0 is OraclePrepare,
        r is Err ==> r->Err_0->OraclePrepare_refusal == result->Err_0.1,
{
    match result {
        Ok(statement) => Ok(statement),
        Err((e, refusal)) => Err(
            TransferError::OraclePrepare { cause: oracle_error_text(&e), refusal },
        ),
    }
}

/// What executing a statement gives: the cursor, or `OracleExecute` with
/// the driver's reason and the refused call, for every error.
pub fn executed<'a>(result: Result<RowCursor<'a>, (::oracle::Error, Refusal)>) -> (r: Result<
    RowCursor<'a>,
    TransferError,
>)
    ensures
        result is Ok <==> r is Ok,
        result is Ok ==> r->Ok_0 == result->Ok_0,
        r is Err ==> r->Err_0 is OracleExecute,
        r is Err ==> r->Err_0->OracleExecute_refusal == result->Err_0.1,
{
    match result {
        Ok(cursor) => Ok(cursor),
        Err((e, refusal)) => Err(
            TransferError::OracleExecute { cause: oracle_error_text(&e), refusal },
        ),
    }
}

// ---------------------------------------------------------------------------
// The client
// ---------------------------------------------------------------------------

/// An export: the query that ran, the table it returned, and the CSV
/// document of that table, with the local path it is meant for.
pub struct CsvExport {
    /// The path of the local file that the document is meant for; an
    /// existing file there is overwritten.
    pub local_path: String,
    /// The SQL text that produced the rows.
    pub sql: String,
    /// The column names, in the order the server gave them.
    pub columns: Vec<String>,
    /// The rows, in the order the server returned them.
    pub rows: Vec<Vec<CellValue>>,
    /// The CSV document: the column names, then one record per row.
    pub contents: Vec<u8>,
    /// What the database cursor handed out.
    pub record: QueryRecord,
}

impl CsvExport {
    /// Whether this is an export of what the query `sql` handed out, meant
    /// for `local_path`: the SQL text was the one prepared and run, the
    /// columns and rows are the cursor's, every row has one value per
    /// column, and the document is the CSV document of the columns and the
    /// rows.
    pub open spec fn exports(self, sql: Seq<char>, local_path: Seq<char>) -> bool {
        &&& self.sql@ == sql
        &&& self.local_path@ == local_path
        &&& self.record.sql() == sql
        &&& self.columns.deep_view() == self.record.columns()
        &&& table_cells(self.rows@) == cells_of(self.record.fetched())
        &&& rows_fit(self.columns@.len(), table_cells(self.rows@))
        &&& self.contents@ == csv_document(self.columns.deep_view(), table_cells(self.rows@))
    }
}

/// What an export of the query `sql` for `local_path` gives:
/// - the export of every row of the result set, up to its end, when no
///   fetch failed, the rows coming from the first execution of a statement
///   prepared with `sql`;
/// - `OraclePrepare` or `OracleExecute` only when the server refused to
///   prepare or to execute `sql`;
/// - `OracleRow` only when a fetch failed, with the export of every row
///   read before it.
pub open spec fn export_outcome(
    r: Result<CsvExport, TransferError>,
    sql: Seq<char>,
    local_path: Seq<char>,
) -> bool {
    match r {
        Ok(export) => export.exports(sql, local_path) && export.record.ended()
            && export.record.failures() == 0 && export.record.execution() == 1,
        Err(TransferError::OraclePrepare { refusal, .. }) => refusal.sql() == sql
            && !refusal.executing(),
        Err(TransferError::OracleExecute { refusal, .. }) => refusal.sql() == sql
            && refusal.executing(),
        Err(TransferError::OracleRow { partial, .. }) => partial.exports(sql, local_path)
            && !partial.record.ended() && partial.record.failures() == 1
            && partial.record.execution() == 1,
        Err(_) => false,
    }
}

/// A client of an Oracle database, holding one open session.
pub struct OracleClient {
    session: Session,
}

impl OracleClient {
    /// The user name, password and connect string the client's session was
    /// opened with.
    pub closed spec fn opened_with(self) -> (Seq<char>, Seq<char>, Seq<char>) {
        self.session.opened_with()
    }

    /// Opens a connection to an Oracle database, with an Easy Connect string
    /// (`host:port/service_name`) or a full TNS descriptor.
    ///
    /// Whether the server accepts rests on the server; a refusal is reported
    /// as `OracleConnect`, with the driver's reason.
    pub fn connect(username: &str, password: &str, connect_string: &str) -> (r: Result<
        OracleClient,
        TransferError,
    >)
        ensures
            r is Ok ==> r->Ok_0.opened_with() == (username@, password@, connect_string@),
            r is Err ==> r->Err_0 is OracleConnect,
    {
        connected(open_session(username, password, connect_string))
    }

    /// Runs a query and writes its result as a CSV document meant for
    /// `local_path`: the column names first, then every row, in the order
    /// the server returned them, NULL as an empty field.
    ///
    /// The statement is prepared, then executed with no bind parameters,
    /// then every row is read before the document is written; the first
    /// step that fails gives the error (`OraclePrepare`, `OracleExecute`,
    /// `OracleRow`). When a row cannot be read, the error carries the export
    /// of the rows read before it.
    pub fn query_to_local_file(&self, sql: &str, local_path: &str) -> (r: Result<
        CsvExport,
        TransferError,
    >)
        ensures
            export_outcome(r, sql@, local_path@),
    {
        let mut statement = match prepared(prepare(&self.session, sql)) {
            Ok(statement) => statement,
            Err(e) => {
                return Err(e);
            },
        };
        let mut cursor = match executed(execute(&mut statement)) {
            Ok(cursor) => cursor,
            Err(e) => {
                return Err(e);
            },
        };
        let header = column_names(&cursor);
        let fetched = fetch_all(&mut cursor);
        let record = finish(cursor);
        proof {
            assert(record.fetched().skip(0) =~= record.fetched());
        }
        match fetched {
            Ok(rows) => {
                let contents = export_here(&header, &rows, Ghost(record.fetched()));
                Ok(
                    CsvExport {
                        local_path: String::from_str(local_path),
                        sql: String::from_str(sql),
                        columns: header,
                        rows,
                        contents,
                        record,
                    },
                )
            },
            Err(failure) => {
                let contents = export_here(&header, &failure.rows, Ghost(record.fetched()));
                let partial = CsvExport {
                    local_path: String::from_str(local_path),
                    sql: String::from_str(sql),
                    columns: header,
                    rows: failure.rows,
                    contents,
                    record,
                };
                Err(TransferError::OracleRow { cause: failure.cause, partial })
            },
        }
    }

    /// Exports every row of a view, as `SELECT * FROM view_name`: the same
    /// outcome as `query_to_local_file` of that query.
    pub fn view_to_local_file(&self, view_name: &str, local_path: &str) -> (r: Result<
        CsvExport,
        TransferError,
    >)
        ensures
            export_outcome(r, spec_select_all(view_name@), local_path@),
    {
        let sql = select_all(view_name);
        self.query_to_local_file(sql.as_str(), local_path)
    }

    /// Exports every row of a table, as `SELECT * FROM table_name`: the same
    /// outcome as `query_to_local_file` of that query.
    pub fn table_to_local_file(&self, table_name: &str, local_path: &str) -> (r: Result<
        CsvExport,
        TransferError,
    >)
        ensures
            export_outcome(r, spec_select_all(table_name@), local_path@),
    {
        let sql = select_all(table_name);
        self.query_to_local_file(sql.as_str(), local_path)
    }
}

/// Writes the CSV document of rows that a cursor handed out, each with one
/// value per column.
fn export_here(header: &Vec<String>, rows: &Vec<Vec<CellValue>>, fetched: Ghost<Seq<RowValues>>) -> (contents: Vec<u8>)
    requires
        table_cells(rows@) == cells_of(fetched@),
        forall|k: int| 0 <= k < fetched@.len() ==> (#[trigger] fetched@[k]).len() == header@.len(),
    ensures
        rows_fit(header@.len(), table_cells(rows@)),
        contents@ == csv_document(header.deep_view(), table_cells(rows@)),
{
    assert(rows_fit(header@.len(), table_cells(rows@))) by {
        assert forall|i: int| 0 <= i < table_cells(rows@).len() implies #[trigger] table_cells(
            rows@,
        )[i].len() == header@.len() by {
            assert(table_cells(rows@)[i] == cells_of(fetched@)[i]);
            assert(fetched@[i].len() == header@.len());
        }
    }
    match export_csv(header, rows) {
        Ok(contents) => contents,
        Err(_) => Vec::new(),
    }
}

} // verus!
