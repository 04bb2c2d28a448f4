//! The CSV document that an export writes: the column names as the first
//! record, then one record per row, in the order the rows came.
//!
//! Each record is encoded by the `csv` crate (comma delimiter, quotes only
//! where a field needs them, quotes doubled inside a quoted field). A SQL
//! NULL is written as an empty field.
use vstd::prelude::*;
use vstd::string::StringExecFns;
use vstd::utf8::encode_utf8;

use crate::error::TransferError;

verus! {

// ---------------------------------------------------------------------------
// The `csv` writer, writing into memory
// ---------------------------------------------------------------------------

/// A CSV writer of the `csv` crate that writes into memory. The writer
/// is held in a private field, since `csv::Writer` cannot be declared to
/// Verus (its `std::io::Write` bound); what it holds is known through
/// `csv_written` and `csv_width` alone.
#[verifier::external_body]
pub struct CsvBuffer {
    writer: csv::Writer<Vec<u8>>,
}

/// The `csv` crate's error.
#[verifier::external_type_specification]
#[verifier::external_body]
pub struct ExCsvError(csv::Error);

/// The bytes that a CSV writer holds: everything written to it so far.
pub uninterp spec fn csv_written(w: CsvBuffer) -> Seq<u8>;

/// The number of fields of the first record that a CSV writer wrote, if it
/// wrote one: every later record must have as many.
pub uninterp spec fn csv_width(w: CsvBuffer) -> Option<nat>;

/// Whether a field must be quoted: it holds the delimiter, a quote or a
/// line break.
pub open spec fn csv_needs_quotes(field: Seq<char>) -> bool {
    exists|i: int|
        0 <= i < field.len() && (#[trigger] field[i] == ',' || field[i] == '"' || field[i] == '\r'
            || field[i] == '\n')
}

/// A field with every quote doubled.
pub open spec fn csv_double_quotes(field: Seq<char>) -> Seq<char>
    decreases field.len(),
{
    if field.len() == 0 {
        Seq::empty()
    } else if field[0] == '"' {
        seq!['"', '"'] + csv_double_quotes(field.drop_first())
    } else {
        seq![field[0]] + csv_double_quotes(field.drop_first())
    }
}

/// A field as it is written: quoted, with its quotes doubled, where it
/// needs quotes, and as it is otherwise.
pub open spec fn csv_field(field: Seq<char>) -> Seq<char> {
    if csv_needs_quotes(field) {
        seq!['"'] + csv_double_quotes(field) + seq!['"']
    } else {
        field
    }
}

/// The fields of a record, each as it is written, separated by commas.
pub open spec fn csv_join(fields: Seq<Seq<char>>) -> Seq<char>
    decreases fields.len(),
{
    if fields.len() == 0 {
        Seq::empty()
    } else if fields.len() == 1 {
        csv_field(fields[0])
    } else {
        csv_join(fields.drop_last()) + seq![','] + csv_field(fields.last())
    }
}

/// A record as text, terminator included. A record with no field, or with
/// one empty field, is written as a quoted empty field.
pub open spec fn csv_line(fields: Seq<Seq<char>>) -> Seq<char> {
    if fields.len() == 0 || (fields.len() == 1 && fields[0].len() == 0) {
        seq!['"', '"', '\n']
    } else {
        csv_join(fields) + seq!['\n']
    }
}

/// The bytes of a record: its text in UTF-8.
pub open spec fn csv_record(fields: Seq<Seq<char>>) -> Seq<u8> {
    encode_utf8(csv_line(fields))
}

/// Calls `csv::WriterBuilder::new().delimiter(b',').from_writer(Vec::new())`.
/// Claims that the new writer holds no bytes and has written no record.
#[verifier::external_body]
fn new_csv_writer() -> (w: CsvBuffer)
    ensures
        csv_written(w) == Seq::<u8>::empty(),
        csv_width(w) is None,
{
    CsvBuffer { writer: csv::WriterBuilder::new().delimiter(b',').from_writer(Vec::new()) }
}

/// Calls `csv::Writer::write_record` on a writer into memory, and hands the
/// writer back only when the call succeeds: a writer that failed is left
/// with a partial record and is not used again. Claims that the call fails
/// exactly when an earlier record had another number of fields (writing
/// into a `Vec<u8>` cannot fail otherwise), and that on success the writer
/// holds one more record, `csv_record` of the fields: the writer's defaults
/// (quotes only where needed, quotes doubled, `\n` as terminator) with a
/// comma as delimiter.
#[verifier::external_body]
fn csv_write_record(w: CsvBuffer, fields: &Vec<String>) -> (r: Result<CsvBuffer, csv::Error>)
    ensures
        r is Ok <==> (csv_width(w) is None || csv_width(w) == Some(fields@.len())),
        r is Ok ==> csv_written(r->Ok_0) == csv_written(w) + csv_record(fields.deep_view()),
        r is Ok ==> csv_width(r->Ok_0) == Some(fields@.len()),
{
    let mut w = w;
    match w.writer.write_record(fields) {
        Ok(()) => Ok(w),
        Err(e) => Err(e),
    }
}

/// Calls `csv::Writer::into_inner` on a writer into memory, which flushes
/// the writer's buffer into its `Vec<u8>` and hands the vector back.
/// Claims that this succeeds (a `Vec<u8>` accepts every write) and that the
/// bytes are all that was written.
#[verifier::external_body]
fn csv_into_bytes(w: CsvBuffer) -> (r: Option<Vec<u8>>)
    ensures
        r is Some,
        r.unwrap()@ == csv_written(w),
{
    w.writer.into_inner().ok()
}

// ---------------------------------------------------------------------------
// Cells and the document
// ---------------------------------------------------------------------------

/// One value of a fetched row, as the export sees it.
#[derive(Debug)]
pub enum CellValue {
    /// A SQL NULL.
    Null,
    /// A value, as its text.
    Text(String),
    /// A value that could not be read as text; the field is the reason.
    Unreadable(String),
}

impl CellValue {
    /// The field that this value becomes in the CSV document: a NULL is an
    /// empty field.
    pub open spec fn spec_text(self) -> Seq<char> {
        match self {
            CellValue::Null => Seq::empty(),
            CellValue::Text(s) => s@,
            CellValue::Unreadable(reason) => reason@,
        }
    }

    /// Returns the field that this value becomes in the CSV document.
    pub fn text(&self) -> (field: String)
        ensures
            field@ == self.spec_text(),
            self matches CellValue::Text(s) ==> field@ == s@,
            self matches CellValue::Unreadable(m) ==> field@ == m@,
            self is Null ==> field@.len() == 0,
    {
        match self {
            CellValue::Null => String::new(),
            CellValue::Text(s) => s.clone(),
            CellValue::Unreadable(reason) => reason.clone(),
        }
    }
}

/// A value is written unchanged: a text cell's field is exactly its text,
/// an unreadable cell's field exactly its reason, and a NULL's field is
/// empty.
pub proof fn field_is_the_value_unchanged(cell: CellValue)
    ensures
        cell matches CellValue::Text(s) ==> cell.spec_text() == s@,
        cell matches CellValue::Unreadable(m) ==> cell.spec_text() == m@,
        cell is Null ==> cell.spec_text().len() == 0,
{
}

/// The fields of a row are its values written unchanged, one per value, in
/// order: a text as its text, a NULL as an empty field.
pub proof fn row_fields_are_the_values(row: Seq<CellValue>)
    ensures
        row_fields(row).len() == row.len(),
        forall|k: int|
            0 <= k < row.len() ==> (row[k] matches CellValue::Text(s) ==> #[trigger] row_fields(
                row,
            )[k] == s@),
        forall|k: int|
            0 <= k < row.len() ==> (row[k] matches CellValue::Unreadable(m) ==> #[trigger] row_fields(
                row,
            )[k] == m@),
        forall|k: int| 0 <= k < row.len() ==> (row[k] is Null ==> #[trigger] row_fields(row)[k].len() == 0),
{
}

/// The fields of a row.
pub open spec fn row_fields(row: Seq<CellValue>) -> Seq<Seq<char>> {
    row.map_values(|c: CellValue| c.spec_text())
}

/// The rows of a table, each as the sequence of its values.
pub open spec fn table_cells(rows: Seq<Vec<CellValue>>) -> Seq<Seq<CellValue>> {
    rows.map_values(|row: Vec<CellValue>| row@)
}

/// The data records of a table: one record per row, in order.
pub open spec fn csv_rows(rows: Seq<Seq<CellValue>>) -> Seq<u8>
    decreases rows.len(),
{
    if rows.len() == 0 {
        Seq::empty()
    } else {
        csv_rows(rows.drop_last()) + csv_record(row_fields(rows.last()))
    }
}

/// The CSV document of a table: the header record, then the data records.
pub open spec fn csv_document(header: Seq<Seq<char>>, rows: Seq<Seq<CellValue>>) -> Seq<u8> {
    csv_record(header) + csv_rows(rows)
}

/// Whether every row has one value per column.
pub open spec fn rows_fit(width: nat, rows: Seq<Seq<CellValue>>) -> bool {
    forall|i: int| 0 <= i < rows.len() ==> #[trigger] rows[i].len() == width
}

/// Returns the fields of a row, one per value.
fn row_texts(row: &Vec<CellValue>) -> (fields: Vec<String>)
    ensures
        fields.deep_view() == row_fields(row@),
{
    let mut fields: Vec<String> = Vec::new();
    let mut j: usize = 0;
    while j < row.len()
        invariant
            0 <= j <= row.len(),
            fields@.len() == j,
            forall|k: int| 0 <= k < j ==> (#[trigger] fields@[k])@ == row@[k].spec_text(),
        decreases row.len() - j,
    {
        let field = row[j].text();
        fields.push(field);
        j = j + 1;
    }
    assert(fields.deep_view() =~= row_fields(row@));
    fields
}

/// Writes a table as a CSV document: the column names as the first record,
/// then one record per row, in order, with a NULL as an empty field.
///
/// Fails, with `CsvRecord`, exactly when a row does not have one value per
/// column.
pub fn export_csv(header: &Vec<String>, rows: &Vec<Vec<CellValue>>) -> (r: Result<
    Vec<u8>,
    TransferError,
>)
    ensures
        r is Ok <==> rows_fit(header@.len(), table_cells(rows@)),
        r matches Ok(bytes) ==> bytes@ == csv_document(header.deep_view(), table_cells(rows@)),
        r matches Err(e) ==> e == TransferError::CsvRecord,
{
    let mut w = match csv_write_record(new_csv_writer(), header) {
        Ok(w) => w,
        Err(_) => {
            return Err(TransferError::CsvHeader);
        },
    };
    assert(csv_written(w) == csv_document(header.deep_view(), table_cells(rows@.take(0)))) by {
        assert(table_cells(rows@.take(0)) =~= Seq::<Seq<CellValue>>::empty());
    }
    let mut i: usize = 0;
    while i < rows.len()
        invariant
            0 <= i <= rows.len(),
            csv_width(w) == Some(header@.len()),
            csv_written(w) == csv_document(header.deep_view(), table_cells(rows@.take(i as int))),
            rows_fit(header@.len(), table_cells(rows@.take(i as int))),
        decreases rows.len() - i,
    {
        let fields = row_texts(&rows[i]);
        proof {
            assert(fields@.len() == fields.deep_view().len());
        }
        w = match csv_write_record(w, &fields) {
            Ok(next) => next,
            Err(_) => {
                proof {
                    assert(table_cells(rows@)[i as int] == rows@[i as int]@);
                    assert(!rows_fit(header@.len(), table_cells(rows@)));
                }
                return Err(TransferError::CsvRecord);
            },
        };
        proof {
            let before = table_cells(rows@.take(i as int));
            let after = table_cells(rows@.take(i + 1));
            assert(after =~= before.push(rows@[i as int]@));
            assert(after.drop_last() =~= before);
        }
        i = i + 1;
    }
    assert(rows@.take(rows@.len() as int) =~= rows@);
    match csv_into_bytes(w) {
        Some(bytes) => Ok(bytes),
        None => Err(TransferError::CsvFlush { cause: String::new() }),
    }
}

// ---------------------------------------------------------------------------
// Laws of the document
// ---------------------------------------------------------------------------

/// The column names are the first record of every export: the document
/// begins with the header record, whatever the rows.
pub proof fn header_comes_first(header: Seq<Seq<char>>, rows: Seq<Seq<CellValue>>)
    ensures
        csv_document(header, rows).len() >= csv_record(header).len(),
        csv_document(header, rows).subrange(0, csv_record(header).len() as int) == csv_record(
            header,
        ),
{
    assert(csv_document(header, rows).subrange(0, csv_record(header).len() as int)
        =~= csv_record(header));
}

/// Rows are written in the order they came, one record each: exporting the
/// rows `front` followed by `back` gives the export of `front` followed by
/// the data records of `back`.
pub proof fn rows_keep_their_order(
    header: Seq<Seq<char>>,
    front: Seq<Seq<CellValue>>,
    back: Seq<Seq<CellValue>>,
)
    ensures
        csv_document(header, front + back) == csv_document(header, front) + csv_rows(back),
{
    rows_concatenate(front, back);
    assert(csv_document(header, front + back) =~= csv_document(header, front) + csv_rows(back));
}

/// The data records of two tables one after the other are the records of
/// the first followed by those of the second.
proof fn rows_concatenate(front: Seq<Seq<CellValue>>, back: Seq<Seq<CellValue>>)
    ensures
        csv_rows(front + back) == csv_rows(front) + csv_rows(back),
    decreases back.len(),
{
    if back.len() == 0 {
        assert(front + back =~= front);
        assert(csv_rows(front) + csv_rows(back) =~= csv_rows(front));
    } else {
        let shorter = back.drop_last();
        rows_concatenate(front, shorter);
        assert((front + back).drop_last() =~= front + shorter);
        assert((front + back).last() == back.last());
        let last = csv_record(row_fields(back.last()));
        assert(csv_rows(front + back) == csv_rows(front + shorter) + last);
        assert(csv_rows(back) == csv_rows(shorter) + last);
        assert(csv_rows(front + back) =~= csv_rows(front) + csv_rows(back));
    }
}

/// A NULL is exported as an empty field: replacing a NULL by an empty text
/// leaves the document unchanged.
pub proof fn null_exports_as_empty_field(
    header: Seq<Seq<char>>,
    rows: Seq<Seq<CellValue>>,
    i: int,
    j: int,
    empty: String,
)
    requires
        0 <= i < rows.len(),
        0 <= j < rows[i].len(),
        rows[i][j] is Null,
        empty@.len() == 0,
    ensures
        csv_document(header, rows) == csv_document(
            header,
            rows.update(i, rows[i].update(j, CellValue::Text(empty))),
        ),
{
    let changed = rows.update(i, rows[i].update(j, CellValue::Text(empty)));
    assert(empty@ =~= Seq::<char>::empty());
    assert(row_fields(changed[i]) =~= row_fields(rows[i]));
    same_fields_same_rows(rows, changed);
}

/// Two tables whose rows have the same fields have the same data records.
proof fn same_fields_same_rows(a: Seq<Seq<CellValue>>, b: Seq<Seq<CellValue>>)
    requires
        a.len() == b.len(),
        forall|k: int| 0 <= k < a.len() ==> row_fields(#[trigger] a[k]) == row_fields(b[k]),
    ensures
        csv_rows(a) == csv_rows(b),
    decreases a.len(),
{
    if a.len() > 0 {
        let (a2, b2) = (a.drop_last(), b.drop_last());
        assert forall|k: int| 0 <= k < a2.len() implies row_fields(#[trigger] a2[k]) == row_fields(
            b2[k],
        ) by {
            assert(a2[k] == a[k]);
            assert(b2[k] == b[k]);
        }
        same_fields_same_rows(a2, b2);
        assert(row_fields(a.last()) == row_fields(b.last()));
    }
}

} // verus!
