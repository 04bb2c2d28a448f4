use data_transfers::error::TransferError;
use data_transfers::export::{export_csv, CellValue};

fn header(names: &[&str]) -> Vec<String> {
    names.iter().map(|n| n.to_string()).collect()
}

fn text(value: &str) -> CellValue {
    CellValue::Text(value.to_string())
}

fn as_text(bytes: Vec<u8>) -> String {
    String::from_utf8(bytes).unwrap()
}

fn exported(result: Result<Vec<u8>, TransferError>) -> Vec<u8> {
    match result {
        Ok(bytes) => bytes,
        Err(e) => panic!("export failed: {}", e.message()),
    }
}

#[test]
fn export_writes_header_then_row() {
    let rows = vec![vec![text("1"), text("Alice")]];
    let out = exported(export_csv(&header(&["ID", "NAME"]), &rows));
    assert_eq!(as_text(out), "ID,NAME\n1,Alice\n");
}

#[test]
fn export_quotes_commas_and_doubles_quotes() {
    let rows = vec![vec![text("1"), text("Alice, Smith"), text("Hello \"world\"")]];
    let out = exported(export_csv(&header(&["ID", "NAME", "DESCRIPTION"]), &rows));
    assert_eq!(
        as_text(out),
        "ID,NAME,DESCRIPTION\n\
         1,\"Alice, Smith\",\"Hello \"\"world\"\"\"\n"
    );
}

#[test]
fn export_keeps_row_order() {
    let rows = vec![
        vec![text("1"), text("Alice")],
        vec![text("2"), text("Bob")],
        vec![text("3"), text("Charlie")],
    ];
    let out = exported(export_csv(&header(&["ID", "NAME"]), &rows));
    assert_eq!(
        as_text(out),
        "ID,NAME\n\
         1,Alice\n\
         2,Bob\n\
         3,Charlie\n"
    );
}

#[test]
fn export_writes_null_as_empty_field() {
    let rows = vec![vec![text("1"), text("Alice"), CellValue::Null]];
    let out = exported(export_csv(&header(&["ID", "NAME", "DESCRIPTION"]), &rows));
    assert_eq!(as_text(out), "ID,NAME,DESCRIPTION\n1,Alice,\n");
}

#[test]
fn null_and_empty_text_export_alike() {
    let with_null = vec![vec![CellValue::Null, text("x")]];
    let with_empty = vec![vec![text(""), text("x")]];
    let h = header(&["A", "B"]);
    assert_eq!(exported(export_csv(&h, &with_null)), exported(export_csv(&h, &with_empty)));
}

#[test]
fn unreadable_value_writes_its_reason() {
    let rows = vec![vec![CellValue::Unreadable("bad value".to_string())]];
    let out = exported(export_csv(&header(&["V"]), &rows));
    assert_eq!(as_text(out), "V\nbad value\n");
}

#[test]
fn export_without_rows_is_the_header() {
    let out = exported(export_csv(&header(&["ID", "NAME"]), &Vec::new()));
    assert_eq!(as_text(out), "ID,NAME\n");
}

#[test]
fn export_quotes_line_breaks_and_lone_empty_field() {
    let rows = vec![vec![text("two\nlines")], vec![CellValue::Null]];
    let out = exported(export_csv(&header(&["NOTE"]), &rows));
    assert_eq!(as_text(out), "NOTE\n\"two\nlines\"\n\"\"\n");
}

#[test]
fn export_refuses_a_row_of_another_width() {
    let rows = vec![vec![text("1"), text("Alice")], vec![text("2")]];
    let result = export_csv(&header(&["ID", "NAME"]), &rows);
    assert!(matches!(result, Err(TransferError::CsvRecord)));
}

#[test]
fn cell_text_maps_null_to_empty() {
    assert_eq!(CellValue::Null.text(), "");
    assert_eq!(text("abc").text(), "abc");
    assert_eq!(CellValue::Unreadable("why".to_string()).text(), "why");
}
