use data_transfers::error::TransferError;
use data_transfers::export::CellValue;
use data_transfers::oracle::{row_cells, select_all, OracleClient};

#[test]
fn table_and_view_queries_select_everything() {
    assert_eq!(select_all("EMPLOYEES"), "SELECT * FROM EMPLOYEES");
    assert_eq!(select_all("ACTIVE_EMPLOYEES"), "SELECT * FROM ACTIVE_EMPLOYEES");
    assert_eq!(select_all(""), "SELECT * FROM ");
}

#[test]
fn row_values_become_cells() {
    let values: Vec<Result<Option<String>, String>> =
        vec![Ok(Some("1".to_string())), Ok(None), Err("ORA-01722".to_string())];
    let cells = row_cells(&values);
    assert_eq!(cells.len(), 3);
    assert!(matches!(&cells[0], CellValue::Text(t) if t == "1"));
    assert!(matches!(&cells[1], CellValue::Null));
    assert!(matches!(&cells[2], CellValue::Unreadable(r) if r == "ORA-01722"));
}

#[test]
fn connect_failure_is_reported_as_oracle_connect() {
    // No Oracle client library is installed where the tests run, so the
    // driver refuses before any network traffic.
    let result = OracleClient::connect("scott", "tiger", "localhost:1/none");
    match result {
        Err(err) => {
            assert_eq!(err.message(), "Failed to connect to Oracle database");
            match err {
                TransferError::OracleConnect { cause } => assert!(!cause.is_empty()),
                other => panic!("unexpected error {}", other.message()),
            }
        }
        Ok(_) => panic!("connected without a database"),
    }
}
