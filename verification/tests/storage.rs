use soft_plc::hvac::HVACSystem;
use soft_plc::storage::{
    digital_row, query_for, row_limit_statement, rows_or_empty, select_query, should_seed_variables,
    IoTable, ROW_LIMIT,
};
use soft_plc::auth::DbError;

#[test]
fn select_queries() {
    assert_eq!(
        select_query(IoTable::AnalogInputsOutputs, true),
        "SELECT * FROM analog_inputs_outputs ORDER BY timestamp DESC LIMIT 1"
    );
    assert_eq!(select_query(IoTable::AnalogInputsOutputs, false), "SELECT * FROM analog_inputs_outputs");
    assert_eq!(
        select_query(IoTable::DigitalInputsOutputs, true),
        "SELECT * FROM digital_inputs_outputs ORDER BY timestamp DESC LIMIT 1"
    );
    assert_eq!(select_query(IoTable::DigitalInputsOutputs, false), "SELECT * FROM digital_inputs_outputs");
    assert_eq!(select_query(IoTable::Variables, true), "SELECT * FROM variables ORDER BY timestamp DESC LIMIT 1");
    assert_eq!(select_query(IoTable::Variables, false), "SELECT * FROM variables");
}

#[test]
fn api_queries_default_to_all_rows() {
    assert_eq!(query_for(IoTable::Variables, None), "SELECT * FROM variables");
    assert_eq!(query_for(IoTable::Variables, Some(false)), "SELECT * FROM variables");
    assert_eq!(
        query_for(IoTable::Variables, Some(true)),
        "SELECT * FROM variables ORDER BY timestamp DESC LIMIT 1"
    );
}

#[test]
fn failed_reads_answer_no_rows() {
    assert_eq!(rows_or_empty(Ok(vec![1, 2, 3])), vec![1, 2, 3]);
    assert_eq!(rows_or_empty::<i32>(Err(DbError)), Vec::<i32>::new());
}

#[test]
fn row_limit_keeps_thirty_rows() {
    assert_eq!(ROW_LIMIT, 30);
    assert_eq!(
        row_limit_statement(IoTable::AnalogInputsOutputs),
        "DELETE FROM analog_inputs_outputs WHERE id IN (SELECT id FROM analog_inputs_outputs \
         ORDER BY timestamp ASC LIMIT (SELECT MAX(0, COUNT(*) - 30) FROM analog_inputs_outputs))"
    );
}

#[test]
fn row_limit_statement_trims_a_table() {
    let conn = rusqlite::Connection::open_in_memory().unwrap();
    conn.execute(
        "CREATE TABLE digital_inputs_outputs (id INTEGER PRIMARY KEY AUTOINCREMENT, timestamp TEXT)",
        [],
    )
    .unwrap();
    for i in 0..45 {
        conn.execute(
            "INSERT INTO digital_inputs_outputs (timestamp) VALUES (?1)",
            [format!("2025-01-01T00:00:{:02}", i)],
        )
        .unwrap();
    }
    conn.execute(&row_limit_statement(IoTable::DigitalInputsOutputs), []).unwrap();
    let count: i64 = conn.query_row("SELECT COUNT(*) FROM digital_inputs_outputs", [], |r| r.get(0)).unwrap();
    assert_eq!(count, 30);
    let oldest: i64 = conn.query_row("SELECT MIN(id) FROM digital_inputs_outputs", [], |r| r.get(0)).unwrap();
    assert_eq!(oldest, 16);
}

#[test]
fn digital_values_are_stored_as_bits() {
    let mut s = HVACSystem::new(None);
    s.digital_input_2 = true;
    s.process_digital_inputs();
    assert_eq!(digital_row(&s), vec![0, 0, 1, 0, 0, 1, 0, 0, 0, 0, 1, 0, 1, 1, 0, 1]);
}

#[test]
fn variables_are_seeded_once() {
    assert!(should_seed_variables(0));
    assert!(!should_seed_variables(1));
    assert!(!should_seed_variables(12));
}
