use zed_core::statement::{
    contains_nul, has_more_sql, holds_statement, SqlType, Statement, StatementError, StepAction, StepResult,
    SQLITE_BLOB, SQLITE_DONE, SQLITE_FLOAT, SQLITE_INTEGER, SQLITE_MISUSE, SQLITE_NULL, SQLITE_ROW,
    SQLITE_TEXT,
};

fn statement_with(counts: &[i32]) -> Statement {
    let mut s = Statement::new();
    for c in counts {
        s.add_prepared(*c, true, true).unwrap();
    }
    s
}

#[test]
fn result_codes_are_sqlites() {
    assert_eq!(SQLITE_ROW, libsqlite3_sys::SQLITE_ROW);
    assert_eq!(SQLITE_DONE, libsqlite3_sys::SQLITE_DONE);
    assert_eq!(SQLITE_MISUSE, libsqlite3_sys::SQLITE_MISUSE);
    assert_eq!(SQLITE_INTEGER, libsqlite3_sys::SQLITE_INTEGER);
    assert_eq!(SQLITE_FLOAT, libsqlite3_sys::SQLITE_FLOAT);
    assert_eq!(SQLITE_TEXT, libsqlite3_sys::SQLITE_TEXT);
    assert_eq!(SQLITE_BLOB, libsqlite3_sys::SQLITE_BLOB);
    assert_eq!(SQLITE_NULL, libsqlite3_sys::SQLITE_NULL);
}

#[test]
fn binding_multiple_statements_with_parameter_gaps() {
    // "INSERT INTO test(col) VALUES (?3)" has three parameters,
    // "SELECT * FROM test WHERE col = ?1" has one.
    let statement = statement_with(&[3, 1]);
    assert_eq!(statement.bind_targets(1), Ok(vec![0, 1]));
    assert_eq!(statement.bind_targets(2), Ok(vec![0]));
    assert_eq!(statement.bind_targets(3), Ok(vec![0]));
}

#[test]
fn bind_past_every_statement_fails() {
    let statement = statement_with(&[3, 1]);
    assert_eq!(statement.bind_targets(4), Err(StatementError::BindFailed));
    assert_eq!(Statement::new().bind_targets(1), Err(StatementError::BindFailed));
}

#[test]
fn bind_succeeds_exactly_up_to_parameter_count() {
    let statement = statement_with(&[2, 5, 0]);
    assert_eq!(statement.parameter_count(), 5);
    for index in -2..8 {
        assert_eq!(statement.bind_targets(index).is_ok(), index <= statement.parameter_count());
    }
    assert_eq!(statement.bind_targets(4), Ok(vec![1]));
    assert_eq!(statement.bind_targets(0), Ok(vec![0, 1, 2]));
}

#[test]
fn parameter_count_is_largest_or_zero() {
    assert_eq!(Statement::new().parameter_count(), 0);
    assert_eq!(statement_with(&[4]).parameter_count(), 4);
    assert_eq!(statement_with(&[1, 7, 3]).parameter_count(), 7);
    assert_eq!(statement_with(&[0, 0]).parameter_count(), 0);
}

#[test]
fn step_row_stays_on_statement() {
    let mut s = statement_with(&[0, 0]);
    assert_eq!(s.step(SQLITE_ROW), StepAction::Report(StepResult::Row));
    assert_eq!(s.current_statement(), 0);
}

#[test]
fn step_done_moves_through_statements() {
    let mut s = statement_with(&[0, 0, 0]);
    assert_eq!(s.step(SQLITE_DONE), StepAction::StepNext);
    assert_eq!(s.current_statement(), 1);
    assert_eq!(s.step(SQLITE_DONE), StepAction::StepNext);
    assert_eq!(s.current_statement(), 2);
    assert_eq!(s.step(SQLITE_DONE), StepAction::Report(StepResult::Done));
    assert_eq!(s.current_statement(), 2);
    s.reset();
    assert_eq!(s.current_statement(), 0);
}

#[test]
fn step_errors() {
    let mut s = statement_with(&[0]);
    assert_eq!(s.step(SQLITE_MISUSE), StepAction::Fail(StatementError::Misuse));
    assert_eq!(s.step(1), StepAction::ConnectionError);
    assert_eq!(s.current_statement(), 0);
}

#[test]
fn write_on_read_only_connection_is_refused() {
    let mut s = Statement::new();
    assert_eq!(s.add_prepared(1, false, false), Err(StatementError::WriteNotAllowed));
    assert_eq!(s.statement_count(), 1);
    assert_eq!(s.add_prepared(0, true, false), Ok(()));
    assert_eq!(s.add_prepared(0, false, true), Ok(()));
    assert_eq!(s.statement_count(), 3);
}

#[test]
fn column_types() {
    assert_eq!(Statement::column_type(SQLITE_INTEGER), Ok(SqlType::Integer));
    assert_eq!(Statement::column_type(SQLITE_FLOAT), Ok(SqlType::Float));
    assert_eq!(Statement::column_type(SQLITE_TEXT), Ok(SqlType::Text));
    assert_eq!(Statement::column_type(SQLITE_BLOB), Ok(SqlType::Blob));
    assert_eq!(Statement::column_type(SQLITE_NULL), Ok(SqlType::Null));
    assert_eq!(Statement::column_type(0), Err(StatementError::UnexpectedColumnType));
    assert_eq!(Statement::column_type(6), Err(StatementError::UnexpectedColumnType));
}

#[test]
fn blob_round_trips() {
    let blob: &[u8] = &[0, 1, 2, 4, 8, 16, 32, 64];
    // "INSERT INTO blobs (data) VALUES (?)": one statement, one parameter.
    let mut write = statement_with(&[1]);
    assert_eq!(write.bind_targets(1), Ok(vec![0]));
    assert_eq!(write.step(SQLITE_DONE), StepAction::Report(StepResult::Done));
    // "SELECT * FROM blobs": one row, then the end.
    let mut read = statement_with(&[0]);
    assert_eq!(read.step(SQLITE_ROW), StepAction::Report(StepResult::Row));
    assert_eq!(Statement::column_blob(Some(blob)), blob);
    assert_eq!(Statement::column_blob(None), &[] as &[u8]);
    assert_eq!(read.step(SQLITE_DONE), StepAction::Report(StepResult::Done));
}

#[test]
fn column_text_decodes_utf8() {
    let text = "这是一个测试";
    assert_eq!(Statement::column_text(Some(text.as_bytes())), Ok(text));
    assert_eq!(Statement::column_text(None), Ok(""));
    assert_eq!(Statement::column_text(Some(&[0xff, 0xfe])), Err(StatementError::InvalidUtf8));
}

#[test]
fn more_sql_after_trimming() {
    assert!(has_more_sql("SELECT 1"));
    assert!(has_more_sql("  \n SELECT * FROM test WHERE col = ?1"));
    assert!(!has_more_sql(""));
    assert!(!has_more_sql("   \n\t"));
    assert!(!has_more_sql(";"));
    assert!(!has_more_sql("  ;\n"));
    assert!(has_more_sql(";;"));
    assert!(!has_more_sql("\u{3000};\u{a0}\u{2029}"));
    assert!(has_more_sql("\u{200b};"));
    assert!(holds_statement("x"));
    assert!(!holds_statement(";"));
    assert!(!holds_statement(""));
}

#[test]
fn every_row_of_every_statement_in_order() {
    // Three statements with 2, 0 and 1 rows.
    let mut s = statement_with(&[0, 0, 0]);
    let codes = [SQLITE_ROW, SQLITE_ROW, SQLITE_DONE, SQLITE_DONE, SQLITE_ROW, SQLITE_DONE];
    let actions: Vec<StepAction> = codes.iter().map(|c| s.step(*c)).collect();
    assert_eq!(
        actions,
        vec![
            StepAction::Report(StepResult::Row),
            StepAction::Report(StepResult::Row),
            StepAction::StepNext,
            StepAction::StepNext,
            StepAction::Report(StepResult::Row),
            StepAction::Report(StepResult::Done),
        ]
    );
}

#[test]
fn nul_in_query() {
    assert!(contains_nul("SELECT 1;\0"));
    assert!(contains_nul("\0"));
    assert!(!contains_nul("SELECT '这是一个测试'"));
    assert!(!contains_nul(""));
}
