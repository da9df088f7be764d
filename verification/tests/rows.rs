use zed_core::rows::{QueryMode, RowAction, RowProtocol};
use zed_core::statement::{StatementError, StepResult};

fn drive(mode: QueryMode, results: &[StepResult]) -> Vec<RowAction> {
    let mut p = RowProtocol::new(mode);
    let mut actions = Vec::new();
    for r in results {
        if p.is_finished() {
            break;
        }
        actions.push(p.on_step(*r));
    }
    actions
}

use StepResult::{Done, Row};

#[test]
fn maybe_returns_options() {
    assert_eq!(drive(QueryMode::Maybe, &[Done]), vec![RowAction::Finish]);
    assert_eq!(drive(QueryMode::Maybe, &[Row, Done]), vec![RowAction::ReadRow, RowAction::Finish]);
}

#[test]
fn maybe_with_two_rows_fails() {
    assert_eq!(
        drive(QueryMode::Maybe, &[Row, Row, Done]),
        vec![RowAction::ReadRow, RowAction::Fail(StatementError::MultipleRows)]
    );
}

#[test]
fn single_needs_exactly_one_row() {
    assert_eq!(drive(QueryMode::Single, &[Done]), vec![RowAction::Fail(StatementError::NoRows)]);
    assert_eq!(drive(QueryMode::Single, &[Row, Done]), vec![RowAction::ReadRow, RowAction::Finish]);
    assert_eq!(
        drive(QueryMode::Single, &[Row, Row]),
        vec![RowAction::ReadRow, RowAction::Fail(StatementError::MultipleRows)]
    );
}

#[test]
fn every_row_reads_each_row() {
    assert_eq!(
        drive(QueryMode::EveryRow, &[Row, Row, Row, Done]),
        vec![RowAction::ReadRow, RowAction::ReadRow, RowAction::ReadRow, RowAction::Finish]
    );
    assert_eq!(drive(QueryMode::EveryRow, &[Done]), vec![RowAction::Finish]);
}

#[test]
fn exec_skips_rows() {
    assert_eq!(
        drive(QueryMode::Exec, &[Row, Row, Done]),
        vec![RowAction::Skip, RowAction::Skip, RowAction::Finish]
    );
}

#[test]
fn protocol_stops_after_ending() {
    let mut p = RowProtocol::new(QueryMode::Single);
    assert!(!p.is_finished());
    assert_eq!(p.on_step(Done), RowAction::Fail(StatementError::NoRows));
    assert!(p.is_finished());
}
