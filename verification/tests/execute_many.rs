use psqlpy::connection::{pool_query_error, query_error, CloseTransaction, ConnectionState, StartTransaction};
use psqlpy::errors::RustPSQLDriverError;
use psqlpy::execute_many::{
    drain_ordered, ExecuteMany, ExecuteManyAction, ExecuteManyEvent, ExecuteManyPhase, ExecuteManyWrap,
};
use psqlpy::options::IsolationLevel;

fn execute_text(a: &ExecuteManyAction) -> &'static str {
    match a {
        ExecuteManyAction::Execute(s) => s,
        other => panic!("expected Execute, got {:?}", other),
    }
}

fn finish_message(a: ExecuteManyAction) -> String {
    match a {
        ExecuteManyAction::Finish(Err(RustPSQLDriverError::ConnectionExecuteError(m))) => m,
        other => panic!("expected a failed Finish, got {:?}", other),
    }
}

#[test]
fn wrap_follows_transaction_state() {
    assert_eq!(ExecuteManyWrap::for_connection(false), ExecuteManyWrap::Transaction);
    assert_eq!(ExecuteManyWrap::for_connection(true), ExecuteManyWrap::Savepoint);
    assert_eq!(ExecuteManyWrap::Transaction.open_sql(), "BEGIN");
    assert_eq!(ExecuteManyWrap::Savepoint.open_sql(), "SAVEPOINT psqlpy_execute_many");
    assert_eq!(ExecuteManyWrap::Transaction.close_sql(true), "COMMIT");
    assert_eq!(ExecuteManyWrap::Transaction.close_sql(false), "ROLLBACK");
    assert_eq!(ExecuteManyWrap::Savepoint.close_sql(true), "RELEASE SAVEPOINT psqlpy_execute_many");
    assert_eq!(
        ExecuteManyWrap::Savepoint.close_sql(false),
        "ROLLBACK TO SAVEPOINT psqlpy_execute_many; RELEASE SAVEPOINT psqlpy_execute_many"
    );
}

#[test]
fn failed_batch_closes_by_rolling_back() {
    for w in [ExecuteManyWrap::Transaction, ExecuteManyWrap::Savepoint] {
        assert!(w.close_sql(false).starts_with("ROLLBACK"));
    }
    assert!(ExecuteManyWrap::Savepoint.close_sql(false).ends_with("RELEASE SAVEPOINT psqlpy_execute_many"));
}

#[test]
fn drain_reports_first_error() {
    assert!(drain_ordered(&vec![Ok(()), Ok(())]).is_ok());
    assert!(drain_ordered(&vec![]).is_ok());
    match drain_ordered(&vec![Ok(()), Err("boom".to_string()), Err("later".to_string())]) {
        Err(RustPSQLDriverError::ConnectionExecuteError(m)) => {
            assert_eq!(m, "Error occurred in `execute_many` statement: boom")
        }
        other => panic!("unexpected {:?}", other),
    }
}

#[test]
fn nothing_to_do_without_parameters() {
    let (m, a) = ExecuteMany::start(None, false);
    assert!(matches!(m.phase, ExecuteManyPhase::Finished));
    assert!(matches!(a, ExecuteManyAction::Finish(Ok(()))));
    let (_, a) = ExecuteMany::start(Some(0), true);
    assert!(matches!(a, ExecuteManyAction::Finish(Ok(()))));
}

#[test]
fn successful_run_outside_transaction() {
    let (mut m, a) = ExecuteMany::start(Some(3), false);
    assert!(matches!(a, ExecuteManyAction::BuildTemplate));
    let a = m.step(ExecuteManyEvent::TemplateBuilt(Ok(())));
    assert_eq!(execute_text(&a), "BEGIN");
    let a = m.step(ExecuteManyEvent::Executed(Ok(())));
    assert!(matches!(a, ExecuteManyAction::RunBatch));
    let a = m.step(ExecuteManyEvent::BatchRan(vec![Ok(()), Ok(()), Ok(())]));
    assert_eq!(execute_text(&a), "COMMIT");
    let a = m.step(ExecuteManyEvent::Executed(Ok(())));
    assert!(matches!(a, ExecuteManyAction::Finish(Ok(()))));
    assert!(matches!(m.phase, ExecuteManyPhase::Finished));
}

#[test]
fn failed_batch_inside_transaction_rolls_back_to_savepoint() {
    let (mut m, _) = ExecuteMany::start(Some(2), true);
    let a = m.step(ExecuteManyEvent::TemplateBuilt(Ok(())));
    assert_eq!(execute_text(&a), "SAVEPOINT psqlpy_execute_many");
    m.step(ExecuteManyEvent::Executed(Ok(())));
    let a = m.step(ExecuteManyEvent::BatchRan(vec![Err("duplicate key".to_string()), Ok(())]));
    assert_eq!(
        execute_text(&a),
        "ROLLBACK TO SAVEPOINT psqlpy_execute_many; RELEASE SAVEPOINT psqlpy_execute_many"
    );
    // The batch's error is reported even if the closing fails too.
    let a = m.step(ExecuteManyEvent::Executed(Err("gone".to_string())));
    assert_eq!(finish_message(a), "Error occurred in `execute_many` statement: duplicate key");
}

#[test]
fn failures_before_the_batch() {
    let (mut m, _) = ExecuteMany::start(Some(1), false);
    let a = m.step(ExecuteManyEvent::TemplateBuilt(Err("bad".to_string())));
    assert_eq!(finish_message(a), "Cannot build statement in execute_many: bad");

    let (mut m, _) = ExecuteMany::start(Some(1), false);
    m.step(ExecuteManyEvent::TemplateBuilt(Ok(())));
    let a = m.step(ExecuteManyEvent::Executed(Err("no".to_string())));
    assert_eq!(finish_message(a), "Cannot open transaction wrap in execute_many: no");
}

#[test]
fn failed_commit_is_reported() {
    let (mut m, _) = ExecuteMany::start(Some(1), false);
    m.step(ExecuteManyEvent::TemplateBuilt(Ok(())));
    m.step(ExecuteManyEvent::Executed(Ok(())));
    m.step(ExecuteManyEvent::BatchRan(vec![Ok(())]));
    let a = m.step(ExecuteManyEvent::Executed(Err("io".to_string())));
    assert_eq!(finish_message(a), "Failed to finalize execute_many wrap: io");
}

#[test]
fn out_of_order_event_ends_the_run() {
    let (mut m, _) = ExecuteMany::start(Some(1), false);
    let a = m.step(ExecuteManyEvent::BatchRan(vec![]));
    assert!(matches!(a, ExecuteManyAction::Finish(Err(RustPSQLDriverError::ConnectionExecuteError(_)))));
    assert!(matches!(m.phase, ExecuteManyPhase::Finished));
}

#[test]
fn connection_is_in_transaction_once_started() {
    let mut c = ConnectionState::new();
    assert!(!c.in_transaction());
    let qs = c.start_transaction(Some(IsolationLevel::RepeatableRead), None, None);
    assert_eq!(qs, "START TRANSACTION ISOLATION LEVEL REPEATABLE READ");
    assert!(!c.in_transaction());
    assert!(c.transaction_started(Ok(())).is_ok());
    assert!(c.in_transaction());
    assert_eq!(ExecuteManyWrap::for_connection(c.in_transaction()), ExecuteManyWrap::Savepoint);
    assert_eq!(c.commit(), "COMMIT;");
    assert!(c.committed(Ok(())).is_ok());
    assert!(!c.in_transaction());
}

#[test]
fn connection_enters_transaction_on_success_only() {
    let mut c = ConnectionState::new();
    c.start_transaction(None, None, None);
    assert!(!c.in_transaction());
    match c.transaction_started(Err("refused".to_string())) {
        Err(RustPSQLDriverError::TransactionBeginError(m)) => {
            assert_eq!(m, "Cannot start transaction due to - refused")
        }
        other => panic!("unexpected {:?}", other),
    }
    assert!(!c.in_transaction());
    assert!(c.transaction_started(Ok(())).is_ok());
    assert!(c.in_transaction());
    assert_eq!(c.rollback(), "ROLLBACK;");
    match c.rolled_back(Err("lost".to_string())) {
        Err(RustPSQLDriverError::TransactionRollbackError(m)) => {
            assert_eq!(m, "Cannot execute ROLLBACK statement, error - lost")
        }
        other => panic!("unexpected {:?}", other),
    }
    assert!(c.in_transaction());
    assert!(c.rolled_back(Ok(())).is_ok());
    assert!(!c.in_transaction());
    match c.committed(Err("x".to_string())) {
        Err(RustPSQLDriverError::TransactionCommitError(m)) => {
            assert_eq!(m, "Cannot execute COMMIT statement, error - x")
        }
        other => panic!("unexpected {:?}", other),
    }
}

#[test]
fn query_error_texts() {
    match query_error(&"Database engine exception: syntax error.".to_string()) {
        RustPSQLDriverError::ConnectionExecuteError(m) => {
            assert_eq!(m, "Cannot execute query, error - Database engine exception: syntax error.")
        }
        other => panic!("unexpected {:?}", other),
    }
    assert_eq!(
        RustPSQLDriverError::RustDriverError("syntax error".to_string()).to_message(),
        "Database engine exception: syntax error."
    );
    match pool_query_error(&"no such table".to_string()) {
        RustPSQLDriverError::ConnectionExecuteError(m) => {
            assert_eq!(m, "Cannot execute statement from ConnectionPool, error - no such table")
        }
        other => panic!("unexpected {:?}", other),
    }
}
