//! Opening and closing transactions on a connection, and the flag that says
//! whether a connection is inside one.
//!
//! Each step hands the caller the statement to run; the caller runs it and
//! reports back how it went, and the connection updates its flag and turns a
//! server error into the driver's error for that step.

use vstd::prelude::*;

use crate::errors::{PSQLPyResult, RustPSQLDriverError};
use crate::options::{IsolationLevel, ReadVariant};
use crate::sql::{build_start_qs, start_transaction_qs};
use crate::text::push_str;

verus! {

/// Opening a transaction.
pub trait StartTransaction {
    /// Whether the connection is inside a transaction.
    spec fn spec_in_transaction(&self) -> bool;

    /// The statement that opens a transaction with these settings.
    fn start_transaction(
        &mut self,
        isolation_level: Option<IsolationLevel>,
        read_variant: Option<ReadVariant>,
        deferrable: Option<bool>,
    ) -> (qs: String)
        ensures
            qs@ == start_transaction_qs(isolation_level, read_variant, deferrable),
            final(self).spec_in_transaction() == old(self).spec_in_transaction(),
    ;

    /// Records how running the opening statement went. A failure is
    /// reported as a transaction-begin error carrying the server's message,
    /// and leaves the connection outside a transaction.
    fn transaction_started(&mut self, outcome: Result<(), String>) -> (r: PSQLPyResult<()>)
        ensures
            outcome is Ok ==> r is Ok && final(self).spec_in_transaction(),
            outcome matches Err(e) ==> (r matches Err(RustPSQLDriverError::TransactionBeginError(m))
                && m@ == "Cannot start transaction due to - "@ + e@
                && !final(self).spec_in_transaction()),
    ;
}

/// Closing a transaction, by commit or by rollback.
pub trait CloseTransaction: StartTransaction {
    /// The statement that commits.
    fn commit(&mut self) -> (qs: String)
        ensures
            qs@ == "COMMIT;"@,
            final(self).spec_in_transaction() == old(self).spec_in_transaction(),
    ;

    /// Records how the commit went: on success the connection has left the
    /// transaction; a failure is reported as a commit error.
    fn committed(&mut self, outcome: Result<(), String>) -> (r: PSQLPyResult<()>)
        ensures
            outcome is Ok ==> r is Ok && !final(self).spec_in_transaction(),
            outcome matches Err(e) ==> (r matches Err(RustPSQLDriverError::TransactionCommitError(m))
                && m@ == "Cannot execute COMMIT statement, error - "@ + e@
                && final(self).spec_in_transaction() == old(self).spec_in_transaction()),
    ;

    /// The statement that rolls back.
    fn rollback(&mut self) -> (qs: String)
        ensures
            qs@ == "ROLLBACK;"@,
            final(self).spec_in_transaction() == old(self).spec_in_transaction(),
    ;

    /// Records how the rollback went: on success the connection has left
    /// the transaction; a failure is reported as a rollback error.
    fn rolled_back(&mut self, outcome: Result<(), String>) -> (r: PSQLPyResult<()>)
        ensures
            outcome is Ok ==> r is Ok && !final(self).spec_in_transaction(),
            outcome matches Err(e) ==> (r matches Err(RustPSQLDriverError::TransactionRollbackError(m))
                && m@ == "Cannot execute ROLLBACK statement, error - "@ + e@
                && final(self).spec_in_transaction() == old(self).spec_in_transaction()),
    ;
}

/// The transaction flag of a connection, whether it was taken from a pool
/// or opened on its own: it is set once an opening statement has succeeded
/// and cleared once a commit or a rollback has succeeded or an opening
/// statement has failed.
pub struct ConnectionState {
    in_transaction: bool,
}

impl ConnectionState {
    /// A connection that is not inside a transaction.
    pub fn new() -> (s: Self)
        ensures
            !s.spec_in_transaction(),
    {
        ConnectionState { in_transaction: false }
    }

    /// Whether the connection is inside a transaction.
    pub fn in_transaction(&self) -> (b: bool)
        ensures
            b == self.spec_in_transaction(),
    {
        self.in_transaction
    }
}

/// The message of a failed step: the step's own words, then the server's.
fn step_error_message(prefix: &str, err: &String) -> (m: String)
    ensures
        m@ == prefix@ + err@,
{
    let mut m = String::new();
    push_str(&mut m, prefix);
    push_str(&mut m, err.as_str());
    m
}

/// A query that failed on the server, reported as a connection-execute
/// error carrying the server's message.
pub fn query_error(err: &String) -> (e: RustPSQLDriverError)
    ensures
        e matches RustPSQLDriverError::ConnectionExecuteError(m) && m@ == "Cannot execute query, error - "@ + err@,
{
    RustPSQLDriverError::ConnectionExecuteError(step_error_message("Cannot execute query, error - ", err))
}

/// A query run straight on a pool's connection that failed, reported as a
/// connection-execute error carrying the server's message.
pub fn pool_query_error(err: &String) -> (e: RustPSQLDriverError)
    ensures
        e matches RustPSQLDriverError::ConnectionExecuteError(m)
            && m@ == "Cannot execute statement from ConnectionPool, error - "@ + err@,
{
    RustPSQLDriverError::ConnectionExecuteError(step_error_message("Cannot execute statement from ConnectionPool, error - ", err))
}

impl StartTransaction for ConnectionState {
    closed spec fn spec_in_transaction(&self) -> bool {
        self.in_transaction
    }

    fn start_transaction(
        &mut self,
        isolation_level: Option<IsolationLevel>,
        read_variant: Option<ReadVariant>,
        deferrable: Option<bool>,
    ) -> (qs: String)
    {
        build_start_qs(isolation_level, read_variant, deferrable)
    }

    fn transaction_started(&mut self, outcome: Result<(), String>) -> (r: PSQLPyResult<()>)
    {
        match outcome {
            Ok(()) => {
                self.in_transaction = true;
                Ok(())
            },
            Err(e) => {
                self.in_transaction = false;
                Err(RustPSQLDriverError::TransactionBeginError(
                step_error_message("Cannot start transaction due to - ", &e),
            ))
            },
        }
    }
}

impl CloseTransaction for ConnectionState {
    fn commit(&mut self) -> (qs: String) {
        "COMMIT;".to_string()
    }

    fn committed(&mut self, outcome: Result<(), String>) -> (r: PSQLPyResult<()>)
    {
        match outcome {
            Ok(()) => {
                self.in_transaction = false;
                Ok(())
            },
            Err(e) => Err(RustPSQLDriverError::TransactionCommitError(
                step_error_message("Cannot execute COMMIT statement, error - ", &e),
            )),
        }
    }

    fn rollback(&mut self) -> (qs: String) {
        "ROLLBACK;".to_string()
    }

    fn rolled_back(&mut self, outcome: Result<(), String>) -> (r: PSQLPyResult<()>)
    {
        match outcome {
            Ok(()) => {
                self.in_transaction = false;
                Ok(())
            },
            Err(e) => Err(RustPSQLDriverError::TransactionRollbackError(
                step_error_message("Cannot execute ROLLBACK statement, error - ", &e),
            )),
        }
    }
}

} // verus!
