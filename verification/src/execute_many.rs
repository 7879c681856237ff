//! The decisions of `execute_many`, which runs one statement for many sets
//! of parameters.
//!
//! The batch is pipelined on one connection and bracketed so that it is
//! atomic: outside a transaction it runs in its own `BEGIN`/`COMMIT`, inside
//! a transaction in the savepoint `psqlpy_execute_many`. A failed batch is
//! rolled back (to the savepoint, which is then released), so that it never
//! leaves the caller's surrounding transaction aborted.
//!
//! The caller performs each action the machine asks for and reports what
//! came of it; the machine decides what comes next.

use vstd::prelude::*;

use crate::errors::{PSQLPyResult, RustPSQLDriverError};
use crate::text::push_str;

verus! {

/// How a batch is bracketed.
#[derive(Clone, Copy, Debug, PartialEq, Eq, Structural)]
pub enum ExecuteManyWrap {
    /// An implicit `BEGIN`/`COMMIT`, for a connection outside a transaction.
    Transaction,
    /// A savepoint, for a connection already inside a transaction.
    Savepoint,
}

pub open spec fn open_text(w: ExecuteManyWrap) -> Seq<char> {
    match w {
        ExecuteManyWrap::Transaction => "BEGIN"@,
        ExecuteManyWrap::Savepoint => "SAVEPOINT psqlpy_execute_many"@,
    }
}

pub open spec fn close_text(w: ExecuteManyWrap, batch_ok: bool) -> Seq<char> {
    match (w, batch_ok) {
        (ExecuteManyWrap::Transaction, true) => "COMMIT"@,
        (ExecuteManyWrap::Transaction, false) => "ROLLBACK"@,
        (ExecuteManyWrap::Savepoint, true) => "RELEASE SAVEPOINT psqlpy_execute_many"@,
        (ExecuteManyWrap::Savepoint, false) =>
            "ROLLBACK TO SAVEPOINT psqlpy_execute_many; RELEASE SAVEPOINT psqlpy_execute_many"@,
    }
}

/// A batch is atomic: after a failure, the closing statement starts by
/// rolling back (the whole transaction, or to the savepoint); after a
/// success, it keeps the work (commit, or release of the savepoint).
pub proof fn lemma_close_keeps_or_undoes(w: ExecuteManyWrap)
    ensures
        close_text(w, false).take(8) == "ROLLBACK"@,
        w == ExecuteManyWrap::Transaction ==> close_text(w, true) == "COMMIT"@,
        w == ExecuteManyWrap::Savepoint ==> close_text(w, true) == "RELEASE SAVEPOINT psqlpy_execute_many"@,
        w == ExecuteManyWrap::Savepoint ==> close_text(w, false).skip(close_text(w, false).len() - 37)
            == "RELEASE SAVEPOINT psqlpy_execute_many"@,
{
    reveal_strlit("ROLLBACK");
    reveal_strlit("ROLLBACK TO SAVEPOINT psqlpy_execute_many; RELEASE SAVEPOINT psqlpy_execute_many");
    reveal_strlit("RELEASE SAVEPOINT psqlpy_execute_many");
    assert(close_text(w, false).take(8) =~= "ROLLBACK"@);
    if w == ExecuteManyWrap::Savepoint {
        assert(close_text(w, false).skip(close_text(w, false).len() - 37) =~= "RELEASE SAVEPOINT psqlpy_execute_many"@);
    }
}

impl ExecuteManyWrap {
    /// The bracket for a connection, by whether it is in a transaction.
    pub fn for_connection(in_transaction: bool) -> (w: Self)
        ensures
            w == (if in_transaction { ExecuteManyWrap::Savepoint } else { ExecuteManyWrap::Transaction }),
    {
        if in_transaction {
            ExecuteManyWrap::Savepoint
        } else {
            ExecuteManyWrap::Transaction
        }
    }

    /// The statement that opens the bracket.
    pub fn open_sql(self) -> (s: &'static str)
        ensures
            s@ == open_text(self),
    {
        match self {
            ExecuteManyWrap::Transaction => "BEGIN",
            ExecuteManyWrap::Savepoint => "SAVEPOINT psqlpy_execute_many",
        }
    }

    /// The statement that closes the bracket: it keeps the batch's work when
    /// the batch succeeded and undoes it otherwise.
    pub fn close_sql(self, batch_ok: bool) -> (s: &'static str)
        ensures
            s@ == close_text(self, batch_ok),
    {
        match (self, batch_ok) {
            (ExecuteManyWrap::Transaction, true) => "COMMIT",
            (ExecuteManyWrap::Transaction, false) => "ROLLBACK",
            (ExecuteManyWrap::Savepoint, true) => "RELEASE SAVEPOINT psqlpy_execute_many",
            (ExecuteManyWrap::Savepoint, false) =>
                "ROLLBACK TO SAVEPOINT psqlpy_execute_many; RELEASE SAVEPOINT psqlpy_execute_many",
        }
    }
}

/// Where an `execute_many` run stands.
#[derive(Clone, Debug)]
pub enum ExecuteManyPhase {
    /// The statement is being built from the first parameter set.
    Building { wrap: ExecuteManyWrap },
    /// The bracket is being opened.
    Opening { wrap: ExecuteManyWrap },
    /// The batch is running.
    Running { wrap: ExecuteManyWrap },
    /// The bracket is being closed; `batch_error` is the batch's error, if
    /// it failed.
    Closing { wrap: ExecuteManyWrap, batch_error: Option<RustPSQLDriverError> },
    /// The run is over.
    Finished,
}

/// What the caller must do next.
#[derive(Debug)]
pub enum ExecuteManyAction {
    /// Build the statement from the first parameter set.
    BuildTemplate,
    /// Execute this statement on the connection.
    Execute(&'static str),
    /// Run the statement for every parameter set, pipelined.
    RunBatch,
    /// Return this result to the user.
    Finish(PSQLPyResult<()>),
}

/// What came of the last action.
#[derive(Debug)]
pub enum ExecuteManyEvent {
    /// The statement was built, or failed to build with this message.
    TemplateBuilt(Result<(), String>),
    /// The statement asked for was executed, or failed with this message.
    Executed(Result<(), String>),
    /// The batch ran; one result per parameter set, in order.
    BatchRan(Vec<Result<(), String>>),
}

/// The first error among the results of a batch, if any.
pub open spec fn first_error(results: Seq<Result<(), String>>) -> Option<Seq<char>>
    decreases results.len(),
{
    if results.len() == 0 {
        None
    } else {
        match results[0] {
            Err(e) => Some(e@),
            Ok(()) => first_error(results.drop_first()),
        }
    }
}

/// A batch fails exactly when one of its parameter sets failed, wherever
/// it stands in the batch, and it reports the error of the first set that
/// failed.
pub proof fn lemma_first_error_is_first_failure(results: Seq<Result<(), String>>)
    ensures
        first_error(results) is None <==> (forall|i: int| 0 <= i < results.len() ==> #[trigger] results[i] is Ok),
        first_error(results) matches Some(m) ==> exists|i: int|
            0 <= i < results.len() && (#[trigger] results[i] matches Err(e) && e@ == m) && forall|j: int|
                0 <= j < i ==> #[trigger] results[j] is Ok,
    decreases results.len(),
{
    if results.len() > 0 {
        let rest = results.drop_first();
        lemma_first_error_is_first_failure(rest);
        match results[0] {
            Err(e) => {
                assert(results[0] matches Err(e2) && e2@ == e@);
            },
            Ok(()) => {
                assert forall|i: int| 0 < i < results.len() implies results[i] == rest[i - 1] by {}
                if first_error(rest) is None {
                    assert forall|i: int| 0 <= i < results.len() implies #[trigger] results[i] is Ok by {
                        if i > 0 {
                            assert(rest[i - 1] is Ok);
                        }
                    }
                } else {
                    let m = first_error(rest)->0;
                    let k = choose|k: int|
                        0 <= k < rest.len() && (#[trigger] rest[k] matches Err(e) && e@ == m) && forall|j: int|
                            0 <= j < k ==> #[trigger] rest[j] is Ok;
                    assert(results[k + 1] == rest[k]);
                    assert forall|j: int| 0 <= j < k + 1 implies #[trigger] results[j] is Ok by {
                        if j > 0 {
                            assert(results[j] == rest[j - 1]);
                        }
                    }
                    assert(!(results[k + 1] is Ok));
                }
            },
        }
    }
}

/// A batch in which any parameter set failed is closed by rolling back,
/// whichever set it was, and one in which every set succeeded is kept.
pub proof fn lemma_failed_batch_rolls_back(w: ExecuteManyWrap, results: Seq<Result<(), String>>)
    ensures
        (exists|i: int| 0 <= i < results.len() && #[trigger] results[i] is Err) ==> close_text(
            w,
            first_error(results) is None,
        ).take(8) == "ROLLBACK"@,
        (forall|i: int| 0 <= i < results.len() ==> #[trigger] results[i] is Ok) ==> close_text(
            w,
            first_error(results) is None,
        ) == close_text(w, true),
{
    lemma_first_error_is_first_failure(results);
    lemma_close_keeps_or_undoes(w);
}

/// A connection-execute error whose message is `prefix` followed by `m`.
pub open spec fn is_execute_error(e: RustPSQLDriverError, prefix: Seq<char>, m: Seq<char>) -> bool {
    match e {
        RustPSQLDriverError::ConnectionExecuteError(s) => s@ == prefix + m,
        _ => false,
    }
}

fn execute_error(prefix: &str, message: &String) -> (e: RustPSQLDriverError)
    ensures
        is_execute_error(e, prefix@, message@),
{
    let mut s = String::new();
    push_str(&mut s, prefix);
    push_str(&mut s, message.as_str());
    assert(s@ =~= prefix@ + message@);
    RustPSQLDriverError::ConnectionExecuteError(s)
}

/// The first error among the results of a batch.
pub fn drain_ordered(results: &Vec<Result<(), String>>) -> (r: PSQLPyResult<()>)
    ensures
        first_error(results@) is None ==> r is Ok,
        first_error(results@) matches Some(m) ==> (r matches Err(e)
            && is_execute_error(e, "Error occurred in `execute_many` statement: "@, m)),
{
    let mut i: usize = 0;
    assert(results@.skip(0) =~= results@);
    while i < results.len()
        invariant
            i <= results.len(),
            first_error(results@) == first_error(results@.skip(i as int)),
        decreases results.len() - i,
    {
        assert(results@.skip(i as int).drop_first() =~= results@.skip(i as int + 1));
        match &results[i] {
            Err(e) => {
                return Err(execute_error("Error occurred in `execute_many` statement: ", e));
            },
            Ok(()) => {},
        }
        i = i + 1;
    }
    Ok(())
}

/// An `execute_many` run.
pub struct ExecuteMany {
    pub phase: ExecuteManyPhase,
}

impl ExecuteMany {
    /// Starts a run for `param_count` parameter sets (`None` when no
    /// parameters were given) on a connection that is, or is not, in a
    /// transaction. Without any parameter set there is nothing to do.
    pub fn start(param_count: Option<usize>, in_transaction: bool) -> (res: (Self, ExecuteManyAction))
        ensures
            match param_count {
                Some(n) if n > 0 => {
                    &&& res.0.phase matches ExecuteManyPhase::Building { wrap }
                    &&& wrap == (if in_transaction { ExecuteManyWrap::Savepoint } else { ExecuteManyWrap::Transaction })
                    &&& res.1 matches ExecuteManyAction::BuildTemplate
                },
                _ => {
                    &&& res.0.phase matches ExecuteManyPhase::Finished
                    &&& res.1 matches ExecuteManyAction::Finish(Ok(()))
                },
            },
    {
        match param_count {
            Some(n) if n > 0 => {
                let wrap = ExecuteManyWrap::for_connection(in_transaction);
                (ExecuteMany { phase: ExecuteManyPhase::Building { wrap } }, ExecuteManyAction::BuildTemplate)
            },
            _ => (ExecuteMany { phase: ExecuteManyPhase::Finished }, ExecuteManyAction::Finish(Ok(()))),
        }
    }

    /// Moves the run on by what came of the last action.
    ///
    /// - A failed build ends the run with that failure.
    /// - Once built, the bracket is opened; a failure to open ends the run.
    /// - Once open, the batch runs.
    /// - After the batch, the bracket is closed: committing or releasing if
    ///   every parameter set succeeded, rolling back otherwise.
    /// - A failed batch is reported with its first error, whatever the
    ///   closing gave; a batch that succeeded is reported as a success
    ///   unless the closing failed.
    /// - An event that does not fit the phase ends the run with a
    ///   connection-execute error.
    pub fn step(&mut self, event: ExecuteManyEvent) -> (action: ExecuteManyAction)
        ensures
            match (old(self).phase, event) {
                (ExecuteManyPhase::Building { wrap }, ExecuteManyEvent::TemplateBuilt(Ok(()))) => {
                    &&& final(self).phase == ExecuteManyPhase::Opening { wrap }
                    &&& action matches ExecuteManyAction::Execute(s) && s@ == open_text(wrap)
                },
                (ExecuteManyPhase::Building { .. }, ExecuteManyEvent::TemplateBuilt(Err(m))) => {
                    &&& final(self).phase matches ExecuteManyPhase::Finished
                    &&& action matches ExecuteManyAction::Finish(Err(e))
                    &&& is_execute_error(e, "Cannot build statement in execute_many: "@, m@)
                },
                (ExecuteManyPhase::Opening { wrap }, ExecuteManyEvent::Executed(Ok(()))) => {
                    &&& final(self).phase == ExecuteManyPhase::Running { wrap }
                    &&& action matches ExecuteManyAction::RunBatch
                },
                (ExecuteManyPhase::Opening { .. }, ExecuteManyEvent::Executed(Err(m))) => {
                    &&& final(self).phase matches ExecuteManyPhase::Finished
                    &&& action matches ExecuteManyAction::Finish(Err(e))
                    &&& is_execute_error(e, "Cannot open transaction wrap in execute_many: "@, m@)
                },
                (ExecuteManyPhase::Running { wrap }, ExecuteManyEvent::BatchRan(results)) => {
                    &&& final(self).phase matches ExecuteManyPhase::Closing { wrap: w, batch_error: be }
                    &&& w == wrap
                    &&& (first_error(results@) is None <==> be is None)
                    &&& (first_error(results@) matches Some(m) ==> (be matches Some(e)
                        && is_execute_error(e, "Error occurred in `execute_many` statement: "@, m)))
                    &&& action matches ExecuteManyAction::Execute(s)
                    &&& s@ == close_text(wrap, first_error(results@) is None)
                },
                (ExecuteManyPhase::Closing { batch_error: Some(e), .. }, ExecuteManyEvent::Executed(_)) => {
                    &&& final(self).phase matches ExecuteManyPhase::Finished
                    &&& action matches ExecuteManyAction::Finish(Err(r)) && r == e
                },
                (ExecuteManyPhase::Closing { batch_error: None, .. }, ExecuteManyEvent::Executed(Ok(()))) => {
                    &&& final(self).phase matches ExecuteManyPhase::Finished
                    &&& action matches ExecuteManyAction::Finish(Ok(()))
                },
                (ExecuteManyPhase::Closing { batch_error: None, .. }, ExecuteManyEvent::Executed(Err(m))) => {
                    &&& final(self).phase matches ExecuteManyPhase::Finished
                    &&& action matches ExecuteManyAction::Finish(Err(e))
                    &&& is_execute_error(e, "Failed to finalize execute_many wrap: "@, m@)
                },
                _ => {
                    &&& final(self).phase matches ExecuteManyPhase::Finished
                    &&& action matches ExecuteManyAction::Finish(Err(e))
                    &&& e is ConnectionExecuteError
                },
            },
    {
        let mut phase = ExecuteManyPhase::Finished;
        std::mem::swap(&mut phase, &mut self.phase);
        match (phase, event) {
            (ExecuteManyPhase::Building { wrap }, ExecuteManyEvent::TemplateBuilt(Ok(()))) => {
                self.phase = ExecuteManyPhase::Opening { wrap };
                ExecuteManyAction::Execute(wrap.open_sql())
            },
            (ExecuteManyPhase::Building { .. }, ExecuteManyEvent::TemplateBuilt(Err(m))) => {
                ExecuteManyAction::Finish(Err(execute_error("Cannot build statement in execute_many: ", &m)))
            },
            (ExecuteManyPhase::Opening { wrap }, ExecuteManyEvent::Executed(Ok(()))) => {
                self.phase = ExecuteManyPhase::Running { wrap };
                ExecuteManyAction::RunBatch
            },
            (ExecuteManyPhase::Opening { .. }, ExecuteManyEvent::Executed(Err(m))) => {
                ExecuteManyAction::Finish(Err(execute_error("Cannot open transaction wrap in execute_many: ", &m)))
            },
            (ExecuteManyPhase::Running { wrap }, ExecuteManyEvent::BatchRan(results)) => {
                let batch = drain_ordered(&results);
                match batch {
                    Ok(()) => {
                        self.phase = ExecuteManyPhase::Closing { wrap, batch_error: None };
                        ExecuteManyAction::Execute(wrap.close_sql(true))
                    },
                    Err(e) => {
                        self.phase = ExecuteManyPhase::Closing { wrap, batch_error: Some(e) };
                        ExecuteManyAction::Execute(wrap.close_sql(false))
                    },
                }
            },
            (ExecuteManyPhase::Closing { batch_error: Some(e), .. }, ExecuteManyEvent::Executed(_)) => {
                ExecuteManyAction::Finish(Err(e))
            },
            (ExecuteManyPhase::Closing { batch_error: None, .. }, ExecuteManyEvent::Executed(Ok(()))) => {
                ExecuteManyAction::Finish(Ok(()))
            },
            (ExecuteManyPhase::Closing { batch_error: None, .. }, ExecuteManyEvent::Executed(Err(m))) => {
                ExecuteManyAction::Finish(Err(execute_error("Failed to finalize execute_many wrap: ", &m)))
            },
            _ => ExecuteManyAction::Finish(Err(RustPSQLDriverError::ConnectionExecuteError(
                "execute_many received an event that does not fit its state".to_owned(),
            ))),
        }
    }
}

} // verus!
