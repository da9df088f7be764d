//! The row protocols of a query: how the results of successive steps are
//! consumed when a query is executed for its effect, mapped over all its
//! rows, or expected to return exactly one row or at most one row.

use vstd::prelude::*;
use crate::statement::{StatementError, StepResult};

verus! {

/// How a query's rows are consumed.
#[derive(Clone, Copy, PartialEq, Eq, Debug, Structural)]
pub enum QueryMode {
    /// Step until the query is done, reading no row.
    Exec,
    /// Read every row until the query is done.
    EveryRow,
    /// Read exactly one row; no row, or a second one, is an error.
    Single,
    /// Read one row if there is one; a second one is an error.
    Maybe,
}

/// What the caller must do after handing a step result to the protocol.
#[derive(Clone, Copy, PartialEq, Eq, Debug, Structural)]
pub enum RowAction {
    /// Read the current row, then step again.
    ReadRow,
    /// Step again without reading the row.
    Skip,
    /// The query is complete: return what was read.
    Finish,
    /// The query failed with this error.
    Fail(StatementError),
}

/// Whether an action ends the protocol.
pub open spec fn is_terminal(a: RowAction) -> bool {
    a is Finish || a is Fail
}

/// One transition: from the mode, whether a row has been read, and the step
/// result, to whether a row has been read afterwards and the action.
pub open spec fn row_transition(mode: QueryMode, seen_row: bool, r: StepResult) -> (bool, RowAction) {
    match mode {
        QueryMode::Exec => match r {
            StepResult::Row => (seen_row, RowAction::Skip),
            StepResult::Done => (seen_row, RowAction::Finish),
        },
        QueryMode::EveryRow => match r {
            StepResult::Row => (true, RowAction::ReadRow),
            StepResult::Done => (seen_row, RowAction::Finish),
        },
        QueryMode::Single => match r {
            StepResult::Row => if seen_row {
                (seen_row, RowAction::Fail(StatementError::MultipleRows))
            } else {
                (true, RowAction::ReadRow)
            },
            StepResult::Done => if seen_row {
                (seen_row, RowAction::Finish)
            } else {
                (seen_row, RowAction::Fail(StatementError::NoRows))
            },
        },
        QueryMode::Maybe => match r {
            StepResult::Row => if seen_row {
                (seen_row, RowAction::Fail(StatementError::MultipleRows))
            } else {
                (true, RowAction::ReadRow)
            },
            StepResult::Done => (seen_row, RowAction::Finish),
        },
    }
}

/// The actions the protocol takes on a sequence of step results, up to and
/// including the first one that ends it.
pub open spec fn run(mode: QueryMode, seen_row: bool, results: Seq<StepResult>) -> Seq<RowAction>
    decreases results.len(),
{
    if results.len() == 0 {
        Seq::empty()
    } else {
        let (seen, a) = row_transition(mode, seen_row, results[0]);
        if is_terminal(a) {
            seq![a]
        } else {
            seq![a] + run(mode, seen, results.drop_first())
        }
    }
}

/// `n` rows followed by the end of the query.
pub open spec fn rows_then_done(n: nat) -> Seq<StepResult> {
    Seq::new(n, |i: int| StepResult::Row).push(StepResult::Done)
}

/// A query executed for its effect skips each of its rows and finishes at
/// its end; a query mapped over its rows reads each of them and finishes at
/// its end.
pub proof fn lemma_every_row_and_exec(n: nat, seen_row: bool)
    ensures
        run(QueryMode::EveryRow, seen_row, rows_then_done(n))
            == Seq::new(n, |i: int| RowAction::ReadRow).push(RowAction::Finish),
        run(QueryMode::Exec, seen_row, rows_then_done(n))
            == Seq::new(n, |i: int| RowAction::Skip).push(RowAction::Finish),
    decreases n,
{
    let rs = rows_then_done(n);
    if n == 0 {
        assert(rs =~= seq![StepResult::Done]);
        assert(run(QueryMode::EveryRow, seen_row, rs.drop_first()) == Seq::<RowAction>::empty());
        assert(run(QueryMode::EveryRow, seen_row, rs) =~= Seq::new(n, |i: int| RowAction::ReadRow).push(RowAction::Finish));
        assert(run(QueryMode::Exec, seen_row, rs) =~= Seq::new(n, |i: int| RowAction::Skip).push(RowAction::Finish));
    } else {
        let m = (n - 1) as nat;
        lemma_every_row_and_exec(m, true);
        lemma_every_row_and_exec(m, seen_row);
        assert(rs.drop_first() =~= rows_then_done(m));
        assert(rs[0] == StepResult::Row);
        assert(run(QueryMode::EveryRow, seen_row, rs) =~= Seq::new(n, |i: int| RowAction::ReadRow).push(RowAction::Finish));
        assert(run(QueryMode::Exec, seen_row, rs) =~= Seq::new(n, |i: int| RowAction::Skip).push(RowAction::Finish));
    }
}

/// A query expected to return one row succeeds exactly when its first step
/// gives a row and its second step ends it; it then reads that one row.
pub proof fn lemma_single_exactly_one_row(results: Seq<StepResult>)
    ensures
        (run(QueryMode::Single, false, results).len() > 0
            && run(QueryMode::Single, false, results).last() == RowAction::Finish)
            <==> (results.len() >= 2 && results[0] == StepResult::Row && results[1] == StepResult::Done),
        (results.len() >= 2 && results[0] == StepResult::Row && results[1] == StepResult::Done)
            ==> run(QueryMode::Single, false, results) == seq![RowAction::ReadRow, RowAction::Finish],
        run(QueryMode::Single, false, results).len() <= 2,
{
    reveal_with_fuel(run, 3);
    if results.len() >= 1 {
        let rest = results.drop_first();
        if results[0] == StepResult::Row && rest.len() >= 1 {
            assert(rest.drop_first().len() < rest.len());
            assert(run(QueryMode::Single, false, results) =~= seq![RowAction::ReadRow] + run(QueryMode::Single, true, rest));
            if rest[0] == StepResult::Done {
                assert(run(QueryMode::Single, true, rest) =~= seq![RowAction::Finish]);
            } else {
                assert(run(QueryMode::Single, true, rest) =~= seq![RowAction::Fail(StatementError::MultipleRows)]);
            }
        } else if results[0] == StepResult::Row {
            assert(rest.len() == 0);
            assert(run(QueryMode::Single, true, rest) =~= Seq::<RowAction>::empty());
        }
    }
}

/// A query expected to return one row fails with `NoRows` when its first
/// step ends it; one expected to return at most one row then finishes
/// without reading a row.
pub proof fn lemma_no_rows(results: Seq<StepResult>)
    requires
        results.len() > 0,
        results[0] == StepResult::Done,
    ensures
        run(QueryMode::Single, false, results) == seq![RowAction::Fail(StatementError::NoRows)],
        run(QueryMode::Maybe, false, results) == seq![RowAction::Finish],
{
}

/// When the first step gives a row, expecting one row and expecting at most
/// one row take the same actions.
pub proof fn lemma_single_and_maybe_agree(results: Seq<StepResult>)
    requires
        results.len() > 0,
        results[0] == StepResult::Row,
    ensures
        run(QueryMode::Maybe, false, results) == run(QueryMode::Single, false, results),
{
    reveal_with_fuel(run, 3);
    let rest = results.drop_first();
    if rest.len() > 0 {
        assert(run(QueryMode::Maybe, true, rest) == run(QueryMode::Single, true, rest));
    }
}

/// The state of a query's row protocol.
pub struct RowProtocol {
    mode: QueryMode,
    seen_row: bool,
    finished: bool,
}

impl RowProtocol {
    /// The mode of the protocol.
    pub closed spec fn mode(&self) -> QueryMode {
        self.mode
    }

    /// Whether a row has been read.
    pub closed spec fn seen_row(&self) -> bool {
        self.seen_row
    }

    /// Whether the protocol has ended.
    pub closed spec fn finished(&self) -> bool {
        self.finished
    }

    /// A protocol that has read no row yet.
    pub fn new(mode: QueryMode) -> (p: RowProtocol)
        ensures
            p.mode() == mode,
            !p.seen_row(),
            !p.finished(),
    {
        RowProtocol { mode, seen_row: false, finished: false }
    }

    /// Whether the protocol has ended.
    pub fn is_finished(&self) -> (b: bool)
        ensures
            b == self.finished(),
    {
        self.finished
    }

    /// Hands the result of a step to the protocol.
    pub fn on_step(&mut self, r: StepResult) -> (a: RowAction)
        requires
            !old(self).finished(),
        ensures
            final(self).mode() == old(self).mode(),
            (final(self).seen_row(), a) == row_transition(old(self).mode(), old(self).seen_row(), r),
            final(self).finished() == is_terminal(a),
    {
        let a = match self.mode {
            QueryMode::Exec => match r {
                StepResult::Row => RowAction::Skip,
                StepResult::Done => RowAction::Finish,
            },
            QueryMode::EveryRow => match r {
                StepResult::Row => {
                    self.seen_row = true;
                    RowAction::ReadRow
                },
                StepResult::Done => RowAction::Finish,
            },
            QueryMode::Single => match r {
                StepResult::Row => if self.seen_row {
                    RowAction::Fail(StatementError::MultipleRows)
                } else {
                    self.seen_row = true;
                    RowAction::ReadRow
                },
                StepResult::Done => if self.seen_row {
                    RowAction::Finish
                } else {
                    RowAction::Fail(StatementError::NoRows)
                },
            },
            QueryMode::Maybe => match r {
                StepResult::Row => if self.seen_row {
                    RowAction::Fail(StatementError::MultipleRows)
                } else {
                    self.seen_row = true;
                    RowAction::ReadRow
                },
                StepResult::Done => RowAction::Finish,
            },
        };
        self.finished = match a {
            RowAction::Finish => true,
            RowAction::Fail(_) => true,
            _ => false,
        };
        a
    }
}

} // verus!
