//! A prepared query made of one or more SQLite statements, modelled by the
//! values the cursor logic reads: each statement's number of parameters and
//! the index of the statement currently executing.

use vstd::prelude::*;
use vstd::utf8::*;
use vstd::string::*;

verus! {

/// SQLite result code: the statement was used in a way the library forbids.
pub const SQLITE_MISUSE: i32 = 21;

/// SQLite result code: a row of results is ready.
pub const SQLITE_ROW: i32 = 100;

/// SQLite result code: the statement has finished executing.
pub const SQLITE_DONE: i32 = 101;

/// SQLite fundamental datatype code of an integer column value.
pub const SQLITE_INTEGER: i32 = 1;

/// SQLite fundamental datatype code of a floating point column value.
pub const SQLITE_FLOAT: i32 = 2;

/// SQLite fundamental datatype code of a text column value.
pub const SQLITE_TEXT: i32 = 3;

/// SQLite fundamental datatype code of a blob column value.
pub const SQLITE_BLOB: i32 = 4;

/// SQLite fundamental datatype code of a null column value.
pub const SQLITE_NULL: i32 = 5;

/// What one step of a query reports.
#[derive(Clone, Copy, PartialEq, Eq, Debug, Structural)]
pub enum StepResult {
    Row,
    Done,
}

/// The type of a column value in the current row.
#[derive(Clone, Copy, PartialEq, Eq, Debug, Structural)]
pub enum SqlType {
    Text,
    Integer,
    Blob,
    Float,
    Null,
}

/// The errors that the statement logic itself decides on.
#[derive(Clone, Copy, PartialEq, Eq, Debug, Structural)]
pub enum StatementError {
    /// Stepping returned `SQLITE_MISUSE`.
    Misuse,
    /// No statement of the query has a parameter at the requested index.
    BindFailed,
    /// The column type code is none of SQLite's five fundamental types.
    UnexpectedColumnType,
    /// A query expected to return one row returned none.
    NoRows,
    /// A query expected to return at most one row returned more.
    MultipleRows,
    /// A statement that writes was prepared on a connection that cannot write.
    WriteNotAllowed,
    /// A text column does not hold valid UTF-8.
    InvalidUtf8,
}

/// What the caller must do after handing the result code of a step to the cursor.
#[derive(Clone, Copy, PartialEq, Eq, Debug, Structural)]
pub enum StepAction {
    /// The step is over with this result.
    Report(StepResult),
    /// The cursor moved on to the next statement: step that one.
    StepNext,
    /// The step failed with this error.
    Fail(StatementError),
    /// Some other error code: the connection's last error is the step's error.
    ConnectionError,
}

/// The cursor over the statements of a prepared query.
pub struct Statement {
    parameter_counts: Vec<i32>,
    current_statement: usize,
}

/// The step transition as a function of the number of statements, the
/// current statement and the result code: the new current statement and
/// the action.
pub open spec fn step_transition(len: nat, current: nat, code: i32) -> (nat, StepAction) {
    if code == SQLITE_ROW {
        (current, StepAction::Report(StepResult::Row))
    } else if code == SQLITE_DONE {
        if current + 1 >= len {
            (current, StepAction::Report(StepResult::Done))
        } else {
            (current + 1, StepAction::StepNext)
        }
    } else if code == SQLITE_MISUSE {
        (current, StepAction::Fail(StatementError::Misuse))
    } else {
        (current, StepAction::ConnectionError)
    }
}


/// The largest parameter count of the statements, or 0 when there are none.
pub open spec fn max_parameter_count(counts: Seq<i32>) -> i32
    decreases counts.len(),
{
    if counts.len() == 0 {
        0
    } else if counts.len() == 1 {
        counts[0]
    } else {
        let m = max_parameter_count(counts.drop_last());
        if counts.last() > m {
            counts.last()
        } else {
            m
        }
    }
}

/// Whether the statement at position `i` has a parameter at `index`.
pub open spec fn accepts_index(counts: Seq<i32>, i: int, index: i32) -> bool {
    0 <= i < counts.len() && index <= counts[i]
}

/// `targets` lists, in increasing order, exactly the statements that have a
/// parameter at `index`.
pub open spec fn is_bind_plan(counts: Seq<i32>, index: i32, targets: Seq<usize>) -> bool {
    &&& forall|k: int| 0 <= k < targets.len() ==> accepts_index(counts, #[trigger] targets[k] as int, index)
    &&& forall|k1: int, k2: int| 0 <= k1 < k2 < targets.len() ==> targets[k1] < targets[k2]
    &&& forall|i: int| #[trigger] accepts_index(counts, i, index) ==> targets.contains(i as usize)
}

/// The column type that a fundamental datatype code stands for.
pub open spec fn sql_type_of(code: i32) -> Option<SqlType> {
    if code == SQLITE_INTEGER {
        Some(SqlType::Integer)
    } else if code == SQLITE_FLOAT {
        Some(SqlType::Float)
    } else if code == SQLITE_TEXT {
        Some(SqlType::Text)
    } else if code == SQLITE_BLOB {
        Some(SqlType::Blob)
    } else if code == SQLITE_NULL {
        Some(SqlType::Null)
    } else {
        None
    }
}

/// The largest parameter count bounds every statement's count and is the
/// count of some statement.
proof fn lemma_max_parameter_count(counts: Seq<i32>)
    requires
        counts.len() > 0,
    ensures
        forall|i: int| 0 <= i < counts.len() ==> counts[i] <= max_parameter_count(counts),
        exists|i: int| 0 <= i < counts.len() && counts[i] == max_parameter_count(counts),
    decreases counts.len(),
{
    if counts.len() > 1 {
        let init = counts.drop_last();
        lemma_max_parameter_count(init);
        let j = choose|j: int| 0 <= j < init.len() && init[j] == max_parameter_count(init);
        assert(counts[j] == init[j]);
        assert forall|i: int| 0 <= i < counts.len() implies counts[i] <= max_parameter_count(counts) by {
            if i < counts.len() - 1 {
                assert(counts[i] == init[i]);
            }
        }
    } else {
        assert(counts[0] == max_parameter_count(counts));
    }
}

/// Binding a value at `index` succeeds exactly when the query has a
/// statement and `index` is at most the query's parameter count.
pub proof fn lemma_bind_succeeds_within_parameter_count(counts: Seq<i32>, index: i32)
    ensures
        (exists|i: int| #[trigger] accepts_index(counts, i, index))
            <==> (counts.len() > 0 && index <= max_parameter_count(counts)),
{
    if counts.len() > 0 {
        lemma_max_parameter_count(counts);
        if index <= max_parameter_count(counts) {
            let j = choose|j: int| 0 <= j < counts.len() && counts[j] == max_parameter_count(counts);
            assert(accepts_index(counts, j, index));
        }
    }
}

/// A step reports the end of the query only on its last statement, moves on
/// to the next statement only from one that is not the last, and never
/// leaves the range of statements.
pub proof fn lemma_step_stays_in_range(len: nat, current: nat, code: i32)
    requires
        current < len,
    ensures
        step_transition(len, current, code).0 < len,
        step_transition(len, current, code).1 == StepAction::Report(StepResult::Done)
            ==> current == len - 1,
        step_transition(len, current, code).1 == StepAction::StepNext
            ==> current < len - 1 && step_transition(len, current, code).0 == current + 1,
        step_transition(len, current, code).1 != StepAction::StepNext
            ==> step_transition(len, current, code).0 == current,
{
}

/// A step that does not finish the statement never moves the cursor: a row
/// is reported as a row, `SQLITE_MISUSE` fails with `Misuse`, and every
/// other code that is neither a row nor the end of the statement is the
/// connection's error; only `SQLITE_DONE` ever moves on to the next
/// statement, and only from a statement that is not the last.
pub proof fn lemma_step_errors_stay(len: nat, current: nat, code: i32)
    requires
        current < len,
    ensures
        code != SQLITE_DONE ==> step_transition(len, current, code).0 == current,
        code != SQLITE_DONE ==> step_transition(len, current, code).1 != StepAction::StepNext,
        code == SQLITE_ROW ==> step_transition(len, current, code).1 == StepAction::Report(StepResult::Row),
        code == SQLITE_MISUSE ==> step_transition(len, current, code).1 == StepAction::Fail(StatementError::Misuse),
        (code != SQLITE_ROW && code != SQLITE_DONE && code != SQLITE_MISUSE)
            ==> step_transition(len, current, code).1 == StepAction::ConnectionError,
        code == SQLITE_DONE && current + 1 < len ==> step_transition(len, current, code) == (current + 1, StepAction::StepNext),
        code == SQLITE_DONE && current + 1 == len
            ==> step_transition(len, current, code) == (current, StepAction::Report(StepResult::Done)),
{
}

/// From any statement, finishing statement after statement reports the end
/// of the query after moving on exactly once per remaining statement.
pub proof fn lemma_done_after_remaining_statements(len: nat, current: nat)
    requires
        current < len,
    ensures
        done_chain(len, current) == (len - 1 - current) as nat,
    decreases len - current,
{
    if current + 1 < len {
        lemma_done_after_remaining_statements(len, current + 1);
    }
}

/// How many times the cursor moves on when every statement from `current`
/// on finishes without a row.
pub open spec fn done_chain(len: nat, current: nat) -> nat
    decreases len - current,
{
    if current < len && step_transition(len, current, SQLITE_DONE).1 == StepAction::StepNext {
        1 + done_chain(len, step_transition(len, current, SQLITE_DONE).0)
    } else {
        0
    }
}

/// The result codes a statement gives when stepped to its end: one
/// `SQLITE_ROW` per row, then `SQLITE_DONE`.
pub open spec fn statement_codes(rows: nat) -> Seq<i32> {
    Seq::new(rows, |i: int| SQLITE_ROW).push(SQLITE_DONE)
}

/// The result codes a query's statements give, in order, when each is
/// stepped to its end; `rows[j]` is the number of rows of statement `j`.
pub open spec fn query_codes(rows: Seq<nat>) -> Seq<i32>
    decreases rows.len(),
{
    if rows.len() == 0 {
        Seq::empty()
    } else {
        statement_codes(rows[0]) + query_codes(rows.drop_first())
    }
}

/// The actions the cursor takes on a sequence of result codes, from
/// statement `current` of `len` statements.
pub open spec fn step_run(len: nat, current: nat, codes: Seq<i32>) -> Seq<StepAction>
    decreases codes.len(),
{
    if codes.len() == 0 {
        Seq::empty()
    } else {
        let (next, a) = step_transition(len, current, codes[0]);
        seq![a] + step_run(len, next, codes.drop_first())
    }
}

/// What stepping the statements whose row counts are `rows` to their end
/// does: each statement's rows, reported in order, then a move to the next
/// statement, and after the last statement's rows the end of the query.
pub open spec fn expected_run(rows: Seq<nat>) -> Seq<StepAction>
    decreases rows.len(),
{
    if rows.len() == 0 {
        Seq::empty()
    } else {
        let reported = Seq::new(rows[0], |i: int| StepAction::Report(StepResult::Row));
        if rows.len() == 1 {
            reported.push(StepAction::Report(StepResult::Done))
        } else {
            reported.push(StepAction::StepNext) + expected_run(rows.drop_first())
        }
    }
}

/// Rows leave the cursor on its statement: `n` row codes are `n` row
/// reports, and the rest of the codes runs from the same statement.
proof fn lemma_rows_then(len: nat, current: nat, n: nat, rest: Seq<i32>)
    ensures
        step_run(len, current, Seq::new(n, |i: int| SQLITE_ROW) + rest)
            == Seq::new(n, |i: int| StepAction::Report(StepResult::Row)) + step_run(len, current, rest),
    decreases n,
{
    let codes = Seq::new(n, |i: int| SQLITE_ROW) + rest;
    if n > 0 {
        let m = (n - 1) as nat;
        lemma_rows_then(len, current, m, rest);
        assert(codes.drop_first() =~= Seq::new(m, |i: int| SQLITE_ROW) + rest);
        assert(codes[0] == SQLITE_ROW);
        assert(step_run(len, current, codes) =~= Seq::new(n, |i: int| StepAction::Report(StepResult::Row))
            + step_run(len, current, rest));
    } else {
        assert(codes =~= rest);
        assert(Seq::new(n, |i: int| StepAction::Report(StepResult::Row)) + step_run(len, current, rest)
            =~= step_run(len, current, rest));
    }
}

/// Stepping a freshly prepared or reset query whose statements are each
/// stepped to their end reports every row of every statement, statement by
/// statement in order, moves on after each statement but the last, and
/// reports the end of the query only after the last statement is done: no
/// statement is skipped and no row is lost.
pub proof fn lemma_step_run_reports_every_row(rows: Seq<nat>)
    requires
        rows.len() > 0,
    ensures
        step_run(rows.len(), 0, query_codes(rows)) == expected_run(rows),
{
    lemma_step_run_suffix(rows.len(), rows);
}

/// The run of the statements `len - rows.len()` to `len - 1`.
proof fn lemma_step_run_suffix(len: nat, rows: Seq<nat>)
    requires
        0 < rows.len() <= len,
    ensures
        step_run(len, (len - rows.len()) as nat, query_codes(rows)) == expected_run(rows),
    decreases rows.len(),
{
    let current = (len - rows.len()) as nat;
    let rest = query_codes(rows.drop_first());
    let after = seq![SQLITE_DONE] + rest;
    assert(query_codes(rows) =~= Seq::new(rows[0], |i: int| SQLITE_ROW) + after);
    lemma_rows_then(len, current, rows[0], after);
    assert(after.drop_first() =~= rest);
    let reported = Seq::new(rows[0], |i: int| StepAction::Report(StepResult::Row));
    if rows.len() == 1 {
        assert(rest =~= Seq::<i32>::empty());
        assert(step_run(len, current, rest) =~= Seq::<StepAction>::empty());
        assert(step_run(len, current, after) =~= seq![StepAction::Report(StepResult::Done)]);
        assert(reported + step_run(len, current, after) =~= reported.push(StepAction::Report(StepResult::Done)));
    } else {
        lemma_step_run_suffix(len, rows.drop_first());
        assert(step_run(len, current, after) =~= seq![StepAction::StepNext] + step_run(len, current + 1, rest));
        assert(reported + step_run(len, current, after) =~= reported.push(StepAction::StepNext)
            + expected_run(rows.drop_first()));
    }
}

impl Statement {
    /// The number of parameters of each statement, in order.
    pub closed spec fn parameter_counts(&self) -> Seq<i32> {
        self.parameter_counts@
    }

    /// The index of the statement currently executing.
    pub closed spec fn current(&self) -> nat {
        self.current_statement as nat
    }

    /// The current statement is one of the statements, or 0 when there are none.
    pub open spec fn wf(&self) -> bool {
        ||| self.current() < self.parameter_counts().len()
        ||| (self.parameter_counts().len() == 0 && self.current() == 0)
    }

    /// A query with no statements yet.
    pub fn new() -> (s: Statement)
        ensures
            s.wf(),
            s.parameter_counts() == Seq::<i32>::empty(),
            s.current() == 0,
    {
        Statement { parameter_counts: Vec::new(), current_statement: 0 }
    }

    /// The number of statements.
    pub fn statement_count(&self) -> (n: usize)
        ensures
            n == self.parameter_counts().len(),
    {
        self.parameter_counts.len()
    }

    /// The index of the statement currently executing.
    pub fn current_statement(&self) -> (i: usize)
        ensures
            i == self.current(),
    {
        self.current_statement
    }

    /// Rewinds the query to its first statement.
    pub fn reset(&mut self)
        requires
            old(self).wf(),
        ensures
            final(self).wf(),
            final(self).parameter_counts() == old(self).parameter_counts(),
            final(self).current() == 0,
    {
        self.current_statement = 0;
    }

    /// Hands the result code of stepping the current statement to the cursor.
    /// A finished statement that is not the last moves the cursor on.
    pub fn step(&mut self, code: i32) -> (action: StepAction)
        requires
            old(self).wf(),
            old(self).parameter_counts().len() > 0,
        ensures
            final(self).wf(),
            final(self).parameter_counts() == old(self).parameter_counts(),
            (final(self).current(), action) == step_transition(
                old(self).parameter_counts().len(),
                old(self).current(),
                code,
            ),
    {
        if code == SQLITE_ROW {
            StepAction::Report(StepResult::Row)
        } else if code == SQLITE_DONE {
            if self.current_statement >= self.parameter_counts.len() - 1 {
                StepAction::Report(StepResult::Done)
            } else {
                self.current_statement = self.current_statement + 1;
                StepAction::StepNext
            }
        } else if code == SQLITE_MISUSE {
            StepAction::Fail(StatementError::Misuse)
        } else {
            StepAction::ConnectionError
        }
    }

    /// Records a freshly prepared statement with its parameter count.  A
    /// statement that writes (`readonly` false) on a connection that cannot
    /// write is refused; it is recorded all the same, so that it is released
    /// with the others.
    pub fn add_prepared(&mut self, parameter_count: i32, readonly: bool, can_write: bool) -> (r: Result<(), StatementError>)
        requires
            old(self).wf(),
        ensures
            final(self).wf(),
            final(self).parameter_counts() == old(self).parameter_counts().push(parameter_count),
            final(self).current() == old(self).current(),
            r is Err <==> (!can_write && !readonly),
            r matches Err(e) ==> e == StatementError::WriteNotAllowed,
    {
        self.parameter_counts.push(parameter_count);
        if !can_write && !readonly {
            Err(StatementError::WriteNotAllowed)
        } else {
            Ok(())
        }
    }

    /// The number of parameters of the query: the largest count among its
    /// statements, or 0 when it has none.
    pub fn parameter_count(&self) -> (n: i32)
        ensures
            n == max_parameter_count(self.parameter_counts()),
    {
        let len = self.parameter_counts.len();
        if len == 0 {
            return 0;
        }
        let mut m = self.parameter_counts[0];
        let mut i: usize = 1;
        assert(self.parameter_counts@.take(1).drop_last() =~= Seq::<i32>::empty());
        while i < len
            invariant
                1 <= i <= len,
                len == self.parameter_counts@.len(),
                m == max_parameter_count(self.parameter_counts@.take(i as int)),
            decreases len - i,
        {
            assert(self.parameter_counts@.take(i as int + 1).drop_last() =~= self.parameter_counts@.take(i as int));
            let c = self.parameter_counts[i];
            if c > m {
                m = c;
            }
            i = i + 1;
        }
        assert(self.parameter_counts@.take(len as int) =~= self.parameter_counts@);
        m
    }

    /// The statements that a value bound at `index` goes to: every statement
    /// with at least `index` parameters, in order.  Binding fails when there
    /// is none.
    pub fn bind_targets(&self, index: i32) -> (r: Result<Vec<usize>, StatementError>)
        ensures
            r is Err <==> (forall|i: int| !#[trigger] accepts_index(self.parameter_counts(), i, index)),
            r matches Err(e) ==> e == StatementError::BindFailed,
            r matches Ok(v) ==> is_bind_plan(self.parameter_counts(), index, v@) && v@.len() > 0,
    {
        let len = self.parameter_counts.len();
        let mut targets: Vec<usize> = Vec::new();
        let mut i: usize = 0;
        while i < len
            invariant
                i <= len,
                len == self.parameter_counts@.len(),
                forall|k: int| 0 <= k < targets@.len() ==> accepts_index(self.parameter_counts@, #[trigger] targets@[k] as int, index),
                forall|k: int| 0 <= k < targets@.len() ==> #[trigger] targets@[k] < i,
                forall|k1: int, k2: int| 0 <= k1 < k2 < targets@.len() ==> targets@[k1] < targets@[k2],
                forall|j: int| 0 <= j < i && #[trigger] accepts_index(self.parameter_counts@, j, index) ==> targets@.contains(j as usize),
            decreases len - i,
        {
            if index <= self.parameter_counts[i] {
                let ghost before = targets@;
                targets.push(i);
                assert forall|j: int| 0 <= j < i + 1 && #[trigger] accepts_index(self.parameter_counts@, j, index) implies targets@.contains(j as usize) by {
                    if j < i {
                        let k = choose|k: int| 0 <= k < before.len() && before[k] == j as usize;
                        assert(targets@[k] == j as usize);
                    } else {
                        assert(targets@[before.len() as int] == j as usize);
                    }
                }
            }
            i = i + 1;
        }
        if targets.len() == 0 {
            assert forall|i: int| !#[trigger] accepts_index(self.parameter_counts(), i, index) by {
                if accepts_index(self.parameter_counts(), i, index) {
                    assert(targets@.contains(i as usize));
                }
            }
            Err(StatementError::BindFailed)
        } else {
            assert(accepts_index(self.parameter_counts(), targets@[0] as int, index));
            Ok(targets)
        }
    }

    /// The type of a column value from its fundamental datatype code.
    pub fn column_type(code: i32) -> (r: Result<SqlType, StatementError>)
        ensures
            match sql_type_of(code) {
                Some(t) => r == Ok::<SqlType, StatementError>(t),
                None => r == Err::<SqlType, StatementError>(StatementError::UnexpectedColumnType),
            },
    {
        if code == SQLITE_INTEGER {
            Ok(SqlType::Integer)
        } else if code == SQLITE_FLOAT {
            Ok(SqlType::Float)
        } else if code == SQLITE_TEXT {
            Ok(SqlType::Text)
        } else if code == SQLITE_BLOB {
            Ok(SqlType::Blob)
        } else if code == SQLITE_NULL {
            Ok(SqlType::Null)
        } else {
            Err(StatementError::UnexpectedColumnType)
        }
    }

    /// The bytes of a blob column; a null column value reads as no bytes.
    pub fn column_blob<'a>(raw: Option<&'a [u8]>) -> (r: &'a [u8])
        ensures
            match raw {
                Some(b) => r@ == b@,
                None => r@ == Seq::<u8>::empty(),
            },
    {
        match raw {
            Some(b) => b,
            None => {
                let empty: &[u8] = &[];
                assert(empty@ =~= Seq::<u8>::empty());
                empty
            }
        }
    }

    /// The text of a text column; a null column value reads as the empty
    /// string, and bytes that are not UTF-8 are an error.
    pub fn column_text<'a>(raw: Option<&'a [u8]>) -> (r: Result<&'a str, StatementError>)
        ensures
            match raw {
                None => r matches Ok(s) && s@ == Seq::<char>::empty(),
                Some(b) => {
                    &&& r is Err <==> !valid_utf8(b@)
                    &&& r matches Err(e) ==> e == StatementError::InvalidUtf8
                    &&& r matches Ok(s) ==> s@ == decode_utf8(b@)
                },
            },
    {
        match raw {
            None => {
                proof {
                    reveal_strlit("");
                }
                Ok("")
            }
            Some(b) => match str_from_utf8(b) {
                Some(s) => {
                    proof {
                        broadcast use vstd::utf8::encode_utf8_decode_utf8;
                    }
                    Ok(s)
                }
                None => Err(StatementError::InvalidUtf8),
            },
        }
    }
}

/// `std::str::from_utf8`, with its error mapped to `None`.  By its
/// documentation it succeeds exactly on valid UTF-8, and the string it gives
/// back holds the same bytes.
#[verifier::external_body]
fn str_from_utf8(bytes: &[u8]) -> (r: Option<&str>)
    ensures
        r is Some <==> valid_utf8(bytes@),
        r matches Some(s) ==> s.spec_bytes() == bytes@,
{
    std::str::from_utf8(bytes).ok()
}

/// Whether `c` has the Unicode `White_Space` property, which is what
/// `char::is_whitespace` tests: tab, line feed, vertical tab, form feed,
/// carriage return, space, next line, no-break space, Ogham space mark, the
/// spaces from en quad to hair space, line separator, paragraph separator,
/// narrow no-break space, medium mathematical space and ideographic space.
pub open spec fn is_white_space(c: char) -> bool {
    let u = c as u32;
    ||| 0x09 <= u <= 0x0d
    ||| u == 0x20
    ||| u == 0x85
    ||| u == 0xa0
    ||| u == 0x1680
    ||| 0x2000 <= u <= 0x200a
    ||| u == 0x2028
    ||| u == 0x2029
    ||| u == 0x202f
    ||| u == 0x205f
    ||| u == 0x3000
}

/// `s` without its leading white space.
pub open spec fn trim_start(s: Seq<char>) -> Seq<char>
    decreases s.len(),
{
    if s.len() > 0 && is_white_space(s[0]) {
        trim_start(s.drop_first())
    } else {
        s
    }
}

/// `s` without its trailing white space.
pub open spec fn trim_end(s: Seq<char>) -> Seq<char>
    decreases s.len(),
{
    if s.len() > 0 && is_white_space(s.last()) {
        trim_end(s.drop_last())
    } else {
        s
    }
}

/// `s` without its leading and trailing white space.
pub open spec fn trimmed(s: Seq<char>) -> Seq<char> {
    trim_end(trim_start(s))
}

/// `str::trim`: by its documentation, the text with its leading and
/// trailing white space (as `char::is_whitespace` defines it) removed.
#[verifier::external_body]
fn str_trim(s: &str) -> (t: &str)
    ensures
        t@ == trimmed(s@),
{
    s.trim()
}

/// Whether a trimmed remainder of a query's text holds another statement:
/// it is neither empty nor a lone `;`.
pub fn holds_statement(trimmed_rest: &str) -> (b: bool)
    ensures
        b <==> (trimmed_rest@.len() > 0 && trimmed_rest@ != ";"@),
{
    let n = trimmed_rest.unicode_len();
    let b = if n == 0 {
        false
    } else if n == 1 {
        trimmed_rest.get_char(0) != ';'
    } else {
        true
    };
    proof {
        reveal_strlit(";");
        if n == 1 && !b {
            assert(trimmed_rest@ =~= ";"@);
        }
    }
    b
}

/// Whether what is left of a query's text holds another statement: its
/// trimmed text is neither empty nor a lone `;`.
pub fn has_more_sql(rest: &str) -> (b: bool)
    ensures
        b <==> (trimmed(rest@).len() > 0 && trimmed(rest@) != ";"@),
{
    holds_statement(str_trim(rest))
}

/// Whether a query's text holds a NUL character, which a query handed to
/// SQLite as a C string cannot.
pub fn contains_nul(query: &str) -> (b: bool)
    ensures
        b <==> query@.contains('\0'),
{
    let n = query.unicode_len();
    let mut i: usize = 0;
    while i < n
        invariant
            i <= n,
            n == query@.len(),
            forall|j: int| 0 <= j < i ==> query@[j] != '\0',
        decreases n - i,
    {
        if query.get_char(i) == '\0' {
            assert(query@[i as int] == '\0');
            return true;
        }
        i = i + 1;
    }
    false
}

} // verus!
