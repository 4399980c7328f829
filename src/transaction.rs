use vstd::prelude::*;
use crate::value::{Value, NativeValue};
use crate::sql::{is_read_sql, is_read_statement};
use crate::command::{Statement, rows_fit, rows_read, rows_to_objects, has_sql, params_of, sql_of, parse_statement};
use crate::value::binds_all;
use crate::envelope::{DatabaseResult, DbError, error_text, failure};

verus! {

/// What the runner asks its caller to do next against the connection.
#[derive(Debug, Clone, Copy, PartialEq, Eq, Structural)]
pub enum TxAction {
    /// Open the transaction.
    Begin,
    /// Run the statement at this index and hand back all its rows.
    Query(usize),
    /// Run the statement at this index for its effect.
    Execute(usize),
    /// Make the transaction's work durable.
    Commit,
    /// Undo the transaction's work.
    Rollback,
    /// Nothing is left to do: the answer is ready.
    Finish,
}

/// What the caller reports back after doing what the runner asked.
#[derive(Debug)]
pub enum TxEvent {
    Started,
    /// The column names and every row of a read statement.
    Rows(Vec<String>, Vec<Vec<NativeValue>>),
    Executed,
    Committed,
    RolledBack,
    Failed(DbError),
}

#[derive(Debug, Clone, Copy, PartialEq, Eq, Structural)]
pub enum TxPhase {
    Idle,
    Beginning,
    Running(usize),
    Committing,
    RollingBack,
    Done,
}

/// Runs an ordered batch of statements as one transaction: each read
/// statement contributes the array of its rows at its position, each write
/// statement a null; the first failure rolls the whole batch back. A member
/// that carried no statement text is `None`, and fails when its turn comes.
#[derive(Debug)]
pub struct TransactionRunner {
    pub statements: Vec<Option<Statement>>,
    pub reads: Vec<bool>,
    pub phase: TxPhase,
    pub results: Vec<Value>,
    pub pending: Option<DbError>,
}

/// The action that runs the statement at index `i`.
pub open spec fn action_for(r: TransactionRunner, i: int) -> TxAction {
    if r.reads@[i] { TxAction::Query(i as usize) } else { TxAction::Execute(i as usize) }
}

/// Where the runner goes once `i` statements have run: the next statement,
/// a rollback where the next member has no statement text, or the commit
/// after the last.
pub open spec fn advance(r: TransactionRunner, i: int, post: TransactionRunner, a: TxAction) -> bool {
    if i < r.statements@.len() {
        if r.statements@[i] is None {
            &&& post.phase == TxPhase::RollingBack
            &&& a == TxAction::Rollback
            &&& post.pending == Some(DbError::MissingSql)
        } else {
            &&& post.phase == TxPhase::Running(i as usize)
            &&& a == action_for(r, i)
            &&& post.pending == r.pending
        }
    } else {
        post.phase == TxPhase::Committing && a == TxAction::Commit && post.pending == r.pending
    }
}

/// The member at index `i` is a statement that reads rows.
pub open spec fn member_reads(m: Option<Statement>) -> bool {
    m is Some && is_read_sql(m->Some_0.sql@)
}

/// One move of the runner: `post` and `a` follow from `pre` on `ev`.
pub open spec fn transition(pre: TransactionRunner, ev: TxEvent, post: TransactionRunner, a: TxAction) -> bool {
    &&& post.statements == pre.statements
    &&& post.reads == pre.reads
    &&& match pre.phase {
        TxPhase::Beginning => match ev {
            TxEvent::Started => post.results == pre.results && advance(pre, 0, post, a),
            TxEvent::Failed(e) => post.results == pre.results && post.pending == Some(e)
                && post.phase == TxPhase::Done && a == TxAction::Finish,
            _ => false,
        },
        TxPhase::Running(i) => match ev {
            TxEvent::Rows(columns, rows) => {
                &&& post.results@.len() == pre.results@.len() + 1
                &&& post.results@.drop_last() == pre.results@
                &&& post.results@.last() is Array
                &&& rows_read(columns@, rows@, post.results@.last()->Array_0@)
                &&& advance(pre, i + 1, post, a)
            },
            TxEvent::Executed => {
                &&& post.results@ == pre.results@.push(Value::Null)
                &&& advance(pre, i + 1, post, a)
            },
            TxEvent::Failed(e) => post.results == pre.results && post.pending == Some(e)
                && post.phase == TxPhase::RollingBack && a == TxAction::Rollback,
            _ => false,
        },
        TxPhase::Committing => match ev {
            TxEvent::Committed => post.results == pre.results && post.pending == pre.pending
                && post.phase == TxPhase::Done && a == TxAction::Finish,
            TxEvent::Failed(e) => post.results == pre.results
                && post.pending == Some(e)
                && post.phase == TxPhase::RollingBack && a == TxAction::Rollback,
            _ => false,
        },
        TxPhase::RollingBack => post.results == pre.results && post.pending == pre.pending
            && post.phase == TxPhase::Done && a == TxAction::Finish,
        _ => false,
    }
}

impl TransactionRunner {
    pub open spec fn wf(&self) -> bool {
        &&& self.reads@.len() == self.statements@.len()
        &&& forall|i: int| 0 <= i < self.statements@.len()
            ==> #[trigger] self.reads@[i] == member_reads(self.statements@[i])
        &&& match self.phase {
            TxPhase::Idle => self.results@.len() == 0 && self.pending is None,
            TxPhase::Beginning => self.results@.len() == 0 && self.pending is None,
            TxPhase::Running(i) => i < self.statements@.len() && self.results@.len() == i
                && self.statements@[i as int] is Some && self.pending is None,
            TxPhase::Committing => self.results@.len() == self.statements@.len()
                && self.pending is None,
            TxPhase::RollingBack => self.pending is Some,
            TxPhase::Done => true,
        }
    }

    /// The events that the runner can take in its present phase: after a read
    /// statement its rows, one value per column, after a write that it ran,
    /// and a failure wherever work was asked for.
    pub open spec fn accepts(&self, ev: TxEvent) -> bool {
        match self.phase {
            TxPhase::Beginning => ev is Started || ev is Failed,
            TxPhase::Running(i) => ev is Failed || if self.reads@[i as int] {
                ev is Rows && rows_fit(ev->Rows_0@, ev->Rows_1@)
            } else {
                ev is Executed
            },
            TxPhase::Committing => ev is Committed || ev is Failed,
            TxPhase::RollingBack => ev is RolledBack || ev is Failed,
            _ => false,
        }
    }

    /// A runner for `statements`, in the order given, that has not begun.
    pub fn new(statements: Vec<Option<Statement>>) -> (r: Self)
        ensures
            r.wf(),
            r.statements == statements,
            r.phase == TxPhase::Idle,
    {
        let mut reads: Vec<bool> = Vec::new();
        let mut i: usize = 0;
        while i < statements.len()
            invariant
                i <= statements@.len(),
                reads@.len() == i,
                forall|j: int| 0 <= j < i ==> #[trigger] reads@[j] == member_reads(statements@[j]),
            decreases statements@.len() - i,
        {
            let read = match &statements[i] {
                Some(st) => is_read_statement(st.sql.as_str()),
                None => false,
            };
            reads.push(read);
            i = i + 1;
        }
        TransactionRunner {
            statements,
            reads,
            phase: TxPhase::Idle,
            results: Vec::new(),
            pending: None,
        }
    }

    /// Whether the runner can take `ev` now.
    pub fn can_accept(&self, ev: &TxEvent) -> (r: bool)
        requires
            self.wf(),
        ensures
            r == self.accepts(*ev),
    {
        match self.phase {
            TxPhase::Beginning => matches!(ev, TxEvent::Started) || matches!(ev, TxEvent::Failed(_)),
            TxPhase::Running(i) => match ev {
                TxEvent::Failed(_) => true,
                TxEvent::Rows(columns, rows) => {
                    if !self.reads[i] {
                        return false;
                    }
                    let mut k: usize = 0;
                    while k < rows.len()
                        invariant
                            ev is Rows,
                            ev->Rows_0 == *columns,
                            ev->Rows_1 == *rows,
                            k <= rows@.len(),
                            forall|j: int| 0 <= j < k ==> (#[trigger] rows@[j])@.len() == columns@.len(),
                        decreases rows@.len() - k,
                    {
                        if rows[k].len() != columns.len() {
                            assert(ev->Rows_1@[k as int]@.len() != ev->Rows_0@.len());
                            return false;
                        }
                        k = k + 1;
                    }
                    true
                },
                TxEvent::Executed => !self.reads[i],
                _ => false,
            },
            TxPhase::Committing => matches!(ev, TxEvent::Committed) || matches!(ev, TxEvent::Failed(_)),
            TxPhase::RollingBack => matches!(ev, TxEvent::RolledBack) || matches!(ev, TxEvent::Failed(_)),
            _ => false,
        }
    }

    /// The statement that the runner asked to run, in phase `Running(i)`.
    pub fn statement(&self, i: usize) -> (st: &Statement)
        requires
            self.wf(),
            self.phase == TxPhase::Running(i),
        ensures
            Some(*st) == self.statements@[i as int],
    {
        self.statements[i].as_ref().unwrap()
    }

    /// Sets the runner going: it asks for the transaction to be opened.
    pub fn start(&mut self) -> (a: TxAction)
        requires
            old(self).wf(),
            old(self).phase == TxPhase::Idle,
        ensures
            final(self).wf(),
            final(self).statements == old(self).statements,
            final(self).reads == old(self).reads,
            final(self).results == old(self).results,
            final(self).pending == old(self).pending,
            final(self).phase == TxPhase::Beginning,
            a == TxAction::Begin,
    {
        self.phase = TxPhase::Beginning;
        TxAction::Begin
    }

    fn advance_to(&mut self, i: usize) -> (a: TxAction)
        requires
            i <= old(self).statements@.len(),
            old(self).reads@.len() == old(self).statements@.len(),
        ensures
            final(self).statements == old(self).statements,
            final(self).reads == old(self).reads,
            final(self).results == old(self).results,
            advance(*old(self), i as int, *final(self), a),
    {
        if i < self.statements.len() {
            if self.statements[i].is_none() {
                self.pending = Some(DbError::MissingSql);
                self.phase = TxPhase::RollingBack;
                return TxAction::Rollback;
            }
            self.phase = TxPhase::Running(i);
            if self.reads[i] { TxAction::Query(i) } else { TxAction::Execute(i) }
        } else {
            self.phase = TxPhase::Committing;
            TxAction::Commit
        }
    }

    /// Takes the outcome of the last action and says what to do next.
    pub fn step(&mut self, ev: TxEvent) -> (a: TxAction)
        requires
            old(self).wf(),
            old(self).accepts(ev),
        ensures
            final(self).wf(),
            transition(*old(self), ev, *final(self), a),
    {
        let n = self.statements.len();
        match self.phase {
            TxPhase::Beginning => match ev {
                TxEvent::Failed(e) => {
                    self.pending = Some(e);
                    self.phase = TxPhase::Done;
                    TxAction::Finish
                },
                _ => self.advance_to(0),
            },
            TxPhase::Running(i) => match ev {
                TxEvent::Rows(columns, rows) => {
                    assert(i < n);
                    let objs = rows_to_objects(&columns, &rows);
                    let ghost before = self.results@;
                    self.results.push(Value::Array(objs));
                    assert(self.results@.drop_last() =~= before);
                    self.advance_to(i + 1)
                },
                TxEvent::Failed(e) => {
                    self.pending = Some(e);
                    self.phase = TxPhase::RollingBack;
                    TxAction::Rollback
                },
                _ => {
                    assert(i < n);
                    self.results.push(Value::Null);
                    self.advance_to(i + 1)
                },
            },
            TxPhase::Committing => match ev {
                TxEvent::Failed(e) => {
                    self.pending = Some(e);
                    self.phase = TxPhase::RollingBack;
                    TxAction::Rollback
                },
                _ => {
                    self.phase = TxPhase::Done;
                    TxAction::Finish
                },
            },
            _ => {
                self.phase = TxPhase::Done;
                TxAction::Finish
            },
        }
    }

    /// The answer of a finished runner: the results in submission order
    /// after a commit, or the failure that stopped it.
    pub fn finish(self) -> (r: DatabaseResult<Vec<Value>>)
        requires
            self.phase == TxPhase::Done,
        ensures
            r.wf(),
            r.success == (self.pending is None),
            self.pending is None ==> r.data == Some(self.results),
            self.pending is Some ==> r.error->Some_0@ == error_text(self.pending->Some_0),
    {
        match self.pending {
            None => DatabaseResult::success(self.results),
            Some(e) => failure(&e),
        }
    }
}

/// A batch with no statements opens the transaction, commits it straight
/// away and finishes with an empty result sequence.
pub proof fn lemma_empty_batch_commits(
    r0: TransactionRunner,
    r1: TransactionRunner,
    a1: TxAction,
    r2: TransactionRunner,
    a2: TxAction,
)
    requires
        r0.wf(),
        r0.statements@.len() == 0,
        r0.phase == TxPhase::Beginning,
        transition(r0, TxEvent::Started, r1, a1),
        transition(r1, TxEvent::Committed, r2, a2),
    ensures
        a1 == TxAction::Commit,
        a2 == TxAction::Finish,
        r2.phase == TxPhase::Done,
        r2.pending is None,
        r2.results@.len() == 0,
{
}

/// Once a member statement fails, the runner asks for the transaction to be
/// rolled back and then finishes with that failure: nothing after the failing
/// statement runs and no commit is ever asked for.
pub proof fn lemma_failure_rolls_back(
    pre: TransactionRunner,
    e: DbError,
    mid: TransactionRunner,
    a1: TxAction,
    ev: TxEvent,
    post: TransactionRunner,
    a2: TxAction,
)
    requires
        pre.wf(),
        pre.phase is Running,
        transition(pre, TxEvent::Failed(e), mid, a1),
        transition(mid, ev, post, a2),
    ensures
        a1 == TxAction::Rollback,
        mid.phase == TxPhase::RollingBack,
        a2 == TxAction::Finish,
        post.phase == TxPhase::Done,
        post.pending == Some(e),
{
}

/// A member without statement text fails only when its turn comes: the
/// statements before it have run, and then the batch is rolled back with
/// that failure.
pub proof fn lemma_missing_text_fails_in_turn(pre: TransactionRunner, post: TransactionRunner, a: TxAction)
    requires
        pre.wf(),
        pre.phase is Running,
        pre.phase->Running_0 + 1 < pre.statements@.len(),
        pre.statements@[pre.phase->Running_0 + 1] is None,
        transition(pre, TxEvent::Executed, post, a),
    ensures
        a == TxAction::Rollback,
        post.phase == TxPhase::RollingBack,
        post.pending == Some(DbError::MissingSql),
        post.results@.len() == pre.phase->Running_0 + 1,
{
}

/// A runner for a transaction request: each `{sql, params}` object read and
/// bound in order. A member without statement text stays in its place as
/// `None`, so that its failure is reported only once the members before it
/// have run.
pub fn runner_from_requests<F: Fn(&Value) -> String>(requests: &Vec<Value>, encode: &F) -> (t: TransactionRunner)
    requires
        forall|v: &Value| #[trigger] encode.requires((v,)),
    ensures
        t.wf(),
        t.phase == TxPhase::Idle,
        t.statements@.len() == requests@.len(),
        forall|i: int| 0 <= i < requests@.len() ==> {
            &&& ((#[trigger] t.statements@[i]) is Some <==> has_sql(requests@[i]))
            &&& t.statements@[i] is Some ==> {
                &&& t.statements@[i]->Some_0.sql@ == sql_of(requests@[i])
                &&& binds_all(params_of(requests@[i]), t.statements@[i]->Some_0.params@, *encode)
            }
        },
{
    let mut statements: Vec<Option<Statement>> = Vec::new();
    let mut i: usize = 0;
    while i < requests.len()
        invariant
            i <= requests@.len(),
            forall|v: &Value| #[trigger] encode.requires((v,)),
            statements@.len() == i,
            forall|j: int| 0 <= j < i ==> {
                &&& ((#[trigger] statements@[j]) is Some <==> has_sql(requests@[j]))
                &&& statements@[j] is Some ==> {
                    &&& statements@[j]->Some_0.sql@ == sql_of(requests@[j])
                    &&& binds_all(params_of(requests@[j]), statements@[j]->Some_0.params@, *encode)
                }
            },
        decreases requests@.len() - i,
    {
        match parse_statement(&requests[i], encode) {
            Ok(st) => statements.push(Some(st)),
            Err(_) => statements.push(None),
        }
        i = i + 1;
    }
    TransactionRunner::new(statements)
}

} // verus!
