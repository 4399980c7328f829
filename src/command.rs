use vstd::prelude::*;
use crate::value::{Value, NativeValue, binds_all, to_native_params};
use crate::row::{row_entries, names_view, row_to_object};
use crate::envelope::{DatabaseResult, DbError, error_text, failure, lemma_error_text_nonempty};

verus! {

/// A statement ready to run: its text and its bound parameters.
#[derive(Debug)]
pub struct Statement {
    pub sql: String,
    pub params: Vec<NativeValue>,
}

/// What a write statement reports: the rows it changed and the identity of
/// the most recent insert on the connection.
#[derive(Debug, Clone, Copy, PartialEq, Eq)]
pub struct ExecSummary {
    pub changes: u64,
    pub last_insert_rowid: i64,
}

/// Every row has one value per column.
pub open spec fn rows_fit(columns: Seq<String>, rows: Seq<Vec<NativeValue>>) -> bool {
    forall|i: int| 0 <= i < rows.len() ==> (#[trigger] rows[i])@.len() == columns.len()
}

/// `objs` are the objects made of `rows`, one for one and in order.
pub open spec fn rows_read(columns: Seq<String>, rows: Seq<Vec<NativeValue>>, objs: Seq<Value>) -> bool {
    &&& objs.len() == rows.len()
    &&& forall|i: int| 0 <= i < rows.len() ==> {
        &&& (#[trigger] objs[i]) is Object
        &&& row_entries(names_view(columns), rows[i]@, objs[i]->Object_0@)
    }
}

/// The objects that a materialized result set stands for, in row order.
pub fn rows_to_objects(columns: &Vec<String>, rows: &Vec<Vec<NativeValue>>) -> (r: Vec<Value>)
    requires
        rows_fit(columns@, rows@),
    ensures
        rows_read(columns@, rows@, r@),
{
    let mut r: Vec<Value> = Vec::new();
    let mut i: usize = 0;
    while i < rows.len()
        invariant
            i <= rows@.len(),
            rows_fit(columns@, rows@),
            r@.len() == i,
            forall|j: int| 0 <= j < i ==> {
                &&& (#[trigger] r@[j]) is Object
                &&& row_entries(names_view(columns@), rows@[j]@, r@[j]->Object_0@)
            },
        decreases rows@.len() - i,
    {
        assert(rows@[i as int]@.len() == columns@.len());
        let obj = row_to_object(columns, &rows[i]);
        r.push(obj);
        i = i + 1;
    }
    r
}

/// The answer to a read query, from what running it gave: the objects of
/// all rows, or the failure. No partial result set is ever handed back.
pub fn query_outcome(outcome: Result<(Vec<String>, Vec<Vec<NativeValue>>), DbError>) -> (r: DatabaseResult<Vec<Value>>)
    requires
        outcome is Ok ==> rows_fit(outcome->Ok_0.0@, outcome->Ok_0.1@),
    ensures
        r.wf(),
        r.success == outcome is Ok,
        outcome is Ok ==> rows_read(outcome->Ok_0.0@, outcome->Ok_0.1@, r.data->Some_0@),
        outcome is Err ==> r.error->Some_0@ == error_text(outcome->Err_0),
        outcome is Err && !(outcome->Err_0 is Connection) ==> r.error->Some_0@.len() > 0,
{
    proof {
        if outcome is Err {
            if !(outcome->Err_0 is Connection) {
                lemma_error_text_nonempty(outcome->Err_0);
            }
        }
    }
    match outcome {
        Ok((columns, rows)) => DatabaseResult::success(rows_to_objects(&columns, &rows)),
        Err(e) => failure(&e),
    }
}

/// The answer to a write statement, from what running it gave.
pub fn execute_outcome(outcome: Result<ExecSummary, DbError>) -> (r: DatabaseResult<ExecSummary>)
    ensures
        r.wf(),
        r.success == outcome is Ok,
        outcome is Ok ==> r.data == Some(outcome->Ok_0),
        outcome is Err ==> r.error->Some_0@ == error_text(outcome->Err_0),
{
    match outcome {
        Ok(summary) => DatabaseResult::success(summary),
        Err(e) => failure(&e),
    }
}

/// The answer to a script of statements, from what running it gave.
pub fn exec_outcome(outcome: Result<(), DbError>) -> (r: DatabaseResult<()>)
    ensures
        r.wf(),
        r.success == outcome is Ok,
        outcome is Err ==> r.error->Some_0@ == error_text(outcome->Err_0),
{
    match outcome {
        Ok(()) => DatabaseResult::success(()),
        Err(e) => failure(&e),
    }
}

/// The index of the first entry under key `k`, or -1 where there is none.
pub open spec fn first_key(entries: Seq<(String, Value)>, k: Seq<char>) -> int
    decreases entries.len(),
{
    if entries.len() == 0 {
        -1
    } else if entries[0].0@ == k {
        0
    } else {
        let rest = first_key(entries.drop_first(), k);
        if rest < 0 { -1 } else { rest + 1 }
    }
}

proof fn lemma_first_key_range(entries: Seq<(String, Value)>, k: Seq<char>)
    ensures
        -1 <= first_key(entries, k) < entries.len(),
        first_key(entries, k) >= 0 ==> entries[first_key(entries, k)].0@ == k,
    decreases entries.len(),
{
    if entries.len() > 0 {
        lemma_first_key_range(entries.drop_first(), k);
    }
}

/// The index of the first entry under key `k`.
pub fn find_entry(entries: &Vec<(String, Value)>, k: &str) -> (r: Option<usize>)
    ensures
        r is Some <==> first_key(entries@, k@) >= 0,
        r is Some ==> r->Some_0 as int == first_key(entries@, k@),
{
    let key = String::from_str(k);
    let mut i: usize = 0;
    assert(entries@.subrange(0, entries@.len() as int) =~= entries@);
    while i < entries.len()
        invariant
            i <= entries@.len(),
            key@ == k@,
            first_key(entries@, k@) == if first_key(entries@.subrange(i as int, entries@.len() as int), k@) < 0 {
                -1
            } else {
                first_key(entries@.subrange(i as int, entries@.len() as int), k@) + i
            },
        decreases entries@.len() - i,
    {
        let ghost rest = entries@.subrange(i as int, entries@.len() as int);
        assert(rest.drop_first() =~= entries@.subrange(i as int + 1, entries@.len() as int));
        assert(rest[0] == entries@[i as int]);
        if entries[i].0 == key {
            return Some(i);
        }
        i = i + 1;
    }
    None
}

/// The request carries its statement text: it is an object whose first
/// entry under "sql" holds a string.
pub open spec fn has_sql(req: Value) -> bool {
    &&& req is Object
    &&& first_key(req->Object_0@, "sql"@) >= 0
    &&& req->Object_0@[first_key(req->Object_0@, "sql"@)].1 is Text
}

/// The statement text of a request that has one.
pub open spec fn sql_of(req: Value) -> Seq<char> {
    req->Object_0@[first_key(req->Object_0@, "sql"@)].1->Text_0@
}

/// The parameters that a request carries: the array under "params", or none
/// where that key is absent or holds something else.
pub open spec fn params_of(req: Value) -> Seq<Value> {
    if req is Object && first_key(req->Object_0@, "params"@) >= 0
        && req->Object_0@[first_key(req->Object_0@, "params"@)].1 is Array {
        req->Object_0@[first_key(req->Object_0@, "params"@)].1->Array_0@
    } else {
        Seq::empty()
    }
}

/// A statement of a transaction request, read from its `{sql, params}`
/// object, its parameters bound.
pub fn parse_statement<F: Fn(&Value) -> String>(req: &Value, encode: &F) -> (r: Result<Statement, DbError>)
    requires
        forall|v: &Value| #[trigger] encode.requires((v,)),
    ensures
        r is Ok <==> has_sql(*req),
        r is Ok ==> r->Ok_0.sql@ == sql_of(*req),
        r is Ok ==> binds_all(params_of(*req), r->Ok_0.params@, *encode),
        r is Err ==> r->Err_0 is MissingSql,
{
    match req {
        Value::Object(entries) => {
            proof {
                lemma_first_key_range(entries@, "sql"@);
                lemma_first_key_range(entries@, "params"@);
            }
            let sql = match find_entry(entries, "sql") {
                Some(p) => match &entries[p].1 {
                    Value::Text(s) => s.clone(),
                    _ => return Err(DbError::MissingSql),
                },
                None => return Err(DbError::MissingSql),
            };
            let params = match find_entry(entries, "params") {
                Some(p) => match &entries[p].1 {
                    Value::Array(vs) => to_native_params(vs, encode),
                    _ => to_native_params(&Vec::new(), encode),
                },
                None => to_native_params(&Vec::new(), encode),
            };
            Ok(Statement { sql, params })
        },
        _ => Err(DbError::MissingSql),
    }
}

} // verus!
