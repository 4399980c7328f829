use vstd::prelude::*;
use crate::text::prefixed;

verus! {

/// The uniform answer of every data-access command: `data` on success,
/// `error` on failure.
#[derive(Debug)]
pub struct DatabaseResult<T> {
    pub success: bool,
    pub data: Option<T>,
    pub error: Option<String>,
}

impl<T> DatabaseResult<T> {
    /// Exactly one of `data` and `error` is present, as `success` says.
    pub open spec fn wf(&self) -> bool {
        &&& self.success ==> self.data is Some && self.error is None
        &&& !self.success ==> self.data is None && self.error is Some
    }

    pub fn success(data: T) -> (r: Self)
        ensures
            r.success,
            r.data == Some(data),
            r.error is None,
            r.wf(),
    {
        DatabaseResult { success: true, data: Some(data), error: None }
    }

    pub fn error(error: String) -> (r: Self)
        ensures
            !r.success,
            r.data is None,
            r.error == Some(error),
            r.wf(),
    {
        DatabaseResult { success: false, data: None, error: Some(error) }
    }
}

/// Why a data-access command failed. Each variant but `Connection` and
/// `MissingSql` carries the engine's own description of the fault.
#[derive(Debug)]
pub enum DbError {
    /// The connection could not be made ready; the text says why in full.
    Connection(String),
    Prepare(String),
    Query(String),
    RowParse(String),
    Execute(String),
    Exec(String),
    MissingSql,
    TransactionStart(String),
    Commit(String),
}

/// The message that a failure is reported with.
pub open spec fn error_text(e: DbError) -> Seq<char> {
    match e {
        DbError::Connection(d) => d@,
        DbError::Prepare(d) => "SQL prepare error: "@ + d@,
        DbError::Query(d) => "SQL query error: "@ + d@,
        DbError::RowParse(d) => "Row parsing error: "@ + d@,
        DbError::Execute(d) => "SQL execute error: "@ + d@,
        DbError::Exec(d) => "SQL exec error: "@ + d@,
        DbError::MissingSql => "Missing 'sql' in query object"@,
        DbError::TransactionStart(d) => "Transaction start error: "@ + d@,
        DbError::Commit(d) => "Transaction commit error: "@ + d@,
    }
}

impl DbError {
    /// The message that this failure is reported with.
    pub fn message(&self) -> (r: String)
        ensures
            r@ == error_text(*self),
    {
        match self {
            DbError::Connection(d) => d.clone(),
            DbError::Prepare(d) => prefixed("SQL prepare error: ", d),
            DbError::Query(d) => prefixed("SQL query error: ", d),
            DbError::RowParse(d) => prefixed("Row parsing error: ", d),
            DbError::Execute(d) => prefixed("SQL execute error: ", d),
            DbError::Exec(d) => prefixed("SQL exec error: ", d),
            DbError::MissingSql => String::from_str("Missing 'sql' in query object"),
            DbError::TransactionStart(d) => prefixed("Transaction start error: ", d),
            DbError::Commit(d) => prefixed("Transaction commit error: ", d),
        }
    }
}

/// Every failure but a connection failure with an empty description is
/// reported with a non-empty message.
pub proof fn lemma_error_text_nonempty(e: DbError)
    requires
        !(e is Connection) || e->Connection_0@.len() > 0,
    ensures
        error_text(e).len() > 0,
{
    reveal_strlit("SQL prepare error: ");
    reveal_strlit("SQL query error: ");
    reveal_strlit("Row parsing error: ");
    reveal_strlit("SQL execute error: ");
    reveal_strlit("SQL exec error: ");
    reveal_strlit("Missing 'sql' in query object");
    reveal_strlit("Transaction start error: ");
    reveal_strlit("Transaction commit error: ");
}

/// The error envelope for a failure.
pub fn failure<T>(e: &DbError) -> (r: DatabaseResult<T>)
    ensures
        !r.success,
        r.data is None,
        r.error is Some && r.error->Some_0@ == error_text(*e),
        r.wf(),
{
    DatabaseResult::error(e.message())
}

} // verus!
