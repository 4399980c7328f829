use dash_db::command::ExecSummary;
use dash_db::{
    execute_outcome, exec_outcome, query_outcome, runner_from_requests, DatabaseResult, DbError,
    NativeValue, Statement, TransactionRunner, TxAction, TxEvent, TxPhase, Value,
};
use rusqlite::types::Value as SqlValue;

fn encode(_v: &Value) -> String {
    String::from("[]")
}

fn to_sql(p: &NativeValue) -> SqlValue {
    match p {
        NativeValue::Null => SqlValue::Null,
        NativeValue::Integer(i) => SqlValue::Integer(*i),
        NativeValue::Real(bits) => SqlValue::Real(f64::from_bits(*bits)),
        NativeValue::Text(s) => SqlValue::Text(s.clone()),
        NativeValue::Blob(b) => SqlValue::Blob(b.clone()),
    }
}

fn from_sql(v: SqlValue) -> NativeValue {
    match v {
        SqlValue::Null => NativeValue::Null,
        SqlValue::Integer(i) => NativeValue::Integer(i),
        SqlValue::Real(f) => NativeValue::Real(f.to_bits()),
        SqlValue::Text(s) => NativeValue::Text(s),
        SqlValue::Blob(b) => NativeValue::Blob(b),
    }
}

fn run_query(
    conn: &rusqlite::Connection,
    st: &Statement,
) -> Result<(Vec<String>, Vec<Vec<NativeValue>>), DbError> {
    let mut stmt = conn.prepare(&st.sql).map_err(|e| DbError::Prepare(e.to_string()))?;
    let columns: Vec<String> = stmt.column_names().iter().map(|s| s.to_string()).collect();
    let n = columns.len();
    let params: Vec<SqlValue> = st.params.iter().map(to_sql).collect();
    let mut rows = stmt
        .query(rusqlite::params_from_iter(params))
        .map_err(|e| DbError::Query(e.to_string()))?;
    let mut out = Vec::new();
    while let Some(row) = rows.next().map_err(|e| DbError::RowParse(e.to_string()))? {
        let mut vals = Vec::new();
        for i in 0..n {
            let v: SqlValue = row.get(i).map_err(|e| DbError::RowParse(e.to_string()))?;
            vals.push(from_sql(v));
        }
        out.push(vals);
    }
    Ok((columns, out))
}

fn run_execute(conn: &rusqlite::Connection, st: &Statement) -> Result<ExecSummary, DbError> {
    let mut stmt = conn.prepare(&st.sql).map_err(|e| DbError::Prepare(e.to_string()))?;
    let params: Vec<SqlValue> = st.params.iter().map(to_sql).collect();
    let changes = stmt
        .execute(rusqlite::params_from_iter(params))
        .map_err(|e| DbError::Execute(e.to_string()))?;
    Ok(ExecSummary { changes: changes as u64, last_insert_rowid: conn.last_insert_rowid() })
}

fn drive(conn: &rusqlite::Connection, mut runner: TransactionRunner) -> DatabaseResult<Vec<Value>> {
    let mut action = runner.start();
    loop {
        let ev = match action {
            TxAction::Begin => match conn.execute_batch("BEGIN") {
                Ok(()) => TxEvent::Started,
                Err(e) => TxEvent::Failed(DbError::TransactionStart(e.to_string())),
            },
            TxAction::Query(i) => match run_query(conn, runner.statement(i)) {
                Ok((c, r)) => TxEvent::Rows(c, r),
                Err(e) => TxEvent::Failed(e),
            },
            TxAction::Execute(i) => match run_execute(conn, runner.statement(i)) {
                Ok(_) => TxEvent::Executed,
                Err(e) => TxEvent::Failed(e),
            },
            TxAction::Commit => match conn.execute_batch("COMMIT") {
                Ok(()) => TxEvent::Committed,
                Err(e) => TxEvent::Failed(DbError::Commit(e.to_string())),
            },
            TxAction::Rollback => match conn.execute_batch("ROLLBACK") {
                Ok(()) => TxEvent::RolledBack,
                Err(e) => TxEvent::Failed(DbError::Exec(e.to_string())),
            },
            TxAction::Finish => return runner.finish(),
        };
        assert!(runner.can_accept(&ev));
        action = runner.step(ev);
    }
}

fn request(sql: &str, params: Vec<Value>) -> Value {
    Value::Object(vec![
        ("sql".to_string(), Value::Text(sql.to_string())),
        ("params".to_string(), Value::Array(params)),
    ])
}

fn setup() -> rusqlite::Connection {
    let conn = rusqlite::Connection::open_in_memory().unwrap();
    conn.execute_batch("CREATE TABLE t (id INTEGER PRIMARY KEY, name TEXT)").unwrap();
    conn
}

fn count(conn: &rusqlite::Connection) -> i64 {
    conn.query_row("SELECT COUNT(*) FROM t", [], |r| r.get(0)).unwrap()
}

#[test]
fn empty_transaction_commits_nothing() {
    let conn = setup();
    let runner = runner_from_requests(&vec![], &encode);
    let r = drive(&conn, runner);
    assert!(r.success);
    assert!(r.error.is_none());
    assert_eq!(r.data.unwrap().len(), 0);
}

#[test]
fn insert_then_select_gives_null_then_rows() {
    let conn = setup();
    let reqs = vec![
        request("INSERT INTO t (id, name) VALUES (?1, ?2)", vec![Value::Integer(1), Value::Text("ann".to_string())]),
        request("SELECT * FROM t", vec![]),
    ];
    let runner = runner_from_requests(&reqs, &encode);
    let r = drive(&conn, runner);
    assert!(r.success);
    let data = r.data.unwrap();
    assert_eq!(data.len(), 2);
    assert!(matches!(data[0], Value::Null));
    match &data[1] {
        Value::Array(rows) => {
            assert_eq!(rows.len(), 1);
            match &rows[0] {
                Value::Object(es) => {
                    assert_eq!(es.len(), 2);
                    assert_eq!(es[0].0, "id");
                    assert!(matches!(es[0].1, Value::Integer(1)));
                    assert_eq!(es[1].0, "name");
                    assert!(matches!(&es[1].1, Value::Text(s) if s == "ann"));
                }
                other => panic!("not an object: {:?}", other),
            }
        }
        other => panic!("not an array: {:?}", other),
    }
    assert_eq!(count(&conn), 1);
}

#[test]
fn failing_member_rolls_back_the_batch() {
    let conn = setup();
    conn.execute_batch("INSERT INTO t (id, name) VALUES (7, 'before')").unwrap();
    let reqs = vec![
        request("INSERT INTO t (id, name) VALUES (1, 'a')", vec![]),
        request("INSERT INTO nowhere VALUES (1)", vec![]),
        request("INSERT INTO t (id, name) VALUES (2, 'b')", vec![]),
    ];
    let runner = runner_from_requests(&reqs, &encode);
    let r = drive(&conn, runner);
    assert!(!r.success);
    assert!(r.data.is_none());
    assert!(r.error.unwrap().starts_with("SQL prepare error: "));
    assert_eq!(count(&conn), 1);
    let name: String = conn.query_row("SELECT name FROM t", [], |r| r.get(0)).unwrap();
    assert_eq!(name, "before");
}

#[test]
fn failed_step_asks_for_rollback_then_finishes() {
    let st = Statement { sql: "UPDATE t SET x = 1".to_string(), params: vec![] };
    let mut runner = TransactionRunner::new(vec![Some(st)]);
    assert_eq!(runner.start(), TxAction::Begin);
    assert_eq!(runner.step(TxEvent::Started), TxAction::Execute(0));
    assert_eq!(runner.step(TxEvent::Failed(DbError::Execute("boom".to_string()))), TxAction::Rollback);
    assert_eq!(runner.phase, TxPhase::RollingBack);
    assert_eq!(runner.step(TxEvent::RolledBack), TxAction::Finish);
    let r = runner.finish();
    assert_eq!(r.error.unwrap(), "SQL execute error: boom");
}

#[test]
fn begin_failure_finishes_without_rollback() {
    let mut runner = TransactionRunner::new(vec![]);
    runner.start();
    let a = runner.step(TxEvent::Failed(DbError::TransactionStart("busy".to_string())));
    assert_eq!(a, TxAction::Finish);
    assert_eq!(runner.finish().error.unwrap(), "Transaction start error: busy");
}

#[test]
fn request_without_sql_fails_in_its_turn() {
    let conn = setup();
    let reqs = vec![
        request("INSERT INTO t (id, name) VALUES (1, 'a')", vec![]),
        Value::Object(vec![("params".to_string(), Value::Array(vec![]))]),
    ];
    let runner = runner_from_requests(&reqs, &encode);
    assert!(runner.statements[0].is_some());
    assert!(runner.statements[1].is_none());
    let r = drive(&conn, runner);
    assert!(!r.success);
    assert_eq!(r.error.unwrap(), "Missing 'sql' in query object");
    assert_eq!(count(&conn), 0);
    let odd = runner_from_requests(&vec![Value::Text("SELECT 1".to_string())], &encode);
    assert!(odd.statements[0].is_none());
}

#[test]
fn earlier_failure_is_reported_before_missing_sql() {
    let conn = setup();
    let reqs = vec![
        request("INSERT INTO nowhere VALUES (1)", vec![]),
        Value::Object(vec![]),
    ];
    let r = drive(&conn, runner_from_requests(&reqs, &encode));
    assert!(r.error.unwrap().starts_with("SQL prepare error: "));
}

#[test]
fn request_without_params_binds_none() {
    let reqs = vec![Value::Object(vec![("sql".to_string(), Value::Text("SELECT 1".to_string()))])];
    let runner = runner_from_requests(&reqs, &encode);
    let st = runner.statements[0].as_ref().unwrap();
    assert_eq!(st.sql, "SELECT 1");
    assert!(st.params.is_empty());
    assert_eq!(runner.reads, vec![true]);
}

#[test]
fn malformed_query_gives_an_error_envelope() {
    let conn = setup();
    let st = Statement { sql: "SELEC oops FROM".to_string(), params: vec![] };
    let r = query_outcome(run_query(&conn, &st));
    assert!(!r.success);
    assert!(r.data.is_none());
    let msg = r.error.unwrap();
    assert!(msg.starts_with("SQL prepare error: "));
    assert!(msg.len() > "SQL prepare error: ".len());
}

#[test]
fn query_outcome_materializes_all_rows() {
    let conn = setup();
    conn.execute_batch("INSERT INTO t VALUES (1, 'a'); INSERT INTO t VALUES (2, NULL);").unwrap();
    let st = Statement { sql: "SELECT id, name FROM t ORDER BY id".to_string(), params: vec![] };
    let r = query_outcome(run_query(&conn, &st));
    assert!(r.success);
    let rows = r.data.unwrap();
    assert_eq!(rows.len(), 2);
    match &rows[1] {
        Value::Object(es) => assert!(matches!(es[1].1, Value::Null)),
        other => panic!("not an object: {:?}", other),
    }
}

#[test]
fn execute_reports_changes_and_last_id() {
    let conn = setup();
    let st = Statement {
        sql: "INSERT INTO t (name) VALUES (?1)".to_string(),
        params: vec![NativeValue::Text("z".to_string())],
    };
    let r = execute_outcome(run_execute(&conn, &st));
    assert!(r.success);
    assert_eq!(r.data.unwrap(), ExecSummary { changes: 1, last_insert_rowid: 1 });
    let bad = execute_outcome(Err(DbError::Execute("constraint".to_string())));
    assert_eq!(bad.error.unwrap(), "SQL execute error: constraint");
}

#[test]
fn exec_outcome_reports_script_failure() {
    assert!(exec_outcome(Ok(())).success);
    let r = exec_outcome(Err(DbError::Exec("near x".to_string())));
    assert!(!r.success);
    assert_eq!(r.error.unwrap(), "SQL exec error: near x");
}
