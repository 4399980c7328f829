use dash_db::text::{decimal_of_i64, decimal_of_u64};
use dash_db::value::{blob_placeholder, is_finite_bits};
use dash_db::{
    from_native_value, is_read_statement, row_to_object, to_native_param, to_native_params,
    NativeValue, Value,
};
use rusqlite::types::Value as SqlValue;

fn to_json(v: &Value) -> serde_json::Value {
    match v {
        Value::Null => serde_json::Value::Null,
        Value::Bool(b) => serde_json::Value::Bool(*b),
        Value::Integer(n) => serde_json::Value::from(*n as i64),
        Value::Float(bits) => serde_json::Value::from(f64::from_bits(*bits)),
        Value::Text(s) => serde_json::Value::String(s.clone()),
        Value::Array(vs) => serde_json::Value::Array(vs.iter().map(to_json).collect()),
        Value::Object(es) => {
            let mut m = serde_json::Map::new();
            for (k, v) in es {
                m.insert(k.clone(), to_json(v));
            }
            serde_json::Value::Object(m)
        }
    }
}

fn encode(v: &Value) -> String {
    serde_json::to_string(&to_json(v)).unwrap()
}

fn to_sql(p: &NativeValue) -> SqlValue {
    match p {
        NativeValue::Null => SqlValue::Null,
        NativeValue::Integer(i) => SqlValue::Integer(*i),
        NativeValue::Real(bits) => SqlValue::Real(f64::from_bits(*bits)),
        NativeValue::Text(s) => SqlValue::Text(s.clone()),
        NativeValue::Blob(b) => SqlValue::Blob(b.clone()),
    }
}

fn from_sql(v: SqlValue) -> NativeValue {
    match v {
        SqlValue::Null => NativeValue::Null,
        SqlValue::Integer(i) => NativeValue::Integer(i),
        SqlValue::Real(f) => NativeValue::Real(f.to_bits()),
        SqlValue::Text(s) => NativeValue::Text(s),
        SqlValue::Blob(b) => NativeValue::Blob(b),
    }
}

/// Binds one value, stores it, and reads the stored column back.
fn store_and_read(v: &Value) -> Value {
    let conn = rusqlite::Connection::open_in_memory().unwrap();
    conn.execute_batch("CREATE TABLE t (x)").unwrap();
    let p = to_native_param(v, &encode);
    conn.execute("INSERT INTO t (x) VALUES (?1)", [to_sql(&p)]).unwrap();
    let back: SqlValue = conn.query_row("SELECT x FROM t", [], |r| r.get(0)).unwrap();
    from_native_value(&from_sql(back))
}

fn text_of(v: &Value) -> &str {
    match v {
        Value::Text(s) => s.as_str(),
        other => panic!("not a string: {:?}", other),
    }
}

#[test]
fn scalar_values_round_trip_through_storage() {
    assert!(matches!(store_and_read(&Value::Null), Value::Null));
    assert!(matches!(store_and_read(&Value::Integer(-42)), Value::Integer(-42)));
    assert!(matches!(
        store_and_read(&Value::Integer(i64::MAX as i128)),
        Value::Integer(n) if n == i64::MAX as i128
    ));
    let bits = 2.5f64.to_bits();
    assert!(matches!(store_and_read(&Value::Float(bits)), Value::Float(b) if b == bits));
    assert_eq!(text_of(&store_and_read(&Value::Text("héllo".to_string()))), "héllo");
}

#[test]
fn booleans_are_stored_as_one_and_zero() {
    assert!(matches!(store_and_read(&Value::Bool(true)), Value::Integer(1)));
    assert!(matches!(store_and_read(&Value::Bool(false)), Value::Integer(0)));
}

#[test]
fn composites_read_back_as_their_text() {
    let arr = Value::Array(vec![Value::Integer(1), Value::Text("a".to_string())]);
    assert_eq!(text_of(&store_and_read(&arr)), "[1,\"a\"]");
    let obj = Value::Object(vec![("k".to_string(), Value::Bool(true))]);
    assert_eq!(text_of(&store_and_read(&obj)), "{\"k\":true}");
}

#[test]
fn integers_beyond_64_bits_saturate() {
    let big = Value::Integer(u64::MAX as i128);
    assert!(matches!(to_native_param(&big, &encode), NativeValue::Integer(i64::MAX)));
    let small = Value::Integer(i64::MIN as i128 - 1);
    assert!(matches!(to_native_param(&small, &encode), NativeValue::Integer(i64::MIN)));
}

#[test]
fn params_keep_their_order() {
    let vs = vec![Value::Text("a".to_string()), Value::Null, Value::Integer(3)];
    let ps = to_native_params(&vs, &encode);
    assert_eq!(ps.len(), 3);
    assert!(matches!(&ps[0], NativeValue::Text(s) if s == "a"));
    assert!(matches!(ps[1], NativeValue::Null));
    assert!(matches!(ps[2], NativeValue::Integer(3)));
}

#[test]
fn non_finite_reals_read_as_zero() {
    assert!(!is_finite_bits(f64::NAN.to_bits()));
    assert!(!is_finite_bits(f64::INFINITY.to_bits()));
    assert!(is_finite_bits(1.0f64.to_bits()));
    assert!(matches!(
        from_native_value(&NativeValue::Real(f64::NEG_INFINITY.to_bits())),
        Value::Integer(0)
    ));
}

#[test]
fn blobs_read_as_a_placeholder() {
    let v = from_native_value(&NativeValue::Blob(vec![1, 2, 3]));
    assert_eq!(text_of(&v), "[BLOB:3 bytes]");
    assert_eq!(blob_placeholder(0), "[BLOB:0 bytes]");
    assert_eq!(blob_placeholder(1024), "[BLOB:1024 bytes]");
}

#[test]
fn decimal_text() {
    assert_eq!(decimal_of_u64(0), "0");
    assert_eq!(decimal_of_u64(u64::MAX), "18446744073709551615");
    assert_eq!(decimal_of_i64(-7), "-7");
    assert_eq!(decimal_of_i64(i64::MIN), "-9223372036854775808");
    assert_eq!(decimal_of_i64(1700000000), "1700000000");
}

#[test]
fn row_objects_keep_column_order_and_last_duplicate_wins() {
    let names = vec!["id".to_string(), "name".to_string(), "id".to_string()];
    let row = vec![
        NativeValue::Integer(1),
        NativeValue::Text("x".to_string()),
        NativeValue::Integer(9),
    ];
    match row_to_object(&names, &row) {
        Value::Object(es) => {
            assert_eq!(es.len(), 2);
            assert_eq!(es[0].0, "id");
            assert!(matches!(es[0].1, Value::Integer(9)));
            assert_eq!(es[1].0, "name");
            assert_eq!(text_of(&es[1].1), "x");
        }
        other => panic!("not an object: {:?}", other),
    }
}

#[test]
fn read_statements_are_told_by_their_first_word() {
    assert!(is_read_statement("SELECT 1"));
    assert!(is_read_statement("  \n\tselect * from t"));
    assert!(is_read_statement("\u{a0}SeLeCt x"));
    assert!(!is_read_statement("INSERT INTO t VALUES (1)"));
    assert!(!is_read_statement("WITH a AS (SELECT 1) SELECT * FROM a"));
    assert!(!is_read_statement("SELEC"));
    assert!(!is_read_statement(""));
}

#[test]
fn read_statements_match_after_upper_casing() {
    assert!(is_read_statement("\u{17f}elect 1"));
    assert!(is_read_statement("selec\u{1e97} 1"));
    assert!(!is_read_statement("\u{df}elect 1"));
    assert!(!is_read_statement("\u{1e97}elect 1"));
}
