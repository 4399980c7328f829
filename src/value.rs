use vstd::prelude::*;
use crate::text::{decimal, push_decimal, push_char};

verus! {

/// A dynamic, JSON-like value, as requests carry parameters and as rows are
/// handed back. An integer is held wide enough for any JSON integer; when it
/// is bound it saturates into the signed 64-bit range. A floating-point number
/// is held by its IEEE-754 binary64 bit pattern; an object is a list of
/// key/value entries.
#[derive(Debug)]
pub enum Value {
    Null,
    Bool(bool),
    Integer(i128),
    Float(u64),
    Text(String),
    Array(Vec<Value>),
    Object(Vec<(String, Value)>),
}

/// A value as the storage engine binds and returns it. `Real` holds the
/// IEEE-754 binary64 bit pattern of the number.
#[derive(Debug, Clone)]
pub enum NativeValue {
    Null,
    Integer(i64),
    Real(u64),
    Text(String),
    Blob(Vec<u8>),
}

pub open spec fn is_composite(v: Value) -> bool {
    v is Array || v is Object
}

/// A binary64 bit pattern is finite when its exponent field is not all ones.
pub open spec fn finite_bits(b: u64) -> bool {
    (b >> 52u64) & 0x7ffu64 != 0x7ffu64
}

/// An integer brought into the signed 64-bit range by saturation.
pub open spec fn clamp_i64(n: int) -> i64 {
    if n > i64::MAX { i64::MAX }
    else if n < i64::MIN { i64::MIN }
    else { n as i64 }
}

/// The text that stands for a binary payload of `n` bytes.
pub open spec fn blob_label(n: nat) -> Seq<char> {
    seq!['[', 'B', 'L', 'O', 'B', ':'] + decimal(n) + seq![' ', 'b', 'y', 't', 'e', 's', ']']
}

/// `p` is the native parameter bound for the scalar value `v`: null to NULL,
/// a boolean to the integer 1 or 0, an integer saturated into 64 bits, a float
/// as itself and a string as text.
pub open spec fn binds_scalar(v: Value, p: NativeValue) -> bool {
    match v {
        Value::Null => p is Null,
        Value::Bool(b) => p == NativeValue::Integer(if b { 1i64 } else { 0i64 }),
        Value::Integer(n) => p == NativeValue::Integer(clamp_i64(n as int)),
        Value::Float(bits) => p == NativeValue::Real(bits),
        Value::Text(s) => p is Text && p->Text_0@ == s@,
        _ => false,
    }
}

/// `v` is the value read back from the native column value `n`: NULL to null,
/// an integer to an integer, a finite float to itself and any other float to
/// the integer 0, text to a string, and a blob to its placeholder text.
pub open spec fn reads_as(n: NativeValue, v: Value) -> bool {
    match n {
        NativeValue::Null => v is Null,
        NativeValue::Integer(i) => v == Value::Integer(i as i128),
        NativeValue::Real(bits) => if finite_bits(bits) {
            v == Value::Float(bits)
        } else {
            v == Value::Integer(0i128)
        },
        NativeValue::Text(s) => v is Text && v->Text_0@ == s@,
        NativeValue::Blob(bytes) => v is Text && v->Text_0@ == blob_label(bytes@.len()),
    }
}

/// `params` are the native parameters bound for `values`, one for one and in
/// order, a composite value standing as the text that `encode` gave for it.
pub open spec fn binds_all<F: Fn(&Value) -> String>(values: Seq<Value>, params: Seq<NativeValue>, encode: F) -> bool {
    &&& params.len() == values.len()
    &&& forall|i: int| 0 <= i < values.len() && !is_composite(#[trigger] values[i])
        ==> binds_scalar(values[i], params[i])
    &&& forall|i: int| 0 <= i < values.len() && is_composite(#[trigger] values[i])
        ==> (params[i] is Text && encode.ensures((&values[i],), params[i]->Text_0))
}

/// Whether a binary64 bit pattern is a finite number.
pub fn is_finite_bits(b: u64) -> (r: bool)
    ensures
        r == finite_bits(b),
{
    (b >> 52u64) & 0x7ffu64 != 0x7ffu64
}

fn clamp_to_i64(n: i128) -> (r: i64)
    ensures
        r == clamp_i64(n as int),
{
    if n > i64::MAX as i128 {
        i64::MAX
    } else if n < i64::MIN as i128 {
        i64::MIN
    } else {
        n as i64
    }
}

/// The native parameter for one value. A composite value is bound as the
/// text that `encode` gives for it, which is its canonical serialized form.
pub fn to_native_param<F: Fn(&Value) -> String>(v: &Value, encode: &F) -> (r: NativeValue)
    requires
        is_composite(*v) ==> encode.requires((v,)),
    ensures
        !is_composite(*v) ==> binds_scalar(*v, r),
        is_composite(*v) ==> (r is Text && encode.ensures((v,), r->Text_0)),
{
    match v {
        Value::Null => NativeValue::Null,
        Value::Bool(b) => NativeValue::Integer(if *b { 1i64 } else { 0i64 }),
        Value::Integer(n) => NativeValue::Integer(clamp_to_i64(*n)),
        Value::Float(bits) => NativeValue::Real(*bits),
        Value::Text(s) => NativeValue::Text(s.clone()),
        Value::Array(_) | Value::Object(_) => NativeValue::Text(encode(v)),
    }
}

/// The native parameters for a list of values, in order.
pub fn to_native_params<F: Fn(&Value) -> String>(values: &Vec<Value>, encode: &F) -> (r: Vec<NativeValue>)
    requires
        forall|v: &Value| #[trigger] encode.requires((v,)),
    ensures
        binds_all(values@, r@, *encode),
{
    let mut r: Vec<NativeValue> = Vec::new();
    let mut i: usize = 0;
    while i < values.len()
        invariant
            i <= values@.len(),
            r@.len() == i,
            forall|v: &Value| #[trigger] encode.requires((v,)),
            forall|j: int| 0 <= j < i && !is_composite(#[trigger] values@[j])
                ==> binds_scalar(values@[j], r@[j]),
            forall|j: int| 0 <= j < i && is_composite(#[trigger] values@[j])
                ==> (r@[j] is Text && encode.ensures((&values@[j],), r@[j]->Text_0)),
        decreases values@.len() - i,
    {
        let p = to_native_param(&values[i], encode);
        r.push(p);
        i = i + 1;
    }
    r
}

/// The placeholder text for a binary payload of `n` bytes.
pub fn blob_placeholder(n: usize) -> (r: String)
    ensures
        r@ == blob_label(n as nat),
{
    let mut s = String::new();
    push_char(&mut s, '[');
    push_char(&mut s, 'B');
    push_char(&mut s, 'L');
    push_char(&mut s, 'O');
    push_char(&mut s, 'B');
    push_char(&mut s, ':');
    push_decimal(&mut s, n as u64);
    push_char(&mut s, ' ');
    push_char(&mut s, 'b');
    push_char(&mut s, 'y');
    push_char(&mut s, 't');
    push_char(&mut s, 'e');
    push_char(&mut s, 's');
    push_char(&mut s, ']');
    assert(s@ =~= blob_label(n as nat));
    s
}

/// The value read back from one native column value.
pub fn from_native_value(n: &NativeValue) -> (r: Value)
    ensures
        reads_as(*n, r),
{
    match n {
        NativeValue::Null => Value::Null,
        NativeValue::Integer(i) => Value::Integer(*i as i128),
        NativeValue::Real(bits) => if is_finite_bits(*bits) {
            Value::Float(*bits)
        } else {
            Value::Integer(0i128)
        },
        NativeValue::Text(s) => Value::Text(s.clone()),
        NativeValue::Blob(bytes) => Value::Text(blob_placeholder(bytes.len())),
    }
}

/// `w` holds the same data as the scalar `v`: strings by their characters,
/// every other kind exactly.
pub open spec fn same_scalar(v: Value, w: Value) -> bool {
    match v {
        Value::Text(s) => w is Text && w->Text_0@ == s@,
        _ => w == v,
    }
}

/// A null, an integer within the signed 64-bit range, a finite float or a
/// string, bound as a parameter and read back from what was stored, is the
/// value it was. A boolean comes back as the integer 1 or 0.
pub proof fn lemma_scalar_round_trip(v: Value, p: NativeValue, w: Value)
    requires
        !is_composite(v),
        v is Integer ==> i64::MIN <= v->Integer_0 <= i64::MAX,
        v is Float ==> finite_bits(v->Float_0),
        binds_scalar(v, p),
        reads_as(p, w),
    ensures
        !(v is Bool) ==> same_scalar(v, w),
        v is Bool ==> w == Value::Integer(if v->Bool_0 { 1i128 } else { 0i128 }),
{
}

/// An array or an object bound as a parameter is stored as its serialized
/// text, and reading it back gives that same text as a string.
pub proof fn lemma_composite_reads_back_as_text<F: Fn(&Value) -> String>(v: Value, encode: F, p: NativeValue, w: Value)
    requires
        is_composite(v),
        p is Text && encode.ensures((&v,), p->Text_0),
        reads_as(p, w),
    ensures
        w is Text,
        w->Text_0@ == p->Text_0@,
{
}

} // verus!
