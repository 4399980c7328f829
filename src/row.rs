use vstd::prelude::*;
use crate::value::{Value, NativeValue, reads_as, from_native_value};

verus! {

/// The distinct column names, in the order of their first occurrence.
pub open spec fn key_order(names: Seq<Seq<char>>) -> Seq<Seq<char>>
    decreases names.len(),
{
    if names.len() == 0 {
        Seq::empty()
    } else {
        let before = key_order(names.drop_last());
        if before.contains(names.last()) { before } else { before.push(names.last()) }
    }
}

/// The index of the last column named `k`, or -1 where there is none.
pub open spec fn last_col(names: Seq<Seq<char>>, k: Seq<char>) -> int
    decreases names.len(),
{
    if names.len() == 0 {
        -1
    } else if names.last() == k {
        names.len() - 1
    } else {
        last_col(names.drop_last(), k)
    }
}

pub open spec fn names_view(names: Seq<String>) -> Seq<Seq<char>> {
    names.map_values(|s: String| s@)
}

/// `entries` is the object made of a row: one entry per distinct column name,
/// in the order the names first occur, each holding the value read from the
/// last column of that name.
pub open spec fn row_entries(names: Seq<Seq<char>>, row: Seq<NativeValue>, entries: Seq<(String, Value)>) -> bool {
    &&& entries.len() == key_order(names).len()
    &&& forall|i: int| 0 <= i < entries.len() ==> {
        &&& (#[trigger] entries[i]).0@ == key_order(names)[i]
        &&& 0 <= last_col(names, entries[i].0@) < row.len()
        &&& reads_as(row[last_col(names, entries[i].0@)], entries[i].1)
    }
}

proof fn lemma_key_order_distinct(names: Seq<Seq<char>>)
    ensures
        key_order(names).no_duplicates(),
    decreases names.len(),
{
    if names.len() > 0 {
        lemma_key_order_distinct(names.drop_last());
    }
}

fn find_key(entries: &Vec<(String, Value)>, k: &String) -> (r: Option<usize>)
    ensures
        r is Some ==> r->Some_0 < entries@.len() && entries@[r->Some_0 as int].0@ == k@,
        r is None ==> forall|i: int| 0 <= i < entries@.len() ==> entries@[i].0@ != k@,
{
    let mut i: usize = 0;
    while i < entries.len()
        invariant
            i <= entries@.len(),
            forall|j: int| 0 <= j < i ==> entries@[j].0@ != k@,
        decreases entries@.len() - i,
    {
        if entries[i].0 == *k {
            return Some(i);
        }
        i = i + 1;
    }
    None
}

/// The object that a row stands for: each column under its name, with the
/// later of two columns of the same name winning.
pub fn row_to_object(names: &Vec<String>, row: &Vec<NativeValue>) -> (r: Value)
    requires
        names@.len() == row@.len(),
    ensures
        r is Object,
        row_entries(names_view(names@), row@, r->Object_0@),
{
    let ghost nv = names_view(names@);
    let mut entries: Vec<(String, Value)> = Vec::new();
    let mut i: usize = 0;
    while i < names.len()
        invariant
            i <= names@.len(),
            names@.len() == row@.len(),
            nv == names_view(names@),
            row_entries(nv.take(i as int), row@, entries@),
        decreases names@.len() - i,
    {
        let ghost pre = nv.take(i as int);
        let ghost post = nv.take(i as int + 1);
        assert(post.drop_last() =~= pre);
        assert(post.last() == names@[i as int]@);
        let v = from_native_value(&row[i]);
        proof {
            lemma_key_order_distinct(pre);
        }
        match find_key(&entries, &names[i]) {
            Some(p) => {
                let key = entries[p].0.clone();
                let ghost old_entries = entries@;
                assert(key_order(pre).contains(post.last())) by {
                    assert(key_order(pre)[p as int] == post.last());
                }
                entries.set(p, (key, v));
                assert forall|j: int| 0 <= j < entries@.len() implies {
                    &&& (#[trigger] entries@[j]).0@ == key_order(post)[j]
                    &&& 0 <= last_col(post, entries@[j].0@) < row@.len()
                    &&& reads_as(row@[last_col(post, entries@[j].0@)], entries@[j].1)
                } by {
                    if j != p {
                        assert(entries@[j] == old_entries[j]);
                        assert(key_order(pre)[j] != key_order(pre)[p as int]);
                    }
                }
            },
            None => {
                let key = names[i].clone();
                let ghost old_entries = entries@;
                assert(!key_order(pre).contains(post.last())) by {
                    if key_order(pre).contains(post.last()) {
                        let q = choose|q: int| 0 <= q < key_order(pre).len() && key_order(pre)[q] == post.last();
                        assert(old_entries[q].0@ == post.last());
                    }
                }
                entries.push((key, v));
                assert forall|j: int| 0 <= j < entries@.len() implies {
                    &&& (#[trigger] entries@[j]).0@ == key_order(post)[j]
                    &&& 0 <= last_col(post, entries@[j].0@) < row@.len()
                    &&& reads_as(row@[last_col(post, entries@[j].0@)], entries@[j].1)
                } by {
                    if j < old_entries.len() {
                        assert(entries@[j] == old_entries[j]);
                        assert(key_order(pre)[j] != post.last()) by {
                            assert(key_order(pre).contains(key_order(pre)[j]));
                        }
                    }
                }
            },
        }
        i = i + 1;
    }
    assert(nv.take(names@.len() as int) =~= nv);
    Value::Object(entries)
}

} // verus!
