//! A JSON document held as plain values. An object keeps its entries in the
//! order of their keys, as `serde_json` keeps them, each key once; a number
//! is an unsigned or a negative integer, or a fraction kept as the text that
//! `serde_json` writes for it.
use vstd::prelude::*;
use crate::text::{seq_lt, str_eq, str_lt};

verus! {

/// A JSON number.
#[derive(Debug)]
pub enum JsonNumber {
    Unsigned(u64),
    Negative(i64),
    /// A number with a fraction or an exponent, as `serde_json` writes it.
    Float(String),
}

/// A JSON value.
#[derive(Debug)]
pub enum Json {
    Null,
    Bool(bool),
    Number(JsonNumber),
    Text(String),
    List(Vec<Json>),
    Object(Vec<(String, Json)>),
}

/// A [`JsonNumber`] as a mathematical value.
pub enum NumberView {
    Unsigned(u64),
    Negative(i64),
    Float(Seq<char>),
}

/// A [`Json`] value as a mathematical value.
pub enum JsonView {
    Null,
    Bool(bool),
    Number(NumberView),
    Text(Seq<char>),
    List(Seq<JsonView>),
    Object(Seq<(Seq<char>, JsonView)>),
}

/// The view of a number.
pub open spec fn number_view(n: JsonNumber) -> NumberView {
    match n {
        JsonNumber::Unsigned(u) => NumberView::Unsigned(u),
        JsonNumber::Negative(i) => NumberView::Negative(i),
        JsonNumber::Float(t) => NumberView::Float(t@),
    }
}

/// The view of a value.
pub open spec fn json_view(j: Json) -> JsonView
    decreases j, 1nat,
{
    match j {
        Json::Null => JsonView::Null,
        Json::Bool(b) => JsonView::Bool(b),
        Json::Number(n) => JsonView::Number(number_view(n)),
        Json::Text(t) => JsonView::Text(t@),
        Json::List(v) => JsonView::List(list_view(v@)),
        Json::Object(v) => JsonView::Object(entries_view(v@)),
    }
}

/// The views of the items of a list.
pub open spec fn list_view(s: Seq<Json>) -> Seq<JsonView>
    decreases s, 0nat,
{
    Seq::new(s.len(), |i: int| if 0 <= i < s.len() { json_view(s[i]) } else { JsonView::Null })
}

/// The views of the entries of an object.
pub open spec fn entries_view(s: Seq<(String, Json)>) -> Seq<(Seq<char>, JsonView)>
    decreases s, 0nat,
{
    Seq::new(
        s.len(),
        |i: int|
            if 0 <= i < s.len() {
                (s[i].0@, json_view(s[i].1))
            } else {
                (Seq::empty(), JsonView::Null)
            },
    )
}

impl View for Json {
    type V = JsonView;

    open spec fn view(&self) -> JsonView {
        json_view(*self)
    }
}

fn copy_number(n: &JsonNumber) -> (r: JsonNumber)
    ensures
        number_view(r) == number_view(*n),
{
    match n {
        JsonNumber::Unsigned(u) => JsonNumber::Unsigned(*u),
        JsonNumber::Negative(i) => JsonNumber::Negative(*i),
        JsonNumber::Float(t) => JsonNumber::Float(t.clone()),
    }
}

/// A copy of a value.
pub fn copy_json(j: &Json) -> (r: Json)
    ensures
        r@ == j@,
    decreases j,
{
    match j {
        Json::Null => Json::Null,
        Json::Bool(b) => Json::Bool(*b),
        Json::Number(n) => Json::Number(copy_number(n)),
        Json::Text(t) => Json::Text(t.clone()),
        Json::List(v) => {
            let mut out: Vec<Json> = Vec::new();
            for i in 0..v.len()
                invariant
                    *j == Json::List(*v),
                    out@.len() == i,
                    forall|k: int| 0 <= k < i ==> json_view(#[trigger] out@[k]) == json_view(v@[k]),
            {
                proof {
                    assert(decreases_to!(*j => j->List_0));
                    assert(decreases_to!(*v => v@));
                    assert(decreases_to!(v@ => v@[i as int]));
                }
                let c = copy_json(&v[i]);
                out.push(c);
            }
            let r = Json::List(out);
            proof {
                assert(list_view(out@) =~= list_view(v@));
            }
            r
        },
        Json::Object(v) => {
            let mut out: Vec<(String, Json)> = Vec::new();
            for i in 0..v.len()
                invariant
                    *j == Json::Object(*v),
                    out@.len() == i,
                    forall|k: int|
                        0 <= k < i ==> (#[trigger] out@[k]).0@ == v@[k].0@ && json_view(out@[k].1) == json_view(
                            v@[k].1,
                        ),
            {
                proof {
                    assert(decreases_to!(*j => j->Object_0));
                    assert(decreases_to!(*v => v@));
                    assert(decreases_to!(v@ => v@[i as int]));
                    assert(decreases_to!(v@[i as int] => v@[i as int].1));
                }
                let c = copy_json(&v[i].1);
                out.push((v[i].0.clone(), c));
            }
            let r = Json::Object(out);
            proof {
                assert(entries_view(out@) =~= entries_view(v@));
            }
            r
        },
    }
}

/// `i` is the first entry of `es` under `key`.
pub open spec fn is_first_key(es: Seq<(Seq<char>, JsonView)>, key: Seq<char>, i: int) -> bool {
    &&& 0 <= i < es.len()
    &&& es[i].0 == key
    &&& forall|j: int| 0 <= j < i ==> #[trigger] es[j].0 != key
}

/// The first entry of `es` under `key`, if there is one.
pub open spec fn find_key(es: Seq<(Seq<char>, JsonView)>, key: Seq<char>) -> Option<int> {
    if exists|i: int| is_first_key(es, key, i) {
        Some(choose|i: int| is_first_key(es, key, i))
    } else {
        None
    }
}

/// The value under `key` among the entries `es`.
pub open spec fn lookup(es: Seq<(Seq<char>, JsonView)>, key: Seq<char>) -> Option<JsonView> {
    match find_key(es, key) {
        Some(i) => Some(es[i].1),
        None => None,
    }
}

/// The value under `key` of `v`, when `v` is an object.
pub open spec fn get_view(v: JsonView, key: Seq<char>) -> Option<JsonView> {
    match v {
        JsonView::Object(es) => lookup(es, key),
        _ => None,
    }
}

/// `i` is the first entry of `es` whose key comes after `key`.
pub open spec fn is_first_after(es: Seq<(Seq<char>, JsonView)>, key: Seq<char>, i: int) -> bool {
    &&& 0 <= i < es.len()
    &&& seq_lt(key, es[i].0)
    &&& forall|j: int| 0 <= j < i ==> !seq_lt(key, #[trigger] es[j].0)
}

/// Where a new entry under `key` goes: before the first key after it.
pub open spec fn insert_position(es: Seq<(Seq<char>, JsonView)>, key: Seq<char>) -> int {
    if exists|i: int| is_first_after(es, key, i) {
        choose|i: int| is_first_after(es, key, i)
    } else {
        es.len() as int
    }
}

/// The entries `es` with `v` under `key`: the entry under `key` takes the
/// value, or a new entry goes into its place by key.
pub open spec fn set_entry(es: Seq<(Seq<char>, JsonView)>, key: Seq<char>, v: JsonView) -> Seq<(Seq<char>, JsonView)> {
    match find_key(es, key) {
        Some(i) => es.update(i, (key, v)),
        None => es.insert(insert_position(es, key), (key, v)),
    }
}

/// The first entry of `es` under `key`.
pub fn find_entry(es: &Vec<(String, Json)>, key: &str) -> (r: Option<usize>)
    ensures
        match r {
            Some(i) => find_key(entries_view(es@), key@) == Some(i as int) && i < es@.len(),
            None => find_key(entries_view(es@), key@) is None,
        },
{
    let ghost s = entries_view(es@);
    for i in 0..es.len()
        invariant
            s == entries_view(es@),
            forall|k: int| 0 <= k < i ==> #[trigger] s[k].0 != key@,
    {
        if str_eq(es[i].0.as_str(), key) {
            proof {
                assert(is_first_key(s, key@, i as int));
                let k = choose|k: int| is_first_key(s, key@, k);
                if k < i {
                    assert(s[k].0 != key@);
                } else if k > i {
                    assert(s[i as int].0 != key@);
                }
            }
            return Some(i);
        }
    }
    proof {
        if exists|k: int| is_first_key(s, key@, k) {
            let k = choose|k: int| is_first_key(s, key@, k);
            assert(s[k].0 != key@);
        }
    }
    None
}

/// The value under `key` of `j`, when `j` is an object that has one.
pub fn json_get<'a>(j: &'a Json, key: &str) -> (r: Option<&'a Json>)
    ensures
        match r {
            Some(c) => get_view(j@, key@) == Some(c@),
            None => get_view(j@, key@) is None,
        },
{
    match j {
        Json::Object(es) => match find_entry(es, key) {
            Some(i) => {
                proof {
                    assert(entries_view(es@)[i as int].1 == json_view(es@[i as int].1));
                }
                Some(&es[i].1)
            },
            None => None,
        },
        _ => None,
    }
}

fn insert_index(es: &Vec<(String, Json)>, key: &str) -> (r: usize)
    ensures
        r as int == insert_position(entries_view(es@), key@),
        r <= es@.len(),
{
    let ghost s = entries_view(es@);
    for i in 0..es.len()
        invariant
            s == entries_view(es@),
            forall|k: int| 0 <= k < i ==> !seq_lt(key@, #[trigger] s[k].0),
    {
        if str_lt(key, es[i].0.as_str()) {
            proof {
                assert(is_first_after(s, key@, i as int));
                let k = choose|k: int| is_first_after(s, key@, k);
                if k < i {
                    assert(!seq_lt(key@, s[k].0));
                } else if k > i {
                    assert(!seq_lt(key@, s[i as int].0));
                }
            }
            return i;
        }
    }
    proof {
        if exists|k: int| is_first_after(s, key@, k) {
            let k = choose|k: int| is_first_after(s, key@, k);
            assert(!seq_lt(key@, s[k].0));
        }
    }
    es.len()
}

/// Puts `v` under `key` among the entries `es` (`set_entry`).
pub fn set_in(es: &mut Vec<(String, Json)>, key: String, v: Json)
    ensures
        entries_view(final(es)@) == set_entry(entries_view(old(es)@), key@, v@),
{
    let ghost before = es@;
    let ghost entry = (key@, v@);
    match find_entry(es, key.as_str()) {
        Some(i) => {
            es.set(i, (key, v));
            proof {
                assert(entries_view(es@) =~= entries_view(before).update(i as int, entry));
            }
        },
        None => {
            let p = insert_index(es, key.as_str());
            es.insert(p, (key, v));
            proof {
                assert(entries_view(es@) =~= entries_view(before).insert(p as int, entry));
            }
        },
    }
}

/// An entry under `key` makes a first one.
pub proof fn lemma_first_key_exists(es: Seq<(Seq<char>, JsonView)>, key: Seq<char>, j: int)
    requires
        0 <= j < es.len(),
        es[j].0 == key,
    ensures
        exists|i: int| is_first_key(es, key, i),
    decreases j,
{
    if exists|k: int| 0 <= k < j && #[trigger] es[k].0 == key {
        let k = choose|k: int| 0 <= k < j && #[trigger] es[k].0 == key;
        lemma_first_key_exists(es, key, k);
    } else {
        assert(is_first_key(es, key, j));
    }
}

/// After `v` is set under `key`, the entries give `v` under `key`.
#[verifier::spinoff_prover]
pub proof fn lemma_lookup_set_entry(es: Seq<(Seq<char>, JsonView)>, key: Seq<char>, v: JsonView)
    ensures
        lookup(set_entry(es, key, v), key) == Some(v),
{
    let t = set_entry(es, key, v);
    match find_key(es, key) {
        Some(i) => {
            let k = choose|k: int| is_first_key(es, key, k);
            assert(is_first_key(es, key, k));
            assert(is_first_key(t, key, i)) by {
                assert forall|j: int| 0 <= j < i implies #[trigger] t[j].0 != key by {
                    assert(t[j] == es[j]);
                }
            }
            let c = choose|c: int| is_first_key(t, key, c);
            if c < i {
                assert(t[c].0 != key);
            } else if c > i {
                assert(t[i].0 != key);
            }
        },
        None => {
            let p = insert_position(es, key);
            assert(0 <= p <= es.len()) by {
                if exists|i: int| is_first_after(es, key, i) {
                    let q = choose|i: int| is_first_after(es, key, i);
                    assert(is_first_after(es, key, q));
                }
            }
            assert forall|j: int| 0 <= j < es.len() implies #[trigger] es[j].0 != key by {
                if es[j].0 == key {
                    lemma_first_key_exists(es, key, j);
                }
            }
            assert(is_first_key(t, key, p)) by {
                assert forall|j: int| 0 <= j < p implies #[trigger] t[j].0 != key by {
                    assert(t[j] == es[j]);
                }
            }
            let c = choose|c: int| is_first_key(t, key, c);
            if c < p {
                assert(t[c].0 != key);
            } else if c > p {
                assert(t[p].0 != key);
            }
        },
    }
}

} // verus!
