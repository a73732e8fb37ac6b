//! The operator directory: a JSON document merged from imports and from the
//! NetCore Directory service, and the subscriber names resolved from it.
use vstd::prelude::*;
use crate::json::{
    copy_json, entries_view, find_entry, find_key, get_view, json_get, list_view, lookup, set_entry, set_in, Json,
    JsonNumber, JsonView, NumberView,
};
use crate::text::{concat, dec_seq, dec_string, lit, parse_uint, parse_uint_seq, str_eq, trim, trim_seq};

verus! {

/// The views of a list of field names.
pub open spec fn names_view(names: Seq<&str>) -> Seq<Seq<char>> {
    names.map_values(|n: &str| n@)
}

/// The text `i64::to_string` gives for a negative number.
pub open spec fn negative_text(i: i64) -> Seq<char> {
    "-"@ + dec_seq((-i) as nat)
}

/// The text that `serde_json` writes for a number.
pub open spec fn number_text(n: NumberView) -> Seq<char> {
    match n {
        NumberView::Unsigned(u) => dec_seq(u as nat),
        NumberView::Negative(i) => if i < 0 {
            negative_text(i)
        } else {
            dec_seq(i as nat)
        },
        NumberView::Float(t) => t,
    }
}

/// `i.to_string()` for a negative `i`.
fn negative_string(i: i64) -> (r: String)
    requires
        i < 0,
    ensures
        r@ == negative_text(i),
{
    let m: u64 = ((-(i + 1)) as u64) + 1;
    assert(m == -i);
    concat("-", dec_string(m).as_str())
}

/// The text of a number, as `serde_json` writes it.
fn number_string(n: &JsonNumber) -> (r: String)
    ensures
        r@ == number_text(crate::json::number_view(*n)),
{
    match n {
        JsonNumber::Unsigned(u) => dec_string(*u),
        JsonNumber::Negative(i) => if *i < 0 {
            negative_string(*i)
        } else {
            dec_string(*i as u64)
        },
        JsonNumber::Float(t) => t.clone(),
    }
}

/// A whole number that a value gives: an unsigned number, or a text that
/// reads, trimmed, as one.
pub open spec fn value_as_u64(v: JsonView) -> Option<u64> {
    match v {
        JsonView::Number(NumberView::Unsigned(n)) => Some(n),
        JsonView::Number(NumberView::Negative(i)) => if i >= 0 {
            Some(i as u64)
        } else {
            None
        },
        JsonView::Text(t) => match parse_uint_seq(trim_seq(t), u64::MAX as nat) {
            Some(n) => Some(n as u64),
            None => None,
        },
        _ => None,
    }
}

/// The number under the first of `keys` whose value gives one.
pub open spec fn field_u64(item: JsonView, keys: Seq<Seq<char>>) -> Option<u64>
    decreases keys.len(),
{
    if keys.len() == 0 {
        None
    } else {
        match get_view(item, keys[0]) {
            Some(v) => match value_as_u64(v) {
                Some(n) => Some(n),
                None => field_u64(item, keys.drop_first()),
            },
            None => field_u64(item, keys.drop_first()),
        }
    }
}

/// The text of a value for a listing: a trimmed non-empty text, or a whole
/// number in decimal.
pub open spec fn value_text(v: JsonView) -> Option<Seq<char>> {
    match v {
        JsonView::Text(t) => if trim_seq(t).len() > 0 {
            Some(trim_seq(t))
        } else {
            None
        },
        JsonView::Number(NumberView::Unsigned(n)) => Some(dec_seq(n as nat)),
        JsonView::Number(NumberView::Negative(i)) => Some(number_text(NumberView::Negative(i))),
        _ => None,
    }
}

/// The text under the first of `keys` whose value gives one.
pub open spec fn field_string(item: JsonView, keys: Seq<Seq<char>>) -> Option<Seq<char>>
    decreases keys.len(),
{
    if keys.len() == 0 {
        None
    } else {
        match get_view(item, keys[0]) {
            Some(v) => match value_text(v) {
                Some(t) => Some(t),
                None => field_string(item, keys.drop_first()),
            },
            None => field_string(item, keys.drop_first()),
        }
    }
}

/// A flag that a value gives: a boolean, or a whole number that fits an
/// `i64`, read as "not zero".
pub open spec fn value_flag(v: JsonView) -> Option<bool> {
    match v {
        JsonView::Bool(b) => Some(b),
        JsonView::Number(NumberView::Unsigned(n)) => if n <= i64::MAX {
            Some(n != 0)
        } else {
            None
        },
        JsonView::Number(NumberView::Negative(i)) => Some(i != 0),
        _ => None,
    }
}

/// The flag under the first of `keys` whose value gives one.
pub open spec fn field_flag(item: JsonView, keys: Seq<Seq<char>>) -> Option<bool>
    decreases keys.len(),
{
    if keys.len() == 0 {
        None
    } else {
        match get_view(item, keys[0]) {
            Some(v) => match value_flag(v) {
                Some(b) => Some(b),
                None => field_flag(item, keys.drop_first()),
            },
            None => field_flag(item, keys.drop_first()),
        }
    }
}

/// The key of a directory item: under the first of `keys` that holds a
/// trimmed non-empty text or a whole number.
pub open spec fn item_key(item: JsonView, keys: Seq<Seq<char>>) -> Option<Seq<char>>
    decreases keys.len(),
{
    if keys.len() == 0 {
        None
    } else {
        match get_view(item, keys[0]) {
            Some(JsonView::Text(t)) => if trim_seq(t).len() > 0 {
                Some(trim_seq(t))
            } else {
                item_key(item, keys.drop_first())
            },
            Some(JsonView::Number(NumberView::Unsigned(n))) => Some(dec_seq(n as nat)),
            Some(JsonView::Number(NumberView::Negative(i))) => if i >= 0 {
                Some(dec_seq(i as nat))
            } else {
                item_key(item, keys.drop_first())
            },
            _ => item_key(item, keys.drop_first()),
        }
    }
}

/// The text of a value for a name: a trimmed non-empty text, or any number
/// as `serde_json` writes it.
pub open spec fn value_name_text(v: JsonView) -> Option<Seq<char>> {
    match v {
        JsonView::Text(t) => if trim_seq(t).len() > 0 {
            Some(trim_seq(t))
        } else {
            None
        },
        JsonView::Number(n) => Some(number_text(n)),
        _ => None,
    }
}

/// The name text under the first of `keys` whose value gives one.
pub open spec fn object_text(item: JsonView, keys: Seq<Seq<char>>) -> Option<Seq<char>>
    decreases keys.len(),
{
    if keys.len() == 0 {
        None
    } else {
        match get_view(item, keys[0]) {
            Some(v) => match value_name_text(v) {
                Some(t) => Some(t),
                None => object_text(item, keys.drop_first()),
            },
            None => object_text(item, keys.drop_first()),
        }
    }
}

fn value_u64(v: &Json) -> (r: Option<u64>)
    ensures
        r == value_as_u64(v@),
{
    match v {
        Json::Number(JsonNumber::Unsigned(n)) => Some(*n),
        Json::Number(JsonNumber::Negative(i)) => if *i >= 0 {
            Some(*i as u64)
        } else {
            None
        },
        Json::Text(t) => {
            let trimmed = trim(t.as_str());
            match parse_uint(trimmed.as_str(), u64::MAX) {
                Some(n) => Some(n),
                None => None,
            }
        },
        _ => None,
    }
}

/// The number under the first of `keys` whose value gives one (`field_u64`).
pub fn value_field_u64(item: &Json, keys: &[&str]) -> (r: Option<u64>)
    ensures
        r == field_u64(item@, names_view(keys@)),
{
    let ghost all = names_view(keys@);
    let mut i: usize = 0;
    proof {
        assert(all.skip(0) =~= all);
    }
    while i < keys.len()
        invariant
            i <= keys@.len(),
            all == names_view(keys@),
            field_u64(item@, all) == field_u64(item@, all.skip(i as int)),
        decreases keys@.len() - i,
    {
        proof {
            assert(all.skip(i as int)[0] == keys@[i as int]@);
            assert(all.skip(i as int).drop_first() =~= all.skip(i + 1));
        }
        match json_get(item, keys[i]) {
            Some(v) => match value_u64(v) {
                Some(n) => {
                    return Some(n);
                },
                None => {},
            },
            None => {},
        }
        i = i + 1;
    }
    None
}

fn value_string(v: &Json) -> (r: Option<String>)
    ensures
        match r {
            Some(t) => value_text(v@) == Some(t@),
            None => value_text(v@) is None,
        },
{
    match v {
        Json::Text(t) => {
            let trimmed = trim(t.as_str());
            if !trimmed.as_str().is_empty() {
                Some(trimmed)
            } else {
                None
            }
        },
        Json::Number(JsonNumber::Unsigned(n)) => Some(dec_string(*n)),
        Json::Number(n) => match n {
            JsonNumber::Negative(_) => Some(number_string(n)),
            _ => None,
        },
        _ => None,
    }
}

/// The text under the first of `keys` whose value gives one (`field_string`).
pub fn value_field_string(item: &Json, keys: &[&str]) -> (r: Option<String>)
    ensures
        match r {
            Some(t) => field_string(item@, names_view(keys@)) == Some(t@),
            None => field_string(item@, names_view(keys@)) is None,
        },
{
    let ghost all = names_view(keys@);
    let mut i: usize = 0;
    proof {
        assert(all.skip(0) =~= all);
    }
    while i < keys.len()
        invariant
            i <= keys@.len(),
            all == names_view(keys@),
            field_string(item@, all) == field_string(item@, all.skip(i as int)),
        decreases keys@.len() - i,
    {
        proof {
            assert(all.skip(i as int)[0] == keys@[i as int]@);
            assert(all.skip(i as int).drop_first() =~= all.skip(i + 1));
        }
        match json_get(item, keys[i]) {
            Some(v) => match value_string(v) {
                Some(t) => {
                    return Some(t);
                },
                None => {},
            },
            None => {},
        }
        i = i + 1;
    }
    None
}

fn value_bool(v: &Json) -> (r: Option<bool>)
    ensures
        r == value_flag(v@),
{
    match v {
        Json::Bool(b) => Some(*b),
        Json::Number(JsonNumber::Unsigned(n)) => if *n <= 9223372036854775807u64 {
            Some(*n != 0)
        } else {
            None
        },
        Json::Number(JsonNumber::Negative(i)) => Some(*i != 0),
        _ => None,
    }
}

/// The flag under the first of `keys` whose value gives one (`field_flag`).
pub fn value_field_flag(item: &Json, keys: &[&str]) -> (r: Option<bool>)
    ensures
        r == field_flag(item@, names_view(keys@)),
{
    let ghost all = names_view(keys@);
    let mut i: usize = 0;
    proof {
        assert(all.skip(0) =~= all);
    }
    while i < keys.len()
        invariant
            i <= keys@.len(),
            all == names_view(keys@),
            field_flag(item@, all) == field_flag(item@, all.skip(i as int)),
        decreases keys@.len() - i,
    {
        proof {
            assert(all.skip(i as int)[0] == keys@[i as int]@);
            assert(all.skip(i as int).drop_first() =~= all.skip(i + 1));
        }
        match json_get(item, keys[i]) {
            Some(v) => match value_bool(v) {
                Some(b) => {
                    return Some(b);
                },
                None => {},
            },
            None => {},
        }
        i = i + 1;
    }
    None
}

/// The key of a directory item under the first of `keys` that gives one
/// (`item_key`).
pub fn directory_item_key(item: &Json, keys: &[&str]) -> (r: Option<String>)
    ensures
        match r {
            Some(t) => item_key(item@, names_view(keys@)) == Some(t@),
            None => item_key(item@, names_view(keys@)) is None,
        },
{
    let ghost all = names_view(keys@);
    let mut i: usize = 0;
    proof {
        assert(all.skip(0) =~= all);
    }
    while i < keys.len()
        invariant
            i <= keys@.len(),
            all == names_view(keys@),
            item_key(item@, all) == item_key(item@, all.skip(i as int)),
        decreases keys@.len() - i,
    {
        proof {
            assert(all.skip(i as int)[0] == keys@[i as int]@);
            assert(all.skip(i as int).drop_first() =~= all.skip(i + 1));
        }
        match json_get(item, keys[i]) {
            Some(Json::Text(t)) => {
                let trimmed = trim(t.as_str());
                if !trimmed.as_str().is_empty() {
                    return Some(trimmed);
                }
            },
            Some(Json::Number(JsonNumber::Unsigned(n))) => {
                return Some(dec_string(*n));
            },
            Some(Json::Number(JsonNumber::Negative(n))) => {
                if *n >= 0 {
                    return Some(dec_string(*n as u64));
                }
            },
            _ => {},
        }
        i = i + 1;
    }
    None
}

fn value_name_string(v: &Json) -> (r: Option<String>)
    ensures
        match r {
            Some(t) => value_name_text(v@) == Some(t@),
            None => value_name_text(v@) is None,
        },
{
    match v {
        Json::Text(t) => {
            let trimmed = trim(t.as_str());
            if !trimmed.as_str().is_empty() {
                Some(trimmed)
            } else {
                None
            }
        },
        Json::Number(n) => Some(number_string(n)),
        _ => None,
    }
}

/// The name text under the first of `keys` whose value gives one
/// (`object_text`).
pub fn directory_object_text(item: &Json, keys: &[&str]) -> (r: Option<String>)
    ensures
        match r {
            Some(t) => object_text(item@, names_view(keys@)) == Some(t@),
            None => object_text(item@, names_view(keys@)) is None,
        },
{
    let ghost all = names_view(keys@);
    let mut i: usize = 0;
    proof {
        assert(all.skip(0) =~= all);
    }
    while i < keys.len()
        invariant
            i <= keys@.len(),
            all == names_view(keys@),
            object_text(item@, all) == object_text(item@, all.skip(i as int)),
        decreases keys@.len() - i,
    {
        proof {
            assert(all.skip(i as int)[0] == keys@[i as int]@);
            assert(all.skip(i as int).drop_first() =~= all.skip(i + 1));
        }
        match json_get(item, keys[i]) {
            Some(v) => match value_name_string(v) {
                Some(t) => {
                    return Some(t);
                },
                None => {},
            },
            None => {},
        }
        i = i + 1;
    }
    None
}

/// The fields that key the subscribers of a directory.
pub open spec fn subscriber_key_fields() -> Seq<Seq<char>> {
    seq![
        "issi"@,
        "individual_issi"@,
        "source_issi"@,
        "address"@,
        "id"@,
        "subscriber_id"@,
        "terminal_id"@,
        "radio_id"@,
    ]
}

/// The fields that key the groups of a directory.
pub open spec fn group_key_fields() -> Seq<Seq<char>> {
    seq!["gssi"@, "group"@, "id"@, "address"@]
}

/// The fields that key the status groups of a directory.
pub open spec fn status_group_key_fields() -> Seq<Seq<char>> {
    seq!["id"@, "key"@, "name"@, "label"@]
}

/// The fields that key the statuses of a directory.
pub open spec fn status_key_fields() -> Seq<Seq<char>> {
    seq!["code"@, "status"@, "id"@, "number"@]
}

/// The items of a list, each under its key by `keys`; an item without a key
/// is left out, and a later item replaces an earlier one under the same key.
pub open spec fn keyed_items(items: Seq<JsonView>, keys: Seq<Seq<char>>) -> Seq<(Seq<char>, JsonView)>
    decreases items.len(),
{
    if items.len() == 0 {
        Seq::empty()
    } else {
        let before = keyed_items(items.drop_last(), keys);
        match item_key(items.last(), keys) {
            Some(k) => set_entry(before, k, items.last()),
            None => before,
        }
    }
}

/// The entries `es` with the collection under `field`, when it is a list,
/// turned into an object of its items keyed by `keys`.
pub open spec fn canonical_collection(
    es: Seq<(Seq<char>, JsonView)>,
    field: Seq<char>,
    keys: Seq<Seq<char>>,
) -> Seq<(Seq<char>, JsonView)> {
    match find_key(es, field) {
        Some(i) => match es[i].1 {
            JsonView::List(items) => es.update(i, (es[i].0, JsonView::Object(keyed_items(items, keys)))),
            _ => es,
        },
        None => es,
    }
}

/// A directory in its canonical form: the document under `directory`, if
/// there is one, in canonical form; else the document with its subscribers,
/// groups, status groups and statuses keyed.
pub open spec fn canonical(v: JsonView) -> JsonView
    decreases v,
{
    match v {
        JsonView::Object(es) => match find_key(es, "directory"@) {
            Some(i) => if 0 <= i < es.len() {
                canonical(es[i].1)
            } else {
                v
            },
            None => JsonView::Object(
                canonical_collection(
                    canonical_collection(
                        canonical_collection(
                            canonical_collection(es, "subscribers"@, subscriber_key_fields()),
                            "groups"@,
                            group_key_fields(),
                        ),
                        "status_groups"@,
                        status_group_key_fields(),
                    ),
                    "statuses"@,
                    status_key_fields(),
                ),
            ),
        },
        _ => v,
    }
}

/// The items of `items` keyed by `keys` (`keyed_items`).
fn keyed_items_of(items: &Vec<Json>, keys: &[&str]) -> (r: Vec<(String, Json)>)
    ensures
        entries_view(r@) == keyed_items(list_view(items@), names_view(keys@)),
{
    let ghost all = list_view(items@);
    let mut map: Vec<(String, Json)> = Vec::new();
    proof {
        assert(all.take(0) =~= Seq::<JsonView>::empty());
        assert(entries_view(map@) =~= Seq::<(Seq<char>, JsonView)>::empty());
    }
    for i in 0..items.len()
        invariant
            all == list_view(items@),
            entries_view(map@) == keyed_items(all.take(i as int), names_view(keys@)),
    {
        proof {
            assert(all.take(i + 1).drop_last() =~= all.take(i as int));
            assert(all.take(i + 1).last() == items@[i as int]@);
        }
        match directory_item_key(&items[i], keys) {
            Some(k) => {
                set_in(&mut map, k, copy_json(&items[i]));
            },
            None => {},
        }
    }
    proof {
        assert(all.take(items@.len() as int) =~= all);
    }
    map
}

/// Keys the collection under `field`, when it is a list
/// (`canonical_collection`).
fn canonicalize_collection(es: &mut Vec<(String, Json)>, field: &str, keys: &[&str])
    ensures
        entries_view(final(es)@) == canonical_collection(entries_view(old(es)@), field@, names_view(keys@)),
{
    let ghost before = es@;
    match find_entry(es, field) {
        Some(i) => {
            let is_list = match &es[i].1 {
                Json::List(_) => true,
                _ => false,
            };
            if is_list {
                let (k, v) = es.remove(i);
                match v {
                    Json::List(items) => {
                        let map = keyed_items_of(&items, keys);
                        let ghost entry = (k@, JsonView::Object(entries_view(map@)));
                        es.insert(i, (k, Json::Object(map)));
                        proof {
                            assert(entries_view(es@) =~= entries_view(before).update(i as int, entry));
                        }
                    },
                    _ => {
                        proof {
                            assert(false);
                        }
                    },
                }
            }
        },
        None => {},
    }
}

/// A directory in its canonical form (`canonical`).
pub fn canonical_directory_value(value: Json) -> (r: Json)
    ensures
        r@ == canonical(value@),
    decreases value,
{
    let ghost v = value@;
    match value {
        Json::Object(mut es) => {
            let ghost es0 = es@;
            match find_entry(&es, "directory") {
                Some(i) => {
                    let (_, d) = es.remove(i);
                    proof {
                        assert(decreases_to!(value => es0));
                        assert(decreases_to!(es0 => es0[i as int]));
                        assert(decreases_to!(es0[i as int] => es0[i as int].1));
                        assert(entries_view(es0)[i as int].1 == d@);
                    }
                    canonical_directory_value(d)
                },
                None => {
                    let subscriber_keys: &[&str] = &[
                        "issi",
                        "individual_issi",
                        "source_issi",
                        "address",
                        "id",
                        "subscriber_id",
                        "terminal_id",
                        "radio_id",
                    ];
                    let group_keys: &[&str] = &["gssi", "group", "id", "address"];
                    let status_group_keys: &[&str] = &["id", "key", "name", "label"];
                    let status_keys: &[&str] = &["code", "status", "id", "number"];
                    proof {
                        assert(names_view(subscriber_keys@) =~= subscriber_key_fields());
                        assert(names_view(group_keys@) =~= group_key_fields());
                        assert(names_view(status_group_keys@) =~= status_group_key_fields());
                        assert(names_view(status_keys@) =~= status_key_fields());
                    }
                    canonicalize_collection(&mut es, "subscribers", subscriber_keys);
                    canonicalize_collection(&mut es, "groups", group_keys);
                    canonicalize_collection(&mut es, "status_groups", status_group_keys);
                    canonicalize_collection(&mut es, "statuses", status_keys);
                    Json::Object(es)
                },
            }
        },
        other => other,
    }
}

/// `incoming` merged into `t`: two objects merge entry by entry, the
/// entries of `incoming` taken in order, each merged into the entry of `t`
/// under the same key or else added; anything else takes `incoming`.
pub open spec fn merged(t: JsonView, incoming: JsonView) -> JsonView
    decreases incoming, 1nat,
{
    match t {
        JsonView::Object(ts) => match incoming {
            JsonView::Object(is) => JsonView::Object(merge_entries(ts, is)),
            _ => incoming,
        },
        _ => incoming,
    }
}

/// The entries `ts` with the entries `is` merged in, in order.
pub open spec fn merge_entries(
    ts: Seq<(Seq<char>, JsonView)>,
    is: Seq<(Seq<char>, JsonView)>,
) -> Seq<(Seq<char>, JsonView)>
    decreases is, 0nat,
{
    if is.len() == 0 {
        ts
    } else {
        let before = merge_entries(ts, is.drop_last());
        let k = is.last().0;
        let v = is.last().1;
        match find_key(before, k) {
            Some(j) => before.update(j, (before[j].0, merged(before[j].1, v))),
            None => set_entry(before, k, v),
        }
    }
}

/// `incoming` merged into `target` (`merged`).
pub fn merge_json(target: Json, incoming: &Json) -> (r: Json)
    ensures
        r@ == merged(target@, incoming@),
    decreases incoming,
{
    match incoming {
        Json::Object(ies) => match target {
            Json::Object(mut tes) => {
                let ghost ts0 = entries_view(tes@);
                let ghost is = entries_view(ies@);
                proof {
                    assert(is.take(0) =~= Seq::<(Seq<char>, JsonView)>::empty());
                }
                for k in 0..ies.len()
                    invariant
                        *incoming == Json::Object(*ies),
                        is == entries_view(ies@),
                        entries_view(tes@) == merge_entries(ts0, is.take(k as int)),
                {
                    proof {
                        assert(is.take(k + 1).drop_last() =~= is.take(k as int));
                        assert(is.take(k + 1).last() == is[k as int]);
                        assert(is[k as int] == (ies@[k as int].0@, ies@[k as int].1@));
                    }
                    match find_entry(&tes, ies[k].0.as_str()) {
                        Some(j) => {
                            let ghost before = tes@;
                            let (tk, tv) = tes.remove(j);
                            proof {
                                assert(decreases_to!(*incoming => incoming->Object_0));
                                assert(decreases_to!(*ies => ies@));
                                assert(decreases_to!(ies@ => ies@[k as int]));
                                assert(decreases_to!(ies@[k as int] => ies@[k as int].1));
                            }
                            let nv = merge_json(tv, &ies[k].1);
                            let ghost entry = (tk@, nv@);
                            tes.insert(j, (tk, nv));
                            proof {
                                assert(entries_view(tes@) =~= entries_view(before).update(j as int, entry));
                            }
                        },
                        None => {
                            set_in(&mut tes, ies[k].0.clone(), copy_json(&ies[k].1));
                        },
                    }
                }
                proof {
                    assert(is.take(ies@.len() as int) =~= is);
                }
                Json::Object(tes)
            },
            _ => copy_json(incoming),
        },
        _ => copy_json(incoming),
    }
}

/// Whether a document can be merged into the directory: in canonical form
/// it is an object, or null.
pub open spec fn directory_mergeable(incoming: JsonView) -> bool {
    canonical(incoming) is Object || canonical(incoming) is Null
}

/// A merged directory that says whether to hide the infrastructure: an
/// object that does not say so is told to; null becomes an object saying so.
pub open spec fn with_hide_flag(v: JsonView) -> JsonView {
    match v {
        JsonView::Object(es) => if lookup(es, "hide_infrastructure"@) is None {
            JsonView::Object(set_entry(es, "hide_infrastructure"@, JsonView::Bool(true)))
        } else {
            v
        },
        _ => JsonView::Object(seq![("hide_infrastructure"@, JsonView::Bool(true))]),
    }
}

/// The directory `target` with the document `incoming` merged in, in
/// canonical form; a directory that is not an object starts empty.
pub open spec fn merged_directory(target: JsonView, incoming: JsonView) -> JsonView {
    let base = match target {
        JsonView::Object(_) => target,
        _ => JsonView::Object(Seq::empty()),
    };
    with_hide_flag(merged(base, canonical(incoming)))
}

/// Whether `incoming` can be merged into the directory
/// (`directory_mergeable`).
pub fn is_directory_mergeable(incoming: &Json) -> (r: bool)
    ensures
        r == directory_mergeable(incoming@),
{
    let canon = canonical_directory_value(copy_json(incoming));
    match canon {
        Json::Object(_) => true,
        Json::Null => true,
        _ => false,
    }
}

/// The directory `target` with the document `incoming` merged in
/// (`merged_directory`).
#[verifier::spinoff_prover]
pub fn merge_directory_value(target: Json, incoming: Json) -> (r: Json)
    requires
        directory_mergeable(incoming@),
    ensures
        r@ == merged_directory(target@, incoming@),
{
    let canon = canonical_directory_value(incoming);
    let base = match target {
        Json::Object(es) => Json::Object(es),
        _ => {
            let empty: Vec<(String, Json)> = Vec::new();
            proof {
                assert(entries_view(empty@) =~= Seq::<(Seq<char>, JsonView)>::empty());
            }
            Json::Object(empty)
        },
    };
    let merged_value = merge_json(base, &canon);
    match merged_value {
        Json::Object(mut es) => {
            if find_entry(&es, "hide_infrastructure").is_none() {
                set_in(&mut es, lit("hide_infrastructure"), Json::Bool(true));
            }
            Json::Object(es)
        },
        _ => {
            let mut es: Vec<(String, Json)> = Vec::new();
            es.push((lit("hide_infrastructure"), Json::Bool(true)));
            proof {
                assert(entries_view(es@) =~= seq![("hide_infrastructure"@, JsonView::Bool(true))]);
            }
            Json::Object(es)
        },
    }
}

/// The fields that give the number of a subscriber in a directory object.
pub open spec fn subscriber_id_fields() -> Seq<Seq<char>> {
    seq![
        "issi"@,
        "individual_issi"@,
        "source_issi"@,
        "address"@,
        "id"@,
        "subscriber_id"@,
        "subscriberId"@,
        "terminal_id"@,
        "terminalId"@,
        "radio_id"@,
        "radioId"@,
    ]
}

/// The fields that give the name of a subscriber in a directory object.
pub open spec fn name_fields() -> Seq<Seq<char>> {
    seq![
        "name"@,
        "display_name"@,
        "displayName"@,
        "label"@,
        "alias"@,
        "rufname"@,
        "callsign"@,
        "call_sign"@,
        "radio_alias"@,
        "radioAlias"@,
        "short_name"@,
        "shortName"@,
        "shortLabel"@,
        "terminal_name"@,
        "terminalName"@,
        "bezeichnung"@,
        "description"@,
        "title"@,
    ]
}

/// The fields that give the class of a device in a directory object.
pub open spec fn device_class_fields() -> Seq<Seq<char>> {
    seq!["device_class"@, "class"@, "kind"@, "type"@]
}

/// The fields that give the status group of a subscriber in a directory object.
pub open spec fn status_group_fields() -> Seq<Seq<char>> {
    seq!["status_group"@, "statusGroup"@, "statusgroup"@]
}

/// The name of subscriber `issi` that a directory object gives: its first
/// name field, unless that is empty, `-` or the number itself.
pub open spec fn object_name(v: JsonView, issi: u64) -> Option<Seq<char>> {
    match object_text(v, name_fields()) {
        Some(t) => if trim_seq(t).len() > 0 && trim_seq(t) != "-"@ && trim_seq(t) != dec_seq(issi as nat) {
            Some(t)
        } else {
            None
        },
        None => None,
    }
}

/// The record of a resolved subscriber name.
pub open spec fn resolved_entry(
    issi: u64,
    name: Seq<char>,
    source: Seq<char>,
    device_class: Option<Seq<char>>,
    status_group: Option<Seq<char>>,
) -> JsonView {
    let base = set_entry(
        set_entry(
            set_entry(Seq::empty(), "issi"@, JsonView::Number(NumberView::Unsigned(issi))),
            "name"@,
            JsonView::Text(name),
        ),
        "source"@,
        JsonView::Text(source),
    );
    let with_class = match device_class {
        Some(c) => set_entry(base, "device_class"@, JsonView::Text(c)),
        None => base,
    };
    let with_group = match status_group {
        Some(g) => set_entry(with_class, "status_group"@, JsonView::Text(g)),
        None => with_class,
    };
    JsonView::Object(with_group)
}

/// `es` with `v` under `key`, unless `key` already has an entry.
pub open spec fn add_absent(
    es: Seq<(Seq<char>, JsonView)>,
    key: Seq<char>,
    v: JsonView,
) -> Seq<(Seq<char>, JsonView)> {
    if find_key(es, key) is Some {
        es
    } else {
        set_entry(es, key, v)
    }
}

/// The names resolved so far, `acc`, with the name that the object `v`
/// gives for its own number.
pub open spec fn own_name(v: JsonView, acc: Seq<(Seq<char>, JsonView)>) -> Seq<(Seq<char>, JsonView)> {
    match field_u64(v, subscriber_id_fields()) {
        Some(issi) => match object_name(v, issi) {
            Some(name) => add_absent(acc, dec_seq(issi as nat), resolved_entry(issi, name, "directory"@, None, None)),
            None => acc,
        },
        None => acc,
    }
}

/// The names resolved so far, `acc`, with the name that the entry `child`
/// under `key` gives when `key` is a subscriber number: an object naming it,
/// or a text other than the number.
pub open spec fn keyed_name(key: Seq<char>, child: JsonView, acc: Seq<(Seq<char>, JsonView)>) -> Seq<
    (Seq<char>, JsonView),
> {
    match parse_uint_seq(trim_seq(key), u64::MAX as nat) {
        Some(n) => {
            let issi = n as u64;
            match child {
                JsonView::Object(_) => match object_name(child, issi) {
                    Some(name) => add_absent(
                        acc,
                        dec_seq(issi as nat),
                        resolved_entry(
                            issi,
                            name,
                            "directory_map"@,
                            object_text(child, device_class_fields()),
                            object_text(child, status_group_fields()),
                        ),
                    ),
                    None => acc,
                },
                JsonView::Text(t) => if trim_seq(t).len() > 0 && trim_seq(t) != dec_seq(issi as nat) {
                    add_absent(
                        acc,
                        dec_seq(issi as nat),
                        resolved_entry(issi, trim_seq(t), "directory_map_string"@, None, None),
                    )
                } else {
                    acc
                },
                _ => acc,
            }
        },
        None => acc,
    }
}

/// The subscriber names resolved from `v`, added to `acc`: a walk through the
/// whole document, in order, where the first name found for a number stays.
pub open spec fn collect(v: JsonView, acc: Seq<(Seq<char>, JsonView)>) -> Seq<(Seq<char>, JsonView)>
    decreases v, 1nat,
{
    match v {
        JsonView::List(items) => collect_list(items, acc),
        JsonView::Object(es) => collect_entries(es, own_name(v, acc)),
        _ => acc,
    }
}

/// The names resolved from the items of a list, in order.
pub open spec fn collect_list(items: Seq<JsonView>, acc: Seq<(Seq<char>, JsonView)>) -> Seq<
    (Seq<char>, JsonView),
>
    decreases items, 0nat,
{
    if items.len() == 0 {
        acc
    } else {
        collect(items.last(), collect_list(items.drop_last(), acc))
    }
}

/// The names resolved from the entries of an object, in order: each entry's
/// key first, then its value.
pub open spec fn collect_entries(es: Seq<(Seq<char>, JsonView)>, acc: Seq<(Seq<char>, JsonView)>) -> Seq<
    (Seq<char>, JsonView),
>
    decreases es, 0nat,
{
    if es.len() == 0 {
        acc
    } else {
        let before = collect_entries(es.drop_last(), acc);
        collect(es.last().1, keyed_name(es.last().0, es.last().1, before))
    }
}

#[verifier::spinoff_prover]
fn resolved_entry_json(
    issi: u64,
    name: String,
    source: &str,
    device_class: Option<String>,
    status_group: Option<String>,
) -> (r: Json)
    ensures
        r@ == resolved_entry(issi, name@, source@, text_opt(device_class), text_opt(status_group)),
{
    let mut es: Vec<(String, Json)> = Vec::new();
    proof {
        assert(entries_view(es@) =~= Seq::<(Seq<char>, JsonView)>::empty());
    }
    set_in(&mut es, lit("issi"), Json::Number(JsonNumber::Unsigned(issi)));
    set_in(&mut es, lit("name"), Json::Text(name));
    set_in(&mut es, lit("source"), Json::Text(lit(source)));
    match device_class {
        Some(c) => set_in(&mut es, lit("device_class"), Json::Text(c)),
        None => {},
    }
    match status_group {
        Some(g) => set_in(&mut es, lit("status_group"), Json::Text(g)),
        None => {},
    }
    Json::Object(es)
}

/// The characters of an optional text.
pub open spec fn text_opt(o: Option<String>) -> Option<Seq<char>> {
    match o {
        Some(t) => Some(t@),
        None => None,
    }
}

fn add_absent_in(es: &mut Vec<(String, Json)>, key: String, v: Json)
    ensures
        entries_view(final(es)@) == add_absent(entries_view(old(es)@), key@, v@),
{
    if find_entry(es, key.as_str()).is_none() {
        set_in(es, key, v);
    }
}

/// The name of subscriber `issi` that a directory object gives
/// (`object_name`).
pub fn directory_object_name(item: &Json, issi: u64) -> (r: Option<String>)
    ensures
        match r {
            Some(t) => object_name(item@, issi) == Some(t@),
            None => object_name(item@, issi) is None,
        },
{
    let keys: &[&str] = &[
        "name",
        "display_name",
        "displayName",
        "label",
        "alias",
        "rufname",
        "callsign",
        "call_sign",
        "radio_alias",
        "radioAlias",
        "short_name",
        "shortName",
        "shortLabel",
        "terminal_name",
        "terminalName",
        "bezeichnung",
        "description",
        "title",
    ];
    proof {
        assert(names_view(keys@) =~= name_fields());
    }
    match directory_object_text(item, keys) {
        Some(t) => {
            let trimmed = trim(t.as_str());
            let number = dec_string(issi);
            if !trimmed.as_str().is_empty() && !str_eq(trimmed.as_str(), "-") && !str_eq(
                trimmed.as_str(),
                number.as_str(),
            ) {
                Some(t)
            } else {
                None
            }
        },
        None => None,
    }
}

/// The number of the subscriber that a directory object names
/// (`field_u64` over `subscriber_id_fields`).
pub fn directory_object_issi(item: &Json) -> (r: Option<u64>)
    ensures
        r == field_u64(item@, subscriber_id_fields()),
{
    let keys: &[&str] = &[
        "issi",
        "individual_issi",
        "source_issi",
        "address",
        "id",
        "subscriber_id",
        "subscriberId",
        "terminal_id",
        "terminalId",
        "radio_id",
        "radioId",
    ];
    proof {
        assert(names_view(keys@) =~= subscriber_id_fields());
    }
    value_field_u64(item, keys)
}

#[verifier::spinoff_prover]
fn add_keyed_name(key: &str, child: &Json, acc: &mut Vec<(String, Json)>)
    ensures
        entries_view(final(acc)@) == keyed_name(key@, child@, entries_view(old(acc)@)),
{
    let trimmed_key = trim(key);
    match parse_uint(trimmed_key.as_str(), u64::MAX) {
        Some(issi) => match child {
            Json::Object(_) => match directory_object_name(child, issi) {
                Some(name) => {
                    let class_keys: &[&str] = &["device_class", "class", "kind", "type"];
                    let group_keys: &[&str] = &["status_group", "statusGroup", "statusgroup"];
                    proof {
                        assert(names_view(class_keys@) =~= device_class_fields());
                        assert(names_view(group_keys@) =~= status_group_fields());
                    }
                    let device_class = directory_object_text(child, class_keys);
                    let status_group = directory_object_text(child, group_keys);
                    let entry = resolved_entry_json(issi, name, "directory_map", device_class, status_group);
                    add_absent_in(acc, dec_string(issi), entry);
                },
                None => {},
            },
            Json::Text(t) => {
                let text = trim(t.as_str());
                let number = dec_string(issi);
                if !text.as_str().is_empty() && !str_eq(text.as_str(), number.as_str()) {
                    let entry = resolved_entry_json(issi, text, "directory_map_string", None, None);
                    add_absent_in(acc, number, entry);
                }
            },
            _ => {},
        },
        None => {},
    }
}

/// Adds to `acc` the subscriber names resolved from `value` (`collect`).
#[verifier::spinoff_prover]
pub fn collect_resolved_subscribers(value: &Json, acc: &mut Vec<(String, Json)>)
    ensures
        entries_view(final(acc)@) == collect(value@, entries_view(old(acc)@)),
    decreases value,
{
    match value {
        Json::List(items) => {
            let ghost all = list_view(items@);
            let ghost start = entries_view(acc@);
            proof {
                assert(all.take(0) =~= Seq::<JsonView>::empty());
            }
            for i in 0..items.len()
                invariant
                    *value == Json::List(*items),
                    all == list_view(items@),
                    entries_view(acc@) == collect_list(all.take(i as int), start),
            {
                proof {
                    assert(all.take(i + 1).drop_last() =~= all.take(i as int));
                    assert(all.take(i + 1).last() == items@[i as int]@);
                    assert(decreases_to!(*value => value->List_0));
                    assert(decreases_to!(*items => items@));
                    assert(decreases_to!(items@ => items@[i as int]));
                }
                collect_resolved_subscribers(&items[i], acc);
            }
            proof {
                assert(all.take(items@.len() as int) =~= all);
            }
        },
        Json::Object(es) => {
            match directory_object_issi(value) {
                Some(issi) => match directory_object_name(value, issi) {
                    Some(name) => {
                        let entry = resolved_entry_json(issi, name, "directory", None, None);
                        add_absent_in(acc, dec_string(issi), entry);
                    },
                    None => {},
                },
                None => {},
            }
            let ghost all = entries_view(es@);
            let ghost start = entries_view(acc@);
            proof {
                assert(all.take(0) =~= Seq::<(Seq<char>, JsonView)>::empty());
            }
            for i in 0..es.len()
                invariant
                    *value == Json::Object(*es),
                    all == entries_view(es@),
                    entries_view(acc@) == collect_entries(all.take(i as int), start),
            {
                proof {
                    assert(all.take(i + 1).drop_last() =~= all.take(i as int));
                    assert(all.take(i + 1).last() == (es@[i as int].0@, es@[i as int].1@));
                    assert(decreases_to!(*value => value->Object_0));
                    assert(decreases_to!(*es => es@));
                    assert(decreases_to!(es@ => es@[i as int]));
                    assert(decreases_to!(es@[i as int] => es@[i as int].1));
                }
                add_keyed_name(es[i].0.as_str(), &es[i].1, acc);
                collect_resolved_subscribers(&es[i].1, acc);
            }
            proof {
                assert(all.take(es@.len() as int) =~= all);
            }
        },
        _ => {},
    }
}

/// The subscriber names resolved from a directory, keyed by number.
pub fn directory_resolved_from_value(directory: &Json) -> (r: Json)
    ensures
        r@ == JsonView::Object(collect(directory@, Seq::empty())),
{
    let mut resolved: Vec<(String, Json)> = Vec::new();
    proof {
        assert(entries_view(resolved@) =~= Seq::<(Seq<char>, JsonView)>::empty());
    }
    collect_resolved_subscribers(directory, &mut resolved);
    Json::Object(resolved)
}

/// `t`, or `default` where there is none.
pub open spec fn or_text(t: Option<Seq<char>>, default: Seq<char>) -> Seq<char> {
    match t {
        Some(x) => x,
        None => default,
    }
}

/// Entries that take `key` with the text under the first of `fields` of
/// `item` that gives one, if one does.
pub open spec fn text_field_put(
    item: JsonView,
    es: Seq<(Seq<char>, JsonView)>,
    key: Seq<char>,
    fields: Seq<Seq<char>>,
) -> Seq<(Seq<char>, JsonView)> {
    match field_string(item, fields) {
        Some(t) => set_entry(es, key, JsonView::Text(t)),
        None => es,
    }
}

/// Entries that take `key` with the flag under the first of `fields` of
/// `item` that gives one, if one does.
pub open spec fn flag_field_put(
    item: JsonView,
    es: Seq<(Seq<char>, JsonView)>,
    key: Seq<char>,
    fields: Seq<Seq<char>>,
) -> Seq<(Seq<char>, JsonView)> {
    match field_flag(item, fields) {
        Some(b) => set_entry(es, key, JsonView::Bool(b)),
        None => es,
    }
}

/// The entries of an object built from the texts `k1: v1`, `k2: v2`.
pub open spec fn text_entries2(k1: Seq<char>, v1: Seq<char>, k2: Seq<char>, v2: Seq<char>) -> Seq<
    (Seq<char>, JsonView),
> {
    set_entry(set_entry(Seq::empty(), k1, JsonView::Text(v1)), k2, JsonView::Text(v2))
}

/// The entries of an object built from the texts `k1: v1`, `k2: v2`, `k3: v3`.
pub open spec fn text_entries3(
    k1: Seq<char>,
    v1: Seq<char>,
    k2: Seq<char>,
    v2: Seq<char>,
    k3: Seq<char>,
    v3: Seq<char>,
) -> Seq<(Seq<char>, JsonView)> {
    set_entry(text_entries2(k1, v1, k2, v2), k3, JsonView::Text(v3))
}

/// The directory record of a device of the NetCore Directory.
pub open spec fn device_entry(item: JsonView, issi: u64) -> JsonView {
    let name = or_text(field_string(item, seq!["name"@, "short"@, "label"@]), dec_seq(issi as nat));
    let class = or_text(field_string(item, seq!["type"@, "kind"@, "device_class"@]), "HRT"@);
    let base = text_entries3("name"@, name, "device_class"@, class, "source"@, "netcore-directory"@);
    let labelled = text_field_put(item, base, "label"@, seq!["short"@, "label"@]);
    let owned = text_field_put(item, labelled, "owner"@, seq!["owner"@]);
    let roled = text_field_put(item, owned, "role"@, seq!["role"@]);
    let iconed = text_field_put(item, roled, "icon"@, seq!["icon"@]);
    let coloured = text_field_put(item, iconed, "color"@, seq!["color"@]);
    JsonView::Object(flag_field_put(item, coloured, "visible"@, seq!["visible"@]))
}

/// The directory record of a base station of the NetCore Directory.
pub open spec fn basestation_entry(item: JsonView, issi: u64) -> JsonView {
    let name = or_text(field_string(item, seq!["name"@, "short"@, "label"@]), dec_seq(issi as nat));
    let base = set_entry(
        set_entry(
            set_entry(
                set_entry(
                    set_entry(Seq::empty(), "name"@, JsonView::Text(name)),
                    "device_class"@,
                    JsonView::Text("Infrastruktur"@),
                ),
                "hidden"@,
                JsonView::Bool(true),
            ),
            "hide_in_subscribers"@,
            JsonView::Bool(true),
        ),
        "source"@,
        JsonView::Text("netcore-directory-basestation"@),
    );
    let labelled = text_field_put(item, base, "label"@, seq!["short"@, "label"@]);
    let located = text_field_put(item, labelled, "location"@, seq!["location"@]);
    JsonView::Object(text_field_put(item, located, "color"@, seq!["color"@]))
}

/// The directory record of a talk group of the NetCore Directory.
pub open spec fn group_entry(item: JsonView, gssi: u64) -> JsonView {
    let name = or_text(field_string(item, seq!["name"@, "short"@, "label"@]), dec_seq(gssi as nat));
    let base = text_entries2("name"@, name, "source"@, "netcore-directory"@);
    let labelled = text_field_put(item, base, "label"@, seq!["short"@, "label"@]);
    let kinded = text_field_put(item, labelled, "kind"@, seq!["type"@, "kind"@]);
    JsonView::Object(text_field_put(item, kinded, "color"@, seq!["color"@]))
}

/// The directory record of a status of the NetCore Directory.
pub open spec fn status_entry(item: JsonView, code: u64) -> JsonView {
    let label = or_text(
        field_string(item, seq!["label"@, "name"@, "description"@]),
        "Status "@ + dec_seq(code as nat),
    );
    let base = text_entries2("label"@, label, "source"@, "netcore-directory"@);
    let described = text_field_put(item, base, "description"@, seq!["description"@]);
    let coloured = text_field_put(item, described, "color"@, seq!["color"@]);
    JsonView::Object(text_field_put(item, coloured, "severity"@, seq!["severity"@]))
}

/// The kinds of record that the NetCore Directory lists.
pub enum ItemKind {
    Device,
    Basestation,
    Group,
    Status,
}

/// The fields that give the number of an item of the kind.
pub open spec fn kind_id_fields(kind: ItemKind) -> Seq<Seq<char>> {
    match kind {
        ItemKind::Device => seq!["issi"@, "id"@],
        ItemKind::Basestation => seq!["issi"@, "id"@],
        ItemKind::Group => seq!["gssi"@, "id"@],
        ItemKind::Status => seq!["code"@, "status"@, "id"@],
    }
}

/// The directory record of an item of the kind.
pub open spec fn kind_entry(kind: ItemKind, item: JsonView, n: u64) -> JsonView {
    match kind {
        ItemKind::Device => device_entry(item, n),
        ItemKind::Basestation => basestation_entry(item, n),
        ItemKind::Group => group_entry(item, n),
        ItemKind::Status => status_entry(item, n),
    }
}

/// The records `es` with the items of the kind added in order, each under
/// its number; an item without a number is left out.
pub open spec fn add_items(items: Seq<JsonView>, es: Seq<(Seq<char>, JsonView)>, kind: ItemKind) -> Seq<
    (Seq<char>, JsonView),
>
    decreases items.len(),
{
    if items.len() == 0 {
        es
    } else {
        let before = add_items(items.drop_last(), es, kind);
        match field_u64(items.last(), kind_id_fields(kind)) {
            Some(n) => set_entry(before, dec_seq(n as nat), kind_entry(kind, items.last(), n)),
            None => before,
        }
    }
}

/// Sets `key` of the entries `es` to the text `value`.
pub fn copy_string_field(item: &Json, es: &mut Vec<(String, Json)>, key: &str, fields: &[&str])
    ensures
        entries_view(final(es)@) == text_field_put(item@, entries_view(old(es)@), key@, names_view(fields@)),
{
    match value_field_string(item, fields) {
        Some(t) => set_in(es, lit(key), Json::Text(t)),
        None => {},
    }
}

/// Sets `key` of the entries `es` to the flag under the first of `fields`.
pub fn copy_bool_field(item: &Json, es: &mut Vec<(String, Json)>, key: &str, fields: &[&str])
    ensures
        entries_view(final(es)@) == flag_field_put(item@, entries_view(old(es)@), key@, names_view(fields@)),
{
    match value_field_flag(item, fields) {
        Some(b) => set_in(es, lit(key), Json::Bool(b)),
        None => {},
    }
}

fn text_or(t: Option<String>, default: String) -> (r: String)
    ensures
        r@ == or_text(text_opt(t), default@),
{
    match t {
        Some(x) => x,
        None => default,
    }
}

fn empty_entries() -> (r: Vec<(String, Json)>)
    ensures
        entries_view(r@) == Seq::<(Seq<char>, JsonView)>::empty(),
{
    let r: Vec<(String, Json)> = Vec::new();
    proof {
        assert(entries_view(r@) =~= Seq::<(Seq<char>, JsonView)>::empty());
    }
    r
}

#[verifier::spinoff_prover]
fn device_entry_json(item: &Json, issi: u64) -> (r: Json)
    ensures
        r@ == device_entry(item@, issi),
{
    let k_name: &[&str] = &["name", "short", "label"];
    let k_class: &[&str] = &["type", "kind", "device_class"];
    let k_label: &[&str] = &["short", "label"];
    let k_owner: &[&str] = &["owner"];
    let k_role: &[&str] = &["role"];
    let k_icon: &[&str] = &["icon"];
    let k_color: &[&str] = &["color"];
    let k_visible: &[&str] = &["visible"];
    proof {
        assert(names_view(k_name@) =~= seq!["name"@, "short"@, "label"@]);
        assert(names_view(k_class@) =~= seq!["type"@, "kind"@, "device_class"@]);
        assert(names_view(k_label@) =~= seq!["short"@, "label"@]);
        assert(names_view(k_owner@) =~= seq!["owner"@]);
        assert(names_view(k_role@) =~= seq!["role"@]);
        assert(names_view(k_icon@) =~= seq!["icon"@]);
        assert(names_view(k_color@) =~= seq!["color"@]);
        assert(names_view(k_visible@) =~= seq!["visible"@]);
    }
    let name = text_or(value_field_string(item, k_name), dec_string(issi));
    let class = text_or(value_field_string(item, k_class), lit("HRT"));
    let mut es = empty_entries();
    set_in(&mut es, lit("name"), Json::Text(name));
    set_in(&mut es, lit("device_class"), Json::Text(class));
    set_in(&mut es, lit("source"), Json::Text(lit("netcore-directory")));
    copy_string_field(item, &mut es, "label", k_label);
    copy_string_field(item, &mut es, "owner", k_owner);
    copy_string_field(item, &mut es, "role", k_role);
    copy_string_field(item, &mut es, "icon", k_icon);
    copy_string_field(item, &mut es, "color", k_color);
    copy_bool_field(item, &mut es, "visible", k_visible);
    Json::Object(es)
}

#[verifier::spinoff_prover]
fn basestation_entry_json(item: &Json, issi: u64) -> (r: Json)
    ensures
        r@ == basestation_entry(item@, issi),
{
    let k_name: &[&str] = &["name", "short", "label"];
    let k_label: &[&str] = &["short", "label"];
    let k_location: &[&str] = &["location"];
    let k_color: &[&str] = &["color"];
    proof {
        assert(names_view(k_name@) =~= seq!["name"@, "short"@, "label"@]);
        assert(names_view(k_label@) =~= seq!["short"@, "label"@]);
        assert(names_view(k_location@) =~= seq!["location"@]);
        assert(names_view(k_color@) =~= seq!["color"@]);
    }
    let name = text_or(value_field_string(item, k_name), dec_string(issi));
    let mut es = empty_entries();
    set_in(&mut es, lit("name"), Json::Text(name));
    set_in(&mut es, lit("device_class"), Json::Text(lit("Infrastruktur")));
    set_in(&mut es, lit("hidden"), Json::Bool(true));
    set_in(&mut es, lit("hide_in_subscribers"), Json::Bool(true));
    set_in(&mut es, lit("source"), Json::Text(lit("netcore-directory-basestation")));
    copy_string_field(item, &mut es, "label", k_label);
    copy_string_field(item, &mut es, "location", k_location);
    copy_string_field(item, &mut es, "color", k_color);
    Json::Object(es)
}

#[verifier::spinoff_prover]
fn group_entry_json(item: &Json, gssi: u64) -> (r: Json)
    ensures
        r@ == group_entry(item@, gssi),
{
    let k_name: &[&str] = &["name", "short", "label"];
    let k_label: &[&str] = &["short", "label"];
    let k_kind: &[&str] = &["type", "kind"];
    let k_color: &[&str] = &["color"];
    proof {
        assert(names_view(k_name@) =~= seq!["name"@, "short"@, "label"@]);
        assert(names_view(k_label@) =~= seq!["short"@, "label"@]);
        assert(names_view(k_kind@) =~= seq!["type"@, "kind"@]);
        assert(names_view(k_color@) =~= seq!["color"@]);
    }
    let name = text_or(value_field_string(item, k_name), dec_string(gssi));
    let mut es = empty_entries();
    set_in(&mut es, lit("name"), Json::Text(name));
    set_in(&mut es, lit("source"), Json::Text(lit("netcore-directory")));
    copy_string_field(item, &mut es, "label", k_label);
    copy_string_field(item, &mut es, "kind", k_kind);
    copy_string_field(item, &mut es, "color", k_color);
    Json::Object(es)
}

#[verifier::spinoff_prover]
fn status_entry_json(item: &Json, code: u64) -> (r: Json)
    ensures
        r@ == status_entry(item@, code),
{
    let k_label: &[&str] = &["label", "name", "description"];
    let k_description: &[&str] = &["description"];
    let k_color: &[&str] = &["color"];
    let k_severity: &[&str] = &["severity"];
    proof {
        assert(names_view(k_label@) =~= seq!["label"@, "name"@, "description"@]);
        assert(names_view(k_description@) =~= seq!["description"@]);
        assert(names_view(k_color@) =~= seq!["color"@]);
        assert(names_view(k_severity@) =~= seq!["severity"@]);
    }
    let label = text_or(value_field_string(item, k_label), concat("Status ", dec_string(code).as_str()));
    let mut es = empty_entries();
    set_in(&mut es, lit("label"), Json::Text(label));
    set_in(&mut es, lit("source"), Json::Text(lit("netcore-directory")));
    copy_string_field(item, &mut es, "description", k_description);
    copy_string_field(item, &mut es, "color", k_color);
    copy_string_field(item, &mut es, "severity", k_severity);
    Json::Object(es)
}

/// Adds the items of the kind from `items`, when it is a list (`add_items`).
fn add_items_from(items: &Json, es: &mut Vec<(String, Json)>, kind: ItemKind)
    ensures
        entries_view(final(es)@) == add_items(items_of(items@), entries_view(old(es)@), kind),
{
    let id_fields: &[&str] = match kind {
        ItemKind::Device => &["issi", "id"],
        ItemKind::Basestation => &["issi", "id"],
        ItemKind::Group => &["gssi", "id"],
        ItemKind::Status => &["code", "status", "id"],
    };
    proof {
        assert(names_view(id_fields@) =~= kind_id_fields(kind));
    }
    match items {
        Json::List(list) => {
            let ghost all = list_view(list@);
            let ghost start = entries_view(es@);
            proof {
                assert(all.take(0) =~= Seq::<JsonView>::empty());
            }
            for i in 0..list.len()
                invariant
                    all == list_view(list@),
                    names_view(id_fields@) == kind_id_fields(kind),
                    entries_view(es@) == add_items(all.take(i as int), start, kind),
            {
                proof {
                    assert(all.take(i + 1).drop_last() =~= all.take(i as int));
                    assert(all.take(i + 1).last() == list@[i as int]@);
                }
                let item = &list[i];
                match value_field_u64(item, id_fields) {
                    Some(n) => {
                        let entry = match kind {
                            ItemKind::Device => device_entry_json(item, n),
                            ItemKind::Basestation => basestation_entry_json(item, n),
                            ItemKind::Group => group_entry_json(item, n),
                            ItemKind::Status => status_entry_json(item, n),
                        };
                        set_in(es, dec_string(n), entry);
                    },
                    None => {},
                }
            }
            proof {
                assert(all.take(list@.len() as int) =~= all);
            }
        },
        _ => {},
    }
}

/// The items of `v`, when it is a list; none otherwise.
pub open spec fn items_of(v: JsonView) -> Seq<JsonView> {
    match v {
        JsonView::List(l) => l,
        _ => Seq::empty(),
    }
}

/// `v` with `x` under `k`, when `v` is an object; an object of that one
/// entry otherwise.
pub open spec fn set_field(v: JsonView, k: Seq<char>, x: JsonView) -> JsonView {
    match v {
        JsonView::Object(es) => JsonView::Object(set_entry(es, k, x)),
        _ => JsonView::Object(seq![(k, x)]),
    }
}

/// The subscriber records `subs` with the record under `key`, or `default`
/// where there is none, put in the status group `group_key`.
pub open spec fn with_status_group(
    subs: Seq<(Seq<char>, JsonView)>,
    key: Seq<char>,
    default: JsonView,
    group_key: Seq<char>,
) -> Seq<(Seq<char>, JsonView)> {
    let current = match lookup(subs, key) {
        Some(e) => e,
        None => default,
    };
    set_entry(subs, key, set_field(current, "status_group"@, JsonView::Text(group_key)))
}

/// The record of a subscriber that a device group lists by number only.
pub open spec fn member_default(issi: u64) -> JsonView {
    JsonView::Object(text_entries2("name"@, dec_seq(issi as nat), "source"@, "netcore-directory-device-group"@))
}

/// The record of a device that a device group lists.
pub open spec fn member_device_default(m: JsonView, issi: u64) -> JsonView {
    JsonView::Object(
        text_entries3(
            "name"@,
            or_text(field_string(m, seq!["name"@, "short"@, "label"@]), dec_seq(issi as nat)),
            "device_class"@,
            or_text(field_string(m, seq!["type"@, "kind"@]), "HRT"@),
            "source"@,
            "netcore-directory-device-group-member"@,
        ),
    )
}

/// The subscriber records `subs` with the members `ms` of a device group, by
/// number, put in its status group `group_key`.
pub open spec fn add_members(ms: Seq<JsonView>, subs: Seq<(Seq<char>, JsonView)>, group_key: Seq<char>) -> Seq<
    (Seq<char>, JsonView),
>
    decreases ms.len(),
{
    if ms.len() == 0 {
        subs
    } else {
        let before = add_members(ms.drop_last(), subs, group_key);
        match value_as_u64(ms.last()) {
            Some(issi) => with_status_group(before, dec_seq(issi as nat), member_default(issi), group_key),
            None => before,
        }
    }
}

/// The subscriber records `subs` with the member devices `ds` of a device
/// group put in its status group `group_key`.
pub open spec fn add_member_devices(
    ds: Seq<JsonView>,
    subs: Seq<(Seq<char>, JsonView)>,
    group_key: Seq<char>,
) -> Seq<(Seq<char>, JsonView)>
    decreases ds.len(),
{
    if ds.len() == 0 {
        subs
    } else {
        let before = add_member_devices(ds.drop_last(), subs, group_key);
        match field_u64(ds.last(), seq!["issi"@, "id"@]) {
            Some(issi) => with_status_group(
                before,
                dec_seq(issi as nat),
                member_device_default(ds.last(), issi),
                group_key,
            ),
            None => before,
        }
    }
}

/// The status group record of a device group of the NetCore Directory.
pub open spec fn status_group_entry(item: JsonView, key: Seq<char>) -> JsonView {
    let name = or_text(field_string(item, seq!["name"@, "short"@, "opta"@, "label"@]), key);
    let base = text_entries2("name"@, name, "source"@, "netcore-directory-device-group"@);
    let labelled = text_field_put(item, base, "label"@, seq!["short"@, "opta"@, "label"@]);
    let kinded = text_field_put(item, labelled, "kind"@, seq!["type"@, "kind"@]);
    JsonView::Object(text_field_put(item, kinded, "color"@, seq!["color"@]))
}

/// The subscriber and status group records after the device groups
/// `items`, in order: each numbered group is a status group, and its
/// members and member devices are put in it.
pub open spec fn add_device_groups(
    items: Seq<JsonView>,
    subs: Seq<(Seq<char>, JsonView)>,
    groups: Seq<(Seq<char>, JsonView)>,
) -> (Seq<(Seq<char>, JsonView)>, Seq<(Seq<char>, JsonView)>)
    decreases items.len(),
{
    if items.len() == 0 {
        (subs, groups)
    } else {
        let before = add_device_groups(items.drop_last(), subs, groups);
        let item = items.last();
        match field_u64(item, seq!["group_id"@, "id"@]) {
            Some(gid) => {
                let key = dec_seq(gid as nat);
                let g1 = set_entry(before.1, key, status_group_entry(item, key));
                let s1 = match get_view(item, "members"@) {
                    Some(JsonView::List(ms)) => add_members(ms, before.0, key),
                    _ => before.0,
                };
                let s2 = match get_view(item, "member_devices"@) {
                    Some(JsonView::List(ds)) => add_member_devices(ds, s1, key),
                    _ => s1,
                };
                (s2, g1)
            },
            None => before,
        }
    }
}

/// The directory that the NetCore Directory's lists give, fetched from
/// `base` at `now`.
pub open spec fn upstream_directory(
    devices: JsonView,
    basestations: JsonView,
    groups: JsonView,
    device_groups: JsonView,
    statuses: JsonView,
    base: Seq<char>,
    now: Seq<char>,
) -> JsonView {
    let subs = add_items(
        items_of(basestations),
        add_items(items_of(devices), Seq::empty(), ItemKind::Device),
        ItemKind::Basestation,
    );
    let group_map = add_items(items_of(groups), Seq::empty(), ItemKind::Group);
    let with_groups = add_device_groups(items_of(device_groups), subs, Seq::empty());
    let status_map = add_items(items_of(statuses), Seq::empty(), ItemKind::Status);
    let upstream = text_entries3("kind"@, "netcore-directory"@, "base"@, base, "timestamp"@, now);
    directory_top(with_groups.0, group_map, with_groups.1, status_map, upstream)
}

/// Whether `v` is a list with at least one item.
pub open spec fn has_items(v: JsonView) -> bool {
    v matches JsonView::List(l) && l.len() > 0
}

fn set_field_json(v: Json, k: &str, x: Json) -> (r: Json)
    ensures
        r@ == set_field(v@, k@, x@),
{
    match v {
        Json::Object(mut es) => {
            set_in(&mut es, lit(k), x);
            Json::Object(es)
        },
        _ => {
            let mut es: Vec<(String, Json)> = Vec::new();
            let ghost entry = (k@, x@);
            es.push((lit(k), x));
            proof {
                assert(entries_view(es@) =~= seq![entry]);
            }
            Json::Object(es)
        },
    }
}

fn put_in_status_group(subs: &mut Vec<(String, Json)>, key: String, default: Json, group_key: &str)
    ensures
        entries_view(final(subs)@) == with_status_group(entries_view(old(subs)@), key@, default@, group_key@),
{
    let current = match find_entry(subs, key.as_str()) {
        Some(j) => {
            proof {
                assert(entries_view(subs@)[j as int].1 == subs@[j as int].1@);
            }
            copy_json(&subs[j].1)
        },
        None => default,
    };
    let updated = set_field_json(current, "status_group", Json::Text(lit(group_key)));
    set_in(subs, key, updated);
}

#[verifier::spinoff_prover]
fn member_device_default_json(m: &Json, issi: u64) -> (r: Json)
    ensures
        r@ == member_device_default(m@, issi),
{
    let k_name: &[&str] = &["name", "short", "label"];
    let k_class: &[&str] = &["type", "kind"];
    proof {
        assert(names_view(k_name@) =~= seq!["name"@, "short"@, "label"@]);
        assert(names_view(k_class@) =~= seq!["type"@, "kind"@]);
    }
    let mut es = empty_entries();
    set_in(&mut es, lit("name"), Json::Text(text_or(value_field_string(m, k_name), dec_string(issi))));
    set_in(&mut es, lit("device_class"), Json::Text(text_or(value_field_string(m, k_class), lit("HRT"))));
    set_in(&mut es, lit("source"), Json::Text(lit("netcore-directory-device-group-member")));
    Json::Object(es)
}

fn add_members_from(ms: &Vec<Json>, subs: &mut Vec<(String, Json)>, group_key: &str)
    ensures
        entries_view(final(subs)@) == add_members(list_view(ms@), entries_view(old(subs)@), group_key@),
{
    let ghost all = list_view(ms@);
    let ghost start = entries_view(subs@);
    proof {
        assert(all.take(0) =~= Seq::<JsonView>::empty());
    }
    for i in 0..ms.len()
        invariant
            all == list_view(ms@),
            entries_view(subs@) == add_members(all.take(i as int), start, group_key@),
    {
        proof {
            assert(all.take(i + 1).drop_last() =~= all.take(i as int));
            assert(all.take(i + 1).last() == ms@[i as int]@);
        }
        match value_u64(&ms[i]) {
            Some(issi) => {
                let mut es = empty_entries();
                set_in(&mut es, lit("name"), Json::Text(dec_string(issi)));
                set_in(&mut es, lit("source"), Json::Text(lit("netcore-directory-device-group")));
                put_in_status_group(subs, dec_string(issi), Json::Object(es), group_key);
            },
            None => {},
        }
    }
    proof {
        assert(all.take(ms@.len() as int) =~= all);
    }
}

fn add_member_devices_from(ds: &Vec<Json>, subs: &mut Vec<(String, Json)>, group_key: &str)
    ensures
        entries_view(final(subs)@) == add_member_devices(list_view(ds@), entries_view(old(subs)@), group_key@),
{
    let id_keys: &[&str] = &["issi", "id"];
    proof {
        assert(names_view(id_keys@) =~= seq!["issi"@, "id"@]);
    }
    let ghost all = list_view(ds@);
    let ghost start = entries_view(subs@);
    proof {
        assert(all.take(0) =~= Seq::<JsonView>::empty());
    }
    for i in 0..ds.len()
        invariant
            all == list_view(ds@),
            names_view(id_keys@) == seq!["issi"@, "id"@],
            entries_view(subs@) == add_member_devices(all.take(i as int), start, group_key@),
    {
        proof {
            assert(all.take(i + 1).drop_last() =~= all.take(i as int));
            assert(all.take(i + 1).last() == ds@[i as int]@);
        }
        match value_field_u64(&ds[i], id_keys) {
            Some(issi) => {
                let default = member_device_default_json(&ds[i], issi);
                put_in_status_group(subs, dec_string(issi), default, group_key);
            },
            None => {},
        }
    }
    proof {
        assert(all.take(ds@.len() as int) =~= all);
    }
}

#[verifier::spinoff_prover]
fn status_group_entry_json(item: &Json, key: &str) -> (r: Json)
    ensures
        r@ == status_group_entry(item@, key@),
{
    let k_name: &[&str] = &["name", "short", "opta", "label"];
    let k_label: &[&str] = &["short", "opta", "label"];
    let k_kind: &[&str] = &["type", "kind"];
    let k_color: &[&str] = &["color"];
    proof {
        assert(names_view(k_name@) =~= seq!["name"@, "short"@, "opta"@, "label"@]);
        assert(names_view(k_label@) =~= seq!["short"@, "opta"@, "label"@]);
        assert(names_view(k_kind@) =~= seq!["type"@, "kind"@]);
        assert(names_view(k_color@) =~= seq!["color"@]);
    }
    let mut es = empty_entries();
    set_in(&mut es, lit("name"), Json::Text(text_or(value_field_string(item, k_name), lit(key))));
    set_in(&mut es, lit("source"), Json::Text(lit("netcore-directory-device-group")));
    copy_string_field(item, &mut es, "label", k_label);
    copy_string_field(item, &mut es, "kind", k_kind);
    copy_string_field(item, &mut es, "color", k_color);
    Json::Object(es)
}

fn add_device_groups_from(items: &Json, subs: &mut Vec<(String, Json)>, groups: &mut Vec<(String, Json)>)
    ensures
        (entries_view(final(subs)@), entries_view(final(groups)@)) == add_device_groups(
            items_of(items@),
            entries_view(old(subs)@),
            entries_view(old(groups)@),
        ),
{
    let id_keys: &[&str] = &["group_id", "id"];
    proof {
        assert(names_view(id_keys@) =~= seq!["group_id"@, "id"@]);
    }
    match items {
        Json::List(list) => {
            let ghost all = list_view(list@);
            let ghost s0 = entries_view(subs@);
            let ghost g0 = entries_view(groups@);
            proof {
                assert(all.take(0) =~= Seq::<JsonView>::empty());
            }
            for i in 0..list.len()
                invariant
                    all == list_view(list@),
                    names_view(id_keys@) == seq!["group_id"@, "id"@],
                    (entries_view(subs@), entries_view(groups@)) == add_device_groups(all.take(i as int), s0, g0),
            {
                proof {
                    assert(all.take(i + 1).drop_last() =~= all.take(i as int));
                    assert(all.take(i + 1).last() == list@[i as int]@);
                }
                let item = &list[i];
                match value_field_u64(item, id_keys) {
                    Some(gid) => {
                        let key = dec_string(gid);
                        let entry = status_group_entry_json(item, key.as_str());
                        set_in(groups, key.clone(), entry);
                        match json_get(item, "members") {
                            Some(Json::List(ms)) => add_members_from(ms, subs, key.as_str()),
                            _ => {},
                        }
                        match json_get(item, "member_devices") {
                            Some(Json::List(ds)) => add_member_devices_from(ds, subs, key.as_str()),
                            _ => {},
                        }
                    },
                    None => {},
                }
            }
            proof {
                assert(all.take(list@.len() as int) =~= all);
            }
        },
        _ => {},
    }
}

/// The top of the directory built from its parts.
pub open spec fn directory_top(
    subs: Seq<(Seq<char>, JsonView)>,
    group_map: Seq<(Seq<char>, JsonView)>,
    status_groups: Seq<(Seq<char>, JsonView)>,
    status_map: Seq<(Seq<char>, JsonView)>,
    upstream: Seq<(Seq<char>, JsonView)>,
) -> JsonView {
    JsonView::Object(
        set_entry(
            set_entry(
                set_entry(
                    set_entry(
                        set_entry(
                            set_entry(Seq::empty(), "subscribers"@, JsonView::Object(subs)),
                            "groups"@,
                            JsonView::Object(group_map),
                        ),
                        "status_groups"@,
                        JsonView::Object(status_groups),
                    ),
                    "statuses"@,
                    JsonView::Object(status_map),
                ),
                "hide_infrastructure"@,
                JsonView::Bool(true),
            ),
            "upstream"@,
            JsonView::Object(upstream),
        ),
    )
}

#[verifier::spinoff_prover]
fn directory_top_json(
    subs: Vec<(String, Json)>,
    group_map: Vec<(String, Json)>,
    status_groups: Vec<(String, Json)>,
    status_map: Vec<(String, Json)>,
    upstream: Vec<(String, Json)>,
) -> (r: Json)
    ensures
        r@ == directory_top(
            entries_view(subs@),
            entries_view(group_map@),
            entries_view(status_groups@),
            entries_view(status_map@),
            entries_view(upstream@),
        ),
{
    let mut out = empty_entries();
    set_in(&mut out, lit("subscribers"), Json::Object(subs));
    set_in(&mut out, lit("groups"), Json::Object(group_map));
    set_in(&mut out, lit("status_groups"), Json::Object(status_groups));
    set_in(&mut out, lit("statuses"), Json::Object(status_map));
    set_in(&mut out, lit("hide_infrastructure"), Json::Bool(true));
    set_in(&mut out, lit("upstream"), Json::Object(upstream));
    Json::Object(out)
}

fn upstream_record(base: &str, now: String) -> (r: Vec<(String, Json)>)
    ensures
        entries_view(r@) == text_entries3("kind"@, "netcore-directory"@, "base"@, base@, "timestamp"@, now@),
{
    let mut upstream = empty_entries();
    set_in(&mut upstream, lit("kind"), Json::Text(lit("netcore-directory")));
    set_in(&mut upstream, lit("base"), Json::Text(lit(base)));
    set_in(&mut upstream, lit("timestamp"), Json::Text(now));
    upstream
}

/// The directory that the NetCore Directory's lists give, fetched from
/// `base` at `now` (`upstream_directory`).
#[verifier::spinoff_prover]
pub fn netcore_directory_api_to_control_room_at(
    devices: &Json,
    basestations: &Json,
    groups: &Json,
    device_groups: &Json,
    statuses: &Json,
    base: &str,
    now: String,
) -> (r: Json)
    ensures
        r@ == upstream_directory(devices@, basestations@, groups@, device_groups@, statuses@, base@, now@),
{
    let mut subs = empty_entries();
    add_items_from(devices, &mut subs, ItemKind::Device);
    add_items_from(basestations, &mut subs, ItemKind::Basestation);
    let mut group_map = empty_entries();
    add_items_from(groups, &mut group_map, ItemKind::Group);
    let mut status_groups = empty_entries();
    add_device_groups_from(device_groups, &mut subs, &mut status_groups);
    let mut status_map = empty_entries();
    add_items_from(statuses, &mut status_map, ItemKind::Status);
    let upstream = upstream_record(base, now);
    directory_top_json(subs, group_map, status_groups, status_map, upstream)
}

/// The directory that the NetCore Directory's lists give, fetched from
/// `base` now.
pub fn netcore_directory_api_to_control_room(
    devices: &Json,
    basestations: &Json,
    groups: &Json,
    device_groups: &Json,
    statuses: &Json,
    base: &str,
) -> (r: Json)
    ensures
        exists|now: Seq<char>|
            r@ == #[trigger] upstream_directory(
                devices@,
                basestations@,
                groups@,
                device_groups@,
                statuses@,
                base@,
                now,
            ),
{
    let now = crate::operations::now_iso();
    netcore_directory_api_to_control_room_at(devices, basestations, groups, device_groups, statuses, base, now)
}

/// The directory from the NetCore Directory's lists, when any of them has an
/// item; none when all are empty.
pub fn directory_from_upstream(
    devices: &Json,
    basestations: &Json,
    groups: &Json,
    device_groups: &Json,
    statuses: &Json,
    base: &str,
) -> (r: Option<Json>)
    ensures
        r is None <==> !(has_items(devices@) || has_items(basestations@) || has_items(groups@) || has_items(
            device_groups@,
        ) || has_items(statuses@)),
        r matches Some(d) ==> exists|now: Seq<char>|
            d@ == #[trigger] upstream_directory(
                devices@,
                basestations@,
                groups@,
                device_groups@,
                statuses@,
                base@,
                now,
            ),
{
    let any_data = non_empty_list(devices) || non_empty_list(basestations) || non_empty_list(groups)
        || non_empty_list(device_groups) || non_empty_list(statuses);
    if !any_data {
        return None;
    }
    Some(netcore_directory_api_to_control_room(devices, basestations, groups, device_groups, statuses, base))
}

fn non_empty_list(v: &Json) -> (r: bool)
    ensures
        r == has_items(v@),
{
    match v {
        Json::List(l) => l.len() > 0,
        _ => false,
    }
}

/// What the control room reports after taking the NetCore Directory's names.
pub open spec fn upstream_sync_text(count: usize) -> Seq<char> {
    "NetCore Directory upstream synced: "@ + dec_seq(count as nat) + " subscriber name(s)"@
}

/// The report of a sync that resolved `count` subscriber names
/// (`upstream_sync_text`).
pub fn upstream_sync_message(count: usize) -> (r: String)
    ensures
        r@ == upstream_sync_text(count),
{
    let head = concat("NetCore Directory upstream synced: ", dec_string(count as u64).as_str());
    concat(head.as_str(), " subscriber name(s)")
}

} // verus!
