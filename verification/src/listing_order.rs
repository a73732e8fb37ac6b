//! The order in which the control room lists rows: by a key of parts, each
//! rising or falling, compared part by part.
use vstd::prelude::*;
use crate::text::{lemma_seq_lt_irrefl, lemma_seq_lt_trans, seq_lt, str_eq, str_lt};

verus! {

broadcast use vstd::seq_lib::group_to_multiset_ensures, vstd::seq_lib::to_multiset_insert, vstd::multiset::group_multiset_axioms;

/// A part of a listing key.
#[derive(Debug)]
pub enum KeyPart {
    /// A text, in rising order.
    Up(String),
    /// A text, in falling order.
    Down(String),
    /// A number, in rising order.
    UpNum(u64),
    /// A number, in falling order.
    DownNum(u64),
}

/// A [`KeyPart`] as a mathematical value.
pub enum PartView {
    Up(Seq<char>),
    Down(Seq<char>),
    UpNum(u64),
    DownNum(u64),
}

impl View for KeyPart {
    type V = PartView;

    open spec fn view(&self) -> PartView {
        match self {
            KeyPart::Up(s) => PartView::Up(s@),
            KeyPart::Down(s) => PartView::Down(s@),
            KeyPart::UpNum(n) => PartView::UpNum(*n),
            KeyPart::DownNum(n) => PartView::DownNum(*n),
        }
    }
}

/// The views of the parts of a key.
pub open spec fn key_view(k: Seq<KeyPart>) -> Seq<PartView> {
    k.map_values(|p: KeyPart| p@)
}

/// Part `a` comes before part `b`; parts of different kinds are not ordered.
pub open spec fn part_lt(a: PartView, b: PartView) -> bool {
    match a {
        PartView::Up(x) => b matches PartView::Up(y) && seq_lt(x, y),
        PartView::Down(x) => b matches PartView::Down(y) && seq_lt(y, x),
        PartView::UpNum(x) => b matches PartView::UpNum(y) && x < y,
        PartView::DownNum(x) => b matches PartView::DownNum(y) && y < x,
    }
}

/// Key `a` comes before key `b`: at the first part where they differ, the
/// part of `a` comes first.
pub open spec fn key_lt(a: Seq<PartView>, b: Seq<PartView>) -> bool
    decreases a.len(),
{
    if a.len() == 0 || b.len() == 0 {
        false
    } else if part_lt(a[0], b[0]) {
        true
    } else if a[0] == b[0] {
        key_lt(a.drop_first(), b.drop_first())
    } else {
        false
    }
}

proof fn lemma_part_lt_trans(a: PartView, b: PartView, c: PartView)
    requires
        part_lt(a, b),
        part_lt(b, c),
    ensures
        part_lt(a, c),
{
    match a {
        PartView::Up(x) => {
            lemma_seq_lt_trans(x, b->Up_0, c->Up_0);
        },
        PartView::Down(x) => {
            lemma_seq_lt_trans(c->Down_0, b->Down_0, x);
        },
        _ => {},
    }
}

/// Coming first in a listing is transitive.
pub proof fn lemma_key_lt_trans(a: Seq<PartView>, b: Seq<PartView>, c: Seq<PartView>)
    requires
        key_lt(a, b),
        key_lt(b, c),
    ensures
        key_lt(a, c),
    decreases a.len(),
{
    if part_lt(a[0], b[0]) {
        if part_lt(b[0], c[0]) {
            lemma_part_lt_trans(a[0], b[0], c[0]);
        }
    } else {
        if part_lt(b[0], c[0]) {
        } else {
            lemma_key_lt_trans(a.drop_first(), b.drop_first(), c.drop_first());
        }
    }
}

/// No key comes before itself.
pub proof fn lemma_key_lt_irrefl(a: Seq<PartView>)
    ensures
        !key_lt(a, a),
    decreases a.len(),
{
    if a.len() > 0 {
        match a[0] {
            PartView::Up(x) => lemma_seq_lt_irrefl(x),
            PartView::Down(x) => lemma_seq_lt_irrefl(x),
            _ => {},
        }
        lemma_key_lt_irrefl(a.drop_first());
    }
}

fn part_less(a: &KeyPart, b: &KeyPart) -> (r: bool)
    ensures
        r == part_lt(a@, b@),
{
    match (a, b) {
        (KeyPart::Up(x), KeyPart::Up(y)) => str_lt(x.as_str(), y.as_str()),
        (KeyPart::Down(x), KeyPart::Down(y)) => str_lt(y.as_str(), x.as_str()),
        (KeyPart::UpNum(x), KeyPart::UpNum(y)) => *x < *y,
        (KeyPart::DownNum(x), KeyPart::DownNum(y)) => *y < *x,
        _ => false,
    }
}

fn part_equal(a: &KeyPart, b: &KeyPart) -> (r: bool)
    ensures
        r == (a@ == b@),
{
    match (a, b) {
        (KeyPart::Up(x), KeyPart::Up(y)) => str_eq(x.as_str(), y.as_str()),
        (KeyPart::Down(x), KeyPart::Down(y)) => str_eq(x.as_str(), y.as_str()),
        (KeyPart::UpNum(x), KeyPart::UpNum(y)) => *x == *y,
        (KeyPart::DownNum(x), KeyPart::DownNum(y)) => *x == *y,
        _ => false,
    }
}

/// Whether key `a` comes before key `b` (`key_lt`).
pub fn key_less(a: &Vec<KeyPart>, b: &Vec<KeyPart>) -> (r: bool)
    ensures
        r == key_lt(key_view(a@), key_view(b@)),
{
    let ghost ka = key_view(a@);
    let ghost kb = key_view(b@);
    let mut i: usize = 0;
    proof {
        assert(ka.skip(0) =~= ka);
        assert(kb.skip(0) =~= kb);
    }
    while i < a.len() && i < b.len()
        invariant
            ka == key_view(a@),
            kb == key_view(b@),
            i <= a@.len(),
            i <= b@.len(),
            key_lt(ka, kb) == key_lt(ka.skip(i as int), kb.skip(i as int)),
        decreases a@.len() - i,
    {
        proof {
            assert(ka.skip(i as int)[0] == a@[i as int]@);
            assert(kb.skip(i as int)[0] == b@[i as int]@);
            assert(ka.skip(i as int).drop_first() =~= ka.skip(i + 1));
            assert(kb.skip(i as int).drop_first() =~= kb.skip(i + 1));
        }
        if part_less(&a[i], &b[i]) {
            return true;
        }
        if !part_equal(&a[i], &b[i]) {
            return false;
        }
        i = i + 1;
    }
    false
}

/// A row that listings order by a key.
pub trait ListingKey: Sized {
    /// The key by which the row is listed.
    spec fn listing_key(&self) -> Seq<PartView>;

    /// The parts of the row's key.
    fn key_parts(&self) -> (r: Vec<KeyPart>)
        ensures
            key_view(r@) == self.listing_key(),
    ;
}

/// No row of `s` comes before a row ahead of it.
pub open spec fn in_key_order<T: ListingKey>(s: Seq<T>) -> bool {
    forall|i: int, j: int|
        0 <= i < j < s.len() ==> !key_lt((#[trigger] s[j]).listing_key(), (#[trigger] s[i]).listing_key())
}

/// The rows in the order of their keys; rows of equal keys keep their order.
pub fn sort_rows<T: ListingKey>(rows: Vec<T>) -> (r: Vec<T>)
    ensures
        in_key_order(r@),
        r@.to_multiset() == rows@.to_multiset(),
{
    let mut rest = rows;
    let mut out: Vec<T> = Vec::new();
    proof {
        assert(out@.to_multiset().len() == 0);
        vstd::multiset::lemma_multiset_empty_len(out@.to_multiset());
        assert(out@.to_multiset().add(rest@.to_multiset()) =~= rows@.to_multiset());
    }
    while rest.len() > 0
        invariant
            in_key_order(out@),
            out@.to_multiset().add(rest@.to_multiset()) == rows@.to_multiset(),
        decreases rest@.len(),
    {
        let ghost rest_before = rest@;
        let x = rest.remove(0);
        proof {
            assert(rest_before.to_multiset() == rest@.to_multiset().insert(x)) by {
                assert(rest_before == rest@.insert(0, x));
            }
        }
        let kx_parts = x.key_parts();
        let mut p: usize = 0;
        while p < out.len() && !key_less(&kx_parts, &out[p].key_parts())
            invariant
                p <= out@.len(),
                key_view(kx_parts@) == x.listing_key(),
                forall|k: int| 0 <= k < p ==> !key_lt(x.listing_key(), (#[trigger] out@[k]).listing_key()),
            decreases out@.len() - p,
        {
            p = p + 1;
        }
        let ghost before = out@;
        let ghost kx = x.listing_key();
        out.insert(p, x);
        proof {
            assert forall|i: int, j: int| 0 <= i < j < out@.len() implies !key_lt(
                (#[trigger] out@[j]).listing_key(),
                (#[trigger] out@[i]).listing_key(),
            ) by {
                if j < p {
                    assert(out@[i] == before[i] && out@[j] == before[j]);
                } else if j == p {
                    assert(out@[i] == before[i]);
                } else if i < p {
                    assert(out@[i] == before[i] && out@[j] == before[j - 1]);
                } else if i == p {
                    assert(out@[j] == before[j - 1]);
                    let kj = before[j - 1].listing_key();
                    let kp = before[p as int].listing_key();
                    assert(key_lt(kx, kp));
                    if key_lt(kj, kx) {
                        lemma_key_lt_trans(kj, kx, kp);
                        if j - 1 > p {
                            assert(!key_lt(before[j - 1].listing_key(), before[p as int].listing_key()));
                        } else {
                            lemma_key_lt_irrefl(kp);
                        }
                    }
                } else {
                    assert(out@[i] == before[i - 1] && out@[j] == before[j - 1]);
                }
            }
            assert(out@.to_multiset() == before.to_multiset().insert(x));
            assert(out@.to_multiset().add(rest@.to_multiset()) =~= rows@.to_multiset());
        }
    }
    proof {
        assert(rest@.to_multiset().len() == 0);
        vstd::multiset::lemma_multiset_empty_len(rest@.to_multiset());
        assert(out@.to_multiset().add(rest@.to_multiset()) =~= out@.to_multiset());
    }
    out
}

} // verus!
