//! A map from text keys to text values with an exact mathematical view.
use vstd::prelude::*;
use crate::text::str_eq;

verus! {

/// The table of `(key, value)` pairs as a map; later pairs win.
pub open spec fn pairs_map(s: Seq<(String, String)>) -> Map<Seq<char>, Seq<char>>
    decreases s.len(),
{
    if s.len() == 0 {
        Map::empty()
    } else {
        pairs_map(s.drop_last()).insert(s.last().0@, s.last().1@)
    }
}

/// No key occurs twice among the pairs.
pub open spec fn keys_unique(s: Seq<(String, String)>) -> bool {
    forall|i: int, j: int| 0 <= i < j < s.len() ==> (#[trigger] s[i]).0@ != (#[trigger] s[j]).0@
}

/// A map from text keys to text values, each key held once.
#[derive(Debug)]
pub struct TextMap {
    entries: Vec<(String, String)>,
}

proof fn lemma_pairs_map_dom(s: Seq<(String, String)>)
    ensures
        forall|k: Seq<char>|
            #[trigger] pairs_map(s).dom().contains(k) <==> exists|i: int|
                0 <= i < s.len() && (#[trigger] s[i]).0@ == k,
    decreases s.len(),
{
    if s.len() > 0 {
        lemma_pairs_map_dom(s.drop_last());
        assert forall|k: Seq<char>| #[trigger] pairs_map(s).dom().contains(k) <==> exists|i: int|
            0 <= i < s.len() && (#[trigger] s[i]).0@ == k by {
            if pairs_map(s).dom().contains(k) {
                if k == s.last().0@ {
                    assert(s[s.len() - 1].0@ == k);
                } else {
                    assert(pairs_map(s.drop_last()).dom().contains(k));
                    let i = choose|i: int|
                        0 <= i < s.drop_last().len() && (#[trigger] s.drop_last()[i]).0@ == k;
                    assert(s[i].0@ == k);
                }
            }
            if exists|i: int| 0 <= i < s.len() && (#[trigger] s[i]).0@ == k {
                let i = choose|i: int| 0 <= i < s.len() && (#[trigger] s[i]).0@ == k;
                if i < s.len() - 1 {
                    assert(s.drop_last()[i].0@ == k);
                    assert(pairs_map(s.drop_last()).dom().contains(k));
                }
            }
        }
    }
}

proof fn lemma_pairs_map_unique_len(s: Seq<(String, String)>)
    requires
        keys_unique(s),
    ensures
        pairs_map(s).dom().finite(),
        pairs_map(s).dom().len() == s.len(),
    decreases s.len(),
{
    if s.len() > 0 {
        lemma_pairs_map_unique_len(s.drop_last());
        lemma_pairs_map_dom(s.drop_last());
        if pairs_map(s.drop_last()).dom().contains(s.last().0@) {
            let i = choose|i: int|
                0 <= i < s.drop_last().len() && (#[trigger] s.drop_last()[i]).0@ == s.last().0@;
            assert(s[i].0@ == s[s.len() - 1].0@);
        }
    }
}

impl TextMap {
    #[verifier::type_invariant]
    spec fn wf(self) -> bool {
        keys_unique(self.entries@)
    }

    /// The map as a mathematical map.
    pub closed spec fn view(self) -> Map<Seq<char>, Seq<char>> {
        pairs_map(self.entries@)
    }

    /// The empty map.
    pub fn new() -> (r: TextMap)
        ensures
            r.view() == Map::<Seq<char>, Seq<char>>::empty(),
    {
        TextMap { entries: Vec::new() }
    }

    /// Number of keys in the map.
    pub fn len(&self) -> (r: usize)
        ensures
            r == self.view().dom().len(),
    {
        proof {
            use_type_invariant(self);
            lemma_pairs_map_unique_len(self.entries@);
        }
        self.entries.len()
    }

    fn position(&self, key: &str) -> (r: Option<usize>)
        ensures
            match r {
                Some(i) => i < self.entries@.len() && self.entries@[i as int].0@ == key@,
                None => forall|i: int|
                    0 <= i < self.entries@.len() ==> (#[trigger] self.entries@[i]).0@ != key@,
            },
    {
        let mut i: usize = 0;
        while i < self.entries.len()
            invariant
                i <= self.entries@.len(),
                forall|k: int| 0 <= k < i ==> (#[trigger] self.entries@[k]).0@ != key@,
            decreases self.entries@.len() - i,
        {
            if str_eq(self.entries[i].0.as_str(), key) {
                return Some(i);
            }
            i = i + 1;
        }
        None
    }

    /// Whether `key` is in the map.
    pub fn contains_key(&self, key: &str) -> (r: bool)
        ensures
            r == self.view().dom().contains(key@),
    {
        proof {
            lemma_pairs_map_dom(self.entries@);
        }
        self.position(key).is_some()
    }

    /// The value of `key`, if the map holds it.
    pub fn get(&self, key: &str) -> (r: Option<String>)
        ensures
            match r {
                Some(v) => self.view().dom().contains(key@) && self.view()[key@] == v@,
                None => !self.view().dom().contains(key@),
            },
    {
        proof {
            use_type_invariant(self);
            lemma_pairs_map_dom(self.entries@);
        }
        match self.position(key) {
            Some(i) => {
                proof {
                    lemma_pairs_map_value(self.entries@, i as int);
                }
                Some(self.entries[i].1.clone())
            },
            None => None,
        }
    }

    /// Sets the value of `key`, replacing the one it had.
    pub fn insert(&mut self, key: String, value: String)
        ensures
            final(self).view() == old(self).view().insert(key@, value@),
    {
        proof {
            use_type_invariant(&*self);
        }
        let ghost old_entries = self.entries@;
        match self.position(key.as_str()) {
            Some(i) => {
                let mut entries: Vec<(String, String)> = Vec::new();
                std::mem::swap(&mut entries, &mut self.entries);
                let ghost before = entries@;
                entries.set(i, (key, value));
                proof {
                    lemma_pairs_map_set_unique(before, i as int, entries@[i as int]);
                }
                self.entries = entries;
            },
            None => {
                let mut entries: Vec<(String, String)> = Vec::new();
                std::mem::swap(&mut entries, &mut self.entries);
                let ghost before = entries@;
                entries.push((key, value));
                assert(entries@.drop_last() =~= before);
                assert(keys_unique(entries@)) by {
                    assert forall|a: int, b: int| 0 <= a < b < entries@.len() implies (
                    #[trigger] entries@[a]).0@ != (#[trigger] entries@[b]).0@ by {
                        if b < before.len() {
                            assert(before[a].0@ != before[b].0@);
                        } else {
                            assert(before[a].0@ != key@);
                        }
                    }
                }
                self.entries = entries;
            },
        }
    }

    /// The keys of the map.
    pub fn keys(&self) -> (r: Vec<String>)
        ensures
            r.deep_view().to_set() == self.view().dom(),
            r.deep_view().no_duplicates(),
    {
        proof {
            use_type_invariant(self);
            lemma_pairs_map_dom(self.entries@);
        }
        let mut out: Vec<String> = Vec::new();
        let mut i: usize = 0;
        while i < self.entries.len()
            invariant
                i <= self.entries@.len(),
                out@.len() == i,
                forall|k: int| 0 <= k < i ==> (#[trigger] out@[k])@ == self.entries@[k].0@,
            decreases self.entries@.len() - i,
        {
            out.push(self.entries[i].0.clone());
            i = i + 1;
        }
        assert forall|k: Seq<char>| out.deep_view().to_set().contains(k) <==> self.view().dom().contains(
            k,
        ) by {
            if out.deep_view().to_set().contains(k) {
                let j = choose|j: int| 0 <= j < out.deep_view().len() && out.deep_view()[j] == k;
                assert(self.entries@[j].0@ == k);
            }
            if self.view().dom().contains(k) {
                let j = choose|j: int| 0 <= j < self.entries@.len() && (#[trigger] self.entries@[j]).0@ == k;
                assert(out.deep_view()[j] == k);
            }
        }
        assert(out.deep_view().to_set() =~= self.view().dom());
        assert forall|a: int, b: int| 0 <= a < out.deep_view().len() && 0 <= b < out.deep_view().len() && a != b implies out.deep_view()[a] != out.deep_view()[b] by {
            assert(out.deep_view()[a] == self.entries@[a].0@);
            assert(out.deep_view()[b] == self.entries@[b].0@);
            if a < b {
                assert(self.entries@[a].0@ != self.entries@[b].0@);
            } else {
                assert(self.entries@[b].0@ != self.entries@[a].0@);
            }
        }
        out
    }
}

proof fn lemma_pairs_map_value(s: Seq<(String, String)>, i: int)
    requires
        keys_unique(s),
        0 <= i < s.len(),
    ensures
        pairs_map(s).dom().contains(s[i].0@),
        pairs_map(s)[s[i].0@] == s[i].1@,
    decreases s.len(),
{
    if i < s.len() - 1 {
        assert(s.drop_last()[i] == s[i]);
        lemma_pairs_map_value(s.drop_last(), i);
        assert(s[i].0@ != s[s.len() - 1].0@);
    }
}

proof fn lemma_pairs_map_set_unique(s: Seq<(String, String)>, i: int, p: (String, String))
    requires
        keys_unique(s),
        0 <= i < s.len(),
        s[i].0@ == p.0@,
    ensures
        pairs_map(s.update(i, p)) == pairs_map(s).insert(p.0@, p.1@),
        keys_unique(s.update(i, p)),
    decreases s.len(),
{
    let t = s.update(i, p);
    assert(keys_unique(t)) by {
        assert forall|a: int, b: int| 0 <= a < b < t.len() implies (#[trigger] t[a]).0@ != (
        #[trigger] t[b]).0@ by {
            assert(s[a].0@ != s[b].0@);
        }
    }
    if i == s.len() - 1 {
        assert(t.drop_last() =~= s.drop_last());
        assert(pairs_map(t) =~= pairs_map(s).insert(p.0@, p.1@));
    } else {
        lemma_pairs_map_set_unique(s.drop_last(), i, p);
        assert(t.drop_last() =~= s.drop_last().update(i, p));
        assert(s.last().0@ != p.0@);
        assert(pairs_map(t) =~= pairs_map(s).insert(p.0@, p.1@));
    }
}

} // verus!
