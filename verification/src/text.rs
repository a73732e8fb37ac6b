//! Character-level text handling: trimming, ASCII case mapping, prefix and
//! suffix tests, decimal rendering and parsing, each with an exact
//! specification over `Seq<char>`.
use vstd::prelude::*;

verus! {

/// The characters for which `char::is_whitespace` holds (Unicode `White_Space`).
pub open spec fn is_ws(c: char) -> bool {
    ||| ('\t' <= c && c <= '\r')
    ||| c == ' '
    ||| c == '\u{85}'
    ||| c == '\u{A0}'
    ||| c == '\u{1680}'
    ||| ('\u{2000}' <= c && c <= '\u{200A}')
    ||| c == '\u{2028}'
    ||| c == '\u{2029}'
    ||| c == '\u{202F}'
    ||| c == '\u{205F}'
    ||| c == '\u{3000}'
}

/// `s` without its leading whitespace.
pub open spec fn trim_start_seq(s: Seq<char>) -> Seq<char>
    decreases s.len(),
{
    if s.len() > 0 && is_ws(s[0]) {
        trim_start_seq(s.drop_first())
    } else {
        s
    }
}

/// `s` without its trailing whitespace.
pub open spec fn trim_end_seq(s: Seq<char>) -> Seq<char>
    decreases s.len(),
{
    if s.len() > 0 && is_ws(s.last()) {
        trim_end_seq(s.drop_last())
    } else {
        s
    }
}

/// `s` without leading and trailing whitespace (`str::trim`).
pub open spec fn trim_seq(s: Seq<char>) -> Seq<char> {
    trim_end_seq(trim_start_seq(s))
}

/// `s` without any trailing copies of `c` (`str::trim_end_matches` with a char).
pub open spec fn trim_end_char_seq(s: Seq<char>, c: char) -> Seq<char>
    decreases s.len(),
{
    if s.len() > 0 && s.last() == c {
        trim_end_char_seq(s.drop_last(), c)
    } else {
        s
    }
}

/// `s` without any leading copies of the prefix `p` (`str::trim_start_matches` with a str).
pub open spec fn trim_start_str_seq(s: Seq<char>, p: Seq<char>) -> Seq<char>
    decreases s.len(),
{
    if p.len() > 0 && starts_with_seq(s, p) {
        trim_start_str_seq(s.skip(p.len() as int), p)
    } else {
        s
    }
}

/// ASCII lower-casing of one character.
pub open spec fn lower_char(c: char) -> char {
    if 'A' <= c && c <= 'Z' {
        ((c as u32) + 32) as char
    } else {
        c
    }
}

/// ASCII upper-casing of one character.
pub open spec fn upper_char(c: char) -> char {
    if 'a' <= c && c <= 'z' {
        ((c as u32) - 32) as char
    } else {
        c
    }
}

/// `str::to_ascii_lowercase`.
pub open spec fn lower_seq(s: Seq<char>) -> Seq<char> {
    s.map_values(|c: char| lower_char(c))
}

/// `str::to_ascii_uppercase`.
pub open spec fn upper_seq(s: Seq<char>) -> Seq<char> {
    s.map_values(|c: char| upper_char(c))
}

/// `p` is a prefix of `s`.
pub open spec fn starts_with_seq(s: Seq<char>, p: Seq<char>) -> bool {
    p.len() <= s.len() && s.take(p.len() as int) == p
}

/// `p` is a suffix of `s`.
pub open spec fn ends_with_seq(s: Seq<char>, p: Seq<char>) -> bool {
    p.len() <= s.len() && s.skip(s.len() - p.len()) == p
}

/// `c` is an ASCII decimal digit.
pub open spec fn is_digit(c: char) -> bool {
    '0' <= c && c <= '9'
}

/// `c` is an ASCII letter or digit.
pub open spec fn is_alnum(c: char) -> bool {
    ('0' <= c && c <= '9') || ('a' <= c && c <= 'z') || ('A' <= c && c <= 'Z')
}

/// Value of one ASCII decimal digit.
pub open spec fn digit_value(c: char) -> nat {
    ((c as u32) - ('0' as u32)) as nat
}

/// The digit character for `d < 10`.
pub open spec fn digit_char(d: nat) -> char {
    (('0' as u32) + d) as char
}

/// Value of a string of decimal digits.
pub open spec fn digits_value(s: Seq<char>) -> nat
    decreases s.len(),
{
    if s.len() == 0 {
        0
    } else {
        digits_value(s.drop_last()) * 10 + digit_value(s.last())
    }
}

/// All characters of `s` are decimal digits.
pub open spec fn all_digits(s: Seq<char>) -> bool {
    forall|i: int| 0 <= i < s.len() ==> is_digit(#[trigger] s[i])
}

/// What `str::parse` gives for an unsigned integer type whose largest value is `max`:
/// an optional `+`, then one or more decimal digits, with a value no larger than `max`.
pub open spec fn parse_uint_seq(s: Seq<char>, max: nat) -> Option<nat> {
    let d = if s.len() > 0 && s[0] == '+' { s.drop_first() } else { s };
    if d.len() > 0 && all_digits(d) && digits_value(d) <= max {
        Some(digits_value(d))
    } else {
        None
    }
}

/// Decimal rendering of `n` without leading zeros (`u64::to_string`).
pub open spec fn dec_seq(n: nat) -> Seq<char>
    decreases n,
{
    if n < 10 {
        seq![digit_char(n)]
    } else {
        dec_seq(n / 10).push(digit_char(n % 10))
    }
}

/// Appends one character to a `String` (`String::push`).
#[verifier::external_body]
pub(crate) fn push_char(s: &mut String, c: char)
    ensures
        final(s)@ == old(s)@.push(c),
{
    s.push(c);
}

/// An owned copy of `s`.
pub fn lit(s: &str) -> (r: String)
    ensures
        r@ == s@,
{
    s.to_owned()
}

/// The characters of `s`, in order.
pub fn chars_of(s: &str) -> (v: Vec<char>)
    ensures
        v@ == s@,
{
    let n = s.unicode_len();
    let mut v: Vec<char> = Vec::new();
    let mut i: usize = 0;
    while i < n
        invariant
            n == s@.len(),
            i <= n,
            v@ == s@.take(i as int),
        decreases n - i,
    {
        let c = s.get_char(i);
        v.push(c);
        i = i + 1;
        assert(v@ =~= s@.take(i as int));
    }
    assert(v@ =~= s@);
    v
}

/// A `String` made of the characters `v[lo..hi]`.
pub fn string_of_range(v: &Vec<char>, lo: usize, hi: usize) -> (s: String)
    requires
        lo <= hi <= v.len(),
    ensures
        s@ == v@.subrange(lo as int, hi as int),
{
    let mut s = String::new();
    let mut i = lo;
    while i < hi
        invariant
            lo <= i <= hi <= v.len(),
            s@ == v@.subrange(lo as int, i as int),
        decreases hi - i,
    {
        push_char(&mut s, v[i]);
        i = i + 1;
        assert(s@ =~= v@.subrange(lo as int, i as int));
    }
    s
}

/// A `String` made of the characters of `v`.
pub fn string_of(v: &Vec<char>) -> (s: String)
    ensures
        s@ == v@,
{
    let s = string_of_range(v, 0, v.len());
    assert(v@.subrange(0, v@.len() as int) =~= v@);
    s
}

proof fn lemma_trim_start_skip(s: Seq<char>, i: int)
    requires
        0 <= i < s.len(),
        is_ws(s[i]),
    ensures
        trim_start_seq(s.skip(i)) == trim_start_seq(s.skip(i + 1)),
{
    assert(s.skip(i).drop_first() =~= s.skip(i + 1));
}

proof fn lemma_trim_end_take(s: Seq<char>, j: int)
    requires
        0 < j <= s.len(),
        is_ws(s[j - 1]),
    ensures
        trim_end_seq(s.take(j)) == trim_end_seq(s.take(j - 1)),
{
    assert(s.take(j).drop_last() =~= s.take(j - 1));
}

/// Bounds of the trimmed part of `v`: `v[lo..hi]` is `v` without leading and trailing whitespace.
pub fn trim_bounds(v: &Vec<char>) -> (r: (usize, usize))
    ensures
        r.0 <= r.1 <= v.len(),
        v@.subrange(r.0 as int, r.1 as int) == trim_seq(v@),
{
    let n = v.len();
    let mut i: usize = 0;
    assert(v@.skip(0) =~= v@);
    while i < n && is_ws_exec(v[i])
        invariant
            n == v.len(),
            i <= n,
            trim_start_seq(v@) == trim_start_seq(v@.skip(i as int)),
        decreases n - i,
    {
        proof {
            lemma_trim_start_skip(v@, i as int);
        }
        i = i + 1;
    }
    let ghost t = v@.skip(i as int);
    assert(trim_start_seq(t) == t);
    let mut j: usize = n;
    assert(t.take(n - i) =~= t);
    while j > i && is_ws_exec(v[j - 1])
        invariant
            n == v.len(),
            i <= j <= n,
            t == v@.skip(i as int),
            trim_end_seq(t) == trim_end_seq(t.take(j - i)),
        decreases j,
    {
        proof {
            lemma_trim_end_take(t, (j - i) as int);
        }
        j = j - 1;
    }
    assert(trim_end_seq(t.take(j - i)) == t.take(j - i));
    assert(t.take(j - i) =~= v@.subrange(i as int, j as int));
    (i, j)
}

/// `char::is_whitespace`.
pub fn is_ws_exec(c: char) -> (r: bool)
    ensures
        r == is_ws(c),
{
    ('\t' <= c && c <= '\r') || c == ' ' || c == '\u{85}' || c == '\u{A0}' || c == '\u{1680}'
        || ('\u{2000}' <= c && c <= '\u{200A}') || c == '\u{2028}' || c == '\u{2029}'
        || c == '\u{202F}' || c == '\u{205F}' || c == '\u{3000}'
}

/// `s.trim().to_string()`.
pub fn trim(s: &str) -> (r: String)
    ensures
        r@ == trim_seq(s@),
{
    let v = chars_of(s);
    let (lo, hi) = trim_bounds(&v);
    string_of_range(&v, lo, hi)
}

/// ASCII lower-casing of one character.
pub fn lower_char_exec(c: char) -> (r: char)
    ensures
        r == lower_char(c),
{
    if 'A' <= c && c <= 'Z' {
        let u: u8 = c as u8;
        (u + 32) as char
    } else {
        c
    }
}

/// ASCII upper-casing of one character.
pub fn upper_char_exec(c: char) -> (r: char)
    ensures
        r == upper_char(c),
{
    if 'a' <= c && c <= 'z' {
        let u: u8 = c as u8;
        (u - 32) as char
    } else {
        c
    }
}

/// `s.to_ascii_lowercase()`.
pub fn to_lower(s: &str) -> (r: String)
    ensures
        r@ == lower_seq(s@),
{
    let v = chars_of(s);
    let mut out = String::new();
    let mut i: usize = 0;
    while i < v.len()
        invariant
            v@ == s@,
            i <= v.len(),
            out@ == lower_seq(s@.take(i as int)),
        decreases v.len() - i,
    {
        push_char(&mut out, lower_char_exec(v[i]));
        i = i + 1;
        assert(out@ =~= lower_seq(s@.take(i as int)));
    }
    assert(s@.take(v.len() as int) =~= s@);
    out
}

/// `s.to_ascii_uppercase()`.
pub fn to_upper(s: &str) -> (r: String)
    ensures
        r@ == upper_seq(s@),
{
    let v = chars_of(s);
    let mut out = String::new();
    let mut i: usize = 0;
    while i < v.len()
        invariant
            v@ == s@,
            i <= v.len(),
            out@ == upper_seq(s@.take(i as int)),
        decreases v.len() - i,
    {
        push_char(&mut out, upper_char_exec(v[i]));
        i = i + 1;
        assert(out@ =~= upper_seq(s@.take(i as int)));
    }
    assert(s@.take(v.len() as int) =~= s@);
    out
}

/// `s.trim().to_ascii_lowercase()`.
pub fn trim_lower(s: &str) -> (r: String)
    ensures
        r@ == lower_seq(trim_seq(s@)),
{
    let t = trim(s);
    to_lower(t.as_str())
}

/// `s.trim().to_ascii_uppercase()`.
pub fn trim_upper(s: &str) -> (r: String)
    ensures
        r@ == upper_seq(trim_seq(s@)),
{
    let t = trim(s);
    to_upper(t.as_str())
}

/// Whether the sequences `a` and `b` hold the same characters.
pub fn seq_eq(a: &Vec<char>, b: &Vec<char>) -> (r: bool)
    ensures
        r == (a@ == b@),
{
    if a.len() != b.len() {
        return false;
    }
    let mut i: usize = 0;
    while i < a.len()
        invariant
            a.len() == b.len(),
            i <= a.len(),
            forall|k: int| 0 <= k < i ==> a@[k] == b@[k],
        decreases a.len() - i,
    {
        if a[i] != b[i] {
            return false;
        }
        i = i + 1;
    }
    assert(a@ =~= b@);
    true
}

/// Whether `a` and `b` hold the same characters.
pub fn str_eq(a: &str, b: &str) -> (r: bool)
    ensures
        r == (a@ == b@),
{
    let va = chars_of(a);
    let vb = chars_of(b);
    seq_eq(&va, &vb)
}

/// Whether `v[start..]` begins with `p`.
pub fn vec_has_at(v: &Vec<char>, start: usize, p: &Vec<char>) -> (r: bool)
    requires
        start <= v.len(),
    ensures
        r == starts_with_seq(v@.skip(start as int), p@),
{
    if p.len() > v.len() - start {
        return false;
    }
    let mut i: usize = 0;
    while i < p.len()
        invariant
            start + p.len() <= v.len(),
            i <= p.len(),
            forall|k: int| 0 <= k < i ==> v@[start + k] == p@[k],
        decreases p.len() - i,
    {
        if v[start + i] != p[i] {
            assert(v@.skip(start as int).take(p.len() as int)[i as int] != p@[i as int]);
            return false;
        }
        i = i + 1;
    }
    assert(v@.skip(start as int).take(p.len() as int) =~= p@);
    true
}

/// Whether `s` begins with `p` (`str::starts_with` with a str).
pub fn starts_with(s: &str, p: &str) -> (r: bool)
    ensures
        r == starts_with_seq(s@, p@),
{
    let v = chars_of(s);
    let pv = chars_of(p);
    let r = vec_has_at(&v, 0, &pv);
    assert(v@.skip(0) =~= v@);
    r
}

/// Whether `s` ends with `p` (`str::ends_with` with a str).
pub fn ends_with(s: &str, p: &str) -> (r: bool)
    ensures
        r == ends_with_seq(s@, p@),
{
    let v = chars_of(s);
    let pv = chars_of(p);
    if pv.len() > v.len() {
        return false;
    }
    let r = vec_has_at(&v, v.len() - pv.len(), &pv);
    assert(v@.skip(v.len() - pv.len()).take(pv.len() as int) =~= v@.skip(v.len() - pv.len()));
    r
}

/// `s` without its trailing copies of `c`.
pub fn trim_end_char(s: &str, c: char) -> (r: String)
    ensures
        r@ == trim_end_char_seq(s@, c),
{
    let v = chars_of(s);
    let mut j = v.len();
    assert(s@.take(v.len() as int) =~= s@);
    while j > 0 && v[j - 1] == c
        invariant
            v@ == s@,
            j <= v.len(),
            trim_end_char_seq(s@, c) == trim_end_char_seq(s@.take(j as int), c),
        decreases j,
    {
        assert(s@.take(j as int).drop_last() =~= s@.take(j - 1));
        j = j - 1;
    }
    assert(v@.subrange(0, j as int) =~= s@.take(j as int));
    string_of_range(&v, 0, j)
}

/// `s.trim().trim_end_matches(c).to_string()`.
pub fn trim_then_strip_end(s: &str, c: char) -> (r: String)
    ensures
        r@ == trim_end_char_seq(trim_seq(s@), c),
{
    let t = trim(s);
    trim_end_char(t.as_str(), c)
}

/// Appends the characters of `t` to `s`.
pub fn push_str(s: &mut String, t: &str)
    ensures
        final(s)@ == old(s)@ + t@,
{
    let v = chars_of(t);
    let mut i: usize = 0;
    while i < v.len()
        invariant
            v@ == t@,
            i <= v.len(),
            s@ == old(s)@ + t@.take(i as int),
        decreases v.len() - i,
    {
        push_char(s, v[i]);
        i = i + 1;
        assert(s@ =~= old(s)@ + t@.take(i as int));
    }
    assert(t@.take(v.len() as int) =~= t@);
}

/// `a` followed by `b`.
pub fn concat(a: &str, b: &str) -> (r: String)
    ensures
        r@ == a@ + b@,
{
    let mut r = lit(a);
    push_str(&mut r, b);
    r
}

proof fn lemma_dec_nonempty(n: nat)
    ensures
        dec_seq(n).len() >= 1,
    decreases n,
{
    if n >= 10 {
        lemma_dec_nonempty(n / 10);
    }
}

/// Appends the decimal rendering of `n` to `s`.
pub fn push_dec(s: &mut String, n: u64)
    ensures
        final(s)@ == old(s)@ + dec_seq(n as nat),
    decreases n,
{
    if n >= 10 {
        push_dec(s, n / 10);
    }
    let d: u8 = (n % 10) as u8;
    let c = (48u8 + d) as char;
    push_char(s, c);
    assert(c == digit_char((n % 10) as nat));
    assert(final(s)@ =~= old(s)@ + dec_seq(n as nat));
}

/// `n.to_string()`.
pub fn dec_string(n: u64) -> (r: String)
    ensures
        r@ == dec_seq(n as nat),
{
    let mut s = String::new();
    push_dec(&mut s, n);
    assert(s@ =~= dec_seq(n as nat));
    s
}

proof fn lemma_digits_value_mono(d: Seq<char>, i: int)
    requires
        0 <= i <= d.len(),
    ensures
        digits_value(d.take(i)) <= digits_value(d),
    decreases d.len() - i,
{
    if i < d.len() {
        lemma_digits_value_mono(d, i + 1);
        assert(d.take(i + 1).drop_last() =~= d.take(i));
    } else {
        assert(d.take(i) =~= d);
    }
}

/// `str::parse` for an unsigned integer type whose largest value is `max`
/// (`u8`, `u16`, `u32`, `u64`, `usize`).
pub fn parse_uint(s: &str, max: u64) -> (r: Option<u64>)
    ensures
        r matches Some(v) ==> parse_uint_seq(s@, max as nat) == Some(v as nat),
        r is None ==> parse_uint_seq(s@, max as nat) is None,
{
    let v = chars_of(s);
    let start: usize = if v.len() > 0 && v[0] == '+' { 1 } else { 0 };
    let ghost d = if s@.len() > 0 && s@[0] == '+' { s@.drop_first() } else { s@ };
    assert(d =~= v@.skip(start as int));
    if start == v.len() {
        return None;
    }
    let mut acc: u64 = 0;
    let mut i: usize = start;
    while i < v.len()
        invariant
            start <= i <= v.len(),
            v@ == s@,
            d == (if s@.len() > 0 && s@[0] == '+' { s@.drop_first() } else { s@ }),
            d == v@.skip(start as int),
            all_digits(d.take(i - start)),
            acc as nat == digits_value(d.take(i - start)),
            acc <= max,
        decreases v.len() - i,
    {
        let c = v[i];
        if !('0' <= c && c <= '9') {
            assert(d[i - start] == c);
            assert(!is_digit(d[i - start]));
            assert(!all_digits(d));
            return None;
        }
        let dv: u64 = ((c as u8) - 48u8) as u64;
        assert(d.take(i + 1 - start).drop_last() =~= d.take(i - start));
        assert(d.take(i + 1 - start).last() == c);
        if dv > max || acc > (max - dv) / 10 {
            proof {
                lemma_digits_value_mono(d, i + 1 - start);
                assert(digits_value(d.take(i + 1 - start)) == acc * 10 + dv);
                assert(acc * 10 + dv > max) by (nonlinear_arith)
                    requires
                        dv > max || acc > (max - dv) / 10,
                        dv <= 9,
                ;
                assert(digits_value(d) > max);
            }
            return None;
        }
        acc = acc * 10 + dv;
        i = i + 1;
        assert(all_digits(d.take(i - start))) by {
            assert forall|k: int| 0 <= k < d.take(i - start).len() implies is_digit(
                #[trigger] d.take(i - start)[k],
            ) by {
                if k < i - 1 - start {
                    assert(d.take(i - start)[k] == d.take(i - 1 - start)[k]);
                }
            }
        }
    }
    assert(d.take(v.len() - start) =~= d);
    Some(acc)
}

/// The trimmed, non-empty entries of `l`, in order.
pub open spec fn trimmed_nonempty_seq(l: Seq<Seq<char>>) -> Seq<Seq<char>>
    decreases l.len(),
{
    if l.len() == 0 {
        seq![]
    } else {
        let t = trim_seq(l.last());
        if t.len() == 0 {
            trimmed_nonempty_seq(l.drop_last())
        } else {
            trimmed_nonempty_seq(l.drop_last()).push(t)
        }
    }
}

/// Each entry of `l` trimmed, with the entries that become empty dropped.
pub fn trimmed_nonempty(l: &Vec<String>) -> (r: Vec<String>)
    ensures
        r.deep_view() == trimmed_nonempty_seq(l.deep_view()),
{
    let mut out: Vec<String> = Vec::new();
    let mut i: usize = 0;
    while i < l.len()
        invariant
            i <= l.len(),
            out.deep_view() == trimmed_nonempty_seq(l.deep_view().take(i as int)),
        decreases l.len() - i,
    {
        let t = trim(l[i].as_str());
        let ghost before = out.deep_view();
        assert(l.deep_view().take(i + 1).drop_last() =~= l.deep_view().take(i as int));
        assert(l.deep_view().take(i + 1).last() == l[i as int]@);
        if t.as_str().is_empty() {
        } else {
            out.push(t);
            assert(out.deep_view() =~= before.push(trim_seq(l[i as int]@)));
        }
        i = i + 1;
    }
    assert(l.deep_view().take(l.len() as int) =~= l.deep_view());
    out
}

/// Whether some entry of `l` holds the same characters as `s`.
pub fn contains_str(l: &Vec<String>, s: &str) -> (r: bool)
    ensures
        r == l.deep_view().contains(s@),
{
    let mut i: usize = 0;
    while i < l.len()
        invariant
            i <= l.len(),
            forall|k: int| 0 <= k < i ==> l.deep_view()[k] != s@,
        decreases l.len() - i,
    {
        if str_eq(l[i].as_str(), s) {
            assert(l.deep_view()[i as int] == s@);
            return true;
        }
        i = i + 1;
    }
    false
}

/// The characters of an optional string.
pub open spec fn opt_view(o: Option<String>) -> Option<Seq<char>> {
    match o {
        Some(s) => Some(s@),
        None => None,
    }
}

/// Whether `s` begins with the first `plen` characters of `p`.
pub fn starts_with_part(s: &Vec<char>, p: &Vec<char>, plen: usize) -> (r: bool)
    requires
        plen <= p.len(),
    ensures
        r == starts_with_seq(s@, p@.take(plen as int)),
{
    if plen > s.len() {
        return false;
    }
    let mut i: usize = 0;
    while i < plen
        invariant
            plen <= p.len(),
            plen <= s.len(),
            i <= plen,
            forall|k: int| 0 <= k < i ==> s@[k] == p@[k],
        decreases plen - i,
    {
        if s[i] != p[i] {
            assert(s@.take(plen as int)[i as int] != p@.take(plen as int)[i as int]);
            return false;
        }
        i = i + 1;
    }
    assert(s@.take(plen as int) =~= p@.take(plen as int));
    true
}

/// Lexicographic order on character sequences (the order of `str::cmp`).
pub open spec fn seq_lt(a: Seq<char>, b: Seq<char>) -> bool
    decreases a.len(),
{
    if a.len() == 0 {
        b.len() > 0
    } else if b.len() == 0 {
        false
    } else if a[0] < b[0] {
        true
    } else if a[0] == b[0] {
        seq_lt(a.drop_first(), b.drop_first())
    } else {
        false
    }
}

/// `l` is in strictly increasing lexicographic order (sorted, no repeats).
pub open spec fn strictly_sorted(l: Seq<Seq<char>>) -> bool {
    forall|i: int, j: int| 0 <= i < j < l.len() ==> seq_lt(#[trigger] l[i], #[trigger] l[j])
}

/// `seq_lt` is irreflexive.
pub proof fn lemma_seq_lt_irrefl(a: Seq<char>)
    ensures
        !seq_lt(a, a),
    decreases a.len(),
{
    if a.len() > 0 {
        lemma_seq_lt_irrefl(a.drop_first());
    }
}

/// `seq_lt` is transitive.
pub proof fn lemma_seq_lt_trans(a: Seq<char>, b: Seq<char>, c: Seq<char>)
    requires
        seq_lt(a, b),
        seq_lt(b, c),
    ensures
        seq_lt(a, c),
    decreases a.len(),
{
    if a.len() > 0 && b.len() > 0 && c.len() > 0 {
        if a[0] == b[0] && b[0] == c[0] {
            lemma_seq_lt_trans(a.drop_first(), b.drop_first(), c.drop_first());
        }
    }
}

/// Two different sequences are ordered one way or the other.
pub proof fn lemma_seq_lt_total(a: Seq<char>, b: Seq<char>)
    requires
        a != b,
    ensures
        seq_lt(a, b) || seq_lt(b, a),
    decreases a.len(),
{
    if a.len() > 0 && b.len() > 0 && a[0] == b[0] {
        if a.drop_first() == b.drop_first() {
            assert(a =~= seq![a[0]] + a.drop_first());
            assert(b =~= seq![b[0]] + b.drop_first());
        }
        lemma_seq_lt_total(a.drop_first(), b.drop_first());
    } else if a.len() == 0 && b.len() == 0 {
        assert(a =~= b);
    }
}

/// Whether `a` comes strictly before `b` in lexicographic order.
pub fn str_lt(a: &str, b: &str) -> (r: bool)
    ensures
        r == seq_lt(a@, b@),
{
    let va = chars_of(a);
    let vb = chars_of(b);
    let mut i: usize = 0;
    assert(va@.skip(0) =~= va@);
    assert(vb@.skip(0) =~= vb@);
    while i < va.len() && i < vb.len() && va[i] == vb[i]
        invariant
            va@ == a@,
            vb@ == b@,
            i <= va.len(),
            i <= vb.len(),
            seq_lt(a@, b@) == seq_lt(a@.skip(i as int), b@.skip(i as int)),
        decreases va.len() - i,
    {
        assert(a@.skip(i as int).drop_first() =~= a@.skip(i + 1));
        assert(b@.skip(i as int).drop_first() =~= b@.skip(i + 1));
        i = i + 1;
    }
    if i == va.len() {
        i < vb.len()
    } else if i == vb.len() {
        false
    } else {
        va[i] < vb[i]
    }
}

proof fn lemma_push_to_set<A>(s: Seq<A>, x: A)
    ensures
        s.push(x).to_set() == s.to_set().insert(x),
{
    assert forall|y: A| s.push(x).to_set().contains(y) <==> s.to_set().insert(x).contains(y) by {
        if s.push(x).to_set().contains(y) {
            let k = choose|k: int| 0 <= k < s.push(x).len() && s.push(x)[k] == y;
            if k < s.len() {
                assert(s[k] == y);
            }
        }
        if s.to_set().contains(y) {
            let k = choose|k: int| 0 <= k < s.len() && s[k] == y;
            assert(s.push(x)[k] == y);
        }
        if y == x {
            assert(s.push(x)[s.len() as int] == y);
        }
    }
    assert(s.push(x).to_set() =~= s.to_set().insert(x));
}

/// The distinct entries of `l` in increasing lexicographic order
/// (`sort` followed by `dedup`).
pub fn sorted_dedup(l: &Vec<String>) -> (r: Vec<String>)
    ensures
        strictly_sorted(r.deep_view()),
        r.deep_view().to_set() == l.deep_view().to_set(),
{
    let mut out: Vec<String> = Vec::new();
    let mut i: usize = 0;
    while i < l.len()
        invariant
            i <= l.len(),
            strictly_sorted(out.deep_view()),
            out.deep_view().to_set() == l.deep_view().take(i as int).to_set(),
        decreases l.len() - i,
    {
        let x = l[i].clone();
        let ghost xv = l[i as int]@;
        assert(x@ == xv);
        let mut p: usize = 0;
        while p < out.len() && str_lt(out[p].as_str(), x.as_str())
            invariant
                p <= out.len(),
                x@ == xv,
                forall|k: int| 0 <= k < p ==> seq_lt(#[trigger] out.deep_view()[k], xv),
            decreases out.len() - p,
        {
            p = p + 1;
        }
        let ghost before = out.deep_view();
        assert(l.deep_view().take(i + 1) =~= l.deep_view().take(i as int).push(xv));
        if p < out.len() && str_eq(out[p].as_str(), x.as_str()) {
            assert(before[p as int] == xv);
            assert(before.to_set() =~= before.to_set().insert(xv));
        } else {
            proof {
                if p < before.len() {
                    lemma_seq_lt_total(before[p as int], xv);
                }
            }
            out.insert(p, x);
            let ghost after = out.deep_view();
            assert(after =~= before.insert(p as int, xv));
            assert forall|a: int, b: int| 0 <= a < b < after.len() implies seq_lt(
                #[trigger] after[a],
                #[trigger] after[b],
            ) by {
                if b < p {
                    assert(after[a] == before[a] && after[b] == before[b]);
                } else if b == p {
                    assert(after[a] == before[a]);
                } else if a == p {
                    assert(after[b] == before[b - 1]);
                    if b - 1 > p {
                        assert(seq_lt(before[p as int], before[b - 1]));
                        lemma_seq_lt_trans(xv, before[p as int], before[b - 1]);
                    }
                } else if a < p {
                    assert(after[a] == before[a] && after[b] == before[b - 1]);
                } else {
                    assert(after[a] == before[a - 1] && after[b] == before[b - 1]);
                }
            }
            assert(after.to_set() =~= before.to_set().insert(xv)) by {
                assert forall|y: Seq<char>| after.to_set().contains(y) <==> before.to_set().insert(
                    xv,
                ).contains(y) by {
                    if after.to_set().contains(y) {
                        let k = choose|k: int| 0 <= k < after.len() && after[k] == y;
                        if k < p {
                            assert(before[k] == y);
                        } else if k > p {
                            assert(before[k - 1] == y);
                        }
                    }
                    if before.to_set().contains(y) {
                        let k = choose|k: int| 0 <= k < before.len() && before[k] == y;
                        if k < p {
                            assert(after[k] == y);
                        } else {
                            assert(after[k + 1] == y);
                        }
                    }
                    if y == xv {
                        assert(after[p as int] == y);
                    }
                }
            }
        }
        proof {
            lemma_push_to_set(l.deep_view().take(i as int), xv);
        }
        i = i + 1;
    }
    assert(l.deep_view().take(l.len() as int) =~= l.deep_view());
    out
}

/// The distinct entries of `l` in increasing lexicographic order.
pub open spec fn sorted_set_seq(l: Seq<Seq<char>>) -> Seq<Seq<char>> {
    choose|k: Seq<Seq<char>>| strictly_sorted(k) && k.to_set() == l.to_set()
}

proof fn lemma_strictly_sorted_drop_first_set(a: Seq<Seq<char>>)
    requires
        strictly_sorted(a),
        a.len() > 0,
    ensures
        a.drop_first().to_set() == a.to_set().remove(a[0]),
{
    assert forall|y: Seq<char>| a.drop_first().to_set().contains(y) <==> a.to_set().remove(
        a[0],
    ).contains(y) by {
        if a.drop_first().to_set().contains(y) {
            let k = choose|k: int| 0 <= k < a.drop_first().len() && a.drop_first()[k] == y;
            assert(a[k + 1] == y);
            assert(seq_lt(a[0], a[k + 1]));
            lemma_seq_lt_irrefl(y);
        }
        if a.to_set().remove(a[0]).contains(y) {
            let k = choose|k: int| 0 <= k < a.len() && a[k] == y;
            assert(k != 0);
            assert(a.drop_first()[k - 1] == y);
        }
    }
    assert(a.drop_first().to_set() =~= a.to_set().remove(a[0]));
}

/// Two strictly sorted sequences with the same elements are equal.
pub proof fn lemma_strictly_sorted_unique(a: Seq<Seq<char>>, b: Seq<Seq<char>>)
    requires
        strictly_sorted(a),
        strictly_sorted(b),
        a.to_set() == b.to_set(),
    ensures
        a == b,
    decreases a.len(),
{
    if a.len() == 0 {
        if b.len() > 0 {
            assert(b.to_set().contains(b[0]));
        }
        assert(a =~= b);
    } else {
        assert(a.to_set().contains(a[0]));
        let k = choose|k: int| 0 <= k < b.len() && b[k] == a[0];
        assert(b.to_set().contains(b[0]));
        let m = choose|m: int| 0 <= m < a.len() && a[m] == b[0];
        if k > 0 {
            assert(seq_lt(b[0], b[k]));
            if m > 0 {
                assert(seq_lt(a[0], a[m]));
                lemma_seq_lt_trans(a[0], b[0], a[0]);
            }
            lemma_seq_lt_irrefl(a[0]);
        }
        assert(a[0] == b[0]);
        lemma_strictly_sorted_drop_first_set(a);
        lemma_strictly_sorted_drop_first_set(b);
        assert(strictly_sorted(a.drop_first()));
        assert(strictly_sorted(b.drop_first()));
        lemma_strictly_sorted_unique(a.drop_first(), b.drop_first());
        assert(a =~= seq![a[0]] + a.drop_first());
        assert(b =~= seq![b[0]] + b.drop_first());
    }
}

/// `sorted_dedup` gives exactly `sorted_set_seq`.
pub fn sorted_set(l: &Vec<String>) -> (r: Vec<String>)
    ensures
        r.deep_view() == sorted_set_seq(l.deep_view()),
{
    let r = sorted_dedup(l);
    proof {
        let k = sorted_set_seq(l.deep_view());
        assert(strictly_sorted(k) && k.to_set() == l.deep_view().to_set());
        lemma_strictly_sorted_unique(r.deep_view(), k);
    }
    r
}

/// What `format!("{:?}", list)` gives for a list of strings.
pub uninterp spec fn debug_string_list(list: Seq<Seq<char>>) -> Seq<char>;

/// The `Debug` rendering of a list of strings (`format!("{:?}", list)`).
#[verifier::external_body]
pub fn debug_list(list: &Vec<String>) -> (r: String)
    ensures
        r@ == debug_string_list(list.deep_view()),
{
    format!("{:?}", list)
}

/// Trimming leaves alone a sequence that neither starts nor ends with whitespace.
pub proof fn lemma_trim_noop(s: Seq<char>)
    requires
        s.len() > 0,
        !is_ws(s[0]),
        !is_ws(s.last()),
    ensures
        trim_seq(s) == s,
{
    assert(trim_start_seq(s) == s);
    assert(trim_end_seq(s) == s);
}

/// Trimming the empty sequence gives the empty sequence.
pub proof fn lemma_trim_empty(s: Seq<char>)
    requires
        s.len() == 0,
    ensures
        trim_seq(s) == s,
{
    assert(trim_start_seq(s) == s);
    assert(trim_end_seq(s) == s);
}

/// The pieces of `s` between the occurrences of `c` (`str::split` with a char).
pub open spec fn split_seq(s: Seq<char>, c: char) -> Seq<Seq<char>>
    decreases s.len(),
{
    if s.len() == 0 {
        seq![Seq::<char>::empty()]
    } else {
        let prev = split_seq(s.drop_last(), c);
        if s.last() == c {
            prev.push(Seq::<char>::empty())
        } else {
            prev.update(prev.len() - 1, prev.last().push(s.last()))
        }
    }
}

/// `split_seq` always gives at least one piece.
pub proof fn lemma_split_nonempty(s: Seq<char>, c: char)
    ensures
        split_seq(s, c).len() >= 1,
    decreases s.len(),
{
    if s.len() > 0 {
        lemma_split_nonempty(s.drop_last(), c);
    }
}

/// The pieces of `s` between the occurrences of `c`.
pub fn split_char(s: &str, c: char) -> (r: Vec<String>)
    ensures
        r.deep_view() == split_seq(s@, c),
{
    let v = chars_of(s);
    let mut parts: Vec<String> = Vec::new();
    let mut cur = String::new();
    let mut i: usize = 0;
    while i < v.len()
        invariant
            v@ == s@,
            i <= v.len(),
            parts.deep_view().push(cur@) == split_seq(s@.take(i as int), c),
        decreases v.len() - i,
    {
        let ghost prev = split_seq(s@.take(i as int), c);
        assert(s@.take(i + 1).drop_last() =~= s@.take(i as int));
        assert(s@.take(i + 1).last() == v@[i as int]);
        if v[i] == c {
            let ghost old_parts = parts.deep_view();
            let done = cur;
            parts.push(done);
            cur = String::new();
            assert(parts.deep_view() =~= old_parts.push(done@));
            assert(parts.deep_view().push(cur@) =~= prev.push(Seq::<char>::empty()));
        } else {
            let ghost old_cur = cur@;
            push_char(&mut cur, v[i]);
            assert(parts.deep_view().push(cur@) =~= prev.update(prev.len() - 1, prev.last().push(v@[i as int])));
        }
        i = i + 1;
    }
    assert(s@.take(v.len() as int) =~= s@);
    let ghost pd = parts.deep_view();
    parts.push(cur);
    assert(parts.deep_view() =~= pd.push(cur@));
    parts
}

/// `s` with every `from` replaced by `to` (`str::replace` with single characters).
pub open spec fn replace_char_seq(s: Seq<char>, from: char, to: char) -> Seq<char> {
    s.map_values(|c: char| if c == from { to } else { c })
}

/// `s.replace(from, to)` for single characters.
pub fn replace_char(s: &str, from: char, to: char) -> (r: String)
    ensures
        r@ == replace_char_seq(s@, from, to),
{
    let v = chars_of(s);
    let mut out = String::new();
    let mut i: usize = 0;
    while i < v.len()
        invariant
            v@ == s@,
            i <= v.len(),
            out@ == replace_char_seq(s@.take(i as int), from, to),
        decreases v.len() - i,
    {
        let c = v[i];
        push_char(&mut out, if c == from { to } else { c });
        i = i + 1;
        assert(out@ =~= replace_char_seq(s@.take(i as int), from, to));
    }
    assert(s@.take(v.len() as int) =~= s@);
    out
}

/// Index of the first `c` in `s`, if any.
pub open spec fn find_char_seq(s: Seq<char>, c: char) -> Option<int>
    decreases s.len(),
{
    if s.len() == 0 {
        None
    } else if s[0] == c {
        Some(0)
    } else {
        match find_char_seq(s.drop_first(), c) {
            Some(i) => Some(i + 1),
            None => None,
        }
    }
}

/// `find_char_seq` gives the first index of `c`.
pub proof fn lemma_find_char(s: Seq<char>, c: char)
    ensures
        match find_char_seq(s, c) {
            Some(i) => 0 <= i < s.len() && s[i] == c && forall|j: int| 0 <= j < i ==> s[j] != c,
            None => forall|j: int| 0 <= j < s.len() ==> s[j] != c,
        },
    decreases s.len(),
{
    if s.len() > 0 {
        lemma_find_char(s.drop_first(), c);
        if s[0] != c {
            match find_char_seq(s.drop_first(), c) {
                Some(i) => {
                    assert forall|j: int| 0 <= j < i + 1 implies s[j] != c by {
                        if j > 0 {
                            assert(s[j] == s.drop_first()[j - 1]);
                        }
                    }
                },
                None => {
                    assert forall|j: int| 0 <= j < s.len() implies s[j] != c by {
                        if j > 0 {
                            assert(s[j] == s.drop_first()[j - 1]);
                        }
                    }
                },
            }
        }
    }
}

/// Index of the first `c` in `v`, if any.
pub fn find_char(v: &Vec<char>, c: char) -> (r: Option<usize>)
    ensures
        match r {
            Some(i) => find_char_seq(v@, c) == Some(i as int),
            None => find_char_seq(v@, c) is None,
        },
{
    let mut i: usize = 0;
    while i < v.len()
        invariant
            i <= v@.len(),
            forall|j: int| 0 <= j < i ==> v@[j] != c,
        decreases v@.len() - i,
    {
        if v[i] == c {
            proof {
                lemma_find_char(v@, c);
                match find_char_seq(v@, c) {
                    Some(k) => {
                        if k < i {
                            assert(v@[k] != c);
                        } else if k > i {
                            assert(v@[i as int] != c);
                        }
                    },
                    None => {
                        assert(v@[i as int] != c);
                    },
                }
            }
            return Some(i);
        }
        i = i + 1;
    }
    proof {
        lemma_find_char(v@, c);
        if let Some(k) = find_char_seq(v@, c) {
            assert(v@[k] != c);
        }
    }
    None
}

/// `needle` occurs in `s`.
pub open spec fn contains_seq(s: Seq<char>, needle: Seq<char>) -> bool {
    exists|i: int| 0 <= i <= s.len() - needle.len() && #[trigger] s.subrange(i, i + needle.len()) == needle
}

/// Whether `needle` occurs in `s` (`str::contains` with a str).
pub fn contains_text(s: &str, needle: &str) -> (r: bool)
    ensures
        r == contains_seq(s@, needle@),
{
    let v = chars_of(s);
    let n = chars_of(needle);
    if n.len() > v.len() {
        return false;
    }
    if n.len() == 0 {
        assert(s@.subrange(0int, 0int + needle@.len()) =~= needle@);
        return true;
    }
    let mut i: usize = 0;
    while i <= v.len() - n.len()
        invariant
            v@ == s@,
            n@ == needle@,
            1 <= n.len() <= v.len(),
            i <= v.len() - n.len() + 1,
            forall|k: int| 0 <= k < i ==> #[trigger] s@.subrange(k, k + n@.len()) != needle@,
        decreases v.len() - n.len() + 1 - i,
    {
        if vec_has_at(&v, i, &n) {
            assert(v@.skip(i as int).take(n@.len() as int) =~= s@.subrange(i as int, i + n@.len()));
            return true;
        }
        assert(v@.skip(i as int).take(n@.len() as int) =~= s@.subrange(i as int, i + n@.len()));
        i = i + 1;
    }
    false
}

/// Index of the last `c` in `s`, if any.
pub open spec fn rfind_char_seq(s: Seq<char>, c: char) -> Option<int>
    decreases s.len(),
{
    if s.len() == 0 {
        None
    } else if s.last() == c {
        Some(s.len() - 1)
    } else {
        rfind_char_seq(s.drop_last(), c)
    }
}

/// `rfind_char_seq` gives the last index of `c`.
pub proof fn lemma_rfind_char(s: Seq<char>, c: char)
    ensures
        match rfind_char_seq(s, c) {
            Some(i) => 0 <= i < s.len() && s[i] == c && forall|j: int| i < j < s.len() ==> s[j] != c,
            None => forall|j: int| 0 <= j < s.len() ==> s[j] != c,
        },
    decreases s.len(),
{
    if s.len() > 0 && s.last() != c {
        lemma_rfind_char(s.drop_last(), c);
        assert forall|j: int| 0 <= j < s.len() - 1 implies s[j] == s.drop_last()[j] by {}
    }
}

/// Index of the last `c` in `v`, if any.
pub fn rfind_char(v: &Vec<char>, c: char) -> (r: Option<usize>)
    ensures
        match r {
            Some(i) => rfind_char_seq(v@, c) == Some(i as int),
            None => rfind_char_seq(v@, c) is None,
        },
{
    let mut j: usize = v.len();
    assert(v@.take(v@.len() as int) =~= v@);
    while j > 0
        invariant
            j <= v@.len(),
            rfind_char_seq(v@, c) == rfind_char_seq(v@.take(j as int), c),
        decreases j,
    {
        assert(v@.take(j as int).last() == v@[j - 1]);
        if v[j - 1] == c {
            return Some(j - 1);
        }
        assert(v@.take(j as int).drop_last() =~= v@.take(j - 1));
        j = j - 1;
    }
    None
}

} // verus!
