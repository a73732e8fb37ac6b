//! Reading the head of an HTTP message: its lines, the words of a line, the
//! request line and the header fields, and the status of a response.
use vstd::prelude::*;
use crate::http::{from_utf8_lossy, path_and_query, parse_path_and_query, utf8_lossy};
use crate::text::{
    chars_of, find_char, find_char_seq, is_ws, is_ws_exec, lemma_find_char, lit, lower_seq, parse_uint,
    parse_uint_seq, push_char, split_char, split_seq, str_eq, string_of_range, trim_lower, trim, trim_seq,
};
use crate::text_map::TextMap;

verus! {

/// The largest request head or body the control room reads.
pub const MAX_HTTP_REQUEST_BYTES: usize = 1048576;

/// `s` without one trailing carriage return.
pub open spec fn strip_cr(s: Seq<char>) -> Seq<char> {
    if s.len() > 0 && s.last() == '\r' {
        s.drop_last()
    } else {
        s
    }
}

/// The lines of a text as `str::lines` gives them: split at each `\n`, a
/// `\r` before the `\n` dropped, and no empty line after a final `\n`.
pub open spec fn text_lines(t: Seq<char>) -> Seq<Seq<char>> {
    let p = split_seq(t, '\n');
    let body = p.drop_last().map_values(|x: Seq<char>| strip_cr(x));
    if p.last().len() == 0 {
        body
    } else {
        body.push(p.last())
    }
}

/// The pieces of `s` between whitespace characters, empty ones included.
pub open spec fn ws_split_seq(s: Seq<char>) -> Seq<Seq<char>>
    decreases s.len(),
{
    if s.len() == 0 {
        seq![Seq::<char>::empty()]
    } else {
        let prev = ws_split_seq(s.drop_last());
        if is_ws(s.last()) {
            prev.push(Seq::<char>::empty())
        } else {
            prev.update(prev.len() - 1, prev.last().push(s.last()))
        }
    }
}

/// The words of `s` as `str::split_whitespace` gives them.
pub open spec fn words_seq(s: Seq<char>) -> Seq<Seq<char>> {
    ws_split_seq(s).filter(|w: Seq<char>| w.len() > 0)
}

proof fn lemma_ws_split_nonempty(s: Seq<char>)
    ensures
        ws_split_seq(s).len() >= 1,
    decreases s.len(),
{
    if s.len() > 0 {
        lemma_ws_split_nonempty(s.drop_last());
    }
}

/// The words of `s`, in order.
pub fn split_words(s: &str) -> (r: Vec<String>)
    ensures
        r.deep_view() == words_seq(s@),
{
    let v = chars_of(s);
    let mut parts: Vec<String> = Vec::new();
    let mut cur = String::new();
    let mut i: usize = 0;
    while i < v.len()
        invariant
            v@ == s@,
            i <= v.len(),
            parts.deep_view().push(cur@) == ws_split_seq(s@.take(i as int)),
        decreases v.len() - i,
    {
        let ghost prev = ws_split_seq(s@.take(i as int));
        proof {
            lemma_ws_split_nonempty(s@.take(i as int));
        }
        assert(s@.take(i + 1).drop_last() =~= s@.take(i as int));
        assert(s@.take(i + 1).last() == v@[i as int]);
        if is_ws_exec(v[i]) {
            let ghost old_parts = parts.deep_view();
            let done = cur;
            parts.push(done);
            cur = String::new();
            assert(parts.deep_view() =~= old_parts.push(done@));
            assert(parts.deep_view().push(cur@) =~= prev.push(Seq::<char>::empty()));
        } else {
            push_char(&mut cur, v[i]);
            assert(parts.deep_view().push(cur@) =~= prev.update(prev.len() - 1, prev.last().push(v@[i as int])));
        }
        i = i + 1;
    }
    assert(s@.take(v.len() as int) =~= s@);
    let ghost pd = parts.deep_view();
    parts.push(cur);
    assert(parts.deep_view() =~= pd.push(cur@));
    let mut out: Vec<String> = Vec::new();
    let mut k: usize = 0;
    while k < parts.len()
        invariant
            k <= parts@.len(),
            parts.deep_view() == ws_split_seq(s@),
            out.deep_view() == parts.deep_view().take(k as int).filter(|w: Seq<char>| w.len() > 0),
        decreases parts@.len() - k,
    {
        reveal_with_fuel(Seq::<_>::filter, 1);
        let ghost pv = parts.deep_view();
        assert(pv.take(k + 1).drop_last() =~= pv.take(k as int));
        assert(pv.take(k + 1).last() == parts@[k as int]@);
        let ghost before = out.deep_view();
        if !parts[k].as_str().is_empty() {
            out.push(parts[k].clone());
            assert(out.deep_view() =~= before.push(parts@[k as int]@));
        }
        k = k + 1;
    }
    assert(parts.deep_view().take(parts@.len() as int) =~= parts.deep_view());
    out
}

/// The lines of a text.
pub fn split_lines(s: &str) -> (r: Vec<String>)
    ensures
        r.deep_view() == text_lines(s@),
{
    let pieces = split_char(s, '\n');
    proof {
        crate::text::lemma_split_nonempty(s@, '\n');
    }
    let n = pieces.len() - 1;
    let ghost p = pieces.deep_view();
    let mut out: Vec<String> = Vec::new();
    let mut i: usize = 0;
    while i < n
        invariant
            n + 1 == pieces@.len(),
            p == pieces.deep_view(),
            p == split_seq(s@, '\n'),
            i <= n,
            out.deep_view() == p.drop_last().take(i as int).map_values(|x: Seq<char>| strip_cr(x)),
        decreases n - i,
    {
        let v = chars_of(pieces[i].as_str());
        let line = if v.len() > 0 && v[v.len() - 1] == '\r' {
            string_of_range(&v, 0, v.len() - 1)
        } else {
            string_of_range(&v, 0, v.len())
        };
        proof {
            assert(p[i as int] == pieces@[i as int]@);
            if v@.len() > 0 && v@[v@.len() - 1] == '\r' {
                assert(line@ =~= strip_cr(p[i as int]));
            } else {
                assert(line@ =~= strip_cr(p[i as int]));
            }
        }
        let ghost before = out.deep_view();
        out.push(line);
        proof {
            assert(out.deep_view() =~= before.push(strip_cr(p[i as int])));
            assert(p.drop_last().take(i + 1) =~= p.drop_last().take(i as int).push(p[i as int]));
            assert(out.deep_view() =~= p.drop_last().take(i + 1).map_values(|x: Seq<char>| strip_cr(x)));
        }
        i = i + 1;
    }
    assert(p.drop_last().take(n as int) =~= p.drop_last());
    assert(pieces@[n as int]@ == p.last());
    if !pieces[n].as_str().is_empty() {
        let ghost before = out.deep_view();
        out.push(pieces[n].clone());
        assert(out.deep_view() =~= before.push(p.last()));
    }
    out
}


/// The name and value of a header line: the text before its first `:`,
/// trimmed and in ASCII lower case, and the trimmed text after it.
pub open spec fn header_pair(line: Seq<char>) -> Option<(Seq<char>, Seq<char>)> {
    match find_char_seq(line, ':') {
        Some(i) => Some((lower_seq(trim_seq(line.take(i))), trim_seq(line.skip(i + 1)))),
        None => None,
    }
}

/// The header fields of the lines, a later field of the same name winning.
pub open spec fn headers_map(lines: Seq<Seq<char>>) -> Map<Seq<char>, Seq<char>>
    decreases lines.len(),
{
    if lines.len() == 0 {
        Map::empty()
    } else {
        let m = headers_map(lines.drop_last());
        match header_pair(lines.last()) {
            Some((k, v)) => m.insert(k, v),
            None => m,
        }
    }
}

/// The method, the request target and the header fields of a request head,
/// or why it cannot be read.
pub open spec fn request_head(t: Seq<char>) -> Result<(Seq<char>, Seq<char>, Map<Seq<char>, Seq<char>>), Seq<char>> {
    let ls = text_lines(t);
    if ls.len() == 0 {
        Err("missing request line"@)
    } else {
        let w = words_seq(ls[0]);
        if w.len() == 0 {
            Err("missing method"@)
        } else if w.len() == 1 {
            Err("missing path"@)
        } else {
            Ok((w[0], w[1], headers_map(ls.drop_first())))
        }
    }
}

/// The body length that the header fields announce: the `content-length`
/// field read as a `usize`, else 0.
pub open spec fn announced_length(h: Map<Seq<char>, Seq<char>>) -> nat {
    if h.contains_key("content-length"@) && parse_uint_seq(h["content-length"@], usize::MAX as nat) is Some {
        parse_uint_seq(h["content-length"@], usize::MAX as nat)->0
    } else {
        0
    }
}

/// A request head, read.
pub struct RequestHead {
    pub method: String,
    pub path: String,
    pub query: TextMap,
    pub headers: TextMap,
    pub content_length: usize,
}

fn header_of_line(line: &str) -> (r: Option<(String, String)>)
    ensures
        match header_pair(line@) {
            Some((k, v)) => r matches Some((a, b)) && a@ == k && b@ == v,
            None => r is None,
        },
{
    let v = chars_of(line);
    proof {
        lemma_find_char(v@, ':');
    }
    match find_char(&v, ':') {
        Some(k) => {
            let name = string_of_range(&v, 0, k);
            let value = string_of_range(&v, k + 1, v.len());
            assert(name@ =~= v@.take(k as int));
            assert(value@ =~= v@.skip(k + 1));
            Some((trim_lower(name.as_str()), trim(value.as_str())))
        },
        None => None,
    }
}

fn headers_of(lines: &Vec<String>) -> (r: TextMap)
    requires
        lines@.len() >= 1,
    ensures
        r@ == headers_map(lines.deep_view().drop_first()),
{
    let mut out = TextMap::new();
    let ghost rest = lines.deep_view().drop_first();
    let mut i: usize = 1;
    while i < lines.len()
        invariant
            1 <= i <= lines@.len(),
            rest == lines.deep_view().drop_first(),
            out@ == headers_map(rest.take(i - 1)),
        decreases lines@.len() - i,
    {
        assert(rest.take(i as int).drop_last() =~= rest.take(i - 1));
        assert(rest.take(i as int).last() == lines@[i as int]@);
        match header_of_line(lines[i].as_str()) {
            Some((key, val)) => out.insert(key, val),
            None => {},
        }
        i = i + 1;
    }
    assert(rest.take(lines@.len() - 1) =~= rest);
    out
}

/// Reads a request head (the bytes up to and including the empty line),
/// decoded as `String::from_utf8_lossy` does: the request line gives the
/// method and the target, split into path and query; each line with a `:`
/// gives a header field. A body longer than 1 MiB is refused.
pub fn parse_request_head(head: &[u8]) -> (r: Result<RequestHead, String>)
    ensures
        match request_head(utf8_lossy(head@)) {
            Err(e) => r matches Err(x) && x@ == e,
            Ok((method, target, headers)) => if announced_length(headers) > MAX_HTTP_REQUEST_BYTES {
                r matches Err(x) && x@ == "body too large"@
            } else {
                r matches Ok(h) && h.method@ == method && h.path@ == path_and_query(target).0 && h.query@
                    == path_and_query(target).1 && h.headers@ == headers && h.content_length
                    == announced_length(headers)
            },
        },
{
    let text = from_utf8_lossy(head);
    let lines = split_lines(text.as_str());
    if lines.len() == 0 {
        return Err(lit("missing request line"));
    }
    assert(lines@[0]@ == lines.deep_view()[0]);
    let words = split_words(lines[0].as_str());
    if words.len() == 0 {
        return Err(lit("missing method"));
    }
    if words.len() == 1 {
        return Err(lit("missing path"));
    }
    assert(words@[0]@ == words.deep_view()[0]);
    assert(words@[1]@ == words.deep_view()[1]);
    let method = words[0].clone();
    let (path, query) = parse_path_and_query(words[1].as_str());
    let headers = headers_of(&lines);
    let content_length: usize = match headers.get("content-length") {
        Some(v) => match parse_uint(v.as_str(), usize::MAX as u64) {
            Some(n) => n as usize,
            None => 0,
        },
        None => 0,
    };
    if content_length > MAX_HTTP_REQUEST_BYTES {
        return Err(lit("body too large"));
    }
    Ok(RequestHead { method, path, query, headers, content_length })
}

/// The status code of a response head: the second word of its first line,
/// read as a `u16`.
pub open spec fn response_status(t: Seq<char>) -> Option<u16> {
    let ls = text_lines(t);
    if ls.len() == 0 {
        None
    } else {
        let w = words_seq(ls[0]);
        if w.len() < 2 {
            None
        } else {
            match parse_uint_seq(w[1], 65535) {
                Some(n) => Some(n as u16),
                None => None,
            }
        }
    }
}

/// The status code of a response head, decoded as
/// `String::from_utf8_lossy` does.
pub fn parse_response_status(head: &[u8]) -> (r: Option<u16>)
    ensures
        r == response_status(utf8_lossy(head@)),
{
    let text = from_utf8_lossy(head);
    let lines = split_lines(text.as_str());
    if lines.len() == 0 {
        return None;
    }
    assert(lines@[0]@ == lines.deep_view()[0]);
    let words = split_words(lines[0].as_str());
    if words.len() < 2 {
        return None;
    }
    assert(words@[1]@ == words.deep_view()[1]);
    match parse_uint(words[1].as_str(), 65535) {
        Some(n) => Some(n as u16),
        None => None,
    }
}

} // verus!
