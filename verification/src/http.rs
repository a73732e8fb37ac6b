//! HTTP request and response values of the control room, and the pure parts
//! of its routing: URL, path, query and role decisions.
use vstd::prelude::*;
use vstd::utf8::{decode_utf8, encode_utf8, valid_utf8};
use crate::text::{
    chars_of, contains_seq, contains_text, lower_seq, replace_char, replace_char_seq, to_lower,
    find_char, find_char_seq, lemma_find_char, lit, parse_uint, parse_uint_seq, split_char, split_seq,
    string_of_range, starts_with, starts_with_seq, ends_with, ends_with_seq, str_eq,
};
use crate::text_map::TextMap;

verus! {

/// Who may call an endpoint.
#[derive(Debug, Clone, Copy, PartialEq, Eq, Structural)]
pub enum AuthRole {
    Viewer,
    Operator,
    Admin,
}

/// An HTTP response ready to be written.
#[derive(Debug)]
pub struct HttpResponse {
    pub status: u16,
    pub reason: &'static str,
    pub content_type: &'static str,
    pub body: Vec<u8>,
}

/// The reason phrase sent with a status code.
pub open spec fn reason_phrase_spec(status: u16) -> Seq<char> {
    if status == 200 {
        "OK"@
    } else if status == 201 {
        "Created"@
    } else if status == 202 {
        "Accepted"@
    } else if status == 204 {
        "No Content"@
    } else if status == 400 {
        "Bad Request"@
    } else if status == 401 {
        "Unauthorized"@
    } else if status == 403 {
        "Forbidden"@
    } else if status == 404 {
        "Not Found"@
    } else if status == 409 {
        "Conflict"@
    } else if status == 500 {
        "Internal Server Error"@
    } else {
        "OK"@
    }
}

/// The reason phrase sent with a status code; unknown codes get `OK`.
pub fn reason_phrase(status: u16) -> (r: &'static str)
    ensures
        r@ == reason_phrase_spec(status),
{
    match status {
        200 => "OK",
        201 => "Created",
        202 => "Accepted",
        204 => "No Content",
        400 => "Bad Request",
        401 => "Unauthorized",
        403 => "Forbidden",
        404 => "Not Found",
        409 => "Conflict",
        500 => "Internal Server Error",
        _ => "OK",
    }
}

/// The UTF-8 bytes of `s`.
fn utf8_bytes(s: &str) -> (r: Vec<u8>)
    ensures
        r@ == encode_utf8(s@),
{
    vstd::slice::slice_to_vec(s.as_bytes())
}

impl HttpResponse {
    /// A plain-text response.
    pub fn text(status: u16, text: String) -> (r: HttpResponse)
        ensures
            r.status == status,
            r.reason@ == reason_phrase_spec(status),
            r.content_type@ == "text/plain; charset=utf-8"@,
            r.body@ == encode_utf8(text@),
    {
        HttpResponse {
            status,
            reason: reason_phrase(status),
            content_type: "text/plain; charset=utf-8",
            body: utf8_bytes(text.as_str()),
        }
    }

    /// An HTML response.
    pub fn html(status: u16, html: String) -> (r: HttpResponse)
        ensures
            r.status == status,
            r.reason@ == reason_phrase_spec(status),
            r.content_type@ == "text/html; charset=utf-8"@,
            r.body@ == encode_utf8(html@),
    {
        HttpResponse {
            status,
            reason: reason_phrase(status),
            content_type: "text/html; charset=utf-8",
            body: utf8_bytes(html.as_str()),
        }
    }

    /// A response with the given content type and body.
    pub fn with_content_type(status: u16, content_type: &'static str, body: Vec<u8>) -> (r: HttpResponse)
        ensures
            r.status == status,
            r.reason@ == reason_phrase_spec(status),
            r.content_type == content_type,
            r.body@ == body@,
    {
        HttpResponse { status, reason: reason_phrase(status), content_type, body }
    }
}

/// `needle` stands in `hay` at index `i`.
pub open spec fn window_at(hay: Seq<u8>, needle: Seq<u8>, i: int) -> bool {
    0 <= i && i + needle.len() <= hay.len() && hay.subrange(i, i + needle.len()) == needle
}

/// The first index at which a non-empty `needle` stands in `hay`.
pub fn find_subslice(hay: &[u8], needle: &[u8]) -> (r: Option<usize>)
    ensures
        match r {
            Some(i) => needle@.len() > 0 && window_at(hay@, needle@, i as int) && forall|j: int|
                0 <= j < i ==> !#[trigger] window_at(hay@, needle@, j),
            None => needle@.len() == 0 || forall|j: int| !#[trigger] window_at(hay@, needle@, j),
        },
{
    if needle.len() == 0 || hay.len() < needle.len() {
        return None;
    }
    let n = needle.len();
    let mut i: usize = 0;
    while i <= hay.len() - n
        invariant
            n == needle@.len() >= 1,
            n <= hay@.len(),
            i <= hay@.len() - n + 1,
            forall|j: int| 0 <= j < i ==> !#[trigger] window_at(hay@, needle@, j),
        decreases hay@.len() - n + 1 - i,
    {
        let mut k: usize = 0;
        let mut same = true;
        while k < n
            invariant
                n == needle@.len(),
                i + n <= hay.len(),
                k <= n,
                same == forall|m: int| 0 <= m < k ==> hay@[i + m] == needle@[m],
            decreases n - k,
        {
            if hay[i + k] != needle[k] {
                same = false;
            }
            k = k + 1;
        }
        if same {
            assert(hay@.subrange(i as int, i + n) =~= needle@);
            return Some(i);
        }
        assert(!window_at(hay@, needle@, i as int)) by {
            let m = choose|m: int| 0 <= m < n && hay@[i + m] != needle@[m];
            assert(hay@.subrange(i as int, i + n)[m] != needle@[m]);
        }
        i = i + 1;
    }
    None
}

/// The text that `String::from_utf8_lossy` makes of some bytes.
pub uninterp spec fn utf8_lossy(bytes: Seq<u8>) -> Seq<char>;

/// Calls `String::from_utf8_lossy`, which decodes the bytes as UTF-8 and puts
/// U+FFFD in place of each invalid sequence; bytes that are valid UTF-8 decode
/// as they are. What it makes of invalid bytes is named, not stated.
#[verifier::external_body]
pub(crate) fn from_utf8_lossy(bytes: &[u8]) -> (r: String)
    ensures
        r@ == utf8_lossy(bytes@),
        valid_utf8(bytes@) ==> r@ == decode_utf8(bytes@),
{
    String::from_utf8_lossy(bytes).into_owned()
}

/// Whether a request text, ignoring ASCII case, asks for a WebSocket upgrade
/// and carries a WebSocket key.
pub open spec fn websocket_upgrade_text(text: Seq<char>) -> bool {
    contains_seq(lower_seq(text), "upgrade: websocket"@) && contains_seq(lower_seq(text), "sec-websocket-key:"@)
}

/// Whether a request text, ignoring ASCII case, asks for a WebSocket upgrade
/// and carries a WebSocket key.
pub fn text_looks_like_websocket_upgrade(text: &str) -> (r: bool)
    ensures
        r == websocket_upgrade_text(text@),
{
    let lower = to_lower(text);
    contains_text(lower.as_str(), "upgrade: websocket") && contains_text(lower.as_str(), "sec-websocket-key:")
}

/// Whether the first bytes of a connection, read as text, ask for a WebSocket upgrade.
pub fn looks_like_websocket_upgrade(peek: &[u8]) -> (r: bool)
    ensures
        r == websocket_upgrade_text(utf8_lossy(peek@)),
{
    let text = from_utf8_lossy(peek);
    text_looks_like_websocket_upgrade(text.as_str())
}

/// Query values use `+` for a space; nothing else is decoded.
pub fn percentish_decode(value: &str) -> (r: String)
    ensures
        r@ == replace_char_seq(value@, '+', ' '),
{
    replace_char(value, '+', ' ')
}

/// The source ISSI of a legacy WAP push when the request names none.
pub fn default_legacy_wap_source_issi() -> (r: u32)
    ensures
        r == 4_010_001,
{
    4_010_001
}

/// The title of a legacy WAP push when the request names none.
pub fn default_legacy_wap_title() -> (r: String)
    ensures
        r@ == "NetCore"@,
{
    crate::text::lit("NetCore")
}

/// The message reference of a legacy WAP push when the request names none.
pub fn default_legacy_wap_message_reference() -> (r: u8)
    ensures
        r == 1,
{
    1
}

/// The key of one `key=value` query piece (the whole piece when it has no `=`).
pub open spec fn query_key(p: Seq<char>) -> Seq<char> {
    match find_char_seq(p, '=') {
        Some(i) => p.take(i),
        None => p,
    }
}

/// The value of one `key=value` query piece (`true` when it has no `=`).
pub open spec fn query_value(p: Seq<char>) -> Seq<char> {
    match find_char_seq(p, '=') {
        Some(i) => p.skip(i + 1),
        None => "true"@,
    }
}

/// The parameters that the `&`-separated pieces give, a later piece winning
/// over an earlier one with the same key; empty pieces are skipped.
pub open spec fn query_pieces_map(pieces: Seq<Seq<char>>) -> Map<Seq<char>, Seq<char>>
    decreases pieces.len(),
{
    if pieces.len() == 0 {
        Map::empty()
    } else {
        let m = query_pieces_map(pieces.drop_last());
        let p = pieces.last();
        if p.len() == 0 {
            m
        } else {
            m.insert(replace_char_seq(query_key(p), '+', ' '), replace_char_seq(query_value(p), '+', ' '))
        }
    }
}

/// The parameters of a query string.
pub open spec fn query_string_map(query: Seq<char>) -> Map<Seq<char>, Seq<char>> {
    query_pieces_map(split_seq(query, '&'))
}

/// Parses a query string into its parameters.
pub fn parse_query_string(query: &str) -> (r: TextMap)
    ensures
        r@ == query_string_map(query@),
{
    let pieces = split_char(query, '&');
    let mut out = TextMap::new();
    let mut i: usize = 0;
    while i < pieces.len()
        invariant
            i <= pieces@.len(),
            pieces.deep_view() == split_seq(query@, '&'),
            out@ == query_pieces_map(pieces.deep_view().take(i as int)),
        decreases pieces@.len() - i,
    {
        let ghost pv = pieces.deep_view();
        assert(pv.take(i + 1).drop_last() =~= pv.take(i as int));
        assert(pv.take(i + 1).last() == pieces@[i as int]@);
        let v = chars_of(pieces[i].as_str());
        if v.len() > 0 {
            proof {
                lemma_find_char(v@, '=');
            }
            let (key, value) = match find_char(&v, '=') {
                Some(k) => (string_of_range(&v, 0, k), string_of_range(&v, k + 1, v.len())),
                None => (string_of_range(&v, 0, v.len()), lit("true")),
            };
            assert(key@ =~= query_key(v@));
            assert(value@ =~= query_value(v@));
            out.insert(percentish_decode(key.as_str()), percentish_decode(value.as_str()));
        }
        i = i + 1;
    }
    assert(pieces.deep_view().take(pieces@.len() as int) =~= pieces.deep_view());
    out
}

/// The path of a raw request target and the parameters of its query.
pub open spec fn path_and_query(raw: Seq<char>) -> (Seq<char>, Map<Seq<char>, Seq<char>>) {
    match find_char_seq(raw, '?') {
        Some(i) => (raw.take(i), query_string_map(raw.skip(i + 1))),
        None => (raw, Map::empty()),
    }
}

/// Splits a raw request target at its first `?` into the path and the query parameters.
pub fn parse_path_and_query(raw_path: &str) -> (r: (String, TextMap))
    ensures
        r.0@ == path_and_query(raw_path@).0,
        r.1@ == path_and_query(raw_path@).1,
{
    let v = chars_of(raw_path);
    proof {
        lemma_find_char(v@, '?');
    }
    match find_char(&v, '?') {
        Some(i) => {
            let path = string_of_range(&v, 0, i);
            let q = string_of_range(&v, i + 1, v.len());
            assert(path@ =~= raw_path@.take(i as int));
            assert(q@ =~= raw_path@.skip(i + 1));
            (path, parse_query_string(q.as_str()))
        },
        None => {
            assert(v@.subrange(0, v@.len() as int) =~= raw_path@);
            let m = TextMap::new();
            assert(m@ =~= Map::<Seq<char>, Seq<char>>::empty());
            (string_of_range(&v, 0, v.len()), m)
        },
    }
}

/// An HTTP request as read from a connection.
pub struct HttpRequest {
    pub method: String,
    pub path: String,
    pub query: TextMap,
    pub headers: TextMap,
    pub body: Vec<u8>,
}

/// The number that query parameter `key` gives (as `str::parse::<usize>`
/// reads it), or `default`, but never more than `max`.
pub open spec fn query_usize_spec(q: Map<Seq<char>, Seq<char>>, key: Seq<char>, default: usize, max: usize) -> usize {
    let v: usize = if q.dom().contains(key) && parse_uint_seq(q[key], usize::MAX as nat) is Some {
        parse_uint_seq(q[key], usize::MAX as nat)->0 as usize
    } else {
        default
    };
    if v < max { v } else { max }
}

/// A numeric query parameter with a default and an upper bound.
pub fn query_usize(request: &HttpRequest, key: &str, default: usize, max: usize) -> (r: usize)
    ensures
        r == query_usize_spec(request.query@, key@, default, max),
{
    let v: usize = match request.query.get(key) {
        Some(s) => match parse_uint(s.as_str(), usize::MAX as u64) {
            Some(n) => n as usize,
            None => default,
        },
        None => default,
    };
    if v < max { v } else { max }
}

/// A flag query parameter: on for `1`, `true`, `yes` or `on`, off for any other
/// value, `default` when absent.
pub open spec fn query_bool_spec(q: Map<Seq<char>, Seq<char>>, key: Seq<char>, default: bool) -> bool {
    if q.dom().contains(key) {
        let v = q[key];
        v == "1"@ || v == "true"@ || v == "yes"@ || v == "on"@
    } else {
        default
    }
}

/// A flag query parameter.
pub fn query_bool(request: &HttpRequest, key: &str, default: bool) -> (r: bool)
    ensures
        r == query_bool_spec(request.query@, key@, default),
{
    match request.query.get(key) {
        Some(v) => str_eq(v.as_str(), "1") || str_eq(v.as_str(), "true") || str_eq(v.as_str(), "yes")
            || str_eq(v.as_str(), "on"),
        None => default,
    }
}

/// The non-empty `/`-separated segments of a path, in order.
pub open spec fn path_parts(s: Seq<char>) -> Seq<Seq<char>> {
    split_seq(s, '/').filter(|p: Seq<char>| p.len() > 0)
}

/// The non-empty `/`-separated segments of a path.
pub fn path_parts_of(s: &str) -> (r: Vec<String>)
    ensures
        r.deep_view() == path_parts(s@),
{
    let pieces = split_char(s, '/');
    let mut out: Vec<String> = Vec::new();
    let mut i: usize = 0;
    while i < pieces.len()
        invariant
            i <= pieces@.len(),
            pieces.deep_view() == split_seq(s@, '/'),
            out.deep_view() == pieces.deep_view().take(i as int).filter(|p: Seq<char>| p.len() > 0),
        decreases pieces@.len() - i,
    {
        reveal_with_fuel(Seq::<_>::filter, 1);
        let ghost pv = pieces.deep_view();
        assert(pv.take(i + 1).drop_last() =~= pv.take(i as int));
        assert(pv.take(i + 1).last() == pieces@[i as int]@);
        let ghost before = out.deep_view();
        if !pieces[i].as_str().is_empty() {
            out.push(pieces[i].clone());
            assert(out.deep_view() =~= before.push(pieces@[i as int]@));
        }
        i = i + 1;
    }
    assert(pieces.deep_view().take(pieces@.len() as int) =~= pieces.deep_view());
    out
}

/// `s` without the prefix `p`, when it starts with it.
pub open spec fn strip_prefix_seq(s: Seq<char>, p: Seq<char>) -> Option<Seq<char>> {
    if starts_with_seq(s, p) {
        Some(s.skip(p.len() as int))
    } else {
        None
    }
}

/// `s` without the prefix `p`, when it starts with it.
pub fn strip_prefix(s: &str, p: &str) -> (r: Option<String>)
    ensures
        match strip_prefix_seq(s@, p@) {
            Some(t) => r matches Some(x) && x@ == t,
            None => r is None,
        },
{
    if !starts_with(s, p) {
        return None;
    }
    let v = chars_of(s);
    let n = p.unicode_len();
    let rest = string_of_range(&v, n, v.len());
    assert(rest@ =~= s@.skip(p@.len() as int));
    Some(rest)
}

/// A user name and, for its password endpoint, `password`, taken from an
/// `/api/admin/users/...` path.
pub open spec fn admin_user_route(path: Seq<char>) -> Option<(Seq<char>, Option<Seq<char>>)> {
    match strip_prefix_seq(path, "/api/admin/users/"@) {
        Some(rest) => {
            let parts = path_parts(rest);
            if parts.len() == 1 {
                Some((parts[0], None))
            } else if parts.len() == 2 && parts[1] == "password"@ {
                Some((parts[0], Some("password"@)))
            } else {
                None
            }
        },
        None => None,
    }
}

/// Parses an `/api/admin/users/{username}[/password]` path.
pub fn parse_admin_user_route(path: &str) -> (r: Option<(String, Option<&'static str>)>)
    ensures
        match admin_user_route(path@) {
            Some((u, action)) => r matches Some((x, a)) && x@ == u && match action {
                Some(s) => a matches Some(y) && y@ == s,
                None => a is None,
            },
            None => r is None,
        },
{
    let rest = match strip_prefix(path, "/api/admin/users/") {
        Some(r) => r,
        None => return None,
    };
    let parts = path_parts_of(rest.as_str());
    assert(parts.deep_view().len() == parts@.len());
    if parts.len() == 1 {
        assert(parts@[0]@ == parts.deep_view()[0]);
        Some((parts[0].clone(), None))
    } else if parts.len() == 2 && str_eq(parts[1].as_str(), "password") {
        assert(parts@[0]@ == parts.deep_view()[0]);
        assert(parts@[1]@ == parts.deep_view()[1]);
        Some((parts[0].clone(), Some("password")))
    } else {
        proof {
            if parts@.len() == 2 {
                assert(parts@[1]@ == parts.deep_view()[1]);
            }
        }
        None
    }
}

/// A node and, when given, the collection of it that a detail request asks for.
pub struct NodeDetailRoute {
    pub node_id: String,
    pub collection: Option<String>,
}

/// The node and optional collection of an `/api/nodes/{node_id}[/{collection}]` path.
pub open spec fn node_detail_route(path: Seq<char>) -> Option<(Seq<char>, Option<Seq<char>>)> {
    match strip_prefix_seq(path, "/api/nodes/"@) {
        Some(rest) => {
            let parts = path_parts(rest);
            if parts.len() == 1 {
                Some((parts[0], None))
            } else if parts.len() == 2 {
                Some((parts[0], Some(parts[1])))
            } else {
                None
            }
        },
        None => None,
    }
}

/// Parses an `/api/nodes/{node_id}[/{collection}]` path.
pub fn parse_node_detail_route(path: &str) -> (r: Option<NodeDetailRoute>)
    ensures
        match node_detail_route(path@) {
            Some((n, c)) => r matches Some(x) && x.node_id@ == n && match c {
                Some(cc) => x.collection matches Some(y) && y@ == cc,
                None => x.collection is None,
            },
            None => r is None,
        },
{
    let rest = match strip_prefix(path, "/api/nodes/") {
        Some(r) => r,
        None => return None,
    };
    let parts = path_parts_of(rest.as_str());
    assert(parts.deep_view().len() == parts@.len());
    if parts.len() == 1 {
        assert(parts@[0]@ == parts.deep_view()[0]);
        Some(NodeDetailRoute { node_id: parts[0].clone(), collection: None })
    } else if parts.len() == 2 {
        assert(parts@[0]@ == parts.deep_view()[0]);
        assert(parts@[1]@ == parts.deep_view()[1]);
        Some(NodeDetailRoute { node_id: parts[0].clone(), collection: Some(parts[1].clone()) })
    } else {
        None
    }
}

/// A node and, when given, the shortcut of a command request to it.
pub struct NodeCommandRoute {
    pub node_id: String,
    pub shortcut: Option<String>,
}

/// The node and optional shortcut of an `/api/nodes/{node_id}/commands[/{shortcut}]` path.
pub open spec fn node_command_route(path: Seq<char>) -> Option<(Seq<char>, Option<Seq<char>>)> {
    match strip_prefix_seq(path, "/api/nodes/"@) {
        Some(rest) => {
            let parts = path_parts(rest);
            if (parts.len() == 2 || parts.len() == 3) && parts[1] == "commands"@ {
                Some((parts[0], if parts.len() == 3 { Some(parts[2]) } else { None }))
            } else {
                None
            }
        },
        None => None,
    }
}

/// Parses an `/api/nodes/{node_id}/commands[/{shortcut}]` path.
pub fn parse_node_command_route(path: &str) -> (r: Option<NodeCommandRoute>)
    ensures
        match node_command_route(path@) {
            Some((n, c)) => r matches Some(x) && x.node_id@ == n && match c {
                Some(cc) => x.shortcut matches Some(y) && y@ == cc,
                None => x.shortcut is None,
            },
            None => r is None,
        },
{
    let rest = match strip_prefix(path, "/api/nodes/") {
        Some(r) => r,
        None => return None,
    };
    let parts = path_parts_of(rest.as_str());
    assert(parts.deep_view().len() == parts@.len());
    if parts.len() < 2 || parts.len() > 3 {
        return None;
    }
    assert(parts@[0]@ == parts.deep_view()[0]);
    assert(parts@[1]@ == parts.deep_view()[1]);
    if !str_eq(parts[1].as_str(), "commands") {
        return None;
    }
    let shortcut = if parts.len() == 3 {
        assert(parts@[2]@ == parts.deep_view()[2]);
        Some(parts[2].clone())
    } else {
        None
    };
    Some(NodeCommandRoute { node_id: parts[0].clone(), shortcut })
}

/// The role that a request needs: user administration, service switching and
/// directory changes need an administrator; polling, incidents, the shift log
/// and commands an operator (restarting or shutting down a node service an
/// administrator); everything else a viewer.
pub open spec fn required_role(method: Seq<char>, path: Seq<char>) -> AuthRole {
    let post = method == "POST"@;
    if starts_with_seq(path, "/api/admin/users"@) || (post && starts_with_seq(path, "/api/v1/services/"@) && (
    ends_with_seq(path, "/enable"@) || ends_with_seq(path, "/disable"@))) || path == "/api/directory/import"@
        || path == "/api/directory/merge"@ || path == "/api/directory/refresh"@ {
        AuthRole::Admin
    } else if post && (path == "/api/v1/services/poll"@ || path == "/api/v1/incidents"@ || starts_with_seq(
        path,
        "/api/v1/incidents/"@,
    ) || path == "/api/v1/shift-log"@) {
        AuthRole::Operator
    } else if post && node_command_route(path) is Some {
        match node_command_route(path) {
            Some((_, shortcut)) => if shortcut == Some("restart-service"@) || shortcut == Some(
                "shutdown-service"@,
            ) {
                AuthRole::Admin
            } else {
                AuthRole::Operator
            },
            None => AuthRole::Viewer,
        }
    } else if post && path == "/api/commands"@ {
        AuthRole::Operator
    } else {
        AuthRole::Viewer
    }
}

/// The role that a request needs.
pub fn required_role_for_request(request: &HttpRequest) -> (r: AuthRole)
    ensures
        r == required_role(request.method@, request.path@),
{
    let path = request.path.as_str();
    let post = str_eq(request.method.as_str(), "POST");
    if starts_with(path, "/api/admin/users") || (post && starts_with(path, "/api/v1/services/") && (ends_with(
        path,
        "/enable",
    ) || ends_with(path, "/disable"))) || str_eq(path, "/api/directory/import") || str_eq(
        path,
        "/api/directory/merge",
    ) || str_eq(path, "/api/directory/refresh") {
        return AuthRole::Admin;
    }
    if post {
        if str_eq(path, "/api/v1/services/poll") || str_eq(path, "/api/v1/incidents") || starts_with(
            path,
            "/api/v1/incidents/",
        ) || str_eq(path, "/api/v1/shift-log") {
            return AuthRole::Operator;
        }
        if let Some(route) = parse_node_command_route(path) {
            return match &route.shortcut {
                Some(s) => {
                    if str_eq(s.as_str(), "restart-service") || str_eq(s.as_str(), "shutdown-service") {
                        AuthRole::Admin
                    } else {
                        AuthRole::Operator
                    }
                },
                None => AuthRole::Operator,
            };
        }
        if str_eq(path, "/api/commands") {
            return AuthRole::Operator;
        }
    }
    AuthRole::Viewer
}

/// Host, port and path of an `http://` URL: the authority ends at the first
/// `/` (the path is `/` when there is none); the port follows the first `:`
/// of the authority and must parse as a `u16`; it is 80 when not given.
pub open spec fn http_url_parts(url: Seq<char>) -> Option<(Seq<char>, u16, Seq<char>)> {
    match strip_prefix_seq(url, "http://"@) {
        Some(w) => {
            let authority = match find_char_seq(w, '/') {
                Some(i) => w.take(i),
                None => w,
            };
            let path = match find_char_seq(w, '/') {
                Some(i) => w.skip(i),
                None => "/"@,
            };
            match find_char_seq(authority, ':') {
                Some(j) => match parse_uint_seq(authority.skip(j + 1), 65535) {
                    Some(p) => Some((authority.take(j), p as u16, path)),
                    None => None,
                },
                None => Some((authority, 80u16, path)),
            }
        },
        None => None,
    }
}

/// Splits an `http://host[:port][/path]` URL into host, port and path.
pub fn parse_http_url(url: &str) -> (r: Option<(String, u16, String)>)
    ensures
        match http_url_parts(url@) {
            Some((h, p, path)) => r matches Some((x, q, y)) && x@ == h && q == p && y@ == path,
            None => r is None,
        },
{
    let w = match strip_prefix(url, "http://") {
        Some(w) => w,
        None => return None,
    };
    let v = chars_of(w.as_str());
    proof {
        lemma_find_char(v@, '/');
    }
    let (authority, path) = match find_char(&v, '/') {
        Some(i) => (string_of_range(&v, 0, i), string_of_range(&v, i, v.len())),
        None => {
            proof {
                reveal_strlit("/");
            }
            (string_of_range(&v, 0, v.len()), lit("/"))
        },
    };
    proof {
        match find_char_seq(v@, '/') {
            Some(i) => {
                assert(authority@ =~= w@.take(i));
                assert(path@ =~= w@.skip(i));
            },
            None => {
                assert(authority@ =~= w@);
            },
        }
    }
    let a = chars_of(authority.as_str());
    proof {
        lemma_find_char(a@, ':');
    }
    match find_char(&a, ':') {
        Some(j) => {
            let host = string_of_range(&a, 0, j);
            let port_text = string_of_range(&a, j + 1, a.len());
            assert(host@ =~= authority@.take(j as int));
            assert(port_text@ =~= authority@.skip(j + 1));
            match parse_uint(port_text.as_str(), 65535) {
                Some(p) => Some((host, p as u16, path)),
                None => None,
            }
        },
        None => {
            let host = string_of_range(&a, 0, a.len());
            assert(host@ =~= authority@);
            Some((host, 80, path))
        },
    }
}

/// The endpoints of the control room, as listed to a client that asked for an
/// unknown one: the fixed routes, then the two WebSocket paths.
pub open spec fn available_routes_spec(node_path: Seq<char>, ui_path: Seq<char>) -> Seq<Seq<char>> {
    seq![
        "GET /"@,
        "GET /health"@,
        "GET /health/live"@,
        "GET /health/ready"@,
        "GET /metrics"@,
        "GET /api/v1/status"@,
        "GET /openapi.json"@,
        "GET /api/v1/control-room/overview"@,
        "GET /api/v1/services"@,
        "POST /api/v1/services/poll"@,
        "GET /api/v1/incidents"@,
        "POST /api/v1/incidents"@,
        "GET /api/v1/shift-log"@,
        "POST /api/v1/shift-log"@,
        "GET /api/v1/dependencies"@,
        "GET /api/v1/config"@,
        "GET /api/v1/export"@,
        "GET /api/v1/openapi.json"@,
        "GET /api/overview"@,
        "GET /api/directory"@,
        "GET /api/subscribers?online=true"@,
        "GET /api/groups"@,
        "GET /api/calls"@,
        "GET /api/sds?limit=100"@,
        "GET /api/emergencies?active=true"@,
        "GET /api/locations"@,
        "GET /api/nodes"@,
        "GET /api/nodes/{node_id}"@,
        "GET /api/nodes/{node_id}/subscribers"@,
        "GET /api/nodes/{node_id}/groups"@,
        "GET /api/nodes/{node_id}/calls"@,
        "GET /api/nodes/{node_id}/sds"@,
        "GET /api/nodes/{node_id}/emergencies"@,
        "GET /api/nodes/{node_id}/locations"@,
        "GET /api/state"@,
        "GET /api/rf"@,
        "GET /api/health/full"@,
        "GET /api/packet-data"@,
        "GET /api/nodes/{node_id}/packet-data"@,
        "GET /api/events?limit=50&quiet=true"@,
        "GET /api/commands?limit=50"@,
        "POST /api/login"@,
        "GET /api/me"@,
        "GET /api/admin/users"@,
        "POST /api/admin/users"@,
        "PATCH /api/admin/users/{username}"@,
        "POST /api/admin/users/{username}/password"@,
        "DELETE /api/admin/users/{username}"@,
        "POST /api/commands"@,
        "POST /api/nodes/{node_id}/commands"@,
        "POST /api/nodes/{node_id}/commands/kick"@,
        "POST /api/nodes/{node_id}/commands/dgna"@,
        "POST /api/nodes/{node_id}/commands/clear-emergency"@,
        "POST /api/nodes/{node_id}/commands/legacy-wap"@,
    ] + seq!["WS "@ + node_path, "WS "@ + ui_path]
}

/// The endpoints listed in the answer to a request for an unknown one.
pub fn available_routes(node_path: &str, ui_path: &str) -> (r: Vec<String>)
    ensures
        r.deep_view() == available_routes_spec(node_path@, ui_path@),
{
    let mut out: Vec<String> = Vec::new();
    out.push(lit("GET /"));
    out.push(lit("GET /health"));
    out.push(lit("GET /health/live"));
    out.push(lit("GET /health/ready"));
    out.push(lit("GET /metrics"));
    out.push(lit("GET /api/v1/status"));
    out.push(lit("GET /openapi.json"));
    out.push(lit("GET /api/v1/control-room/overview"));
    out.push(lit("GET /api/v1/services"));
    out.push(lit("POST /api/v1/services/poll"));
    out.push(lit("GET /api/v1/incidents"));
    out.push(lit("POST /api/v1/incidents"));
    out.push(lit("GET /api/v1/shift-log"));
    out.push(lit("POST /api/v1/shift-log"));
    out.push(lit("GET /api/v1/dependencies"));
    out.push(lit("GET /api/v1/config"));
    out.push(lit("GET /api/v1/export"));
    out.push(lit("GET /api/v1/openapi.json"));
    out.push(lit("GET /api/overview"));
    out.push(lit("GET /api/directory"));
    out.push(lit("GET /api/subscribers?online=true"));
    out.push(lit("GET /api/groups"));
    out.push(lit("GET /api/calls"));
    out.push(lit("GET /api/sds?limit=100"));
    out.push(lit("GET /api/emergencies?active=true"));
    out.push(lit("GET /api/locations"));
    out.push(lit("GET /api/nodes"));
    out.push(lit("GET /api/nodes/{node_id}"));
    out.push(lit("GET /api/nodes/{node_id}/subscribers"));
    out.push(lit("GET /api/nodes/{node_id}/groups"));
    out.push(lit("GET /api/nodes/{node_id}/calls"));
    out.push(lit("GET /api/nodes/{node_id}/sds"));
    out.push(lit("GET /api/nodes/{node_id}/emergencies"));
    out.push(lit("GET /api/nodes/{node_id}/locations"));
    out.push(lit("GET /api/state"));
    out.push(lit("GET /api/rf"));
    out.push(lit("GET /api/health/full"));
    out.push(lit("GET /api/packet-data"));
    out.push(lit("GET /api/nodes/{node_id}/packet-data"));
    out.push(lit("GET /api/events?limit=50&quiet=true"));
    out.push(lit("GET /api/commands?limit=50"));
    out.push(lit("POST /api/login"));
    out.push(lit("GET /api/me"));
    out.push(lit("GET /api/admin/users"));
    out.push(lit("POST /api/admin/users"));
    out.push(lit("PATCH /api/admin/users/{username}"));
    out.push(lit("POST /api/admin/users/{username}/password"));
    out.push(lit("DELETE /api/admin/users/{username}"));
    out.push(lit("POST /api/commands"));
    out.push(lit("POST /api/nodes/{node_id}/commands"));
    out.push(lit("POST /api/nodes/{node_id}/commands/kick"));
    out.push(lit("POST /api/nodes/{node_id}/commands/dgna"));
    out.push(lit("POST /api/nodes/{node_id}/commands/clear-emergency"));
    out.push(lit("POST /api/nodes/{node_id}/commands/legacy-wap"));
    out.push(crate::text::concat("WS ", node_path));
    out.push(crate::text::concat("WS ", ui_path));
    assert(out.deep_view() =~= available_routes_spec(node_path@, ui_path@));
    out
}

/// The console page.
pub fn index_html(node_path: &str, ui_path: &str) -> (r: String)
    ensures
        r@ == crate::webui::PAGE_HEAD@ + node_path@ + crate::webui::PAGE_MIDDLE@ + ui_path@
            + crate::webui::PAGE_TAIL@,
{
    crate::webui::index_html(node_path, ui_path)
}

} // verus!
