//! The operations journal of the control room: incidents with their life
//! cycle, the shift log, and the monitored service snapshots.
use vstd::prelude::*;
use crate::text::{
    chars_of, concat, lit, lower_seq, opt_view, str_eq, string_of_range, trim, trim_lower, trim_seq,
    trim_end_char, trim_end_char_seq, push_str, push_dec, dec_seq,
};
use crate::cr_config::CoreServiceConfig;
use crate::text::{seq_lt, str_lt, find_char, find_char_seq, lemma_find_char, rfind_char, rfind_char_seq,
    lemma_rfind_char, parse_uint_seq, all_digits, is_digit, starts_with_seq};
use crate::http::{strip_prefix, strip_prefix_seq};

verus! {

/// A JSON value, carried through unread.
#[verifier::external_type_specification]
#[verifier::external_body]
pub struct ExJsonValue(serde_json::Value);

/// Calls `<serde_json::Value as Clone>::clone`; the clone is derived, so the
/// copy equals the original.
#[verifier::external_body]
pub fn clone_json(v: &serde_json::Value) -> (r: serde_json::Value)
    ensures
        r == *v,
{
    v.clone()
}

/// An ASCII decimal digit.
pub open spec fn is_digit_char(c: char) -> bool {
    '0' <= c && c <= '9'
}

/// RFC 3339 text of a UTC time with milliseconds and a `Z` suffix: a year of
/// at least four characters, then `-MM-DDTHH:MM:SS.mmmZ`.
pub open spec fn rfc3339_millis_utc_form(s: Seq<char>) -> bool {
    let n = s.len() as int;
    &&& n >= 24
    &&& s[n - 20] == '-' && s[n - 17] == '-' && s[n - 14] == 'T'
    &&& s[n - 11] == ':' && s[n - 8] == ':' && s[n - 5] == '.' && s[n - 1] == 'Z'
    &&& forall|i: int|
        n - 20 <= i < n - 1 && i != n - 20 && i != n - 17 && i != n - 14 && i != n - 11 && i != n - 8 && i
            != n - 5 ==> is_digit_char(#[trigger] s[i])
}

/// The current time as RFC 3339 text with milliseconds and a `Z` suffix.
/// Calls `chrono::Utc::now()` and `to_rfc3339_opts(SecondsFormat::Millis, true)`,
/// which writes the year in four digits (with a sign and more digits outside
/// 0-9999), then two-digit month, day, hour, minute and second, three digits
/// of milliseconds and `Z`. Which time it is, is the machine's: only the
/// form is stated.
#[verifier::external_body]
pub fn now_iso() -> (r: String)
    ensures
        rfc3339_millis_utc_form(r@),
{
    chrono::Utc::now().to_rfc3339_opts(chrono::SecondsFormat::Millis, true)
}

/// An ASCII hexadecimal digit in lower case.
pub open spec fn is_lower_hex(c: char) -> bool {
    ('0' <= c && c <= '9') || ('a' <= c && c <= 'f')
}

/// A fresh random identifier: `uuid::Uuid::new_v4()` in its simple form, which
/// the crate writes as 32 lower-case hexadecimal digits. Which digits come is
/// chance, so only the form is stated. `new_v4` panics when the system's
/// random source fails, which depends on the machine and is not ruled out.
#[verifier::external_body]
fn random_uuid_simple() -> (r: String)
    ensures
        r@.len() == 32,
        forall|i: int| 0 <= i < 32 ==> is_lower_hex(#[trigger] r@[i]),
{
    uuid::Uuid::new_v4().as_simple().to_string()
}

/// The form in which `uuid::Uuid` writes itself: 36 characters, lower-case
/// hexadecimal digits in groups of 8, 4, 4, 4 and 12 joined by `-`.
pub open spec fn uuid_text_form(s: Seq<char>) -> bool {
    &&& s.len() == 36
    &&& forall|i: int|
        0 <= i < 36 ==> if i == 8 || i == 13 || i == 18 || i == 23 {
            #[trigger] s[i] == '-'
        } else {
            is_lower_hex(s[i])
        }
}

/// A fresh random identifier: `uuid::Uuid::new_v4()` written by its
/// `Display`, which the crate hands to its hyphenated lower-case form. Which
/// digits come is chance, so only the form is stated. `new_v4` panics when
/// the system's random source fails, which depends on the machine and is not
/// ruled out.
#[verifier::external_body]
pub(crate) fn random_uuid_text() -> (r: String)
    ensures
        uuid_text_form(r@),
{
    uuid::Uuid::new_v4().to_string()
}

/// `s` is `prefix` followed by a fresh identifier of 32 lower-case hex digits.
pub open spec fn is_fresh_id(s: Seq<char>, prefix: Seq<char>) -> bool {
    &&& s.len() == prefix.len() + 32
    &&& s.take(prefix.len() as int) == prefix
    &&& forall|i: int| prefix.len() <= i < s.len() ==> is_lower_hex(#[trigger] s[i])
}

/// A fresh identifier with the given prefix, such as `inc_` or `note_`.
pub fn fresh_id(prefix: &str) -> (r: String)
    ensures
        is_fresh_id(r@, prefix@),
{
    let u = random_uuid_simple();
    let r = concat(prefix, u.as_str());
    assert(r@.take(prefix@.len() as int) =~= prefix@);
    assert forall|i: int| prefix@.len() <= i < r@.len() implies is_lower_hex(#[trigger] r@[i]) by {
        assert(r@[i] == u@[i - prefix@.len()]);
    }
    r
}

/// A note on an incident.
#[derive(Debug)]
pub struct IncidentNote {
    pub id: String,
    pub timestamp: String,
    pub operator_id: String,
    pub text: String,
}

/// An incident: opened by an operator or by service monitoring, then
/// acknowledged and resolved.
#[derive(Debug)]
pub struct IncidentRecord {
    pub id: String,
    pub source_key: Option<String>,
    pub severity: String,
    pub status: String,
    pub title: String,
    pub description: String,
    pub service: Option<String>,
    pub node_id: Option<String>,
    pub issi: Option<u32>,
    pub gssi: Option<u32>,
    pub created_at: String,
    pub created_by: String,
    pub acknowledged_at: Option<String>,
    pub acknowledged_by: Option<String>,
    pub resolved_at: Option<String>,
    pub resolved_by: Option<String>,
    pub notes: Vec<IncidentNote>,
}

/// An entry of the shift log.
#[derive(Debug)]
pub struct ShiftLogEntry {
    pub id: String,
    pub timestamp: String,
    pub operator_id: String,
    pub category: String,
    pub text: String,
}

/// A request to open an incident.
#[derive(Debug)]
pub struct CreateIncidentRequest {
    pub severity: Option<String>,
    pub title: String,
    pub description: Option<String>,
    pub operator_id: Option<String>,
    pub service: Option<String>,
    pub node_id: Option<String>,
    pub issi: Option<u32>,
    pub gssi: Option<u32>,
}

/// A request to acknowledge or resolve an incident.
#[derive(Debug, Default)]
pub struct IncidentActionRequest {
    pub operator_id: Option<String>,
    pub note: Option<String>,
}

/// A request to add a note to an incident.
#[derive(Debug)]
pub struct IncidentNoteRequest {
    pub operator_id: Option<String>,
    pub text: String,
}

/// A request to add a shift log entry.
#[derive(Debug)]
pub struct ShiftLogRequest {
    pub operator_id: Option<String>,
    pub category: Option<String>,
    pub text: String,
}

/// The operator name recorded: trimmed, at most 64 characters, and
/// `operator` when blank.
pub open spec fn operator_name(value: Seq<char>) -> Seq<char> {
    let t = trim_seq(value);
    if t.len() == 0 {
        "operator"@
    } else if t.len() <= 64 {
        t
    } else {
        t.take(64)
    }
}

/// The operator name recorded for `value`.
pub fn normalise_operator(value: &str) -> (r: String)
    ensures
        r@ == operator_name(value@),
{
    let t = trim(value);
    if t.as_str().is_empty() {
        return lit("operator");
    }
    let v = chars_of(t.as_str());
    if v.len() <= 64 {
        assert(v@.subrange(0, v@.len() as int) =~= v@);
        string_of_range(&v, 0, v.len())
    } else {
        assert(v@.subrange(0, 64) =~= v@.take(64));
        string_of_range(&v, 0, 64)
    }
}

/// The severity recorded: `info`, `warning` (also for `warn` and anything
/// unknown) or `critical` (also for `emergency`), read trimmed and ignoring
/// ASCII case.
pub open spec fn severity_name(value: Seq<char>) -> Seq<char> {
    let v = lower_seq(trim_seq(value));
    if v == "info"@ {
        "info"@
    } else if v == "critical"@ || v == "emergency"@ {
        "critical"@
    } else {
        "warning"@
    }
}

/// The severity recorded for `value`.
pub fn normalise_severity(value: &str) -> (r: String)
    ensures
        r@ == severity_name(value@),
{
    let v = trim_lower(value);
    proof {
        reveal_strlit("info");
        reveal_strlit("warning");
        reveal_strlit("warn");
        reveal_strlit("critical");
        reveal_strlit("emergency");
        assert("warning"@.len() == 7 && "info"@.len() == 4 && "critical"@.len() == 8);
        assert("emergency"@.len() == 9 && "warn"@.len() == 4);
        assert("warn"@[0] != "info"@[0]);
    }
    if str_eq(v.as_str(), "info") {
        lit("info")
    } else if str_eq(v.as_str(), "warning") || str_eq(v.as_str(), "warn") {
        lit("warning")
    } else if str_eq(v.as_str(), "critical") || str_eq(v.as_str(), "emergency") {
        lit("critical")
    } else {
        lit("warning")
    }
}

/// The trimmed text, when it is not blank.
pub open spec fn non_empty_seq(value: Seq<char>) -> Option<Seq<char>> {
    if trim_seq(value).len() == 0 {
        None
    } else {
        Some(trim_seq(value))
    }
}

/// The trimmed text, when it is not blank.
pub fn non_empty_string(value: String) -> (r: Option<String>)
    ensures
        opt_view(r) == non_empty_seq(value@),
{
    let t = trim(value.as_str());
    if t.as_str().is_empty() {
        None
    } else {
        Some(t)
    }
}

/// An optional text, trimmed, and absent when blank.
pub open spec fn clean_optional_seq(value: Option<Seq<char>>) -> Option<Seq<char>> {
    match value {
        Some(v) => non_empty_seq(v),
        None => None,
    }
}

/// An optional text, trimmed, and absent when blank.
pub fn clean_optional(value: Option<String>) -> (r: Option<String>)
    ensures
        opt_view(r) == clean_optional_seq(opt_view(value)),
{
    match value {
        Some(v) => non_empty_string(v),
        None => None,
    }
}

/// How many of the newest entries a journal keeps: `limit`, but at least 100.
pub open spec fn journal_keep(limit: usize) -> int {
    if limit < 100 { 100 } else { limit as int }
}

/// The newest `journal_keep(limit)` entries of `s`, oldest first.
pub open spec fn keep_newest<T>(s: Seq<T>, limit: usize) -> Seq<T> {
    if s.len() > journal_keep(limit) {
        s.skip(s.len() - journal_keep(limit))
    } else {
        s
    }
}

fn drop_oldest<T>(v: &mut Vec<T>, limit: usize)
    ensures
        final(v)@ == keep_newest(old(v)@, limit),
{
    let keep: usize = if limit < 100 { 100 } else { limit };
    if v.len() > keep {
        let remove = v.len() - keep;
        let kept = v.split_off(remove);
        *v = kept;
    }
}

/// Keeps the newest incidents: `limit` of them, but at least 100.
pub fn trim_incidents(incidents: &mut Vec<IncidentRecord>, limit: usize)
    ensures
        final(incidents)@ == keep_newest(old(incidents)@, limit),
{
    drop_oldest(incidents, limit);
}

/// Keeps the newest shift log entries: `limit` of them, but at least 100.
pub fn trim_shift_log(entries: &mut Vec<ShiftLogEntry>, limit: usize)
    ensures
        final(entries)@ == keep_newest(old(entries)@, limit),
{
    drop_oldest(entries, limit);
}

/// The state of one monitored core service.
#[derive(Debug)]
pub struct ServiceSnapshot {
    pub name: String,
    pub display_name: String,
    pub kind: String,
    pub base_url: String,
    pub webui_url: String,
    pub critical: bool,
    pub enabled: bool,
    pub status: String,
    pub live: Option<bool>,
    pub ready: Option<bool>,
    pub checked_at: Option<String>,
    pub last_success_at: Option<String>,
    pub latency_ms: Option<u64>,
    pub consecutive_failures: u32,
    pub http_status: Option<u16>,
    pub message: Option<String>,
    pub health: Option<serde_json::Value>,
    pub readiness: Option<serde_json::Value>,
    pub summary: Option<serde_json::Value>,
}

impl Default for ServiceSnapshot {
    /// An unnamed enabled core service of unknown state.
    fn default() -> (r: ServiceSnapshot)
        ensures
            r.name@.len() == 0 && r.display_name@.len() == 0,
            r.kind@ == "core"@,
            r.base_url@.len() == 0 && r.webui_url@.len() == 0,
            !r.critical && r.enabled,
            r.status@ == "unknown"@,
            r.live is None && r.ready is None,
            r.checked_at is None && r.last_success_at is None,
            r.latency_ms is None,
            r.consecutive_failures == 0,
            r.http_status is None,
            r.message is None,
            r.health is None && r.readiness is None && r.summary is None,
    {
        ServiceSnapshot {
            name: String::new(),
            display_name: String::new(),
            kind: lit("core"),
            base_url: String::new(),
            webui_url: String::new(),
            critical: false,
            enabled: true,
            status: lit("unknown"),
            live: None,
            ready: None,
            checked_at: None,
            last_success_at: None,
            latency_ms: None,
            consecutive_failures: 0,
            http_status: None,
            message: None,
            health: None,
            readiness: None,
            summary: None,
        }
    }
}

/// The persisted operations journal and service states.
pub struct OperationsState {
    pub schema_version: u32,
    pub started_at: String,
    pub updated_at: String,
    /// The service states, one per service name.
    pub services: Vec<ServiceSnapshot>,
    pub incidents: Vec<IncidentRecord>,
    pub shift_log: Vec<ShiftLogEntry>,
    pub last_poll_started_at: Option<String>,
    pub last_poll_finished_at: Option<String>,
    pub poll_in_progress: bool,
    pub poll_count: u64,
}

impl OperationsState {
    /// An empty journal started at `now`.
    pub fn new_at(now: String) -> (r: OperationsState)
        ensures
            r.schema_version == 1,
            r.started_at == now,
            r.updated_at == now,
            r.services@.len() == 0,
            r.incidents@.len() == 0,
            r.shift_log@.len() == 0,
            r.last_poll_started_at is None,
            r.last_poll_finished_at is None,
            !r.poll_in_progress,
            r.poll_count == 0,
    {
        OperationsState {
            schema_version: 1,
            started_at: now.clone(),
            updated_at: now,
            services: Vec::new(),
            incidents: Vec::new(),
            shift_log: Vec::new(),
            last_poll_started_at: None,
            last_poll_finished_at: None,
            poll_in_progress: false,
            poll_count: 0,
        }
    }
}

impl Default for OperationsState {
    /// An empty journal started now.
    fn default() -> (r: OperationsState)
        ensures
            r.schema_version == 1,
            r.started_at == r.updated_at,
            r.services@.len() == 0,
            r.incidents@.len() == 0,
            r.shift_log@.len() == 0,
            !r.poll_in_progress,
            r.poll_count == 0,
    {
        OperationsState::new_at(now_iso())
    }
}

fn clone_note(n: &IncidentNote) -> (r: IncidentNote)
    ensures
        r == *n,
{
    IncidentNote {
        id: n.id.clone(),
        timestamp: n.timestamp.clone(),
        operator_id: n.operator_id.clone(),
        text: n.text.clone(),
    }
}

fn clone_opt(o: &Option<String>) -> (r: Option<String>)
    ensures
        r == *o,
{
    match o {
        Some(s) => Some(s.clone()),
        None => None,
    }
}

/// `a` and `b` hold the same incident.
pub open spec fn same_incident(a: IncidentRecord, b: IncidentRecord) -> bool {
    &&& a.id == b.id
    &&& a.source_key == b.source_key
    &&& a.severity == b.severity
    &&& a.status == b.status
    &&& a.title == b.title
    &&& a.description == b.description
    &&& a.service == b.service
    &&& a.node_id == b.node_id
    &&& a.issi == b.issi
    &&& a.gssi == b.gssi
    &&& a.created_at == b.created_at
    &&& a.created_by == b.created_by
    &&& a.acknowledged_at == b.acknowledged_at
    &&& a.acknowledged_by == b.acknowledged_by
    &&& a.resolved_at == b.resolved_at
    &&& a.resolved_by == b.resolved_by
    &&& a.notes@ == b.notes@
}

fn clone_incident(a: &IncidentRecord) -> (r: IncidentRecord)
    ensures
        same_incident(*a, r),
{
    let mut notes: Vec<IncidentNote> = Vec::new();
    let mut i: usize = 0;
    while i < a.notes.len()
        invariant
            i <= a.notes@.len(),
            notes@ == a.notes@.take(i as int),
        decreases a.notes@.len() - i,
    {
        notes.push(clone_note(&a.notes[i]));
        i = i + 1;
        assert(notes@ =~= a.notes@.take(i as int));
    }
    assert(a.notes@.take(a.notes@.len() as int) =~= a.notes@);
    IncidentRecord {
        id: a.id.clone(),
        source_key: clone_opt(&a.source_key),
        severity: a.severity.clone(),
        status: a.status.clone(),
        title: a.title.clone(),
        description: a.description.clone(),
        service: clone_opt(&a.service),
        node_id: clone_opt(&a.node_id),
        issi: a.issi,
        gssi: a.gssi,
        created_at: a.created_at.clone(),
        created_by: a.created_by.clone(),
        acknowledged_at: clone_opt(&a.acknowledged_at),
        acknowledged_by: clone_opt(&a.acknowledged_by),
        resolved_at: clone_opt(&a.resolved_at),
        resolved_by: clone_opt(&a.resolved_by),
        notes,
    }
}

/// Index of the first incident with the given id.
pub open spec fn find_incident(l: Seq<IncidentRecord>, id: Seq<char>) -> Option<int>
    decreases l.len(),
{
    if l.len() == 0 {
        None
    } else if l[0].id@ == id {
        Some(0)
    } else {
        match find_incident(l.drop_first(), id) {
            Some(i) => Some(i + 1),
            None => None,
        }
    }
}

proof fn lemma_find_incident(l: Seq<IncidentRecord>, id: Seq<char>)
    ensures
        match find_incident(l, id) {
            Some(i) => 0 <= i < l.len() && l[i].id@ == id && forall|j: int| 0 <= j < i ==> l[j].id@ != id,
            None => forall|j: int| 0 <= j < l.len() ==> l[j].id@ != id,
        },
    decreases l.len(),
{
    if l.len() > 0 {
        lemma_find_incident(l.drop_first(), id);
        if l[0].id@ != id {
            assert forall|j: int| 0 < j < l.len() implies l[j] == l.drop_first()[j - 1] by {}
        }
    }
}

fn position_of(l: &Vec<IncidentRecord>, id: &str) -> (r: Option<usize>)
    ensures
        match r {
            Some(i) => find_incident(l@, id@) == Some(i as int) && i < l@.len(),
            None => find_incident(l@, id@) is None,
        },
{
    let mut i: usize = 0;
    while i < l.len()
        invariant
            i <= l@.len(),
            forall|j: int| 0 <= j < i ==> l@[j].id@ != id@,
        decreases l@.len() - i,
    {
        if str_eq(l[i].id.as_str(), id) {
            proof {
                lemma_find_incident(l@, id@);
                match find_incident(l@, id@) {
                    Some(k) => {
                        if k > i {
                            assert(l@[i as int].id@ == id@);
                        }
                    },
                    None => {
                        assert(l@[i as int].id@ == id@);
                    },
                }
            }
            return Some(i);
        }
        i = i + 1;
    }
    proof {
        lemma_find_incident(l@, id@);
        if let Some(k) = find_incident(l@, id@) {
            assert(l@[k].id@ == id@);
        }
    }
    None
}

/// The text of the error for an incident id that the journal does not hold.
pub open spec fn unknown_incident_error(id: Seq<char>) -> Seq<char> {
    "unknown incident '"@ + id + "'"@
}

fn unknown_incident(id: &str) -> (r: String)
    ensures
        r@ == unknown_incident_error(id@),
{
    let a = concat("unknown incident '", id);
    concat(a.as_str(), "'")
}

/// The operator that a request names, in the recorded form.
pub open spec fn request_operator(operator_id: Option<String>) -> Seq<char> {
    operator_name(
        match operator_id {
            Some(o) => o@,
            None => "operator"@,
        },
    )
}

fn operator_of(operator_id: &Option<String>) -> (r: String)
    ensures
        r@ == request_operator(*operator_id),
{
    match operator_id {
        Some(o) => normalise_operator(o.as_str()),
        None => normalise_operator("operator"),
    }
}

/// `n` is the note list `o` with, when there is a note text, one note appended.
pub open spec fn notes_after(
    o: Seq<IncidentNote>,
    n: Seq<IncidentNote>,
    note: Option<Seq<char>>,
    note_id: Seq<char>,
    now: Seq<char>,
    operator: Seq<char>,
) -> bool {
    match note {
        Some(t) => {
            &&& n.len() == o.len() + 1
            &&& n.take(o.len() as int) == o
            &&& n.last().id@ == note_id
            &&& n.last().timestamp@ == now
            &&& n.last().operator_id@ == operator
            &&& n.last().text@ == t
        },
        None => n == o,
    }
}

/// `n` is the incident `o` with only its status, the given acknowledgement
/// or resolution fields, and its notes changed.
pub open spec fn same_except_progress(o: IncidentRecord, n: IncidentRecord) -> bool {
    &&& n.id == o.id
    &&& n.source_key == o.source_key
    &&& n.severity == o.severity
    &&& n.title == o.title
    &&& n.description == o.description
    &&& n.service == o.service
    &&& n.node_id == o.node_id
    &&& n.issi == o.issi
    &&& n.gssi == o.gssi
    &&& n.created_at == o.created_at
    &&& n.created_by == o.created_by
}

/// `n` is `o` acknowledged at `now` by `operator`, with the note `note` if any.
pub open spec fn acknowledged(
    o: IncidentRecord,
    n: IncidentRecord,
    operator: Seq<char>,
    now: Seq<char>,
    note: Option<Seq<char>>,
    note_id: Seq<char>,
) -> bool {
    &&& same_except_progress(o, n)
    &&& n.status@ == "acknowledged"@
    &&& opt_view(n.acknowledged_at) == Some(now)
    &&& opt_view(n.acknowledged_by) == Some(operator)
    &&& n.resolved_at == o.resolved_at
    &&& n.resolved_by == o.resolved_by
    &&& notes_after(o.notes@, n.notes@, note, note_id, now, operator)
}

/// `n` is `o` resolved at `now` by `operator`, with the note `note` if any.
pub open spec fn resolved(
    o: IncidentRecord,
    n: IncidentRecord,
    operator: Seq<char>,
    now: Seq<char>,
    note: Option<Seq<char>>,
    note_id: Seq<char>,
) -> bool {
    &&& same_except_progress(o, n)
    &&& n.status@ == "resolved"@
    &&& n.acknowledged_at == o.acknowledged_at
    &&& n.acknowledged_by == o.acknowledged_by
    &&& opt_view(n.resolved_at) == Some(now)
    &&& opt_view(n.resolved_by) == Some(operator)
    &&& notes_after(o.notes@, n.notes@, note, note_id, now, operator)
}

/// The note text of an action request, when it is not blank.
pub open spec fn action_note(request: IncidentActionRequest) -> Option<Seq<char>> {
    match request.note {
        Some(t) => non_empty_seq(t@),
        None => None,
    }
}

fn push_note(notes: &mut Vec<IncidentNote>, note: Option<String>, note_id: String, now: String, operator: String)
    ensures
        notes_after(old(notes)@, final(notes)@, opt_view(note), note_id@, now@, operator@),
{
    if let Some(text) = note {
        let ghost before = notes@;
        notes.push(IncidentNote { id: note_id, timestamp: now, operator_id: operator, text });
        assert(notes@.take(before.len() as int) =~= before);
    }
}

/// `n` has the fields of `o` other than the incidents and the update time.
pub open spec fn rest_unchanged(o: OperationsState, n: OperationsState) -> bool {
    &&& n.schema_version == o.schema_version
    &&& n.started_at == o.started_at
    &&& n.services == o.services
    &&& n.shift_log == o.shift_log
    &&& n.last_poll_started_at == o.last_poll_started_at
    &&& n.last_poll_finished_at == o.last_poll_finished_at
    &&& n.poll_in_progress == o.poll_in_progress
    &&& n.poll_count == o.poll_count
}

/// The incident at `i` changed as `step` says, the others and the rest of the
/// state kept, and the update time set to `now`.
pub open spec fn incident_updated(
    o: OperationsState,
    n: OperationsState,
    i: int,
    now: Seq<char>,
) -> bool {
    &&& rest_unchanged(o, n)
    &&& n.incidents@.len() == o.incidents@.len()
    &&& forall|j: int| 0 <= j < o.incidents@.len() && j != i ==> n.incidents@[j] == o.incidents@[j]
    &&& n.updated_at@ == now
}

/// The state is left as it was.
pub open spec fn unchanged(o: OperationsState, n: OperationsState) -> bool {
    &&& rest_unchanged(o, n)
    &&& n.incidents@ == o.incidents@
    &&& n.updated_at == o.updated_at
}

/// What acknowledging incident `id` does to the state `o`, giving `n` and the
/// answer `r`: an unknown id and a resolved incident are refused and change
/// nothing; otherwise the incident is acknowledged at `now`.
pub open spec fn acknowledge_outcome(
    o: OperationsState,
    n: OperationsState,
    id: Seq<char>,
    request: IncidentActionRequest,
    now: Seq<char>,
    note_id: Seq<char>,
    r: Result<IncidentRecord, String>,
) -> bool {
    match find_incident(o.incidents@, id) {
        None => r matches Err(e) && e@ == unknown_incident_error(id) && unchanged(o, n),
        Some(i) => if o.incidents@[i].status@ == "resolved"@ {
            r matches Err(e) && e@ == "resolved incident cannot be acknowledged"@ && unchanged(o, n)
        } else {
            &&& r matches Ok(rec) && same_incident(n.incidents@[i], rec)
            &&& incident_updated(o, n, i, now)
            &&& acknowledged(
                o.incidents@[i],
                n.incidents@[i],
                request_operator(request.operator_id),
                now,
                action_note(request),
                note_id,
            )
        },
    }
}

/// What resolving incident `id` does to the state `o`, giving `n` and the
/// answer `r`: an unknown id is refused and changes nothing; otherwise the
/// incident is resolved at `now`.
pub open spec fn resolve_outcome(
    o: OperationsState,
    n: OperationsState,
    id: Seq<char>,
    request: IncidentActionRequest,
    now: Seq<char>,
    note_id: Seq<char>,
    r: Result<IncidentRecord, String>,
) -> bool {
    match find_incident(o.incidents@, id) {
        None => r matches Err(e) && e@ == unknown_incident_error(id) && unchanged(o, n),
        Some(i) => {
            &&& r matches Ok(rec) && same_incident(n.incidents@[i], rec)
            &&& incident_updated(o, n, i, now)
            &&& resolved(
                o.incidents@[i],
                n.incidents@[i],
                request_operator(request.operator_id),
                now,
                action_note(request),
                note_id,
            )
        },
    }
}

impl OperationsState {
    /// Acknowledges incident `id` at `now`. A resolved incident cannot be
    /// acknowledged; an unknown id is refused.
    pub fn acknowledge_incident_at(
        &mut self,
        id: &str,
        request: IncidentActionRequest,
        now: String,
        note_id: String,
    ) -> (r: Result<IncidentRecord, String>)
        ensures
            acknowledge_outcome(*old(self), *final(self), id@, request, now@, note_id@, r),
    {
        let operator = operator_of(&request.operator_id);
        let i = match position_of(&self.incidents, id) {
            Some(i) => i,
            None => return Err(unknown_incident(id)),
        };
        if str_eq(self.incidents[i].status.as_str(), "resolved") {
            return Err(lit("resolved incident cannot be acknowledged"));
        }
        let mut inc = self.incidents.remove(i);
        inc.status = lit("acknowledged");
        inc.acknowledged_at = Some(now.clone());
        inc.acknowledged_by = Some(operator.clone());
        let note = match request.note {
            Some(t) => non_empty_string(t),
            None => None,
        };
        push_note(&mut inc.notes, note, note_id, now.clone(), operator);
        let out = clone_incident(&inc);
        self.incidents.insert(i, inc);
        self.updated_at = now;
        Ok(out)
    }

    /// Resolves incident `id` at `now`; an unknown id is refused.
    pub fn resolve_incident_at(
        &mut self,
        id: &str,
        request: IncidentActionRequest,
        now: String,
        note_id: String,
    ) -> (r: Result<IncidentRecord, String>)
        ensures
            resolve_outcome(*old(self), *final(self), id@, request, now@, note_id@, r),
    {
        let operator = operator_of(&request.operator_id);
        let i = match position_of(&self.incidents, id) {
            Some(i) => i,
            None => return Err(unknown_incident(id)),
        };
        let mut inc = self.incidents.remove(i);
        inc.status = lit("resolved");
        inc.resolved_at = Some(now.clone());
        inc.resolved_by = Some(operator.clone());
        let note = match request.note {
            Some(t) => non_empty_string(t),
            None => None,
        };
        push_note(&mut inc.notes, note, note_id, now.clone(), operator);
        let out = clone_incident(&inc);
        self.incidents.insert(i, inc);
        self.updated_at = now;
        Ok(out)
    }
}

/// `n` is `o` with the note `text` appended at `now` by `operator`.
pub open spec fn noted(
    o: IncidentRecord,
    n: IncidentRecord,
    operator: Seq<char>,
    now: Seq<char>,
    text: Seq<char>,
    note_id: Seq<char>,
) -> bool {
    &&& same_except_progress(o, n)
    &&& n.status == o.status
    &&& n.acknowledged_at == o.acknowledged_at
    &&& n.acknowledged_by == o.acknowledged_by
    &&& n.resolved_at == o.resolved_at
    &&& n.resolved_by == o.resolved_by
    &&& notes_after(o.notes@, n.notes@, Some(text), note_id, now, operator)
}

/// `rec` is the incident that `request` opens with id `id` at `now`.
pub open spec fn created_incident(request: CreateIncidentRequest, rec: IncidentRecord, id: Seq<char>, now: Seq<char>) -> bool {
    &&& rec.id@ == id
    &&& rec.source_key is None
    &&& rec.severity@ == severity_name(
        match request.severity {
            Some(s) => s@,
            None => "warning"@,
        },
    )
    &&& rec.status@ == "open"@
    &&& rec.title@ == trim_seq(request.title@)
    &&& rec.description@ == trim_seq(
        match request.description {
            Some(d) => d@,
            None => Seq::<char>::empty(),
        },
    )
    &&& opt_view(rec.service) == clean_optional_seq(opt_view(request.service))
    &&& opt_view(rec.node_id) == clean_optional_seq(opt_view(request.node_id))
    &&& rec.issi == request.issi
    &&& rec.gssi == request.gssi
    &&& rec.created_at@ == now
    &&& rec.created_by@ == request_operator(request.operator_id)
    &&& rec.acknowledged_at is None
    &&& rec.acknowledged_by is None
    &&& rec.resolved_at is None
    &&& rec.resolved_by is None
    &&& rec.notes@.len() == 0
}

/// `entry` is the shift log entry that `request` adds with id `id` at `now`.
pub open spec fn created_log_entry(request: ShiftLogRequest, entry: ShiftLogEntry, id: Seq<char>, now: Seq<char>) -> bool {
    &&& entry.id@ == id
    &&& entry.timestamp@ == now
    &&& entry.operator_id@ == request_operator(request.operator_id)
    &&& entry.category@ == (match clean_optional_seq(opt_view(request.category)) {
        Some(c) => c,
        None => "general"@,
    })
    &&& entry.text@ == trim_seq(request.text@)
}

/// `n` has the fields of `o` other than the shift log and the update time.
pub open spec fn rest_but_log_unchanged(o: OperationsState, n: OperationsState) -> bool {
    &&& n.schema_version == o.schema_version
    &&& n.started_at == o.started_at
    &&& n.services == o.services
    &&& n.incidents == o.incidents
    &&& n.last_poll_started_at == o.last_poll_started_at
    &&& n.last_poll_finished_at == o.last_poll_finished_at
    &&& n.poll_in_progress == o.poll_in_progress
    &&& n.poll_count == o.poll_count
}

impl OperationsState {
    /// Adds a note to incident `id` at `now`. Blank text is refused before the
    /// incident is looked up; an unknown id is refused.
    pub fn add_incident_note_at(
        &mut self,
        id: &str,
        request: IncidentNoteRequest,
        now: String,
        note_id: String,
    ) -> (r: Result<IncidentRecord, String>)
        ensures
            if trim_seq(request.text@).len() == 0 {
                r matches Err(e) && e@ == "note text is required"@ && unchanged(*old(self), *final(self))
            } else {
                match find_incident(old(self).incidents@, id@) {
                    None => r matches Err(e) && e@ == unknown_incident_error(id@) && unchanged(
                        *old(self),
                        *final(self),
                    ),
                    Some(i) => {
                        &&& r matches Ok(rec) && same_incident(final(self).incidents@[i], rec)
                        &&& incident_updated(*old(self), *final(self), i, now@)
                        &&& noted(
                            old(self).incidents@[i],
                            final(self).incidents@[i],
                            request_operator(request.operator_id),
                            now@,
                            trim_seq(request.text@),
                            note_id@,
                        )
                    },
                }
            },
    {
        let text = trim(request.text.as_str());
        if text.as_str().is_empty() {
            return Err(lit("note text is required"));
        }
        let i = match position_of(&self.incidents, id) {
            Some(i) => i,
            None => return Err(unknown_incident(id)),
        };
        let operator = operator_of(&request.operator_id);
        let mut inc = self.incidents.remove(i);
        push_note(&mut inc.notes, Some(text), note_id, now.clone(), operator);
        let out = clone_incident(&inc);
        self.incidents.insert(i, inc);
        self.updated_at = now;
        Ok(out)
    }

    /// Opens an incident with id `id` at `now`; a blank title is refused. The
    /// journal then keeps its newest `incident_limit` incidents, at least 100.
    pub fn create_incident_at(
        &mut self,
        request: CreateIncidentRequest,
        id: String,
        now: String,
        incident_limit: usize,
    ) -> (r: Result<IncidentRecord, String>)
        ensures
            if trim_seq(request.title@).len() == 0 {
                r matches Err(e) && e@ == "title is required"@ && unchanged(*old(self), *final(self))
            } else {
                &&& r matches Ok(rec) && created_incident(request, rec, id@, now@)
                    && same_incident(final(self).incidents@.last(), rec)
                &&& final(self).incidents@ == keep_newest(
                    old(self).incidents@.push(final(self).incidents@.last()),
                    incident_limit,
                )
                &&& rest_unchanged(*old(self), *final(self))
                &&& final(self).updated_at == now
            },
    {
        let title = trim(request.title.as_str());
        if title.as_str().is_empty() {
            return Err(lit("title is required"));
        }
        let severity = match &request.severity {
            Some(s) => normalise_severity(s.as_str()),
            None => normalise_severity("warning"),
        };
        proof {
            reveal_strlit("");
            assert(""@ =~= Seq::<char>::empty());
        }
        let description = match &request.description {
            Some(d) => trim(d.as_str()),
            None => trim(""),
        };
        let created_by = operator_of(&request.operator_id);
        let incident = IncidentRecord {
            id,
            source_key: None,
            severity,
            status: lit("open"),
            title,
            description,
            service: clean_optional(request.service),
            node_id: clean_optional(request.node_id),
            issi: request.issi,
            gssi: request.gssi,
            created_at: now.clone(),
            created_by,
            acknowledged_at: None,
            acknowledged_by: None,
            resolved_at: None,
            resolved_by: None,
            notes: Vec::new(),
        };
        let stored = clone_incident(&incident);
        let ghost before = self.incidents@;
        let ghost sg = stored;
        self.incidents.push(stored);
        trim_incidents(&mut self.incidents, incident_limit);
        proof {
            let pushed = before.push(sg);
            assert(self.incidents@ == keep_newest(pushed, incident_limit));
            assert(self.incidents@.last() == sg);
        }
        self.updated_at = now;
        Ok(incident)
    }

    /// Adds a shift log entry with id `id` at `now`; blank text is refused.
    /// The log then keeps its newest `shift_log_limit` entries, at least 100.
    pub fn add_shift_log_at(
        &mut self,
        request: ShiftLogRequest,
        id: String,
        now: String,
        shift_log_limit: usize,
    ) -> (r: Result<ShiftLogEntry, String>)
        ensures
            if trim_seq(request.text@).len() == 0 {
                r matches Err(e) && e@ == "text is required"@ && unchanged(*old(self), *final(self))
            } else {
                &&& r matches Ok(entry) && created_log_entry(request, entry, id@, now@)
                    && final(self).shift_log@ == keep_newest(old(self).shift_log@.push(entry), shift_log_limit)
                &&& rest_but_log_unchanged(*old(self), *final(self))
                &&& final(self).updated_at == now
            },
    {
        let text = trim(request.text.as_str());
        if text.as_str().is_empty() {
            return Err(lit("text is required"));
        }
        let category = match clean_optional(request.category) {
            Some(c) => c,
            None => lit("general"),
        };
        let entry = ShiftLogEntry {
            id,
            timestamp: now.clone(),
            operator_id: operator_of(&request.operator_id),
            category,
            text,
        };
        let stored = ShiftLogEntry {
            id: entry.id.clone(),
            timestamp: entry.timestamp.clone(),
            operator_id: entry.operator_id.clone(),
            category: entry.category.clone(),
            text: entry.text.clone(),
        };
        self.shift_log.push(stored);
        trim_shift_log(&mut self.shift_log, shift_log_limit);
        self.updated_at = now;
        Ok(entry)
    }
}

impl OperationsState {
    /// Opens an incident now, with a fresh `inc_` id.
    pub fn create_incident(&mut self, request: CreateIncidentRequest, incident_limit: usize) -> (r: Result<
        IncidentRecord,
        String,
    >)
        ensures
            if trim_seq(request.title@).len() == 0 {
                r matches Err(e) && e@ == "title is required"@ && unchanged(*old(self), *final(self))
            } else {
                &&& r matches Ok(rec) && is_fresh_id(rec.id@, "inc_"@) && created_incident(
                    request,
                    rec,
                    rec.id@,
                    final(self).updated_at@,
                ) && same_incident(final(self).incidents@.last(), rec)
                &&& final(self).incidents@ == keep_newest(
                    old(self).incidents@.push(final(self).incidents@.last()),
                    incident_limit,
                )
                &&& rest_unchanged(*old(self), *final(self))
            },
    {
        let id = fresh_id("inc_");
        let now = now_iso();
        self.create_incident_at(request, id, now, incident_limit)
    }

    /// Acknowledges incident `id` now.
    pub fn acknowledge_incident(&mut self, id: &str, request: IncidentActionRequest) -> (r: Result<
        IncidentRecord,
        String,
    >)
        ensures
            match find_incident(old(self).incidents@, id@) {
                None => r matches Err(e) && e@ == unknown_incident_error(id@) && unchanged(*old(self), *final(self)),
                Some(i) => if old(self).incidents@[i].status@ == "resolved"@ {
                    r matches Err(e) && e@ == "resolved incident cannot be acknowledged"@ && unchanged(
                        *old(self),
                        *final(self),
                    )
                } else {
                    &&& r matches Ok(rec) && same_incident(final(self).incidents@[i], rec)
                    &&& incident_updated(*old(self), *final(self), i, final(self).updated_at@)
                    &&& exists|note_id: Seq<char>|
                        #[trigger] is_fresh_id(note_id, "note_"@) && acknowledged(
                            old(self).incidents@[i],
                            final(self).incidents@[i],
                            request_operator(request.operator_id),
                            final(self).updated_at@,
                            action_note(request),
                            note_id,
                        )
                },
            },
    {
        let now = now_iso();
        let note_id = fresh_id("note_");
        self.acknowledge_incident_at(id, request, now, note_id)
    }

    /// Resolves incident `id` now.
    pub fn resolve_incident(&mut self, id: &str, request: IncidentActionRequest) -> (r: Result<
        IncidentRecord,
        String,
    >)
        ensures
            match find_incident(old(self).incidents@, id@) {
                None => r matches Err(e) && e@ == unknown_incident_error(id@) && unchanged(*old(self), *final(self)),
                Some(i) => {
                    &&& r matches Ok(rec) && same_incident(final(self).incidents@[i], rec)
                    &&& incident_updated(*old(self), *final(self), i, final(self).updated_at@)
                    &&& exists|note_id: Seq<char>|
                        #[trigger] is_fresh_id(note_id, "note_"@) && resolved(
                            old(self).incidents@[i],
                            final(self).incidents@[i],
                            request_operator(request.operator_id),
                            final(self).updated_at@,
                            action_note(request),
                            note_id,
                        )
                },
            },
    {
        let now = now_iso();
        let note_id = fresh_id("note_");
        self.resolve_incident_at(id, request, now, note_id)
    }

    /// Adds a note to incident `id` now.
    pub fn add_incident_note(&mut self, id: &str, request: IncidentNoteRequest) -> (r: Result<
        IncidentRecord,
        String,
    >)
        ensures
            if trim_seq(request.text@).len() == 0 {
                r matches Err(e) && e@ == "note text is required"@ && unchanged(*old(self), *final(self))
            } else {
                match find_incident(old(self).incidents@, id@) {
                    None => r matches Err(e) && e@ == unknown_incident_error(id@) && unchanged(
                        *old(self),
                        *final(self),
                    ),
                    Some(i) => {
                        &&& r matches Ok(rec) && same_incident(final(self).incidents@[i], rec)
                        &&& incident_updated(*old(self), *final(self), i, final(self).updated_at@)
                        &&& exists|note_id: Seq<char>|
                            #[trigger] is_fresh_id(note_id, "note_"@) && noted(
                                old(self).incidents@[i],
                                final(self).incidents@[i],
                                request_operator(request.operator_id),
                                final(self).updated_at@,
                                trim_seq(request.text@),
                                note_id,
                            )
                    },
                }
            },
    {
        let now = now_iso();
        let note_id = fresh_id("note_");
        self.add_incident_note_at(id, request, now, note_id)
    }

    /// Adds a shift log entry now, with a fresh `log_` id.
    pub fn add_shift_log(&mut self, request: ShiftLogRequest, shift_log_limit: usize) -> (r: Result<
        ShiftLogEntry,
        String,
    >)
        ensures
            if trim_seq(request.text@).len() == 0 {
                r matches Err(e) && e@ == "text is required"@ && unchanged(*old(self), *final(self))
            } else {
                &&& r matches Ok(entry) && is_fresh_id(entry.id@, "log_"@) && created_log_entry(
                    request,
                    entry,
                    entry.id@,
                    final(self).updated_at@,
                ) && final(self).shift_log@ == keep_newest(old(self).shift_log@.push(entry), shift_log_limit)
                &&& rest_but_log_unchanged(*old(self), *final(self))
            },
    {
        let id = fresh_id("log_");
        let now = now_iso();
        self.add_shift_log_at(request, id, now, shift_log_limit)
    }
}

/// Whether an incident has the status asked for (any status when none is).
pub open spec fn status_matches(x: IncidentRecord, status: Option<Seq<char>>) -> bool {
    match status {
        Some(st) => x.status@ == st,
        None => true,
    }
}

/// The incidents with the status asked for, newest first.
pub open spec fn newest_incidents(l: Seq<IncidentRecord>, status: Option<Seq<char>>) -> Seq<IncidentRecord> {
    l.reverse().filter(|x: IncidentRecord| status_matches(x, status))
}

/// How many entries a listing returns at most: `limit`, but at least 1.
pub open spec fn listing_cap(limit: usize) -> int {
    if limit < 1 { 1 } else { limit as int }
}

/// The smaller of `a` and `b`.
pub open spec fn min_int(a: int, b: int) -> int {
    if a < b { a } else { b }
}

/// The newest shift log entries, newest first.
pub open spec fn newest_log(l: Seq<ShiftLogEntry>, limit: usize) -> Seq<ShiftLogEntry> {
    l.reverse().take(min_int(l.len() as int, listing_cap(limit)))
}

impl OperationsState {
    /// The incidents with the given status (all when none is given), newest
    /// first, at most `limit` of them but at least one.
    pub fn incidents(&self, status: Option<&str>, limit: usize) -> (r: Vec<IncidentRecord>)
        ensures
            r@.len() == min_int(
                newest_incidents(self.incidents@, opt_str(status)).len() as int,
                listing_cap(limit),
            ),
            forall|k: int|
                0 <= k < r@.len() ==> same_incident(
                    #[trigger] r@[k],
                    newest_incidents(self.incidents@, opt_str(status))[k],
                ),
    {
        let ghost st = opt_str(status);
        let ghost pred = |x: IncidentRecord| status_matches(x, st);
        let ghost rev = self.incidents@.reverse();
        let n = self.incidents.len();
        let mut out: Vec<IncidentRecord> = Vec::new();
        let mut k: usize = 0;
        while k < n
            invariant
                n == self.incidents@.len(),
                rev == self.incidents@.reverse(),
                st == opt_str(status),
                pred == (|x: IncidentRecord| status_matches(x, st)),
                k <= n,
                out@.len() == rev.take(k as int).filter(pred).len(),
                forall|j: int| 0 <= j < out@.len() ==> same_incident(#[trigger] out@[j], rev.take(k as int).filter(pred)[j]),
            decreases n - k,
        {
            reveal_with_fuel(Seq::<_>::filter, 1);
            let x = &self.incidents[n - 1 - k];
            assert(rev[k as int] == self.incidents@[n - 1 - k]);
            assert(rev.take(k + 1).drop_last() =~= rev.take(k as int));
            assert(rev.take(k + 1).last() == rev[k as int]);
            let keep = match status {
                Some(s) => str_eq(x.status.as_str(), s),
                None => true,
            };
            let ghost before = rev.take(k as int).filter(pred);
            if keep {
                out.push(clone_incident(x));
                assert(rev.take(k + 1).filter(pred) == before.push(rev[k as int]));
            } else {
                assert(rev.take(k + 1).filter(pred) == before);
            }
            k = k + 1;
        }
        assert(rev.take(n as int) =~= rev);
        let cap: usize = if limit < 1 { 1 } else { limit };
        out.truncate(cap);
        out
    }

    /// The newest shift log entries, newest first, at most `limit` of them
    /// but at least one.
    pub fn shift_log(&self, limit: usize) -> (r: Vec<ShiftLogEntry>)
        ensures
            r@ == newest_log(self.shift_log@, limit),
    {
        let n = self.shift_log.len();
        let cap: usize = if limit < 1 { 1 } else { limit };
        let ghost rev = self.shift_log@.reverse();
        let mut out: Vec<ShiftLogEntry> = Vec::new();
        let mut k: usize = 0;
        while k < n && k < cap
            invariant
                n == self.shift_log@.len(),
                rev == self.shift_log@.reverse(),
                k <= n,
                k <= cap,
                cap as int == listing_cap(limit),
                out@ == rev.take(k as int),
            decreases n - k,
        {
            let e = &self.shift_log[n - 1 - k];
            assert(rev[k as int] == self.shift_log@[n - 1 - k]);
            out.push(ShiftLogEntry {
                id: e.id.clone(),
                timestamp: e.timestamp.clone(),
                operator_id: e.operator_id.clone(),
                category: e.category.clone(),
                text: e.text.clone(),
            });
            k = k + 1;
            assert(out@ =~= rev.take(k as int));
        }
        out
    }
}

/// The view of an optional text.
pub open spec fn opt_str(o: Option<&str>) -> Option<Seq<char>> {
    match o {
        Some(s) => Some(s@),
        None => None,
    }
}

/// Counts of the operations state for the dashboard.
#[derive(Debug)]
pub struct OperationsOverview {
    pub started_at: String,
    pub updated_at: String,
    pub last_poll_started_at: Option<String>,
    pub last_poll_finished_at: Option<String>,
    pub poll_in_progress: bool,
    pub poll_count: u64,
    pub services_total: usize,
    pub services_healthy: usize,
    pub services_degraded: usize,
    pub services_offline: usize,
    pub services_disabled: usize,
    pub critical_services_offline: usize,
    pub incidents_open: usize,
    pub incidents_acknowledged: usize,
    pub shift_log_entries: usize,
}

/// A service whose status is `status`.
pub open spec fn service_in(status: Seq<char>) -> spec_fn(ServiceSnapshot) -> bool {
    |x: ServiceSnapshot| x.status@ == status
}

/// A service that counts as degraded: any status other than healthy,
/// offline or disabled (`degraded` and `unknown` among them).
pub open spec fn service_degraded() -> spec_fn(ServiceSnapshot) -> bool {
    |x: ServiceSnapshot| x.status@ != "healthy"@ && x.status@ != "offline"@ && x.status@ != "disabled"@
}

/// A critical service that is offline.
pub open spec fn critical_offline() -> spec_fn(ServiceSnapshot) -> bool {
    |x: ServiceSnapshot| x.status@ == "offline"@ && x.critical
}

/// An incident whose status is `status`.
pub open spec fn incident_in(status: Seq<char>) -> spec_fn(IncidentRecord) -> bool {
    |x: IncidentRecord| x.status@ == status
}

/// How the services of `l` count by status.
pub open spec fn service_counts_ok(
    l: Seq<ServiceSnapshot>,
    healthy: int,
    degraded: int,
    offline: int,
    disabled: int,
    crit: int,
) -> bool {
    &&& healthy == l.filter(service_in("healthy"@)).len()
    &&& degraded == l.filter(service_degraded()).len()
    &&& offline == l.filter(service_in("offline"@)).len()
    &&& disabled == l.filter(service_in("disabled"@)).len()
    &&& crit == l.filter(critical_offline()).len()
}

fn count_services(l: &Vec<ServiceSnapshot>) -> (r: (usize, usize, usize, usize, usize))
    ensures
        service_counts_ok(l@, r.0 as int, r.1 as int, r.2 as int, r.3 as int, r.4 as int),
{
    let mut h: usize = 0;
    let mut d: usize = 0;
    let mut o: usize = 0;
    let mut x: usize = 0;
    let mut c: usize = 0;
    let mut i: usize = 0;
    while i < l.len()
        invariant
            i <= l@.len(),
            service_counts_ok(l@.take(i as int), h as int, d as int, o as int, x as int, c as int),
            h <= i && d <= i && o <= i && x <= i && c <= i,
        decreases l@.len() - i,
    {
        reveal_with_fuel(Seq::<_>::filter, 1);
        assert(l@.take(i + 1).drop_last() =~= l@.take(i as int));
        assert(l@.take(i + 1).last() == l@[i as int]);
        proof {
            reveal_strlit("healthy");
            reveal_strlit("offline");
            reveal_strlit("disabled");
            assert("healthy"@.len() == 7 && "offline"@.len() == 7 && "disabled"@.len() == 8);
            assert("healthy"@[0] != "offline"@[0]);
        }
        let st = l[i].status.as_str();
        if str_eq(st, "healthy") {
            h = h + 1;
        } else if str_eq(st, "offline") {
            o = o + 1;
            if l[i].critical {
                c = c + 1;
            }
        } else if str_eq(st, "disabled") {
            x = x + 1;
        } else {
            d = d + 1;
        }
        i = i + 1;
    }
    assert(l@.take(l@.len() as int) =~= l@);
    (h, d, o, x, c)
}

fn count_incidents(l: &Vec<IncidentRecord>) -> (r: (usize, usize))
    ensures
        r.0 == l@.filter(incident_in("open"@)).len(),
        r.1 == l@.filter(incident_in("acknowledged"@)).len(),
{
    let mut open: usize = 0;
    let mut ack: usize = 0;
    let mut i: usize = 0;
    while i < l.len()
        invariant
            i <= l@.len(),
            open == l@.take(i as int).filter(incident_in("open"@)).len(),
            ack == l@.take(i as int).filter(incident_in("acknowledged"@)).len(),
            open <= i && ack <= i,
        decreases l@.len() - i,
    {
        reveal_with_fuel(Seq::<_>::filter, 1);
        assert(l@.take(i + 1).drop_last() =~= l@.take(i as int));
        assert(l@.take(i + 1).last() == l@[i as int]);
        proof {
            reveal_strlit("open");
            reveal_strlit("acknowledged");
            assert("open"@.len() == 4 && "acknowledged"@.len() == 12);
        }
        let st = l[i].status.as_str();
        if str_eq(st, "open") {
            open = open + 1;
        } else if str_eq(st, "acknowledged") {
            ack = ack + 1;
        }
        i = i + 1;
    }
    assert(l@.take(l@.len() as int) =~= l@);
    (open, ack)
}

impl OperationsState {
    /// The dashboard counts of the state.
    pub fn overview(&self) -> (r: OperationsOverview)
        ensures
            r.started_at == self.started_at,
            r.updated_at == self.updated_at,
            r.last_poll_started_at == self.last_poll_started_at,
            r.last_poll_finished_at == self.last_poll_finished_at,
            r.poll_in_progress == self.poll_in_progress,
            r.poll_count == self.poll_count,
            r.services_total == self.services@.len(),
            service_counts_ok(
                self.services@,
                r.services_healthy as int,
                r.services_degraded as int,
                r.services_offline as int,
                r.services_disabled as int,
                r.critical_services_offline as int,
            ),
            r.incidents_open == self.incidents@.filter(incident_in("open"@)).len(),
            r.incidents_acknowledged == self.incidents@.filter(incident_in("acknowledged"@)).len(),
            r.shift_log_entries == self.shift_log@.len(),
    {
        let (h, d, o, x, c) = count_services(&self.services);
        let (open, ack) = count_incidents(&self.incidents);
        OperationsOverview {
            started_at: self.started_at.clone(),
            updated_at: self.updated_at.clone(),
            last_poll_started_at: clone_opt(&self.last_poll_started_at),
            last_poll_finished_at: clone_opt(&self.last_poll_finished_at),
            poll_in_progress: self.poll_in_progress,
            poll_count: self.poll_count,
            services_total: self.services.len(),
            services_healthy: h,
            services_degraded: d,
            services_offline: o,
            services_disabled: x,
            critical_services_offline: c,
            incidents_open: open,
            incidents_acknowledged: ack,
            shift_log_entries: self.shift_log.len(),
        }
    }
}

/// `base` without trailing slashes, joined with `path` by exactly one `/`;
/// a blank path or `/` gives the base with a trailing `/`.
pub open spec fn join_url_seq(base: Seq<char>, path: Seq<char>) -> Seq<char> {
    let b = trim_end_char_seq(base, '/');
    if trim_seq(path).len() == 0 || path == "/"@ {
        b + "/"@
    } else if path.len() > 0 && path[0] == '/' {
        b + path
    } else {
        b + "/"@ + path
    }
}

/// Joins a base URL and a path.
pub fn join_url(base_url: &str, path: &str) -> (r: String)
    ensures
        r@ == join_url_seq(base_url@, path@),
{
    proof {
        reveal_strlit("/");
    }
    let mut out = trim_end_char(base_url, '/');
    let t = trim(path);
    if t.as_str().is_empty() || str_eq(path, "/") {
        push_str(&mut out, "/");
    } else if crate::text::starts_with(path, "/") {
        assert(path@.take(1)[0] == path@[0]);
        push_str(&mut out, path);
    } else {
        proof {
            if path@.len() > 0 && path@[0] == '/' {
                assert(path@.take(1) =~= "/"@);
            }
        }
        push_str(&mut out, "/");
        push_str(&mut out, path);
    }
    out
}

/// The initial state of a configured service: unknown, or disabled when the
/// configuration disables it.
pub open spec fn snapshot_from_config(c: CoreServiceConfig, s: ServiceSnapshot) -> bool {
    &&& s.name == c.name
    &&& s.display_name == c.display_name
    &&& s.kind == c.kind
    &&& s.base_url == c.base_url
    &&& s.webui_url@ == join_url_seq(c.base_url@, c.webui_path@)
    &&& s.critical == c.critical
    &&& s.enabled == c.enabled
    &&& s.status@ == (if c.enabled { "unknown"@ } else { "disabled"@ })
    &&& s.live is None && s.ready is None
    &&& s.checked_at is None && s.last_success_at is None
    &&& s.latency_ms is None
    &&& s.consecutive_failures == 0
    &&& s.http_status is None
    &&& s.message is None
    &&& s.health is None && s.readiness is None && s.summary is None
}

/// `n` is the snapshot `o` with the presentation fields of configuration
/// `c` applied; a disabled snapshot shows the status `disabled`.
pub open spec fn config_applied(o: ServiceSnapshot, c: CoreServiceConfig, n: ServiceSnapshot) -> bool {
    &&& n.name == o.name
    &&& n.display_name == c.display_name
    &&& n.kind == c.kind
    &&& n.base_url == c.base_url
    &&& n.webui_url@ == join_url_seq(c.base_url@, c.webui_path@)
    &&& n.critical == c.critical
    &&& n.enabled == o.enabled
    &&& n.status@ == (if o.enabled { o.status@ } else { "disabled"@ })
    &&& n.live == o.live && n.ready == o.ready
    &&& n.checked_at == o.checked_at && n.last_success_at == o.last_success_at
    &&& n.latency_ms == o.latency_ms
    &&& n.consecutive_failures == o.consecutive_failures
    &&& n.http_status == o.http_status
    &&& n.message == o.message
    &&& n.health == o.health && n.readiness == o.readiness && n.summary == o.summary
}

impl ServiceSnapshot {
    /// The initial state of a configured service.
    pub fn from_config(config: &CoreServiceConfig) -> (r: ServiceSnapshot)
        ensures
            snapshot_from_config(*config, r),
    {
        ServiceSnapshot {
            name: config.name.clone(),
            display_name: config.display_name.clone(),
            kind: config.kind.clone(),
            base_url: config.base_url.clone(),
            webui_url: join_url(config.base_url.as_str(), config.webui_path.as_str()),
            critical: config.critical,
            enabled: config.enabled,
            status: if config.enabled { lit("unknown") } else { lit("disabled") },
            live: None,
            ready: None,
            checked_at: None,
            last_success_at: None,
            latency_ms: None,
            consecutive_failures: 0,
            http_status: None,
            message: None,
            health: None,
            readiness: None,
            summary: None,
        }
    }

    /// Applies the presentation fields of the configuration.
    pub fn apply_config(&mut self, config: &CoreServiceConfig)
        ensures
            config_applied(*old(self), *config, *final(self)),
    {
        self.display_name = config.display_name.clone();
        self.kind = config.kind.clone();
        self.base_url = config.base_url.clone();
        self.webui_url = join_url(config.base_url.as_str(), config.webui_path.as_str());
        self.critical = config.critical;
        if !self.enabled {
            self.status = lit("disabled");
        }
    }
}

/// The outcome of one health poll of a service.
#[derive(Debug)]
pub struct PollResult {
    pub status: String,
    pub live: Option<bool>,
    pub ready: Option<bool>,
    pub checked_at: String,
    pub latency_ms: Option<u64>,
    pub http_status: Option<u16>,
    pub message: Option<String>,
    pub health: Option<serde_json::Value>,
    pub readiness: Option<serde_json::Value>,
    pub summary: Option<serde_json::Value>,
}

/// `n` is the snapshot `o` after the poll `p`: a healthy poll records the
/// success and clears the failure count, any other raises it (saturating).
pub open spec fn poll_applied(o: ServiceSnapshot, p: PollResult, n: ServiceSnapshot) -> bool {
    &&& n.name == o.name && n.display_name == o.display_name && n.kind == o.kind
    &&& n.base_url == o.base_url && n.webui_url == o.webui_url
    &&& n.critical == o.critical && n.enabled == o.enabled
    &&& n.status == p.status
    &&& n.live == p.live && n.ready == p.ready
    &&& n.checked_at == Some(p.checked_at)
    &&& n.latency_ms == p.latency_ms
    &&& n.http_status == p.http_status
    &&& n.message == p.message
    &&& n.health == p.health && n.readiness == p.readiness && n.summary == p.summary
    &&& if p.status@ == "healthy"@ {
        n.last_success_at == Some(p.checked_at) && n.consecutive_failures == 0
    } else {
        n.last_success_at == o.last_success_at && n.consecutive_failures == (if o.consecutive_failures
            == u32::MAX {
            u32::MAX as int
        } else {
            o.consecutive_failures + 1
        })
    }
}

/// Records the outcome of a poll in the service snapshot.
pub fn apply_poll_result(snapshot: &mut ServiceSnapshot, result: PollResult)
    ensures
        poll_applied(*old(snapshot), result, *final(snapshot)),
{
    let healthy = str_eq(result.status.as_str(), "healthy");
    let checked = result.checked_at.clone();
    snapshot.status = result.status;
    snapshot.live = result.live;
    snapshot.ready = result.ready;
    snapshot.checked_at = Some(result.checked_at);
    snapshot.latency_ms = result.latency_ms;
    snapshot.http_status = result.http_status;
    snapshot.message = result.message;
    snapshot.health = result.health;
    snapshot.readiness = result.readiness;
    snapshot.summary = result.summary;
    if healthy {
        snapshot.last_success_at = Some(checked);
        snapshot.consecutive_failures = 0;
    } else {
        snapshot.consecutive_failures = snapshot.consecutive_failures.saturating_add(1);
    }
}

/// What two health checks of a service say: its status, the two check
/// outcomes, the first HTTP status that came back and a message.
#[derive(Debug)]
pub struct PollVerdict {
    pub status: String,
    pub live: Option<bool>,
    pub ready: Option<bool>,
    pub http_status: Option<u16>,
    pub message: Option<String>,
}

/// Whether a check that answered with an HTTP status passed (status below 400).
pub open spec fn check_passed(r: Result<u16, String>) -> Option<bool> {
    match r {
        Ok(s) => Some(s < 400),
        Err(_) => None,
    }
}

/// The status of a service from its live and ready checks.
pub open spec fn poll_status(live: Result<u16, String>, ready: Result<u16, String>) -> Seq<char> {
    if check_passed(live) == Some(true) && check_passed(ready) == Some(true) {
        "healthy"@
    } else if check_passed(live) == Some(true) {
        "degraded"@
    } else {
        "offline"@
    }
}

/// The message of a poll: none when healthy, else what failed.
pub open spec fn poll_message(live: Result<u16, String>, ready: Result<u16, String>) -> Option<Seq<char>> {
    match (live, ready) {
        (Ok(_), Ok(_)) => if poll_status(live, ready) == "healthy"@ {
            None
        } else {
            Some("service is live but not ready"@)
        },
        (Err(a), Err(b)) => Some("live check failed: "@ + a@ + "; ready check failed: "@ + b@),
        (Err(a), Ok(_)) => Some("live check failed: "@ + a@),
        (Ok(_), Err(b)) => Some("ready check failed: "@ + b@),
    }
}

/// Judges a service from the outcomes of its live and ready checks: the HTTP
/// status each answered with, or the error text of a check that failed.
pub fn poll_verdict(live: &Result<u16, String>, ready: &Result<u16, String>) -> (r: PollVerdict)
    ensures
        r.status@ == poll_status(*live, *ready),
        r.live == check_passed(*live),
        r.ready == check_passed(*ready),
        r.http_status == (match *live {
            Ok(s) => Some(s),
            Err(_) => match *ready {
                Ok(s) => Some(s),
                Err(_) => None,
            },
        }),
        opt_view(r.message) == poll_message(*live, *ready),
{
    proof {
        reveal_strlit("healthy");
        reveal_strlit("degraded");
        reveal_strlit("offline");
        assert("healthy"@.len() == 7 && "degraded"@.len() == 8 && "offline"@.len() == 7);
        assert("healthy"@[0] != "offline"@[0]);
    }
    let lv: Option<bool> = match live {
        Ok(s) => Some(*s < 400),
        Err(_) => None,
    };
    let rv: Option<bool> = match ready {
        Ok(s) => Some(*s < 400),
        Err(_) => None,
    };
    let healthy = lv == Some(true) && rv == Some(true);
    let status = if healthy {
        lit("healthy")
    } else if lv == Some(true) {
        lit("degraded")
    } else {
        lit("offline")
    };
    let message = match (live, ready) {
        (Ok(_), Ok(_)) => if healthy {
            None
        } else {
            Some(lit("service is live but not ready"))
        },
        (Err(a), Err(b)) => {
            let mut m = concat("live check failed: ", a.as_str());
            push_str(&mut m, "; ready check failed: ");
            push_str(&mut m, b.as_str());
            Some(m)
        },
        (Err(a), Ok(_)) => Some(concat("live check failed: ", a.as_str())),
        (Ok(_), Err(b)) => Some(concat("ready check failed: ", b.as_str())),
    };
    let http_status = match live {
        Ok(s) => Some(*s),
        Err(_) => match ready {
            Ok(s) => Some(*s),
            Err(_) => None,
        },
    };
    PollVerdict { status, live: lv, ready: rv, http_status, message }
}

/// The source key of the incidents that monitoring opens for a service.
pub open spec fn service_key(name: Seq<char>) -> Seq<char> {
    "service:"@ + name
}

/// An unresolved incident with the given source key.
pub open spec fn open_for(x: IncidentRecord, key: Seq<char>) -> bool {
    opt_view(x.source_key) == Some(key) && x.status@ != "resolved"@
}

/// Index of the first unresolved incident with the given source key.
pub open spec fn first_open_for(l: Seq<IncidentRecord>, key: Seq<char>) -> Option<int>
    decreases l.len(),
{
    if l.len() == 0 {
        None
    } else if open_for(l[0], key) {
        Some(0)
    } else {
        match first_open_for(l.drop_first(), key) {
            Some(i) => Some(i + 1),
            None => None,
        }
    }
}

proof fn lemma_first_open_for(l: Seq<IncidentRecord>, key: Seq<char>)
    ensures
        match first_open_for(l, key) {
            Some(i) => 0 <= i < l.len() && open_for(l[i], key) && forall|j: int| 0 <= j < i ==> !open_for(l[j], key),
            None => forall|j: int| 0 <= j < l.len() ==> !open_for(l[j], key),
        },
    decreases l.len(),
{
    if l.len() > 0 {
        lemma_first_open_for(l.drop_first(), key);
        if !open_for(l[0], key) {
            assert forall|j: int| 0 < j < l.len() implies l[j] == l.drop_first()[j - 1] by {}
        }
    }
}

fn position_open_for(l: &Vec<IncidentRecord>, key: &str) -> (r: Option<usize>)
    ensures
        match r {
            Some(i) => first_open_for(l@, key@) == Some(i as int) && i < l@.len(),
            None => first_open_for(l@, key@) is None,
        },
{
    proof {
        reveal_strlit("resolved");
    }
    let mut i: usize = 0;
    while i < l.len()
        invariant
            i <= l@.len(),
            forall|j: int| 0 <= j < i ==> !open_for(l@[j], key@),
        decreases l@.len() - i,
    {
        let hit = match &l[i].source_key {
            Some(k) => str_eq(k.as_str(), key) && !str_eq(l[i].status.as_str(), "resolved"),
            None => false,
        };
        if hit {
            proof {
                lemma_first_open_for(l@, key@);
                assert(open_for(l@[i as int], key@));
                if let Some(k) = first_open_for(l@, key@) {
                    if k > i {
                        assert(!open_for(l@[i as int], key@));
                    }
                }
            }
            return Some(i);
        }
        assert(!open_for(l@[i as int], key@));
        i = i + 1;
    }
    proof {
        lemma_first_open_for(l@, key@);
        if let Some(k) = first_open_for(l@, key@) {
            assert(!open_for(l@[k], key@));
        }
    }
    None
}

/// `rec` is the incident that monitoring opens for the unreachable service
/// `s`, with id `id` at `now`.
pub open spec fn auto_incident(s: ServiceSnapshot, rec: IncidentRecord, id: Seq<char>, now: Seq<char>) -> bool {
    &&& rec.id@ == id
    &&& opt_view(rec.source_key) == Some(service_key(s.name@))
    &&& rec.severity@ == (if s.critical { "critical"@ } else { "warning"@ })
    &&& rec.status@ == "open"@
    &&& rec.title@ == s.display_name@ + " ist nicht erreichbar"@
    &&& rec.description@ == (match s.message {
        Some(m) => m@,
        None => "health/readiness checks failed"@,
    })
    &&& opt_view(rec.service) == Some(s.name@)
    &&& rec.node_id is None && rec.issi is None && rec.gssi is None
    &&& rec.created_at@ == now
    &&& rec.created_by@ == "control-room-auto"@
    &&& rec.acknowledged_at is None && rec.acknowledged_by is None
    &&& rec.resolved_at is None && rec.resolved_by is None
    &&& rec.notes@.len() == 0
}

/// The failure count at which monitoring opens an incident: the threshold,
/// but at least 1.
pub open spec fn effective_threshold(t: u32) -> u32 {
    if t < 1 { 1 } else { t }
}

/// The incident list after monitoring has seen the snapshot `s`: an
/// unreachable service that reached the failure threshold gets an incident
/// unless one is open for it; a healthy service has its open incident
/// resolved; otherwise nothing changes.
pub open spec fn reconciled(
    o: Seq<IncidentRecord>,
    n: Seq<IncidentRecord>,
    s: ServiceSnapshot,
    failure_threshold: u32,
    id: Seq<char>,
    now: Seq<char>,
    note_id: Seq<char>,
) -> bool {
    let key = service_key(s.name@);
    if s.status@ == "offline"@ && s.consecutive_failures >= effective_threshold(failure_threshold) {
        match first_open_for(o, key) {
            Some(_) => n == o,
            None => n.len() == o.len() + 1 && n.take(o.len() as int) == o && auto_incident(s, n.last(), id, now),
        }
    } else if s.status@ == "healthy"@ {
        match first_open_for(o, key) {
            None => n == o,
            Some(i) => {
                &&& n.len() == o.len()
                &&& forall|j: int| 0 <= j < o.len() && j != i ==> n[j] == o[j]
                &&& resolved(
                    o[i],
                    n[i],
                    "control-room-auto"@,
                    now,
                    Some("Service health and readiness recovered"@),
                    note_id,
                )
            },
        }
    } else {
        n == o
    }
}

/// Opens or resolves the monitoring incident of a service after a poll.
pub fn reconcile_service_incident(
    incidents: &mut Vec<IncidentRecord>,
    snapshot: &ServiceSnapshot,
    failure_threshold: u32,
    id: String,
    now: String,
    note_id: String,
)
    ensures
        reconciled(old(incidents)@, final(incidents)@, *snapshot, failure_threshold, id@, now@, note_id@),
{
    let key = concat("service:", snapshot.name.as_str());
    let open_index = position_open_for(incidents, key.as_str());
    let threshold: u32 = if failure_threshold < 1 { 1 } else { failure_threshold };
    let offline = str_eq(snapshot.status.as_str(), "offline");
    let healthy = str_eq(snapshot.status.as_str(), "healthy");
    if offline && snapshot.consecutive_failures >= threshold {
        if open_index.is_none() {
            let title = concat(snapshot.display_name.as_str(), " ist nicht erreichbar");
            let description = match &snapshot.message {
                Some(m) => m.clone(),
                None => lit("health/readiness checks failed"),
            };
            let ghost before = incidents@;
            incidents.push(IncidentRecord {
                id,
                source_key: Some(key),
                severity: if snapshot.critical { lit("critical") } else { lit("warning") },
                status: lit("open"),
                title,
                description,
                service: Some(snapshot.name.clone()),
                node_id: None,
                issi: None,
                gssi: None,
                created_at: now,
                created_by: lit("control-room-auto"),
                acknowledged_at: None,
                acknowledged_by: None,
                resolved_at: None,
                resolved_by: None,
                notes: Vec::new(),
            });
            assert(incidents@.take(before.len() as int) =~= before);
        }
    } else if healthy {
        if let Some(i) = open_index {
            let ghost before = incidents@;
            let mut inc = incidents.remove(i);
            inc.status = lit("resolved");
            inc.resolved_at = Some(now.clone());
            inc.resolved_by = Some(lit("control-room-auto"));
            push_note(
                &mut inc.notes,
                Some(lit("Service health and readiness recovered")),
                note_id,
                now,
                lit("control-room-auto"),
            );
            incidents.insert(i, inc);
            assert forall|j: int| 0 <= j < before.len() && j != i implies incidents@[j] == before[j] by {}
        }
    }
}

fn clone_opt_json(o: &Option<serde_json::Value>) -> (r: Option<serde_json::Value>)
    ensures
        r == *o,
{
    match o {
        Some(v) => Some(clone_json(v)),
        None => None,
    }
}

/// A copy of a service snapshot.
pub fn clone_snapshot(s: &ServiceSnapshot) -> (r: ServiceSnapshot)
    ensures
        r == *s,
{
    ServiceSnapshot {
        name: s.name.clone(),
        display_name: s.display_name.clone(),
        kind: s.kind.clone(),
        base_url: s.base_url.clone(),
        webui_url: s.webui_url.clone(),
        critical: s.critical,
        enabled: s.enabled,
        status: s.status.clone(),
        live: s.live,
        ready: s.ready,
        checked_at: clone_opt(&s.checked_at),
        last_success_at: clone_opt(&s.last_success_at),
        latency_ms: s.latency_ms,
        consecutive_failures: s.consecutive_failures,
        http_status: s.http_status,
        message: clone_opt(&s.message),
        health: clone_opt_json(&s.health),
        readiness: clone_opt_json(&s.readiness),
        summary: clone_opt_json(&s.summary),
    }
}

/// Index of the first service with the given name.
pub open spec fn find_service(l: Seq<ServiceSnapshot>, name: Seq<char>) -> Option<int>
    decreases l.len(),
{
    if l.len() == 0 {
        None
    } else if l[0].name@ == name {
        Some(0)
    } else {
        match find_service(l.drop_first(), name) {
            Some(i) => Some(i + 1),
            None => None,
        }
    }
}

pub(crate) proof fn lemma_find_service(l: Seq<ServiceSnapshot>, name: Seq<char>)
    ensures
        match find_service(l, name) {
            Some(i) => 0 <= i < l.len() && l[i].name@ == name && forall|j: int| 0 <= j < i ==> l[j].name@ != name,
            None => forall|j: int| 0 <= j < l.len() ==> l[j].name@ != name,
        },
    decreases l.len(),
{
    if l.len() > 0 {
        lemma_find_service(l.drop_first(), name);
        if l[0].name@ != name {
            assert forall|j: int| 0 < j < l.len() implies l[j] == l.drop_first()[j - 1] by {}
        }
    }
}

pub(crate) fn service_position(l: &Vec<ServiceSnapshot>, name: &str) -> (r: Option<usize>)
    ensures
        match r {
            Some(i) => find_service(l@, name@) == Some(i as int) && i < l@.len(),
            None => find_service(l@, name@) is None,
        },
{
    let mut i: usize = 0;
    while i < l.len()
        invariant
            i <= l@.len(),
            forall|j: int| 0 <= j < i ==> l@[j].name@ != name@,
        decreases l@.len() - i,
    {
        if str_eq(l[i].name.as_str(), name) {
            proof {
                lemma_find_service(l@, name@);
                if let Some(k) = find_service(l@, name@) {
                    if k > i {
                        assert(l@[i as int].name@ == name@);
                    }
                } else {
                    assert(l@[i as int].name@ == name@);
                }
            }
            return Some(i);
        }
        i = i + 1;
    }
    proof {
        lemma_find_service(l@, name@);
        if let Some(k) = find_service(l@, name@) {
            assert(l@[k].name@ == name@);
        }
    }
    None
}

/// The text of the error for a service name that the state does not hold.
pub open spec fn unknown_service_error(name: Seq<char>) -> Seq<char> {
    "unknown service '"@ + name + "'"@
}

/// The word for an administrative switch.
pub open spec fn switch_word(enabled: bool) -> Seq<char> {
    if enabled { "enabled"@ } else { "disabled"@ }
}

/// `n` is the snapshot `o` switched on or off by `operator` at `now`.
pub open spec fn switched(o: ServiceSnapshot, n: ServiceSnapshot, enabled: bool, operator: Seq<char>, now: Seq<char>) -> bool {
    &&& n.name == o.name && n.display_name == o.display_name && n.kind == o.kind
    &&& n.base_url == o.base_url && n.webui_url == o.webui_url && n.critical == o.critical
    &&& n.enabled == enabled
    &&& n.status@ == (if enabled { "unknown"@ } else { "disabled"@ })
    &&& opt_view(n.message) == Some("administratively "@ + switch_word(enabled) + " by "@ + operator)
    &&& opt_view(n.checked_at) == Some(now)
    &&& n.live == o.live && n.ready == o.ready
    &&& n.last_success_at == o.last_success_at && n.latency_ms == o.latency_ms
    &&& n.consecutive_failures == o.consecutive_failures && n.http_status == o.http_status
    &&& n.health == o.health && n.readiness == o.readiness && n.summary == o.summary
}

/// `e` is the shift log entry that records the switch.
pub open spec fn switch_logged(e: ShiftLogEntry, name: Seq<char>, enabled: bool, operator: Seq<char>, id: Seq<char>, now: Seq<char>) -> bool {
    &&& e.id@ == id
    &&& e.timestamp@ == now
    &&& e.operator_id@ == operator
    &&& e.category@ == "service"@
    &&& e.text@ == "Service "@ + name + " administratively "@ + switch_word(enabled)
        + " in Control Room monitoring"@
}

impl OperationsState {
    /// The state of the first service with the given name.
    pub fn service(&self, name: &str) -> (r: Option<ServiceSnapshot>)
        ensures
            match find_service(self.services@, name@) {
                Some(i) => r == Some(self.services@[i]),
                None => r is None,
            },
    {
        match service_position(&self.services, name) {
            Some(i) => Some(clone_snapshot(&self.services[i])),
            None => None,
        }
    }

    /// The states of all services, in order.
    pub fn services(&self) -> (r: Vec<ServiceSnapshot>)
        ensures
            r@ == self.services@,
    {
        let mut out: Vec<ServiceSnapshot> = Vec::new();
        let mut i: usize = 0;
        while i < self.services.len()
            invariant
                i <= self.services@.len(),
                out@ == self.services@.take(i as int),
            decreases self.services@.len() - i,
        {
            out.push(clone_snapshot(&self.services[i]));
            i = i + 1;
            assert(out@ =~= self.services@.take(i as int));
        }
        assert(self.services@.take(self.services@.len() as int) =~= self.services@);
        out
    }

    /// Switches service `name` on or off in monitoring at `now`, and records
    /// the switch in the shift log with id `log_id`.
    pub fn set_service_enabled_at(
        &mut self,
        name: &str,
        enabled: bool,
        operator_id: &str,
        now: String,
        log_id: String,
        shift_log_limit: usize,
    ) -> (r: Result<ServiceSnapshot, String>)
        ensures
            match find_service(old(self).services@, name@) {
                None => {
                    &&& r matches Err(e) && e@ == unknown_service_error(name@)
                    &&& final(self).services == old(self).services
                    &&& final(self).shift_log == old(self).shift_log
                    &&& final(self).updated_at == old(self).updated_at
                },
                Some(i) => {
                    &&& r == Ok::<ServiceSnapshot, String>(final(self).services@[i])
                    &&& final(self).services@.len() == old(self).services@.len()
                    &&& forall|j: int|
                        0 <= j < old(self).services@.len() && j != i ==> final(self).services@[j]
                            == old(self).services@[j]
                    &&& switched(
                        old(self).services@[i],
                        final(self).services@[i],
                        enabled,
                        operator_name(operator_id@),
                        now@,
                    )
                    &&& final(self).shift_log@ == keep_newest(
                        old(self).shift_log@.push(final(self).shift_log@.last()),
                        shift_log_limit,
                    )
                    &&& switch_logged(
                        final(self).shift_log@.last(),
                        name@,
                        enabled,
                        operator_name(operator_id@),
                        log_id@,
                        now@,
                    )
                    &&& final(self).updated_at == now
                },
            },
            final(self).incidents == old(self).incidents,
            final(self).poll_count == old(self).poll_count,
            final(self).poll_in_progress == old(self).poll_in_progress,
    {
        let i = match service_position(&self.services, name) {
            Some(i) => i,
            None => {
                let a = concat("unknown service '", name);
                return Err(concat(a.as_str(), "'"));
            },
        };
        let operator = normalise_operator(operator_id);
        let word = if enabled { lit("enabled") } else { lit("disabled") };
        let mut snap = self.services.remove(i);
        snap.enabled = enabled;
        snap.status = if enabled { lit("unknown") } else { lit("disabled") };
        let mut message = concat("administratively ", word.as_str());
        push_str(&mut message, " by ");
        push_str(&mut message, operator.as_str());
        snap.message = Some(message);
        snap.checked_at = Some(now.clone());
        let out = clone_snapshot(&snap);
        self.services.insert(i, snap);
        let mut text = concat("Service ", name);
        push_str(&mut text, " administratively ");
        push_str(&mut text, word.as_str());
        push_str(&mut text, " in Control Room monitoring");
        let entry = ShiftLogEntry {
            id: log_id,
            timestamp: now.clone(),
            operator_id: operator,
            category: lit("service"),
            text,
        };
        let ghost before = self.shift_log@;
        let ghost eg = entry;
        self.shift_log.push(entry);
        trim_shift_log(&mut self.shift_log, shift_log_limit);
        proof {
            assert(self.shift_log@.last() == eg);
        }
        self.updated_at = now;
        Ok(out)
    }
}

/// Where a new service name goes: before the first service whose name is not
/// smaller (the place that keeps a name-ordered list ordered).
pub open spec fn insert_position(l: Seq<ServiceSnapshot>, name: Seq<char>) -> int
    decreases l.len(),
{
    if l.len() == 0 {
        0
    } else if !seq_lt(l[0].name@, name) {
        0
    } else {
        1 + insert_position(l.drop_first(), name)
    }
}

pub(crate) proof fn lemma_insert_position(l: Seq<ServiceSnapshot>, name: Seq<char>)
    ensures
        0 <= insert_position(l, name) <= l.len(),
        forall|j: int| 0 <= j < insert_position(l, name) ==> seq_lt(l[j].name@, name),
        insert_position(l, name) < l.len() ==> !seq_lt(l[insert_position(l, name)].name@, name),
    decreases l.len(),
{
    if l.len() > 0 && seq_lt(l[0].name@, name) {
        lemma_insert_position(l.drop_first(), name);
        assert forall|j: int| 0 < j < l.len() implies l[j] == l.drop_first()[j - 1] by {}
    }
}

pub(crate) fn service_insert_position(l: &Vec<ServiceSnapshot>, name: &str) -> (r: usize)
    ensures
        r as int == insert_position(l@, name@),
{
    let mut i: usize = 0;
    assert(l@.skip(0) =~= l@);
    while i < l.len() && str_lt(l[i].name.as_str(), name)
        invariant
            i <= l@.len(),
            insert_position(l@, name@) == i + insert_position(l@.skip(i as int), name@),
        decreases l@.len() - i,
    {
        assert(l@.skip(i as int).drop_first() =~= l@.skip(i + 1));
        assert(l@.skip(i as int)[0] == l@[i as int]);
        i = i + 1;
    }
    if i < l.len() {
        assert(l@.skip(i as int)[0] == l@[i as int]);
    }
    i
}

impl OperationsState {
    /// Starts a poll cycle at `now` unless one is running; says whether it did.
    pub fn claim_poll(&mut self, now: String) -> (r: bool)
        ensures
            r == !old(self).poll_in_progress,
            r ==> final(self).poll_in_progress && final(self).last_poll_started_at == Some(now)
                && final(self).updated_at == now,
            !r ==> *final(self) == *old(self),
            final(self).services == old(self).services,
            final(self).incidents == old(self).incidents,
            final(self).shift_log == old(self).shift_log,
            final(self).poll_count == old(self).poll_count,
            final(self).last_poll_finished_at == old(self).last_poll_finished_at,
    {
        if self.poll_in_progress {
            return false;
        }
        self.poll_in_progress = true;
        self.last_poll_started_at = Some(now.clone());
        self.updated_at = now;
        true
    }

    /// Ends a poll cycle at `now` and counts it.
    pub fn finish_poll(&mut self, now: String)
        ensures
            !final(self).poll_in_progress,
            final(self).poll_count == (if old(self).poll_count == u64::MAX {
                u64::MAX as int
            } else {
                old(self).poll_count + 1
            }),
            final(self).last_poll_finished_at == Some(now),
            final(self).updated_at == now,
            final(self).services == old(self).services,
            final(self).incidents == old(self).incidents,
            final(self).shift_log == old(self).shift_log,
            final(self).last_poll_started_at == old(self).last_poll_started_at,
    {
        self.poll_in_progress = false;
        self.poll_count = self.poll_count.saturating_add(1);
        self.last_poll_finished_at = Some(now.clone());
        self.updated_at = now;
    }

    /// Whether a configured service is to be polled: its recorded switch, or
    /// the configuration's when the state does not know it.
    pub fn poll_enabled(&self, config: &CoreServiceConfig) -> (r: bool)
        ensures
            r == (match find_service(self.services@, config.name@) {
                Some(i) => self.services@[i].enabled,
                None => config.enabled,
            }),
    {
        match service_position(&self.services, config.name.as_str()) {
            Some(i) => self.services[i].enabled,
            None => config.enabled,
        }
    }

    /// Marks a service that is switched off as disabled at `now`.
    pub fn mark_disabled(&mut self, name: &str, now: String)
        ensures
            match find_service(old(self).services@, name@) {
                None => final(self).services == old(self).services,
                Some(i) => {
                    let o = old(self).services@[i];
                    let n = final(self).services@[i];
                    &&& final(self).services@.len() == old(self).services@.len()
                    &&& forall|j: int|
                        0 <= j < old(self).services@.len() && j != i ==> final(self).services@[j]
                            == old(self).services@[j]
                    &&& n == (ServiceSnapshot {
                        status: n.status,
                        live: None,
                        ready: None,
                        checked_at: Some(now),
                        message: n.message,
                        ..o
                    })
                    &&& n.status@ == "disabled"@
                    &&& opt_view(n.message) == Some("administratively disabled in Control Room"@)
                },
            },
            final(self).incidents == old(self).incidents,
            final(self).shift_log == old(self).shift_log,
            final(self).updated_at == old(self).updated_at,
    {
        if let Some(i) = service_position(&self.services, name) {
            let mut snap = self.services.remove(i);
            snap.status = lit("disabled");
            snap.live = None;
            snap.ready = None;
            snap.checked_at = Some(now);
            snap.message = Some(lit("administratively disabled in Control Room"));
            self.services.insert(i, snap);
            assert forall|j: int|
                0 <= j < old(self).services@.len() && j != i implies self.services@[j] == old(self).services@[j] by {}
        }
    }

    /// Records the poll of a configured service at `now`: the snapshot (made
    /// from the configuration when the state does not hold it, at its place
    /// by name) takes the result; with automatic incidents on, the service's
    /// incident is opened or resolved; the journal then keeps its newest
    /// incidents.
    pub fn record_poll(
        &mut self,
        config: &CoreServiceConfig,
        result: PollResult,
        failure_threshold: u32,
        auto_service_incidents: bool,
        incident_limit: usize,
        now: String,
        incident_id: String,
        note_id: String,
    )
        ensures
            ({
                let o = old(self).services@;
                let n = final(self).services@;
                match find_service(o, config.name@) {
                    Some(i) => {
                        &&& n.len() == o.len()
                        &&& forall|j: int| 0 <= j < o.len() && j != i ==> n[j] == o[j]
                        &&& poll_applied(o[i], result, n[i])
                    },
                    None => {
                        let p = insert_position(o, config.name@);
                        &&& n.len() == o.len() + 1
                        &&& forall|j: int| 0 <= j < p ==> n[j] == o[j]
                        &&& forall|j: int| p < j < n.len() ==> n[j] == o[j - 1]
                        &&& exists|base: ServiceSnapshot|
                            #[trigger] snapshot_from_config(*config, base) && poll_applied(base, result, n[p])
                    },
                }
            }),
            ({
                let i = match find_service(old(self).services@, config.name@) {
                    Some(i) => i,
                    None => insert_position(old(self).services@, config.name@),
                };
                exists|mid: Seq<IncidentRecord>|
                    #[trigger] final(self).incidents@ == keep_newest(mid, incident_limit) && (if auto_service_incidents {
                        reconciled(
                            old(self).incidents@,
                            mid,
                            final(self).services@[i],
                            failure_threshold,
                            incident_id@,
                            now@,
                            note_id@,
                        )
                    } else {
                        mid == old(self).incidents@
                    })
            }),
            final(self).updated_at == now,
            final(self).shift_log == old(self).shift_log,
            final(self).poll_in_progress == old(self).poll_in_progress,
            final(self).poll_count == old(self).poll_count,
    {
        let ghost old_services = self.services@;
        let i = match service_position(&self.services, config.name.as_str()) {
            Some(i) => i,
            None => {
                let p = service_insert_position(&self.services, config.name.as_str());
                proof {
                    lemma_insert_position(self.services@, config.name@);
                }
                let fresh = ServiceSnapshot::from_config(config);
                self.services.insert(p, fresh);
                p
            },
        };
        let ghost base = self.services@[i as int];
        let mut snap = self.services.remove(i);
        apply_poll_result(&mut snap, result);
        let copy = clone_snapshot(&snap);
        self.services.insert(i, snap);
        proof {
            match find_service(old_services, config.name@) {
                Some(k) => {
                    assert forall|j: int| 0 <= j < old_services.len() && j != k implies self.services@[j]
                        == old_services[j] by {}
                },
                None => {
                    assert(snapshot_from_config(*config, base));
                    assert forall|j: int| 0 <= j < i implies self.services@[j] == old_services[j] by {}
                    assert forall|j: int| i < j < self.services@.len() implies self.services@[j]
                        == old_services[j - 1] by {}
                },
            }
        }
        let ghost old_incidents = self.incidents@;
        if auto_service_incidents {
            reconcile_service_incident(&mut self.incidents, &copy, failure_threshold, incident_id, now.clone(), note_id);
        }
        let ghost mid = self.incidents@;
        trim_incidents(&mut self.incidents, incident_limit);
        assert(self.incidents@ == keep_newest(mid, incident_limit));
        self.updated_at = now;
    }
}

/// The Prometheus exposition of the dashboard counts.
pub open spec fn metrics_text(o: OperationsOverview) -> Seq<char> {
    "# HELP netcore_control_room_services_total Configured backend services\n"@
        + "# TYPE netcore_control_room_services_total gauge\n"@ + "netcore_control_room_services_total "@
        + dec_seq(o.services_total as nat) + "\n"@
        + "# HELP netcore_control_room_services_healthy Healthy backend services\n"@
        + "# TYPE netcore_control_room_services_healthy gauge\n"@ + "netcore_control_room_services_healthy "@
        + dec_seq(o.services_healthy as nat) + "\n"@
        + "# HELP netcore_control_room_services_offline Offline backend services\n"@
        + "# TYPE netcore_control_room_services_offline gauge\n"@ + "netcore_control_room_services_offline "@
        + dec_seq(o.services_offline as nat) + "\n"@
        + "# HELP netcore_control_room_critical_services_offline Offline critical backend services\n"@
        + "# TYPE netcore_control_room_critical_services_offline gauge\n"@
        + "netcore_control_room_critical_services_offline "@ + dec_seq(o.critical_services_offline as nat) + "\n"@
        + "# HELP netcore_control_room_incidents_open Open or acknowledged incidents\n"@
        + "# TYPE netcore_control_room_incidents_open gauge\n"@ + "netcore_control_room_incidents_open "@
        + dec_seq((o.incidents_open + o.incidents_acknowledged) as nat) + "\n"@
        + "# HELP netcore_control_room_poll_count Completed service polls\n"@
        + "# TYPE netcore_control_room_poll_count counter\n"@ + "netcore_control_room_poll_count "@
        + dec_seq(o.poll_count as nat) + "\n"@
}

/// The Prometheus exposition of the dashboard counts.
pub fn metrics(o: &OperationsOverview) -> (r: String)
    requires
        o.incidents_open + o.incidents_acknowledged <= u64::MAX,
    ensures
        r@ == metrics_text(*o),
{
    let mut t = lit("# HELP netcore_control_room_services_total Configured backend services\n");
    push_str(&mut t, "# TYPE netcore_control_room_services_total gauge\n");
    push_str(&mut t, "netcore_control_room_services_total ");
    push_dec(&mut t, o.services_total as u64);
    push_str(&mut t, "\n");
    push_str(&mut t, "# HELP netcore_control_room_services_healthy Healthy backend services\n");
    push_str(&mut t, "# TYPE netcore_control_room_services_healthy gauge\n");
    push_str(&mut t, "netcore_control_room_services_healthy ");
    push_dec(&mut t, o.services_healthy as u64);
    push_str(&mut t, "\n");
    push_str(&mut t, "# HELP netcore_control_room_services_offline Offline backend services\n");
    push_str(&mut t, "# TYPE netcore_control_room_services_offline gauge\n");
    push_str(&mut t, "netcore_control_room_services_offline ");
    push_dec(&mut t, o.services_offline as u64);
    push_str(&mut t, "\n");
    push_str(&mut t, "# HELP netcore_control_room_critical_services_offline Offline critical backend services\n");
    push_str(&mut t, "# TYPE netcore_control_room_critical_services_offline gauge\n");
    push_str(&mut t, "netcore_control_room_critical_services_offline ");
    push_dec(&mut t, o.critical_services_offline as u64);
    push_str(&mut t, "\n");
    push_str(&mut t, "# HELP netcore_control_room_incidents_open Open or acknowledged incidents\n");
    push_str(&mut t, "# TYPE netcore_control_room_incidents_open gauge\n");
    push_str(&mut t, "netcore_control_room_incidents_open ");
    push_dec(&mut t, (o.incidents_open as u64) + (o.incidents_acknowledged as u64));
    push_str(&mut t, "\n");
    push_str(&mut t, "# HELP netcore_control_room_poll_count Completed service polls\n");
    push_str(&mut t, "# TYPE netcore_control_room_poll_count counter\n");
    push_str(&mut t, "netcore_control_room_poll_count ");
    push_dec(&mut t, o.poll_count);
    push_str(&mut t, "\n");
    t
}

/// The error text that `str::parse::<u16>` gives for text it refuses.
pub uninterp spec fn u16_parse_error_text(s: Seq<char>) -> Seq<char>;

/// Calls `str::parse::<u16>`, which reads an optional `+` and then one or
/// more decimal digits whose value fits in a `u16`. The text of its error
/// (`ParseIntError` as displayed) is named, not stated.
#[verifier::external_body]
fn parse_u16(s: &str) -> (r: Result<u16, String>)
    ensures
        match r {
            Ok(v) => parse_uint_seq(s@, 65535) == Some(v as nat),
            Err(e) => parse_uint_seq(s@, 65535) is None && e@ == u16_parse_error_text(s@),
        },
{
    s.parse::<u16>().map_err(|e| e.to_string())
}

/// A federation URL split into its parts.
#[derive(Debug)]
pub struct ParsedHttpUrl {
    pub host: String,
    pub host_header: String,
    pub port: u16,
    pub path: String,
}

/// The port that the text after a host gives: the default 80, or the number
/// after a `:`, or the error of an unreadable number.
pub open spec fn port_after(after: Seq<char>) -> Result<u16, Seq<char>> {
    if after.len() > 0 && after[0] == ':' {
        match parse_uint_seq(after.drop_first(), 65535) {
            Some(p) => Ok(p as u16),
            None => Err("invalid port: "@ + u16_parse_error_text(after.drop_first())),
        }
    } else {
        Ok(80u16)
    }
}

/// Host, authority, port and path of a federation URL: only `http://` URLs;
/// the authority ends at the first `/`; a bracketed IPv6 host may be
/// followed by `:port`; otherwise the text after the last `:` is the port
/// when it is all digits.
pub open spec fn federation_url(url: Seq<char>) -> Result<(Seq<char>, Seq<char>, u16, Seq<char>), Seq<char>> {
    match strip_prefix_seq(url, "http://"@) {
        None => Err("only http:// URLs are supported in open_lab federation"@),
        Some(rest) => {
            let authority = match find_char_seq(rest, '/') {
                Some(i) => rest.take(i),
                None => rest,
            };
            let path = match find_char_seq(rest, '/') {
                Some(i) => rest.skip(i),
                None => "/"@,
            };
            if trim_seq(authority).len() == 0 {
                Err("URL host is empty"@)
            } else if authority[0] == '[' {
                match find_char_seq(authority, ']') {
                    None => Err("invalid IPv6 authority"@),
                    Some(end) => match port_after(authority.skip(end + 1)) {
                        Ok(port) => Ok((authority.subrange(1, end), authority, port, path)),
                        Err(e) => Err(e),
                    },
                }
            } else {
                match rfind_char_seq(authority, ':') {
                    Some(k) => if all_digits(authority.skip(k + 1)) {
                        match parse_uint_seq(authority.skip(k + 1), 65535) {
                            Some(p) => Ok((authority.take(k), authority, p as u16, path)),
                            None => Err("invalid port: "@ + u16_parse_error_text(authority.skip(k + 1))),
                        }
                    } else {
                        Ok((authority, authority, 80u16, path))
                    },
                    None => Ok((authority, authority, 80u16, path)),
                }
            }
        },
    }
}

fn all_ascii_digits(v: &Vec<char>, from: usize) -> (r: bool)
    requires
        from <= v@.len(),
    ensures
        r == all_digits(v@.skip(from as int)),
{
    let mut i = from;
    while i < v.len()
        invariant
            from <= i <= v@.len(),
            forall|k: int| from <= k < i ==> is_digit(v@[k]),
        decreases v@.len() - i,
    {
        if !('0' <= v[i] && v[i] <= '9') {
            assert(!is_digit(v@.skip(from as int)[i - from]));
            return false;
        }
        i = i + 1;
    }
    assert forall|k: int| 0 <= k < v@.skip(from as int).len() implies is_digit(#[trigger] v@.skip(from as int)[k]) by {
        assert(v@.skip(from as int)[k] == v@[from + k]);
    }
    true
}

fn port_from(v: &Vec<char>, from: usize) -> (r: Result<u16, String>)
    requires
        from <= v@.len(),
    ensures
        match port_after(v@.skip(from as int)) {
            Ok(p) => r == Ok::<u16, String>(p),
            Err(e) => r matches Err(x) && x@ == e,
        },
{
    if from < v.len() && v[from] == ':' {
        let text = string_of_range(v, from + 1, v.len());
        assert(text@ =~= v@.skip(from as int).drop_first());
        match parse_u16(text.as_str()) {
            Ok(p) => Ok(p),
            Err(e) => Err(concat("invalid port: ", e.as_str())),
        }
    } else {
        Ok(80)
    }
}

/// Splits a federation URL into host, authority, port and path.
pub fn parse_http_url(url: &str) -> (r: Result<ParsedHttpUrl, String>)
    ensures
        match federation_url(url@) {
            Ok((h, a, p, path)) => r matches Ok(x) && x.host@ == h && x.host_header@ == a && x.port == p && x.path@
                == path,
            Err(e) => r matches Err(x) && x@ == e,
        },
{
    let rest = match strip_prefix(url, "http://") {
        Some(r) => r,
        None => return Err(lit("only http:// URLs are supported in open_lab federation")),
    };
    let v = chars_of(rest.as_str());
    proof {
        lemma_find_char(v@, '/');
        reveal_strlit("/");
    }
    let (authority, path) = match find_char(&v, '/') {
        Some(i) => (string_of_range(&v, 0, i), string_of_range(&v, i, v.len())),
        None => (string_of_range(&v, 0, v.len()), lit("/")),
    };
    proof {
        match find_char_seq(v@, '/') {
            Some(i) => {
                assert(authority@ =~= rest@.take(i));
                assert(path@ =~= rest@.skip(i));
            },
            None => {
                assert(authority@ =~= rest@);
            },
        }
    }
    let t = trim(authority.as_str());
    if t.as_str().is_empty() {
        return Err(lit("URL host is empty"));
    }
    let a = chars_of(authority.as_str());
    proof {
        if authority@.len() == 0 {
            crate::text::lemma_trim_empty(authority@);
        }
    }
    if a[0] == '[' {
        proof {
            lemma_find_char(a@, ']');
        }
        let end = match find_char(&a, ']') {
            Some(e) => e,
            None => return Err(lit("invalid IPv6 authority")),
        };
        let port = match port_from(&a, end + 1) {
            Ok(p) => p,
            Err(e) => return Err(e),
        };
        let host = string_of_range(&a, 1, end);
        return Ok(ParsedHttpUrl { host, host_header: authority, port, path });
    }
    proof {
        lemma_rfind_char(a@, ':');
    }
    match rfind_char(&a, ':') {
        Some(k) => {
            if all_ascii_digits(&a, k + 1) {
                let port_text = string_of_range(&a, k + 1, a.len());
                assert(port_text@ =~= authority@.skip(k + 1));
                match parse_u16(port_text.as_str()) {
                    Ok(p) => {
                        let host = string_of_range(&a, 0, k);
                        assert(host@ =~= authority@.take(k as int));
                        Ok(ParsedHttpUrl { host, host_header: authority, port: p, path })
                    },
                    Err(e) => Err(concat("invalid port: ", e.as_str())),
                }
            } else {
                let host = string_of_range(&a, 0, a.len());
                assert(host@ =~= authority@);
                Ok(ParsedHttpUrl { host, host_header: authority, port: 80, path })
            }
        },
        None => {
            let host = string_of_range(&a, 0, a.len());
            assert(host@ =~= authority@);
            Ok(ParsedHttpUrl { host, host_header: authority, port: 80, path })
        },
    }
}

} // verus!
