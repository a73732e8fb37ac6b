//! The control room's register of nodes, with the log of what they reported
//! and the audit trail of the commands sent to them.
use vstd::prelude::*;
use crate::node_state::{
    NodeState, NodeHello, TelemetryEvent, node_is_new, hello_applied, heartbeat_applied, telemetry_applied,
    ack_counted, response_counted, seen_again, error_recorded, link_marked, keep_last, keep_last_in,
    event_type_name, telemetry_event_type, text_view,
};
use crate::operations::{now_iso, clone_json, random_uuid_text, uuid_text_form};
use crate::room_state::{noisy_event_type, is_noisy_event_type};
use crate::text::{lit, str_eq, concat};

verus! {

/// What an entry of the event log holds: the JSON document that a node sent,
/// or the text of an error that a node reported.
#[derive(Debug)]
pub enum EventRecord {
    Document(serde_json::Value),
    NodeError(String),
}

/// An [`EventRecord`] with its text as characters.
pub enum EventRecordView {
    Document(serde_json::Value),
    NodeError(Seq<char>),
}

impl View for EventRecord {
    type V = EventRecordView;

    open spec fn view(&self) -> EventRecordView {
        match self {
            EventRecord::Document(v) => EventRecordView::Document(*v),
            EventRecord::NodeError(m) => EventRecordView::NodeError(m@),
        }
    }
}

/// An entry of the event log.
#[derive(Debug)]
pub struct EventLogEntry {
    pub timestamp: String,
    pub node_id: String,
    pub seq: Option<u64>,
    pub event_type: String,
    pub event: EventRecord,
}

/// An [`EventLogEntry`] with its texts as characters.
pub struct EventView {
    pub timestamp: Seq<char>,
    pub node_id: Seq<char>,
    pub seq: Option<u64>,
    pub event_type: Seq<char>,
    pub event: EventRecordView,
}

impl View for EventLogEntry {
    type V = EventView;

    open spec fn view(&self) -> EventView {
        EventView {
            timestamp: self.timestamp@,
            node_id: self.node_id@,
            seq: self.seq,
            event_type: self.event_type@,
            event: self.event@,
        }
    }
}

impl EventLogEntry {
    /// A copy of the entry.
    pub fn duplicate(&self) -> (r: EventLogEntry)
        ensures
            r@ == self@,
    {
        let event = match &self.event {
            EventRecord::Document(v) => EventRecord::Document(clone_json(v)),
            EventRecord::NodeError(m) => EventRecord::NodeError(m.clone()),
        };
        EventLogEntry {
            timestamp: self.timestamp.clone(),
            node_id: self.node_id.clone(),
            seq: self.seq,
            event_type: self.event_type.clone(),
            event,
        }
    }
}

/// A command in the audit trail, with what became of it.
#[derive(Debug)]
pub struct CommandAuditEntry {
    pub command_id: String,
    pub target_node_id: String,
    pub operator_id: Option<String>,
    pub issued_at: String,
    pub updated_at: String,
    pub status: String,
    /// The entity of the node that took the command, by name.
    pub target_entity: Option<String>,
    pub message: Option<String>,
    /// The command as the control room sent it; none for a command that
    /// only the node's answer made known.
    pub command: Option<serde_json::Value>,
    pub responses: Vec<serde_json::Value>,
}

/// A [`CommandAuditEntry`] with its texts as characters.
pub struct CommandView {
    pub command_id: Seq<char>,
    pub target_node_id: Seq<char>,
    pub operator_id: Option<Seq<char>>,
    pub issued_at: Seq<char>,
    pub updated_at: Seq<char>,
    pub status: Seq<char>,
    pub target_entity: Option<Seq<char>>,
    pub message: Option<Seq<char>>,
    pub command: Option<serde_json::Value>,
    pub responses: Seq<serde_json::Value>,
}

impl View for CommandAuditEntry {
    type V = CommandView;

    open spec fn view(&self) -> CommandView {
        CommandView {
            command_id: self.command_id@,
            target_node_id: self.target_node_id@,
            operator_id: text_view(self.operator_id),
            issued_at: self.issued_at@,
            updated_at: self.updated_at@,
            status: self.status@,
            target_entity: text_view(self.target_entity),
            message: text_view(self.message),
            command: self.command,
            responses: self.responses@,
        }
    }
}

fn copy_text(o: &Option<String>) -> (r: Option<String>)
    ensures
        r == *o,
{
    match o {
        Some(s) => Some(s.clone()),
        None => None,
    }
}

fn copy_documents(v: &Vec<serde_json::Value>) -> (r: Vec<serde_json::Value>)
    ensures
        r@ == v@,
{
    let mut out: Vec<serde_json::Value> = Vec::new();
    for i in 0..v.len()
        invariant
            out@ == v@.take(i as int),
    {
        out.push(clone_json(&v[i]));
        assert(out@ =~= v@.take(i + 1));
    }
    assert(v@.take(v@.len() as int) =~= v@);
    out
}

impl CommandAuditEntry {
    /// A copy of the entry.
    pub fn duplicate(&self) -> (r: CommandAuditEntry)
        ensures
            r@ == self@,
    {
        let command = match &self.command {
            Some(c) => Some(clone_json(c)),
            None => None,
        };
        CommandAuditEntry {
            command_id: self.command_id.clone(),
            target_node_id: self.target_node_id.clone(),
            operator_id: copy_text(&self.operator_id),
            issued_at: self.issued_at.clone(),
            updated_at: self.updated_at.clone(),
            status: self.status.clone(),
            target_entity: copy_text(&self.target_entity),
            message: copy_text(&self.message),
            command,
            responses: copy_documents(&self.responses),
        }
    }
}

/// The views of the entries of an event log, oldest first.
pub open spec fn events_view(s: Seq<EventLogEntry>) -> Seq<EventView> {
    s.map_values(|e: EventLogEntry| e@)
}

/// The views of the entries of a command audit trail, oldest first.
pub open spec fn commands_view(s: Seq<CommandAuditEntry>) -> Seq<CommandView> {
    s.map_values(|c: CommandAuditEntry| c@)
}

/// No two nodes of the register share an id.
pub open spec fn ids_unique(nodes: Seq<NodeState>) -> bool {
    forall|i: int, j: int|
        0 <= i < nodes.len() && 0 <= j < nodes.len() && i != j ==> #[trigger] nodes[i].node_id@
            != #[trigger] nodes[j].node_id@
}

/// The register holds a node with the id `id`.
pub open spec fn knows(nodes: Seq<NodeState>, id: Seq<char>) -> bool {
    exists|i: int| 0 <= i < nodes.len() && #[trigger] nodes[i].node_id@ == id
}

/// Where the node with the id `id` stands in the register.
pub open spec fn node_index(nodes: Seq<NodeState>, id: Seq<char>) -> int {
    choose|i: int| 0 <= i < nodes.len() && #[trigger] nodes[i].node_id@ == id
}

/// `after` is the register `before` in which the node `id` went through
/// `step`: the node if it was there, else a new node, added at the end.
/// Every other node stays as it was.
pub open spec fn register_updated(
    before: Seq<NodeState>,
    after: Seq<NodeState>,
    id: Seq<char>,
    step: spec_fn(NodeState, NodeState) -> bool,
) -> bool {
    if knows(before, id) {
        let i = node_index(before, id);
        &&& after.len() == before.len()
        &&& forall|j: int| 0 <= j < before.len() && j != i ==> after[j] == before[j]
        &&& step(before[i], after[i])
    } else {
        &&& after.len() == before.len() + 1
        &&& forall|j: int| 0 <= j < before.len() ==> after[j] == before[j]
        &&& exists|fresh: NodeState| node_is_new(fresh, id) && step(fresh, after[before.len() as int])
    }
}

/// A message that a node sends to the control room. The announcement and the
/// telemetry carry, as `record`, the JSON document of the message, for the
/// event log.
#[derive(Debug)]
#[allow(inconsistent_fields)]
pub enum NodeMessage {
    Hello { node_id: String, hello: NodeHello, record: serde_json::Value },
    Heartbeat { node_id: String, connected: bool, seq: u64, timestamp: String },
    Telemetry { node_id: String, seq: u64, timestamp: String, event: TelemetryEvent, record: serde_json::Value },
    ControlAck {
        node_id: String,
        command_id: String,
        accepted: bool,
        target_entity: Option<String>,
        message: String,
        timestamp: String,
    },
    ControlResponse {
        node_id: String,
        command_id: Option<String>,
        target_entity: Option<String>,
        timestamp: String,
        response: serde_json::Value,
    },
    MediaFrame { node_id: String, timestamp: String },
    Error { node_id: String, message: String, timestamp: String },
}

/// The id of the node that sent `m`.
pub open spec fn message_node_id(m: NodeMessage) -> Seq<char> {
    match m {
        NodeMessage::Hello { node_id, .. } => node_id@,
        NodeMessage::Heartbeat { node_id, .. } => node_id@,
        NodeMessage::Telemetry { node_id, .. } => node_id@,
        NodeMessage::ControlAck { node_id, .. } => node_id@,
        NodeMessage::ControlResponse { node_id, .. } => node_id@,
        NodeMessage::MediaFrame { node_id, .. } => node_id@,
        NodeMessage::Error { node_id, .. } => node_id@,
    }
}

/// What `m`, handled at `now`, does to the node that sent it: `o` before,
/// `n` after.
pub open spec fn node_step(m: NodeMessage, now: String) -> spec_fn(NodeState, NodeState) -> bool {
    |o: NodeState, n: NodeState|
        match m {
            NodeMessage::Hello { hello, .. } => hello_applied(o, n, hello, now),
            NodeMessage::Heartbeat { connected, seq, timestamp, .. } => heartbeat_applied(
                o,
                n,
                connected,
                seq,
                timestamp,
            ),
            NodeMessage::Telemetry { seq, timestamp, event, .. } => telemetry_applied(o, n, seq, timestamp, event),
            NodeMessage::ControlAck { timestamp, .. } => ack_counted(o, n, timestamp),
            NodeMessage::ControlResponse { timestamp, .. } => response_counted(o, n, timestamp),
            NodeMessage::MediaFrame { timestamp, .. } => seen_again(o, n, timestamp),
            NodeMessage::Error { message, timestamp, .. } => error_recorded(o, n, timestamp@, message@),
        }
}

/// The register after `m`, handled at `now`: the node that sent it goes
/// through `node_step`, added first if it was not there; only a media frame
/// from a node not in the register changes nothing.
pub open spec fn register_after(before: Seq<NodeState>, after: Seq<NodeState>, m: NodeMessage, now: String) -> bool {
    if m is MediaFrame && !knows(before, message_node_id(m)) {
        after == before
    } else {
        register_updated(before, after, message_node_id(m), node_step(m, now))
    }
}

/// What `m`, handled at `now`, adds to the event log: the announcement at
/// `now`, the telemetry event with its type, or the node's error.
pub open spec fn logged_events(m: NodeMessage, now: String) -> Seq<EventView> {
    match m {
        NodeMessage::Hello { node_id, record, .. } => seq![
            EventView {
                timestamp: now@,
                node_id: node_id@,
                seq: None,
                event_type: "hello"@,
                event: EventRecordView::Document(record),
            },
        ],
        NodeMessage::Telemetry { node_id, seq, timestamp, event, record } => seq![
            EventView {
                timestamp: timestamp@,
                node_id: node_id@,
                seq: Some(seq),
                event_type: event_type_name(event),
                event: EventRecordView::Document(record),
            },
        ],
        NodeMessage::Error { node_id, message, timestamp } => seq![
            EventView {
                timestamp: timestamp@,
                node_id: node_id@,
                seq: None,
                event_type: "node_error"@,
                event: EventRecordView::NodeError(message@),
            },
        ],
        _ => Seq::empty(),
    }
}

/// The status that an acknowledgement gives a command.
pub open spec fn ack_status(accepted: bool) -> Seq<char> {
    if accepted {
        "accepted"@
    } else {
        "rejected"@
    }
}

/// `i` is the first entry of the trail `s` for the command `id`.
pub open spec fn is_first_command(s: Seq<CommandView>, id: Seq<char>, i: int) -> bool {
    &&& 0 <= i < s.len()
    &&& s[i].command_id == id
    &&& forall|j: int| 0 <= j < i ==> #[trigger] s[j].command_id != id
}

/// The first entry of the trail `s` for the command `id`, if there is one.
pub open spec fn first_command(s: Seq<CommandView>, id: Seq<char>) -> Option<int> {
    if exists|i: int| is_first_command(s, id, i) {
        Some(choose|i: int| is_first_command(s, id, i))
    } else {
        None
    }
}

/// The trail `s` after the node `node_id` acknowledged the command
/// `command_id` at `timestamp`: the command's first entry takes the outcome;
/// an acknowledgement of a command not in the trail adds an entry for it,
/// and the trail keeps its newest `limit`.
pub open spec fn with_ack(
    s: Seq<CommandView>,
    node_id: Seq<char>,
    command_id: Seq<char>,
    accepted: bool,
    target_entity: Option<Seq<char>>,
    message: Seq<char>,
    timestamp: Seq<char>,
    limit: nat,
) -> Seq<CommandView> {
    match first_command(s, command_id) {
        Some(i) => s.update(
            i,
            CommandView {
                updated_at: timestamp,
                status: ack_status(accepted),
                target_entity: target_entity,
                message: Some(message),
                ..s[i]
            },
        ),
        None => keep_last(
            s.push(
                CommandView {
                    command_id: command_id,
                    target_node_id: node_id,
                    operator_id: None,
                    issued_at: timestamp,
                    updated_at: timestamp,
                    status: ack_status(accepted),
                    target_entity: target_entity,
                    message: Some(message),
                    command: None,
                    responses: Seq::empty(),
                },
            ),
            limit,
        ),
    }
}

/// The entry of a command handed to its node at `now`, queued for delivery.
pub open spec fn queued_entry(
    command_id: Seq<char>,
    target_node_id: Seq<char>,
    operator_id: Option<Seq<char>>,
    issued_at: Seq<char>,
    now: Seq<char>,
    command: serde_json::Value,
) -> CommandView {
    CommandView {
        command_id,
        target_node_id,
        operator_id,
        issued_at,
        updated_at: now,
        status: "queued"@,
        target_entity: None,
        message: None,
        command: Some(command),
        responses: Seq::empty(),
    }
}

/// An id for a response that names no command: `uncorrelated-` and a fresh
/// identifier in the form that `uuid` writes.
pub open spec fn uncorrelated_id(s: Seq<char>) -> bool {
    &&& s.len() == 49
    &&& s.take(13) == "uncorrelated-"@
    &&& uuid_text_form(s.skip(13))
}

/// The trail `s` after the node `node_id` answered at `timestamp` with
/// `response`: the first entry of the command it names is completed and
/// keeps the answer; an answer that names no command in the trail adds an
/// entry, under the command's id or else under `fresh_id`, and the trail
/// keeps its newest `limit`.
pub open spec fn with_response(
    s: Seq<CommandView>,
    node_id: Seq<char>,
    command_id: Option<Seq<char>>,
    fresh_id: Seq<char>,
    target_entity: Option<Seq<char>>,
    timestamp: Seq<char>,
    response: serde_json::Value,
    limit: nat,
) -> Seq<CommandView> {
    let found = match command_id {
        Some(c) => first_command(s, c),
        None => None,
    };
    match found {
        Some(i) => s.update(
            i,
            CommandView {
                updated_at: timestamp,
                status: "completed"@,
                target_entity: target_entity,
                responses: s[i].responses.push(response),
                ..s[i]
            },
        ),
        None => keep_last(
            s.push(
                CommandView {
                    command_id: match command_id {
                        Some(c) => c,
                        None => fresh_id,
                    },
                    target_node_id: node_id,
                    operator_id: None,
                    issued_at: timestamp,
                    updated_at: timestamp,
                    status: "response"@,
                    target_entity: target_entity,
                    message: Some("uncorrelated control response"@),
                    command: None,
                    responses: seq![response],
                },
            ),
            limit,
        ),
    }
}

/// The command audit trail after `m`: an acknowledgement or an answer
/// changes it as `with_ack` and `with_response` say; nothing else does.
pub open spec fn commands_after(before: Seq<CommandView>, after: Seq<CommandView>, m: NodeMessage, limit: nat) -> bool {
    match m {
        NodeMessage::ControlAck { node_id, command_id, accepted, target_entity, message, timestamp } => after
            == with_ack(before, node_id@, command_id@, accepted, text_view(target_entity), message@, timestamp@, limit),
        NodeMessage::ControlResponse { node_id, command_id, target_entity, timestamp, response } => exists|
            fresh: Seq<char>,
        |
            (command_id is None ==> uncorrelated_id(fresh)) && after == #[trigger] with_response(
                before,
                node_id@,
                text_view(command_id),
                fresh,
                text_view(target_entity),
                timestamp@,
                response,
                limit,
            ),
        _ => after == before,
    }
}

fn find_command(cmds: &Vec<CommandAuditEntry>, id: &str) -> (r: Option<usize>)
    ensures
        r == match first_command(commands_view(cmds@), id@) {
            Some(i) => Some(i as usize),
            None => None::<usize>,
        },
        match r {
            Some(i) => is_first_command(commands_view(cmds@), id@, i as int),
            None => true,
        },
{
    let ghost s = commands_view(cmds@);
    for i in 0..cmds.len()
        invariant
            s == commands_view(cmds@),
            forall|k: int| 0 <= k < i ==> #[trigger] s[k].command_id != id@,
    {
        if str_eq(cmds[i].command_id.as_str(), id) {
            proof {
                assert(is_first_command(s, id@, i as int));
                let k = choose|k: int| is_first_command(s, id@, k);
                assert(is_first_command(s, id@, k));
                if k < i {
                    assert(s[k].command_id != id@);
                } else if k > i {
                    assert(s[i as int].command_id != id@);
                }
            }
            return Some(i);
        }
    }
    proof {
        if exists|k: int| is_first_command(s, id@, k) {
            let k = choose|k: int| is_first_command(s, id@, k);
            assert(s[k].command_id != id@);
        }
    }
    None
}

/// The newest entries of `s` that pass `keep`, newest first, at most `limit`
/// of them.
pub open spec fn newest_matching<T>(s: Seq<T>, keep: spec_fn(T) -> bool, limit: nat) -> Seq<T>
    decreases s.len(),
{
    if s.len() == 0 || limit == 0 {
        Seq::empty()
    } else if keep(s.last()) {
        seq![s.last()] + newest_matching(s.drop_last(), keep, (limit - 1) as nat)
    } else {
        newest_matching(s.drop_last(), keep, limit)
    }
}

proof fn lemma_newest_step<T>(s: Seq<T>, keep: spec_fn(T) -> bool, limit: nat, i: int)
    requires
        0 < i <= s.len(),
        limit > 0,
    ensures
        newest_matching(s.take(i), keep, limit) == if keep(s[i - 1]) {
            seq![s[i - 1]] + newest_matching(s.take(i - 1), keep, (limit - 1) as nat)
        } else {
            newest_matching(s.take(i - 1), keep, limit)
        },
{
    assert(s.take(i).drop_last() =~= s.take(i - 1));
    assert(s.take(i).last() == s[i - 1]);
}

/// Whether a listing of the event log asked for the type `event_type` (or
/// any type), and leaving out the noisy types when `quiet`, shows `e`.
pub open spec fn event_listed(e: EventView, event_type: Option<Seq<char>>, quiet: bool) -> bool {
    &&& match event_type {
        Some(t) => e.event_type == t,
        None => true,
    }
    &&& !quiet || !noisy_event_type(e.event_type)
}

/// The characters of an optional text.
pub open spec fn str_view(o: Option<&str>) -> Option<Seq<char>> {
    match o {
        Some(t) => Some(t@),
        None => None,
    }
}

/// What marking a node's link up (`up`) or down at `now` does to it.
pub open spec fn link_step(up: bool, now: String) -> spec_fn(NodeState, NodeState) -> bool {
    |o: NodeState, n: NodeState| link_marked(o, n, up, now)
}

/// The state of the control room.
pub struct ControlRoomState {
    pub started_at: String,
    /// How many entries the event log and the command audit trail each keep.
    pub history_limit: usize,
    pub nodes: Vec<NodeState>,
    /// The event log, oldest first.
    pub recent_events: Vec<EventLogEntry>,
    /// The command audit trail, oldest first.
    pub recent_commands: Vec<CommandAuditEntry>,
}

fn find_node(nodes: &Vec<NodeState>, id: &str) -> (r: Option<usize>)
    requires
        ids_unique(nodes@),
    ensures
        match r {
            Some(i) => knows(nodes@, id@) && i == node_index(nodes@, id@) && i < nodes@.len()
                && nodes@[i as int].node_id@ == id@,
            None => !knows(nodes@, id@),
        },
{
    for i in 0..nodes.len()
        invariant
            ids_unique(nodes@),
            forall|k: int| 0 <= k < i ==> #[trigger] nodes@[k].node_id@ != id@,
    {
        if str_eq(nodes[i].node_id.as_str(), id) {
            proof {
                assert(nodes@[i as int].node_id@ == id@);
                assert(knows(nodes@, id@));
                let k = node_index(nodes@, id@);
                assert(0 <= k < nodes@.len() && nodes@[k].node_id@ == id@);
                if k != i {
                    assert(nodes@[k].node_id@ != nodes@[i as int].node_id@);
                }
            }
            return Some(i);
        }
    }
    None
}

/// Facts about a node that went through one step in the register.
proof fn lemma_register_step(
    before: Seq<NodeState>,
    mid: Seq<NodeState>,
    after: Seq<NodeState>,
    id: Seq<char>,
    i: int,
    n: NodeState,
    step: spec_fn(NodeState, NodeState) -> bool,
)
    requires
        ids_unique(before),
        0 <= i < mid.len(),
        mid[i].node_id@ == id,
        knows(before, id) ==> mid == before && i == node_index(before, id),
        !knows(before, id) ==> mid == before.push(mid[i]) && i == before.len() && node_is_new(mid[i], id),
        after == mid.update(i, n),
        n.node_id@ == id,
        step(mid[i], n),
    ensures
        register_updated(before, after, id, step),
        ids_unique(after),
{
    if !knows(before, id) {
        assert forall|a: int, b: int|
            0 <= a < after.len() && 0 <= b < after.len() && a != b implies #[trigger] after[a].node_id@
            != #[trigger] after[b].node_id@ by {
            if a < before.len() && b < before.len() {
                assert(after[a] == before[a] && after[b] == before[b]);
            } else if a < before.len() {
                assert(after[a] == before[a]);
                assert(before[a].node_id@ != id);
            } else {
                assert(after[b] == before[b]);
                assert(before[b].node_id@ != id);
            }
        }
    } else {
        assert forall|a: int, b: int|
            0 <= a < after.len() && 0 <= b < after.len() && a != b implies #[trigger] after[a].node_id@
            != #[trigger] after[b].node_id@ by {
            assert(before[a].node_id@ != before[b].node_id@);
        }
    }
}

impl ControlRoomState {
    /// The register's ids are unique and both logs within their limit.
    pub open spec fn wf(&self) -> bool {
        &&& ids_unique(self.nodes@)
        &&& self.recent_events@.len() <= self.history_limit
        &&& self.recent_commands@.len() <= self.history_limit
    }

    /// An empty control room, started at `started_at`, whose logs keep
    /// `history_limit` entries each.
    pub fn new_at(history_limit: usize, started_at: String) -> (r: ControlRoomState)
        ensures
            r.wf(),
            r.started_at == started_at,
            r.history_limit == history_limit,
            r.nodes@.len() == 0,
            r.recent_events@.len() == 0,
            r.recent_commands@.len() == 0,
    {
        ControlRoomState {
            started_at,
            history_limit,
            nodes: Vec::new(),
            recent_events: Vec::new(),
            recent_commands: Vec::new(),
        }
    }

    /// An empty control room, started now, whose logs keep `history_limit`
    /// entries each.
    pub fn new(history_limit: usize) -> (r: ControlRoomState)
        ensures
            r.wf(),
            r.history_limit == history_limit,
            r.nodes@.len() == 0,
            r.recent_events@.len() == 0,
            r.recent_commands@.len() == 0,
    {
        ControlRoomState::new_at(history_limit, now_iso())
    }

    /// The node with the id `id`, if the register holds one.
    pub fn node(&self, id: &str) -> (r: Option<&NodeState>)
        requires
            self.wf(),
        ensures
            match r {
                Some(n) => knows(self.nodes@, id@) && *n == self.nodes@[node_index(self.nodes@, id@)],
                None => !knows(self.nodes@, id@),
            },
    {
        match find_node(&self.nodes, id) {
            Some(i) => Some(&self.nodes[i]),
            None => None,
        }
    }

    /// Where the node `id` stands in the register; a new node is added at the
    /// end if it was not there.
    fn node_slot(&mut self, id: &str) -> (i: usize)
        requires
            ids_unique(old(self).nodes@),
        ensures
            i < final(self).nodes@.len(),
            final(self).nodes@[i as int].node_id@ == id@,
            knows(old(self).nodes@, id@) ==> final(self).nodes@ == old(self).nodes@ && i == node_index(
                old(self).nodes@,
                id@,
            ),
            !knows(old(self).nodes@, id@) ==> final(self).nodes@ == old(self).nodes@.push(
                final(self).nodes@[i as int],
            ) && i == old(self).nodes@.len() && node_is_new(final(self).nodes@[i as int], id@),
            final(self).started_at == old(self).started_at,
            final(self).history_limit == old(self).history_limit,
            final(self).recent_events@ == old(self).recent_events@,
            final(self).recent_commands@ == old(self).recent_commands@,
    {
        match find_node(&self.nodes, id) {
            Some(i) => i,
            None => {
                self.nodes.push(NodeState::new(lit(id)));
                self.nodes.len() - 1
            },
        }
    }

    /// Adds an entry to the event log, which keeps its newest `history_limit`.
    fn push_event(&mut self, entry: EventLogEntry)
        requires
            old(self).recent_events@.len() <= old(self).history_limit,
        ensures
            events_view(final(self).recent_events@) == keep_last(
                events_view(old(self).recent_events@).push(entry@),
                old(self).history_limit as nat,
            ),
            final(self).recent_events@.len() <= final(self).history_limit,
            final(self).started_at == old(self).started_at,
            final(self).history_limit == old(self).history_limit,
            final(self).nodes@ == old(self).nodes@,
            final(self).recent_commands@ == old(self).recent_commands@,
    {
        let ghost e = entry@;
        self.recent_events.push(entry);
        let ghost pushed = self.recent_events@;
        keep_last_in(&mut self.recent_events, self.history_limit);
        proof {
            let a = events_view(old(self).recent_events@).push(e);
            assert(events_view(pushed) =~= a);
            if pushed.len() > self.history_limit {
                assert(events_view(self.recent_events@) =~= a.skip(a.len() - self.history_limit));
            }
        }
    }

    /// Adds an entry to the command audit trail, which keeps its newest
    /// `history_limit`.
    fn push_command(&mut self, entry: CommandAuditEntry)
        requires
            old(self).recent_commands@.len() <= old(self).history_limit,
        ensures
            commands_view(final(self).recent_commands@) == keep_last(
                commands_view(old(self).recent_commands@).push(entry@),
                old(self).history_limit as nat,
            ),
            final(self).recent_commands@.len() <= final(self).history_limit,
            final(self).started_at == old(self).started_at,
            final(self).history_limit == old(self).history_limit,
            final(self).nodes@ == old(self).nodes@,
            final(self).recent_events@ == old(self).recent_events@,
    {
        let ghost e = entry@;
        self.recent_commands.push(entry);
        let ghost pushed = self.recent_commands@;
        keep_last_in(&mut self.recent_commands, self.history_limit);
        proof {
            let a = commands_view(old(self).recent_commands@).push(e);
            assert(commands_view(pushed) =~= a);
            if pushed.len() > self.history_limit {
                assert(commands_view(self.recent_commands@) =~= a.skip(a.len() - self.history_limit));
            }
        }
    }

    /// Records the node's acknowledgement of the command `command_id`, as
    /// `with_ack` says.
    pub fn record_command_ack(
        &mut self,
        node_id: &str,
        command_id: &str,
        accepted: bool,
        target_entity: Option<String>,
        message: String,
        timestamp: &str,
    )
        requires
            old(self).wf(),
        ensures
            final(self).wf(),
            commands_view(final(self).recent_commands@) == with_ack(
                commands_view(old(self).recent_commands@),
                node_id@,
                command_id@,
                accepted,
                text_view(target_entity),
                message@,
                timestamp@,
                old(self).history_limit as nat,
            ),
            final(self).nodes@ == old(self).nodes@,
            final(self).recent_events@ == old(self).recent_events@,
            final(self).started_at == old(self).started_at,
            final(self).history_limit == old(self).history_limit,
    {
        let status = if accepted {
            lit("accepted")
        } else {
            lit("rejected")
        };
        match find_command(&self.recent_commands, command_id) {
            Some(i) => {
                let ghost before = commands_view(self.recent_commands@);
                let mut cmd = self.recent_commands.remove(i);
                cmd.updated_at = lit(timestamp);
                cmd.status = status;
                cmd.target_entity = target_entity;
                cmd.message = Some(message);
                let ghost c = cmd@;
                self.recent_commands.insert(i, cmd);
                proof {
                    assert(commands_view(self.recent_commands@) =~= before.update(i as int, c));
                }
            },
            None => {
                self.push_command(
                    CommandAuditEntry {
                        command_id: lit(command_id),
                        target_node_id: lit(node_id),
                        operator_id: None,
                        issued_at: lit(timestamp),
                        updated_at: lit(timestamp),
                        status,
                        target_entity,
                        message: Some(message),
                        command: None,
                        responses: Vec::new(),
                    },
                );
            },
        }
    }

    /// Records the node's answer `response`, as `with_response` says; an
    /// answer that names no command is filed under a fresh id.
    pub fn record_control_response(
        &mut self,
        node_id: &str,
        command_id: Option<String>,
        target_entity: Option<String>,
        timestamp: &str,
        response: serde_json::Value,
    )
        requires
            old(self).wf(),
        ensures
            final(self).wf(),
            exists|fresh: Seq<char>|
                (command_id is None ==> uncorrelated_id(fresh)) && commands_view(final(self).recent_commands@)
                    == #[trigger] with_response(
                    commands_view(old(self).recent_commands@),
                    node_id@,
                    text_view(command_id),
                    fresh,
                    text_view(target_entity),
                    timestamp@,
                    response,
                    old(self).history_limit as nat,
                ),
            final(self).nodes@ == old(self).nodes@,
            final(self).recent_events@ == old(self).recent_events@,
            final(self).started_at == old(self).started_at,
            final(self).history_limit == old(self).history_limit,
    {
        let ghost before = commands_view(self.recent_commands@);
        let found = match &command_id {
            Some(c) => find_command(&self.recent_commands, c.as_str()),
            None => None,
        };
        match found {
            Some(i) => {
                let mut cmd = self.recent_commands.remove(i);
                cmd.updated_at = lit(timestamp);
                cmd.status = lit("completed");
                cmd.target_entity = target_entity;
                cmd.responses.push(response);
                let ghost c = cmd@;
                self.recent_commands.insert(i, cmd);
                proof {
                    assert(commands_view(self.recent_commands@) =~= before.update(i as int, c));
                    assert(with_response(
                        before,
                        node_id@,
                        text_view(command_id),
                        Seq::empty(),
                        text_view(target_entity),
                        timestamp@,
                        response,
                        self.history_limit as nat,
                    ) == commands_view(self.recent_commands@));
                }
            },
            None => {
                let ghost had_id = command_id is Some;
                let id = match command_id {
                    Some(c) => c,
                    None => {
                        let fresh = random_uuid_text();
                        concat("uncorrelated-", fresh.as_str())
                    },
                };
                proof {
                    if !had_id {
                        reveal_strlit("uncorrelated-");
                        assert(id@.take(13) =~= "uncorrelated-"@);
                        assert(uuid_text_form(id@.skip(13))) by {
                            assert(forall|k: int| 0 <= k < 36 ==> id@.skip(13)[k] == id@[k + 13]);
                        }
                    }
                }
                let ghost fresh_id = id@;
                let mut responses: Vec<serde_json::Value> = Vec::new();
                responses.push(response);
                self.push_command(
                    CommandAuditEntry {
                        command_id: id,
                        target_node_id: lit(node_id),
                        operator_id: None,
                        issued_at: lit(timestamp),
                        updated_at: lit(timestamp),
                        status: lit("response"),
                        target_entity,
                        message: Some(lit("uncorrelated control response")),
                        command: None,
                        responses,
                    },
                );
                proof {
                    assert(responses@ =~= seq![response]);
                    assert(with_response(
                        before,
                        node_id@,
                        text_view(command_id),
                        fresh_id,
                        text_view(target_entity),
                        timestamp@,
                        response,
                        self.history_limit as nat,
                    ) == commands_view(self.recent_commands@));
                }
            },
        }
    }

    /// Records that the command `command_id` was handed to its node at
    /// `now`, queued for delivery.
    pub fn record_command_queued_at(
        &mut self,
        command_id: String,
        target_node_id: String,
        operator_id: Option<String>,
        issued_at: String,
        command: serde_json::Value,
        now: String,
    )
        requires
            old(self).wf(),
        ensures
            final(self).wf(),
            commands_view(final(self).recent_commands@) == keep_last(
                commands_view(old(self).recent_commands@).push(
                    queued_entry(command_id@, target_node_id@, text_view(operator_id), issued_at@, now@, command),
                ),
                old(self).history_limit as nat,
            ),
            final(self).nodes@ == old(self).nodes@,
            final(self).recent_events@ == old(self).recent_events@,
            final(self).started_at == old(self).started_at,
            final(self).history_limit == old(self).history_limit,
    {
        let entry = CommandAuditEntry {
            command_id,
            target_node_id,
            operator_id,
            issued_at,
            updated_at: now,
            status: lit("queued"),
            target_entity: None,
            message: None,
            command: Some(command),
            responses: Vec::new(),
        };
        proof {
            assert(entry.responses@ =~= Seq::<serde_json::Value>::empty());
        }
        self.push_command(entry);
    }

    /// Handles a message from a node at `now`: the node that sent it takes
    /// it (`register_after`), the event log keeps what it logs
    /// (`logged_events`), and an acknowledgement or an answer updates the
    /// command audit trail (`commands_after`). Gives the id of the node.
    pub fn apply_node_message_at(&mut self, message: NodeMessage, now: String) -> (r: Option<String>)
        requires
            old(self).wf(),
        ensures
            final(self).wf(),
            r matches Some(id) && id@ == message_node_id(message),
            register_after(old(self).nodes@, final(self).nodes@, message, now),
            events_view(final(self).recent_events@) == keep_last(
                events_view(old(self).recent_events@) + logged_events(message, now),
                old(self).history_limit as nat,
            ),
            commands_after(
                commands_view(old(self).recent_commands@),
                commands_view(final(self).recent_commands@),
                message,
                old(self).history_limit as nat,
            ),
            final(self).started_at == old(self).started_at,
            final(self).history_limit == old(self).history_limit,
    {
        let ghost m = message;
        let ghost before = self.nodes@;
        let ghost events_before = events_view(self.recent_events@);
        match message {
            NodeMessage::Hello { node_id, hello, record } => {
                let i = self.node_slot(node_id.as_str());
                let ghost mid = self.nodes@;
                let mut node = self.nodes.remove(i);
                node.apply_hello_at(hello, now.clone());
                let ghost n = node;
                self.nodes.insert(i, node);
                proof {
                    assert(self.nodes@ =~= mid.update(i as int, n));
                    lemma_register_step(before, mid, self.nodes@, node_id@, i as int, n, node_step(m, now));
                }
                let entry = EventLogEntry {
                    timestamp: now,
                    node_id: node_id.clone(),
                    seq: None,
                    event_type: lit("hello"),
                    event: EventRecord::Document(record),
                };
                let ghost e = entry@;
                self.push_event(entry);
                proof {
                    assert(logged_events(m, now) =~= seq![e]);
                    assert(events_before.push(e) =~= events_before + seq![e]);
                }
                Some(node_id)
            },
            NodeMessage::Heartbeat { node_id, connected, seq, timestamp } => {
                let i = self.node_slot(node_id.as_str());
                let ghost mid = self.nodes@;
                let mut node = self.nodes.remove(i);
                node.apply_heartbeat(connected, seq, timestamp);
                let ghost n = node;
                self.nodes.insert(i, node);
                proof {
                    assert(self.nodes@ =~= mid.update(i as int, n));
                    lemma_register_step(before, mid, self.nodes@, node_id@, i as int, n, node_step(m, now));
                    assert(events_before + logged_events(m, now) =~= events_before);
                }
                Some(node_id)
            },
            NodeMessage::Telemetry { node_id, seq, timestamp, event, record } => {
                let event_type = telemetry_event_type(&event);
                let i = self.node_slot(node_id.as_str());
                let ghost mid = self.nodes@;
                let mut node = self.nodes.remove(i);
                node.apply_telemetry(seq, timestamp.clone(), event);
                let ghost n = node;
                self.nodes.insert(i, node);
                proof {
                    assert(self.nodes@ =~= mid.update(i as int, n));
                    lemma_register_step(before, mid, self.nodes@, node_id@, i as int, n, node_step(m, now));
                }
                let entry = EventLogEntry {
                    timestamp,
                    node_id: node_id.clone(),
                    seq: Some(seq),
                    event_type: lit(event_type),
                    event: EventRecord::Document(record),
                };
                let ghost e = entry@;
                self.push_event(entry);
                proof {
                    assert(logged_events(m, now) =~= seq![e]);
                    assert(events_before.push(e) =~= events_before + seq![e]);
                }
                Some(node_id)
            },
            NodeMessage::ControlAck { node_id, command_id, accepted, target_entity, message, timestamp } => {
                let i = self.node_slot(node_id.as_str());
                let ghost mid = self.nodes@;
                let mut node = self.nodes.remove(i);
                node.record_command_ack(timestamp.clone());
                let ghost n = node;
                self.nodes.insert(i, node);
                proof {
                    assert(self.nodes@ =~= mid.update(i as int, n));
                    lemma_register_step(before, mid, self.nodes@, node_id@, i as int, n, node_step(m, now));
                    assert(events_before + logged_events(m, now) =~= events_before);
                }
                self.record_command_ack(
                    node_id.as_str(),
                    command_id.as_str(),
                    accepted,
                    target_entity,
                    message,
                    timestamp.as_str(),
                );
                Some(node_id)
            },
            NodeMessage::ControlResponse { node_id, command_id, target_entity, timestamp, response } => {
                let i = self.node_slot(node_id.as_str());
                let ghost mid = self.nodes@;
                let mut node = self.nodes.remove(i);
                node.record_control_response(timestamp.clone());
                let ghost n = node;
                self.nodes.insert(i, node);
                proof {
                    assert(self.nodes@ =~= mid.update(i as int, n));
                    lemma_register_step(before, mid, self.nodes@, node_id@, i as int, n, node_step(m, now));
                    assert(events_before + logged_events(m, now) =~= events_before);
                }
                self.record_control_response(node_id.as_str(), command_id, target_entity, timestamp.as_str(), response);
                Some(node_id)
            },
            NodeMessage::MediaFrame { node_id, timestamp } => {
                match find_node(&self.nodes, node_id.as_str()) {
                    Some(i) => {
                        let ghost mid = self.nodes@;
                        let mut node = self.nodes.remove(i);
                        node.mark_seen(timestamp);
                        let ghost n = node;
                        self.nodes.insert(i, node);
                        proof {
                            assert(self.nodes@ =~= mid.update(i as int, n));
                            lemma_register_step(before, mid, self.nodes@, node_id@, i as int, n, node_step(m, now));
                        }
                    },
                    None => {},
                }
                proof {
                    assert(events_before + logged_events(m, now) =~= events_before);
                }
                Some(node_id)
            },
            NodeMessage::Error { node_id, message, timestamp } => {
                let i = self.node_slot(node_id.as_str());
                let ghost mid = self.nodes@;
                let mut node = self.nodes.remove(i);
                node.push_error(timestamp.as_str(), message.as_str());
                let ghost n = node;
                self.nodes.insert(i, node);
                proof {
                    assert(self.nodes@ =~= mid.update(i as int, n));
                    lemma_register_step(before, mid, self.nodes@, node_id@, i as int, n, node_step(m, now));
                }
                let entry = EventLogEntry {
                    timestamp,
                    node_id: node_id.clone(),
                    seq: None,
                    event_type: lit("node_error"),
                    event: EventRecord::NodeError(message),
                };
                let ghost e = entry@;
                self.push_event(entry);
                proof {
                    assert(logged_events(m, now) =~= seq![e]);
                    assert(events_before.push(e) =~= events_before + seq![e]);
                }
                Some(node_id)
            },
        }
    }

    /// The newest entries of the event log, newest first, at most `limit`,
    /// of the type `event_type` if one is given, and without the noisy types
    /// when `quiet`.
    pub fn recent_events_filtered(&self, limit: usize, event_type: Option<&str>, quiet: bool) -> (r: Vec<EventLogEntry>)
        ensures
            events_view(r@) == newest_matching(
                events_view(self.recent_events@),
                |e: EventView| event_listed(e, str_view(event_type), quiet),
                limit as nat,
            ),
    {
        let ghost sv = events_view(self.recent_events@);
        let ghost keep = |e: EventView| event_listed(e, str_view(event_type), quiet);
        let mut out: Vec<EventLogEntry> = Vec::new();
        let mut i: usize = self.recent_events.len();
        proof {
            assert(sv.take(i as int) =~= sv);
        }
        while i > 0 && out.len() < limit
            invariant
                sv == events_view(self.recent_events@),
                keep == (|e: EventView| event_listed(e, str_view(event_type), quiet)),
                i <= self.recent_events@.len(),
                out@.len() <= limit,
                events_view(out@) + newest_matching(sv.take(i as int), keep, (limit - out@.len()) as nat)
                    == newest_matching(sv, keep, limit as nat),
            decreases i,
        {
            i = i - 1;
            let e = &self.recent_events[i];
            let wanted = match event_type {
                Some(t) => str_eq(e.event_type.as_str(), t),
                None => true,
            };
            let ghost rest = (limit - out@.len()) as nat;
            proof {
                lemma_newest_step(sv, keep, rest, i + 1);
                assert(sv[i as int] == e@);
            }
            if wanted && (!quiet || !is_noisy_event_type(e.event_type.as_str())) {
                let ghost before = events_view(out@);
                out.push(e.duplicate());
                proof {
                    assert(events_view(out@) =~= before.push(e@));
                    assert(before.push(e@) + newest_matching(sv.take(i as int), keep, (rest - 1) as nat) =~= before
                        + (seq![e@] + newest_matching(sv.take(i as int), keep, (rest - 1) as nat)));
                }
            }
        }
        proof {
            assert(events_view(out@) + Seq::empty() =~= events_view(out@));
        }
        out
    }

    /// The newest entries of the command audit trail, newest first, at most
    /// `limit`.
    pub fn recent_commands(&self, limit: usize) -> (r: Vec<CommandAuditEntry>)
        ensures
            commands_view(r@) == newest_matching(
                commands_view(self.recent_commands@),
                |c: CommandView| true,
                limit as nat,
            ),
    {
        let ghost sv = commands_view(self.recent_commands@);
        let ghost keep = |c: CommandView| true;
        let mut out: Vec<CommandAuditEntry> = Vec::new();
        let mut i: usize = self.recent_commands.len();
        proof {
            assert(sv.take(i as int) =~= sv);
        }
        while i > 0 && out.len() < limit
            invariant
                sv == commands_view(self.recent_commands@),
                keep == (|c: CommandView| true),
                i <= self.recent_commands@.len(),
                out@.len() <= limit,
                commands_view(out@) + newest_matching(sv.take(i as int), keep, (limit - out@.len()) as nat)
                    == newest_matching(sv, keep, limit as nat),
            decreases i,
        {
            i = i - 1;
            let c = &self.recent_commands[i];
            let ghost rest = (limit - out@.len()) as nat;
            proof {
                lemma_newest_step(sv, keep, rest, i + 1);
                assert(sv[i as int] == c@);
            }
            let ghost before = commands_view(out@);
            out.push(c.duplicate());
            proof {
                assert(commands_view(out@) =~= before.push(c@));
                assert(before.push(c@) + newest_matching(sv.take(i as int), keep, (rest - 1) as nat) =~= before
                    + (seq![c@] + newest_matching(sv.take(i as int), keep, (rest - 1) as nat)));
            }
        }
        proof {
            assert(commands_view(out@) + Seq::empty() =~= commands_view(out@));
        }
        out
    }

    /// Marks the link of the node `node_id` up, at `now`; a node not yet in
    /// the register is added.
    pub fn mark_node_connected_transport_at(&mut self, node_id: &str, now: String)
        requires
            old(self).wf(),
        ensures
            final(self).wf(),
            register_updated(
                old(self).nodes@,
                final(self).nodes@,
                node_id@,
                link_step(true, now),
            ),
            final(self).recent_events@ == old(self).recent_events@,
            final(self).recent_commands@ == old(self).recent_commands@,
            final(self).started_at == old(self).started_at,
            final(self).history_limit == old(self).history_limit,
    {
        let ghost before = self.nodes@;
        let i = self.node_slot(node_id);
        let ghost mid = self.nodes@;
        let mut node = self.nodes.remove(i);
        node.mark_connected_transport(now);
        let ghost n = node;
        self.nodes.insert(i, node);
        proof {
            assert(self.nodes@ =~= mid.update(i as int, n));
            lemma_register_step(
                before,
                mid,
                self.nodes@,
                node_id@,
                i as int,
                n,
                link_step(true, now),
            );
        }
    }

    /// Marks the link of the node `node_id` down, at `now`; a node not yet in
    /// the register is added.
    pub fn mark_node_disconnected_at(&mut self, node_id: &str, now: String)
        requires
            old(self).wf(),
        ensures
            final(self).wf(),
            register_updated(
                old(self).nodes@,
                final(self).nodes@,
                node_id@,
                link_step(false, now),
            ),
            final(self).recent_events@ == old(self).recent_events@,
            final(self).recent_commands@ == old(self).recent_commands@,
            final(self).started_at == old(self).started_at,
            final(self).history_limit == old(self).history_limit,
    {
        let ghost before = self.nodes@;
        let i = self.node_slot(node_id);
        let ghost mid = self.nodes@;
        let mut node = self.nodes.remove(i);
        node.mark_disconnected(now);
        let ghost n = node;
        self.nodes.insert(i, node);
        proof {
            assert(self.nodes@ =~= mid.update(i as int, n));
            lemma_register_step(
                before,
                mid,
                self.nodes@,
                node_id@,
                i as int,
                n,
                link_step(false, now),
            );
        }
    }

    /// Marks the link of the node `node_id` up, now.
    pub fn mark_node_connected_transport(&mut self, node_id: &str)
        requires
            old(self).wf(),
        ensures
            final(self).wf(),
            exists|now: String|
                #[trigger] register_updated(
                    old(self).nodes@,
                    final(self).nodes@,
                    node_id@,
                    link_step(true, now),
                ),
            final(self).recent_events@ == old(self).recent_events@,
            final(self).recent_commands@ == old(self).recent_commands@,
    {
        let now = now_iso();
        self.mark_node_connected_transport_at(node_id, now);
    }

    /// Marks the link of the node `node_id` down, now.
    pub fn mark_node_disconnected(&mut self, node_id: &str)
        requires
            old(self).wf(),
        ensures
            final(self).wf(),
            exists|now: String|
                #[trigger] register_updated(
                    old(self).nodes@,
                    final(self).nodes@,
                    node_id@,
                    link_step(false, now),
                ),
            final(self).recent_events@ == old(self).recent_events@,
            final(self).recent_commands@ == old(self).recent_commands@,
    {
        let now = now_iso();
        self.mark_node_disconnected_at(node_id, now);
    }

    /// Handles a message from a node, now; see `apply_node_message_at`.
    pub fn apply_node_message(&mut self, message: NodeMessage) -> (r: Option<String>)
        requires
            old(self).wf(),
        ensures
            final(self).wf(),
            r matches Some(id) && id@ == message_node_id(message),
            exists|now: String|
                register_after(old(self).nodes@, final(self).nodes@, message, now) && events_view(
                    final(self).recent_events@,
                ) == keep_last(
                    events_view(old(self).recent_events@) + logged_events(message, now),
                    old(self).history_limit as nat,
                ),
            commands_after(
                commands_view(old(self).recent_commands@),
                commands_view(final(self).recent_commands@),
                message,
                old(self).history_limit as nat,
            ),
    {
        let now = now_iso();
        self.apply_node_message_at(message, now)
    }

    /// Records that the command `command_id` was handed to its node now,
    /// queued for delivery; see `record_command_queued_at`.
    pub fn record_command_queued(
        &mut self,
        command_id: String,
        target_node_id: String,
        operator_id: Option<String>,
        issued_at: String,
        command: serde_json::Value,
    )
        requires
            old(self).wf(),
        ensures
            final(self).wf(),
            exists|now: Seq<char>|
                commands_view(final(self).recent_commands@) == keep_last(
                    commands_view(old(self).recent_commands@).push(
                        queued_entry(command_id@, target_node_id@, text_view(operator_id), issued_at@, now, command),
                    ),
                    old(self).history_limit as nat,
                ),
            final(self).nodes@ == old(self).nodes@,
            final(self).recent_events@ == old(self).recent_events@,
    {
        let now = now_iso();
        self.record_command_queued_at(command_id, target_node_id, operator_id, issued_at, command, now);
    }
}

} // verus!
