//! The control room's overview: each node's overview, their counts added up,
//! and the latest commands in short.
use vstd::prelude::*;
use crate::listings::{node_overview, overview_of, NodeOverview};
use crate::node_state::text_view;
use crate::operations::now_iso;
use crate::room_registry::{CommandAuditEntry, CommandView, ControlRoomState};

verus! {

/// A command of the audit trail in short.
pub struct CommandSummary {
    pub command_id: String,
    pub target_node_id: String,
    pub operator_id: Option<String>,
    pub issued_at: String,
    pub updated_at: String,
    pub status: String,
    pub message: Option<String>,
}

/// `s` is the summary of the command `c`.
pub open spec fn summarizes(s: CommandSummary, c: CommandView) -> bool {
    &&& s.command_id@ == c.command_id
    &&& s.target_node_id@ == c.target_node_id
    &&& text_view(s.operator_id) == c.operator_id
    &&& s.issued_at@ == c.issued_at
    &&& s.updated_at@ == c.updated_at
    &&& s.status@ == c.status
    &&& text_view(s.message) == c.message
}

fn copy_text(o: &Option<String>) -> (r: Option<String>)
    ensures
        text_view(r) == text_view(*o),
{
    match o {
        Some(s) => Some(s.clone()),
        None => None,
    }
}

impl CommandSummary {
    /// The summary of a command of the audit trail.
    pub fn of(entry: &CommandAuditEntry) -> (r: CommandSummary)
        ensures
            summarizes(r, entry@),
    {
        CommandSummary {
            command_id: entry.command_id.clone(),
            target_node_id: entry.target_node_id.clone(),
            operator_id: copy_text(&entry.operator_id),
            issued_at: entry.issued_at.clone(),
            updated_at: entry.updated_at.clone(),
            status: entry.status.clone(),
            message: copy_text(&entry.message),
        }
    }
}

/// The overview of the whole control room.
pub struct ControlRoomOverview {
    pub started_at: String,
    pub now: String,
    pub nodes_connected: usize,
    pub node_count: usize,
    pub subscribers_total: usize,
    pub subscribers_online: usize,
    pub groups_total: usize,
    pub active_calls_total: usize,
    pub emergencies_active: usize,
    pub nodes: Vec<NodeOverview>,
    pub recent_commands: Vec<CommandSummary>,
}

/// The counts of a node overview that the control room adds up.
pub enum Figure {
    Subscribers,
    SubscribersOnline,
    Groups,
    ActiveCalls,
    Emergencies,
}

/// One count of a node overview.
pub open spec fn figure(n: NodeOverview, which: Figure) -> usize {
    match which {
        Figure::Subscribers => n.subscribers_total,
        Figure::SubscribersOnline => n.subscribers_online,
        Figure::Groups => n.groups_total,
        Figure::ActiveCalls => n.active_calls_total,
        Figure::Emergencies => n.emergencies_active,
    }
}

/// The sum of one count over node overviews.
pub open spec fn total_of(nodes: Seq<NodeOverview>, which: Figure) -> nat
    decreases nodes.len(),
{
    if nodes.len() == 0 {
        0
    } else {
        total_of(nodes.drop_last(), which) + figure(nodes.last(), which) as nat
    }
}

/// How many of the nodes are linked, by their own word or by their
/// transport.
pub open spec fn connected_count(nodes: Seq<NodeOverview>) -> nat
    decreases nodes.len(),
{
    if nodes.len() == 0 {
        0
    } else {
        connected_count(nodes.drop_last()) + if nodes.last().connected || nodes.last().transport_connected {
            1nat
        } else {
            0nat
        }
    }
}

/// `n`, or the largest `usize` where `n` does not fit.
pub open spec fn capped(n: nat) -> usize {
    if n > usize::MAX {
        usize::MAX
    } else {
        n as usize
    }
}

/// How many commands the overview shows.
pub open spec fn overview_command_count() -> nat {
    20
}

/// `r` is the overview of `room` taken at `now`.
pub open spec fn room_overview_of(room: ControlRoomState, now: String, r: ControlRoomOverview) -> bool {
    let cmds = room.recent_commands@;
    let shown = if cmds.len() < overview_command_count() {
        cmds.len()
    } else {
        overview_command_count()
    };
    &&& r.started_at == room.started_at
    &&& r.now == now
    &&& r.nodes@.len() == room.nodes@.len()
    &&& forall|i: int| 0 <= i < r.nodes@.len() ==> overview_of(room.nodes@[i], #[trigger] r.nodes@[i])
    &&& r.node_count == room.nodes@.len()
    &&& r.nodes_connected == connected_count(r.nodes@)
    &&& r.subscribers_total == capped(total_of(r.nodes@, Figure::Subscribers))
    &&& r.subscribers_online == capped(total_of(r.nodes@, Figure::SubscribersOnline))
    &&& r.groups_total == capped(total_of(r.nodes@, Figure::Groups))
    &&& r.active_calls_total == capped(total_of(r.nodes@, Figure::ActiveCalls))
    &&& r.emergencies_active == capped(total_of(r.nodes@, Figure::Emergencies))
    &&& r.recent_commands@.len() == shown
    &&& forall|i: int|
        0 <= i < shown ==> summarizes(#[trigger] r.recent_commands@[i], cmds[cmds.len() - 1 - i]@)
}

/// Adds `x` to a capped running total.
proof fn lemma_capped_add(t: nat, x: usize)
    ensures
        capped(t + x as nat) == (if capped(t) + x > usize::MAX {
            usize::MAX as int
        } else {
            capped(t) + x
        }),
{
}

impl ControlRoomState {
    /// The overview of the control room, taken at `now`.
    pub fn overview_at(&self, now: String) -> (r: ControlRoomOverview)
        ensures
            room_overview_of(*self, now, r),
    {
        let mut nodes: Vec<NodeOverview> = Vec::new();
        let mut connected: usize = 0;
        let mut subscribers: usize = 0;
        let mut online: usize = 0;
        let mut groups: usize = 0;
        let mut calls: usize = 0;
        let mut emergencies: usize = 0;
        let mut i: usize = 0;
        while i < self.nodes.len()
            invariant
                i <= self.nodes@.len(),
                nodes@.len() == i,
                forall|j: int| 0 <= j < i ==> overview_of(self.nodes@[j], #[trigger] nodes@[j]),
                connected as nat == connected_count(nodes@),
                connected <= i,
                subscribers == capped(total_of(nodes@, Figure::Subscribers)),
                online == capped(total_of(nodes@, Figure::SubscribersOnline)),
                groups == capped(total_of(nodes@, Figure::Groups)),
                calls == capped(total_of(nodes@, Figure::ActiveCalls)),
                emergencies == capped(total_of(nodes@, Figure::Emergencies)),
            decreases self.nodes@.len() - i,
        {
            let ov = node_overview(&self.nodes[i]);
            let ghost before = nodes@;
            proof {
                lemma_capped_add(total_of(before, Figure::Subscribers), ov.subscribers_total);
                lemma_capped_add(total_of(before, Figure::SubscribersOnline), ov.subscribers_online);
                lemma_capped_add(total_of(before, Figure::Groups), ov.groups_total);
                lemma_capped_add(total_of(before, Figure::ActiveCalls), ov.active_calls_total);
                lemma_capped_add(total_of(before, Figure::Emergencies), ov.emergencies_active);
            }
            if ov.connected || ov.transport_connected {
                connected = connected + 1;
            }
            subscribers = subscribers.saturating_add(ov.subscribers_total);
            online = online.saturating_add(ov.subscribers_online);
            groups = groups.saturating_add(ov.groups_total);
            calls = calls.saturating_add(ov.active_calls_total);
            emergencies = emergencies.saturating_add(ov.emergencies_active);
            nodes.push(ov);
            proof {
                assert(nodes@.drop_last() =~= before);
            }
            i = i + 1;
        }
        let total = self.recent_commands.len();
        let shown: usize = if total < 20 {
            total
        } else {
            20
        };
        let mut recent: Vec<CommandSummary> = Vec::new();
        let mut k: usize = 0;
        while k < shown
            invariant
                shown <= total,
                total == self.recent_commands@.len(),
                k <= shown,
                recent@.len() == k,
                forall|j: int|
                    0 <= j < k ==> summarizes(
                        #[trigger] recent@[j],
                        self.recent_commands@[total - 1 - j]@,
                    ),
            decreases shown - k,
        {
            recent.push(CommandSummary::of(&self.recent_commands[total - 1 - k]));
            k = k + 1;
        }
        ControlRoomOverview {
            started_at: self.started_at.clone(),
            now,
            nodes_connected: connected,
            node_count: self.nodes.len(),
            subscribers_total: subscribers,
            subscribers_online: online,
            groups_total: groups,
            active_calls_total: calls,
            emergencies_active: emergencies,
            nodes,
            recent_commands: recent,
        }
    }

    /// The overview of the control room, taken now.
    pub fn overview(&self) -> (r: ControlRoomOverview)
        ensures
            exists|now: String| room_overview_of(*self, now, r),
    {
        let now = now_iso();
        let r = self.overview_at(now);
        assert(room_overview_of(*self, r.now, r));
        r
    }
}

} // verus!
