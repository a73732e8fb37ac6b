//! Submitting an operator command to a node: the command gets an id and an
//! issue time where it has none, is handed to the node's connection, and,
//! once queued there, enters the command audit trail. Handing it to the
//! connection is the work of the program around the library, which reports
//! how it went.
use vstd::prelude::*;
use crate::node_state::{keep_last, text_view};
use crate::operations::{now_iso, random_uuid_text, rfc3339_millis_utc_form, uuid_text_form};
use crate::room_registry::{commands_view, queued_entry, ControlRoomState};
use crate::text::{concat, lit, trim, trim_seq};

verus! {

/// The answer to a submitted command that was queued for its node.
pub struct QueuedCommand {
    pub command_id: String,
    pub target_node_id: String,
    pub status: String,
    pub timestamp: String,
}

/// How handing a command to its node's connection went.
pub enum CommandDelivery {
    /// The node has no connection to this control room.
    NotConnected,
    /// The connection would not take the command, for this reason.
    QueueFailed(String),
    /// The command is queued on the connection.
    Queued,
}

/// `text`, or `fallback` where `text` is blank.
pub open spec fn or_when_blank(text: Seq<char>, fallback: Seq<char>) -> Seq<char> {
    if trim_seq(text).len() == 0 {
        fallback
    } else {
        text
    }
}

/// The error that a command submission gives, if any.
pub open spec fn submission_error(target_node_id: Seq<char>, delivery: CommandDelivery) -> Option<Seq<char>> {
    match delivery {
        CommandDelivery::NotConnected => Some("node '"@ + target_node_id + "' is not connected"@),
        CommandDelivery::QueueFailed(e) => Some(
            "failed to queue command for node '"@ + target_node_id + "': "@ + e@,
        ),
        CommandDelivery::Queued => None,
    }
}

fn blank(s: &String) -> (r: bool)
    ensures
        r == (trim_seq(s@).len() == 0),
{
    let t = trim(s.as_str());
    t.as_str().unicode_len() == 0
}

/// The id and issue time of a command: those given, or `fresh_id` and `now`
/// where they are blank.
pub fn fill_command_envelope_at(command_id: String, issued_at: String, fresh_id: String, now: String) -> (r: (
    String,
    String,
))
    ensures
        r.0@ == or_when_blank(command_id@, fresh_id@),
        r.1@ == or_when_blank(issued_at@, now@),
{
    let id = if blank(&command_id) {
        fresh_id
    } else {
        command_id
    };
    let at = if blank(&issued_at) {
        now
    } else {
        issued_at
    };
    (id, at)
}

/// The id and issue time of a command: those given, or a fresh random id
/// and the current time where they are blank.
pub fn fill_command_envelope(command_id: String, issued_at: String) -> (r: (String, String))
    ensures
        trim_seq(command_id@).len() != 0 ==> r.0@ == command_id@,
        trim_seq(command_id@).len() == 0 ==> uuid_text_form(r.0@),
        trim_seq(issued_at@).len() != 0 ==> r.1@ == issued_at@,
        trim_seq(issued_at@).len() == 0 ==> rfc3339_millis_utc_form(r.1@),
{
    fill_command_envelope_at(command_id, issued_at, random_uuid_text(), now_iso())
}

impl ControlRoomState {
    /// Settles a submitted command, given how handing it to its node's
    /// connection went, at `now`: a command that could not be queued is
    /// refused with the reason and leaves the control room as it was; a
    /// queued one enters the command audit trail and is answered as queued.
    pub fn settle_submitted_command_at(
        &mut self,
        command_id: String,
        target_node_id: String,
        operator_id: Option<String>,
        issued_at: String,
        command: serde_json::Value,
        delivery: CommandDelivery,
        now: String,
    ) -> (r: Result<QueuedCommand, String>)
        requires
            old(self).wf(),
        ensures
            final(self).wf(),
            match submission_error(target_node_id@, delivery) {
                Some(e) => r matches Err(m) && m@ == e && *final(self) == *old(self),
                None => {
                    &&& r matches Ok(q) && q.command_id@ == command_id@ && q.target_node_id@ == target_node_id@
                        && q.status@ == "queued"@ && q.timestamp@ == now@
                    &&& commands_view(final(self).recent_commands@) == keep_last(
                        commands_view(old(self).recent_commands@).push(
                            queued_entry(
                                command_id@,
                                target_node_id@,
                                text_view(operator_id),
                                issued_at@,
                                now@,
                                command,
                            ),
                        ),
                        old(self).history_limit as nat,
                    )
                    &&& final(self).nodes@ == old(self).nodes@
                    &&& final(self).recent_events@ == old(self).recent_events@
                },
            },
    {
        match delivery {
            CommandDelivery::NotConnected => {
                let m = concat(concat("node '", target_node_id.as_str()).as_str(), "' is not connected");
                Err(m)
            },
            CommandDelivery::QueueFailed(e) => {
                let head = concat(
                    concat("failed to queue command for node '", target_node_id.as_str()).as_str(),
                    "': ",
                );
                Err(concat(head.as_str(), e.as_str()))
            },
            CommandDelivery::Queued => {
                let q = QueuedCommand {
                    command_id: command_id.clone(),
                    target_node_id: target_node_id.clone(),
                    status: lit("queued"),
                    timestamp: now.clone(),
                };
                self.record_command_queued_at(command_id, target_node_id, operator_id, issued_at, command, now);
                Ok(q)
            },
        }
    }
}

} // verus!
