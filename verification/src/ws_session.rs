//! The decisions of the control room's WebSocket endpoints: which handshake
//! is accepted and how, and what a node connection does on each thing that
//! happens on it. The socket itself is driven by the program around the
//! library, which performs the actions and reports what happened.
use vstd::prelude::*;
use crate::text::{concat, lit, split_char, split_seq, str_eq, trim, trim_seq};

verus! {

/// The role that a WebSocket endpoint grants.
#[derive(Clone, Copy, Debug, PartialEq, Eq, Structural)]
pub enum WsRole {
    Node,
    Viewer,
}

/// The answer to a WebSocket upgrade request.
pub enum HandshakeDecision {
    /// Refuse the upgrade with this HTTP status and plain-text message.
    Reject { status: u16, message: String },
    /// Accept it for `role`; `echo_protocol` says whether to name the
    /// control-room protocol in `Sec-WebSocket-Protocol`. The response always
    /// carries the `x-netcore-control-room: 1` marker.
    Accept { role: WsRole, echo_protocol: bool },
}

/// The role of the endpoint at `path`: the node endpoint or the UI endpoint.
pub open spec fn endpoint_role(path: Seq<char>, node_path: Seq<char>, ui_path: Seq<char>) -> Option<WsRole> {
    if path == node_path {
        Some(WsRole::Node)
    } else if path == ui_path {
        Some(WsRole::Viewer)
    } else {
        None
    }
}

/// Whether a comma-separated protocol list names `protocol`, spaces around
/// the names ignored.
pub open spec fn names_protocol(requested: Seq<char>, protocol: Seq<char>) -> bool {
    exists|i: int|
        0 <= i < split_seq(requested, ',').len() && trim_seq(#[trigger] split_seq(requested, ',')[i]) == protocol
}

/// The role of the endpoint at `path` (`endpoint_role`).
pub fn websocket_role(path: &str, node_path: &str, ui_path: &str) -> (r: Option<WsRole>)
    ensures
        r == endpoint_role(path@, node_path@, ui_path@),
{
    if str_eq(path, node_path) {
        Some(WsRole::Node)
    } else if str_eq(path, ui_path) {
        Some(WsRole::Viewer)
    } else {
        None
    }
}

/// Whether a comma-separated protocol list names `protocol`
/// (`names_protocol`).
pub fn requests_protocol(requested: &str, protocol: &str) -> (r: bool)
    ensures
        r == names_protocol(requested@, protocol@),
{
    let parts = split_char(requested, ',');
    let mut i: usize = 0;
    while i < parts.len()
        invariant
            i <= parts@.len(),
            parts.deep_view() == split_seq(requested@, ','),
            forall|j: int| 0 <= j < i ==> trim_seq(#[trigger] split_seq(requested@, ',')[j]) != protocol@,
        decreases parts@.len() - i,
    {
        proof {
            assert(parts.deep_view()[i as int] == parts@[i as int]@);
        }
        if str_eq(trim(parts[i].as_str()).as_str(), protocol) {
            return true;
        }
        i = i + 1;
    }
    false
}

/// The answer to a WebSocket upgrade request for `path`: an unknown
/// endpoint is refused with 404, an unauthorized request with 401; else the
/// upgrade is accepted for the endpoint's role, naming the control-room
/// `protocol` where the request asked for it. `authorized` is the outcome of
/// the access check for that role, and `requested` the request's
/// `Sec-WebSocket-Protocol` header where it is readable text.
pub fn websocket_handshake(
    path: &str,
    node_path: &str,
    ui_path: &str,
    authorized: bool,
    requested: Option<&str>,
    protocol: &str,
) -> (r: HandshakeDecision)
    ensures
        match endpoint_role(path@, node_path@, ui_path@) {
            None => r matches HandshakeDecision::Reject { status, message } && status == 404 && message@
                == "unknown websocket endpoint"@,
            Some(role) => if !authorized {
                r matches HandshakeDecision::Reject { status, message } && status == 401 && message@
                    == "unauthorized websocket request"@
            } else {
                r matches HandshakeDecision::Accept { role: granted, echo_protocol } && granted == role
                    && echo_protocol == match requested {
                    Some(q) => names_protocol(q@, protocol@),
                    None => false,
                }
            },
        },
{
    let role = match websocket_role(path, node_path, ui_path) {
        Some(role) => role,
        None => {
            return HandshakeDecision::Reject { status: 404, message: lit("unknown websocket endpoint") };
        },
    };
    if !authorized {
        return HandshakeDecision::Reject { status: 401, message: lit("unauthorized websocket request") };
    }
    let echo_protocol = match requested {
        Some(q) => requests_protocol(q, protocol),
        None => false,
    };
    HandshakeDecision::Accept { role, echo_protocol }
}

/// What happened on a node's WebSocket.
pub enum NodeSocketEvent {
    /// A message arrived and was decoded and handed to the control room,
    /// which named the node it came from, if any.
    Message { is_hello: bool, node_id: Option<String> },
    /// A binary message arrived that could not be decoded.
    DecodeFailed { error: String },
    /// The node pinged.
    Ping,
    /// Nothing that needs an answer: a text or pong frame, or a read that
    /// timed out.
    Quiet,
    /// The node closed the socket, the connection was lost, or a read or
    /// send failed.
    Ended,
}

/// What the control room does on a node's WebSocket.
pub enum NodeSocketAction {
    /// Route commands for this node to this connection.
    RegisterSender(String),
    /// Send a hello acknowledgement.
    SendHelloAck { accepted: bool, message: String },
    /// Answer a ping.
    SendPong,
    /// Stop routing commands for this node to this connection.
    UnregisterSender(String),
    /// Close the session.
    Stop,
}

/// The next node of a session and what to do, on `event`, for a session that
/// has so far been bound to `node_id`: a hello from a node binds the session
/// to it (routing its commands here when it is new to the session) and is
/// acknowledged; a message that fails to decode is answered with a refusal
/// naming the error; a ping with a pong; the end of the connection stops the
/// session and stops routing to the node it was bound to.
pub fn node_socket_step(node_id: Option<String>, event: NodeSocketEvent) -> (r: (
    Option<String>,
    Vec<NodeSocketAction>,
))
    ensures
        match event {
            NodeSocketEvent::Message { is_hello, node_id: seen } => match seen {
                Some(id) if is_hello => if node_id.is_some() && node_id->0@ == id@ {
                    &&& r.0 == node_id
                    &&& r.1@.len() == 1
                    &&& r.1@[0] matches NodeSocketAction::SendHelloAck { accepted, message } && accepted && message@
                        == "NetCore Control Room accepted node"@
                } else {
                    &&& r.0 is Some && r.0->0@ == id@
                    &&& r.1@.len() == 2
                    &&& r.1@[0] matches NodeSocketAction::RegisterSender(n) && n@ == id@
                    &&& r.1@[1] matches NodeSocketAction::SendHelloAck { accepted, message } && accepted && message@
                        == "NetCore Control Room accepted node"@
                },
                _ => r.0 == node_id && r.1@.len() == 0,
            },
            NodeSocketEvent::DecodeFailed { error } => {
                &&& r.0 == node_id
                &&& r.1@.len() == 1
                &&& r.1@[0] matches NodeSocketAction::SendHelloAck { accepted, message } && !accepted && message@
                    == "decode failed: "@ + error@
            },
            NodeSocketEvent::Ping => r.0 == node_id && r.1@.len() == 1 && r.1@[0] is SendPong,
            NodeSocketEvent::Quiet => r.0 == node_id && r.1@.len() == 0,
            NodeSocketEvent::Ended => {
                &&& r.0 == node_id
                &&& match node_id {
                    Some(id) => r.1@.len() == 2 && (r.1@[0] matches NodeSocketAction::UnregisterSender(n) && n@
                        == id@) && r.1@[1] is Stop,
                    None => r.1@.len() == 1 && r.1@[0] is Stop,
                }
            },
        },
{
    let mut actions: Vec<NodeSocketAction> = Vec::new();
    match event {
        NodeSocketEvent::Message { is_hello, node_id: seen } => {
            if is_hello {
                match seen {
                    Some(id) => {
                        let same = match &node_id {
                            Some(current) => str_eq(current.as_str(), id.as_str()),
                            None => false,
                        };
                        let ack = NodeSocketAction::SendHelloAck {
                            accepted: true,
                            message: lit("NetCore Control Room accepted node"),
                        };
                        if same {
                            actions.push(ack);
                            return (node_id, actions);
                        }
                        actions.push(NodeSocketAction::RegisterSender(id.clone()));
                        actions.push(ack);
                        return (Some(id), actions);
                    },
                    None => {},
                }
            }
            (node_id, actions)
        },
        NodeSocketEvent::DecodeFailed { error } => {
            actions.push(
                NodeSocketAction::SendHelloAck { accepted: false, message: concat("decode failed: ", error.as_str()) },
            );
            (node_id, actions)
        },
        NodeSocketEvent::Ping => {
            actions.push(NodeSocketAction::SendPong);
            (node_id, actions)
        },
        NodeSocketEvent::Quiet => (node_id, actions),
        NodeSocketEvent::Ended => {
            match &node_id {
                Some(id) => {
                    actions.push(NodeSocketAction::UnregisterSender(id.clone()));
                },
                None => {},
            }
            actions.push(NodeSocketAction::Stop);
            (node_id, actions)
        },
    }
}

} // verus!
