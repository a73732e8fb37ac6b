use netcore::ws_session::{
    node_socket_step, requests_protocol, websocket_handshake, websocket_role, HandshakeDecision, NodeSocketAction,
    NodeSocketEvent, WsRole,
};

fn s(t: &str) -> String {
    t.to_string()
}

#[test]
fn handshake_picks_the_endpoint_and_checks_access() {
    assert_eq!(websocket_role("/node", "/node", "/ui"), Some(WsRole::Node));
    assert_eq!(websocket_role("/ui", "/node", "/ui"), Some(WsRole::Viewer));
    assert_eq!(websocket_role("/x", "/node", "/ui"), None);
    match websocket_handshake("/x", "/node", "/ui", true, None, "netcore-cr-v1") {
        HandshakeDecision::Reject { status, message } => {
            assert_eq!(status, 404);
            assert_eq!(message, "unknown websocket endpoint");
        }
        _ => panic!("unknown endpoint accepted"),
    }
    match websocket_handshake("/node", "/node", "/ui", false, None, "netcore-cr-v1") {
        HandshakeDecision::Reject { status, message } => {
            assert_eq!(status, 401);
            assert_eq!(message, "unauthorized websocket request");
        }
        _ => panic!("unauthorized request accepted"),
    }
    match websocket_handshake("/node", "/node", "/ui", true, Some("chat, netcore-cr-v1 "), "netcore-cr-v1") {
        HandshakeDecision::Accept { role, echo_protocol } => {
            assert_eq!(role, WsRole::Node);
            assert!(echo_protocol);
        }
        _ => panic!("node refused"),
    }
    match websocket_handshake("/ui", "/node", "/ui", true, Some("chat"), "netcore-cr-v1") {
        HandshakeDecision::Accept { role, echo_protocol } => {
            assert_eq!(role, WsRole::Viewer);
            assert!(!echo_protocol);
        }
        _ => panic!("viewer refused"),
    }
    assert!(!requests_protocol("netcore-cr-v10", "netcore-cr-v1"));
}

#[test]
fn node_session_binds_on_hello_and_cleans_up_at_the_end() {
    let (id, actions) = node_socket_step(None, NodeSocketEvent::Message { is_hello: true, node_id: Some(s("n1")) });
    assert_eq!(id, Some(s("n1")));
    assert!(matches!(&actions[0], NodeSocketAction::RegisterSender(n) if n == "n1"));
    assert!(matches!(&actions[1], NodeSocketAction::SendHelloAck { accepted: true, message } if message == "NetCore Control Room accepted node"));
    let (id, actions) = node_socket_step(id, NodeSocketEvent::Message { is_hello: true, node_id: Some(s("n1")) });
    assert_eq!(actions.len(), 1);
    let (id, actions) = node_socket_step(id, NodeSocketEvent::Message { is_hello: false, node_id: Some(s("n1")) });
    assert!(actions.is_empty());
    let (id, actions) = node_socket_step(id, NodeSocketEvent::DecodeFailed { error: s("bad json") });
    assert!(matches!(&actions[0], NodeSocketAction::SendHelloAck { accepted: false, message } if message == "decode failed: bad json"));
    let (id, actions) = node_socket_step(id, NodeSocketEvent::Ping);
    assert!(matches!(actions[0], NodeSocketAction::SendPong));
    let (id, actions) = node_socket_step(id, NodeSocketEvent::Ended);
    assert_eq!(id, Some(s("n1")));
    assert!(matches!(&actions[0], NodeSocketAction::UnregisterSender(n) if n == "n1"));
    assert!(matches!(actions[1], NodeSocketAction::Stop));
    let (_, actions) = node_socket_step(None, NodeSocketEvent::Ended);
    assert_eq!(actions.len(), 1);
}
