use netcore::node_state::{NodeHello, TelemetryEvent};
use netcore::room_registry::{ControlRoomState, EventRecord, NodeMessage};
use serde_json::Value;

fn s(t: &str) -> String {
    t.to_string()
}

fn hello() -> NodeHello {
    NodeHello {
        protocol_version: s("1"),
        started_at: s("t0"),
        station_name: s("North"),
        site: Some(s("Hill")),
        stack_version: s("0.9"),
        mcc: 262,
        mnc: 1,
        location_area: 5,
        main_carrier: 1001,
        secondary_carrier: None,
        colour_code: 1,
        system_code: 2,
        capabilities: Value::Null,
    }
}

fn heartbeat(node: &str, seq: u64, t: &str) -> NodeMessage {
    NodeMessage::Heartbeat { node_id: s(node), connected: true, seq, timestamp: s(t) }
}

fn telemetry(node: &str, seq: u64, t: &str, event: TelemetryEvent) -> NodeMessage {
    NodeMessage::Telemetry { node_id: s(node), seq, timestamp: s(t), event, record: Value::String(s(t)) }
}

#[test]
fn heartbeat_registers_the_node_once() {
    let mut room = ControlRoomState::new_at(10, s("start"));
    assert_eq!(room.apply_node_message_at(heartbeat("a", 1, "t1"), s("now")), Some(s("a")));
    assert_eq!(room.apply_node_message_at(heartbeat("a", 2, "t2"), s("now")), Some(s("a")));
    assert_eq!(room.apply_node_message_at(heartbeat("b", 7, "t3"), s("now")), Some(s("b")));
    assert_eq!(room.nodes.len(), 2);
    let a = room.node("a").unwrap();
    assert_eq!(a.heartbeat_count, 2);
    assert_eq!(a.last_seq, 2);
    assert_eq!(a.last_seen, Some(s("t2")));
    assert!(a.transport_connected);
    assert!(room.node("c").is_none());
    assert!(room.recent_events.is_empty());
}

#[test]
fn hello_is_logged_at_the_time_of_handling() {
    let mut room = ControlRoomState::new_at(10, s("start"));
    let message = NodeMessage::Hello { node_id: s("a"), hello: hello(), record: Value::String(s("hello-doc")) };
    assert_eq!(room.apply_node_message_at(message, s("now")), Some(s("a")));
    let a = room.node("a").unwrap();
    assert_eq!(a.station_name, Some(s("North")));
    assert_eq!(a.site, Some(s("Hill")));
    assert_eq!(a.last_seen, Some(s("now")));
    assert!(a.connected);
    assert_eq!(room.recent_events.len(), 1);
    let e = &room.recent_events[0];
    assert_eq!(e.timestamp, "now");
    assert_eq!(e.node_id, "a");
    assert_eq!(e.seq, None);
    assert_eq!(e.event_type, "hello");
    assert!(matches!(&e.event, EventRecord::Document(Value::String(d)) if d == "hello-doc"));
}

#[test]
fn telemetry_changes_the_node_and_is_logged_with_its_type() {
    let mut room = ControlRoomState::new_at(10, s("start"));
    room.apply_node_message_at(telemetry("a", 9, "t1", TelemetryEvent::MsRegistration { issi: 1001 }), s("now"));
    let a = room.node("a").unwrap();
    assert_eq!(a.telemetry_count, 1);
    assert_eq!(a.last_seq, 9);
    assert!(a.radio.subscribers.get(&1001).unwrap().online);
    let e = &room.recent_events[0];
    assert_eq!(e.event_type, "ms_registration");
    assert_eq!(e.seq, Some(9));
    assert_eq!(e.timestamp, "t1");
}

#[test]
fn event_log_keeps_the_newest_entries() {
    let mut room = ControlRoomState::new_at(3, s("start"));
    for i in 0..5u64 {
        room.apply_node_message_at(
            telemetry("a", i, &format!("t{}", i), TelemetryEvent::MsRegistration { issi: 1 }),
            s("now"),
        );
    }
    assert_eq!(room.recent_events.len(), 3);
    let times: Vec<&str> = room.recent_events.iter().map(|e| e.timestamp.as_str()).collect();
    assert_eq!(times, vec!["t2", "t3", "t4"]);
}

#[test]
fn media_frame_from_an_unknown_node_changes_nothing() {
    let mut room = ControlRoomState::new_at(10, s("start"));
    let frame = NodeMessage::MediaFrame { node_id: s("ghost"), timestamp: s("t1") };
    assert_eq!(room.apply_node_message_at(frame, s("now")), Some(s("ghost")));
    assert!(room.nodes.is_empty());
    room.apply_node_message_at(heartbeat("a", 1, "t1"), s("now"));
    room.apply_node_message_at(NodeMessage::MediaFrame { node_id: s("a"), timestamp: s("t9") }, s("now"));
    let a = room.node("a").unwrap();
    assert_eq!(a.last_seen, Some(s("t9")));
    assert_eq!(a.heartbeat_count, 1);
}

#[test]
fn node_error_goes_to_the_node_and_the_log() {
    let mut room = ControlRoomState::new_at(10, s("start"));
    let message = NodeMessage::Error { node_id: s("a"), message: s("sdr lost"), timestamp: s("t5") };
    room.apply_node_message_at(message, s("now"));
    assert_eq!(room.node("a").unwrap().errors, vec![s("t5: sdr lost")]);
    let e = &room.recent_events[0];
    assert_eq!(e.event_type, "node_error");
    assert!(matches!(&e.event, EventRecord::NodeError(m) if m == "sdr lost"));
}

#[test]
fn acknowledgement_settles_a_queued_command() {
    let mut room = ControlRoomState::new_at(10, s("start"));
    room.record_command_queued_at(s("c1"), s("a"), Some(s("op")), s("t0"), Value::String(s("cmd")), s("t1"));
    assert_eq!(room.recent_commands[0].status, "queued");
    let ack = NodeMessage::ControlAck {
        node_id: s("a"),
        command_id: s("c1"),
        accepted: false,
        target_entity: Some(s("Cmce")),
        message: s("busy"),
        timestamp: s("t2"),
    };
    room.apply_node_message_at(ack, s("now"));
    assert_eq!(room.recent_commands.len(), 1);
    let c = &room.recent_commands[0];
    assert_eq!(c.status, "rejected");
    assert_eq!(c.updated_at, "t2");
    assert_eq!(c.issued_at, "t0");
    assert_eq!(c.operator_id, Some(s("op")));
    assert_eq!(c.message, Some(s("busy")));
    assert_eq!(c.target_entity, Some(s("Cmce")));
    assert_eq!(c.command, Some(Value::String(s("cmd"))));
    assert_eq!(room.node("a").unwrap().command_ack_count, 1);
}

#[test]
fn acknowledgement_of_an_unknown_command_adds_an_entry() {
    let mut room = ControlRoomState::new_at(10, s("start"));
    room.record_command_ack("a", "c9", true, None, s("ok"), "t3");
    assert_eq!(room.recent_commands.len(), 1);
    let c = &room.recent_commands[0];
    assert_eq!(c.command_id, "c9");
    assert_eq!(c.target_node_id, "a");
    assert_eq!(c.status, "accepted");
    assert_eq!(c.issued_at, "t3");
    assert_eq!(c.command, None);
    assert!(c.responses.is_empty());
}

#[test]
fn answer_completes_a_queued_command() {
    let mut room = ControlRoomState::new_at(10, s("start"));
    room.record_command_queued_at(s("c1"), s("a"), None, s("t0"), Value::Null, s("t1"));
    let answer = NodeMessage::ControlResponse {
        node_id: s("a"),
        command_id: Some(s("c1")),
        target_entity: None,
        timestamp: s("t4"),
        response: Value::String(s("done")),
    };
    room.apply_node_message_at(answer, s("now"));
    assert_eq!(room.recent_commands.len(), 1);
    let c = &room.recent_commands[0];
    assert_eq!(c.status, "completed");
    assert_eq!(c.updated_at, "t4");
    assert_eq!(c.responses, vec![Value::String(s("done"))]);
    assert_eq!(room.node("a").unwrap().control_response_count, 1);
}

#[test]
fn uncorrelated_answer_gets_a_fresh_id() {
    let mut room = ControlRoomState::new_at(10, s("start"));
    room.record_control_response("a", None, None, "t4", Value::Bool(true));
    let c = &room.recent_commands[0];
    assert!(c.command_id.starts_with("uncorrelated-"));
    assert_eq!(c.command_id.len(), 49);
    assert_eq!(c.status, "response");
    assert_eq!(c.message, Some(s("uncorrelated control response")));
    room.record_control_response("a", Some(s("c7")), None, "t5", Value::Bool(false));
    assert_eq!(room.recent_commands[1].command_id, "c7");
    assert_eq!(room.recent_commands[1].status, "response");
}

#[test]
fn event_and_command_listings_are_newest_first() {
    let mut room = ControlRoomState::new_at(10, s("start"));
    room.apply_node_message_at(telemetry("a", 1, "t1", TelemetryEvent::MsRegistration { issi: 1 }), s("now"));
    room.apply_node_message_at(telemetry("a", 2, "t2", TelemetryEvent::MsRssi { issi: 1, rssi_dbfs_bits: 0 }), s("now"));
    room.apply_node_message_at(telemetry("a", 3, "t3", TelemetryEvent::MsRegistration { issi: 2 }), s("now"));
    let all = room.recent_events_filtered(10, None, false);
    let times: Vec<&str> = all.iter().map(|e| e.timestamp.as_str()).collect();
    assert_eq!(times, vec!["t3", "t2", "t1"]);
    let quiet = room.recent_events_filtered(10, None, true);
    let times: Vec<&str> = quiet.iter().map(|e| e.timestamp.as_str()).collect();
    assert_eq!(times, vec!["t3", "t1"]);
    let rssi = room.recent_events_filtered(10, Some("ms_rssi"), false);
    assert_eq!(rssi.len(), 1);
    assert_eq!(rssi[0].timestamp, "t2");
    assert_eq!(room.recent_events_filtered(1, None, false)[0].timestamp, "t3");
    room.record_command_ack("a", "c1", true, None, s("ok"), "t4");
    room.record_command_ack("a", "c2", true, None, s("ok"), "t5");
    let cmds = room.recent_commands(1);
    assert_eq!(cmds.len(), 1);
    assert_eq!(cmds[0].command_id, "c2");
}

#[test]
fn marking_links_up_and_down() {
    let mut room = ControlRoomState::new_at(10, s("start"));
    room.mark_node_connected_transport_at("a", s("t1"));
    let a = room.node("a").unwrap();
    assert!(a.connected && a.transport_connected);
    assert_eq!(a.last_seen, Some(s("t1")));
    room.mark_node_disconnected_at("a", s("t2"));
    let a = room.node("a").unwrap();
    assert!(!a.connected && !a.transport_connected);
    assert_eq!(a.last_seen, Some(s("t2")));
    assert_eq!(room.nodes.len(), 1);
}

#[test]
fn emergencies_are_listed_active_first_then_newest() {
    let mut room = ControlRoomState::new_at(10, s("start"));
    let alarm = |issi: u32| TelemetryEvent::EmergencyAlarm { source_issi: issi, dest_ssi: 100 };
    room.apply_node_message_at(telemetry("b", 1, "t1", alarm(7)), s("now"));
    room.apply_node_message_at(telemetry("a", 2, "t2", alarm(8)), s("now"));
    room.apply_node_message_at(telemetry("a", 3, "t3", alarm(9)), s("now"));
    room.apply_node_message_at(telemetry("a", 4, "t4", TelemetryEvent::EmergencyCancel { source_issi: 9 }), s("now"));
    let all = room.emergencies_snapshot(None, false).unwrap();
    let order: Vec<(String, u32, bool)> = all.emergencies.iter().map(|d| (d.node_id.clone(), d.source_issi, d.active)).collect();
    assert_eq!(order, vec![(s("a"), 8, true), (s("b"), 7, true), (s("a"), 9, false)]);
    assert_eq!(all.count, 3);
    assert_eq!(all.active_count, 2);
    let active_a = room.emergencies_snapshot(Some("a"), true).unwrap();
    assert_eq!(active_a.count, 1);
    assert_eq!(active_a.emergencies[0].source_issi, 8);
    assert_eq!(active_a.node_filter, Some(s("a")));
    assert!(room.emergencies_snapshot(Some("zzz"), false).is_none());
}

fn group_call(call_id: u16, gssi: u32, caller: u32) -> TelemetryEvent {
    TelemetryEvent::GroupCallStarted { call_id, gssi, caller_issi: caller, ts: 1, carrier_num: 1001, priority: 0, source: s("rf") }
}

#[test]
fn calls_groups_and_subscribers_are_listed_by_node() {
    let mut room = ControlRoomState::new_at(10, s("start"));
    room.apply_node_message_at(telemetry("b", 1, "t1", group_call(4, 91, 10)), s("now"));
    room.apply_node_message_at(telemetry("a", 2, "t3", group_call(5, 92, 20)), s("now"));
    room.apply_node_message_at(telemetry("a", 3, "t2", group_call(6, 93, 21)), s("now"));
    let calls = room.calls_snapshot(None).unwrap();
    let order: Vec<(String, String)> = calls.calls.iter().map(|c| (c.node_id.clone(), c.key.clone())).collect();
    assert_eq!(order, vec![(s("a"), s("group:6")), (s("a"), s("group:5")), (s("b"), s("group:4"))]);
    assert_eq!(calls.count, 3);
    let groups = room.groups_snapshot(Some("a")).unwrap();
    let gssis: Vec<u32> = groups.groups.iter().map(|g| g.gssi).collect();
    assert_eq!(gssis, vec![92, 93]);
    room.apply_node_message_at(telemetry("a", 4, "t4", TelemetryEvent::MsRegistration { issi: 30 }), s("now"));
    room.apply_node_message_at(telemetry("a", 5, "t5", TelemetryEvent::MsRegistration { issi: 12 }), s("now"));
    room.apply_node_message_at(telemetry("a", 6, "t6", TelemetryEvent::MsDeregistration { issi: 30 }), s("now"));
    let subs = room.subscribers_snapshot(None, false).unwrap();
    let issis: Vec<u32> = subs.subscribers.iter().map(|d| d.issi).collect();
    assert_eq!(issis, vec![12, 20, 21, 30, 10]);
    assert_eq!(subs.online_count, 1);
    let online = room.subscribers_snapshot(Some("a"), true).unwrap();
    assert_eq!(online.count, 1);
    assert_eq!(online.subscribers[0].issi, 12);
    assert!(room.calls_snapshot(Some("none")).is_none());
}

#[test]
fn sds_listing_is_newest_first_and_limited() {
    let mut room = ControlRoomState::new_at(10, s("start"));
    let sds = |text: &str| TelemetryEvent::SdsLog {
        direction: s("uplink"),
        source_issi: 1,
        dest_issi: 2,
        is_group: false,
        protocol_id: 130,
        text: s(text),
        position: None,
    };
    room.apply_node_message_at(telemetry("a", 1, "t1", sds("one")), s("now"));
    room.apply_node_message_at(telemetry("b", 2, "t3", sds("three")), s("now"));
    room.apply_node_message_at(telemetry("a", 3, "t2", sds("two")), s("now"));
    let all = room.sds_snapshot(None, 10).unwrap();
    let texts: Vec<&str> = all.sds.iter().map(|d| d.text.as_str()).collect();
    assert_eq!(texts, vec!["three", "two", "one"]);
    let two = room.sds_snapshot(None, 2).unwrap();
    assert_eq!(two.count, 2);
    assert_eq!(two.sds[1].text, "two");
    let only_a = room.sds_snapshot(Some("a"), 1).unwrap();
    assert_eq!(only_a.sds.len(), 1);
    assert_eq!(only_a.sds[0].text, "two");
}

#[test]
fn locations_are_listed_newest_first() {
    let mut room = ControlRoomState::new_at(10, s("start"));
    let fix = |issi: u32, lat: f64| TelemetryEvent::SdsLog {
        direction: s("uplink"),
        source_issi: issi,
        dest_issi: 2,
        is_group: false,
        protocol_id: 10,
        text: s("pos"),
        position: Some((lat.to_bits(), 7.5f64.to_bits())),
    };
    room.apply_node_message_at(telemetry("a", 1, "t1", fix(5, 48.0)), s("now"));
    room.apply_node_message_at(telemetry("a", 2, "t2", fix(6, 49.0)), s("now"));
    let list = room.locations_snapshot(None).unwrap();
    assert_eq!(list.count, 2);
    assert_eq!(list.locations[0].issi, 6);
    assert_eq!(f64::from_bits(list.locations[0].latitude_bits), 49.0);
    assert_eq!(list.locations[1].updated_at, "t1");
}
