use netcore::listings::{group_detail, node_overview, subscriber_active_call_keys, subscriber_detail};
use netcore::node_state::{NodeState, TelemetryEvent};

fn s(t: &str) -> String {
    t.to_string()
}

fn node_with_traffic() -> NodeState {
    let mut node = NodeState::new(s("tbs-1"));
    node.station_name = Some(s("North"));
    let events = vec![
        TelemetryEvent::MsRegistration { issi: 30 },
        TelemetryEvent::MsRegistration { issi: 10 },
        TelemetryEvent::MsGroupAttach { issi: 30, gssis: vec![900, 100] },
        TelemetryEvent::MsGroupAttach { issi: 10, gssis: vec![100] },
        TelemetryEvent::MsGroupAttach { issi: 20, gssis: vec![100] },
        TelemetryEvent::GroupCallStarted {
            call_id: 9,
            gssi: 100,
            caller_issi: 10,
            ts: 2,
            carrier_num: 1001,
            priority: 0,
            source: s("rf"),
        },
        TelemetryEvent::GroupCallStarted {
            call_id: 10,
            gssi: 900,
            caller_issi: 10,
            ts: 3,
            carrier_num: 1001,
            priority: 0,
            source: s("rf"),
        },
        TelemetryEvent::IndividualCallStarted {
            call_id: 3,
            calling_issi: 10,
            called_issi: 30,
            simplex: false,
            ts: 4,
            carrier_num: 1001,
            priority: 0,
            source: s("rf"),
        },
        TelemetryEvent::EmergencyAlarm { source_issi: 30, dest_ssi: 100 },
    ];
    for (i, e) in events.into_iter().enumerate() {
        node.apply_telemetry(i as u64, format!("t{}", i), e);
    }
    node.radio.subscribers.get_mut(&20).unwrap().online = false;
    node
}

#[test]
fn group_detail_lists_members_rising_with_online_count_and_call() {
    let node = node_with_traffic();
    let group = node.radio.groups.get(&100).unwrap();
    let d = group_detail(&node, group);
    assert_eq!(d.node_id, "tbs-1");
    assert_eq!(d.station_name, Some(s("North")));
    assert_eq!(d.gssi, 100);
    assert_eq!(d.members, vec![10, 20, 30]);
    assert_eq!(d.members_online, 2);
    assert_eq!(d.active_call_id, Some(9));
    assert_eq!(d.active_call_key, Some(s("group:9")));
}

#[test]
fn call_keys_of_a_subscriber_follow_their_text() {
    let node = node_with_traffic();
    let keys = subscriber_active_call_keys(&node, 10);
    assert_eq!(keys, vec![s("group:10"), s("group:9"), s("individual:3")]);
    assert_eq!(subscriber_active_call_keys(&node, 30), vec![s("individual:3")]);
    assert!(subscriber_active_call_keys(&node, 77).is_empty());
}

#[test]
fn subscriber_detail_lists_groups_rising() {
    let node = node_with_traffic();
    let sub = node.radio.subscribers.get(&30).unwrap();
    let d = subscriber_detail(&node, sub);
    assert_eq!(d.issi, 30);
    assert!(d.online);
    assert!(d.emergency);
    assert_eq!(d.groups, vec![100, 900]);
    assert_eq!(d.active_call_keys, vec![s("individual:3")]);
}

#[test]
fn overview_counts_the_radio_picture() {
    let node = node_with_traffic();
    let o = node_overview(&node);
    assert_eq!(o.node_id, "tbs-1");
    assert_eq!(o.subscribers_total, 3);
    assert_eq!(o.subscribers_online, 2);
    assert_eq!(o.groups_total, 2);
    assert_eq!(o.active_calls_total, 3);
    assert_eq!(o.emergencies_active, 1);
    assert_eq!(o.telemetry_count, 9);
    assert!(!o.dual_carrier);
    assert_eq!(o.brew_connected, None);
}
