use netcore::node_state::{telemetry_event_type, NodeHello, NodeState, RadioState, TelemetryEvent};
use netcore::room_state::CallState;

fn at(t: &str) -> String {
    t.to_string()
}

#[test]
fn registration_and_group_attach_link_subscriber_and_group() {
    let mut r = RadioState::new();
    r.apply_event(&at("t1"), TelemetryEvent::MsRegistration { issi: 1001 });
    let s = r.subscribers.get(&1001).unwrap();
    assert!(s.online);
    assert_eq!(s.last_event, Some("registration".to_string()));
    assert_eq!(s.last_seen, Some("t1".to_string()));

    r.apply_event(&at("t2"), TelemetryEvent::MsGroupAttach { issi: 1001, gssis: vec![91, 92] });
    let s = r.subscribers.get(&1001).unwrap();
    assert!(s.groups.contains(&91) && s.groups.contains(&92));
    assert!(r.groups.get(&91).unwrap().members.contains(&1001));
    assert!(r.groups.get(&92).unwrap().members.contains(&1001));
    assert_eq!(s.last_event, Some("group_attach".to_string()));
}

#[test]
fn deregistration_removes_member_everywhere_but_keeps_subscriber_groups() {
    let mut r = RadioState::new();
    r.apply_event(&at("t1"), TelemetryEvent::MsGroupAttach { issi: 7, gssis: vec![1, 2, 3] });
    r.apply_event(&at("t2"), TelemetryEvent::MsGroupAttach { issi: 8, gssis: vec![2] });
    r.apply_event(&at("t3"), TelemetryEvent::MsDeregistration { issi: 7 });
    for g in [1u32, 2, 3] {
        assert!(!r.groups.get(&g).unwrap().members.contains(&7));
    }
    assert!(r.groups.get(&2).unwrap().members.contains(&8));
    let s = r.subscribers.get(&7).unwrap();
    assert!(!s.online);
    assert_eq!(s.groups.len(), 3);
    r.apply_event(&at("t4"), TelemetryEvent::MsTimeoutDrop { issi: 8 });
    assert!(r.groups.get(&2).unwrap().members.is_empty());
    assert_eq!(r.subscribers.get(&8).unwrap().timeout_drop_count, 1);
}

#[test]
fn groups_snapshot_replaces_memberships() {
    let mut r = RadioState::new();
    r.apply_event(&at("t1"), TelemetryEvent::MsGroupAttach { issi: 5, gssis: vec![10, 11] });
    r.apply_event(&at("t2"), TelemetryEvent::MsGroupsSnapshot { issi: 5, gssis: vec![12] });
    let s = r.subscribers.get(&5).unwrap();
    assert_eq!(s.groups.len(), 1);
    assert!(s.groups.contains(&12));
    assert!(!r.groups.get(&10).unwrap().members.contains(&5));
    assert!(r.groups.get(&12).unwrap().members.contains(&5));
    r.apply_event(&at("t3"), TelemetryEvent::MsGroupDetach { issi: 5, gssis: vec![12, 99] });
    assert!(r.subscribers.get(&5).unwrap().groups.is_empty());
    assert!(r.groups.get(&12).unwrap().members.is_empty());
    assert!(r.groups.get(&99).is_none());
}

#[test]
fn group_call_life_cycle() {
    let mut r = RadioState::new();
    r.apply_event(
        &at("t1"),
        TelemetryEvent::GroupCallStarted {
            call_id: 4,
            gssi: 91,
            caller_issi: 1001,
            ts: 2,
            carrier_num: 1,
            priority: 0,
            source: "local".to_string(),
        },
    );
    assert_eq!(r.groups.get(&91).unwrap().active_call_id, Some(4));
    r.apply_event(
        &at("t2"),
        TelemetryEvent::GroupCallSpeakerChanged { call_id: 4, gssi: 91, speaker_issi: 1002, source: "brew".to_string() },
    );
    match r.group_calls.get(&4).unwrap() {
        CallState::Group { caller_issi, speaker_issi, source, started_at, last_activity, ts, .. } => {
            assert_eq!(*caller_issi, 1001);
            assert_eq!(*speaker_issi, Some(1002));
            assert_eq!(source, "brew");
            assert_eq!(started_at, "t1");
            assert_eq!(last_activity, "t2");
            assert_eq!(*ts, 2);
        }
        _ => panic!("group call expected"),
    }
    assert_eq!(r.subscribers.get(&1002).unwrap().last_seen, Some("t2".to_string()));
    r.apply_event(&at("t3"), TelemetryEvent::GroupCallEnded { call_id: 4, gssi: 99 });
    assert!(r.group_calls.is_empty());
    assert_eq!(r.groups.get(&91).unwrap().active_call_id, None);
}

#[test]
fn speaker_change_of_unknown_call_starts_one() {
    let mut r = RadioState::new();
    r.apply_event(
        &at("t5"),
        TelemetryEvent::GroupCallSpeakerChanged { call_id: 9, gssi: 93, speaker_issi: 3003, source: "edge".to_string() },
    );
    match r.group_calls.get(&9).unwrap() {
        CallState::Group { caller_issi, carrier_num, started_at, .. } => {
            assert_eq!(*caller_issi, 3003);
            assert_eq!(*carrier_num, 0);
            assert_eq!(started_at, "t5");
        }
        _ => panic!("group call expected"),
    }
}

#[test]
fn individual_calls_and_activity_keys() {
    let mut r = RadioState::new();
    r.apply_event(
        &at("t1"),
        TelemetryEvent::IndividualCallStarted {
            call_id: 3,
            calling_issi: 1,
            called_issi: 2,
            simplex: false,
            ts: 1,
            carrier_num: 1,
            priority: 0,
            source: "local".to_string(),
        },
    );
    assert!(r.individual_calls.contains_key(&3));
    assert_eq!(r.subscribers.len(), 2);
    r.apply_event(&at("t2"), TelemetryEvent::IndividualCallEnded { call_id: 3 });
    assert!(r.individual_calls.is_empty());
    r.apply_event(&at("t3"), TelemetryEvent::SdsActivity { source_issi: 1, dest_issi: 2, source: "air".to_string() });
    assert_eq!(r.timeslot_activity.get("sds:1->2"), Some("t3 via air".to_string()));
    r.apply_event(&at("t4"), TelemetryEvent::TsVoiceActivity { carrier_num: 1, ts: 3 });
    assert_eq!(r.timeslot_activity.get("c1:ts3"), Some("t4".to_string()));
    r.apply_event(
        &at("t5"),
        TelemetryEvent::SdsEdgeIngress { source_issi: 4, dest_issi: 91, is_group: true, ingress: "edge".to_string() },
    );
    assert_eq!(r.timeslot_activity.get("sds-edge:4->91"), Some("t5 via edge".to_string()));
    assert!(r.subscribers.get(&91).is_none());
}

#[test]
fn sds_log_keeps_the_newest_200_and_positions_update_subscribers() {
    let mut r = RadioState::new();
    for i in 0..205u32 {
        r.apply_event(
            &format!("t{}", i),
            TelemetryEvent::SdsLog {
                direction: "uplink".to_string(),
                source_issi: 1,
                dest_issi: 2,
                is_group: false,
                protocol_id: 130,
                text: format!("m{}", i),
                position: None,
            },
        );
    }
    assert_eq!(r.sds_log.len(), 200);
    assert_eq!(r.sds_log[0].text, "m5");
    assert_eq!(r.sds_log[199].text, "m204");
    assert!(r.subscribers.get(&1).is_none());
    let lat = 52.5f64.to_bits();
    let lon = 13.4f64.to_bits();
    r.apply_event(
        &at("t9"),
        TelemetryEvent::SdsLog {
            direction: "uplink".to_string(),
            source_issi: 1,
            dest_issi: 2,
            is_group: false,
            protocol_id: 10,
            text: "LIP position: 52.5, 13.4".to_string(),
            position: Some((lat, lon)),
        },
    );
    let s = r.subscribers.get(&1).unwrap();
    assert!(s.online);
    assert_eq!(s.last_event, Some("lip_position".to_string()));
    let loc = s.last_location.as_ref().unwrap();
    assert_eq!(f64::from_bits(loc.latitude_bits), 52.5);
    assert_eq!(loc.source, "sds_lip");
    assert_eq!(loc.raw_text, Some("LIP position: 52.5, 13.4".to_string()));
}

#[test]
fn emergencies_are_raised_and_cleared() {
    let mut r = RadioState::new();
    r.apply_event(&at("t1"), TelemetryEvent::EmergencyAlarm { source_issi: 55, dest_ssi: 91 });
    assert!(r.emergencies.get(&55).unwrap().active);
    assert!(r.subscribers.get(&55).unwrap().emergency);
    r.apply_event(&at("t2"), TelemetryEvent::EmergencyCancel { source_issi: 55 });
    let e = r.emergencies.get(&55).unwrap();
    assert!(!e.active);
    assert_eq!(e.cleared_at, Some("t2".to_string()));
    assert_eq!(e.raised_at, "t1");
    assert!(!r.subscribers.get(&55).unwrap().emergency);
    r.apply_event(&at("t3"), TelemetryEvent::EmergencyCancel { source_issi: 56 });
    assert!(r.emergencies.get(&56).is_none());
}

#[test]
fn reports_brew_and_signal_values_are_stored() {
    let mut r = RadioState::new();
    r.apply_event(&at("t1"), TelemetryEvent::HealthSnapshot { report: serde_json::Value::Bool(true) });
    assert_eq!(r.health, Some(serde_json::Value::Bool(true)));
    r.apply_event(&at("t2"), TelemetryEvent::BrewConnected { connected: true, server_version: 3 });
    let b = r.brew.as_ref().unwrap();
    assert!(b.connected);
    assert_eq!(b.last_seen, "t2");
    r.apply_event(&at("t3"), TelemetryEvent::MsRssi { issi: 9, rssi_dbfs_bits: (-61.5f32).to_bits() });
    assert_eq!(f32::from_bits(r.subscribers.get(&9).unwrap().rssi_dbfs_bits.unwrap()), -61.5);
    r.apply_event(&at("t4"), TelemetryEvent::BrewSubscriberRegistered { issi: 9, source: "brew-a".to_string() });
    assert_eq!(r.subscribers.get(&9).unwrap().remote_source, Some("brew-a".to_string()));
    r.apply_event(&at("t5"), TelemetryEvent::DapnetLog);
    assert_eq!(r.subscribers.len(), 1);
}

#[test]
fn event_kinds_have_log_names() {
    assert_eq!(telemetry_event_type(&TelemetryEvent::MsRegistration { issi: 1 }), "ms_registration");
    assert_eq!(telemetry_event_type(&TelemetryEvent::TxVisual { report: serde_json::Value::Null }), "tx_visual");
    assert_eq!(telemetry_event_type(&TelemetryEvent::MeshcomNodeUpdate), "meshcom_node_update");
}

#[test]
fn node_hello_heartbeat_telemetry_and_errors() {
    let mut node = NodeState::new("tbs-one".to_string());
    assert!(!node.connected);
    node.apply_hello_at(
        NodeHello {
            protocol_version: "1".to_string(),
            started_at: "t0".to_string(),
            station_name: "North".to_string(),
            site: None,
            stack_version: "0.9".to_string(),
            mcc: 262,
            mnc: 1,
            location_area: 5,
            main_carrier: 1001,
            secondary_carrier: Some(1002),
            colour_code: 1,
            system_code: 2,
            capabilities: serde_json::Value::Null,
        },
        "t1".to_string(),
    );
    assert!(node.connected && node.transport_connected);
    assert_eq!(node.station_name, Some("North".to_string()));
    assert_eq!(node.last_seen, Some("t1".to_string()));
    node.apply_heartbeat(false, 17, "t2".to_string());
    assert!(!node.connected);
    assert_eq!(node.heartbeat_count, 1);
    assert_eq!(node.last_seq, 17);
    node.apply_telemetry(18, "t3".to_string(), TelemetryEvent::MsRegistration { issi: 1 });
    assert!(node.connected);
    assert_eq!(node.telemetry_count, 1);
    assert!(node.radio.subscribers.get(&1).unwrap().online);
    for i in 0..60 {
        node.push_error("t4", &format!("e{}", i));
    }
    assert_eq!(node.errors.len(), 50);
    assert_eq!(node.errors[0], "t4: e10");
    node.mark_disconnected("t5".to_string());
    assert!(!node.transport_connected);
}
