use netcore::node_state::{RadioState, TelemetryEvent};
use netcore::operations::now_iso;

fn at(t: &str) -> String {
    t.to_string()
}

fn consistent(r: &RadioState) -> bool {
    r.subscribers.iter().all(|(k, s)| s.issi == *k && s.groups.iter().all(|g| r.groups.contains_key(g)))
        && r.groups.iter().all(|(k, g)| {
            g.gssi == *k
                && g.members.iter().all(|i| r.subscribers.get(i).map_or(false, |s| s.groups.contains(k)))
                && g.active_call_id.map_or(true, |c| r.group_calls.contains_key(&c))
        })
}

#[test]
fn radio_picture_stays_consistent_over_a_session() {
    let mut r = RadioState::new();
    assert!(consistent(&r));
    let events = vec![
        TelemetryEvent::MsGroupAttach { issi: 7, gssis: vec![1, 2, 3] },
        TelemetryEvent::MsGroupsSnapshot { issi: 8, gssis: vec![2, 4] },
        TelemetryEvent::GroupCallStarted { call_id: 5, gssi: 2, caller_issi: 9, ts: 1, carrier_num: 10, priority: 0, source: at("rf") },
        TelemetryEvent::MsGroupDetach { issi: 7, gssis: vec![2] },
        TelemetryEvent::MsDeregistration { issi: 8 },
        TelemetryEvent::GroupCallSpeakerChanged { call_id: 6, gssi: 3, speaker_issi: 7, source: at("rf") },
        TelemetryEvent::GroupCallEnded { call_id: 5, gssi: 2 },
        TelemetryEvent::MsTimeoutDrop { issi: 7 },
    ];
    let mut known_subscribers = 0;
    let mut known_groups = 0;
    for (n, e) in events.into_iter().enumerate() {
        r.apply_event(&at(&format!("t{}", n)), e);
        assert!(consistent(&r));
        assert!(r.subscribers.len() >= known_subscribers && r.groups.len() >= known_groups);
        known_subscribers = r.subscribers.len();
        known_groups = r.groups.len();
    }
    assert!(r.groups.values().all(|g| g.active_call_id != Some(5)));
    assert_eq!(r.groups.get(&3).unwrap().active_call_id, Some(6));
}

#[test]
fn current_time_is_rfc3339_with_milliseconds() {
    let t: Vec<char> = now_iso().chars().collect();
    let n = t.len();
    assert!(n >= 24);
    assert_eq!(t[n - 1], 'Z');
    assert_eq!(t[n - 5], '.');
    assert_eq!(t[n - 14], 'T');
    assert_eq!(t[n - 20], '-');
}
