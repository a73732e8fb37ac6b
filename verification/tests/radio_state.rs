use netcore::room_state::{
    call_detail, call_involves_subscriber, emergency_detail, is_noisy_event_type, sds_detail, CallState,
    EmergencyState, GroupState, SdsLogEntry,
};
use netcore::umac::{LengthIndInfo, UmacParser};

fn bits(text: &str) -> Vec<bool> {
    text.chars().map(|c| c == '1').collect()
}

#[test]
fn length_indication_values_have_their_meaning() {
    assert_eq!(
        UmacParser::interpret_length_ind(0, 200),
        LengthIndInfo { pdu_len_bits: 0, is_null_pdu: true, is_frag_start: false, second_half_stolen: false }
    );
    assert_eq!(UmacParser::interpret_length_ind(4, 200).pdu_len_bits, 32);
    assert_eq!(UmacParser::interpret_length_ind(57, 200).pdu_len_bits, 200);
    let stolen = UmacParser::interpret_length_ind(62, 124);
    assert!(stolen.second_half_stolen);
    assert_eq!(stolen.pdu_len_bits, 124);
    let frag = UmacParser::interpret_length_ind(63, 90);
    assert!(frag.is_frag_start);
    assert_eq!(frag.pdu_len_bits, 0);
    assert_eq!(
        UmacParser::interpret_length_ind(1, 200),
        LengthIndInfo { pdu_len_bits: 0, is_null_pdu: false, is_frag_start: false, second_half_stolen: false }
    );
    assert_eq!(UmacParser::interpret_length_ind(60, 200).pdu_len_bits, 0);
}

#[test]
fn fill_bits_run_from_the_last_one_to_the_end() {
    assert_eq!(UmacParser::count_fill_bits(&bits("10110100"), 8), 3);
    assert_eq!(UmacParser::count_fill_bits(&bits("10110001"), 8), 1);
    assert_eq!(UmacParser::count_fill_bits(&bits("00000000"), 8), 0);
    assert_eq!(UmacParser::count_fill_bits(&bits("1111"), 8), 0);
}

#[test]
fn association_yields_the_rest_of_the_block() {
    let block = bits(&format!("{}{}", "1".repeat(16), "0101010101010101"));
    assert_eq!(
        UmacParser::apply_pdu_association(&block, Some(2)),
        Some("0101010101010101".to_string())
    );
    assert_eq!(UmacParser::apply_pdu_association(&block, Some(3)), None);
    assert_eq!(UmacParser::apply_pdu_association(&block, Some(0)), None);
    assert_eq!(UmacParser::apply_pdu_association(&block, Some(63)), None);
    assert_eq!(UmacParser::apply_pdu_association(&block, None), None);
}

#[test]
fn calls_involve_their_parties() {
    let group = CallState::Group {
        call_id: 7,
        gssi: 91,
        caller_issi: 1001,
        speaker_issi: Some(1002),
        carrier_num: 1,
        ts: 2,
        priority: 0,
        source: "local".to_string(),
        started_at: "t0".to_string(),
        last_activity: "t1".to_string(),
    };
    assert!(call_involves_subscriber(&group, 1001));
    assert!(call_involves_subscriber(&group, 1002));
    assert!(!call_involves_subscriber(&group, 91));
    let individual = CallState::Individual {
        call_id: 8,
        calling_issi: 2001,
        called_issi: 2002,
        simplex: true,
        carrier_num: 1,
        ts: 3,
        priority: 1,
        source: "brew".to_string(),
        started_at: "t0".to_string(),
        last_activity: "t2".to_string(),
    };
    assert!(call_involves_subscriber(&individual, 2002));
    assert!(!call_involves_subscriber(&individual, 1001));

    let row = call_detail("tbs-one", &Some("North".to_string()), "g7", &group);
    assert_eq!(row.call_kind, "group");
    assert_eq!(row.gssi, Some(91));
    assert_eq!(row.calling_issi, None);
    assert_eq!(row.station_name, Some("North".to_string()));
    let row2 = call_detail("tbs-one", &None, "i8", &individual);
    assert_eq!(row2.call_kind, "individual");
    assert_eq!(row2.simplex, Some(true));
    assert_eq!(row2.caller_issi, None);
    assert_eq!(row2.key, "i8");
}

#[test]
fn sds_and_emergency_rows_copy_their_entries() {
    let entry = SdsLogEntry {
        timestamp: "t5".to_string(),
        direction: "uplink".to_string(),
        source_issi: 1,
        dest_issi: 2,
        is_group: false,
        protocol_id: 130,
        text: "hello".to_string(),
    };
    let row = sds_detail("tbs-one", &None, &entry);
    assert_eq!(row.node_id, "tbs-one");
    assert_eq!(row.text, "hello");
    assert_eq!(row.protocol_id, 130);
    let e = EmergencyState { source_issi: 5, dest_ssi: 6, active: true, raised_at: "t6".to_string(), cleared_at: None };
    let erow = emergency_detail("tbs-two", &Some("South".to_string()), &e);
    assert_eq!(erow.node_id, "tbs-two");
    assert!(erow.active);
    assert_eq!(erow.cleared_at, None);
}

#[test]
fn noisy_event_types_are_recognised() {
    assert!(is_noisy_event_type("tx_visual"));
    assert!(is_noisy_event_type("ts_voice_activity"));
    assert!(!is_noisy_event_type("call_started"));
    let g = GroupState::new(91);
    assert_eq!(g.gssi, 91);
    assert!(g.members.is_empty());
    assert_eq!(g.active_call_id, None);
}
