use netcore::service_merge::adopt_service_configs;
use netcore::cr_config::CoreServiceConfig;
use netcore::operations::{
    apply_poll_result, clean_optional, join_url, metrics, non_empty_string, normalise_operator,
    normalise_severity, parse_http_url, poll_verdict, reconcile_service_incident, trim_shift_log,
    CreateIncidentRequest, IncidentActionRequest, IncidentNoteRequest, OperationsState, PollResult,
    ServiceSnapshot, ShiftLogEntry, ShiftLogRequest,
};

fn incident_request(title: &str, severity: Option<&str>) -> CreateIncidentRequest {
    CreateIncidentRequest {
        severity: severity.map(|s| s.to_string()),
        title: title.to_string(),
        description: None,
        operator_id: None,
        service: Some("  ".to_string()),
        node_id: Some(" tbs-one ".to_string()),
        issi: Some(1234),
        gssi: None,
    }
}

fn config(name: &str, enabled: bool, critical: bool) -> CoreServiceConfig {
    let mut c = CoreServiceConfig::default();
    c.name = name.to_string();
    c.display_name = format!("{} service", name);
    c.base_url = "http://127.0.0.1:8190/".to_string();
    c.webui_path = "ui".to_string();
    c.enabled = enabled;
    c.critical = critical;
    c
}

fn poll(status: &str, at: &str, message: Option<&str>) -> PollResult {
    PollResult {
        status: status.to_string(),
        live: Some(status != "offline"),
        ready: Some(status == "healthy"),
        checked_at: at.to_string(),
        latency_ms: Some(3),
        http_status: Some(200),
        message: message.map(|m| m.to_string()),
        health: None,
        readiness: None,
        summary: None,
    }
}

#[test]
fn operator_names_are_trimmed_and_capped() {
    assert_eq!(normalise_operator("  alice "), "alice");
    assert_eq!(normalise_operator("   "), "operator");
    let long = "x".repeat(80);
    assert_eq!(normalise_operator(&long).chars().count(), 64);
}

#[test]
fn severities_fold_into_three_levels() {
    assert_eq!(normalise_severity(" INFO "), "info");
    assert_eq!(normalise_severity("warn"), "warning");
    assert_eq!(normalise_severity("Emergency"), "critical");
    assert_eq!(normalise_severity("critical"), "critical");
    assert_eq!(normalise_severity("whatever"), "warning");
}

#[test]
fn optional_texts_are_trimmed_or_dropped() {
    assert_eq!(non_empty_string(" a ".to_string()), Some("a".to_string()));
    assert_eq!(non_empty_string("  ".to_string()), None);
    assert_eq!(clean_optional(Some("\tx\n".to_string())), Some("x".to_string()));
    assert_eq!(clean_optional(None), None);
}

#[test]
fn incident_needs_a_title() {
    let mut state = OperationsState::new_at("t0".to_string());
    let r = state.create_incident_at(incident_request("   ", None), "inc_1".to_string(), "t1".to_string(), 5000);
    assert_eq!(r.unwrap_err(), "title is required");
    assert!(state.incidents.is_empty());
    assert_eq!(state.updated_at, "t0");
}

#[test]
fn incident_life_cycle_open_acknowledge_note_resolve() {
    let mut state = OperationsState::new_at("t0".to_string());
    let created = state
        .create_incident_at(incident_request(" Link down ", Some("EMERGENCY")), "inc_1".to_string(), "t1".to_string(), 5000)
        .unwrap();
    assert_eq!(created.id, "inc_1");
    assert_eq!(created.title, "Link down");
    assert_eq!(created.severity, "critical");
    assert_eq!(created.status, "open");
    assert_eq!(created.description, "");
    assert_eq!(created.service, None);
    assert_eq!(created.node_id, Some("tbs-one".to_string()));
    assert_eq!(created.created_by, "operator");
    assert_eq!(created.issi, Some(1234));
    assert_eq!(state.updated_at, "t1");

    let ack = state
        .acknowledge_incident_at(
            "inc_1",
            IncidentActionRequest { operator_id: Some(" bob ".to_string()), note: Some(" on it ".to_string()) },
            "t2".to_string(),
            "note_1".to_string(),
        )
        .unwrap();
    assert_eq!(ack.status, "acknowledged");
    assert_eq!(ack.acknowledged_by, Some("bob".to_string()));
    assert_eq!(ack.acknowledged_at, Some("t2".to_string()));
    assert_eq!(ack.notes.len(), 1);
    assert_eq!(ack.notes[0].text, "on it");
    assert_eq!(ack.notes[0].id, "note_1");

    let noted = state
        .add_incident_note_at(
            "inc_1",
            IncidentNoteRequest { operator_id: None, text: " checked ".to_string() },
            "t3".to_string(),
            "note_2".to_string(),
        )
        .unwrap();
    assert_eq!(noted.notes.len(), 2);
    assert_eq!(noted.notes[1].operator_id, "operator");
    assert_eq!(noted.status, "acknowledged");

    let resolved = state
        .resolve_incident_at("inc_1", IncidentActionRequest::default(), "t4".to_string(), "note_3".to_string())
        .unwrap();
    assert_eq!(resolved.status, "resolved");
    assert_eq!(resolved.resolved_by, Some("operator".to_string()));
    assert_eq!(resolved.notes.len(), 2);

    let again = state.acknowledge_incident_at(
        "inc_1",
        IncidentActionRequest::default(),
        "t5".to_string(),
        "note_4".to_string(),
    );
    assert_eq!(again.unwrap_err(), "resolved incident cannot be acknowledged");
    assert_eq!(state.incidents[0].status, "resolved");
    assert_eq!(state.updated_at, "t4");
}

#[test]
fn unknown_incident_and_blank_note_are_refused() {
    let mut state = OperationsState::new_at("t0".to_string());
    let r = state.resolve_incident_at("nope", IncidentActionRequest::default(), "t1".to_string(), "n".to_string());
    assert_eq!(r.unwrap_err(), "unknown incident 'nope'");
    let n = state.add_incident_note_at(
        "nope",
        IncidentNoteRequest { operator_id: None, text: "  ".to_string() },
        "t1".to_string(),
        "n".to_string(),
    );
    assert_eq!(n.unwrap_err(), "note text is required");
}

#[test]
fn generated_identifiers_have_their_prefix_and_32_hex_digits() {
    let mut state = OperationsState::new_at("t0".to_string());
    let rec = state.create_incident(incident_request("Fan", None), 5000).unwrap();
    assert!(rec.id.starts_with("inc_"));
    assert_eq!(rec.id.len(), 36);
    assert!(rec.id[4..].chars().all(|c| c.is_ascii_hexdigit() && !c.is_ascii_uppercase()));
    assert_eq!(rec.severity, "warning");
    let entry = state
        .add_shift_log(ShiftLogRequest { operator_id: None, category: None, text: "handover".to_string() }, 100)
        .unwrap();
    assert!(entry.id.starts_with("log_"));
    assert_eq!(entry.id.len(), 36);
}

#[test]
fn listings_are_newest_first_and_filtered() {
    let mut state = OperationsState::new_at("t0".to_string());
    for i in 0..3 {
        state
            .create_incident_at(incident_request(&format!("i{}", i), None), format!("inc_{}", i), format!("t{}", i), 5000)
            .unwrap();
    }
    state
        .resolve_incident_at("inc_1", IncidentActionRequest::default(), "t9".to_string(), "n".to_string())
        .unwrap();
    let all = state.incidents(None, 10);
    let ids: Vec<&str> = all.iter().map(|i| i.id.as_str()).collect();
    assert_eq!(ids, vec!["inc_2", "inc_1", "inc_0"]);
    let open = state.incidents(Some("open"), 10);
    let open_ids: Vec<&str> = open.iter().map(|i| i.id.as_str()).collect();
    assert_eq!(open_ids, vec!["inc_2", "inc_0"]);
    assert_eq!(state.incidents(None, 0).len(), 1);

    for i in 0..3 {
        state
            .add_shift_log_at(
                ShiftLogRequest { operator_id: None, category: Some("  ".to_string()), text: format!("e{}", i) },
                format!("log_{}", i),
                format!("t{}", i),
                100,
            )
            .unwrap();
    }
    let log = state.shift_log(2);
    assert_eq!(log.len(), 2);
    assert_eq!(log[0].text, "e2");
    assert_eq!(log[1].text, "e1");
    assert_eq!(log[0].category, "general");
    assert_eq!(state.shift_log(0).len(), 1);
}

#[test]
fn journals_keep_the_newest_entries_but_never_fewer_than_100() {
    let mut entries: Vec<ShiftLogEntry> = (0..150)
        .map(|i| ShiftLogEntry {
            id: format!("log_{}", i),
            timestamp: "t".to_string(),
            operator_id: "op".to_string(),
            category: "general".to_string(),
            text: "x".to_string(),
        })
        .collect();
    trim_shift_log(&mut entries, 10);
    assert_eq!(entries.len(), 100);
    assert_eq!(entries[0].id, "log_50");
    assert_eq!(entries[99].id, "log_149");
    trim_shift_log(&mut entries, 120);
    assert_eq!(entries.len(), 100);
}

#[test]
fn urls_join_with_exactly_one_slash() {
    assert_eq!(join_url("http://h:1//", "/health"), "http://h:1/health");
    assert_eq!(join_url("http://h:1", "health"), "http://h:1/health");
    assert_eq!(join_url("http://h:1/", "  "), "http://h:1/");
    assert_eq!(join_url("http://h:1", "/"), "http://h:1/");
}

#[test]
fn federation_urls_parse_hosts_ports_and_paths() {
    let u = parse_http_url("http://10.0.0.5:8100/health/live").unwrap();
    assert_eq!(u.host, "10.0.0.5");
    assert_eq!(u.host_header, "10.0.0.5:8100");
    assert_eq!(u.port, 8100);
    assert_eq!(u.path, "/health/live");
    let v6 = parse_http_url("http://[::1]:9000").unwrap();
    assert_eq!(v6.host, "::1");
    assert_eq!(v6.host_header, "[::1]:9000");
    assert_eq!(v6.port, 9000);
    assert_eq!(v6.path, "/");
    let bare = parse_http_url("http://core").unwrap();
    assert_eq!(bare.port, 80);
    assert_eq!(parse_http_url("https://core").unwrap_err(), "only http:// URLs are supported in open_lab federation");
    assert_eq!(parse_http_url("http:// /x").unwrap_err(), "URL host is empty");
    assert_eq!(parse_http_url("http://[::1/x").unwrap_err(), "invalid IPv6 authority");
    assert!(parse_http_url("http://core:99999/").unwrap_err().starts_with("invalid port: "));
    let named = parse_http_url("http://core:abc/").unwrap();
    assert_eq!(named.host, "core:abc");
    assert_eq!(named.port, 80);
}

#[test]
fn poll_verdicts_follow_both_checks() {
    let ok: Result<u16, String> = Ok(200);
    let bad: Result<u16, String> = Ok(503);
    let down: Result<u16, String> = Err("connect refused".to_string());
    let healthy = poll_verdict(&ok, &ok);
    assert_eq!(healthy.status, "healthy");
    assert_eq!(healthy.message, None);
    assert_eq!(healthy.http_status, Some(200));
    let degraded = poll_verdict(&ok, &bad);
    assert_eq!(degraded.status, "degraded");
    assert_eq!(degraded.ready, Some(false));
    assert_eq!(degraded.message, Some("service is live but not ready".to_string()));
    let offline = poll_verdict(&down, &down);
    assert_eq!(offline.status, "offline");
    assert_eq!(offline.live, None);
    assert_eq!(offline.http_status, None);
    assert_eq!(
        offline.message,
        Some("live check failed: connect refused; ready check failed: connect refused".to_string())
    );
    let half = poll_verdict(&down, &bad);
    assert_eq!(half.status, "offline");
    assert_eq!(half.http_status, Some(503));
    assert_eq!(half.message, Some("live check failed: connect refused".to_string()));
}

#[test]
fn snapshots_start_from_the_configuration_and_count_failures() {
    let mut snap = ServiceSnapshot::from_config(&config("kmf", true, false));
    assert_eq!(snap.status, "unknown");
    assert_eq!(snap.webui_url, "http://127.0.0.1:8190/ui");
    let off = ServiceSnapshot::from_config(&config("kmf", false, false));
    assert_eq!(off.status, "disabled");
    apply_poll_result(&mut snap, poll("offline", "t1", Some("down")));
    apply_poll_result(&mut snap, poll("offline", "t2", Some("down")));
    assert_eq!(snap.consecutive_failures, 2);
    assert_eq!(snap.last_success_at, None);
    assert_eq!(snap.checked_at, Some("t2".to_string()));
    apply_poll_result(&mut snap, poll("healthy", "t3", None));
    assert_eq!(snap.consecutive_failures, 0);
    assert_eq!(snap.last_success_at, Some("t3".to_string()));
}

#[test]
fn monitoring_opens_one_incident_and_resolves_it_on_recovery() {
    let mut snap = ServiceSnapshot::from_config(&config("kmf", true, true));
    let mut incidents = Vec::new();
    apply_poll_result(&mut snap, poll("offline", "t1", None));
    reconcile_service_incident(&mut incidents, &snap, 2, "inc_a".to_string(), "t1".to_string(), "n1".to_string());
    assert!(incidents.is_empty());
    apply_poll_result(&mut snap, poll("offline", "t2", None));
    reconcile_service_incident(&mut incidents, &snap, 2, "inc_a".to_string(), "t2".to_string(), "n1".to_string());
    assert_eq!(incidents.len(), 1);
    assert_eq!(incidents[0].source_key, Some("service:kmf".to_string()));
    assert_eq!(incidents[0].severity, "critical");
    assert_eq!(incidents[0].title, "kmf service ist nicht erreichbar");
    assert_eq!(incidents[0].description, "health/readiness checks failed");
    assert_eq!(incidents[0].created_by, "control-room-auto");
    apply_poll_result(&mut snap, poll("offline", "t3", None));
    reconcile_service_incident(&mut incidents, &snap, 2, "inc_b".to_string(), "t3".to_string(), "n2".to_string());
    assert_eq!(incidents.len(), 1);
    apply_poll_result(&mut snap, poll("healthy", "t4", None));
    reconcile_service_incident(&mut incidents, &snap, 2, "inc_c".to_string(), "t4".to_string(), "n3".to_string());
    assert_eq!(incidents.len(), 1);
    assert_eq!(incidents[0].status, "resolved");
    assert_eq!(incidents[0].resolved_at, Some("t4".to_string()));
    assert_eq!(incidents[0].notes.len(), 1);
    assert_eq!(incidents[0].notes[0].text, "Service health and readiness recovered");
}

#[test]
fn record_poll_adds_unknown_services_and_switching_is_logged() {
    let mut state = OperationsState::new_at("t0".to_string());
    let cfg = config("kmf", true, false);
    state.record_poll(&cfg, poll("healthy", "t1", None), 3, true, 5000, "t1".to_string(), "i".to_string(), "n".to_string());
    assert_eq!(state.services.len(), 1);
    assert_eq!(state.service("kmf").unwrap().status, "healthy");
    assert!(state.service("other").is_none());
    assert!(state.poll_enabled(&cfg));

    let r = state.set_service_enabled_at("kmf", false, " eve ", "t2".to_string(), "log_1".to_string(), 100).unwrap();
    assert_eq!(r.status, "disabled");
    assert_eq!(r.message, Some("administratively disabled by eve".to_string()));
    assert!(!state.poll_enabled(&cfg));
    assert_eq!(state.shift_log.len(), 1);
    assert_eq!(state.shift_log[0].category, "service");
    assert_eq!(state.shift_log[0].text, "Service kmf administratively disabled in Control Room monitoring");
    let missing = state.set_service_enabled_at("nope", true, "eve", "t3".to_string(), "log_2".to_string(), 100);
    assert_eq!(missing.unwrap_err(), "unknown service 'nope'");

    state.mark_disabled("kmf", "t4".to_string());
    assert_eq!(state.services[0].message, Some("administratively disabled in Control Room".to_string()));
    assert_eq!(state.services().len(), 1);
}

#[test]
fn only_one_poll_runs_at_a_time() {
    let mut state = OperationsState::new_at("t0".to_string());
    assert!(state.claim_poll("t1".to_string()));
    assert!(!state.claim_poll("t2".to_string()));
    assert_eq!(state.last_poll_started_at, Some("t1".to_string()));
    state.finish_poll("t3".to_string());
    assert!(!state.poll_in_progress);
    assert_eq!(state.poll_count, 1);
    assert!(state.claim_poll("t4".to_string()));
}

#[test]
fn overview_and_metrics_count_services_and_incidents() {
    let mut state = OperationsState::new_at("t0".to_string());
    state.record_poll(&config("a", true, true), poll("offline", "t1", None), 1, true, 5000, "t1".to_string(), "inc_a".to_string(), "n".to_string());
    state.record_poll(&config("b", true, false), poll("healthy", "t1", None), 1, true, 5000, "t1".to_string(), "inc_b".to_string(), "n".to_string());
    state.record_poll(&config("c", true, false), poll("degraded", "t1", None), 1, true, 5000, "t1".to_string(), "inc_c".to_string(), "n".to_string());
    state
        .create_incident_at(incident_request("manual", None), "inc_m".to_string(), "t2".to_string(), 5000)
        .unwrap();
    state
        .acknowledge_incident_at("inc_m", IncidentActionRequest::default(), "t3".to_string(), "n".to_string())
        .unwrap();
    let o = state.overview();
    assert_eq!(o.services_total, 3);
    assert_eq!(o.services_healthy, 1);
    assert_eq!(o.services_degraded, 1);
    assert_eq!(o.services_offline, 1);
    assert_eq!(o.critical_services_offline, 1);
    assert_eq!(o.incidents_open, 1);
    assert_eq!(o.incidents_acknowledged, 1);
    let text = metrics(&o);
    assert!(text.contains("netcore_control_room_services_total 3\n"));
    assert!(text.contains("netcore_control_room_incidents_open 2\n"));
    assert!(text.ends_with("netcore_control_room_poll_count 0\n"));
}

#[test]
fn saved_services_are_kept_and_configuration_applied_in_name_order() {
    let mut saved = ServiceSnapshot::from_config(&config("kmf", true, false));
    apply_poll_result(&mut saved, poll("healthy", "t1", None));
    let stale = ServiceSnapshot::from_config(&config("gone", true, false));
    let mut kmf = config("kmf", false, true);
    kmf.display_name = "Key Management".to_string();
    let configs = vec![config("recorder", true, false), kmf, config("dup", true, false), config("dup", false, false)];
    let merged = adopt_service_configs(&vec![stale, saved], &configs);
    let names: Vec<&str> = merged.iter().map(|s| s.name.as_str()).collect();
    assert_eq!(names, vec!["dup", "kmf", "recorder"]);
    assert_eq!(merged[1].display_name, "Key Management");
    assert!(merged[1].critical);
    assert!(!merged[1].enabled);
    assert_eq!(merged[1].status, "disabled");
    assert_eq!(merged[1].last_success_at, Some("t1".to_string()));
    assert!(!merged[0].enabled);
    assert_eq!(merged[0].status, "disabled");
    assert_eq!(merged[2].status, "unknown");
}

#[test]
fn loaded_state_is_made_ready() {
    let mut state = OperationsState::new_at("t0".to_string());
    state.poll_in_progress = true;
    state.schema_version = 0;
    state.adopt_configs(&vec![config("kmf", true, false)], "t5".to_string());
    assert!(!state.poll_in_progress);
    assert_eq!(state.schema_version, 1);
    assert_eq!(state.updated_at, "t5");
    assert_eq!(state.services.len(), 1);
}
