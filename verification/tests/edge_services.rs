use netcore::edge_status::{
    central_service_available, edge_fallback_snapshot, edge_fallback_services, system_wide_services_available,
    EdgeFallbackMode, EdgeRuntimeState, EdgeServiceLevel, EdgeServiceRuntime,
};
use netcore::sec_asterisk::CfgAsterisk;
use netcore::sec_audio_player::CfgAudioPlayer;
use netcore::sec_cell::{cell_dto_to_cfg, CellInfoDto};
use netcore::sec_control_room::CfgControlRoom;
use netcore::sec_echolink::CfgEcholink;
use netcore::sec_edge_fallback::CfgEdgeFallback;
use netcore::sec_net::{net_dto_to_cfg, NetInfoDto};
use netcore::stack_config::{CfgPhyIo, CfgRecovery, PhyBackend, StackConfig, StackMode};
use netcore::text_map::TextMap;

fn s(t: &str) -> String {
    t.to_string()
}

fn reported(name: &str, level: EdgeServiceLevel, mode: &str) -> EdgeServiceRuntime {
    EdgeServiceRuntime {
        service: s(name),
        level,
        critical_for_edge: false,
        fallback_mode: s(mode),
        checked_at: s("t1"),
        last_success_at: Some(s("t0")),
        message: None,
    }
}

fn edge() -> CfgEdgeFallback {
    let mut e = CfgEdgeFallback::default();
    e.enabled = true;
    e.unknown_service_is_available = false;
    e.required_services = vec![s("subscriber-core")];
    let mut fallbacks = TextMap::new();
    fallbacks.insert(s("node-gateway"), s("local"));
    fallbacks.insert(s("subscriber-core"), s("cached"));
    fallbacks.insert(s("sds-router"), s("spool"));
    e.service_fallbacks = fallbacks;
    e
}

fn state(gateway: bool, fresh: bool, services: Vec<EdgeServiceRuntime>) -> EdgeRuntimeState {
    EdgeRuntimeState {
        network_connected: false,
        core_gateway_connected: gateway,
        edge_service_matrix_fresh: fresh,
        edge_service_matrix_received_at: Some(s("t9")),
        edge_fallback_last_transition_at: s("t5"),
        edge_fallback_mode: EdgeFallbackMode::Degraded,
        edge_fallback_reason: s("gateway lost"),
        edge_service_revision: 7,
        edge_policy_loaded_from_cache: true,
        edge_policy_cache_saved_at: Some(s("t2")),
        edge_policy_cache_age_secs: Some(30),
        edge_event_spool_entries: 4,
        edge_event_spool_bytes: 512,
        edge_services: services,
    }
}

fn control_room() -> CfgControlRoom {
    CfgControlRoom {
        enabled: true,
        host: s("core"),
        port: 9000,
        use_tls: false,
        endpoint_path: s("/ws"),
        ca_cert: None,
        credentials: None,
        node_id: None,
        station_name: None,
        site: None,
        central_sds_routing: false,
    }
}

fn stack(edge: CfgEdgeFallback, room: Option<CfgControlRoom>) -> StackConfig {
    StackConfig {
        stack_mode: StackMode::Bs,
        debug_log: None,
        service_name: None,
        net: net_dto_to_cfg(NetInfoDto { mcc: 204, mnc: 1337, extra_keys: Vec::new() }),
        phy_io: CfgPhyIo { backend: PhyBackend::NoRadio, soapysdr_configured: false },
        cell: cell_dto_to_cfg(CellInfoDto::default()),
        recovery: CfgRecovery { enabled: false, issi_allowlist: Vec::new(), max_cached_issis: 0 },
        brew: None,
        brew2: None,
        asterisk: CfgAsterisk::default(),
        echolink: CfgEcholink::default(),
        audio_player: CfgAudioPlayer::default(),
        control_room: room,
        edge_fallback: edge,
    }
}

#[test]
fn central_services_are_trusted_only_with_a_fresh_matrix() {
    let e = edge();
    let up = state(true, true, vec![reported("subscriber-core", EdgeServiceLevel::Available, "")]);
    assert!(central_service_available(&e, &up, "subscriber-core"));
    assert!(!central_service_available(&e, &up, "sds-router"));
    let stale = state(true, false, vec![reported("subscriber-core", EdgeServiceLevel::Available, "")]);
    assert!(!central_service_available(&e, &stale, "subscriber-core"));
    let degraded = state(true, true, vec![reported("subscriber-core", EdgeServiceLevel::Degraded, "")]);
    assert!(!central_service_available(&e, &degraded, "subscriber-core"));
    let mut off = edge();
    off.enabled = false;
    assert!(central_service_available(&off, &stale, "anything"));
}

#[test]
fn system_wide_services_follow_the_links() {
    let up = state(true, true, vec![reported("subscriber-core", EdgeServiceLevel::Available, "")]);
    let down = state(false, true, Vec::new());
    assert!(system_wide_services_available(&stack(edge(), Some(control_room())), &up));
    assert!(!system_wide_services_available(&stack(edge(), Some(control_room())), &down));
    let cell_says = cell_dto_to_cfg(CellInfoDto::default()).system_wide_services;
    assert_eq!(system_wide_services_available(&stack(edge(), None), &down), cell_says);
    let mut off = edge();
    off.enabled = false;
    assert!(system_wide_services_available(&stack(off, Some(control_room())), &up));
    let mut brew_up = state(false, false, Vec::new());
    brew_up.network_connected = true;
    assert!(system_wide_services_available(&stack(edge(), Some(control_room())), &brew_up));
}

#[test]
fn edge_service_table_lists_reported_and_configured_services_by_name() {
    let st = state(false, true, vec![reported("sds-router", EdgeServiceLevel::Available, " "), reported("media-switch", EdgeServiceLevel::Unknown, "x")]);
    let rows = edge_fallback_services(&edge(), &st);
    let names: Vec<&str> = rows.iter().map(|r| r.service.as_str()).collect();
    assert_eq!(names, vec!["media-switch", "node-gateway", "sds-router", "subscriber-core"]);
    let sds = &rows[2];
    assert_eq!(sds.fallback_mode, "spool");
    assert_eq!(sds.level, EdgeServiceLevel::Available);
    assert!(!sds.critical_for_edge);
    let gateway = &rows[1];
    assert_eq!(gateway.level, EdgeServiceLevel::Unavailable);
    assert!(gateway.critical_for_edge);
    assert_eq!(gateway.checked_at, "t9");
    assert_eq!(gateway.last_success_at, None);
    assert_eq!(gateway.message.as_deref(), Some("Node Gateway unreachable"));
    let core = &rows[3];
    assert_eq!(core.level, EdgeServiceLevel::Unknown);
    assert!(core.critical_for_edge);
    assert_eq!(core.fallback_mode, "cached");
    assert_eq!(core.message.as_deref(), Some("not reported by Node Gateway"));
    assert_eq!(rows[0].fallback_mode, "x");
    let snap = edge_fallback_snapshot(&edge(), &state(true, true, Vec::new()));
    assert!(snap.enabled && snap.gateway_connected);
    assert_eq!(snap.last_transition_at, "t5");
    assert_eq!(snap.mode, EdgeFallbackMode::Degraded);
    assert_eq!(snap.reason, "gateway lost");
    assert_eq!(snap.service_revision, 7);
    assert!(snap.policy_loaded_from_cache);
    assert_eq!(snap.policy_cache_saved_at, Some(s("t2")));
    assert_eq!(snap.policy_cache_age_secs, Some(30));
    assert_eq!((snap.event_spool_entries, snap.event_spool_bytes), (4, 512));
    assert_eq!(snap.services[0].service, "node-gateway");
    assert_eq!(snap.services[0].level, EdgeServiceLevel::Available);
    assert_eq!(snap.services[0].last_success_at, Some(s("t9")));
}
