use netcore::sec_asterisk::{apply_asterisk_patch, CfgAsterisk, CfgAsteriskDto};
use netcore::sec_audio_player::{apply_audio_player_patch, CfgAudioPlayer, CfgAudioPlayerDto, CfgAudioShareDto};
use netcore::sec_control_room::{apply_control_room_patch, CfgControlRoomDto};
use netcore::sec_edge_fallback::{apply_edge_fallback_patch, CfgEdgeFallback, CfgEdgeFallbackDto};
use netcore::sec_media_library::{apply_media_library_patch, CfgMediaLibrary, CfgMediaLibraryDto};
use netcore::text_map::TextMap;

fn enabled_cfg(service_numbers: Vec<&str>) -> CfgAsterisk {
    let dto = CfgAsteriskDto {
        enabled: true,
        service_numbers: service_numbers.into_iter().map(str::to_string).collect(),
        ..CfgAsteriskDto::default()
    };
    apply_asterisk_patch(dto).expect("test asterisk config should be valid")
}

#[test]
fn exact_service_numbers_still_allow_direct_and_prefixed_dials() {
    let cfg = enabled_cfg(vec!["385"]);
    assert_eq!(cfg.route_outbound_raw("91385"), Some("385".to_string()));
    assert_eq!(cfg.route_outbound_raw("385"), Some("385".to_string()));
    assert_eq!(cfg.route_outbound_raw("91600"), None);
}

#[test]
fn star_service_number_routes_everything_behind_prefix_only() {
    let cfg = enabled_cfg(vec!["*"]);
    assert_eq!(cfg.route_outbound_raw("91385"), Some("385".to_string()));
    assert_eq!(cfg.route_outbound_raw("91600"), Some("600".to_string()));
    assert_eq!(cfg.route_outbound_raw("385"), None);
}

#[test]
fn outbound_prefix_star_routes_everything_behind_prefix() {
    let dto = CfgAsteriskDto {
        enabled: true,
        outbound_prefix: "91*".to_string(),
        service_numbers: vec!["385".to_string()],
        ..CfgAsteriskDto::default()
    };
    let cfg = apply_asterisk_patch(dto).expect("test asterisk config should be valid");
    assert_eq!(cfg.route_outbound_raw("91385"), Some("385".to_string()));
    assert_eq!(cfg.route_outbound_raw("91600"), Some("600".to_string()));
    assert_eq!(cfg.route_outbound_raw("385"), Some("385".to_string()));
}

#[test]
fn service_number_prefix_wildcard_matches_stripped_number() {
    let cfg = enabled_cfg(vec!["38*"]);
    assert_eq!(cfg.route_outbound_raw("91385"), Some("385".to_string()));
    assert_eq!(cfg.route_outbound_raw("91600"), None);
}

#[test]
fn disabled_asterisk_routes_nothing() {
    let cfg = CfgAsterisk::default();
    assert!(!cfg.enabled);
    assert_eq!(cfg.route_outbound_raw("91385"), None);
}

#[test]
fn asterisk_keeps_working_with_unknown_keys() {
    let dto = CfgAsteriskDto { extra_keys: vec!["typo".to_string()], ..CfgAsteriskDto::default() };
    assert!(apply_asterisk_patch(dto).is_ok());
}

#[test]
fn defaults_are_safe_and_disabled() {
    let cfg = CfgAudioPlayer::default();
    assert!(!cfg.enabled);
    assert_eq!(cfg.source_issi, 4_010_099);
    assert!(cfg.max_duration_seconds > 0);
    assert_eq!(cfg.lead_in_silence_blocks, 12);
    assert_eq!(cfg.group_release_guard_seconds, 6);
    assert!(cfg.shares.is_empty());
}

#[test]
fn rejects_invalid_identity_and_priority() {
    let dto = CfgAudioPlayerDto { source_issi: 0, default_priority: 16, ..CfgAudioPlayerDto::default() };
    assert!(apply_audio_player_patch(dto).is_err());
}

#[test]
fn rejects_unsafe_rf_guard_values() {
    let dto = CfgAudioPlayerDto { lead_in_silence_blocks: 41, ..CfgAudioPlayerDto::default() };
    assert!(apply_audio_player_patch(dto).is_err());

    let dto = CfgAudioPlayerDto { group_release_guard_seconds: 4, ..CfgAudioPlayerDto::default() };
    assert!(apply_audio_player_patch(dto).is_err());
}

#[test]
fn accepts_read_only_mounted_share() {
    let dto = CfgAudioPlayerDto {
        shares: vec![CfgAudioShareDto {
            id: "server".to_string(),
            name: "NFS Server".to_string(),
            path: "/mnt/nfs-share".to_string(),
            extra_keys: Vec::new(),
        }],
        ..CfgAudioPlayerDto::default()
    };
    let cfg = apply_audio_player_patch(dto).unwrap();
    assert_eq!(cfg.shares[0].id, "server");
}

#[test]
fn rejects_duplicate_or_relative_share() {
    let dto = CfgAudioPlayerDto {
        shares: vec![CfgAudioShareDto {
            id: "local".to_string(),
            name: "Bad".to_string(),
            path: "relative".to_string(),
            extra_keys: Vec::new(),
        }],
        ..CfgAudioPlayerDto::default()
    };
    assert!(apply_audio_player_patch(dto).is_err());
}

#[test]
fn central_sds_routing_defaults_to_disabled() {
    let dto = CfgControlRoomDto { enabled: Some(false), ..CfgControlRoomDto::default() };
    let config = apply_control_room_patch(dto).unwrap();
    assert!(!config.central_sds_routing);
}

#[test]
fn central_sds_routing_can_be_enabled() {
    let dto = CfgControlRoomDto {
        enabled: Some(true),
        host: Some("127.0.0.1".to_string()),
        port: Some(9010),
        central_sds_routing: true,
        ..CfgControlRoomDto::default()
    };
    let config = apply_control_room_patch(dto).unwrap();
    assert!(config.central_sds_routing);
}

#[test]
fn defaults_cover_every_runtime_service() {
    let cfg = CfgEdgeFallback::default();
    assert_eq!(cfg.service_fallbacks.len(), 17);
    assert!(cfg.required_services.iter().all(|name| cfg.service_fallbacks.contains_key(name)));
    assert!(!cfg.unknown_service_is_available);
    assert_eq!(cfg.service_matrix_lease_secs, 60);
}

#[test]
fn rejects_required_service_without_fallback_mode() {
    let dto = CfgEdgeFallbackDto {
        required_services: Some(vec!["missing-core".to_string()]),
        service_fallbacks: Some(vec![("subscriber-core".to_string(), "cached".to_string())]),
        ..CfgEdgeFallbackDto::default()
    };
    assert!(apply_edge_fallback_patch(dto).is_err());
}

#[test]
fn accepted_policy_has_a_mode_for_every_required_service() {
    let dto = CfgEdgeFallbackDto {
        required_services: Some(vec![" Subscriber-Core ".to_string()]),
        service_fallbacks: Some(vec![("subscriber-core".to_string(), "cached".to_string())]),
        ..CfgEdgeFallbackDto::default()
    };
    let cfg = apply_edge_fallback_patch(dto).unwrap();
    assert_eq!(cfg.required_services, vec!["subscriber-core".to_string()]);
    assert_eq!(cfg.service_fallbacks.get("subscriber-core"), Some("cached".to_string()));
}

#[test]
fn defaults_are_disabled() {
    let config = CfgMediaLibrary::default();
    assert!(!config.enabled);
    assert!(!config.publish_recordings);
    assert!(!config.audio_source_enabled);
}

#[test]
fn validates_enabled_bidirectional_config() {
    let dto = CfgMediaLibraryDto {
        enabled: true,
        base_url: "http://10.0.1.154:8230/".to_string(),
        station_id: "SRV-M-TBS-01".to_string(),
        publish_recordings: true,
        recording_source_base_url: "http://10.0.1.163:8081/".to_string(),
        audio_source_enabled: true,
        ..CfgMediaLibraryDto::default()
    };
    let config = apply_media_library_patch(dto).unwrap();
    assert_eq!(config.base_url, "http://10.0.1.154:8230");
    assert_eq!(config.recording_source_base_url, "http://10.0.1.163:8081");
}

#[test]
fn text_map_reads_back_what_was_written() {
    let mut m = TextMap::new();
    m.insert("a".to_string(), "1".to_string());
    m.insert("b".to_string(), "2".to_string());
    m.insert("a".to_string(), "3".to_string());
    assert_eq!(m.get("a"), Some("3".to_string()));
    assert_eq!(m.get("b"), Some("2".to_string()));
    assert_eq!(m.get("c"), None);
    assert_eq!(m.len(), 2);
}
