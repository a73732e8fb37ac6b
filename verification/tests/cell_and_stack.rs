use netcore::sec_asterisk::CfgAsterisk;
use netcore::sec_audio_player::CfgAudioPlayer;
use netcore::sec_brew::{apply_brew_patch, CfgBrew, CfgBrewDto};
use netcore::sec_cell::{
    cell_dto_to_cfg, CellInfoDto, CfgCellInfo, CfgNeighborCellCa, HomeModeDisplayDto,
    HomeModeDisplaySdsTextCodingScheme, PacketDataGatewayDto, SdsCommandControlDto, SdsCommandEntryDto,
    WapIpDto,
};
use netcore::sec_echolink::CfgEcholink;
use netcore::sec_edge_fallback::CfgEdgeFallback;
use netcore::sec_net::{net_dto_to_cfg, NetInfoDto};
use netcore::stack_config::{check_brew_pair, check_cell_config, CfgPhyIo, CfgRecovery, PhyBackend, StackConfig, StackMode};

fn default_cell() -> CfgCellInfo {
    cell_dto_to_cfg(CellInfoDto::default())
}

fn packet_cell() -> CfgCellInfo {
    cell_dto_to_cfg(CellInfoDto {
        sndcp_service: Some(true),
        advanced_link: Some(true),
        packet_data_gateway: Some(PacketDataGatewayDto { enabled: Some(true), ..PacketDataGatewayDto::default() }),
        ..CellInfoDto::default()
    })
}

fn stack(cell: CfgCellInfo, brew: Option<CfgBrew>, brew2: Option<CfgBrew>) -> StackConfig {
    StackConfig {
        stack_mode: StackMode::Bs,
        debug_log: None,
        service_name: None,
        net: net_dto_to_cfg(NetInfoDto { mcc: 204, mnc: 1337, extra_keys: Vec::new() }),
        phy_io: CfgPhyIo { backend: PhyBackend::NoRadio, soapysdr_configured: false },
        cell,
        recovery: CfgRecovery { enabled: false, issi_allowlist: Vec::new(), max_cached_issis: 0 },
        brew,
        brew2,
        asterisk: CfgAsterisk::default(),
        echolink: CfgEcholink::default(),
        audio_player: CfgAudioPlayer::default(),
        control_room: None,
        edge_fallback: CfgEdgeFallback::default(),
    }
}

fn brew_with(allow: Vec<u32>) -> CfgBrew {
    apply_brew_patch(CfgBrewDto { local_issi_allowlist: Some(allow), ..CfgBrewDto::default() })
}

fn neighbor(id: u8, carrier: u16) -> CfgNeighborCellCa {
    CfgNeighborCellCa {
        cell_identifier_ca: id,
        cell_reselection_types_supported: 0,
        neighbor_cell_synchronized: false,
        cell_load_ca: 0,
        main_carrier_number: carrier,
        main_carrier_number_extension: None,
        mcc: None,
        mnc: None,
        location_area: None,
        maximum_ms_transmit_power: None,
        minimum_rx_access_level: None,
        subscriber_class: None,
        bs_service_details: None,
        timeshare_cell_information_or_security_parameters: None,
        tdma_frame_offset: None,
    }
}

#[test]
fn cell_defaults_follow_the_air_interface_defaults() {
    let c = default_cell();
    assert_eq!(c.secondary_carrier, None);
    assert_eq!(c.subscriber_class, 65535);
    assert!(c.registration && c.deregistration && c.voice_service);
    assert!(!c.sndcp_service && !c.advanced_link);
    assert_eq!(c.system_code, 3);
    assert_eq!(c.ms_txpwr_max_cell, 4);
    assert_eq!(c.local_ssi_ranges, vec![(0, 90)]);
    assert_eq!(c.hangtime_secs, 5);
    assert_eq!(c.call_timeout_secs, 120);
    assert_eq!(c.ul_inactivity_secs, 3);
    assert_eq!(c.periodic_registration_secs, 3600);
    assert!(!c.wap_ip.enabled);
    assert_eq!(c.wap_ip.address, [10, 0, 0, 1]);
    assert_eq!(c.wap_ip.port, 9200);
    assert_eq!(c.packet_data_gateway.interface_name, "ntetra0");
    assert_eq!(c.packet_data_gateway.channel_capacity, 256);
    assert!(!c.wap_ip_sndcp_profile_enabled());
}

#[test]
fn cell_timers_are_brought_into_range() {
    let c = cell_dto_to_cfg(CellInfoDto {
        hangtime_secs: Some(1000),
        call_timeout_secs: Some(10),
        ul_inactivity_secs: Some(0),
        periodic_registration_secs: Some(100_000),
        ..CellInfoDto::default()
    });
    assert_eq!(c.hangtime_secs, 300);
    assert_eq!(c.call_timeout_secs, 30);
    assert_eq!(c.ul_inactivity_secs, 1);
    assert_eq!(c.periodic_registration_secs, 86400);
    let c = cell_dto_to_cfg(CellInfoDto {
        call_timeout_secs: Some(0),
        periodic_registration_secs: Some(0),
        ..CellInfoDto::default()
    });
    assert_eq!(c.call_timeout_secs, 0);
    assert_eq!(c.periodic_registration_secs, 0);
}

#[test]
fn dual_carrier_switch_hides_secondary_carrier() {
    let c = cell_dto_to_cfg(CellInfoDto {
        main_carrier: 1000,
        secondary_carrier: Some(1004),
        dual_carrier_enabled: Some(false),
        ..CellInfoDto::default()
    });
    assert_eq!(c.secondary_carrier, None);
    let c = cell_dto_to_cfg(CellInfoDto { main_carrier: 1000, secondary_carrier: Some(1004), ..CellInfoDto::default() });
    assert_eq!(c.secondary_carrier, Some(1004));
}

#[test]
fn broadcast_blocks_take_their_defaults() {
    let c = cell_dto_to_cfg(CellInfoDto {
        home_mode_display: Some(HomeModeDisplayDto { text: Some("Hallo".to_string()), ..HomeModeDisplayDto::default() }),
        sds_command_control: Some(SdsCommandControlDto {
            authorized_issis: vec![1001],
            commands: vec![SdsCommandEntryDto { status_code: 32768, action: "restart".to_string() }],
            extra_keys: Vec::new(),
        }),
        ..CellInfoDto::default()
    });
    let h = c.home_mode_display.unwrap();
    assert_eq!(h.interval_multiframes, 96);
    assert_eq!(h.protocol_id, 220);
    assert_eq!(h.text_coding_scheme, HomeModeDisplaySdsTextCodingScheme::LATIN);
    assert_eq!(h.text, "Hallo");
    assert!(c.sds_broadcast.is_none());
    let control = c.sds_command_control.unwrap();
    assert_eq!(control.authorized_issis, vec![1001]);
    assert_eq!(control.commands[0].status_code, 32768);
    assert_eq!(control.commands[0].action, "restart");
}

#[test]
fn pool_prefix_needs_three_octets() {
    let mut w = default_cell().wap_ip;
    assert_eq!(w.pool_prefix_octets(), Some([10, 0, 0]));
    w.dynamic_pool_prefix = "10.0".to_string();
    assert_eq!(w.pool_prefix_octets(), None);
    w.dynamic_pool_prefix = "1.2.300".to_string();
    assert_eq!(w.pool_prefix_octets(), None);
    w.dynamic_pool_prefix = "+1.02.3".to_string();
    assert_eq!(w.pool_prefix_octets(), Some([1, 2, 3]));
}

#[test]
fn default_stack_configuration_is_valid() {
    assert_eq!(stack(default_cell(), None, None).validate(), Ok(()));
}

#[test]
fn secondary_carrier_must_differ() {
    let c = cell_dto_to_cfg(CellInfoDto { main_carrier: 7, secondary_carrier: Some(7), ..CellInfoDto::default() });
    assert_eq!(
        stack(c, None, None).validate(),
        Err("cell.secondary_carrier must differ from cell.main_carrier")
    );
}

#[test]
fn sndcp_needs_a_packet_service() {
    let c = cell_dto_to_cfg(CellInfoDto { sndcp_service: Some(true), ..CellInfoDto::default() });
    assert_eq!(check_cell_config(&c, true), Err("cell.sndcp_service=true requires WAP/IP or packet_data_gateway"));
    let c = cell_dto_to_cfg(CellInfoDto {
        wap_ip: Some(WapIpDto { enabled: Some(true), ..WapIpDto::default() }),
        ..CellInfoDto::default()
    });
    assert_eq!(check_cell_config(&c, true), Err("packet-data services require cell.sndcp_service=true"));
}

#[test]
fn enabled_gateway_with_defaults_is_valid() {
    assert_eq!(check_cell_config(&packet_cell(), true), Ok(()));
}

#[test]
fn gateway_must_leave_a_data_slot() {
    let mut c = packet_cell();
    c.packet_data_gateway.reserved_voice_slots = 3;
    assert_eq!(
        check_cell_config(&c, true),
        Err("cell_info.packet_data_gateway.reserved_voice_slots must leave at least one PDCH slot")
    );
    c.secondary_carrier = Some(9);
    assert_eq!(check_cell_config(&c, true), Ok(()));
}

#[test]
fn address_pool_must_fit_the_subnet() {
    let mut c = packet_cell();
    c.packet_data_gateway.prefix_len = 30;
    assert_eq!(
        check_cell_config(&c, true),
        Err("dynamic PDP address pool must fit completely inside packet-data subnet")
    );
    let mut c = packet_cell();
    c.wap_ip.address = [10, 0, 0, 0];
    assert_eq!(
        check_cell_config(&c, true),
        Err("WAP/gateway address must not be the packet-data subnet network or broadcast address")
    );
}

#[test]
fn wap_address_must_stay_outside_the_pool() {
    let mut c = default_cell();
    c.wap_ip.address = [10, 0, 0, 7];
    assert_eq!(
        check_cell_config(&c, true),
        Err("cell_info.wap_ip.address must not be inside the dynamic client pool")
    );
}

#[test]
fn dns_servers_must_be_unicast() {
    let mut c = packet_cell();
    c.packet_data_gateway.dns_servers = vec![[9, 9, 9, 9], [224, 0, 0, 1]];
    assert_eq!(check_cell_config(&c, true), Err("packet-data DNS addresses must be unicast IPv4 addresses"));
    c.packet_data_gateway.dns_servers = vec![[9, 9, 9, 9], [1, 1, 1, 1], [8, 8, 8, 8]];
    assert_eq!(
        check_cell_config(&c, true),
        Err("cell_info.packet_data_gateway.dns_servers supports at most two IPv4 addresses")
    );
}

#[test]
fn interface_names_are_checked() {
    let mut c = packet_cell();
    c.packet_data_gateway.interface_name = "tun 0".to_string();
    assert_eq!(
        check_cell_config(&c, true),
        Err("cell_info.packet_data_gateway.interface_name must be 1-15 safe interface characters")
    );
    let mut c = packet_cell();
    c.packet_data_gateway.external_interface = Some("ntetra0".to_string());
    assert_eq!(check_cell_config(&c, true), Err("packet-data TUN and external interfaces must differ"));
}

#[test]
fn unknown_time_zone_is_refused() {
    let mut c = default_cell();
    c.timezone = Some("Europe/Amsterdam".to_string());
    assert_eq!(stack(c, None, None).validate(), Ok(()));
    let mut c = default_cell();
    c.timezone = Some("Mars/Olympus_Mons".to_string());
    assert_eq!(stack(c, None, None).validate(), Err("Invalid IANA timezone name in cell.timezone"));
    let mut c = default_cell();
    c.timezone = Some("Mars/Olympus_Mons".to_string());
    assert_eq!(stack(c, None, None).validate_given_timezone(true), Ok(()));
}

#[test]
fn neighbour_cells_must_be_distinct() {
    let mut c = default_cell();
    c.neighbor_cells_ca = vec![neighbor(1, 100), neighbor(1, 200)];
    assert_eq!(
        check_cell_config(&c, true),
        Err("cell.neighbor_cells_ca: duplicate cell_identifier_ca \u{2014} each neighbour must have a unique identifier")
    );
    c.neighbor_cells_ca = vec![neighbor(1, 100), neighbor(2, 100)];
    assert_eq!(
        check_cell_config(&c, true),
        Err("cell.neighbor_cells_ca: duplicate main_carrier_number \u{2014} each neighbour must be on a different carrier")
    );
    c.neighbor_cells_ca = vec![neighbor(1, 100), neighbor(40, 200)];
    assert_eq!(check_cell_config(&c, true), Err("cell.neighbor_cells_ca: cell_identifier_ca must be 0-31"));
    c.neighbor_cells_ca = (0..8).map(|i| neighbor(i, 100 + i as u16)).collect();
    assert_eq!(check_cell_config(&c, true), Err("cell.neighbor_cells_ca supports at most 7 entries"));
}

#[test]
fn two_brew_bridges_need_disjoint_allowlists() {
    assert_eq!(check_brew_pair(&Some(brew_with(vec![1, 2])), &Some(brew_with(vec![3]))), Ok(()));
    assert_eq!(
        check_brew_pair(&Some(brew_with(vec![1, 2])), &Some(brew_with(vec![2, 3]))),
        Err("brew and brew2 local_issi_allowlist must not overlap")
    );
    assert_eq!(
        check_brew_pair(&Some(brew_with(vec![])), &Some(brew_with(vec![3]))),
        Err("brew and brew2 require non-empty local_issi_allowlist when both are configured")
    );
    assert_eq!(check_brew_pair(&Some(brew_with(vec![])), &None), Ok(()));
    assert_eq!(
        stack(default_cell(), Some(brew_with(vec![5])), Some(brew_with(vec![5]))).validate(),
        Err("brew and brew2 local_issi_allowlist must not overlap")
    );
}

#[test]
fn accepted_cell_stays_in_range() {
    let c = packet_cell();
    assert!(check_cell_config(&c, true).is_ok());
    assert!(c.ms_txpwr_max_cell <= 7);
    assert!(c.packet_data_gateway.dns_servers.len() <= 2);
    assert!((1..=30).contains(&c.packet_data_gateway.prefix_len));
}

#[test]
fn phy_backend_must_be_defined() {
    let mut cfg = stack(default_cell(), None, None);
    cfg.phy_io.backend = PhyBackend::Undefined;
    assert_eq!(cfg.validate(), Err("phy_io backend must be defined"));
    cfg.phy_io.backend = PhyBackend::SoapySdr;
    assert_eq!(cfg.validate(), Err("soapysdr configuration must be provided for Soapysdr backend"));
    cfg.phy_io.soapysdr_configured = true;
    assert_eq!(cfg.validate(), Ok(()));
    assert_eq!(
        cfg.validate_given(true, Err("PhyIo DlFrequency does not match computed FreqInfo")),
        Err("PhyIo DlFrequency does not match computed FreqInfo")
    );
    cfg.phy_io.backend = PhyBackend::NoRadio;
    assert_eq!(cfg.validate_given(true, Err("PhyIo DlFrequency does not match computed FreqInfo")), Ok(()));
}

#[test]
fn undefined_backend_is_reported_before_the_carriers() {
    let mut c = default_cell();
    c.secondary_carrier = Some(c.main_carrier);
    let mut cfg = stack(c, None, None);
    assert_eq!(cfg.validate(), Err("cell.secondary_carrier must differ from cell.main_carrier"));
    cfg.phy_io.backend = PhyBackend::Undefined;
    assert_eq!(cfg.validate(), Err("phy_io backend must be defined"));
}

#[test]
fn recovery_allowlist_fits_the_cache() {
    let mut cfg = stack(default_cell(), None, None);
    cfg.recovery = CfgRecovery { enabled: true, issi_allowlist: vec![1, 2, 3], max_cached_issis: 2 };
    assert_eq!(cfg.validate(), Err("recovery.issi_allowlist has more entries than recovery.max_cached_issis"));
    cfg.recovery.max_cached_issis = 3;
    assert_eq!(cfg.validate(), Ok(()));
    cfg.recovery = CfgRecovery { enabled: false, issi_allowlist: vec![1, 2, 3], max_cached_issis: 0 };
    assert_eq!(cfg.validate(), Ok(()));
}
