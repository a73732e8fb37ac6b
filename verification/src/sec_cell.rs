//! The `[cell_info]` section: radio cell parameters, the packet-data services
//! above SNDCP, neighbour cells and periodic SDS broadcasts.
use vstd::prelude::*;
use crate::sec_asterisk::clamp_u32;
use crate::text::{lit, parse_uint, parse_uint_seq, split_char, split_seq, lemma_split_nonempty};

verus! {

/// Text coding scheme for the Home Mode Display SDS payload.
#[allow(non_camel_case_types)]
#[derive(Debug, Clone, Copy, PartialEq, Eq, Structural)]
pub enum HomeModeDisplaySdsTextCodingScheme {
    /// ISO-8859-1 8-bit Latin alphabet
    LATIN,
    /// UCS-2 / UTF-16BE for Unicode text
    UTF16,
}

/// Compiled Home Mode Display configuration (present when
/// `[cell_info.home_mode_display]` exists).
#[derive(Debug, Clone)]
pub struct CfgHomeModeDisplay {
    /// ISSI used as the source address of the broadcast SDS.
    pub source_issi: u32,
    /// Broadcast interval in TDMA multiframes (1 multiframe = 18 frames = 72 timeslots).
    pub interval_multiframes: u32,
    /// SDS Type4 protocol identifier byte. Default: 220 (0xDC).
    pub protocol_id: u8,
    /// Text coding scheme prepended to user data.
    pub text_coding_scheme: HomeModeDisplaySdsTextCodingScheme,
    /// Text to broadcast (UTF-8 source, encoded per text_coding_scheme on TX).
    pub text: String,
}

/// The `[cell_info.home_mode_display]` block as read from the configuration file.
#[derive(Debug, Default)]
pub struct HomeModeDisplayDto {
    pub source_issi: Option<u32>,
    pub interval_multiframes: Option<u32>,
    pub protocol_id: Option<u8>,
    pub text_coding_scheme: Option<HomeModeDisplaySdsTextCodingScheme>,
    pub text: Option<String>,
}

/// Compiled configuration for the opt-in WAP-over-SNDCP IPv4 service.
#[derive(Debug, Clone)]
pub struct CfgWapIp {
    pub enabled: bool,
    /// Endpoint IPv4 address, most significant octet first.
    pub address: [u8; 4],
    pub port: u16,
    pub response_ttl: u8,
    /// Three-octet prefix written as `a.b.c`.
    pub dynamic_pool_prefix: String,
    pub dynamic_pool_first_host: u8,
    pub dynamic_pool_last_host: u8,
    pub allow_static_ipv4: bool,
    pub accept_empty_probe: bool,
    pub accept_root_path: bool,
    pub accept_status_path: bool,
    pub accept_status_wml_path: bool,
    pub max_request_payload_bytes: usize,
    pub assume_pdch_ready_after_data_transmit: bool,
    /// SNDCP timer/priority profile advertised in ACTIVATE ACCEPT.
    pub pdu_priority_max: u8,
    pub ready_timer_code: u8,
    pub standby_timer_code: u8,
    pub response_wait_timer_code: u8,
    pub mtu_code: u8,
    pub network_default_data_priority: u8,
    /// Resource bounds for all primary and secondary PDP contexts.
    pub max_contexts_per_issi: usize,
    pub max_total_contexts: usize,
    /// Reject source-address spoofing inside the local packet-data profile.
    pub strict_source_address: bool,
}

/// `w` holds the built-in WAP/IP settings.
pub open spec fn is_default_wap_ip(w: CfgWapIp) -> bool {
    &&& !w.enabled
    &&& w.address@ == seq![10u8, 0u8, 0u8, 1u8]
    &&& w.port == 9200
    &&& w.response_ttl == 32
    &&& w.dynamic_pool_prefix@ == "10.0.0"@
    &&& w.dynamic_pool_first_host == 2
    &&& w.dynamic_pool_last_host == 254
    &&& w.allow_static_ipv4
    &&& w.accept_empty_probe
    &&& w.accept_root_path
    &&& w.accept_status_path
    &&& w.accept_status_wml_path
    &&& w.max_request_payload_bytes == 1024
    &&& !w.assume_pdch_ready_after_data_transmit
    &&& w.pdu_priority_max == 4
    &&& w.ready_timer_code == 8
    &&& w.standby_timer_code == 4
    &&& w.response_wait_timer_code == 7
    &&& w.mtu_code == 2
    &&& w.network_default_data_priority == 4
    &&& w.max_contexts_per_issi == 4
    &&& w.max_total_contexts == 64
    &&& w.strict_source_address
}

impl Default for CfgWapIp {
    fn default() -> (r: CfgWapIp)
        ensures
            is_default_wap_ip(r),
    {
        CfgWapIp {
            enabled: false,
            address: [10, 0, 0, 1],
            port: 9200,
            response_ttl: 32,
            dynamic_pool_prefix: lit("10.0.0"),
            dynamic_pool_first_host: 2,
            dynamic_pool_last_host: 254,
            allow_static_ipv4: true,
            accept_empty_probe: true,
            accept_root_path: true,
            accept_status_path: true,
            accept_status_wml_path: true,
            max_request_payload_bytes: 1024,
            assume_pdch_ready_after_data_transmit: false,
            pdu_priority_max: 4,
            ready_timer_code: 8,
            standby_timer_code: 4,
            response_wait_timer_code: 7,
            mtu_code: 2,
            network_default_data_priority: 4,
            max_contexts_per_issi: 4,
            max_total_contexts: 64,
            strict_source_address: true,
        }
    }
}

/// The three octets that a pool prefix `a.b.c` names: exactly three
/// dot-separated pieces, each a decimal `u8` as `str::parse` reads it.
pub open spec fn pool_prefix_spec(p: Seq<char>) -> Option<Seq<u8>> {
    let parts = split_seq(p, '.');
    if parts.len() == 3 && parse_uint_seq(parts[0], 255) is Some && parse_uint_seq(parts[1], 255) is Some
        && parse_uint_seq(parts[2], 255) is Some {
        Some(
            seq![
                parse_uint_seq(parts[0], 255)->0 as u8,
                parse_uint_seq(parts[1], 255)->0 as u8,
                parse_uint_seq(parts[2], 255)->0 as u8,
            ],
        )
    } else {
        None
    }
}

impl CfgWapIp {
    /// Parse the configured three-octet pool prefix.
    pub fn pool_prefix_octets(&self) -> (r: Option<[u8; 3]>)
        ensures
            match pool_prefix_spec(self.dynamic_pool_prefix@) {
                Some(o) => r matches Some(a) && a@ == o,
                None => r is None,
            },
    {
        let parts = split_char(self.dynamic_pool_prefix.as_str(), '.');
        proof {
            lemma_split_nonempty(self.dynamic_pool_prefix@, '.');
        }
        if parts.len() != 3 {
            return None;
        }
        assert(parts[0]@ == parts.deep_view()[0]);
        assert(parts[1]@ == parts.deep_view()[1]);
        assert(parts[2]@ == parts.deep_view()[2]);
        let a = match parse_uint(parts[0].as_str(), 255) {
            Some(v) => v,
            None => return None,
        };
        let b = match parse_uint(parts[1].as_str(), 255) {
            Some(v) => v,
            None => return None,
        };
        let c = match parse_uint(parts[2].as_str(), 255) {
            Some(v) => v,
            None => return None,
        };
        let out: [u8; 3] = [a as u8, b as u8, c as u8];
        assert(out@ =~= pool_prefix_spec(self.dynamic_pool_prefix@)->0);
        Some(out)
    }
}

/// The `[cell_info.wap_ip]` block as read from the configuration file.
/// Unknown keys are refused when the file is read, so a typo cannot leave packet
/// data advertised while the gateway silently uses a default.
#[derive(Debug, Default)]
pub struct WapIpDto {
    pub enabled: Option<bool>,
    pub address: Option<[u8; 4]>,
    pub port: Option<u16>,
    pub response_ttl: Option<u8>,
    pub dynamic_pool_prefix: Option<String>,
    pub dynamic_pool_first_host: Option<u8>,
    pub dynamic_pool_last_host: Option<u8>,
    pub allow_static_ipv4: Option<bool>,
    pub accept_empty_probe: Option<bool>,
    pub accept_root_path: Option<bool>,
    pub accept_status_path: Option<bool>,
    pub accept_status_wml_path: Option<bool>,
    pub max_request_payload_bytes: Option<usize>,
    pub assume_pdch_ready_after_data_transmit: Option<bool>,
    pub pdu_priority_max: Option<u8>,
    pub ready_timer_code: Option<u8>,
    pub standby_timer_code: Option<u8>,
    pub response_wait_timer_code: Option<u8>,
    pub mtu_code: Option<u8>,
    pub network_default_data_priority: Option<u8>,
    pub max_contexts_per_issi: Option<usize>,
    pub max_total_contexts: Option<usize>,
    pub strict_source_address: Option<bool>,
}

/// Host firewall backend used for the managed packet-data forwarding rules.
#[derive(Debug, Clone, Copy, PartialEq, Eq, Structural)]
pub enum PacketGatewayFirewallBackend {
    Auto,
    Nftables,
    Iptables,
    /// No firewall backend (written `none` in the configuration file).
    NoFirewall,
}

/// IPv4 source-NAT mode for traffic leaving the TETRA subscriber subnet.
#[derive(Debug, Clone, Copy, PartialEq, Eq, Structural)]
pub enum PacketGatewayNatMode {
    Disabled,
    Masquerade,
}

/// Linux TUN/IP gateway above SNDCP. The radio bearer carries raw IPv4 N-PDUs;
/// the kernel provides normal routing, TCP/UDP/ICMP, conntrack and optional NAT.
#[derive(Debug, Clone)]
pub struct CfgPacketDataGateway {
    pub enabled: bool,
    pub interface_name: String,
    pub prefix_len: u8,
    pub mtu: Option<u16>,
    pub auto_configure: bool,
    pub enable_ipv4_forwarding: bool,
    pub managed_forwarding: bool,
    /// Permit new connections routed from the external interface into the subscriber subnet.
    /// False keeps inbound forwarding stateful (ESTABLISHED/RELATED only).
    pub allow_unsolicited_inbound: bool,
    pub nat_mode: PacketGatewayNatMode,
    pub firewall_backend: PacketGatewayFirewallBackend,
    pub external_interface: Option<String>,
    /// RFC 1877 IPCP DNS addresses returned in PDP activation PCO. At most two.
    pub dns_servers: Vec<[u8; 4]>,
    pub channel_capacity: usize,
    /// Maximum simultaneously active one-slot PDCH bearers. Zero means all
    /// traffic slots available for the configured carrier count.
    pub max_pdch_bearers: usize,
    /// Keep this many traffic slots outside the packet-data pool so voice and
    /// emergency call setup retain deterministic headroom. Zero disables the guard.
    pub reserved_voice_slots: usize,
    /// Prefer Carrier 2 for new packet-data bearers.
    pub prefer_secondary_carrier: bool,
    pub downlink_queue_packets_per_context: usize,
    pub downlink_queue_bytes_per_context: usize,
    pub downlink_queue_ttl_secs: u64,
    pub page_retry_secs: u64,
    pub fragment_reassembly_timeout_secs: u64,
    pub fragment_reassembly_max_datagrams: usize,
    pub fragment_reassembly_max_bytes: usize,
    pub automatic_filter_ttl_secs: u64,
    pub automatic_filter_max_bindings: usize,
}

/// `g` holds the built-in packet-data gateway settings.
pub open spec fn is_default_gateway(g: CfgPacketDataGateway) -> bool {
    &&& !g.enabled
    &&& g.interface_name@ == "ntetra0"@
    &&& g.prefix_len == 24
    &&& g.mtu is None
    &&& g.auto_configure
    &&& !g.enable_ipv4_forwarding
    &&& !g.managed_forwarding
    &&& !g.allow_unsolicited_inbound
    &&& g.nat_mode == PacketGatewayNatMode::Disabled
    &&& g.firewall_backend == PacketGatewayFirewallBackend::Auto
    &&& g.external_interface is None
    &&& g.dns_servers@.len() == 0
    &&& g.channel_capacity == 256
    &&& g.max_pdch_bearers == 0
    &&& g.reserved_voice_slots == 1
    &&& g.prefer_secondary_carrier
    &&& g.downlink_queue_packets_per_context == 64
    &&& g.downlink_queue_bytes_per_context == 262_144
    &&& g.downlink_queue_ttl_secs == 30
    &&& g.page_retry_secs == 5
    &&& g.fragment_reassembly_timeout_secs == 30
    &&& g.fragment_reassembly_max_datagrams == 128
    &&& g.fragment_reassembly_max_bytes == 4_194_304
    &&& g.automatic_filter_ttl_secs == 300
    &&& g.automatic_filter_max_bindings == 4096
}

impl Default for CfgPacketDataGateway {
    fn default() -> (r: CfgPacketDataGateway)
        ensures
            is_default_gateway(r),
    {
        CfgPacketDataGateway {
            enabled: false,
            interface_name: lit("ntetra0"),
            prefix_len: 24,
            mtu: None,
            auto_configure: true,
            enable_ipv4_forwarding: false,
            managed_forwarding: false,
            allow_unsolicited_inbound: false,
            nat_mode: PacketGatewayNatMode::Disabled,
            firewall_backend: PacketGatewayFirewallBackend::Auto,
            external_interface: None,
            dns_servers: Vec::new(),
            channel_capacity: 256,
            max_pdch_bearers: 0,
            reserved_voice_slots: 1,
            prefer_secondary_carrier: true,
            downlink_queue_packets_per_context: 64,
            downlink_queue_bytes_per_context: 262_144,
            downlink_queue_ttl_secs: 30,
            page_retry_secs: 5,
            fragment_reassembly_timeout_secs: 30,
            fragment_reassembly_max_datagrams: 128,
            fragment_reassembly_max_bytes: 4_194_304,
            automatic_filter_ttl_secs: 300,
            automatic_filter_max_bindings: 4096,
        }
    }
}

/// The `[cell_info.packet_data_gateway]` block as read from the configuration file.
/// Unknown keys are refused when the file is read.
#[derive(Debug, Default)]
pub struct PacketDataGatewayDto {
    pub enabled: Option<bool>,
    pub interface_name: Option<String>,
    pub prefix_len: Option<u8>,
    pub mtu: Option<u16>,
    pub auto_configure: Option<bool>,
    pub enable_ipv4_forwarding: Option<bool>,
    pub managed_forwarding: Option<bool>,
    pub allow_unsolicited_inbound: Option<bool>,
    pub nat_mode: Option<PacketGatewayNatMode>,
    pub firewall_backend: Option<PacketGatewayFirewallBackend>,
    pub external_interface: Option<String>,
    pub dns_servers: Option<Vec<[u8; 4]>>,
    pub channel_capacity: Option<usize>,
    pub max_pdch_bearers: Option<usize>,
    pub reserved_voice_slots: Option<usize>,
    pub prefer_secondary_carrier: Option<bool>,
    pub downlink_queue_packets_per_context: Option<usize>,
    pub downlink_queue_bytes_per_context: Option<usize>,
    pub downlink_queue_ttl_secs: Option<u64>,
    pub page_retry_secs: Option<u64>,
    pub fragment_reassembly_timeout_secs: Option<u64>,
    pub fragment_reassembly_max_datagrams: Option<usize>,
    pub fragment_reassembly_max_bytes: Option<usize>,
    pub automatic_filter_ttl_secs: Option<u64>,
    pub automatic_filter_max_bindings: Option<usize>,
}

/// Service details for a neighbour cell, as given in the configuration file.
/// Each flag is off unless given.
#[derive(Debug, Clone, Copy, Default, PartialEq, Eq, Structural)]
pub struct CfgBsServiceDetails {
    pub registration: bool,
    pub deregistration: bool,
    pub priority_cell: bool,
    pub no_minimum_mode: bool,
    pub migration: bool,
    pub system_wide_services: bool,
    pub voice_service: bool,
    pub circuit_mode_data_service: bool,
    pub sndcp_service: bool,
    pub aie_service: bool,
    pub advanced_link: bool,
}

/// Configuration for a single CA neighbour cell, included in D-NWRK-BROADCAST
/// (ETSI EN 300 392-2 clause 18.5.17 / Table 18.64).
#[derive(Debug, Clone, Copy, PartialEq, Eq, Structural)]
pub struct CfgNeighborCellCa {
    /// 5 bits: cell identifier within the CA cluster (0-31)
    pub cell_identifier_ca: u8,
    /// 2 bits: cell reselection types supported (0-3)
    pub cell_reselection_types_supported: u8,
    /// 1 bit: true if this neighbour is time-synchronized with us
    pub neighbor_cell_synchronized: bool,
    /// 2 bits: current load indicator (0=low, 3=high)
    pub cell_load_ca: u8,
    /// 12 bits: main carrier number of the neighbour cell (0-4095)
    pub main_carrier_number: u16,
    /// Optional: carrier number extension (10 bits, 0-1023)
    pub main_carrier_number_extension: Option<u16>,
    /// Optional: MCC of the neighbour (10 bits, 0-1023)
    pub mcc: Option<u16>,
    /// Optional: MNC of the neighbour (14 bits, 0-16383)
    pub mnc: Option<u16>,
    /// Optional: location area of the neighbour (14 bits, 0-16383)
    pub location_area: Option<u16>,
    /// Optional: max MS TX power allowed in the neighbour cell (3 bits, 0-7)
    pub maximum_ms_transmit_power: Option<u8>,
    /// Optional: minimum RX level for access (4 bits, 0-15)
    pub minimum_rx_access_level: Option<u8>,
    /// Optional: subscriber class mask (16 bits)
    pub subscriber_class: Option<u16>,
    /// Optional: BS service details for the neighbour cell
    pub bs_service_details: Option<CfgBsServiceDetails>,
    /// Optional: timeshare/security parameters (5 bits, 0-31)
    pub timeshare_cell_information_or_security_parameters: Option<u8>,
    /// Optional: TDMA frame offset relative to this cell (6 bits, 0-63)
    pub tdma_frame_offset: Option<u8>,
}

/// A single SDS status code to action mapping for remote control via U-STATUS.
#[derive(Debug, Clone)]
pub struct CfgSdsCommandEntry {
    /// Pre-coded status value that triggers this action.
    pub status_code: u16,
    /// Action to execute: "restart", "shutdown", or "kick_all".
    pub action: String,
}

/// Remote control via SDS U-STATUS PDUs sent to ISSI 9999.
/// Only ISSIs listed in `authorized_issis` can trigger commands.
#[derive(Debug, Clone)]
pub struct CfgSdsCommandControl {
    pub authorized_issis: Vec<u32>,
    pub commands: Vec<CfgSdsCommandEntry>,
}

/// One `[[cell_info.sds_command_control.commands]]` entry as read from the file.
#[derive(Debug, Default)]
pub struct SdsCommandEntryDto {
    pub status_code: u16,
    pub action: String,
}

/// The `[cell_info.sds_command_control]` block as read from the configuration file.
#[derive(Debug, Default)]
pub struct SdsCommandControlDto {
    pub authorized_issis: Vec<u32>,
    pub commands: Vec<SdsCommandEntryDto>,
    /// Keys of the block that no field takes.
    pub extra_keys: Vec<String>,
}

/// The radio cell configuration.
#[derive(Debug, Clone)]
pub struct CfgCellInfo {
    /// 2 bits, from 18.4.2.1 D-MLE-SYNC
    pub neighbor_cell_broadcast: u8,
    /// From 18.4.2.1 D-MLE-SYNC
    pub late_entry_supported: bool,
    /// 12 bits, from MAC SYSINFO
    pub main_carrier: u16,
    /// Optional secondary carrier for dual-carrier BS operation. `None` means single-carrier.
    pub secondary_carrier: Option<u16>,
    /// 4 bits, from MAC SYSINFO
    pub freq_band: u8,
    /// Offset in Hz from the 25 kHz aligned carrier: 0, 6250, -6250 or 12500 Hz.
    pub freq_offset_hz: i16,
    /// Index in the duplex setting table, sent in SYSINFO.
    pub duplex_spacing_id: u8,
    /// Custom duplex spacing in Hz, for a modified, non-standard duplex spacing table.
    pub custom_duplex_spacing: Option<u32>,
    /// 1 bit, from MAC SYSINFO
    pub reverse_operation: bool,
    /// 14 bits, from 18.4.2.2 D-MLE-SYSINFO
    pub location_area: u16,
    /// 16 bits, from 18.4.2.2 D-MLE-SYSINFO
    pub subscriber_class: u16,
    pub registration: bool,
    pub deregistration: bool,
    pub priority_cell: bool,
    pub no_minimum_mode: bool,
    pub migration: bool,
    pub system_wide_services: bool,
    pub voice_service: bool,
    pub circuit_mode_data_service: bool,
    pub sndcp_service: bool,
    pub aie_service: bool,
    pub advanced_link: bool,
    /// Opt-in terminal-browser WAP/IP endpoint carried over SNDCP packet data.
    pub wap_ip: CfgWapIp,
    /// Optional general IPv4 TUN/router/NAT gateway above SNDCP.
    pub packet_data_gateway: CfgPacketDataGateway,
    pub system_code: u8,
    pub colour_code: u8,
    pub sharing_mode: u8,
    pub ts_reserved_frames: u8,
    pub u_plane_dtx: bool,
    pub frame_18_ext: bool,
    pub ms_txpwr_max_cell: u8,
    /// The local SSI ranges, each `(first, last)` inclusive, as configured.
    pub local_ssi_ranges: Vec<(u32, u32)>,
    /// IANA timezone name (e.g. "Europe/Amsterdam"). When set, enables D-NWRK-BROADCAST
    /// time broadcasting so MSs can synchronize their clocks.
    pub timezone: Option<String>,
    /// Periodic automatic broadcast of the Home Mode Display SDS (PID 220).
    pub home_mode_display: Option<CfgHomeModeDisplay>,
    /// Optional supplemental periodic SDS broadcast with a custom PID.
    pub sds_broadcast: Option<CfgHomeModeDisplay>,
    /// Neighbour cells to include in D-NWRK-BROADCAST for cell reselection (up to 7).
    pub neighbor_cells_ca: Vec<CfgNeighborCellCa>,
    /// Group call hangtime in seconds (0-300); 5 when the file gives none.
    pub hangtime_secs: u32,
    /// Maximum active call duration in seconds (T310); 0 or 30-86400.
    pub call_timeout_secs: u32,
    /// UL inactivity timeout in seconds (1-30).
    pub ul_inactivity_secs: u32,
    /// Periodic registration interval in seconds (T351); 0 = disabled, else 60-86400.
    pub periodic_registration_secs: u32,
    /// Remote control via SDS U-STATUS to ISSI 9999. None = disabled.
    pub sds_command_control: Option<CfgSdsCommandControl>,
    /// Tear a group call down on a same-speaker floor retake during hangtime
    /// instead of reusing the hanging circuit (legacy-radio workaround).
    pub release_group_on_same_speaker_retake: bool,
}

impl CfgCellInfo {
    /// One predicate controls both capability advertisement and runtime acceptance.
    pub fn wap_ip_sndcp_profile_enabled(&self) -> (r: bool)
        ensures
            r == (self.sndcp_service && (self.wap_ip.enabled || self.packet_data_gateway.enabled)),
    {
        self.sndcp_service && (self.wap_ip.enabled || self.packet_data_gateway.enabled)
    }
}

/// The `[cell_info]` section as read from the configuration file.
#[derive(Debug, Default)]
pub struct CellInfoDto {
    pub main_carrier: u16,
    pub secondary_carrier: Option<u16>,
    /// Operational dual-carrier switch. When false, the configured
    /// `secondary_carrier` is not used. Absent = true.
    pub dual_carrier_enabled: Option<bool>,
    pub freq_band: u8,
    pub freq_offset: i16,
    pub duplex_spacing: u8,
    pub reverse_operation: bool,
    pub custom_duplex_spacing: Option<u32>,
    pub location_area: u16,
    pub neighbor_cell_broadcast: Option<u8>,
    pub late_entry_supported: Option<bool>,
    pub subscriber_class: Option<u16>,
    pub registration: Option<bool>,
    pub deregistration: Option<bool>,
    pub priority_cell: Option<bool>,
    pub no_minimum_mode: Option<bool>,
    pub migration: Option<bool>,
    pub system_wide_services: Option<bool>,
    pub voice_service: Option<bool>,
    pub circuit_mode_data_service: Option<bool>,
    pub sndcp_service: Option<bool>,
    pub aie_service: Option<bool>,
    pub advanced_link: Option<bool>,
    pub wap_ip: Option<WapIpDto>,
    pub packet_data_gateway: Option<PacketDataGatewayDto>,
    pub system_code: Option<u8>,
    pub colour_code: Option<u8>,
    pub sharing_mode: Option<u8>,
    pub ts_reserved_frames: Option<u8>,
    pub u_plane_dtx: Option<bool>,
    pub frame_18_ext: Option<bool>,
    pub ms_txpwr_max_cell: Option<u8>,
    pub local_ssi_ranges: Option<Vec<(u32, u32)>>,
    pub timezone: Option<String>,
    /// Home Mode Display periodic SDS broadcast, enabled by presence of the sub-section.
    pub home_mode_display: Option<HomeModeDisplayDto>,
    /// Supplemental SDS broadcast with custom PID, enabled by presence of the sub-section.
    pub sds_broadcast: Option<HomeModeDisplayDto>,
    /// Neighbour cells for D-NWRK-BROADCAST, read from their own tables.
    pub neighbor_cells_ca: Vec<CfgNeighborCellCa>,
    /// Group call hangtime in seconds. Default: 5.
    pub hangtime_secs: Option<u32>,
    pub call_timeout_secs: Option<u32>,
    pub ul_inactivity_secs: Option<u32>,
    pub periodic_registration_secs: Option<u32>,
    pub sds_command_control: Option<SdsCommandControlDto>,
    pub release_group_on_same_speaker_retake: Option<bool>,
    /// Keys of the section that no field takes.
    pub extra_keys: Vec<String>,
}

/// The WAP/IP settings that a `[cell_info.wap_ip]` block yields: each value
/// given, or the built-in one.
pub open spec fn wap_ip_from_dto(d: WapIpDto, w: CfgWapIp) -> bool {
    &&& w.enabled == d.enabled.unwrap_or(false)
    &&& w.address@ == (match d.address {
        Some(a) => a@,
        None => seq![10u8, 0u8, 0u8, 1u8],
    })
    &&& w.port == d.port.unwrap_or(9200)
    &&& w.response_ttl == d.response_ttl.unwrap_or(32)
    &&& w.dynamic_pool_prefix@ == (match d.dynamic_pool_prefix {
        Some(p) => p@,
        None => "10.0.0"@,
    })
    &&& w.dynamic_pool_first_host == d.dynamic_pool_first_host.unwrap_or(2)
    &&& w.dynamic_pool_last_host == d.dynamic_pool_last_host.unwrap_or(254)
    &&& w.allow_static_ipv4 == d.allow_static_ipv4.unwrap_or(true)
    &&& w.accept_empty_probe == d.accept_empty_probe.unwrap_or(true)
    &&& w.accept_root_path == d.accept_root_path.unwrap_or(true)
    &&& w.accept_status_path == d.accept_status_path.unwrap_or(true)
    &&& w.accept_status_wml_path == d.accept_status_wml_path.unwrap_or(true)
    &&& w.max_request_payload_bytes == d.max_request_payload_bytes.unwrap_or(1024)
    &&& w.assume_pdch_ready_after_data_transmit == d.assume_pdch_ready_after_data_transmit.unwrap_or(false)
    &&& w.pdu_priority_max == d.pdu_priority_max.unwrap_or(4)
    &&& w.ready_timer_code == d.ready_timer_code.unwrap_or(8)
    &&& w.standby_timer_code == d.standby_timer_code.unwrap_or(4)
    &&& w.response_wait_timer_code == d.response_wait_timer_code.unwrap_or(7)
    &&& w.mtu_code == d.mtu_code.unwrap_or(2)
    &&& w.network_default_data_priority == d.network_default_data_priority.unwrap_or(4)
    &&& w.max_contexts_per_issi == d.max_contexts_per_issi.unwrap_or(4)
    &&& w.max_total_contexts == d.max_total_contexts.unwrap_or(64)
    &&& w.strict_source_address == d.strict_source_address.unwrap_or(true)
}

/// Builds the WAP/IP settings from a `[cell_info.wap_ip]` block.
pub fn wap_ip_dto_to_cfg(d: WapIpDto) -> (w: CfgWapIp)
    ensures
        wap_ip_from_dto(d, w),
{
    let defaults = CfgWapIp::default();
    let address = match d.address {
        Some(a) => a,
        None => defaults.address,
    };
    let dynamic_pool_prefix = match d.dynamic_pool_prefix {
        Some(p) => p,
        None => defaults.dynamic_pool_prefix,
    };
    CfgWapIp {
        enabled: d.enabled.unwrap_or(defaults.enabled),
        address,
        port: d.port.unwrap_or(defaults.port),
        response_ttl: d.response_ttl.unwrap_or(defaults.response_ttl),
        dynamic_pool_prefix,
        dynamic_pool_first_host: d.dynamic_pool_first_host.unwrap_or(defaults.dynamic_pool_first_host),
        dynamic_pool_last_host: d.dynamic_pool_last_host.unwrap_or(defaults.dynamic_pool_last_host),
        allow_static_ipv4: d.allow_static_ipv4.unwrap_or(defaults.allow_static_ipv4),
        accept_empty_probe: d.accept_empty_probe.unwrap_or(defaults.accept_empty_probe),
        accept_root_path: d.accept_root_path.unwrap_or(defaults.accept_root_path),
        accept_status_path: d.accept_status_path.unwrap_or(defaults.accept_status_path),
        accept_status_wml_path: d.accept_status_wml_path.unwrap_or(defaults.accept_status_wml_path),
        max_request_payload_bytes: d.max_request_payload_bytes.unwrap_or(defaults.max_request_payload_bytes),
        assume_pdch_ready_after_data_transmit: d.assume_pdch_ready_after_data_transmit.unwrap_or(
            defaults.assume_pdch_ready_after_data_transmit,
        ),
        pdu_priority_max: d.pdu_priority_max.unwrap_or(defaults.pdu_priority_max),
        ready_timer_code: d.ready_timer_code.unwrap_or(defaults.ready_timer_code),
        standby_timer_code: d.standby_timer_code.unwrap_or(defaults.standby_timer_code),
        response_wait_timer_code: d.response_wait_timer_code.unwrap_or(defaults.response_wait_timer_code),
        mtu_code: d.mtu_code.unwrap_or(defaults.mtu_code),
        network_default_data_priority: d.network_default_data_priority.unwrap_or(
            defaults.network_default_data_priority,
        ),
        max_contexts_per_issi: d.max_contexts_per_issi.unwrap_or(defaults.max_contexts_per_issi),
        max_total_contexts: d.max_total_contexts.unwrap_or(defaults.max_total_contexts),
        strict_source_address: d.strict_source_address.unwrap_or(defaults.strict_source_address),
    }
}

/// The gateway settings that a `[cell_info.packet_data_gateway]` block yields:
/// each value given, or the built-in one.
pub open spec fn gateway_from_dto(d: PacketDataGatewayDto, g: CfgPacketDataGateway) -> bool {
    &&& g.enabled == d.enabled.unwrap_or(false)
    &&& g.interface_name@ == (match d.interface_name {
        Some(n) => n@,
        None => "ntetra0"@,
    })
    &&& g.prefix_len == d.prefix_len.unwrap_or(24)
    &&& g.mtu == d.mtu
    &&& g.auto_configure == d.auto_configure.unwrap_or(true)
    &&& g.enable_ipv4_forwarding == d.enable_ipv4_forwarding.unwrap_or(false)
    &&& g.managed_forwarding == d.managed_forwarding.unwrap_or(false)
    &&& g.allow_unsolicited_inbound == d.allow_unsolicited_inbound.unwrap_or(false)
    &&& g.nat_mode == d.nat_mode.unwrap_or(PacketGatewayNatMode::Disabled)
    &&& g.firewall_backend == d.firewall_backend.unwrap_or(PacketGatewayFirewallBackend::Auto)
    &&& g.external_interface == d.external_interface
    &&& g.dns_servers@ == (match d.dns_servers {
        Some(v) => v@,
        None => Seq::<[u8; 4]>::empty(),
    })
    &&& g.channel_capacity == d.channel_capacity.unwrap_or(256)
    &&& g.max_pdch_bearers == d.max_pdch_bearers.unwrap_or(0)
    &&& g.reserved_voice_slots == d.reserved_voice_slots.unwrap_or(1)
    &&& g.prefer_secondary_carrier == d.prefer_secondary_carrier.unwrap_or(true)
    &&& g.downlink_queue_packets_per_context == d.downlink_queue_packets_per_context.unwrap_or(64)
    &&& g.downlink_queue_bytes_per_context == d.downlink_queue_bytes_per_context.unwrap_or(262_144)
    &&& g.downlink_queue_ttl_secs == d.downlink_queue_ttl_secs.unwrap_or(30)
    &&& g.page_retry_secs == d.page_retry_secs.unwrap_or(5)
    &&& g.fragment_reassembly_timeout_secs == d.fragment_reassembly_timeout_secs.unwrap_or(30)
    &&& g.fragment_reassembly_max_datagrams == d.fragment_reassembly_max_datagrams.unwrap_or(128)
    &&& g.fragment_reassembly_max_bytes == d.fragment_reassembly_max_bytes.unwrap_or(4_194_304)
    &&& g.automatic_filter_ttl_secs == d.automatic_filter_ttl_secs.unwrap_or(300)
    &&& g.automatic_filter_max_bindings == d.automatic_filter_max_bindings.unwrap_or(4096)
}

/// Builds the gateway settings from a `[cell_info.packet_data_gateway]` block.
pub fn gateway_dto_to_cfg(d: PacketDataGatewayDto) -> (g: CfgPacketDataGateway)
    ensures
        gateway_from_dto(d, g),
{
    let defaults = CfgPacketDataGateway::default();
    let interface_name = match d.interface_name {
        Some(n) => n,
        None => defaults.interface_name,
    };
    let dns_servers = match d.dns_servers {
        Some(v) => v,
        None => {
            assert(defaults.dns_servers@ =~= Seq::<[u8; 4]>::empty());
            defaults.dns_servers
        },
    };
    CfgPacketDataGateway {
        enabled: d.enabled.unwrap_or(defaults.enabled),
        interface_name,
        prefix_len: d.prefix_len.unwrap_or(defaults.prefix_len),
        mtu: d.mtu,
        auto_configure: d.auto_configure.unwrap_or(defaults.auto_configure),
        enable_ipv4_forwarding: d.enable_ipv4_forwarding.unwrap_or(defaults.enable_ipv4_forwarding),
        managed_forwarding: d.managed_forwarding.unwrap_or(defaults.managed_forwarding),
        allow_unsolicited_inbound: d.allow_unsolicited_inbound.unwrap_or(defaults.allow_unsolicited_inbound),
        nat_mode: d.nat_mode.unwrap_or(defaults.nat_mode),
        firewall_backend: d.firewall_backend.unwrap_or(defaults.firewall_backend),
        external_interface: d.external_interface,
        dns_servers,
        channel_capacity: d.channel_capacity.unwrap_or(defaults.channel_capacity),
        max_pdch_bearers: d.max_pdch_bearers.unwrap_or(defaults.max_pdch_bearers),
        reserved_voice_slots: d.reserved_voice_slots.unwrap_or(defaults.reserved_voice_slots),
        prefer_secondary_carrier: d.prefer_secondary_carrier.unwrap_or(defaults.prefer_secondary_carrier),
        downlink_queue_packets_per_context: d.downlink_queue_packets_per_context.unwrap_or(
            defaults.downlink_queue_packets_per_context,
        ),
        downlink_queue_bytes_per_context: d.downlink_queue_bytes_per_context.unwrap_or(
            defaults.downlink_queue_bytes_per_context,
        ),
        downlink_queue_ttl_secs: d.downlink_queue_ttl_secs.unwrap_or(defaults.downlink_queue_ttl_secs),
        page_retry_secs: d.page_retry_secs.unwrap_or(defaults.page_retry_secs),
        fragment_reassembly_timeout_secs: d.fragment_reassembly_timeout_secs.unwrap_or(
            defaults.fragment_reassembly_timeout_secs,
        ),
        fragment_reassembly_max_datagrams: d.fragment_reassembly_max_datagrams.unwrap_or(
            defaults.fragment_reassembly_max_datagrams,
        ),
        fragment_reassembly_max_bytes: d.fragment_reassembly_max_bytes.unwrap_or(
            defaults.fragment_reassembly_max_bytes,
        ),
        automatic_filter_ttl_secs: d.automatic_filter_ttl_secs.unwrap_or(defaults.automatic_filter_ttl_secs),
        automatic_filter_max_bindings: d.automatic_filter_max_bindings.unwrap_or(
            defaults.automatic_filter_max_bindings,
        ),
    }
}

/// The broadcast settings that a Home Mode Display style block yields.
pub open spec fn home_display_from_dto(h: HomeModeDisplayDto, c: CfgHomeModeDisplay) -> bool {
    &&& c.source_issi == h.source_issi.unwrap_or(0)
    &&& c.interval_multiframes == h.interval_multiframes.unwrap_or(96)
    &&& c.protocol_id == h.protocol_id.unwrap_or(220)
    &&& c.text_coding_scheme == h.text_coding_scheme.unwrap_or(HomeModeDisplaySdsTextCodingScheme::LATIN)
    &&& c.text@ == (match h.text {
        Some(t) => t@,
        None => Seq::<char>::empty(),
    })
}

/// Builds broadcast settings from a Home Mode Display style block.
pub fn home_display_dto_to_cfg(h: HomeModeDisplayDto) -> (c: CfgHomeModeDisplay)
    ensures
        home_display_from_dto(h, c),
{
    let text = match h.text {
        Some(t) => t,
        None => String::new(),
    };
    CfgHomeModeDisplay {
        source_issi: h.source_issi.unwrap_or(0),
        interval_multiframes: h.interval_multiframes.unwrap_or(96),
        protocol_id: h.protocol_id.unwrap_or(220),
        text_coding_scheme: h.text_coding_scheme.unwrap_or(HomeModeDisplaySdsTextCodingScheme::LATIN),
        text,
    }
}

/// The remote-control settings that a `[cell_info.sds_command_control]` block yields:
/// the authorized ISSIs and every command entry, in order.
pub open spec fn sds_control_from_dto(d: SdsCommandControlDto, c: CfgSdsCommandControl) -> bool {
    &&& c.authorized_issis@ == d.authorized_issis@
    &&& c.commands@.len() == d.commands@.len()
    &&& forall|i: int|
        0 <= i < c.commands@.len() ==> {
            &&& (#[trigger] c.commands@[i]).status_code == d.commands@[i].status_code
            &&& c.commands@[i].action@ == d.commands@[i].action@
        }
}

/// Builds the remote-control settings from a `[cell_info.sds_command_control]` block.
pub fn sds_control_dto_to_cfg(d: SdsCommandControlDto) -> (c: CfgSdsCommandControl)
    ensures
        sds_control_from_dto(d, c),
{
    let mut commands: Vec<CfgSdsCommandEntry> = Vec::new();
    let mut i: usize = 0;
    while i < d.commands.len()
        invariant
            i <= d.commands@.len(),
            commands@.len() == i,
            forall|k: int|
                0 <= k < i ==> {
                    &&& (#[trigger] commands@[k]).status_code == d.commands@[k].status_code
                    &&& commands@[k].action@ == d.commands@[k].action@
                },
        decreases d.commands@.len() - i,
    {
        let e = &d.commands[i];
        commands.push(CfgSdsCommandEntry { status_code: e.status_code, action: e.action.clone() });
        i = i + 1;
    }
    CfgSdsCommandControl { authorized_issis: d.authorized_issis, commands }
}

/// `v` with 0 kept and any other value brought into `lo..=hi`.
pub open spec fn zero_or_clamped(v: u32, lo: u32, hi: u32) -> u32 {
    if v == 0 { 0 } else { clamp_u32(v, lo, hi) }
}

/// The cell configuration that a `[cell_info]` section yields.
pub open spec fn cell_from_dto(ci: CellInfoDto, c: CfgCellInfo) -> bool {
    &&& c.main_carrier == ci.main_carrier
    &&& c.secondary_carrier == (if ci.dual_carrier_enabled.unwrap_or(true) {
        ci.secondary_carrier
    } else {
        None
    })
    &&& c.freq_band == ci.freq_band
    &&& c.freq_offset_hz == ci.freq_offset
    &&& c.duplex_spacing_id == ci.duplex_spacing
    &&& c.reverse_operation == ci.reverse_operation
    &&& c.custom_duplex_spacing == ci.custom_duplex_spacing
    &&& c.location_area == ci.location_area
    &&& c.neighbor_cell_broadcast == ci.neighbor_cell_broadcast.unwrap_or(0)
    &&& c.late_entry_supported == ci.late_entry_supported.unwrap_or(false)
    &&& c.subscriber_class == ci.subscriber_class.unwrap_or(65535)
    &&& c.registration == ci.registration.unwrap_or(true)
    &&& c.deregistration == ci.deregistration.unwrap_or(true)
    &&& c.priority_cell == ci.priority_cell.unwrap_or(false)
    &&& c.no_minimum_mode == ci.no_minimum_mode.unwrap_or(false)
    &&& c.migration == ci.migration.unwrap_or(false)
    &&& c.system_wide_services == ci.system_wide_services.unwrap_or(false)
    &&& c.voice_service == ci.voice_service.unwrap_or(true)
    &&& c.circuit_mode_data_service == ci.circuit_mode_data_service.unwrap_or(false)
    &&& c.sndcp_service == ci.sndcp_service.unwrap_or(false)
    &&& c.aie_service == ci.aie_service.unwrap_or(false)
    &&& c.advanced_link == ci.advanced_link.unwrap_or(false)
    &&& (match ci.wap_ip {
        Some(d) => wap_ip_from_dto(d, c.wap_ip),
        None => is_default_wap_ip(c.wap_ip),
    })
    &&& (match ci.packet_data_gateway {
        Some(d) => gateway_from_dto(d, c.packet_data_gateway),
        None => is_default_gateway(c.packet_data_gateway),
    })
    &&& c.system_code == ci.system_code.unwrap_or(3)
    &&& c.colour_code == ci.colour_code.unwrap_or(0)
    &&& c.sharing_mode == ci.sharing_mode.unwrap_or(0)
    &&& c.ts_reserved_frames == ci.ts_reserved_frames.unwrap_or(0)
    &&& c.u_plane_dtx == ci.u_plane_dtx.unwrap_or(false)
    &&& c.frame_18_ext == ci.frame_18_ext.unwrap_or(false)
    &&& c.ms_txpwr_max_cell == ci.ms_txpwr_max_cell.unwrap_or(4)
    &&& c.local_ssi_ranges@ == (match ci.local_ssi_ranges {
        Some(v) => v@,
        None => seq![(0u32, 90u32)],
    })
    &&& c.timezone == ci.timezone
    &&& (match ci.home_mode_display {
        Some(h) => c.home_mode_display matches Some(x) && home_display_from_dto(h, x),
        None => c.home_mode_display is None,
    })
    &&& (match ci.sds_broadcast {
        Some(h) => c.sds_broadcast matches Some(x) && home_display_from_dto(h, x),
        None => c.sds_broadcast is None,
    })
    &&& c.neighbor_cells_ca@ == ci.neighbor_cells_ca@
    &&& c.hangtime_secs == clamp_u32(ci.hangtime_secs.unwrap_or(5), 0, 300)
    &&& c.call_timeout_secs == zero_or_clamped(ci.call_timeout_secs.unwrap_or(120), 30, 86400)
    &&& c.ul_inactivity_secs == clamp_u32(ci.ul_inactivity_secs.unwrap_or(3), 1, 30)
    &&& c.periodic_registration_secs == zero_or_clamped(
        ci.periodic_registration_secs.unwrap_or(3600),
        60,
        86400,
    )
    &&& (match ci.sds_command_control {
        Some(d) => c.sds_command_control matches Some(x) && sds_control_from_dto(d, x),
        None => c.sds_command_control is None,
    })
    &&& c.release_group_on_same_speaker_retake == ci.release_group_on_same_speaker_retake.unwrap_or(false)
}

/// `v` brought into `lo..=hi`, for `lo <= hi`.
fn clamp(v: u32, lo: u32, hi: u32) -> (r: u32)
    requires
        lo <= hi,
    ensures
        r == clamp_u32(v, lo, hi),
{
    if v < lo {
        lo
    } else if v > hi {
        hi
    } else {
        v
    }
}

/// Builds the cell configuration from a `[cell_info]` section, taking the
/// built-in value for every setting that the section leaves out.
pub fn cell_dto_to_cfg(ci: CellInfoDto) -> (c: CfgCellInfo)
    ensures
        cell_from_dto(ci, c),
{
    let secondary_carrier = if ci.dual_carrier_enabled.unwrap_or(true) {
        ci.secondary_carrier
    } else {
        None
    };
    let wap_ip = match ci.wap_ip {
        Some(d) => wap_ip_dto_to_cfg(d),
        None => CfgWapIp::default(),
    };
    let packet_data_gateway = match ci.packet_data_gateway {
        Some(d) => gateway_dto_to_cfg(d),
        None => CfgPacketDataGateway::default(),
    };
    let local_ssi_ranges = match ci.local_ssi_ranges {
        Some(v) => v,
        None => {
            let mut v: Vec<(u32, u32)> = Vec::new();
            v.push((0, 90));
            v
        },
    };
    let home_mode_display = match ci.home_mode_display {
        Some(h) => Some(home_display_dto_to_cfg(h)),
        None => None,
    };
    let sds_broadcast = match ci.sds_broadcast {
        Some(h) => Some(home_display_dto_to_cfg(h)),
        None => None,
    };
    let sds_command_control = match ci.sds_command_control {
        Some(d) => Some(sds_control_dto_to_cfg(d)),
        None => None,
    };
    let call_timeout = ci.call_timeout_secs.unwrap_or(120);
    let periodic_registration = ci.periodic_registration_secs.unwrap_or(3600);
    CfgCellInfo {
        main_carrier: ci.main_carrier,
        secondary_carrier,
        freq_band: ci.freq_band,
        freq_offset_hz: ci.freq_offset,
        duplex_spacing_id: ci.duplex_spacing,
        reverse_operation: ci.reverse_operation,
        custom_duplex_spacing: ci.custom_duplex_spacing,
        location_area: ci.location_area,
        neighbor_cell_broadcast: ci.neighbor_cell_broadcast.unwrap_or(0),
        late_entry_supported: ci.late_entry_supported.unwrap_or(false),
        subscriber_class: ci.subscriber_class.unwrap_or(65535),
        registration: ci.registration.unwrap_or(true),
        deregistration: ci.deregistration.unwrap_or(true),
        priority_cell: ci.priority_cell.unwrap_or(false),
        no_minimum_mode: ci.no_minimum_mode.unwrap_or(false),
        migration: ci.migration.unwrap_or(false),
        system_wide_services: ci.system_wide_services.unwrap_or(false),
        voice_service: ci.voice_service.unwrap_or(true),
        circuit_mode_data_service: ci.circuit_mode_data_service.unwrap_or(false),
        sndcp_service: ci.sndcp_service.unwrap_or(false),
        aie_service: ci.aie_service.unwrap_or(false),
        advanced_link: ci.advanced_link.unwrap_or(false),
        wap_ip,
        packet_data_gateway,
        system_code: ci.system_code.unwrap_or(3),
        colour_code: ci.colour_code.unwrap_or(0),
        sharing_mode: ci.sharing_mode.unwrap_or(0),
        ts_reserved_frames: ci.ts_reserved_frames.unwrap_or(0),
        u_plane_dtx: ci.u_plane_dtx.unwrap_or(false),
        frame_18_ext: ci.frame_18_ext.unwrap_or(false),
        ms_txpwr_max_cell: ci.ms_txpwr_max_cell.unwrap_or(4),
        local_ssi_ranges,
        timezone: ci.timezone,
        home_mode_display,
        sds_broadcast,
        neighbor_cells_ca: ci.neighbor_cells_ca,
        hangtime_secs: clamp(ci.hangtime_secs.unwrap_or(5), 0, 300),
        call_timeout_secs: if call_timeout == 0 {
            0
        } else {
            clamp(call_timeout, 30, 86400)
        },
        ul_inactivity_secs: clamp(ci.ul_inactivity_secs.unwrap_or(3), 1, 30),
        periodic_registration_secs: if periodic_registration == 0 {
            0
        } else {
            clamp(periodic_registration, 60, 86400)
        },
        sds_command_control,
        release_group_on_same_speaker_retake: ci.release_group_on_same_speaker_retake.unwrap_or(false),
    }
}

} // verus!
