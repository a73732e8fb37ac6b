//! The stack configuration as a whole and the consistency checks that it must
//! pass before the stack starts.
use vstd::prelude::*;
use crate::sec_cell::{
    pool_prefix_spec, CfgCellInfo, CfgNeighborCellCa, CfgPacketDataGateway, CfgWapIp,
    PacketGatewayFirewallBackend, PacketGatewayNatMode,
};
use crate::text::{chars_of, is_alnum};
use crate::sec_brew::{effective_allowlist, CfgBrew};
use crate::sec_net::CfgNetInfo;
use crate::sec_asterisk::CfgAsterisk;
use crate::sec_echolink::CfgEcholink;
use crate::sec_audio_player::CfgAudioPlayer;
use crate::sec_control_room::CfgControlRoom;
use crate::sec_edge_fallback::CfgEdgeFallback;

verus! {

/// Which role the stack runs in.
#[derive(Debug, Clone, Copy, PartialEq, Eq, Structural)]
pub enum StackMode {
    Bs,
    Ms,
    Mon,
}

/// The first error that a sequence of checks gives, taken in order.
pub open spec fn first_error(a: Option<Seq<char>>, b: Option<Seq<char>>) -> Option<Seq<char>> {
    if a is Some { a } else { b }
}

/// Carrier and transmit power checks.
pub open spec fn carrier_error(c: CfgCellInfo) -> Option<Seq<char>> {
    if c.secondary_carrier == Some(c.main_carrier) {
        Some("cell.secondary_carrier must differ from cell.main_carrier"@)
    } else if c.ms_txpwr_max_cell > 7 {
        Some("ms_txpwr_max_cell must be 0-7 (3 bits)"@)
    } else {
        None
    }
}

/// SNDCP advertisement and the packet-data services must agree.
pub open spec fn packet_profile_error(c: CfgCellInfo) -> Option<Seq<char>> {
    let enabled = c.wap_ip.enabled || c.packet_data_gateway.enabled;
    if c.sndcp_service && !enabled {
        Some("cell.sndcp_service=true requires WAP/IP or packet_data_gateway"@)
    } else if enabled && !c.sndcp_service {
        Some("packet-data services require cell.sndcp_service=true"@)
    } else if enabled && !c.advanced_link {
        Some("packet-data services require cell.advanced_link=true"@)
    } else {
        None
    }
}

/// Range checks of the WAP/IP settings and of its dynamic address pool.
pub open spec fn wap_ip_error(w: CfgWapIp) -> Option<Seq<char>> {
    if w.enabled && w.port == 0 {
        Some("cell_info.wap_ip.port must be non-zero"@)
    } else if w.enabled && w.response_ttl == 0 {
        Some("cell_info.wap_ip.response_ttl must be non-zero"@)
    } else if w.max_request_payload_bytes == 0 || w.max_request_payload_bytes > 1024 {
        Some("cell_info.wap_ip.max_request_payload_bytes must be 1-1024"@)
    } else if w.pdu_priority_max > 7 {
        Some("cell_info.wap_ip.pdu_priority_max must be 0-7"@)
    } else if !(1 <= w.ready_timer_code <= 14) {
        Some("cell_info.wap_ip.ready_timer_code must be 1-14"@)
    } else if !(1 <= w.standby_timer_code <= 15) {
        Some("cell_info.wap_ip.standby_timer_code must be 1-15"@)
    } else if w.response_wait_timer_code > 14 {
        Some("cell_info.wap_ip.response_wait_timer_code must be 0-14"@)
    } else if !(1 <= w.mtu_code <= 5) {
        Some("cell_info.wap_ip.mtu_code must be 1-5"@)
    } else if w.network_default_data_priority > 7 {
        Some("cell_info.wap_ip.network_default_data_priority must be 0-7"@)
    } else if w.max_contexts_per_issi == 0 || w.max_contexts_per_issi > 14 {
        Some("cell_info.wap_ip.max_contexts_per_issi must be 1-14"@)
    } else if w.max_total_contexts == 0 || w.max_total_contexts < w.max_contexts_per_issi {
        Some("cell_info.wap_ip.max_total_contexts must be non-zero and >= max_contexts_per_issi"@)
    } else if w.dynamic_pool_first_host == 0 || w.dynamic_pool_last_host == 255
        || w.dynamic_pool_first_host > w.dynamic_pool_last_host {
        Some("cell_info.wap_ip dynamic pool hosts must be ordered inside 1-254"@)
    } else if pool_prefix_spec(w.dynamic_pool_prefix@) is None {
        Some("cell_info.wap_ip.dynamic_pool_prefix must contain exactly three IPv4 octets"@)
    } else if w.address@.take(3) == pool_prefix_spec(w.dynamic_pool_prefix@)->0
        && w.dynamic_pool_first_host <= w.address@[3] <= w.dynamic_pool_last_host {
        Some("cell_info.wap_ip.address must not be inside the dynamic client pool"@)
    } else {
        None
    }
}

/// The outcome of a check whose first error is `err`.
pub open spec fn outcome(err: Option<Seq<char>>, r: Result<(), &'static str>) -> bool {
    match r {
        Ok(()) => err is None,
        Err(e) => err == Some(e@),
    }
}

fn check_carrier(c: &CfgCellInfo) -> (r: Result<(), &'static str>)
    ensures
        outcome(carrier_error(*c), r),
{
    if let Some(secondary) = c.secondary_carrier {
        if secondary == c.main_carrier {
            return Err("cell.secondary_carrier must differ from cell.main_carrier");
        }
    }
    if c.ms_txpwr_max_cell > 7 {
        return Err("ms_txpwr_max_cell must be 0-7 (3 bits)");
    }
    Ok(())
}

fn check_packet_profile(c: &CfgCellInfo) -> (r: Result<(), &'static str>)
    ensures
        outcome(packet_profile_error(*c), r),
{
    let enabled = c.wap_ip.enabled || c.packet_data_gateway.enabled;
    if c.sndcp_service && !enabled {
        return Err("cell.sndcp_service=true requires WAP/IP or packet_data_gateway");
    }
    if enabled && !c.sndcp_service {
        return Err("packet-data services require cell.sndcp_service=true");
    }
    if enabled && !c.advanced_link {
        return Err("packet-data services require cell.advanced_link=true");
    }
    Ok(())
}

fn check_wap_ip(w: &CfgWapIp) -> (r: Result<[u8; 3], &'static str>)
    ensures
        match r {
            Ok(pool) => wap_ip_error(*w) is None && pool_prefix_spec(w.dynamic_pool_prefix@) == Some(
                pool@,
            ),
            Err(e) => wap_ip_error(*w) == Some(e@),
        },
{
    if w.enabled && w.port == 0 {
        return Err("cell_info.wap_ip.port must be non-zero");
    }
    if w.enabled && w.response_ttl == 0 {
        return Err("cell_info.wap_ip.response_ttl must be non-zero");
    }
    if w.max_request_payload_bytes == 0 || w.max_request_payload_bytes > 1024 {
        return Err("cell_info.wap_ip.max_request_payload_bytes must be 1-1024");
    }
    if w.pdu_priority_max > 7 {
        return Err("cell_info.wap_ip.pdu_priority_max must be 0-7");
    }
    if !(1 <= w.ready_timer_code && w.ready_timer_code <= 14) {
        return Err("cell_info.wap_ip.ready_timer_code must be 1-14");
    }
    if !(1 <= w.standby_timer_code && w.standby_timer_code <= 15) {
        return Err("cell_info.wap_ip.standby_timer_code must be 1-15");
    }
    if w.response_wait_timer_code > 14 {
        return Err("cell_info.wap_ip.response_wait_timer_code must be 0-14");
    }
    if !(1 <= w.mtu_code && w.mtu_code <= 5) {
        return Err("cell_info.wap_ip.mtu_code must be 1-5");
    }
    if w.network_default_data_priority > 7 {
        return Err("cell_info.wap_ip.network_default_data_priority must be 0-7");
    }
    if w.max_contexts_per_issi == 0 || w.max_contexts_per_issi > 14 {
        return Err("cell_info.wap_ip.max_contexts_per_issi must be 1-14");
    }
    if w.max_total_contexts == 0 || w.max_total_contexts < w.max_contexts_per_issi {
        return Err("cell_info.wap_ip.max_total_contexts must be non-zero and >= max_contexts_per_issi");
    }
    if w.dynamic_pool_first_host == 0 || w.dynamic_pool_last_host == 255
        || w.dynamic_pool_first_host > w.dynamic_pool_last_host {
        return Err("cell_info.wap_ip dynamic pool hosts must be ordered inside 1-254");
    }
    let pool = match w.pool_prefix_octets() {
        Some(p) => p,
        None => {
            return Err("cell_info.wap_ip.dynamic_pool_prefix must contain exactly three IPv4 octets");
        },
    };
    let a = w.address;
    let same_prefix = a[0] == pool[0] && a[1] == pool[1] && a[2] == pool[2];
    assert(same_prefix == (w.address@.take(3) == pool@)) by {
        if same_prefix {
            assert(w.address@.take(3) =~= pool@);
        }
    }
    if same_prefix && w.dynamic_pool_first_host <= a[3] && a[3] <= w.dynamic_pool_last_host {
        return Err("cell_info.wap_ip.address must not be inside the dynamic client pool");
    }
    Ok(pool)
}

/// A character allowed in a network interface name.
pub open spec fn interface_char(c: char) -> bool {
    is_alnum(c) || c == '_' || c == '-' || c == '.'
}

/// A safe network interface name: 1 to 15 letters, digits, `_`, `-` or `.`.
pub open spec fn valid_interface_name(s: Seq<char>) -> bool {
    &&& 1 <= s.len() <= 15
    &&& forall|i: int| 0 <= i < s.len() ==> interface_char(#[trigger] s[i])
}

fn is_valid_interface_name(s: &str) -> (r: bool)
    ensures
        r == valid_interface_name(s@),
{
    let v = chars_of(s);
    if v.len() == 0 || v.len() > 15 {
        return false;
    }
    let mut i: usize = 0;
    while i < v.len()
        invariant
            v@ == s@,
            i <= v.len(),
            forall|k: int| 0 <= k < i ==> interface_char(#[trigger] v@[k]),
        decreases v.len() - i,
    {
        let c = v[i];
        let ok = ('0' <= c && c <= '9') || ('a' <= c && c <= 'z') || ('A' <= c && c <= 'Z') || c == '_'
            || c == '-' || c == '.';
        if !ok {
            assert(!interface_char(s@[i as int]));
            return false;
        }
        i = i + 1;
    }
    true
}

/// An IPv4 address, most significant octet first, as a 32-bit number.
pub open spec fn ipv4_bits(a: Seq<u8>) -> u32 {
    ((a[0] as u32) << 24u32) | ((a[1] as u32) << 16u32) | ((a[2] as u32) << 8u32) | (a[3] as u32)
}

fn ipv4_bits_of(a: [u8; 4]) -> (r: u32)
    ensures
        r == ipv4_bits(a@),
{
    ((a[0] as u32) << 24u32) | ((a[1] as u32) << 16u32) | ((a[2] as u32) << 8u32) | (a[3] as u32)
}

/// The netmask of a prefix length `p` in `1..=30`.
pub open spec fn prefix_mask(p: u8) -> u32 {
    0xffff_ffffu32 << ((32 - p) as u32)
}

/// A unicast IPv4 address: not 0.0.0.0, not multicast (224-239 in the first
/// octet) and not 255.255.255.255.
pub open spec fn unicast_ipv4(a: Seq<u8>) -> bool {
    &&& !(a[0] == 0 && a[1] == 0 && a[2] == 0 && a[3] == 0)
    &&& !(224 <= a[0] <= 239)
    &&& !(a[0] == 255 && a[1] == 255 && a[2] == 255 && a[3] == 255)
}

/// The gateway address must lie strictly inside the packet-data subnet, and so
/// must the dynamic pool (given by its three-octet prefix `pool`).
pub open spec fn subnet_error(w: CfgWapIp, p: u8, pool: Seq<u8>) -> Option<Seq<char>> {
    let gw = ipv4_bits(w.address@);
    let mask = prefix_mask(p);
    let network = gw & mask;
    let broadcast = network | !mask;
    let first = ipv4_bits(pool.push(w.dynamic_pool_first_host));
    let last = ipv4_bits(pool.push(w.dynamic_pool_last_host));
    if gw == network || gw == broadcast {
        Some("WAP/gateway address must not be the packet-data subnet network or broadcast address"@)
    } else if first & mask != network || last & mask != network || first == network || last
        == broadcast {
        Some("dynamic PDP address pool must fit completely inside packet-data subnet"@)
    } else {
        None
    }
}

/// Checks of the packet-data gateway settings, given the pool prefix of the
/// WAP/IP settings.
pub open spec fn gateway_error(c: CfgCellInfo, pool: Seq<u8>) -> Option<Seq<char>> {
    let g = c.packet_data_gateway;
    let masquerade = g.nat_mode == PacketGatewayNatMode::Masquerade;
    let no_firewall = g.firewall_backend == PacketGatewayFirewallBackend::NoFirewall;
    if !valid_interface_name(g.interface_name@) {
        Some("cell_info.packet_data_gateway.interface_name must be 1-15 safe interface characters"@)
    } else if g.external_interface matches Some(x) && !valid_interface_name(x@) {
        Some("cell_info.packet_data_gateway.external_interface is invalid"@)
    } else if g.external_interface matches Some(x) && x@ == g.interface_name@ {
        Some("packet-data TUN and external interfaces must differ"@)
    } else if !(1 <= g.prefix_len <= 30) {
        Some("cell_info.packet_data_gateway.prefix_len must be 1-30"@)
    } else if g.mtu matches Some(m) && m < 68 {
        Some("cell_info.packet_data_gateway.mtu must be at least 68"@)
    } else if g.channel_capacity < 16 || g.channel_capacity > 65_536 {
        Some("cell_info.packet_data_gateway.channel_capacity must be 16-65536"@)
    } else if g.max_pdch_bearers > 6 {
        Some("cell_info.packet_data_gateway.max_pdch_bearers must be 0-6"@)
    } else if g.reserved_voice_slots > 5 {
        Some("cell_info.packet_data_gateway.reserved_voice_slots must be 0-5"@)
    } else if g.enabled && g.reserved_voice_slots >= (if c.secondary_carrier is Some { 6int } else { 3int }) {
        Some("cell_info.packet_data_gateway.reserved_voice_slots must leave at least one PDCH slot"@)
    } else if g.downlink_queue_packets_per_context == 0 || g.downlink_queue_bytes_per_context < 576
        || g.downlink_queue_ttl_secs == 0 || g.page_retry_secs == 0 {
        Some("packet-data downlink queue and paging limits must be non-zero"@)
    } else if g.fragment_reassembly_timeout_secs == 0 || g.fragment_reassembly_max_datagrams == 0
        || g.fragment_reassembly_max_bytes < 65_535 {
        Some("packet-data fragment reassembly limits are invalid"@)
    } else if g.automatic_filter_ttl_secs == 0 || g.automatic_filter_max_bindings == 0 {
        Some("packet-data automatic filter limits must be non-zero"@)
    } else if g.dns_servers@.len() > 2 {
        Some("cell_info.packet_data_gateway.dns_servers supports at most two IPv4 addresses"@)
    } else if exists|i: int| 0 <= i < g.dns_servers@.len() && !unicast_ipv4(#[trigger] g.dns_servers@[i]@) {
        Some("packet-data DNS addresses must be unicast IPv4 addresses"@)
    } else if (g.managed_forwarding || masquerade) && !g.enable_ipv4_forwarding {
        Some("managed forwarding/NAT requires enable_ipv4_forwarding=true"@)
    } else if g.managed_forwarding && no_firewall {
        Some("managed_forwarding=true requires nftables, iptables or auto firewall backend"@)
    } else if g.allow_unsolicited_inbound && !g.managed_forwarding {
        Some("allow_unsolicited_inbound=true requires managed_forwarding=true"@)
    } else if masquerade && no_firewall {
        Some("NAT masquerade requires nftables, iptables or auto firewall backend"@)
    } else if !g.auto_configure && (g.managed_forwarding || masquerade) {
        Some("managed forwarding/NAT requires packet_data_gateway.auto_configure=true"@)
    } else if g.enabled {
        subnet_error(c.wap_ip, g.prefix_len, pool)
    } else {
        None
    }
}

fn check_subnet(w: &CfgWapIp, p: u8, pool: [u8; 3]) -> (r: Result<(), &'static str>)
    requires
        1 <= p <= 30,
    ensures
        outcome(subnet_error(*w, p, pool@), r),
{
    let gw = ipv4_bits_of(w.address);
    let mask: u32 = 0xffff_ffffu32 << (32u32 - (p as u32));
    let network = gw & mask;
    let broadcast = network | !mask;
    if gw == network || gw == broadcast {
        return Err("WAP/gateway address must not be the packet-data subnet network or broadcast address");
    }
    let fa: [u8; 4] = [pool[0], pool[1], pool[2], w.dynamic_pool_first_host];
    let la: [u8; 4] = [pool[0], pool[1], pool[2], w.dynamic_pool_last_host];
    assert(fa@ =~= pool@.push(w.dynamic_pool_first_host));
    assert(la@ =~= pool@.push(w.dynamic_pool_last_host));
    let first = ipv4_bits_of(fa);
    let last = ipv4_bits_of(la);
    if first & mask != network || last & mask != network || first == network || last == broadcast {
        return Err("dynamic PDP address pool must fit completely inside packet-data subnet");
    }
    Ok(())
}

fn is_unicast_ipv4(a: [u8; 4]) -> (r: bool)
    ensures
        r == unicast_ipv4(a@),
{
    !(a[0] == 0 && a[1] == 0 && a[2] == 0 && a[3] == 0) && !(224 <= a[0] && a[0] <= 239) && !(a[0]
        == 255 && a[1] == 255 && a[2] == 255 && a[3] == 255)
}

fn all_unicast(v: &Vec<[u8; 4]>) -> (r: bool)
    ensures
        r == forall|k: int| 0 <= k < v@.len() ==> unicast_ipv4(#[trigger] v@[k]@),
{
    let mut i: usize = 0;
    while i < v.len()
        invariant
            i <= v@.len(),
            forall|k: int| 0 <= k < i ==> unicast_ipv4(#[trigger] v@[k]@),
        decreases v@.len() - i,
    {
        if !is_unicast_ipv4(v[i]) {
            assert(!unicast_ipv4(v@[i as int]@));
            return false;
        }
        i = i + 1;
    }
    true
}

fn check_gateway(c: &CfgCellInfo, pool: [u8; 3]) -> (r: Result<(), &'static str>)
    ensures
        outcome(gateway_error(*c, pool@), r),
{
    let g = &c.packet_data_gateway;
    let masquerade = match g.nat_mode {
        PacketGatewayNatMode::Masquerade => true,
        PacketGatewayNatMode::Disabled => false,
    };
    let no_firewall = match g.firewall_backend {
        PacketGatewayFirewallBackend::NoFirewall => true,
        _ => false,
    };
    if !is_valid_interface_name(g.interface_name.as_str()) {
        return Err("cell_info.packet_data_gateway.interface_name must be 1-15 safe interface characters");
    }
    if let Some(external) = &g.external_interface {
        if !is_valid_interface_name(external.as_str()) {
            return Err("cell_info.packet_data_gateway.external_interface is invalid");
        }
        if crate::text::str_eq(external.as_str(), g.interface_name.as_str()) {
            return Err("packet-data TUN and external interfaces must differ");
        }
    }
    if !(1 <= g.prefix_len && g.prefix_len <= 30) {
        return Err("cell_info.packet_data_gateway.prefix_len must be 1-30");
    }
    if let Some(mtu) = g.mtu {
        if mtu < 68 {
            return Err("cell_info.packet_data_gateway.mtu must be at least 68");
        }
    }
    if g.channel_capacity < 16 || g.channel_capacity > 65_536 {
        return Err("cell_info.packet_data_gateway.channel_capacity must be 16-65536");
    }
    if g.max_pdch_bearers > 6 {
        return Err("cell_info.packet_data_gateway.max_pdch_bearers must be 0-6");
    }
    if g.reserved_voice_slots > 5 {
        return Err("cell_info.packet_data_gateway.reserved_voice_slots must be 0-5");
    }
    let traffic_slots: usize = if c.secondary_carrier.is_some() { 6 } else { 3 };
    if g.enabled && g.reserved_voice_slots >= traffic_slots {
        return Err("cell_info.packet_data_gateway.reserved_voice_slots must leave at least one PDCH slot");
    }
    if g.downlink_queue_packets_per_context == 0 || g.downlink_queue_bytes_per_context < 576
        || g.downlink_queue_ttl_secs == 0 || g.page_retry_secs == 0 {
        return Err("packet-data downlink queue and paging limits must be non-zero");
    }
    if g.fragment_reassembly_timeout_secs == 0 || g.fragment_reassembly_max_datagrams == 0
        || g.fragment_reassembly_max_bytes < 65_535 {
        return Err("packet-data fragment reassembly limits are invalid");
    }
    if g.automatic_filter_ttl_secs == 0 || g.automatic_filter_max_bindings == 0 {
        return Err("packet-data automatic filter limits must be non-zero");
    }
    if g.dns_servers.len() > 2 {
        return Err("cell_info.packet_data_gateway.dns_servers supports at most two IPv4 addresses");
    }
    if !all_unicast(&g.dns_servers) {
        return Err("packet-data DNS addresses must be unicast IPv4 addresses");
    }
    if (g.managed_forwarding || masquerade) && !g.enable_ipv4_forwarding {
        return Err("managed forwarding/NAT requires enable_ipv4_forwarding=true");
    }
    if g.managed_forwarding && no_firewall {
        return Err("managed_forwarding=true requires nftables, iptables or auto firewall backend");
    }
    if g.allow_unsolicited_inbound && !g.managed_forwarding {
        return Err("allow_unsolicited_inbound=true requires managed_forwarding=true");
    }
    if masquerade && no_firewall {
        return Err("NAT masquerade requires nftables, iptables or auto firewall backend");
    }
    if !g.auto_configure && (g.managed_forwarding || masquerade) {
        return Err("managed forwarding/NAT requires packet_data_gateway.auto_configure=true");
    }
    if g.enabled {
        return check_subnet(&c.wap_ip, g.prefix_len, pool);
    }
    Ok(())
}

/// Range checks of one neighbour cell entry.
pub open spec fn neighbor_field_error(n: CfgNeighborCellCa) -> Option<Seq<char>> {
    if n.bs_service_details matches Some(d) && d.sndcp_service {
        Some("cell.neighbor_cells_ca: neighbor SNDCP advertisement is unsupported by the local WAP profile"@)
    } else if n.cell_identifier_ca > 0x1F {
        Some("cell.neighbor_cells_ca: cell_identifier_ca must be 0-31"@)
    } else if n.cell_reselection_types_supported > 0x3 {
        Some("cell.neighbor_cells_ca: cell_reselection_types_supported must be 0-3"@)
    } else if n.cell_load_ca > 0x3 {
        Some("cell.neighbor_cells_ca: cell_load_ca must be 0-3"@)
    } else if n.main_carrier_number > 0xFFF {
        Some("cell.neighbor_cells_ca: main_carrier_number must be 0-4095"@)
    } else if n.main_carrier_number_extension matches Some(v) && v > 0x3FF {
        Some("cell.neighbor_cells_ca: main_carrier_number_extension must be 0-1023"@)
    } else if n.mcc matches Some(v) && v > 0x3FF {
        Some("cell.neighbor_cells_ca: mcc must be 0-1023"@)
    } else if n.mnc matches Some(v) && v > 0x3FFF {
        Some("cell.neighbor_cells_ca: mnc must be 0-16383"@)
    } else if n.location_area matches Some(v) && v > 0x3FFF {
        Some("cell.neighbor_cells_ca: location_area must be 0-16383"@)
    } else if n.maximum_ms_transmit_power matches Some(v) && v > 0x7 {
        Some("cell.neighbor_cells_ca: maximum_ms_transmit_power must be 0-7"@)
    } else if n.minimum_rx_access_level matches Some(v) && v > 0xF {
        Some("cell.neighbor_cells_ca: minimum_rx_access_level must be 0-15"@)
    } else if n.timeshare_cell_information_or_security_parameters matches Some(v) && v > 0x1F {
        Some("cell.neighbor_cells_ca: timeshare_cell_information_or_security_parameters must be 0-31"@)
    } else if n.tdma_frame_offset matches Some(v) && v > 0x3F {
        Some("cell.neighbor_cells_ca: tdma_frame_offset must be 0-63"@)
    } else {
        None
    }
}

/// The first range error among the neighbour cell entries, in order.
pub open spec fn neighbor_fields_error(cells: Seq<CfgNeighborCellCa>) -> Option<Seq<char>>
    decreases cells.len(),
{
    if cells.len() == 0 {
        None
    } else {
        first_error(neighbor_fields_error(cells.drop_last()), neighbor_field_error(cells.last()))
    }
}

/// Entry `k` repeats the identifier, or else the carrier, of an earlier entry.
pub open spec fn duplicate_error_at(cells: Seq<CfgNeighborCellCa>, k: int) -> Option<Seq<char>> {
    if exists|j: int| 0 <= j < k && #[trigger] cells[j].cell_identifier_ca == cells[k].cell_identifier_ca {
        Some("cell.neighbor_cells_ca: duplicate cell_identifier_ca \u{2014} each neighbour must have a unique identifier"@)
    } else if exists|j: int| 0 <= j < k && #[trigger] cells[j].main_carrier_number == cells[k].main_carrier_number {
        Some("cell.neighbor_cells_ca: duplicate main_carrier_number \u{2014} each neighbour must be on a different carrier"@)
    } else {
        None
    }
}

/// The first entry that repeats an identifier or a carrier, in order.
pub open spec fn duplicates_error(cells: Seq<CfgNeighborCellCa>) -> Option<Seq<char>>
    decreases cells.len(),
{
    if cells.len() == 0 {
        None
    } else {
        first_error(duplicates_error(cells.drop_last()), duplicate_error_at(cells, cells.len() - 1))
    }
}

/// Checks of the neighbour cell list.
pub open spec fn neighbors_error(cells: Seq<CfgNeighborCellCa>) -> Option<Seq<char>> {
    if cells.len() > 7 {
        Some("cell.neighbor_cells_ca supports at most 7 entries"@)
    } else {
        first_error(duplicates_error(cells), neighbor_fields_error(cells))
    }
}

fn check_neighbor_fields(n: &CfgNeighborCellCa) -> (r: Result<(), &'static str>)
    ensures
        outcome(neighbor_field_error(*n), r),
{
    if let Some(d) = &n.bs_service_details {
        if d.sndcp_service {
            return Err("cell.neighbor_cells_ca: neighbor SNDCP advertisement is unsupported by the local WAP profile");
        }
    }
    if n.cell_identifier_ca > 0x1F {
        return Err("cell.neighbor_cells_ca: cell_identifier_ca must be 0-31");
    }
    if n.cell_reselection_types_supported > 0x3 {
        return Err("cell.neighbor_cells_ca: cell_reselection_types_supported must be 0-3");
    }
    if n.cell_load_ca > 0x3 {
        return Err("cell.neighbor_cells_ca: cell_load_ca must be 0-3");
    }
    if n.main_carrier_number > 0xFFF {
        return Err("cell.neighbor_cells_ca: main_carrier_number must be 0-4095");
    }
    if let Some(v) = n.main_carrier_number_extension {
        if v > 0x3FF {
            return Err("cell.neighbor_cells_ca: main_carrier_number_extension must be 0-1023");
        }
    }
    if let Some(v) = n.mcc {
        if v > 0x3FF {
            return Err("cell.neighbor_cells_ca: mcc must be 0-1023");
        }
    }
    if let Some(v) = n.mnc {
        if v > 0x3FFF {
            return Err("cell.neighbor_cells_ca: mnc must be 0-16383");
        }
    }
    if let Some(v) = n.location_area {
        if v > 0x3FFF {
            return Err("cell.neighbor_cells_ca: location_area must be 0-16383");
        }
    }
    if let Some(v) = n.maximum_ms_transmit_power {
        if v > 0x7 {
            return Err("cell.neighbor_cells_ca: maximum_ms_transmit_power must be 0-7");
        }
    }
    if let Some(v) = n.minimum_rx_access_level {
        if v > 0xF {
            return Err("cell.neighbor_cells_ca: minimum_rx_access_level must be 0-15");
        }
    }
    if let Some(v) = n.timeshare_cell_information_or_security_parameters {
        if v > 0x1F {
            return Err("cell.neighbor_cells_ca: timeshare_cell_information_or_security_parameters must be 0-31");
        }
    }
    if let Some(v) = n.tdma_frame_offset {
        if v > 0x3F {
            return Err("cell.neighbor_cells_ca: tdma_frame_offset must be 0-63");
        }
    }
    Ok(())
}

fn check_duplicate_at(cells: &Vec<CfgNeighborCellCa>, k: usize) -> (r: Result<(), &'static str>)
    requires
        k < cells@.len(),
    ensures
        outcome(duplicate_error_at(cells@, k as int), r),
{
    let mut j: usize = 0;
    while j < k
        invariant
            k < cells@.len(),
            j <= k,
            forall|i: int| 0 <= i < j ==> #[trigger] cells@[i].cell_identifier_ca != cells@[k as int].cell_identifier_ca,
        decreases k - j,
    {
        if cells[j].cell_identifier_ca == cells[k].cell_identifier_ca {
            return Err("cell.neighbor_cells_ca: duplicate cell_identifier_ca \u{2014} each neighbour must have a unique identifier");
        }
        j = j + 1;
    }
    let mut j: usize = 0;
    while j < k
        invariant
            k < cells@.len(),
            j <= k,
            forall|i: int| 0 <= i < k ==> #[trigger] cells@[i].cell_identifier_ca != cells@[k as int].cell_identifier_ca,
            forall|i: int| 0 <= i < j ==> #[trigger] cells@[i].main_carrier_number != cells@[k as int].main_carrier_number,
        decreases k - j,
    {
        if cells[j].main_carrier_number == cells[k].main_carrier_number {
            return Err("cell.neighbor_cells_ca: duplicate main_carrier_number \u{2014} each neighbour must be on a different carrier");
        }
        j = j + 1;
    }
    Ok(())
}

proof fn lemma_duplicate_error_at_prefix(cells: Seq<CfgNeighborCellCa>, n: int, k: int)
    requires
        0 <= k < n <= cells.len(),
    ensures
        duplicate_error_at(cells.take(n), k) == duplicate_error_at(cells, k),
{
    let t = cells.take(n);
    assert(t[k] == cells[k]);
    if exists|j: int| 0 <= j < k && #[trigger] t[j].cell_identifier_ca == t[k].cell_identifier_ca {
        let j = choose|j: int| 0 <= j < k && #[trigger] t[j].cell_identifier_ca == t[k].cell_identifier_ca;
        assert(t[j] == cells[j]);
    }
    if exists|j: int| 0 <= j < k && #[trigger] cells[j].cell_identifier_ca == cells[k].cell_identifier_ca {
        let j = choose|j: int| 0 <= j < k && #[trigger] cells[j].cell_identifier_ca == cells[k].cell_identifier_ca;
        assert(t[j] == cells[j]);
    }
    if exists|j: int| 0 <= j < k && #[trigger] t[j].main_carrier_number == t[k].main_carrier_number {
        let j = choose|j: int| 0 <= j < k && #[trigger] t[j].main_carrier_number == t[k].main_carrier_number;
        assert(t[j] == cells[j]);
    }
    if exists|j: int| 0 <= j < k && #[trigger] cells[j].main_carrier_number == cells[k].main_carrier_number {
        let j = choose|j: int| 0 <= j < k && #[trigger] cells[j].main_carrier_number == cells[k].main_carrier_number;
        assert(t[j] == cells[j]);
    }
}

fn check_neighbors(cells: &Vec<CfgNeighborCellCa>) -> (r: Result<(), &'static str>)
    ensures
        outcome(neighbors_error(cells@), r),
{
    if cells.len() > 7 {
        return Err("cell.neighbor_cells_ca supports at most 7 entries");
    }
    let mut i: usize = 0;
    while i < cells.len()
        invariant
            i <= cells@.len() <= 7,
            duplicates_error(cells@.take(i as int)) is None,
        decreases cells@.len() - i,
    {
        proof {
            assert(cells@.take(i + 1).drop_last() =~= cells@.take(i as int));
            lemma_duplicate_error_at_prefix(cells@, i + 1, i as int);
        }
        match check_duplicate_at(cells, i) {
            Ok(()) => {},
            Err(e) => {
                assert(cells@.take(cells@.len() as int) =~= cells@);
                proof { lemma_duplicates_error_extends(cells@, i as int + 1); }
                return Err(e);
            },
        }
        i = i + 1;
    }
    assert(cells@.take(cells@.len() as int) =~= cells@);
    let mut i: usize = 0;
    while i < cells.len()
        invariant
            i <= cells@.len() <= 7,
            duplicates_error(cells@) is None,
            neighbor_fields_error(cells@.take(i as int)) is None,
        decreases cells@.len() - i,
    {
        assert(cells@.take(i + 1).drop_last() =~= cells@.take(i as int));
        assert(cells@.take(i + 1).last() == cells@[i as int]);
        match check_neighbor_fields(&cells[i]) {
            Ok(()) => {},
            Err(e) => {
                proof { lemma_neighbor_fields_error_extends(cells@, i as int + 1); }
                return Err(e);
            },
        }
        i = i + 1;
    }
    assert(cells@.take(cells@.len() as int) =~= cells@);
    Ok(())
}

/// An error found in a prefix of the list is the error of the whole list.
proof fn lemma_duplicates_error_extends(cells: Seq<CfgNeighborCellCa>, n: int)
    requires
        0 <= n <= cells.len(),
        duplicates_error(cells.take(n)) is Some,
    ensures
        duplicates_error(cells) == duplicates_error(cells.take(n)),
    decreases cells.len() - n,
{
    if n < cells.len() {
        assert(cells.take(n + 1).drop_last() =~= cells.take(n));
        lemma_duplicates_error_extends(cells, n + 1);
    } else {
        assert(cells.take(n) =~= cells);
    }
}

/// An error found in a prefix of the list is the error of the whole list.
proof fn lemma_neighbor_fields_error_extends(cells: Seq<CfgNeighborCellCa>, n: int)
    requires
        0 <= n <= cells.len(),
        neighbor_fields_error(cells.take(n)) is Some,
    ensures
        neighbor_fields_error(cells) == neighbor_fields_error(cells.take(n)),
    decreases cells.len() - n,
{
    if n < cells.len() {
        assert(cells.take(n + 1).drop_last() =~= cells.take(n));
        lemma_neighbor_fields_error_extends(cells, n + 1);
    } else {
        assert(cells.take(n) =~= cells);
    }
}

/// Whether `name` is a time zone name that `chrono_tz` knows.
pub uninterp spec fn timezone_name_known(name: Seq<char>) -> bool;

/// Calls `<chrono_tz::Tz as FromStr>::from_str`, which looks `name` up, exactly as
/// written, in the IANA zone table built into that crate. The result depends on
/// `name` alone and is named, not stated.
#[verifier::external_body]
fn parse_timezone(name: &str) -> (r: bool)
    ensures
        r == timezone_name_known(name@),
{
    name.parse::<chrono_tz::Tz>().is_ok()
}

/// The first error of the cell configuration, given whether its time zone
/// name, if one is set, is known.
pub open spec fn cell_config_error(c: CfgCellInfo, timezone_known: bool) -> Option<Seq<char>> {
    first_error(
        carrier_error(c),
        first_error(
            packet_profile_error(c),
            first_error(
                wap_ip_error(c.wap_ip),
                first_error(
                    gateway_error(c, pool_prefix_spec(c.wap_ip.dynamic_pool_prefix@)->0),
                    first_error(
                        if c.timezone is Some && !timezone_known {
                            Some("Invalid IANA timezone name in cell.timezone"@)
                        } else {
                            None
                        },
                        neighbors_error(c.neighbor_cells_ca@),
                    ),
                ),
            ),
        ),
    )
}

/// Checks the cell configuration, given whether its time zone name, if one is
/// set, is known.
pub fn check_cell_config(c: &CfgCellInfo, timezone_known: bool) -> (r: Result<(), &'static str>)
    ensures
        outcome(cell_config_error(*c, timezone_known), r),
{
    check_carrier(c)?;
    check_packet_profile(c)?;
    let pool = check_wap_ip(&c.wap_ip)?;
    check_gateway(c, pool)?;
    if c.timezone.is_some() && !timezone_known {
        return Err("Invalid IANA timezone name in cell.timezone");
    }
    check_neighbors(&c.neighbor_cells_ca)
}

/// Two Brew bridges configured together must each have a non-empty local ISSI
/// allowlist, and the effective allowlists must be non-empty and disjoint.
pub open spec fn brew_pair_error(brew: Option<CfgBrew>, brew2: Option<CfgBrew>) -> Option<Seq<char>> {
    match (brew, brew2) {
        (Some(a), Some(b)) => {
            if !(a.local_issi_allowlist matches Some(l) && l@.len() > 0) || !(
            b.local_issi_allowlist matches Some(l) && l@.len() > 0) {
                Some("brew and brew2 require non-empty local_issi_allowlist when both are configured"@)
            } else {
                let ea = effective_allowlist(a.local_issi_allowlist->0@, a.local_issi_blocklist@);
                let eb = effective_allowlist(b.local_issi_allowlist->0@, b.local_issi_blocklist@);
                if ea.len() == 0 || eb.len() == 0 {
                    Some("brew and brew2 effective local_issi_allowlist must not be empty"@)
                } else if exists|i: int| 0 <= i < eb.len() && ea.contains(#[trigger] eb[i]) {
                    Some("brew and brew2 local_issi_allowlist must not overlap"@)
                } else {
                    None
                }
            }
        },
        _ => None,
    }
}

fn contains_u32(v: &Vec<u32>, x: u32) -> (r: bool)
    ensures
        r == v@.contains(x),
{
    let mut j: usize = 0;
    while j < v.len()
        invariant
            j <= v@.len(),
            forall|k: int| 0 <= k < j ==> v@[k] != x,
        decreases v@.len() - j,
    {
        if v[j] == x {
            assert(v@[j as int] == x);
            return true;
        }
        j = j + 1;
    }
    false
}

fn lists_overlap(a: &Vec<u32>, b: &Vec<u32>) -> (r: bool)
    ensures
        r == exists|i: int| 0 <= i < b@.len() && a@.contains(#[trigger] b@[i]),
{
    let mut i: usize = 0;
    while i < b.len()
        invariant
            i <= b@.len(),
            forall|k: int| 0 <= k < i ==> !a@.contains(#[trigger] b@[k]),
        decreases b@.len() - i,
    {
        if contains_u32(a, b[i]) {
            return true;
        }
        i = i + 1;
    }
    false
}

/// Checks a pair of Brew bridge configurations.
pub fn check_brew_pair(brew: &Option<CfgBrew>, brew2: &Option<CfgBrew>) -> (r: Result<(), &'static str>)
    ensures
        outcome(brew_pair_error(*brew, *brew2), r),
{
    match (brew, brew2) {
        (Some(a), Some(b)) => {
            if !a.has_local_issi_allowlist() || !b.has_local_issi_allowlist() {
                return Err("brew and brew2 require non-empty local_issi_allowlist when both are configured");
            }
            let ea = match a.effective_local_issi_allowlist() {
                Some(e) => e,
                None => {
                    return Err("brew local_issi_allowlist is required when brew2 is configured");
                },
            };
            let eb = match b.effective_local_issi_allowlist() {
                Some(e) => e,
                None => {
                    return Err("brew2 local_issi_allowlist is required when brew is configured");
                },
            };
            if ea.len() == 0 || eb.len() == 0 {
                return Err("brew and brew2 effective local_issi_allowlist must not be empty");
            }
            if lists_overlap(&ea, &eb) {
                return Err("brew and brew2 local_issi_allowlist must not overlap");
            }
            Ok(())
        },
        _ => Ok(()),
    }
}

/// The physical-layer backend of the stack.
#[derive(Clone, Copy, Debug, PartialEq, Eq, Structural)]
pub enum PhyBackend {
    /// No backend chosen in the configuration.
    Undefined,
    /// No radio at all, for testing (`None` in the configuration file).
    NoRadio,
    /// A SoapySDR radio.
    SoapySdr,
}

/// The physical-layer I/O section, as far as the checks read it: the backend,
/// and whether the SoapySDR section is given.
pub struct CfgPhyIo {
    pub backend: PhyBackend,
    pub soapysdr_configured: bool,
}

/// Restart recovery, as far as the checks read it: whether it is on, the
/// explicit ISSI allowlist and the cap on cached ISSIs.
pub struct CfgRecovery {
    pub enabled: bool,
    pub issi_allowlist: Vec<u32>,
    pub max_cached_issis: u32,
}

/// The error of the PHY I/O section.
pub open spec fn phy_error(p: CfgPhyIo) -> Option<Seq<char>> {
    match p.backend {
        PhyBackend::SoapySdr => if !p.soapysdr_configured {
            Some("soapysdr configuration must be provided for Soapysdr backend"@)
        } else {
            None
        },
        PhyBackend::NoRadio => None,
        PhyBackend::Undefined => Some("phy_io backend must be defined"@),
    }
}

fn check_phy(p: &CfgPhyIo) -> (r: Result<(), &'static str>)
    ensures
        outcome(phy_error(*p), r),
{
    match p.backend {
        PhyBackend::SoapySdr => if !p.soapysdr_configured {
            Err("soapysdr configuration must be provided for Soapysdr backend")
        } else {
            Ok(())
        },
        PhyBackend::NoRadio => Ok(()),
        PhyBackend::Undefined => Err("phy_io backend must be defined"),
    }
}

/// The error of the restart recovery section: an explicit allowlist that is
/// longer than the cache cap, while recovery is on.
pub open spec fn recovery_error(r: CfgRecovery) -> Option<Seq<char>> {
    if r.enabled && r.issi_allowlist@.len() > 0 && (r.issi_allowlist@.len() as u32) > r.max_cached_issis {
        Some("recovery.issi_allowlist has more entries than recovery.max_cached_issis"@)
    } else {
        None
    }
}

fn check_recovery(r: &CfgRecovery) -> (res: Result<(), &'static str>)
    ensures
        outcome(recovery_error(*r), res),
{
    if r.enabled && r.issi_allowlist.len() > 0 && (r.issi_allowlist.len() as u32) > r.max_cached_issis {
        Err("recovery.issi_allowlist has more entries than recovery.max_cached_issis")
    } else {
        Ok(())
    }
}

/// The secondary carrier check, which comes before the SoapySDR checks.
pub open spec fn secondary_carrier_error(c: CfgCellInfo) -> Option<Seq<char>> {
    if c.secondary_carrier == Some(c.main_carrier) {
        Some("cell.secondary_carrier must differ from cell.main_carrier"@)
    } else {
        None
    }
}

/// The stack configuration: the stack role and the configuration sections.
pub struct StackConfig {
    pub stack_mode: StackMode,
    pub debug_log: Option<String>,
    /// Optional explicit systemd service unit name (e.g. "tetra", "bluestation"),
    /// used by SDS command control (restart/shutdown).
    pub service_name: Option<String>,
    pub net: CfgNetInfo,
    pub phy_io: CfgPhyIo,
    pub cell: CfgCellInfo,
    /// Restart recovery of the radio picture.
    pub recovery: CfgRecovery,
    /// Brew protocol (TetraPack/BrandMeister) configuration.
    pub brew: Option<CfgBrew>,
    /// Optional secondary Brew protocol bridge.
    pub brew2: Option<CfgBrew>,
    /// Asterisk SIP/RTP bridge configuration.
    pub asterisk: CfgAsterisk,
    /// EchoLink bridge configuration.
    pub echolink: CfgEcholink,
    /// Local WAV/MP3 TETRA audio dispatch configuration.
    pub audio_player: CfgAudioPlayer,
    /// NetCore Control-Room endpoint configuration.
    pub control_room: Option<CfgControlRoom>,
    /// Automatic local autonomy when the Node Gateway or core services are unavailable.
    pub edge_fallback: CfgEdgeFallback,
}

/// The first error of a stack configuration, given whether the cell's time
/// zone name, if one is set, is known, and the first error of the SoapySDR
/// frequency-plan checks, if any, which only a SoapySDR backend makes.
pub open spec fn stack_config_error(cfg: StackConfig, timezone_known: bool, soapy_error: Option<Seq<char>>) -> Option<
    Seq<char>,
> {
    first_error(
        phy_error(cfg.phy_io),
        first_error(
            secondary_carrier_error(cfg.cell),
            first_error(
                if cfg.phy_io.backend == PhyBackend::SoapySdr {
                    soapy_error
                } else {
                    None
                },
                first_error(
                    cell_config_error(cfg.cell, timezone_known),
                    first_error(recovery_error(cfg.recovery), brew_pair_error(cfg.brew, cfg.brew2)),
                ),
            ),
        ),
    )
}

impl StackConfig {
    /// Whether the cell's time zone name, if one is set, is known.
    pub open spec fn timezone_ok(&self) -> bool {
        match self.cell.timezone {
            Some(t) => timezone_name_known(t@),
            None => true,
        }
    }

    /// Validates the configuration, given whether the cell's time zone name,
    /// if one is set, is known, and the outcome of the SoapySDR frequency-plan
    /// checks (that the configured frequencies match the computed carriers
    /// and that the passband covers them), which a SoapySDR backend adds.
    pub fn validate_given(&self, timezone_known: bool, soapy_check: Result<(), &'static str>) -> (r: Result<
        (),
        &'static str,
    >)
        ensures
            outcome(
                stack_config_error(
                    *self,
                    timezone_known,
                    match soapy_check {
                        Ok(()) => None,
                        Err(e) => Some(e@),
                    },
                ),
                r,
            ),
    {
        check_phy(&self.phy_io)?;
        if let Some(secondary) = self.cell.secondary_carrier {
            if secondary == self.cell.main_carrier {
                return Err("cell.secondary_carrier must differ from cell.main_carrier");
            }
        }
        if self.phy_io.backend == PhyBackend::SoapySdr {
            soapy_check?;
        }
        check_cell_config(&self.cell, timezone_known)?;
        check_recovery(&self.recovery)?;
        check_brew_pair(&self.brew, &self.brew2)
    }

    /// Validates the configuration, given whether the cell's time zone name,
    /// if one is set, is known. The SoapySDR frequency-plan checks are not
    /// made here: they are floating-point work on the carrier table of the
    /// frequency crate, and a caller with a SoapySDR backend hands their
    /// outcome to `validate_given`.
    pub fn validate_given_timezone(&self, timezone_known: bool) -> (r: Result<(), &'static str>)
        ensures
            outcome(stack_config_error(*self, timezone_known, None), r),
    {
        self.validate_given(timezone_known, Ok(()))
    }

    /// Validate that all configuration fields are consistent, all but the
    /// SoapySDR frequency-plan checks (see `validate_given`).
    pub fn validate(&self) -> (r: Result<(), &'static str>)
        ensures
            outcome(stack_config_error(*self, self.timezone_ok(), None), r),
    {
        let known = match &self.cell.timezone {
            Some(t) => parse_timezone(t.as_str()),
            None => true,
        };
        self.validate_given_timezone(known)
    }
}

} // verus!
