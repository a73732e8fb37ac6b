//! EchoLink bridge configuration: credentials, local ports and deterministic
//! TETRA routing of dial strings.
use vstd::prelude::*;
use crate::secret::SecretField;
use crate::text::{
    lit, trim, trim_seq, trim_upper, trimmed_nonempty, trimmed_nonempty_seq, upper_seq,
};
use crate::text_map::TextMap;

verus! {

/// EchoLink bridge configuration. Disabled by default.
pub struct CfgEcholink {
    pub enabled: bool,
    pub callsign: String,
    pub password: SecretField,
    pub location: String,
    pub status_text: String,
    pub directory_servers: Vec<String>,
    pub directory_port: u16,
    pub bind_addr: String,
    pub audio_port: u16,
    pub control_port: u16,
    pub inbound_enabled: bool,
    pub outbound_enabled: bool,
    pub outbound_prefix: String,
    pub strip_outbound_prefix: bool,
    pub service_numbers: Vec<String>,
    pub default_tetra_source_issi: u32,
    pub default_tetra_dest_issi: u32,
    pub default_tetra_dest_is_group: bool,
    pub routes: TextMap,
    pub allowed_callsigns: Vec<String>,
    pub allowed_node_ids: Vec<u32>,
    pub auto_connect: String,
    pub reconnect_interval_secs: u64,
    pub max_session_secs: u64,
}

/// The `[echolink]` section as read from the configuration file. `routes`
/// lists the dial → target pairs in the order in which they were read.
#[derive(Debug, Clone)]
pub struct CfgEcholinkDto {
    pub enabled: bool,
    pub callsign: String,
    pub password: String,
    pub location: String,
    pub status_text: String,
    pub directory_servers: Vec<String>,
    pub directory_port: u16,
    pub bind_addr: String,
    pub audio_port: u16,
    pub control_port: u16,
    pub inbound_enabled: bool,
    pub outbound_enabled: bool,
    pub outbound_prefix: String,
    pub strip_outbound_prefix: bool,
    pub service_numbers: Vec<String>,
    pub default_tetra_source_issi: u32,
    pub default_tetra_dest_issi: u32,
    pub default_tetra_dest_is_group: bool,
    pub routes: Vec<(String, String)>,
    pub allowed_callsigns: Vec<String>,
    pub allowed_node_ids: Vec<u32>,
    pub auto_connect: String,
    pub reconnect_interval_secs: u64,
    pub max_session_secs: u64,
    pub extra_keys: Vec<String>,
}

pub fn default_true() -> (r: bool)
    ensures
        r,
{
    true
}

pub fn default_location() -> (r: String)
    ensures
        r@ == "FlowStation"@,
{
    lit("FlowStation")
}

pub fn default_status_text() -> (r: String)
    ensures
        r@ == "FlowStation EchoLink bridge"@,
{
    lit("FlowStation EchoLink bridge")
}

pub fn default_directory_servers() -> (r: Vec<String>)
    ensures
        r.deep_view() == seq!["servers.echolink.org"@, "backup.echolink.org"@],
{
    let mut v: Vec<String> = Vec::new();
    v.push(lit("servers.echolink.org"));
    v.push(lit("backup.echolink.org"));
    assert(v.deep_view() =~= seq!["servers.echolink.org"@, "backup.echolink.org"@]);
    v
}

pub fn default_directory_port() -> (r: u16)
    ensures
        r == 5200,
{
    5200
}

pub fn default_bind_addr() -> (r: String)
    ensures
        r@ == "0.0.0.0"@,
{
    lit("0.0.0.0")
}

pub fn default_audio_port() -> (r: u16)
    ensures
        r == 5198,
{
    5198
}

pub fn default_control_port() -> (r: u16)
    ensures
        r == 5199,
{
    5199
}

pub fn default_outbound_prefix() -> (r: String)
    ensures
        r@ == "92"@,
{
    lit("92")
}

pub fn default_strip_outbound_prefix() -> (r: bool)
    ensures
        r,
{
    true
}

pub fn default_tetra_source_issi() -> (r: u32)
    ensures
        r == 4010001,
{
    4010001
}

pub fn default_reconnect_interval_secs() -> (r: u64)
    ensures
        r == 30,
{
    30
}

pub fn default_max_session_secs() -> (r: u64)
    ensures
        r == 3600,
{
    3600
}

impl Default for CfgEcholinkDto {
    fn default() -> (r: CfgEcholinkDto)
        ensures
            !r.enabled,
            r.callsign@.len() == 0,
            r.password@.len() == 0,
            r.location@ == "FlowStation"@,
            r.status_text@ == "FlowStation EchoLink bridge"@,
            r.directory_servers.deep_view() == seq!["servers.echolink.org"@, "backup.echolink.org"@],
            r.directory_port == 5200,
            r.bind_addr@ == "0.0.0.0"@,
            r.audio_port == 5198,
            r.control_port == 5199,
            r.inbound_enabled,
            r.outbound_enabled,
            r.outbound_prefix@ == "92"@,
            r.strip_outbound_prefix,
            r.service_numbers@.len() == 0,
            r.default_tetra_source_issi == 4010001,
            r.default_tetra_dest_issi == 0,
            !r.default_tetra_dest_is_group,
            r.routes@.len() == 0,
            r.allowed_callsigns@.len() == 0,
            r.allowed_node_ids@.len() == 0,
            r.auto_connect@.len() == 0,
            r.reconnect_interval_secs == 30,
            r.max_session_secs == 3600,
            r.extra_keys@.len() == 0,
    {
        CfgEcholinkDto {
            enabled: false,
            callsign: String::new(),
            password: String::new(),
            location: default_location(),
            status_text: default_status_text(),
            directory_servers: default_directory_servers(),
            directory_port: default_directory_port(),
            bind_addr: default_bind_addr(),
            audio_port: default_audio_port(),
            control_port: default_control_port(),
            inbound_enabled: default_true(),
            outbound_enabled: default_true(),
            outbound_prefix: default_outbound_prefix(),
            strip_outbound_prefix: default_strip_outbound_prefix(),
            service_numbers: Vec::new(),
            default_tetra_source_issi: default_tetra_source_issi(),
            default_tetra_dest_issi: 0,
            default_tetra_dest_is_group: false,
            routes: Vec::new(),
            allowed_callsigns: Vec::new(),
            allowed_node_ids: Vec::new(),
            auto_connect: String::new(),
            reconnect_interval_secs: default_reconnect_interval_secs(),
            max_session_secs: default_max_session_secs(),
            extra_keys: Vec::new(),
        }
    }
}

/// An EchoLink target in canonical form: trimmed and upper-cased.
pub fn normalize_echolink_target(target: &str) -> (r: String)
    ensures
        r@ == upper_seq(trim_seq(target@)),
{
    trim_upper(target)
}

fn normalize_callsign(callsign: &str) -> (r: String)
    ensures
        r@ == upper_seq(trim_seq(callsign@)),
{
    trim_upper(callsign)
}

/// The callsigns of `l` in canonical form, blank ones dropped, in order.
pub open spec fn callsigns_seq(l: Seq<Seq<char>>) -> Seq<Seq<char>>
    decreases l.len(),
{
    if l.len() == 0 {
        seq![]
    } else {
        let t = upper_seq(trim_seq(l.last()));
        if t.len() == 0 {
            callsigns_seq(l.drop_last())
        } else {
            callsigns_seq(l.drop_last()).push(t)
        }
    }
}

fn normalize_string_list(values: &Vec<String>, callsigns: bool) -> (r: Vec<String>)
    ensures
        r.deep_view() == (if callsigns {
            callsigns_seq(values.deep_view())
        } else {
            trimmed_nonempty_seq(values.deep_view())
        }),
{
    if !callsigns {
        return trimmed_nonempty(values);
    }
    let mut out: Vec<String> = Vec::new();
    let mut i: usize = 0;
    while i < values.len()
        invariant
            i <= values.len(),
            out.deep_view() == callsigns_seq(values.deep_view().take(i as int)),
        decreases values.len() - i,
    {
        let t = normalize_callsign(values[i].as_str());
        let ghost before = out.deep_view();
        assert(values.deep_view().take(i + 1).drop_last() =~= values.deep_view().take(i as int));
        assert(values.deep_view().take(i + 1).last() == values[i as int]@);
        if !t.as_str().is_empty() {
            out.push(t);
            assert(out.deep_view() =~= before.push(upper_seq(trim_seq(values[i as int]@))));
        }
        i = i + 1;
    }
    assert(values.deep_view().take(values.len() as int) =~= values.deep_view());
    out
}

/// A route pair that is refused: its dial or its target is blank once normalised.
pub open spec fn route_invalid(p: (String, String)) -> bool {
    trim_seq(p.0@).len() == 0 || upper_seq(trim_seq(p.1@)).len() == 0
}

/// The route table that a list of pairs yields, each normalised and inserted in turn.
pub open spec fn routes_map(s: Seq<(String, String)>) -> Map<Seq<char>, Seq<char>>
    decreases s.len(),
{
    if s.len() == 0 {
        Map::empty()
    } else {
        routes_map(s.drop_last()).insert(trim_seq(s.last().0@), upper_seq(trim_seq(s.last().1@)))
    }
}

fn normalize_routes(routes: &Vec<(String, String)>) -> (r: Result<TextMap, String>)
    ensures
        match r {
            Ok(m) => (forall|i: int| 0 <= i < routes@.len() ==> !route_invalid(#[trigger] routes@[i]))
                && m.view() == routes_map(routes@),
            Err(e) => (exists|i: int| 0 <= i < routes@.len() && route_invalid(#[trigger] routes@[i]))
                && e@ == "echolink.routes: dial keys and targets cannot be empty"@,
        },
{
    let mut out = TextMap::new();
    let mut i: usize = 0;
    while i < routes.len()
        invariant
            i <= routes@.len(),
            forall|k: int| 0 <= k < i ==> !route_invalid(#[trigger] routes@[k]),
            out.view() == routes_map(routes@.take(i as int)),
        decreases routes@.len() - i,
    {
        let dial = trim(routes[i].0.as_str());
        let target = normalize_echolink_target(routes[i].1.as_str());
        if dial.as_str().is_empty() || target.as_str().is_empty() {
            assert(route_invalid(routes@[i as int]));
            return Err(lit("echolink.routes: dial keys and targets cannot be empty"));
        }
        out.insert(dial, target);
        assert(routes@.take(i + 1).drop_last() =~= routes@.take(i as int));
        i = i + 1;
    }
    assert(routes@.take(routes@.len() as int) =~= routes@);
    Ok(out)
}

/// The first reason for which an `[echolink]` section is refused, if any.
pub open spec fn echolink_patch_error(src: CfgEcholinkDto) -> Option<Seq<char>> {
    if src.enabled && trim_seq(src.callsign@).len() == 0 {
        Some("echolink: callsign cannot be empty when enabled"@)
    } else if src.enabled && trim_seq(src.password@).len() == 0 {
        Some("echolink: password cannot be empty when enabled"@)
    } else if src.enabled && src.directory_port == 0 {
        Some("echolink: directory_port cannot be 0"@)
    } else if src.enabled && (src.audio_port == 0 || src.control_port == 0 || src.audio_port
        == src.control_port) {
        Some("echolink: audio_port/control_port must be distinct non-zero ports"@)
    } else if src.enabled && forall|i: int|
        0 <= i < src.directory_servers@.len() ==> trim_seq(
            #[trigger] src.directory_servers@[i]@,
        ).len() == 0 {
        Some("echolink: at least one directory server is required when enabled"@)
    } else if exists|i: int| 0 <= i < src.routes@.len() && route_invalid(#[trigger] src.routes@[i]) {
        Some("echolink.routes: dial keys and targets cannot be empty"@)
    } else {
        None
    }
}

/// The non-zero node ids of `l`, in order.
pub open spec fn nonzero_ids(l: Seq<u32>) -> Seq<u32> {
    l.filter(|id: u32| id > 0)
}

/// The bridge configuration that an accepted `[echolink]` section yields.
pub open spec fn echolink_from_dto(src: CfgEcholinkDto, cfg: CfgEcholink) -> bool {
    &&& cfg.enabled == src.enabled
    &&& cfg.callsign@ == upper_seq(trim_seq(src.callsign@))
    &&& cfg.password.val == src.password
    &&& cfg.location == src.location
    &&& cfg.status_text == src.status_text
    &&& cfg.directory_servers.deep_view() == trimmed_nonempty_seq(src.directory_servers.deep_view())
    &&& cfg.directory_port == src.directory_port
    &&& cfg.bind_addr == src.bind_addr
    &&& cfg.audio_port == src.audio_port
    &&& cfg.control_port == src.control_port
    &&& cfg.inbound_enabled == src.inbound_enabled
    &&& cfg.outbound_enabled == src.outbound_enabled
    &&& cfg.outbound_prefix == src.outbound_prefix
    &&& cfg.strip_outbound_prefix == src.strip_outbound_prefix
    &&& cfg.service_numbers.deep_view() == trimmed_nonempty_seq(src.service_numbers.deep_view())
    &&& cfg.default_tetra_source_issi == (if src.default_tetra_source_issi < 1 {
        1
    } else {
        src.default_tetra_source_issi
    })
    &&& cfg.default_tetra_dest_issi == src.default_tetra_dest_issi
    &&& !cfg.default_tetra_dest_is_group
    &&& cfg.routes.view() == routes_map(src.routes@)
    &&& cfg.allowed_callsigns.deep_view() == callsigns_seq(src.allowed_callsigns.deep_view())
    &&& cfg.allowed_node_ids@ == nonzero_ids(src.allowed_node_ids@)
    &&& cfg.auto_connect@ == upper_seq(trim_seq(src.auto_connect@))
    &&& cfg.reconnect_interval_secs == (if src.reconnect_interval_secs < 1 {
        1
    } else {
        src.reconnect_interval_secs
    })
    &&& cfg.max_session_secs == (if src.max_session_secs < 1 { 1 } else { src.max_session_secs })
}

fn is_blank(s: &str) -> (r: bool)
    ensures
        r == (trim_seq(s@).len() == 0),
{
    let t = trim(s);
    t.as_str().is_empty()
}

fn nonzero(ids: &Vec<u32>) -> (r: Vec<u32>)
    ensures
        r@ == nonzero_ids(ids@),
{
    let mut out: Vec<u32> = Vec::new();
    let mut i: usize = 0;
    while i < ids.len()
        invariant
            i <= ids.len(),
            out@ == ids@.take(i as int).filter(|id: u32| id > 0),
        decreases ids.len() - i,
    {
        reveal_with_fuel(Seq::<_>::filter, 1);
        assert(ids@.take(i + 1).drop_last() =~= ids@.take(i as int));
        if ids[i] > 0 {
            out.push(ids[i]);
        }
        i = i + 1;
    }
    assert(ids@.take(ids.len() as int) =~= ids@);
    out
}

/// Checks an `[echolink]` section and builds the bridge configuration from it.
pub fn apply_echolink_patch(src: CfgEcholinkDto) -> (r: Result<CfgEcholink, String>)
    ensures
        match r {
            Ok(cfg) => echolink_patch_error(src) is None && echolink_from_dto(src, cfg),
            Err(e) => echolink_patch_error(src) == Some(e@),
        },
{
    if src.enabled {
        if is_blank(src.callsign.as_str()) {
            return Err(lit("echolink: callsign cannot be empty when enabled"));
        }
        if is_blank(src.password.as_str()) {
            return Err(lit("echolink: password cannot be empty when enabled"));
        }
        if src.directory_port == 0 {
            return Err(lit("echolink: directory_port cannot be 0"));
        }
        if src.audio_port == 0 || src.control_port == 0 || src.audio_port == src.control_port {
            return Err(lit("echolink: audio_port/control_port must be distinct non-zero ports"));
        }
        let mut all_blank = true;
        let mut i: usize = 0;
        while i < src.directory_servers.len()
            invariant
                i <= src.directory_servers@.len(),
                all_blank == forall|k: int|
                    0 <= k < i ==> trim_seq(#[trigger] src.directory_servers@[k]@).len() == 0,
            decreases src.directory_servers@.len() - i,
        {
            if !is_blank(src.directory_servers[i].as_str()) {
                all_blank = false;
            }
            i = i + 1;
        }
        if all_blank {
            return Err(lit("echolink: at least one directory server is required when enabled"));
        }
    }
    let routes = match normalize_routes(&src.routes) {
        Ok(m) => m,
        Err(e) => {
            return Err(e);
        },
    };
    let service_numbers = normalize_string_list(&src.service_numbers, false);
    let allowed_callsigns = normalize_string_list(&src.allowed_callsigns, true);
    let allowed_node_ids = nonzero(&src.allowed_node_ids);
    let directory_servers = normalize_string_list(&src.directory_servers, false);
    let callsign = normalize_callsign(src.callsign.as_str());
    let auto_connect = normalize_echolink_target(src.auto_connect.as_str());
    Ok(CfgEcholink {
        enabled: src.enabled,
        callsign,
        password: SecretField::new(src.password),
        location: src.location,
        status_text: src.status_text,
        directory_servers,
        directory_port: src.directory_port,
        bind_addr: src.bind_addr,
        audio_port: src.audio_port,
        control_port: src.control_port,
        inbound_enabled: src.inbound_enabled,
        outbound_enabled: src.outbound_enabled,
        outbound_prefix: src.outbound_prefix,
        strip_outbound_prefix: src.strip_outbound_prefix,
        service_numbers,
        default_tetra_source_issi: if src.default_tetra_source_issi < 1 {
            1
        } else {
            src.default_tetra_source_issi
        },
        default_tetra_dest_issi: src.default_tetra_dest_issi,
        default_tetra_dest_is_group: false,
        routes,
        allowed_callsigns,
        allowed_node_ids,
        auto_connect,
        reconnect_interval_secs: if src.reconnect_interval_secs < 1 {
            1
        } else {
            src.reconnect_interval_secs
        },
        max_session_secs: if src.max_session_secs < 1 { 1 } else { src.max_session_secs },
    })
}

impl Default for CfgEcholink {
    /// The bridge configuration of an `[echolink]` section that sets nothing: disabled.
    fn default() -> (r: CfgEcholink)
        ensures
            !r.enabled,
            r.directory_port == 5200,
            r.audio_port == 5198,
            r.control_port == 5199,
            r.outbound_prefix@ == "92"@,
            r.default_tetra_source_issi == 4010001,
    {
        let dto = CfgEcholinkDto::default();
        assert(dto.routes@ =~= Seq::<(String, String)>::empty());
        apply_echolink_patch(dto).unwrap()
    }
}

} // verus!
