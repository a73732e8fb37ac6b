//! NetCore Node-Gateway / Core endpoint configuration of a base station.
use vstd::prelude::*;
use crate::text::{chars_of, lit, trim, trim_seq};

verus! {

/// NetCore Node-Gateway/Core node endpoint configuration.
///
/// In the distributed topology the TBS connects to the Node Gateway, which
/// forwards commands and telemetry and publishes the per-service health
/// matrix used by edge fallback.
#[derive(Debug, Clone)]
pub struct CfgControlRoom {
    /// Master switch. A present section defaults to enabled=true.
    pub enabled: bool,
    /// Node-Gateway/Core hostname or IP.
    pub host: String,
    /// Node-Gateway/Core port.
    pub port: u16,
    /// Use TLS (wss://).
    pub use_tls: bool,
    /// HTTP path for the node WebSocket endpoint. Default: "/ws/node".
    pub endpoint_path: String,
    /// Optional path to a DER-encoded CA certificate for self-signed TLS.
    pub ca_cert: Option<String>,
    /// Optional HTTP Basic Auth credentials; for token auth, ("node", token).
    pub credentials: Option<(String, String)>,
    /// Stable node id.
    pub node_id: Option<String>,
    /// Human readable station name shown in the Leitstelle.
    pub station_name: Option<String>,
    /// Optional site/location label.
    pub site: Option<String>,
    /// Route ordinary SDS/STATUS ingress through the central SDS Router.
    pub central_sds_routing: bool,
}

/// The `[control_room]` section as read from the configuration file.
#[derive(Debug, Default)]
pub struct CfgControlRoomDto {
    pub enabled: Option<bool>,
    pub host: Option<String>,
    pub port: Option<u16>,
    pub use_tls: bool,
    pub endpoint_path: Option<String>,
    pub ca_cert: Option<String>,
    pub username: Option<String>,
    pub password: Option<String>,
    /// Convenience token; sent as Basic password with username "node".
    pub token: Option<String>,
    /// Alias for token.
    pub auth_token: Option<String>,
    pub node_id: Option<String>,
    pub station_name: Option<String>,
    pub site: Option<String>,
    pub central_sds_routing: bool,
    pub extra_keys: Vec<String>,
}

/// The token that a section gives: `auth_token`, else `token`, trimmed; none when blank.
pub open spec fn control_room_token(src: CfgControlRoomDto) -> Option<Seq<char>> {
    let raw = if src.auth_token is Some { src.auth_token } else { src.token };
    match raw {
        Some(t) => if trim_seq(t@).len() == 0 { None } else { Some(trim_seq(t@)) },
        None => None,
    }
}

/// The first reason for which a `[control_room]` section is refused, if any.
pub open spec fn control_room_patch_error(src: CfgControlRoomDto) -> Option<Seq<char>> {
    let enabled = src.enabled.unwrap_or(true);
    let token = control_room_token(src);
    let endpoint = match src.endpoint_path {
        Some(p) => p@,
        None => "/ws/node"@,
    };
    if src.ca_cert is Some && !src.use_tls {
        Some("control_room: ca_cert requires use_tls = true"@)
    } else if src.username is Some && src.password is Some && token is Some {
        Some("control_room: use either username/password or token/auth_token, not both"@)
    } else if !((src.username is Some && src.password is Some && token is None) || (src.username is None
        && src.password is None)) {
        Some("control_room: username and password must be set together, or use token/auth_token"@)
    } else if enabled && !(src.host matches Some(h) && trim_seq(h@).len() > 0) {
        Some("control_room: host is required when enabled"@)
    } else if enabled && !(src.port matches Some(p) && p > 0) {
        Some("control_room: port is required and must be > 0 when enabled"@)
    } else if !(endpoint.len() > 0 && endpoint[0] == '/') {
        Some("control_room: endpoint_path must start with '/'"@)
    } else {
        None
    }
}

/// The endpoint configuration that an accepted `[control_room]` section yields.
pub open spec fn control_room_from_dto(src: CfgControlRoomDto, cfg: CfgControlRoom) -> bool {
    let token = control_room_token(src);
    &&& cfg.enabled == src.enabled.unwrap_or(true)
    &&& cfg.host@ == (match src.host {
        Some(h) => h@,
        None => Seq::<char>::empty(),
    })
    &&& cfg.port == src.port.unwrap_or(0)
    &&& cfg.use_tls == src.use_tls
    &&& cfg.endpoint_path@ == (match src.endpoint_path {
        Some(p) => p@,
        None => "/ws/node"@,
    })
    &&& cfg.ca_cert == src.ca_cert
    &&& (match cfg.credentials {
        Some((u, p)) => (src.username matches Some(su) && src.password matches Some(sp) && u == su
            && p == sp) || (src.username is None && token == Some(p@) && u@ == "node"@),
        None => src.username is None && src.password is None && token is None,
    })
    &&& cfg.node_id == src.node_id
    &&& cfg.station_name == src.station_name
    &&& cfg.site == src.site
    &&& cfg.central_sds_routing == src.central_sds_routing
}

/// Checks a `[control_room]` section and builds the endpoint configuration from it.
pub fn apply_control_room_patch(src: CfgControlRoomDto) -> (r: Result<CfgControlRoom, String>)
    ensures
        match r {
            Ok(cfg) => control_room_patch_error(src) is None && control_room_from_dto(src, cfg),
            Err(e) => control_room_patch_error(src) == Some(e@),
        },
{
    let enabled = match src.enabled {
        Some(v) => v,
        None => true,
    };
    if src.ca_cert.is_some() && !src.use_tls {
        return Err(lit("control_room: ca_cert requires use_tls = true"));
    }
    let raw_token = if src.auth_token.is_some() { src.auth_token } else { src.token };
    let token: Option<String> = match raw_token {
        Some(v) => {
            let t = trim(v.as_str());
            if t.as_str().is_empty() {
                None
            } else {
                Some(t)
            }
        },
        None => None,
    };
    let credentials: Option<(String, String)> = match (src.username, src.password, token) {
        (Some(u), Some(p), None) => Some((u, p)),
        (None, None, Some(t)) => Some((lit("node"), t)),
        (None, None, None) => None,
        (Some(_), Some(_), Some(_)) => {
            return Err(lit("control_room: use either username/password or token/auth_token, not both"));
        },
        _ => {
            return Err(
                lit("control_room: username and password must be set together, or use token/auth_token"),
            );
        },
    };
    let host = match src.host {
        Some(h) => {
            let hv = trim(h.as_str());
            if enabled && hv.as_str().is_empty() {
                return Err(lit("control_room: host is required when enabled"));
            }
            h
        },
        None => {
            if enabled {
                return Err(lit("control_room: host is required when enabled"));
            }
            String::new()
        },
    };
    let port = match src.port {
        Some(p) => {
            if enabled && p == 0 {
                return Err(lit("control_room: port is required and must be > 0 when enabled"));
            }
            p
        },
        None => {
            if enabled {
                return Err(lit("control_room: port is required and must be > 0 when enabled"));
            }
            0
        },
    };
    let endpoint_path = match src.endpoint_path {
        Some(p) => p,
        None => lit("/ws/node"),
    };
    let ev = chars_of(endpoint_path.as_str());
    if !(ev.len() > 0 && ev[0] == '/') {
        return Err(lit("control_room: endpoint_path must start with '/'"));
    }
    Ok(CfgControlRoom {
        enabled,
        host,
        port,
        use_tls: src.use_tls,
        endpoint_path,
        ca_cert: src.ca_cert,
        credentials,
        node_id: src.node_id,
        station_name: src.station_name,
        site: src.site,
        central_sds_routing: src.central_sds_routing,
    })
}

} // verus!
