//! Local autonomy policy used when the base station cannot reach the NetCore
//! backend services, and the per-service fallback table that goes with it.
use vstd::prelude::*;
use crate::text_map::TextMap;
use crate::text::{
    chars_of, debug_list, debug_string_list, lemma_trim_noop, lit, lower_seq, push_str, sorted_set,
    sorted_set_seq, str_eq, trim, trim_lower, trim_seq, trimmed_nonempty, trimmed_nonempty_seq,
};

verus! {

/// Local autonomy policy used when the base station cannot reach the NetCore
/// backend services. Only the configured Node Gateway and the service-health
/// matrix matter, not Internet access.
#[derive(Debug)]
pub struct CfgEdgeFallback {
    /// Enable automatic online/degraded/isolated/recovering transitions.
    pub enabled: bool,
    /// How long a required service may be unavailable before the node enters fully isolated mode.
    pub enter_after_secs: u64,
    /// Continuous healthy time required before central routing is re-enabled.
    pub recover_after_secs: u64,
    /// Treat a service that has not yet reported health as available.
    pub unknown_service_is_available: bool,
    /// Maximum time without a fresh complete Node-Gateway health matrix before fallback.
    pub service_matrix_lease_secs: u64,
    /// Persisted last-known subscriber/group policy cache.
    pub policy_cache_path: String,
    /// Maximum cache age used for diagnostics.
    pub policy_cache_max_age_secs: u64,
    /// Keep the last-known central admission/group policy when stale.
    pub keep_last_known_policy: bool,
    /// Durable control-plane telemetry/SDS spool for replay after reconnect.
    pub event_spool_path: String,
    pub event_spool_max_entries: usize,
    pub event_spool_max_bytes: usize,
    pub replay_batch_size: usize,
    /// Services that must be healthy before central routing becomes authoritative again.
    pub required_services: Vec<String>,
    /// Service-specific fallback behaviour.
    pub service_fallbacks: TextMap,
}

/// The `[edge_fallback]` section as read from the configuration file.
/// `service_fallbacks` lists the table's pairs in the order in which they were read.
#[derive(Debug)]
pub struct CfgEdgeFallbackDto {
    pub enabled: Option<bool>,
    pub enter_after_secs: Option<u64>,
    pub recover_after_secs: Option<u64>,
    pub unknown_service_is_available: Option<bool>,
    pub service_matrix_lease_secs: Option<u64>,
    pub policy_cache_path: Option<String>,
    pub policy_cache_max_age_secs: Option<u64>,
    pub keep_last_known_policy: Option<bool>,
    pub event_spool_path: Option<String>,
    pub event_spool_max_entries: Option<usize>,
    pub event_spool_max_bytes: Option<usize>,
    pub replay_batch_size: Option<usize>,
    pub required_services: Option<Vec<String>>,
    pub service_fallbacks: Option<Vec<(String, String)>>,
    pub extra_keys: Vec<String>,
}

impl Default for CfgEdgeFallbackDto {
    fn default() -> (r: CfgEdgeFallbackDto)
        ensures
            r.enabled is None,
            r.enter_after_secs is None,
            r.recover_after_secs is None,
            r.unknown_service_is_available is None,
            r.service_matrix_lease_secs is None,
            r.policy_cache_path is None,
            r.policy_cache_max_age_secs is None,
            r.keep_last_known_policy is None,
            r.event_spool_path is None,
            r.event_spool_max_entries is None,
            r.event_spool_max_bytes is None,
            r.replay_batch_size is None,
            r.required_services is None,
            r.service_fallbacks is None,
            r.extra_keys@.len() == 0,
    {
        CfgEdgeFallbackDto {
            enabled: None,
            enter_after_secs: None,
            recover_after_secs: None,
            unknown_service_is_available: None,
            service_matrix_lease_secs: None,
            policy_cache_path: None,
            policy_cache_max_age_secs: None,
            keep_last_known_policy: None,
            event_spool_path: None,
            event_spool_max_entries: None,
            event_spool_max_bytes: None,
            replay_batch_size: None,
            required_services: None,
            service_fallbacks: None,
            extra_keys: Vec::new(),
        }
    }
}

/// The fallback modes that the configuration falls back to, as pairs.
pub open spec fn default_fallback_pairs_seq() -> Seq<(Seq<char>, Seq<char>)> {
    seq![
        ("node-gateway"@, "local_edge_autonomy"@),
        ("subscriber-core"@, "cached_policy_then_static_config"@),
        ("group-core"@, "cached_policy_then_local_affiliations"@),
        ("mobility-core"@, "local_registration_and_location_area"@),
        ("call-control"@, "local_cell_calls_only"@),
        ("media-switch"@, "local_air_interface_media_only"@),
        ("recorder"@, "local_recorder_continues"@),
        ("sds-router"@, "local_delivery_and_durable_store_forward"@),
        ("packet-core"@, "local_sndcp_contexts"@),
        ("ip-gateway"@, "local_tun_gateway_when_configured"@),
        ("security-core"@, "last_known_security_policy_no_downgrade"@),
        ("kmf"@, "installed_keys_only_no_otar"@),
        ("transit"@, "no_inter_region_routing"@),
        ("control-room"@, "local_dashboard_and_audit"@),
        ("observability"@, "local_logs_and_health_continue"@),
        ("application-gateway"@, "local_integrations_only"@),
        ("media-library"@, "local_media_cache_and_playout"@),
    ]
}

/// The services required by default.
pub open spec fn default_required_seq() -> Seq<Seq<char>> {
    seq![
        "subscriber-core"@,
        "group-core"@,
        "mobility-core"@,
        "call-control"@,
        "media-switch"@,
        "sds-router"@,
    ]
}

/// The pairs as character sequences.
pub open spec fn pair_views(v: Seq<(String, String)>) -> Seq<(Seq<char>, Seq<char>)> {
    v.map_values(|p: (String, String)| (p.0@, p.1@))
}

/// The table that a list of pairs yields, each inserted in turn.
pub open spec fn seq_pairs_map(s: Seq<(Seq<char>, Seq<char>)>) -> Map<Seq<char>, Seq<char>>
    decreases s.len(),
{
    if s.len() == 0 {
        Map::empty()
    } else {
        seq_pairs_map(s.drop_last()).insert(s.last().0, s.last().1)
    }
}

pub fn default_fallback_pairs() -> (r: Vec<(String, String)>)
    ensures
        pair_views(r@) == default_fallback_pairs_seq(),
{
    let mut v: Vec<(String, String)> = Vec::new();
    v.push((lit("node-gateway"), lit("local_edge_autonomy")));
    v.push((lit("subscriber-core"), lit("cached_policy_then_static_config")));
    v.push((lit("group-core"), lit("cached_policy_then_local_affiliations")));
    v.push((lit("mobility-core"), lit("local_registration_and_location_area")));
    v.push((lit("call-control"), lit("local_cell_calls_only")));
    v.push((lit("media-switch"), lit("local_air_interface_media_only")));
    v.push((lit("recorder"), lit("local_recorder_continues")));
    v.push((lit("sds-router"), lit("local_delivery_and_durable_store_forward")));
    v.push((lit("packet-core"), lit("local_sndcp_contexts")));
    v.push((lit("ip-gateway"), lit("local_tun_gateway_when_configured")));
    v.push((lit("security-core"), lit("last_known_security_policy_no_downgrade")));
    v.push((lit("kmf"), lit("installed_keys_only_no_otar")));
    v.push((lit("transit"), lit("no_inter_region_routing")));
    v.push((lit("control-room"), lit("local_dashboard_and_audit")));
    v.push((lit("observability"), lit("local_logs_and_health_continue")));
    v.push((lit("application-gateway"), lit("local_integrations_only")));
    v.push((lit("media-library"), lit("local_media_cache_and_playout")));
    assert(pair_views(v@) =~= default_fallback_pairs_seq());
    v
}

/// The default fallback table.
pub fn default_service_fallbacks() -> (r: TextMap)
    ensures
        r.view() == seq_pairs_map(default_fallback_pairs_seq()),
{
    let pairs = default_fallback_pairs();
    let mut t = TextMap::new();
    let mut i: usize = 0;
    while i < pairs.len()
        invariant
            i <= pairs@.len(),
            pair_views(pairs@) == default_fallback_pairs_seq(),
            t.view() == seq_pairs_map(pair_views(pairs@).take(i as int)),
        decreases pairs@.len() - i,
    {
        t.insert(pairs[i].0.clone(), pairs[i].1.clone());
        assert(pair_views(pairs@).take(i + 1).drop_last() =~= pair_views(pairs@).take(i as int));
        i = i + 1;
    }
    assert(pair_views(pairs@).take(pairs@.len() as int) =~= pair_views(pairs@));
    t
}

pub fn default_required_services() -> (r: Vec<String>)
    ensures
        r.deep_view() == default_required_seq(),
{
    let mut v: Vec<String> = Vec::new();
    v.push(lit("subscriber-core"));
    v.push(lit("group-core"));
    v.push(lit("mobility-core"));
    v.push(lit("call-control"));
    v.push(lit("media-switch"));
    v.push(lit("sds-router"));
    assert(v.deep_view() =~= default_required_seq());
    v
}

impl Default for CfgEdgeFallback {
    fn default() -> (r: CfgEdgeFallback)
        ensures
            r.enabled,
            r.enter_after_secs == 15,
            r.recover_after_secs == 20,
            !r.unknown_service_is_available,
            r.service_matrix_lease_secs == 60,
            r.policy_cache_path@ == "/var/lib/flowstation/edge-policy-cache.json"@,
            r.policy_cache_max_age_secs == 7 * 24 * 60 * 60,
            r.keep_last_known_policy,
            r.event_spool_path@ == "/var/lib/flowstation/edge-event-spool.jsonl"@,
            r.event_spool_max_entries == 10_000,
            r.event_spool_max_bytes == 16 * 1024 * 1024,
            r.replay_batch_size == 128,
            r.required_services.deep_view() == default_required_seq(),
            r.service_fallbacks.view() == seq_pairs_map(default_fallback_pairs_seq()),
    {
        CfgEdgeFallback {
            enabled: true,
            enter_after_secs: 15,
            recover_after_secs: 20,
            unknown_service_is_available: false,
            service_matrix_lease_secs: 60,
            policy_cache_path: lit("/var/lib/flowstation/edge-policy-cache.json"),
            policy_cache_max_age_secs: 7 * 24 * 60 * 60,
            keep_last_known_policy: true,
            event_spool_path: lit("/var/lib/flowstation/edge-event-spool.jsonl"),
            event_spool_max_entries: 10_000,
            event_spool_max_bytes: 16 * 1024 * 1024,
            replay_batch_size: 128,
            required_services: default_required_services(),
            service_fallbacks: default_service_fallbacks(),
        }
    }
}

/// A service name: 1 to 64 characters, each a lower-case ASCII letter, a digit or `-`.
pub open spec fn safe_service_name_seq(v: Seq<char>) -> bool {
    &&& 0 < v.len() <= 64
    &&& forall|i: int|
        0 <= i < v.len() ==> ('a' <= #[trigger] v[i] && v[i] <= 'z') || ('0' <= v[i] && v[i]
            <= '9') || v[i] == '-'
}

fn safe_service_name(value: &str) -> (r: bool)
    ensures
        r == safe_service_name_seq(value@),
{
    let v = chars_of(value);
    if v.len() == 0 || v.len() > 64 {
        return false;
    }
    let mut i: usize = 0;
    while i < v.len()
        invariant
            v@ == value@,
            i <= v.len(),
            forall|k: int|
                0 <= k < i ==> ('a' <= #[trigger] v@[k] && v@[k] <= 'z') || ('0' <= v@[k] && v@[k]
                    <= '9') || v@[k] == '-',
        decreases v.len() - i,
    {
        let c = v[i];
        if !(('a' <= c && c <= 'z') || ('0' <= c && c <= '9') || c == '-') {
            return false;
        }
        i = i + 1;
    }
    true
}

fn non_empty(value: String, field: &str) -> (r: Result<String, String>)
    ensures
        match r {
            Ok(v) => trim_seq(value@).len() > 0 && v@ == trim_seq(value@),
            Err(e) => trim_seq(value@).len() == 0 && e@ == field@ + " must not be empty"@,
        },
{
    let t = trim(value.as_str());
    if t.as_str().is_empty() {
        let mut e = lit(field);
        push_str(&mut e, " must not be empty");
        Err(e)
    } else {
        Ok(t)
    }
}

/// Each entry lower-cased.
pub open spec fn lower_each(l: Seq<Seq<char>>) -> Seq<Seq<char>> {
    l.map_values(|x: Seq<char>| lower_seq(x))
}

/// The required services that a section names: trimmed, blank names dropped,
/// lower-cased, sorted and without repeats.
pub open spec fn required_services_of(src: CfgEdgeFallbackDto) -> Seq<Seq<char>> {
    let listed = match src.required_services {
        Some(v) => v.deep_view(),
        None => default_required_seq(),
    };
    sorted_set_seq(lower_each(trimmed_nonempty_seq(listed)))
}

/// The fallback pairs that a section gives, in the order in which they are read.
pub open spec fn fallback_pairs_of(src: CfgEdgeFallbackDto) -> Seq<(Seq<char>, Seq<char>)> {
    match src.service_fallbacks {
        Some(v) => pair_views(v@),
        None => default_fallback_pairs_seq(),
    }
}

/// A fallback pair that is refused: its name is not a service name once
/// trimmed and lower-cased, or its mode is blank.
pub open spec fn fallback_pair_invalid(p: (Seq<char>, Seq<char>)) -> bool {
    !safe_service_name_seq(lower_seq(trim_seq(p.0))) || trim_seq(p.1).len() == 0
}

/// A fallback pair normalised: name trimmed and lower-cased, mode trimmed.
pub open spec fn normalise_pair(p: (Seq<char>, Seq<char>)) -> (Seq<char>, Seq<char>) {
    (lower_seq(trim_seq(p.0)), trim_seq(p.1))
}

/// The fallback table that a section yields.
pub open spec fn fallbacks_of(src: CfgEdgeFallbackDto) -> Map<Seq<char>, Seq<char>> {
    seq_pairs_map(fallback_pairs_of(src).map_values(|p: (Seq<char>, Seq<char>)| normalise_pair(p)))
}

/// The first reason for which an `[edge_fallback]` section is refused, if any.
pub open spec fn edge_fallback_patch_error(src: CfgEdgeFallbackDto) -> Option<Seq<char>> {
    let required = required_services_of(src);
    let pairs = fallback_pairs_of(src);
    let pc = match src.policy_cache_path {
        Some(p) => p@,
        None => "/var/lib/flowstation/edge-policy-cache.json"@,
    };
    let es = match src.event_spool_path {
        Some(p) => p@,
        None => "/var/lib/flowstation/edge-event-spool.jsonl"@,
    };
    if src.extra_keys@.len() > 0 {
        Some(
            "Unrecognized fields in edge_fallback config: "@ + debug_string_list(
                sorted_set_seq(src.extra_keys.deep_view()),
            ),
        )
    } else if exists|i: int| 0 <= i < required.len() && !safe_service_name_seq(#[trigger] required[i]) {
        Some("edge_fallback.required_services contains an invalid service name"@)
    } else if exists|i: int| 0 <= i < pairs.len() && fallback_pair_invalid(#[trigger] pairs[i]) {
        Some("edge_fallback.service_fallbacks contains an invalid entry"@)
    } else if exists|i: int| 0 <= i < required.len() && !fallbacks_of(src).dom().contains(
        #[trigger] required[i],
    ) {
        Some("every edge_fallback.required_services entry needs a service_fallbacks mode"@)
    } else if trim_seq(pc).len() == 0 {
        Some("edge_fallback.policy_cache_path"@ + " must not be empty"@)
    } else if trim_seq(es).len() == 0 {
        Some("edge_fallback.event_spool_path"@ + " must not be empty"@)
    } else {
        None
    }
}

/// `max(v, lo)`.
pub open spec fn at_least(v: u64, lo: u64) -> u64 {
    if v < lo { lo } else { v }
}

/// `v` brought into `lo..=hi`.
pub open spec fn clamp_u64(v: u64, lo: u64, hi: u64) -> u64 {
    if v < lo { lo } else if v > hi { hi } else { v }
}

/// `v` brought into `lo..=hi`.
pub open spec fn clamp_usize(v: usize, lo: usize, hi: usize) -> usize {
    if v < lo { lo } else if v > hi { hi } else { v }
}

/// The policy that an accepted `[edge_fallback]` section yields.
pub open spec fn edge_fallback_from_dto(src: CfgEdgeFallbackDto, cfg: CfgEdgeFallback) -> bool {
    let pc = match src.policy_cache_path {
        Some(p) => p@,
        None => "/var/lib/flowstation/edge-policy-cache.json"@,
    };
    let es = match src.event_spool_path {
        Some(p) => p@,
        None => "/var/lib/flowstation/edge-event-spool.jsonl"@,
    };
    &&& cfg.enabled == src.enabled.unwrap_or(true)
    &&& cfg.enter_after_secs == at_least(src.enter_after_secs.unwrap_or(15), 1)
    &&& cfg.recover_after_secs == at_least(src.recover_after_secs.unwrap_or(20), 1)
    &&& cfg.unknown_service_is_available == src.unknown_service_is_available.unwrap_or(false)
    &&& cfg.service_matrix_lease_secs == clamp_u64(src.service_matrix_lease_secs.unwrap_or(60), 5, 3_600)
    &&& cfg.policy_cache_path@ == trim_seq(pc)
    &&& cfg.policy_cache_max_age_secs == at_least(
        src.policy_cache_max_age_secs.unwrap_or(604_800u64),
        60,
    )
    &&& cfg.keep_last_known_policy == src.keep_last_known_policy.unwrap_or(true)
    &&& cfg.event_spool_path@ == trim_seq(es)
    &&& cfg.event_spool_max_entries == clamp_usize(src.event_spool_max_entries.unwrap_or(10_000), 100, 1_000_000)
    &&& cfg.event_spool_max_bytes == clamp_usize(
        src.event_spool_max_bytes.unwrap_or(16_777_216usize),
        65_536usize,
        1_073_741_824usize,
    )
    &&& cfg.replay_batch_size == clamp_usize(src.replay_batch_size.unwrap_or(128), 1, 2_048)
    &&& cfg.required_services.deep_view() == required_services_of(src)
    &&& cfg.service_fallbacks.view() == fallbacks_of(src)
}

fn lower_all(l: &Vec<String>) -> (r: Vec<String>)
    ensures
        r.deep_view() == lower_each(l.deep_view()),
{
    let mut out: Vec<String> = Vec::new();
    let mut i: usize = 0;
    while i < l.len()
        invariant
            i <= l.len(),
            out.deep_view() == lower_each(l.deep_view().take(i as int)),
        decreases l.len() - i,
    {
        let x = crate::text::to_lower(l[i].as_str());
        assert(x@ == lower_seq(l.deep_view()[i as int]));
        let ghost before = out.deep_view();
        out.push(x);
        assert(out.deep_view() =~= before.push(x@));
        assert(lower_each(l.deep_view().take(i + 1)) =~= lower_each(l.deep_view().take(i as int)).push(
            lower_seq(l.deep_view()[i as int]),
        ));
        i = i + 1;
    }
    assert(l.deep_view().take(l.len() as int) =~= l.deep_view());
    out
}

fn clamp_u64_exec(v: u64, lo: u64, hi: u64) -> (r: u64)
    requires
        lo <= hi,
    ensures
        r == clamp_u64(v, lo, hi),
{
    if v < lo { lo } else if v > hi { hi } else { v }
}

fn clamp_usize_exec(v: usize, lo: usize, hi: usize) -> (r: usize)
    requires
        lo <= hi,
    ensures
        r == clamp_usize(v, lo, hi),
{
    if v < lo { lo } else if v > hi { hi } else { v }
}

/// Checks an `[edge_fallback]` section and builds the autonomy policy from it.
pub fn apply_edge_fallback_patch(src: CfgEdgeFallbackDto) -> (r: Result<CfgEdgeFallback, String>)
    ensures
        match r {
            Ok(cfg) => edge_fallback_patch_error(src) is None && edge_fallback_from_dto(src, cfg),
            Err(e) => edge_fallback_patch_error(src) == Some(e@),
        },
{
    if src.extra_keys.len() > 0 {
        let keys = sorted_set(&src.extra_keys);
        let mut e = lit("Unrecognized fields in edge_fallback config: ");
        let d = debug_list(&keys);
        push_str(&mut e, d.as_str());
        return Err(e);
    }
    let listed = match &src.required_services {
        Some(v) => trimmed_nonempty(v),
        None => {
            let d = default_required_services();
            trimmed_nonempty(&d)
        },
    };
    let lowered = lower_all(&listed);
    let required_services = sorted_set(&lowered);
    let ghost required = required_services_of(src);
    assert(required_services.deep_view() == required);
    let mut i: usize = 0;
    while i < required_services.len()
        invariant
            i <= required_services@.len(),
            required_services.deep_view() == required,
            required == required_services_of(src),
            src.extra_keys@.len() == 0,
            forall|k: int| 0 <= k < i ==> safe_service_name_seq(#[trigger] required[k]),
        decreases required_services@.len() - i,
    {
        if !safe_service_name(required_services[i].as_str()) {
            assert(!safe_service_name_seq(required[i as int]));
            return Err(lit("edge_fallback.required_services contains an invalid service name"));
        }
        i = i + 1;
    }
    assert(forall|k: int| 0 <= k < required.len() ==> safe_service_name_seq(#[trigger] required[k]));
    let pairs: Vec<(String, String)> = match src.service_fallbacks {
        Some(v) => v,
        None => default_fallback_pairs(),
    };
    let ghost pv = fallback_pairs_of(src);
    assert(pair_views(pairs@) == pv);
    let ghost norm = pv.map_values(|p: (Seq<char>, Seq<char>)| normalise_pair(p));
    let mut normalized = TextMap::new();
    let mut j: usize = 0;
    while j < pairs.len()
        invariant
            j <= pairs@.len(),
            pair_views(pairs@) == pv,
            src.extra_keys@.len() == 0,
            pv == fallback_pairs_of(src),
            required == required_services_of(src),
            forall|k: int| 0 <= k < required.len() ==> safe_service_name_seq(#[trigger] required[k]),
            norm == pv.map_values(|p: (Seq<char>, Seq<char>)| normalise_pair(p)),
            forall|k: int| 0 <= k < j ==> !fallback_pair_invalid(#[trigger] pv[k]),
            normalized.view() == seq_pairs_map(norm.take(j as int)),
        decreases pairs@.len() - j,
    {
        let name = trim_lower(pairs[j].0.as_str());
        let mode = trim(pairs[j].1.as_str());
        assert(pv[j as int] == (pairs@[j as int].0@, pairs@[j as int].1@));
        if !safe_service_name(name.as_str()) || mode.as_str().is_empty() {
            assert(fallback_pair_invalid(pv[j as int]));
            return Err(lit("edge_fallback.service_fallbacks contains an invalid entry"));
        }
        normalized.insert(name, mode);
        assert(norm.take(j + 1).drop_last() =~= norm.take(j as int));
        j = j + 1;
    }
    assert(norm.take(pairs@.len() as int) =~= norm);
    assert(forall|k: int| 0 <= k < pv.len() ==> !fallback_pair_invalid(#[trigger] pv[k]));
    assert(normalized.view() == fallbacks_of(src));
    let mut q: usize = 0;
    while q < required_services.len()
        invariant
            q <= required_services@.len(),
            required_services.deep_view() == required,
            normalized.view() == fallbacks_of(src),
            src.extra_keys@.len() == 0,
            pv == fallback_pairs_of(src),
            required == required_services_of(src),
            forall|k: int| 0 <= k < required.len() ==> safe_service_name_seq(#[trigger] required[k]),
            forall|k: int| 0 <= k < pv.len() ==> !fallback_pair_invalid(#[trigger] pv[k]),
            forall|k: int| 0 <= k < q ==> fallbacks_of(src).dom().contains(#[trigger] required[k]),
        decreases required_services@.len() - q,
    {
        if !normalized.contains_key(required_services[q].as_str()) {
            assert(!fallbacks_of(src).dom().contains(required[q as int]));
            return Err(lit("every edge_fallback.required_services entry needs a service_fallbacks mode"));
        }
        q = q + 1;
    }
    assert(forall|k: int| 0 <= k < required.len() ==> fallbacks_of(src).dom().contains(#[trigger] required[k]));
    let policy_cache_raw = match src.policy_cache_path {
        Some(p) => p,
        None => lit("/var/lib/flowstation/edge-policy-cache.json"),
    };
    let policy_cache_path = match non_empty(policy_cache_raw, "edge_fallback.policy_cache_path") {
        Ok(v) => v,
        Err(e) => {
            return Err(e);
        },
    };
    let event_spool_raw = match src.event_spool_path {
        Some(p) => p,
        None => lit("/var/lib/flowstation/edge-event-spool.jsonl"),
    };
    let event_spool_path = match non_empty(event_spool_raw, "edge_fallback.event_spool_path") {
        Ok(v) => v,
        Err(e) => {
            return Err(e);
        },
    };
    let enter = match src.enter_after_secs { Some(v) => v, None => 15 };
    let recover = match src.recover_after_secs { Some(v) => v, None => 20 };
    let max_age = match src.policy_cache_max_age_secs { Some(v) => v, None => 7 * 24 * 60 * 60 };
    Ok(CfgEdgeFallback {
        enabled: match src.enabled { Some(v) => v, None => true },
        enter_after_secs: if enter < 1 { 1 } else { enter },
        recover_after_secs: if recover < 1 { 1 } else { recover },
        unknown_service_is_available: match src.unknown_service_is_available { Some(v) => v, None => false },
        service_matrix_lease_secs: clamp_u64_exec(
            match src.service_matrix_lease_secs { Some(v) => v, None => 60 },
            5,
            3_600,
        ),
        policy_cache_path,
        policy_cache_max_age_secs: if max_age < 60 { 60 } else { max_age },
        keep_last_known_policy: match src.keep_last_known_policy { Some(v) => v, None => true },
        event_spool_path,
        event_spool_max_entries: clamp_usize_exec(
            match src.event_spool_max_entries { Some(v) => v, None => 10_000 },
            100,
            1_000_000,
        ),
        event_spool_max_bytes: clamp_usize_exec(
            match src.event_spool_max_bytes { Some(v) => v, None => 16 * 1024 * 1024 },
            64 * 1024,
            1024 * 1024 * 1024,
        ),
        replay_batch_size: clamp_usize_exec(
            match src.replay_batch_size { Some(v) => v, None => 128 },
            1,
            2_048,
        ),
        required_services,
        service_fallbacks: normalized,
    })
}

} // verus!
