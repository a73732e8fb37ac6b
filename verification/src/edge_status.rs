//! The edge-fallback view of the central services: whether a central service
//! may be relied on, whether the cell may announce system-wide services, and
//! the service table that the local WebUI shows.
use vstd::prelude::*;
use crate::listing_order::{in_key_order, sort_rows, key_view, KeyPart, ListingKey, PartView};
use crate::node_state::text_view;
use crate::sec_edge_fallback::CfgEdgeFallback;
use crate::stack_config::StackConfig;
use crate::text::{contains_str, lit, str_eq, trim, trim_seq};

verus! {

broadcast use vstd::seq_lib::group_to_multiset_ensures;

/// How a central service reported itself.
#[derive(Clone, Copy, Debug, PartialEq, Eq, Structural)]
pub enum EdgeServiceLevel {
    Available,
    Degraded,
    Unavailable,
    Unknown,
}

/// Where the edge stands in its fallback cycle.
#[derive(Clone, Copy, Debug, PartialEq, Eq, Structural)]
pub enum EdgeFallbackMode {
    Online,
    Degraded,
    Isolated,
    Recovering,
}

/// One central service as the edge sees it.
pub struct EdgeServiceRuntime {
    pub service: String,
    pub level: EdgeServiceLevel,
    /// Whether the edge needs this service before it trusts the centre.
    pub critical_for_edge: bool,
    /// What the edge does without the service.
    pub fallback_mode: String,
    pub checked_at: String,
    pub last_success_at: Option<String>,
    pub message: Option<String>,
}

/// What the edge knows of the central service plane at run time.
pub struct EdgeRuntimeState {
    /// Whether the Brew network link is up.
    pub network_connected: bool,
    /// Whether the Node Gateway WebSocket is connected.
    pub core_gateway_connected: bool,
    /// Whether the last service matrix from the Node Gateway is still fresh.
    pub edge_service_matrix_fresh: bool,
    pub edge_service_matrix_received_at: Option<String>,
    pub edge_fallback_last_transition_at: String,
    pub edge_fallback_mode: EdgeFallbackMode,
    /// Why the edge entered its current mode.
    pub edge_fallback_reason: String,
    /// The revision of the last service matrix.
    pub edge_service_revision: u64,
    pub edge_policy_loaded_from_cache: bool,
    pub edge_policy_cache_saved_at: Option<String>,
    pub edge_policy_cache_age_secs: Option<u64>,
    pub edge_event_spool_entries: u64,
    pub edge_event_spool_bytes: u64,
    /// The services the Node Gateway last reported, each name once.
    pub edge_services: Vec<EdgeServiceRuntime>,
}

/// No service name occurs twice.
pub open spec fn names_distinct(s: Seq<EdgeServiceRuntime>) -> bool {
    forall|i: int, j: int| 0 <= i < j < s.len() ==> (#[trigger] s[i]).service@ != (#[trigger] s[j]).service@
}

/// The first reported service of that name.
pub open spec fn reported_entry(s: Seq<EdgeServiceRuntime>, name: Seq<char>) -> Option<EdgeServiceRuntime>
    decreases s.len(),
{
    if s.len() == 0 {
        None
    } else if s[0].service@ == name {
        Some(s[0])
    } else {
        reported_entry(s.drop_first(), name)
    }
}

/// Whether the edge may rely on the central service `name`.
pub open spec fn central_available(edge: CfgEdgeFallback, state: EdgeRuntimeState, name: Seq<char>) -> bool {
    if !edge.enabled {
        true
    } else if !state.core_gateway_connected || !state.edge_service_matrix_fresh {
        false
    } else {
        match reported_entry(state.edge_services@, name) {
            Some(s) => s.level == EdgeServiceLevel::Available,
            None => edge.unknown_service_is_available,
        }
    }
}

/// Whether the cell may announce system-wide services: the Brew link is up,
/// or, where the control room is not in use, what the cell configures, or,
/// without edge fallback, the Node Gateway link, or else every required
/// central service.
pub open spec fn system_wide_available(cfg: StackConfig, state: EdgeRuntimeState) -> bool {
    if state.network_connected {
        true
    } else if match cfg.control_room {
        Some(c) => !c.enabled,
        None => true,
    } {
        cfg.cell.system_wide_services
    } else if !cfg.edge_fallback.enabled {
        state.core_gateway_connected
    } else {
        forall|i: int|
            0 <= i < cfg.edge_fallback.required_services@.len() ==> central_available(
                cfg.edge_fallback,
                state,
                #[trigger] cfg.edge_fallback.required_services@[i]@,
            )
    }
}

/// Whether the edge treats the service `name` as critical.
pub open spec fn critical_for_edge(edge: CfgEdgeFallback, name: Seq<char>) -> bool {
    name == "node-gateway"@ || edge.required_services.deep_view().contains(name)
}

/// `e` is the row of the edge service table for its service: a reported
/// service as reported, a configured but unreported one with what the edge
/// knows of it; each marked critical as the configuration says, and given the
/// configured fallback where it has none of its own.
pub open spec fn edge_row_ok(edge: CfgEdgeFallback, state: EdgeRuntimeState, e: EdgeServiceRuntime) -> bool {
    let name = e.service@;
    let fallbacks = edge.service_fallbacks.view();
    &&& e.critical_for_edge == critical_for_edge(edge, name)
    &&& match reported_entry(state.edge_services@, name) {
        Some(o) => {
            &&& e.level == o.level
            &&& e.checked_at@ == o.checked_at@
            &&& text_view(e.last_success_at) == text_view(o.last_success_at)
            &&& text_view(e.message) == text_view(o.message)
            &&& e.fallback_mode@ == (if trim_seq(o.fallback_mode@).len() == 0 && fallbacks.dom().contains(name) {
                fallbacks[name]
            } else {
                o.fallback_mode@
            })
        },
        None => {
            let gateway = name == "node-gateway"@;
            let up = gateway && state.core_gateway_connected;
            &&& fallbacks.dom().contains(name)
            &&& e.level == (if gateway {
                if up {
                    EdgeServiceLevel::Available
                } else {
                    EdgeServiceLevel::Unavailable
                }
            } else {
                EdgeServiceLevel::Unknown
            })
            &&& e.fallback_mode@ == fallbacks[name]
            &&& e.checked_at@ == match state.edge_service_matrix_received_at {
                Some(t) => t@,
                None => state.edge_fallback_last_transition_at@,
            }
            &&& text_view(e.last_success_at) == (if up {
                text_view(state.edge_service_matrix_received_at)
            } else {
                None
            })
            &&& text_view(e.message) == Some(
                if gateway {
                    if up {
                        "Node Gateway WebSocket connected"@
                    } else {
                        "Node Gateway unreachable"@
                    }
                } else {
                    "not reported by Node Gateway"@
                },
            )
        },
    }
}

/// The services the edge service table lists: those reported and those
/// that the configuration gives a fallback for.
pub open spec fn edge_listed(edge: CfgEdgeFallback, state: EdgeRuntimeState, name: Seq<char>) -> bool {
    reported_entry(state.edge_services@, name) is Some || edge.service_fallbacks.view().dom().contains(name)
}

impl ListingKey for EdgeServiceRuntime {
    /// By service name.
    open spec fn listing_key(&self) -> Seq<PartView> {
        seq![PartView::Up(self.service@)]
    }

    fn key_parts(&self) -> (r: Vec<KeyPart>) {
        let mut v: Vec<KeyPart> = Vec::new();
        v.push(KeyPart::Up(self.service.clone()));
        proof {
            assert(key_view(v@) =~= self.listing_key());
        }
        v
    }
}

proof fn lemma_reported_entry_at(s: Seq<EdgeServiceRuntime>, i: int)
    requires
        names_distinct(s),
        0 <= i < s.len(),
    ensures
        reported_entry(s, s[i].service@) == Some(s[i]),
    decreases s.len(),
{
    if i > 0 {
        assert(s[0].service@ != s[i].service@);
        assert(names_distinct(s.drop_first()));
        assert(s.drop_first()[i - 1] == s[i]);
        lemma_reported_entry_at(s.drop_first(), i - 1);
    }
}

fn copy_text(o: &Option<String>) -> (r: Option<String>)
    ensures
        text_view(r) == text_view(*o),
{
    match o {
        Some(s) => Some(s.clone()),
        None => None,
    }
}

/// The reported service of that name (`reported_entry`).
fn find_reported<'a>(services: &'a Vec<EdgeServiceRuntime>, name: &str) -> (r: Option<&'a EdgeServiceRuntime>)
    ensures
        match r {
            Some(e) => reported_entry(services@, name@) == Some(*e),
            None => reported_entry(services@, name@) is None,
        },
{
    let mut i: usize = 0;
    proof {
        assert(services@.skip(0) =~= services@);
    }
    while i < services.len()
        invariant
            i <= services@.len(),
            reported_entry(services@, name@) == reported_entry(services@.skip(i as int), name@),
        decreases services@.len() - i,
    {
        proof {
            assert(services@.skip(i as int)[0] == services@[i as int]);
            assert(services@.skip(i as int).drop_first() =~= services@.skip(i + 1));
        }
        if str_eq(services[i].service.as_str(), name) {
            return Some(&services[i]);
        }
        i = i + 1;
    }
    None
}

/// Whether the edge may rely on the central service `service`: always without
/// edge fallback; never while the Node Gateway is away or its service matrix
/// is stale; else as the service reported itself, or as configured for a
/// service that has not reported.
pub fn central_service_available(edge: &CfgEdgeFallback, state: &EdgeRuntimeState, service: &str) -> (r: bool)
    ensures
        r == central_available(*edge, *state, service@),
{
    if !edge.enabled {
        return true;
    }
    if !state.core_gateway_connected || !state.edge_service_matrix_fresh {
        return false;
    }
    match find_reported(&state.edge_services, service) {
        Some(s) => s.level == EdgeServiceLevel::Available,
        None => edge.unknown_service_is_available,
    }
}

/// Whether the cell may announce system-wide services
/// (`system_wide_available`).
pub fn system_wide_services_available(cfg: &StackConfig, state: &EdgeRuntimeState) -> (r: bool)
    ensures
        r == system_wide_available(*cfg, *state),
{
    if state.network_connected {
        return true;
    }
    let control_off = match &cfg.control_room {
        Some(c) => !c.enabled,
        None => true,
    };
    if control_off {
        return cfg.cell.system_wide_services;
    }
    if !cfg.edge_fallback.enabled {
        return state.core_gateway_connected;
    }
    let required = &cfg.edge_fallback.required_services;
    let mut i: usize = 0;
    while i < required.len()
        invariant
            i <= required@.len(),
            required == &cfg.edge_fallback.required_services,
            !state.network_connected,
            !control_off,
            control_off == match cfg.control_room {
                Some(c) => !c.enabled,
                None => true,
            },
            cfg.edge_fallback.enabled,
            forall|j: int| 0 <= j < i ==> central_available(cfg.edge_fallback, *state, #[trigger] required@[j]@),
        decreases required@.len() - i,
    {
        if !central_service_available(&cfg.edge_fallback, state, required[i].as_str()) {
            assert(!central_available(cfg.edge_fallback, *state, cfg.edge_fallback.required_services@[i as int]@));
            return false;
        }
        i = i + 1;
    }
    true
}

/// The row of a reported service.
fn reported_row(edge: &CfgEdgeFallback, o: &EdgeServiceRuntime) -> (r: EdgeServiceRuntime)
    ensures
        r.service@ == o.service@,
        r.critical_for_edge == critical_for_edge(*edge, o.service@),
        r.level == o.level,
        r.checked_at@ == o.checked_at@,
        text_view(r.last_success_at) == text_view(o.last_success_at),
        text_view(r.message) == text_view(o.message),
        r.fallback_mode@ == (if trim_seq(o.fallback_mode@).len() == 0 && edge.service_fallbacks.view().dom().contains(
            o.service@,
        ) {
            edge.service_fallbacks.view()[o.service@]
        } else {
            o.fallback_mode@
        }),
{
    let name = o.service.as_str();
    let critical = str_eq(name, "node-gateway") || contains_str(&edge.required_services, name);
    let trimmed = trim(o.fallback_mode.as_str());
    proof {
        reveal_strlit("");
    }
    let blank = str_eq(trimmed.as_str(), "");
    assert(trimmed@.len() == 0 ==> trimmed@ =~= ""@);
    assert(blank == (trim_seq(o.fallback_mode@).len() == 0));
    let mode = if blank {
        match edge.service_fallbacks.get(name) {
            Some(m) => m,
            None => o.fallback_mode.clone(),
        }
    } else {
        o.fallback_mode.clone()
    };
    EdgeServiceRuntime {
        service: o.service.clone(),
        level: o.level,
        critical_for_edge: critical,
        fallback_mode: mode,
        checked_at: o.checked_at.clone(),
        last_success_at: copy_text(&o.last_success_at),
        message: copy_text(&o.message),
    }
}

/// The row of a service that the configuration names and that has not
/// reported.
fn configured_row(edge: &CfgEdgeFallback, state: &EdgeRuntimeState, name: &String, mode: String) -> (r:
    EdgeServiceRuntime)
    requires
        edge.service_fallbacks.view().dom().contains(name@),
        edge.service_fallbacks.view()[name@] == mode@,
        reported_entry(state.edge_services@, name@) is None,
    ensures
        r.service@ == name@,
        edge_row_ok(*edge, *state, r),
{
    proof {
        reveal_strlit("node-gateway");
    }
    let gateway = str_eq(name.as_str(), "node-gateway");
    let up = gateway && state.core_gateway_connected;
    let critical = gateway || contains_str(&edge.required_services, name.as_str());
    let level = if gateway {
        if up {
            EdgeServiceLevel::Available
        } else {
            EdgeServiceLevel::Unavailable
        }
    } else {
        EdgeServiceLevel::Unknown
    };
    let checked_at = match &state.edge_service_matrix_received_at {
        Some(t) => t.clone(),
        None => state.edge_fallback_last_transition_at.clone(),
    };
    let last_success_at = if up {
        copy_text(&state.edge_service_matrix_received_at)
    } else {
        None
    };
    let message = if gateway {
        if up {
            lit("Node Gateway WebSocket connected")
        } else {
            lit("Node Gateway unreachable")
        }
    } else {
        lit("not reported by Node Gateway")
    };
    EdgeServiceRuntime {
        service: name.clone(),
        level,
        critical_for_edge: critical,
        fallback_mode: mode,
        checked_at,
        last_success_at,
        message: Some(message),
    }
}

/// The edge service table for the local WebUI, by service name: every
/// reported service, and every service that the configuration gives a
/// fallback for, each row as `edge_row_ok` says.
pub fn edge_fallback_services(edge: &CfgEdgeFallback, state: &EdgeRuntimeState) -> (r: Vec<EdgeServiceRuntime>)
    requires
        names_distinct(state.edge_services@),
    ensures
        in_key_order(r@),
        names_distinct(r@),
        forall|i: int| 0 <= i < r@.len() ==> edge_row_ok(*edge, *state, #[trigger] r@[i]),
        forall|name: Seq<char>|
            edge_listed(*edge, *state, name) <==> exists|i: int| 0 <= i < r@.len() && (#[trigger] r@[i]).service@ == name,
{
    let mut rows: Vec<EdgeServiceRuntime> = Vec::new();
    let reported = &state.edge_services;
    let mut i: usize = 0;
    while i < reported.len()
        invariant
            i <= reported@.len(),
            reported == &state.edge_services,
            names_distinct(reported@),
            names_distinct(rows@),
            rows@.len() == i,
            forall|j: int| 0 <= j < rows@.len() ==> edge_row_ok(*edge, *state, #[trigger] rows@[j]),
            forall|j: int| 0 <= j < i ==> (#[trigger] rows@[j]).service@ == reported@[j].service@,
        decreases reported@.len() - i,
    {
        let row = reported_row(edge, &reported[i]);
        proof {
            lemma_reported_entry_at(reported@, i as int);
        }
        rows.push(row);
        i = i + 1;
    }
    let keys = edge.service_fallbacks.keys();
    let ghost mut wit: Seq<int> = Seq::empty();
    let ghost mut src: Seq<int> = Seq::empty();
    let mut k: usize = 0;
    while k < keys.len()
        invariant
            k <= keys@.len(),
            keys.deep_view().to_set() == edge.service_fallbacks.view().dom(),
            reported == &state.edge_services,
            reported@.len() <= rows@.len(),
            names_distinct(reported@),
            names_distinct(rows@),
            keys.deep_view().no_duplicates(),
            src.len() == rows@.len() - reported@.len(),
            forall|p: int|
                reported@.len() <= p < rows@.len() ==> 0 <= #[trigger] src[p - reported@.len()] < k
                    && rows@[p].service@ == keys@[src[p - reported@.len()]]@,
            forall|j: int| 0 <= j < rows@.len() ==> edge_row_ok(*edge, *state, #[trigger] rows@[j]),
            forall|j: int| 0 <= j < reported@.len() ==> (#[trigger] rows@[j]).service@ == reported@[j].service@,
            wit.len() == k,
            forall|j: int|
                0 <= j < k ==> 0 <= #[trigger] wit[j] < rows@.len() && rows@[wit[j]].service@ == keys@[j]@,
            forall|p: int| 0 <= p < rows@.len() ==> edge_listed(*edge, *state, (#[trigger] rows@[p]).service@),
        decreases keys@.len() - k,
    {
        proof {
            assert(keys.deep_view()[k as int] == keys@[k as int]@);
            assert(edge.service_fallbacks.view().dom().contains(keys@[k as int]@));
        }
        match find_reported(&state.edge_services, keys[k].as_str()) {
            Some(_) => {
                proof {
                    lemma_reported_entry_present(reported@, keys@[k as int]@);
                    let p = choose|p: int| 0 <= p < reported@.len() && reported@[p].service@ == keys@[k as int]@;
                    assert(rows@[p].service@ == keys@[k as int]@);
                    wit = wit.push(p);
                }
            },
            None => {
                let mode = match edge.service_fallbacks.get(keys[k].as_str()) {
                    Some(m) => m,
                    None => String::new(),
                };
                let row = configured_row(edge, state, &keys[k], mode);
                let ghost before = rows@;
                proof {
                    lemma_reported_entry_absent(reported@, keys@[k as int]@);
                    assert forall|p: int| 0 <= p < before.len() implies before[p].service@ != keys@[k as int]@ by {
                        if p < reported@.len() {
                            assert(before[p].service@ == reported@[p].service@);
                        } else {
                            let j = src[p - reported@.len()];
                            assert(keys.deep_view()[j] == keys@[j]@);
                            assert(keys.deep_view()[k as int] == keys@[k as int]@);
                        }
                    }
                }
                rows.push(row);
                proof {
                    wit = wit.push(rows@.len() - 1);
                    src = src.push(k as int);
                    assert forall|a: int, b: int| 0 <= a < b < rows@.len() implies (#[trigger] rows@[a]).service@
                        != (#[trigger] rows@[b]).service@ by {
                        if b < before.len() {
                            assert(rows@[a] == before[a] && rows@[b] == before[b]);
                        } else {
                            assert(rows@[a] == before[a]);
                        }
                    }
                }
            },
        }
        k = k + 1;
    }
    proof {
        assert forall|name: Seq<char>| edge_listed(*edge, *state, name) implies exists|p: int|
            0 <= p < rows@.len() && (#[trigger] rows@[p]).service@ == name by {
            if reported_entry(reported@, name) is Some {
                lemma_reported_entry_present(reported@, name);
                let p = choose|p: int| 0 <= p < reported@.len() && reported@[p].service@ == name;
                assert(rows@[p].service@ == name);
            } else {
                assert(keys.deep_view().to_set().contains(name));
                let j = choose|j: int| 0 <= j < keys.deep_view().len() && keys.deep_view()[j] == name;
                assert(keys@[j]@ == name);
                assert(rows@[wit[j]].service@ == name);
            }
        }
    }
    let sorted = sort_rows(rows);
    proof {
        assert(rows@.no_duplicates()) by {
            assert forall|a: int, b: int| 0 <= a < rows@.len() && 0 <= b < rows@.len() && a != b implies rows@[a]
                != rows@[b] by {
                if a < b {
                    assert(rows@[a].service@ != rows@[b].service@);
                } else {
                    assert(rows@[b].service@ != rows@[a].service@);
                }
            }
        }
        rows@.lemma_multiset_has_no_duplicates();
        assert forall|x: EdgeServiceRuntime| sorted@.to_multiset().contains(x) implies sorted@.to_multiset().count(x)
            == 1 by {
            assert(sorted@.to_multiset().count(x) == rows@.to_multiset().count(x));
        }
        sorted@.lemma_multiset_has_no_duplicates_conv();
        assert forall|a: int, b: int| 0 <= a < b < sorted@.len() implies (#[trigger] sorted@[a]).service@
            != (#[trigger] sorted@[b]).service@ by {
            assert(sorted@.to_multiset().count(sorted@[a]) == rows@.to_multiset().count(sorted@[a]));
            assert(sorted@.to_multiset().count(sorted@[b]) == rows@.to_multiset().count(sorted@[b]));
            assert(rows@.contains(sorted@[a]));
            assert(rows@.contains(sorted@[b]));
            let pa = choose|p: int| 0 <= p < rows@.len() && rows@[p] == sorted@[a];
            let pb = choose|p: int| 0 <= p < rows@.len() && rows@[p] == sorted@[b];
            if pa == pb {
                assert(sorted@[a] == sorted@[b]);
            } else if pa < pb {
                assert(rows@[pa].service@ != rows@[pb].service@);
            } else {
                assert(rows@[pb].service@ != rows@[pa].service@);
            }
        }
        assert forall|d: EdgeServiceRuntime| sorted@.contains(d) <==> rows@.contains(d) by {
            assert(sorted@.to_multiset().count(d) == rows@.to_multiset().count(d));
        }
        assert forall|i: int| 0 <= i < sorted@.len() implies edge_row_ok(*edge, *state, #[trigger] sorted@[i]) by {
            assert(rows@.contains(sorted@[i]));
        }
        assert forall|name: Seq<char>| edge_listed(*edge, *state, name) <==> exists|i: int|
            0 <= i < sorted@.len() && (#[trigger] sorted@[i]).service@ == name by {
            if edge_listed(*edge, *state, name) {
                let p = choose|p: int| 0 <= p < rows@.len() && (#[trigger] rows@[p]).service@ == name;
                assert(sorted@.contains(rows@[p]));
            }
            if exists|i: int| 0 <= i < sorted@.len() && (#[trigger] sorted@[i]).service@ == name {
                let i = choose|i: int| 0 <= i < sorted@.len() && (#[trigger] sorted@[i]).service@ == name;
                assert(rows@.contains(sorted@[i]));
            }
        }
    }
    sorted
}

proof fn lemma_reported_entry_absent(s: Seq<EdgeServiceRuntime>, name: Seq<char>)
    requires
        names_distinct(s),
        reported_entry(s, name) is None,
    ensures
        forall|p: int| 0 <= p < s.len() ==> (#[trigger] s[p]).service@ != name,
{
    assert forall|p: int| 0 <= p < s.len() implies (#[trigger] s[p]).service@ != name by {
        if s[p].service@ == name {
            lemma_reported_entry_at(s, p);
        }
    }
}

proof fn lemma_reported_entry_present(s: Seq<EdgeServiceRuntime>, name: Seq<char>)
    requires
        reported_entry(s, name) is Some,
    ensures
        exists|p: int| 0 <= p < s.len() && s[p].service@ == name,
    decreases s.len(),
{
    if s[0].service@ != name {
        lemma_reported_entry_present(s.drop_first(), name);
        let p = choose|p: int| 0 <= p < s.drop_first().len() && s.drop_first()[p].service@ == name;
        assert(s[p + 1].service@ == name);
    } else {
        assert(s[0].service@ == name);
    }
}

/// What the local WebUI shows of edge fallback.
pub struct EdgeFallbackSnapshot {
    pub enabled: bool,
    pub gateway_connected: bool,
    pub mode: EdgeFallbackMode,
    pub reason: String,
    pub last_transition_at: String,
    pub service_revision: u64,
    pub service_matrix_fresh: bool,
    pub service_matrix_received_at: Option<String>,
    pub services: Vec<EdgeServiceRuntime>,
    pub policy_loaded_from_cache: bool,
    pub policy_cache_saved_at: Option<String>,
    pub policy_cache_age_secs: Option<u64>,
    pub event_spool_entries: u64,
    pub event_spool_bytes: u64,
}

/// The edge fallback snapshot: the switch, the mode, the link, matrix,
/// policy-cache and spool state as they stand, and the edge service table
/// (`edge_fallback_services`).
pub fn edge_fallback_snapshot(edge: &CfgEdgeFallback, state: &EdgeRuntimeState) -> (r: EdgeFallbackSnapshot)
    requires
        names_distinct(state.edge_services@),
    ensures
        r.enabled == edge.enabled,
        r.gateway_connected == state.core_gateway_connected,
        r.mode == state.edge_fallback_mode,
        r.reason@ == state.edge_fallback_reason@,
        r.service_revision == state.edge_service_revision,
        r.policy_loaded_from_cache == state.edge_policy_loaded_from_cache,
        text_view(r.policy_cache_saved_at) == text_view(state.edge_policy_cache_saved_at),
        r.policy_cache_age_secs == state.edge_policy_cache_age_secs,
        r.event_spool_entries == state.edge_event_spool_entries,
        r.event_spool_bytes == state.edge_event_spool_bytes,
        r.last_transition_at@ == state.edge_fallback_last_transition_at@,
        r.service_matrix_fresh == state.edge_service_matrix_fresh,
        text_view(r.service_matrix_received_at) == text_view(state.edge_service_matrix_received_at),
        in_key_order(r.services@),
        forall|i: int, j: int| 0 <= i < j < r.services@.len() ==> r.services@[i].service@ != r.services@[j].service@,
        forall|i: int| 0 <= i < r.services@.len() ==> edge_row_ok(*edge, *state, #[trigger] r.services@[i]),
        forall|name: Seq<char>|
            edge_listed(*edge, *state, name) <==> exists|i: int|
                0 <= i < r.services@.len() && (#[trigger] r.services@[i]).service@ == name,
{
    EdgeFallbackSnapshot {
        enabled: edge.enabled,
        gateway_connected: state.core_gateway_connected,
        mode: state.edge_fallback_mode,
        reason: state.edge_fallback_reason.clone(),
        last_transition_at: state.edge_fallback_last_transition_at.clone(),
        service_revision: state.edge_service_revision,
        service_matrix_fresh: state.edge_service_matrix_fresh,
        service_matrix_received_at: copy_text(&state.edge_service_matrix_received_at),
        services: edge_fallback_services(edge, state),
        policy_loaded_from_cache: state.edge_policy_loaded_from_cache,
        policy_cache_saved_at: copy_text(&state.edge_policy_cache_saved_at),
        policy_cache_age_secs: state.edge_policy_cache_age_secs,
        event_spool_entries: state.edge_event_spool_entries,
        event_spool_bytes: state.edge_event_spool_bytes,
    }
}

} // verus!
