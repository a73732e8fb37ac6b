//! Which figures of the core services' status summaries the control room
//! shows: the fields kept per service, and how each headline count is found.
use vstd::prelude::*;
use crate::text::str_eq;

verus! {

/// The summary fields shown for a core service.
pub open spec fn curated_fields(service_name: Seq<char>) -> Seq<Seq<char>> {
    if service_name == "node-gateway"@ {
        seq!["connected_nodes"@, "known_nodes"@, "stale_nodes"@, "backend_clients"@, "total_node_messages"@, "total_commands"@, "total_media_frames"@]
    } else if service_name == "subscriber-core"@ {
        seq!["subscribers_total"@, "subscribers_authorized"@, "subscribers_blocked"@, "observed_registered"@, "nodes_connected"@, "nodes_out_of_sync"@]
    } else if service_name == "group-core"@ {
        seq!["groups_total"@, "groups_enabled"@, "memberships_total"@, "observed_affiliations"@, "nodes_connected"@, "syncs_pending"@, "dgna_pending"@]
    } else if service_name == "mobility-core"@ {
        seq!["subscribers_known"@, "transfers_active"@, "transfers_completed"@, "transfers_failed"@, "nodes_connected"@]
    } else if service_name == "call-control"@ {
        seq!["calls_total"@, "calls_active"@, "calls_managed"@, "call_legs_active"@, "participants_registered"@, "pending_commands"@, "restores_pending"@]
    } else if service_name == "media-switch"@ {
        seq!["sessions_active"@, "streams_active"@, "pending_frames"@, "frames_received"@, "frames_routed"@, "frames_dropped"@, "recorder_taps_buffered"@]
    } else if service_name == "recorder"@ {
        seq!["active_recordings"@, "completed_recordings"@, "frames_ingested"@, "frames_lost_before_recorder"@, "storage_used_bytes"@, "storage_free_bytes"@]
    } else if service_name == "sds-router"@ {
        seq!["messages_total"@, "queued"@, "offline"@, "in_flight"@, "delivered"@, "failed"@, "dead_letter"@, "duplicate_messages"@]
    } else if service_name == "packet-core"@ {
        seq!["contexts_total"@, "contexts_ready"@, "contexts_standby"@, "contexts_suspended"@, "bearers_active"@, "actions_pending"@, "queued_packets"@, "queued_bytes"@]
    } else if service_name == "ip-gateway"@ {
        seq!["contexts"@, "flows"@, "captures_active"@, "packets_uplink"@, "packets_downlink"@, "packets_dropped"@, "dns_queries"@, "test_requests"@]
    } else if service_name == "security-core"@ {
        seq!["profiles"@, "subscribers"@, "active_auth_contexts"@, "active_dck_contexts"@, "pending_actions"@, "open_alarms"@, "known_nodes"@]
    } else if service_name == "kmf"@ {
        seq!["total_keys"@, "active_keys"@, "staged_keys"@, "revoked_keys"@, "otar_jobs"@, "pending_actions"@, "enabled_nodes"@, "backups"@]
    } else if service_name == "transit"@ {
        seq!["peers_total"@, "peers_up"@, "peers_degraded"@, "routes_total"@, "sessions_active"@, "outbound_pending"@, "local_deliveries_pending"@, "loop_rejections"@, "duplicate_rejections"@]
    } else if service_name == "application-gateway"@ {
        seq!["connectors_total"@, "connectors_enabled"@, "connectors_healthy"@, "connectors_degraded"@, "circuits_open"@, "events_total"@, "events_unrouted"@, "deliveries_queued"@, "deliveries_retry"@, "deliveries_delivered"@, "deliveries_shadowed"@, "deliveries_dead_letter"@, "tts_jobs_total"@, "tts_jobs_ready"@, "missing_required_secrets"@]
    } else {
        Seq::empty()
    }
}

fn texts(list: &[&'static str]) -> (r: Vec<&'static str>)
    ensures
        r@ == list@,
{
    let mut out: Vec<&'static str> = Vec::new();
    let mut i: usize = 0;
    while i < list.len()
        invariant
            i <= list@.len(),
            out@ == list@.take(i as int),
        decreases list@.len() - i,
    {
        out.push(list[i]);
        i = i + 1;
        assert(out@ =~= list@.take(i as int));
    }
    assert(list@.take(list@.len() as int) =~= list@);
    out
}

/// The summary fields shown for a core service, in order.
pub fn curated_metric_fields(service_name: &str) -> (r: Vec<&'static str>)
    ensures
        r@.map_values(|f: &'static str| f@) == curated_fields(service_name@),
{
    if str_eq(service_name, "node-gateway") {
        let r = texts(&["connected_nodes", "known_nodes", "stale_nodes", "backend_clients", "total_node_messages", "total_commands", "total_media_frames"]);
        assert(r@.map_values(|f: &'static str| f@) =~= curated_fields(service_name@));
        r
    } else if str_eq(service_name, "subscriber-core") {
        let r = texts(&["subscribers_total", "subscribers_authorized", "subscribers_blocked", "observed_registered", "nodes_connected", "nodes_out_of_sync"]);
        assert(r@.map_values(|f: &'static str| f@) =~= curated_fields(service_name@));
        r
    } else if str_eq(service_name, "group-core") {
        let r = texts(&["groups_total", "groups_enabled", "memberships_total", "observed_affiliations", "nodes_connected", "syncs_pending", "dgna_pending"]);
        assert(r@.map_values(|f: &'static str| f@) =~= curated_fields(service_name@));
        r
    } else if str_eq(service_name, "mobility-core") {
        let r = texts(&["subscribers_known", "transfers_active", "transfers_completed", "transfers_failed", "nodes_connected"]);
        assert(r@.map_values(|f: &'static str| f@) =~= curated_fields(service_name@));
        r
    } else if str_eq(service_name, "call-control") {
        let r = texts(&["calls_total", "calls_active", "calls_managed", "call_legs_active", "participants_registered", "pending_commands", "restores_pending"]);
        assert(r@.map_values(|f: &'static str| f@) =~= curated_fields(service_name@));
        r
    } else if str_eq(service_name, "media-switch") {
        let r = texts(&["sessions_active", "streams_active", "pending_frames", "frames_received", "frames_routed", "frames_dropped", "recorder_taps_buffered"]);
        assert(r@.map_values(|f: &'static str| f@) =~= curated_fields(service_name@));
        r
    } else if str_eq(service_name, "recorder") {
        let r = texts(&["active_recordings", "completed_recordings", "frames_ingested", "frames_lost_before_recorder", "storage_used_bytes", "storage_free_bytes"]);
        assert(r@.map_values(|f: &'static str| f@) =~= curated_fields(service_name@));
        r
    } else if str_eq(service_name, "sds-router") {
        let r = texts(&["messages_total", "queued", "offline", "in_flight", "delivered", "failed", "dead_letter", "duplicate_messages"]);
        assert(r@.map_values(|f: &'static str| f@) =~= curated_fields(service_name@));
        r
    } else if str_eq(service_name, "packet-core") {
        let r = texts(&["contexts_total", "contexts_ready", "contexts_standby", "contexts_suspended", "bearers_active", "actions_pending", "queued_packets", "queued_bytes"]);
        assert(r@.map_values(|f: &'static str| f@) =~= curated_fields(service_name@));
        r
    } else if str_eq(service_name, "ip-gateway") {
        let r = texts(&["contexts", "flows", "captures_active", "packets_uplink", "packets_downlink", "packets_dropped", "dns_queries", "test_requests"]);
        assert(r@.map_values(|f: &'static str| f@) =~= curated_fields(service_name@));
        r
    } else if str_eq(service_name, "security-core") {
        let r = texts(&["profiles", "subscribers", "active_auth_contexts", "active_dck_contexts", "pending_actions", "open_alarms", "known_nodes"]);
        assert(r@.map_values(|f: &'static str| f@) =~= curated_fields(service_name@));
        r
    } else if str_eq(service_name, "kmf") {
        let r = texts(&["total_keys", "active_keys", "staged_keys", "revoked_keys", "otar_jobs", "pending_actions", "enabled_nodes", "backups"]);
        assert(r@.map_values(|f: &'static str| f@) =~= curated_fields(service_name@));
        r
    } else if str_eq(service_name, "transit") {
        let r = texts(&["peers_total", "peers_up", "peers_degraded", "routes_total", "sessions_active", "outbound_pending", "local_deliveries_pending", "loop_rejections", "duplicate_rejections"]);
        assert(r@.map_values(|f: &'static str| f@) =~= curated_fields(service_name@));
        r
    } else if str_eq(service_name, "application-gateway") {
        let r = texts(&["connectors_total", "connectors_enabled", "connectors_healthy", "connectors_degraded", "circuits_open", "events_total", "events_unrouted", "deliveries_queued", "deliveries_retry", "deliveries_delivered", "deliveries_shadowed", "deliveries_dead_letter", "tts_jobs_total", "tts_jobs_ready", "missing_required_secrets"]);
        assert(r@.map_values(|f: &'static str| f@) =~= curated_fields(service_name@));
        r
    } else {
        let r: Vec<&'static str> = Vec::new();
        assert(r@.map_values(|f: &'static str| f@) =~= curated_fields(service_name@));
        r
    }
}

/// The places the headline counts of the federated overview are looked up
/// in, as `(key, summed, service, field)` rows in order: a count takes the
/// first figure found among its rows, or adds up all those found when it is
/// summed.
pub open spec fn preferred_count_rows_spec() -> Seq<(Seq<char>, bool, Seq<char>, Seq<char>)> {
    seq![
        ("connected_nodes"@, false, "node-gateway"@, "connected_nodes"@),
        ("connected_nodes"@, false, "mobility-core"@, "nodes_connected"@),
        ("connected_nodes"@, false, "subscriber-core"@, "nodes_connected"@),
        ("subscribers_registered"@, false, "subscriber-core"@, "observed_registered"@),
        ("subscribers_registered"@, false, "mobility-core"@, "subscribers_known"@),
        ("subscribers_total"@, false, "subscriber-core"@, "subscribers_total"@),
        ("groups_total"@, false, "group-core"@, "groups_total"@),
        ("group_affiliations"@, false, "group-core"@, "observed_affiliations"@),
        ("active_calls"@, false, "call-control"@, "calls_active"@),
        ("active_media_sessions"@, false, "media-switch"@, "sessions_active"@),
        ("active_recordings"@, false, "recorder"@, "active_recordings"@),
        ("sds_queued"@, true, "sds-router"@, "queued"@),
        ("sds_queued"@, true, "sds-router"@, "offline"@),
        ("sds_queued"@, true, "sds-router"@, "in_flight"@),
        ("packet_contexts_ready"@, false, "packet-core"@, "contexts_ready"@),
        ("ip_flows"@, false, "ip-gateway"@, "flows"@),
        ("security_alarms"@, false, "security-core"@, "open_alarms"@),
        ("active_keys"@, false, "kmf"@, "active_keys"@),
        ("transit_sessions"@, false, "transit"@, "sessions_active"@),
        ("transit_peers_up"@, false, "transit"@, "peers_up"@),
        ("application_deliveries_pending"@, true, "application-gateway"@, "deliveries_queued"@),
        ("application_deliveries_pending"@, true, "application-gateway"@, "deliveries_retry"@),
        ("application_dead_letters"@, false, "application-gateway"@, "deliveries_dead_letter"@),
    ]
}

/// The view of a row.
pub open spec fn row_view(r: (&'static str, bool, &'static str, &'static str)) -> (Seq<char>, bool, Seq<char>, Seq<char>) {
    (r.0@, r.1, r.2@, r.3@)
}

/// The places the headline counts are looked up in, in order.
pub fn preferred_count_rows() -> (r: Vec<(&'static str, bool, &'static str, &'static str)>)
    ensures
        r@.map_values(|x: (&'static str, bool, &'static str, &'static str)| row_view(x)) == preferred_count_rows_spec(),
{
    let mut r: Vec<(&'static str, bool, &'static str, &'static str)> = Vec::new();
    r.push(("connected_nodes", false, "node-gateway", "connected_nodes"));
    r.push(("connected_nodes", false, "mobility-core", "nodes_connected"));
    r.push(("connected_nodes", false, "subscriber-core", "nodes_connected"));
    r.push(("subscribers_registered", false, "subscriber-core", "observed_registered"));
    r.push(("subscribers_registered", false, "mobility-core", "subscribers_known"));
    r.push(("subscribers_total", false, "subscriber-core", "subscribers_total"));
    r.push(("groups_total", false, "group-core", "groups_total"));
    r.push(("group_affiliations", false, "group-core", "observed_affiliations"));
    r.push(("active_calls", false, "call-control", "calls_active"));
    r.push(("active_media_sessions", false, "media-switch", "sessions_active"));
    r.push(("active_recordings", false, "recorder", "active_recordings"));
    r.push(("sds_queued", true, "sds-router", "queued"));
    r.push(("sds_queued", true, "sds-router", "offline"));
    r.push(("sds_queued", true, "sds-router", "in_flight"));
    r.push(("packet_contexts_ready", false, "packet-core", "contexts_ready"));
    r.push(("ip_flows", false, "ip-gateway", "flows"));
    r.push(("security_alarms", false, "security-core", "open_alarms"));
    r.push(("active_keys", false, "kmf", "active_keys"));
    r.push(("transit_sessions", false, "transit", "sessions_active"));
    r.push(("transit_peers_up", false, "transit", "peers_up"));
    r.push(("application_deliveries_pending", true, "application-gateway", "deliveries_queued"));
    r.push(("application_deliveries_pending", true, "application-gateway", "deliveries_retry"));
    r.push(("application_dead_letters", false, "application-gateway", "deliveries_dead_letter"));
    assert(r@.map_values(|x: (&'static str, bool, &'static str, &'static str)| row_view(x))
        =~= preferred_count_rows_spec());
    r
}

} // verus!
