//! Properties that hold across the operations of the library.
use vstd::prelude::*;
use crate::operations::{
    acknowledge_outcome, find_incident, first_open_for, keep_newest, journal_keep, notes_after, open_for,
    reconciled, resolve_outcome, service_key, unchanged, IncidentActionRequest, IncidentNote, IncidentRecord,
    OperationsState, ServiceSnapshot,
};
use crate::cr_config::{normalise_path_seq, service_names, services_normal_form, CoreServiceConfig};
use crate::text::{lemma_seq_lt_irrefl, seq_lt};
use crate::umac::length_ind_spec;
use crate::http::{query_usize_spec, websocket_upgrade_text};
use crate::text::{is_ws, lower_char, lower_seq, trim_end_seq, trim_seq, trim_start_seq, upper_char, upper_seq};
use crate::stack_config::{cell_config_error, stack_config_error, unicast_ipv4, PhyBackend, StackConfig};
use crate::sec_cell::CfgCellInfo;
use crate::node_state::{empty_radio, group_or_fresh, GroupView, event_effect, keep_last, RadioView, TelemetryEvent, SDS_LOG_LIMIT};
use crate::node_state::NodeState;
use crate::room_registry::{
    ack_status, commands_after, first_command, ids_unique, is_first_command, knows, message_node_id, newest_matching,
    node_index, node_step, queued_entry, register_after, with_ack, with_response, CommandView, NodeMessage,
};
use crate::directory_doc::{canonical, merged, merged_directory};
use crate::json::{get_view, is_first_key, lemma_lookup_set_entry, lookup, JsonView};
use crate::sec_edge_fallback::{edge_fallback_from_dto, edge_fallback_patch_error, CfgEdgeFallback, CfgEdgeFallbackDto};

use crate::sec_asterisk::asterisk_route;
use crate::sec_media_library::{media_library_patch_error, valid_station_id_seq, CfgMediaLibraryDto};
use crate::room_snapshots::emergency_listed;
use crate::room_state::EmergencyDetail;
use crate::directory_doc::{basestation_entry, field_string, kind_entry, or_text, text_field_put, ItemKind};
use crate::json::{find_key, insert_position, is_first_after, lemma_first_key_exists, set_entry};
use crate::text::{dec_seq, starts_with_seq, trim_end_char_seq};

verus! {

/// Reading a key of a text map after writing it gives the value written, and
/// every other key keeps its value.
pub proof fn law_text_map_read_after_write(
    before: Map<Seq<char>, Seq<char>>,
    after: Map<Seq<char>, Seq<char>>,
    key: Seq<char>,
    value: Seq<char>,
    other: Seq<char>,
)
    requires
        after == before.insert(key, value),
    ensures
        after.dom().contains(key),
        after[key] == value,
        other != key ==> (after.dom().contains(other) == before.dom().contains(other)),
        other != key && before.dom().contains(other) ==> after[other] == before[other],
{
}

/// Two incident lists with the same ids in the same places find every id at
/// the same place.
proof fn lemma_find_incident_ids(a: Seq<IncidentRecord>, b: Seq<IncidentRecord>, id: Seq<char>)
    requires
        a.len() == b.len(),
        forall|j: int| 0 <= j < a.len() ==> a[j].id@ == b[j].id@,
    ensures
        find_incident(a, id) == find_incident(b, id),
    decreases a.len(),
{
    if a.len() > 0 {
        lemma_find_incident_ids(a.drop_first(), b.drop_first(), id);
        assert(a[0].id@ == b[0].id@);
        assert forall|j: int| 0 <= j < a.drop_first().len() implies a.drop_first()[j].id@ == b.drop_first()[j].id@ by {
            assert(a.drop_first()[j] == a[j + 1]);
            assert(b.drop_first()[j] == b[j + 1]);
        }
    }
}

/// Once an incident is resolved, acknowledging it is refused and changes
/// nothing.
pub proof fn law_resolved_incident_cannot_be_acknowledged(
    s0: OperationsState,
    s1: OperationsState,
    s2: OperationsState,
    id: Seq<char>,
    resolve_request: IncidentActionRequest,
    ack_request: IncidentActionRequest,
    now1: Seq<char>,
    now2: Seq<char>,
    note1: Seq<char>,
    note2: Seq<char>,
    r1: Result<IncidentRecord, String>,
    r2: Result<IncidentRecord, String>,
)
    requires
        resolve_outcome(s0, s1, id, resolve_request, now1, note1, r1),
        r1 is Ok,
        acknowledge_outcome(s1, s2, id, ack_request, now2, note2, r2),
    ensures
        r2 matches Err(e) && e@ == "resolved incident cannot be acknowledged"@,
        unchanged(s1, s2),
{
    let i = find_incident(s0.incidents@, id)->0;
    assert forall|j: int| 0 <= j < s0.incidents@.len() implies s0.incidents@[j].id@ == s1.incidents@[j].id@ by {
        if j != i {
            assert(s1.incidents@[j] == s0.incidents@[j]);
        }
    }
    lemma_find_incident_ids(s0.incidents@, s1.incidents@, id);
}

/// Acknowledging, resolving and annotating an incident never drop or change
/// a note that it had: the old notes stay, in order, at the front.
pub proof fn law_notes_only_grow(
    before: Seq<IncidentNote>,
    after: Seq<IncidentNote>,
    note: Option<Seq<char>>,
    note_id: Seq<char>,
    now: Seq<char>,
    operator: Seq<char>,
)
    requires
        notes_after(before, after, note, note_id, now, operator),
    ensures
        after.len() >= before.len(),
        after.take(before.len() as int) == before,
{
    if note is None {
        assert(after.take(before.len() as int) =~= before);
    }
}

/// The incident journal and the shift log keep their newest entries: never
/// more than the limit (at least 100), the newest last, and nothing dropped
/// while the limit is not reached.
pub proof fn law_journal_keeps_newest<T>(s: Seq<T>, limit: usize)
    ensures
        keep_newest(s, limit).len() <= if s.len() < journal_keep(limit) { s.len() as int } else { journal_keep(limit) },
        keep_newest(s, limit) == s.skip(s.len() - keep_newest(s, limit).len()),
        s.len() <= journal_keep(limit) ==> keep_newest(s, limit) == s,
{
    if s.len() <= journal_keep(limit) {
        assert(s.skip(0) =~= s);
    }
}

/// No two unresolved incidents with the key `key`.
pub open spec fn at_most_one_open(l: Seq<IncidentRecord>, key: Seq<char>) -> bool {
    forall|a: int, b: int| 0 <= a < b < l.len() ==> !(open_for(#[trigger] l[a], key) && open_for(#[trigger] l[b], key))
}

proof fn lemma_first_open_for_none(l: Seq<IncidentRecord>, key: Seq<char>)
    requires
        first_open_for(l, key) is None,
    ensures
        forall|j: int| 0 <= j < l.len() ==> !open_for(l[j], key),
    decreases l.len(),
{
    if l.len() > 0 {
        lemma_first_open_for_none(l.drop_first(), key);
        assert forall|j: int| 0 < j < l.len() implies l[j] == l.drop_first()[j - 1] by {}
    }
}

/// Service monitoring never leaves two unresolved incidents open for the same
/// service: what one poll does to the incident list keeps at most one.
pub proof fn law_monitoring_keeps_one_open_incident(
    o: Seq<IncidentRecord>,
    n: Seq<IncidentRecord>,
    s: ServiceSnapshot,
    failure_threshold: u32,
    id: Seq<char>,
    now: Seq<char>,
    note_id: Seq<char>,
)
    requires
        reconciled(o, n, s, failure_threshold, id, now, note_id),
        at_most_one_open(o, service_key(s.name@)),
    ensures
        at_most_one_open(n, service_key(s.name@)),
{
    let key = service_key(s.name@);
    if n != o {
        match first_open_for(o, key) {
            None => {
                lemma_first_open_for_none(o, key);
                assert forall|a: int, b: int| 0 <= a < b < n.len() implies !(open_for(#[trigger] n[a], key)
                    && open_for(#[trigger] n[b], key)) by {
                    assert(n[a] == n.take(o.len() as int)[a]);
                    if b < o.len() {
                        assert(n[b] == n.take(o.len() as int)[b]);
                    }
                }
            },
            Some(i) => {
                reveal_strlit("resolved");
                assert forall|a: int, b: int| 0 <= a < b < n.len() implies !(open_for(#[trigger] n[a], key)
                    && open_for(#[trigger] n[b], key)) by {
                    if a != i && b != i {
                        assert(n[a] == o[a] && n[b] == o[b]);
                    }
                }
            },
        }
    }
}

/// A path in normal form stays as it is when brought into normal form again.
pub proof fn law_normal_path_is_fixed(path: Seq<char>)
    ensures
        normalise_path_seq(normalise_path_seq(path)) == normalise_path_seq(path),
{
    let n = normalise_path_seq(path);
    assert(n.len() > 0 && n[0] == '/');
}

/// After the service list is brought into normal form, no two services share
/// a name.
pub proof fn law_service_names_unique(base: Seq<CoreServiceConfig>, out: Seq<CoreServiceConfig>, a: int, b: int)
    requires
        services_normal_form(base, out),
        0 <= a < b < out.len(),
    ensures
        out[a].name@ != out[b].name@,
{
    assert(service_names(out)[a] == out[a].name@);
    assert(service_names(out)[b] == out[b].name@);
    assert(seq_lt(service_names(out)[a], service_names(out)[b]));
    lemma_seq_lt_irrefl(out[a].name@);
}

/// A PDU that a length indication delimits never reaches past the MAC block.
pub proof fn law_pdu_within_block(length_ind: u8, remaining_bits: usize)
    ensures
        length_ind_spec(length_ind, remaining_bits).pdu_len_bits <= remaining_bits,
{
}

/// A length indication marks at most one of a null PDU, a fragmentation
/// start and a stolen half slot; only 0 marks a null PDU; and a null PDU or a
/// fragmentation start carries no known length.
pub proof fn law_length_ind_flags(length_ind: u8, remaining_bits: usize)
    ensures
        ({
            let i = length_ind_spec(length_ind, remaining_bits);
            &&& !(i.is_null_pdu && i.is_frag_start)
            &&& !(i.is_null_pdu && i.second_half_stolen)
            &&& !(i.is_frag_start && i.second_half_stolen)
            &&& (i.is_null_pdu <==> length_ind == 0)
            &&& (i.is_null_pdu || i.is_frag_start ==> i.pdu_len_bits == 0)
        }),
{
}

/// A stack configuration that passes the checks has a defined PHY backend,
/// with its SoapySDR section where that is the backend, two distinct
/// carriers, and a recovery allowlist no longer than the cache cap.
pub proof fn law_validated_stack_is_runnable(cfg: StackConfig, timezone_known: bool, soapy_error: Option<Seq<char>>)
    requires
        stack_config_error(cfg, timezone_known, soapy_error) is None,
    ensures
        cfg.phy_io.backend != PhyBackend::Undefined,
        cfg.phy_io.backend == PhyBackend::SoapySdr ==> cfg.phy_io.soapysdr_configured && soapy_error is None,
        cfg.cell.secondary_carrier != Some(cfg.cell.main_carrier),
        cfg.cell.ms_txpwr_max_cell <= 7,
        cfg.recovery.enabled && cfg.recovery.issi_allowlist@.len() > 0 ==> (cfg.recovery.issi_allowlist@.len() as u32)
            <= cfg.recovery.max_cached_issis,
{
}

/// A numeric query parameter never exceeds its bound.
pub proof fn law_query_number_bounded(q: Map<Seq<char>, Seq<char>>, key: Seq<char>, default: usize, max: usize)
    ensures
        query_usize_spec(q, key, default, max) <= max,
{
}

/// A cell configuration that passes the checks stays inside the ranges that
/// the air interface can carry.
pub proof fn law_accepted_cell_in_range(c: CfgCellInfo, timezone_known: bool)
    requires
        cell_config_error(c, timezone_known) is None,
    ensures
        c.ms_txpwr_max_cell <= 7,
        c.secondary_carrier != Some(c.main_carrier),
        c.wap_ip.pdu_priority_max <= 7,
        1 <= c.wap_ip.mtu_code <= 5,
        1 <= c.wap_ip.max_contexts_per_issi <= 14,
        c.wap_ip.max_contexts_per_issi <= c.wap_ip.max_total_contexts,
        1 <= c.packet_data_gateway.prefix_len <= 30,
        c.packet_data_gateway.dns_servers@.len() <= 2,
        forall|k: int| 0 <= k < c.packet_data_gateway.dns_servers@.len() ==> unicast_ipv4(
            #[trigger] c.packet_data_gateway.dns_servers@[k]@,
        ),
        c.neighbor_cells_ca@.len() <= 7,
        c.timezone is Some ==> timezone_known,
{
}

/// An accepted autonomy policy has a fallback mode for every service it
/// requires.
pub proof fn law_required_services_have_fallbacks(src: CfgEdgeFallbackDto, cfg: CfgEdgeFallback, i: int)
    requires
        edge_fallback_patch_error(src) is None,
        edge_fallback_from_dto(src, cfg),
        0 <= i < cfg.required_services.deep_view().len(),
    ensures
        cfg.service_fallbacks@.dom().contains(cfg.required_services.deep_view()[i]),
{
}


/// A subscriber that deregisters or drops out is a member of no talk group
/// afterwards.
pub proof fn law_departed_subscriber_leaves_every_group(r: RadioView, at: String, issi: u32, timed_out: bool, gssi: u32)
    ensures
        ({
            let e = if timed_out {
                TelemetryEvent::MsTimeoutDrop { issi }
            } else {
                TelemetryEvent::MsDeregistration { issi }
            };
            let n = event_effect(r, at, e);
            &&& n.groups.dom() == r.groups.dom()
            &&& n.groups.contains_key(gssi) ==> !n.groups[gssi].members.contains(issi)
            &&& !n.subscribers[issi].online
        }),
{
    let e = if timed_out {
        TelemetryEvent::MsTimeoutDrop { issi }
    } else {
        TelemetryEvent::MsDeregistration { issi }
    };
    assert(event_effect(r, at, e).groups.dom() =~= r.groups.dom());
}

/// After a group call ends, no talk group advertises that call any more and
/// the call is gone from the call list.
pub proof fn law_ended_call_is_advertised_nowhere(r: RadioView, at: String, call_id: u16, gssi: u32, g: u32)
    ensures
        ({
            let n = event_effect(r, at, TelemetryEvent::GroupCallEnded { call_id, gssi });
            &&& !n.group_calls.contains_key(call_id)
            &&& n.groups.contains_key(g) ==> n.groups[g].active_call_id != Some(call_id)
        }),
{
}

/// The SDS log of a node never grows beyond 200 entries, and its newest entry
/// is the one just logged.
pub proof fn law_sds_log_bounded(r: RadioView, at: String, e: TelemetryEvent)
    requires
        r.sds_log.len() <= SDS_LOG_LIMIT,
    ensures
        event_effect(r, at, e).sds_log.len() <= SDS_LOG_LIMIT,
        e is SdsLog ==> event_effect(r, at, e).sds_log.last().text == e->SdsLog_text,
{
    if e is SdsLog {
        assert(keep_last(r.sds_log.push(event_effect(r, at, e).sds_log.last()), SDS_LOG_LIMIT as nat).len() <= SDS_LOG_LIMIT);
    }
}

/// A group attachment makes the subscriber a member of each group named and
/// names each group among the subscriber's groups; other groups keep their
/// members.
pub proof fn law_attach_links_both_sides(r: RadioView, at: String, issi: u32, gssis: Vec<u32>, g: u32)
    ensures
        ({
            let n = event_effect(r, at, TelemetryEvent::MsGroupAttach { issi, gssis });
            &&& gssis@.contains(g) ==> n.groups.contains_key(g) && n.groups[g].members.contains(issi)
                && n.subscribers[issi].groups.contains(g)
            &&& !gssis@.contains(g) && r.groups.contains_key(g) ==> n.groups[g] == r.groups[g]
        }),
{
    let n = event_effect(r, at, TelemetryEvent::MsGroupAttach { issi, gssis });
    if gssis@.contains(g) {
        assert(gssis@.to_set().contains(g));
    } else {
        assert(!gssis@.to_set().contains(g));
    }
}

/// A node that sends the control room anything but a media frame is in the
/// register afterwards, under its own id.
pub proof fn law_sender_is_registered(before: Seq<NodeState>, after: Seq<NodeState>, m: NodeMessage, now: String)
    requires
        ids_unique(before),
        register_after(before, after, m, now),
        !(m is MediaFrame),
    ensures
        knows(after, message_node_id(m)),
{
    let id = message_node_id(m);
    let step = node_step(m, now);
    if knows(before, id) {
        let i = node_index(before, id);
        assert(step(before[i], after[i]));
        assert(after[i].node_id == before[i].node_id);
    } else {
        let k = before.len() as int;
        let fresh = choose|f: NodeState| crate::node_state::node_is_new(f, id) && step(f, after[k]);
        assert(after[k].node_id == fresh.node_id);
    }
}

/// The trail after `s` took the entry `q`, when `s` held no entry for its
/// command: `q` is its newest entry and the first one for that command.
proof fn lemma_queued_is_first(s: Seq<CommandView>, q: CommandView, limit: nat)
    requires
        limit > 0,
        forall|j: int| 0 <= j < s.len() ==> #[trigger] s[j].command_id != q.command_id,
    ensures
        keep_last(s.push(q), limit).len() > 0,
        keep_last(s.push(q), limit).last() == q,
        first_command(keep_last(s.push(q), limit), q.command_id) == Some(
            keep_last(s.push(q), limit).len() - 1,
        ),
{
    let t = keep_last(s.push(q), limit);
    let last = t.len() - 1;
    assert forall|j: int| 0 <= j < last implies #[trigger] t[j].command_id != q.command_id by {
        if s.push(q).len() > limit {
            assert(t[j] == s.push(q)[j + (s.push(q).len() - limit)]);
        }
    }
    assert(is_first_command(t, q.command_id, last));
    let k = choose|k: int| is_first_command(t, q.command_id, k);
    if k < last {
        assert(t[k].command_id != q.command_id);
    } else if k > last {
        assert(false);
    }
}

/// A command queued for a node and then accepted or rejected by it keeps
/// one entry, the newest of the trail: the command as sent, with the
/// outcome, the node's message and the time of the acknowledgement.
pub proof fn law_ack_settles_queued_command(
    s: Seq<CommandView>,
    command_id: Seq<char>,
    target_node_id: Seq<char>,
    operator_id: Option<Seq<char>>,
    issued_at: Seq<char>,
    queued_at: Seq<char>,
    command: serde_json::Value,
    accepted: bool,
    target_entity: Option<Seq<char>>,
    message: Seq<char>,
    timestamp: Seq<char>,
    limit: nat,
)
    requires
        limit > 0,
        forall|j: int| 0 <= j < s.len() ==> #[trigger] s[j].command_id != command_id,
    ensures
        ({
            let queued = keep_last(
                s.push(queued_entry(command_id, target_node_id, operator_id, issued_at, queued_at, command)),
                limit,
            );
            let t = with_ack(queued, target_node_id, command_id, accepted, target_entity, message, timestamp, limit);
            &&& t.len() == queued.len()
            &&& t.last().command_id == command_id
            &&& t.last().status == ack_status(accepted)
            &&& t.last().command == Some(command)
            &&& t.last().issued_at == issued_at
            &&& t.last().updated_at == timestamp
            &&& t.last().message == Some(message)
        }),
{
    let q = queued_entry(command_id, target_node_id, operator_id, issued_at, queued_at, command);
    lemma_queued_is_first(s, q, limit);
}

/// A command queued for a node and then answered by it is completed: its
/// entry, the newest of the trail, keeps the command as sent and holds the
/// answer.
pub proof fn law_answer_completes_queued_command(
    s: Seq<CommandView>,
    command_id: Seq<char>,
    target_node_id: Seq<char>,
    operator_id: Option<Seq<char>>,
    issued_at: Seq<char>,
    queued_at: Seq<char>,
    command: serde_json::Value,
    fresh_id: Seq<char>,
    target_entity: Option<Seq<char>>,
    timestamp: Seq<char>,
    response: serde_json::Value,
    limit: nat,
)
    requires
        limit > 0,
        forall|j: int| 0 <= j < s.len() ==> #[trigger] s[j].command_id != command_id,
    ensures
        ({
            let queued = keep_last(
                s.push(queued_entry(command_id, target_node_id, operator_id, issued_at, queued_at, command)),
                limit,
            );
            let t = with_response(
                queued,
                target_node_id,
                Some(command_id),
                fresh_id,
                target_entity,
                timestamp,
                response,
                limit,
            );
            &&& t.len() == queued.len()
            &&& t.last().command_id == command_id
            &&& t.last().status == "completed"@
            &&& t.last().command == Some(command)
            &&& t.last().responses == seq![response]
        }),
{
    let q = queued_entry(command_id, target_node_id, operator_id, issued_at, queued_at, command);
    lemma_queued_is_first(s, q, limit);
    assert(Seq::<serde_json::Value>::empty().push(response) =~= seq![response]);
}

/// A listing of the newest entries holds at most `limit` of them, each one
/// that the filter keeps and that the log holds.
pub proof fn law_listing_respects_filter<T>(s: Seq<T>, keep: spec_fn(T) -> bool, limit: nat)
    ensures
        newest_matching(s, keep, limit).len() <= limit,
        forall|k: int|
            0 <= k < newest_matching(s, keep, limit).len() ==> keep(#[trigger] newest_matching(s, keep, limit)[k])
                && s.contains(newest_matching(s, keep, limit)[k]),
    decreases s.len(),
{
    if s.len() == 0 || limit == 0 {
    } else {
        let rest = s.drop_last();
        if keep(s.last()) {
            law_listing_respects_filter(rest, keep, (limit - 1) as nat);
            let r = newest_matching(rest, keep, (limit - 1) as nat);
            assert forall|k: int| 0 <= k < newest_matching(s, keep, limit).len() implies keep(
                #[trigger] newest_matching(s, keep, limit)[k],
            ) && s.contains(newest_matching(s, keep, limit)[k]) by {
                if k == 0 {
                    assert(s[s.len() - 1] == s.last());
                } else {
                    assert(newest_matching(s, keep, limit)[k] == r[k - 1]);
                    let x = r[k - 1];
                    let j = choose|j: int| 0 <= j < rest.len() && rest[j] == x;
                    assert(s[j] == x);
                }
            }
        } else {
            law_listing_respects_filter(rest, keep, limit);
            let r = newest_matching(rest, keep, limit);
            assert forall|k: int| 0 <= k < newest_matching(s, keep, limit).len() implies keep(
                #[trigger] newest_matching(s, keep, limit)[k],
            ) && s.contains(newest_matching(s, keep, limit)[k]) by {
                let x = r[k];
                let j = choose|j: int| 0 <= j < rest.len() && rest[j] == x;
                assert(s[j] == x);
            }
        }
    }
}

/// Whatever is merged into the directory, the directory stays an object that
/// says whether to hide the infrastructure.
pub proof fn law_merged_directory_says_whether_to_hide(target: JsonView, incoming: JsonView)
    ensures
        merged_directory(target, incoming) is Object,
        get_view(merged_directory(target, incoming), "hide_infrastructure"@) is Some,
{
    let base = match target {
        JsonView::Object(_) => target,
        _ => JsonView::Object(Seq::empty()),
    };
    let m = merged(base, canonical(incoming));
    match m {
        JsonView::Object(es) => {
            if lookup(es, "hide_infrastructure"@) is None {
                lemma_lookup_set_entry(es, "hide_infrastructure"@, JsonView::Bool(true));
            }
        },
        _ => {
            let single = seq![("hide_infrastructure"@, JsonView::Bool(true))];
            assert(is_first_key(single, "hide_infrastructure"@, 0));
        },
    }
}

/// The links of a node's radio picture: every subscriber and group sits
/// under its own number; every member of a group is a known subscriber that
/// lists the group; and every group a subscriber lists is known.
pub open spec fn radio_links(r: RadioView) -> bool {
    &&& forall|k: u32| #[trigger] r.subscribers.contains_key(k) ==> r.subscribers[k].issi == k
    &&& forall|k: u32| #[trigger] r.groups.contains_key(k) ==> r.groups[k].gssi == k
    &&& forall|g: u32, i: u32|
        r.groups.contains_key(g) && #[trigger] r.groups[g].members.contains(i) ==> r.subscribers.contains_key(i)
            && r.subscribers[i].groups.contains(g)
    &&& forall|i: u32, g: u32|
        r.subscribers.contains_key(i) && #[trigger] r.subscribers[i].groups.contains(g) ==> r.groups.contains_key(g)
}

/// Every call a group of the radio picture advertises is a known group call.
pub open spec fn radio_calls(r: RadioView) -> bool {
    forall|g: u32|
        #[trigger] r.groups.contains_key(g) && r.groups[g].active_call_id is Some ==> r.group_calls.contains_key(
            r.groups[g].active_call_id->0,
        )
}

/// The consistency of a node's radio picture: its links and its calls.
pub open spec fn radio_consistent(r: RadioView) -> bool {
    radio_links(r) && radio_calls(r)
}

/// A node that has reported nothing yet has a consistent radio picture.
pub proof fn law_empty_radio_consistent(r: RadioView)
    requires
        empty_radio(r),
    ensures
        radio_consistent(r),
{
}

/// A step that keeps each subscriber's number and groups (a new subscriber
/// has none), keeps the groups' numbers and may take members out of groups
/// keeps the links of the radio picture.
proof fn lemma_refresh_keeps_consistent(r: RadioView, n: RadioView)
    requires
        radio_links(r),
        r.subscribers.dom().subset_of(n.subscribers.dom()),
        forall|k: u32|
            #[trigger] n.subscribers.contains_key(k) ==> n.subscribers[k].issi == k && n.subscribers[k].groups == (
            if r.subscribers.contains_key(k) {
                r.subscribers[k].groups
            } else {
                Set::<u32>::empty()
            }),
        n.groups.dom() == r.groups.dom(),
        forall|g: u32|
            #[trigger] n.groups.contains_key(g) ==> n.groups[g].gssi == r.groups[g].gssi
                && n.groups[g].members.subset_of(r.groups[g].members) && (n.groups[g].active_call_id is None
                || n.groups[g].active_call_id == r.groups[g].active_call_id),
    ensures
        radio_links(n),
{
    assert forall|g: u32, i: u32| n.groups.contains_key(g) && #[trigger] n.groups[g].members.contains(i) implies n.subscribers.contains_key(
        i,
    ) && n.subscribers[i].groups.contains(g) by {
        assert(r.groups.contains_key(g));
        assert(r.groups[g].members.contains(i));
    }
    assert forall|i: u32, g: u32| n.subscribers.contains_key(i) && #[trigger] n.subscribers[i].groups.contains(g) implies n.groups.contains_key(g) by {
        assert(r.subscribers.contains_key(i));
        assert(r.subscribers[i].groups.contains(g));
    }
}

/// Every telemetry event keeps the links of a node's radio picture, and no
/// event forgets a subscriber or a talk group.
#[verifier::spinoff_prover]
pub proof fn law_event_keeps_radio_links(r: RadioView, at: String, e: TelemetryEvent)
    requires
        radio_links(r),
    ensures
        radio_links(event_effect(r, at, e)),
        r.subscribers.dom().subset_of(event_effect(r, at, e).subscribers.dom()),
        r.groups.dom().subset_of(event_effect(r, at, e).groups.dom()),
{
    let n = event_effect(r, at, e);
    match e {
        TelemetryEvent::MsGroupAttach { issi, gssis } => {
            lemma_attach_keeps_consistent(r, at, issi, gssis);
        },
        TelemetryEvent::MsGroupsSnapshot { issi, gssis } => {
            lemma_snapshot_keeps_consistent(r, at, issi, gssis);
        },
        TelemetryEvent::MsGroupDetach { issi, gssis } => {
            lemma_detach_keeps_consistent(r, at, issi, gssis);
        },
        TelemetryEvent::GroupCallStarted { call_id, gssi, caller_issi, .. } => {
            lemma_call_advertised_keeps_consistent(r, n, call_id, gssi);
        },
        TelemetryEvent::GroupCallSpeakerChanged { call_id, gssi, speaker_issi, .. } => {
            lemma_call_advertised_keeps_consistent(r, n, call_id, gssi);
        },
        TelemetryEvent::GroupCallEnded { call_id, .. } => {
            assert forall|g: u32, i: u32| n.groups.contains_key(g) && #[trigger] n.groups[g].members.contains(i) implies n.subscribers.contains_key(
                i,
            ) && n.subscribers[i].groups.contains(g) by {
                assert(r.groups[g].members.contains(i));
            }
        },
        TelemetryEvent::MsRegistration { .. } => {
            assert(n.groups.dom() =~= r.groups.dom());
            lemma_refresh_keeps_consistent(r, n);
        },
        TelemetryEvent::MsDeregistration { .. } => {
            assert(n.groups.dom() =~= r.groups.dom());
            lemma_refresh_keeps_consistent(r, n);
        },
        TelemetryEvent::MsTimeoutDrop { .. } => {
            assert(n.groups.dom() =~= r.groups.dom());
            lemma_refresh_keeps_consistent(r, n);
        },
        TelemetryEvent::MsRssi { .. } => {
            assert(n.groups.dom() =~= r.groups.dom());
            lemma_refresh_keeps_consistent(r, n);
        },
        TelemetryEvent::MsEnergySaving { .. } => {
            assert(n.groups.dom() =~= r.groups.dom());
            lemma_refresh_keeps_consistent(r, n);
        },
        TelemetryEvent::IndividualCallStarted { .. } => {
            assert(n.groups.dom() =~= r.groups.dom());
            lemma_refresh_keeps_consistent(r, n);
        },
        TelemetryEvent::IndividualCallEnded { .. } => {
            assert(n.groups.dom() =~= r.groups.dom());
            lemma_refresh_keeps_consistent(r, n);
        },
        TelemetryEvent::SdsActivity { .. } => {
            assert(n.groups.dom() =~= r.groups.dom());
            lemma_refresh_keeps_consistent(r, n);
        },
        TelemetryEvent::SdsLog { .. } => {
            assert(n.groups.dom() =~= r.groups.dom());
            lemma_refresh_keeps_consistent(r, n);
        },
        TelemetryEvent::SdsEdgeIngress { .. } => {
            assert(n.groups.dom() =~= r.groups.dom());
            lemma_refresh_keeps_consistent(r, n);
        },
        TelemetryEvent::TsVoiceActivity { .. } => {
            assert(n.groups.dom() =~= r.groups.dom());
            lemma_refresh_keeps_consistent(r, n);
        },
        TelemetryEvent::TxQuality { .. } => {
            assert(n.groups.dom() =~= r.groups.dom());
            lemma_refresh_keeps_consistent(r, n);
        },
        TelemetryEvent::TxVisual { .. } => {
            assert(n.groups.dom() =~= r.groups.dom());
            lemma_refresh_keeps_consistent(r, n);
        },
        TelemetryEvent::SdrHealth { .. } => {
            assert(n.groups.dom() =~= r.groups.dom());
            lemma_refresh_keeps_consistent(r, n);
        },
        TelemetryEvent::SysHealth { .. } => {
            assert(n.groups.dom() =~= r.groups.dom());
            lemma_refresh_keeps_consistent(r, n);
        },
        TelemetryEvent::HealthSnapshot { .. } => {
            assert(n.groups.dom() =~= r.groups.dom());
            lemma_refresh_keeps_consistent(r, n);
        },
        TelemetryEvent::PacketDataSnapshot { .. } => {
            assert(n.groups.dom() =~= r.groups.dom());
            lemma_refresh_keeps_consistent(r, n);
        },
        TelemetryEvent::BrewConnected { .. } => {
            assert(n.groups.dom() =~= r.groups.dom());
            lemma_refresh_keeps_consistent(r, n);
        },
        TelemetryEvent::EmergencyAlarm { .. } => {
            assert(n.groups.dom() =~= r.groups.dom());
            lemma_refresh_keeps_consistent(r, n);
        },
        TelemetryEvent::EmergencyCancel { .. } => {
            assert(n.groups.dom() =~= r.groups.dom());
            lemma_refresh_keeps_consistent(r, n);
        },
        TelemetryEvent::BrewSubscriberRegistered { .. } => {
            assert(n.groups.dom() =~= r.groups.dom());
            lemma_refresh_keeps_consistent(r, n);
        },
        TelemetryEvent::BrewSubscriberDeregistered { .. } => {
            assert(n.groups.dom() =~= r.groups.dom());
            lemma_refresh_keeps_consistent(r, n);
        },
        TelemetryEvent::DapnetLog => {
            assert(n.groups.dom() =~= r.groups.dom());
            lemma_refresh_keeps_consistent(r, n);
        },
        TelemetryEvent::MeshcomMessageLog => {
            assert(n.groups.dom() =~= r.groups.dom());
            lemma_refresh_keeps_consistent(r, n);
        },
        TelemetryEvent::MeshcomNodeUpdate => {
            assert(n.groups.dom() =~= r.groups.dom());
            lemma_refresh_keeps_consistent(r, n);
        },
    }
}

/// A group call that starts or changes speaker keeps the links of the radio
/// picture: the group keeps its members, and subscribers keep their numbers
/// and groups.
proof fn lemma_call_advertised_keeps_consistent(r: RadioView, n: RadioView, call_id: u16, gssi: u32)
    requires
        radio_links(r),
        r.subscribers.dom().subset_of(n.subscribers.dom()),
        forall|k: u32|
            #[trigger] n.subscribers.contains_key(k) ==> n.subscribers[k].issi == k && n.subscribers[k].groups == (
            if r.subscribers.contains_key(k) {
                r.subscribers[k].groups
            } else {
                Set::<u32>::empty()
            }),
        n.groups == r.groups.insert(
            gssi,
            GroupView { active_call_id: Some(call_id), ..group_or_fresh(r.groups, gssi) },
        ),
    ensures
        radio_links(n),
        r.groups.dom().subset_of(n.groups.dom()),
{
    assert forall|g: u32, i: u32| n.groups.contains_key(g) && #[trigger] n.groups[g].members.contains(i) implies n.subscribers.contains_key(
        i,
    ) && n.subscribers[i].groups.contains(g) by {
        assert(r.groups.contains_key(g));
        assert(r.groups[g].members.contains(i));
    }
    assert forall|i: u32, g: u32| n.subscribers.contains_key(i) && #[trigger] n.subscribers[i].groups.contains(g) implies n.groups.contains_key(g) by {
        assert(r.subscribers.contains_key(i));
        assert(r.subscribers[i].groups.contains(g));
    }
}

/// A group attachment keeps the links of the radio picture.
proof fn lemma_attach_keeps_consistent(r: RadioView, at: String, issi: u32, gssis: Vec<u32>)
    requires
        radio_links(r),
    ensures
        radio_links(event_effect(r, at, TelemetryEvent::MsGroupAttach { issi, gssis })),
        r.subscribers.dom().subset_of(event_effect(r, at, TelemetryEvent::MsGroupAttach { issi, gssis }).subscribers.dom()),
        r.groups.dom().subset_of(event_effect(r, at, TelemetryEvent::MsGroupAttach { issi, gssis }).groups.dom()),
{
    let n = event_effect(r, at, TelemetryEvent::MsGroupAttach { issi, gssis });
    let set = gssis@.to_set();
    assert forall|g: u32, i: u32| n.groups.contains_key(g) && #[trigger] n.groups[g].members.contains(i) implies n.subscribers.contains_key(
        i,
    ) && n.subscribers[i].groups.contains(g) by {
        if !(set.contains(g) && i == issi) {
            assert(r.groups.contains_key(g));
            assert(r.groups[g].members.contains(i));
        }
    }
    assert forall|i: u32, g: u32| n.subscribers.contains_key(i) && #[trigger] n.subscribers[i].groups.contains(g) implies n.groups.contains_key(g) by {
        if !set.contains(g) {
            assert(r.subscribers.contains_key(i));
            assert(r.subscribers[i].groups.contains(g));
        }
    }
}

/// A groups snapshot keeps the links of the radio picture.
proof fn lemma_snapshot_keeps_consistent(r: RadioView, at: String, issi: u32, gssis: Vec<u32>)
    requires
        radio_links(r),
    ensures
        radio_links(event_effect(r, at, TelemetryEvent::MsGroupsSnapshot { issi, gssis })),
        r.subscribers.dom().subset_of(event_effect(r, at, TelemetryEvent::MsGroupsSnapshot { issi, gssis }).subscribers.dom()),
        r.groups.dom().subset_of(event_effect(r, at, TelemetryEvent::MsGroupsSnapshot { issi, gssis }).groups.dom()),
{
    let n = event_effect(r, at, TelemetryEvent::MsGroupsSnapshot { issi, gssis });
    let set = gssis@.to_set();
    assert forall|g: u32, i: u32| n.groups.contains_key(g) && #[trigger] n.groups[g].members.contains(i) implies n.subscribers.contains_key(
        i,
    ) && n.subscribers[i].groups.contains(g) by {
        if i != issi {
            assert(r.groups.contains_key(g));
            assert(r.groups[g].members.contains(i));
        }
    }
    assert forall|i: u32, g: u32| n.subscribers.contains_key(i) && #[trigger] n.subscribers[i].groups.contains(g) implies n.groups.contains_key(g) by {
        if i != issi {
            assert(r.subscribers.contains_key(i));
            assert(r.subscribers[i].groups.contains(g));
        }
    }
}

/// A group detachment keeps the links of the radio picture.
proof fn lemma_detach_keeps_consistent(r: RadioView, at: String, issi: u32, gssis: Vec<u32>)
    requires
        radio_links(r),
    ensures
        radio_links(event_effect(r, at, TelemetryEvent::MsGroupDetach { issi, gssis })),
        r.subscribers.dom().subset_of(event_effect(r, at, TelemetryEvent::MsGroupDetach { issi, gssis }).subscribers.dom()),
        r.groups.dom().subset_of(event_effect(r, at, TelemetryEvent::MsGroupDetach { issi, gssis }).groups.dom()),
{
    let n = event_effect(r, at, TelemetryEvent::MsGroupDetach { issi, gssis });
    let set = gssis@.to_set();
    assert forall|g: u32, i: u32| n.groups.contains_key(g) && #[trigger] n.groups[g].members.contains(i) implies n.subscribers.contains_key(
        i,
    ) && n.subscribers[i].groups.contains(g) by {
        assert(r.groups.contains_key(g));
        assert(r.groups[g].members.contains(i));
    }
    assert forall|i: u32, g: u32| n.subscribers.contains_key(i) && #[trigger] n.subscribers[i].groups.contains(g) implies n.groups.contains_key(g) by {
        assert(r.subscribers.contains_key(i));
        assert(r.subscribers[i].groups.contains(g));
    }
}

/// The WebSocket sniff ignores ASCII case: a request text asks for an
/// upgrade exactly when its lower-cased or upper-cased form does.
pub proof fn law_websocket_sniff_ignores_case(text: Seq<char>)
    ensures
        websocket_upgrade_text(text) == websocket_upgrade_text(lower_seq(text)),
        websocket_upgrade_text(text) == websocket_upgrade_text(upper_seq(text)),
{
    assert forall|i: int| 0 <= i < text.len() implies lower_char(lower_char(#[trigger] text[i])) == lower_char(text[i]) by {
        let c = text[i];
        if 'A' <= c && c <= 'Z' {
            assert(('a' as u32) <= (c as u32) + 32 <= ('z' as u32));
        }
    }
    assert forall|i: int| 0 <= i < text.len() implies lower_char(upper_char(#[trigger] text[i])) == lower_char(text[i]) by {
        let c = text[i];
        if 'a' <= c && c <= 'z' {
            assert(((c as u32) - 32) as char as u32 == (c as u32) - 32);
        }
    }
    assert(lower_seq(lower_seq(text)) =~= lower_seq(text));
    assert(lower_seq(upper_seq(text)) =~= lower_seq(text));
}


/// Every telemetry event keeps each call that a group advertises among the
/// node's group calls.
#[verifier::spinoff_prover]
pub proof fn law_event_keeps_radio_calls(r: RadioView, at: String, e: TelemetryEvent)
    requires
        radio_calls(r),
    ensures
        radio_calls(event_effect(r, at, e)),
{
    let n = event_effect(r, at, e);
    assert forall|g: u32| #[trigger] n.groups.contains_key(g) && n.groups[g].active_call_id is Some implies n.group_calls.contains_key(
        n.groups[g].active_call_id->0,
    ) by {
        match e {
            TelemetryEvent::GroupCallStarted { gssi, .. } => {
                if g != gssi {
                    assert(r.groups.contains_key(g));
                }
            },
            TelemetryEvent::GroupCallSpeakerChanged { gssi, .. } => {
                if g != gssi {
                    assert(r.groups.contains_key(g));
                }
            },
            TelemetryEvent::MsGroupAttach { gssis, .. } => {
                assert(r.groups.contains_key(g));
            },
            TelemetryEvent::MsGroupsSnapshot { gssis, .. } => {
                assert(r.groups.contains_key(g));
            },
            _ => {
                assert(r.groups.contains_key(g));
            },
        }
    }
}

/// Every telemetry event keeps a node's radio picture consistent, and no
/// event forgets a subscriber or a talk group.
pub proof fn law_event_keeps_radio_consistent(r: RadioView, at: String, e: TelemetryEvent)
    requires
        radio_consistent(r),
    ensures
        radio_consistent(event_effect(r, at, e)),
        r.subscribers.dom().subset_of(event_effect(r, at, e).subscribers.dom()),
        r.groups.dom().subset_of(event_effect(r, at, e).groups.dom()),
{
    law_event_keeps_radio_links(r, at, e);
    law_event_keeps_radio_calls(r, at, e);
}

proof fn lemma_trim_start_shape(s: Seq<char>)
    ensures
        trim_start_seq(s).len() == 0 || !is_ws(trim_start_seq(s)[0]),
    decreases s.len(),
{
    if s.len() > 0 && is_ws(s[0]) {
        lemma_trim_start_shape(s.drop_first());
    }
}

proof fn lemma_trim_end_shape(s: Seq<char>)
    ensures
        trim_end_seq(s).len() <= s.len(),
        trim_end_seq(s) == s.take(trim_end_seq(s).len() as int),
        trim_end_seq(s).len() == 0 || !is_ws(trim_end_seq(s).last()),
    decreases s.len(),
{
    if s.len() > 0 && is_ws(s.last()) {
        lemma_trim_end_shape(s.drop_last());
        assert(s.drop_last().take(trim_end_seq(s).len() as int) =~= s.take(trim_end_seq(s).len() as int));
    } else {
        assert(s.take(s.len() as int) =~= s);
    }
}

/// Normalising an EchoLink target twice gives what normalising it once
/// gives.
pub proof fn law_echolink_target_normal_form_is_stable(target: Seq<char>)
    ensures
        upper_seq(trim_seq(upper_seq(trim_seq(target)))) == upper_seq(trim_seq(target)),
{
    let st = trim_start_seq(target);
    let u = trim_seq(target);
    let v = upper_seq(u);
    lemma_trim_start_shape(target);
    lemma_trim_end_shape(st);
    assert forall|i: int| 0 <= i < u.len() implies is_ws(#[trigger] v[i]) == is_ws(u[i]) && upper_char(v[i]) == v[i] by {
        let c = u[i];
        if 'a' <= c && c <= 'z' {
            assert(((c as u32) - 32) as char as u32 == (c as u32) - 32);
        }
    }
    if v.len() > 0 {
        assert(u[0] == st[0]);
        assert(!is_ws(v[0]));
        assert(!is_ws(v.last()));
        assert(trim_start_seq(v) == v);
        assert(trim_end_seq(v) == v);
    } else {
        assert(trim_start_seq(v) == v);
        assert(trim_end_seq(v) == v);
    }
    assert(upper_seq(v) =~= v);
}

/// With no service numbers and a plain (non-wildcard) outbound prefix, a dial
/// that begins with the prefix is routed to the dial with the prefix taken
/// off where stripping is set, unless nothing is left; any other dial is
/// not routed; and a disabled bridge routes nothing.
pub proof fn law_prefixed_dials_are_routed(prefix: Seq<char>, strip: bool, raw0: Seq<char>)
    requires
        trim_seq(prefix).len() > 0,
        trim_seq(prefix).last() != '*',
    ensures
        ({
            let raw = trim_seq(raw0);
            let p = trim_seq(prefix);
            let routed = trim_seq(if strip { raw.skip(p.len() as int) } else { raw });
            &&& starts_with_seq(raw, p) ==> asterisk_route(true, prefix, strip, Seq::empty(), raw0) == (if routed.len()
                == 0 {
                None
            } else {
                Some(routed)
            })
            &&& !starts_with_seq(raw, p) ==> asterisk_route(true, prefix, strip, Seq::empty(), raw0) is None
            &&& asterisk_route(false, prefix, strip, Seq::empty(), raw0) is None
        }),
{
    let p = trim_seq(prefix);
    assert(trim_end_char_seq(p, '*') == p);
}

/// Reading a key of entries after another key was set gives what it gave
/// before.
pub proof fn lemma_lookup_other_key(es: Seq<(Seq<char>, JsonView)>, key: Seq<char>, v: JsonView, k2: Seq<char>)
    requires
        k2 != key,
    ensures
        lookup(set_entry(es, key, v), k2) == lookup(es, k2),
{
    let t = set_entry(es, key, v);
    assert forall|a: int, b: int| is_first_key(t, k2, a) && is_first_key(t, k2, b) implies a == b by {
        if a < b {
            assert(t[a].0 != k2);
        } else if b < a {
            assert(t[b].0 != k2);
        }
    }
    match find_key(es, key) {
        Some(i) => {
            assert(is_first_key(es, key, i));
            match find_key(es, k2) {
                Some(j) => {
                    assert(is_first_key(es, k2, j));
                    assert(is_first_key(t, k2, j)) by {
                        assert forall|m: int| 0 <= m < j implies #[trigger] t[m].0 != k2 by {
                            if m != i {
                                assert(t[m] == es[m]);
                                assert(es[m].0 != k2);
                            }
                        }
                    }
                },
                None => {
                    assert forall|c: int| !is_first_key(t, k2, c) by {
                        if is_first_key(t, k2, c) {
                            if c != i {
                                assert(es[c].0 == k2);
                                lemma_first_key_exists(es, k2, c);
                            }
                        }
                    }
                },
            }
        },
        None => {
            let pos = insert_position(es, key);
            assert(0 <= pos <= es.len()) by {
                if exists|x: int| is_first_after(es, key, x) {
                    let x = choose|x: int| is_first_after(es, key, x);
                    assert(is_first_after(es, key, x));
                }
            }
            match find_key(es, k2) {
                Some(j) => {
                    assert(is_first_key(es, k2, j));
                    let jj = if j < pos { j } else { j + 1 };
                    assert(t[jj] == es[j]);
                    assert(is_first_key(t, k2, jj)) by {
                        assert forall|m: int| 0 <= m < jj implies #[trigger] t[m].0 != k2 by {
                            if m < pos {
                                assert(t[m] == es[m]);
                            } else if m > pos {
                                assert(t[m] == es[m - 1]);
                            }
                        }
                    }
                },
                None => {
                    assert forall|c: int| !is_first_key(t, k2, c) by {
                        if is_first_key(t, k2, c) {
                            if c < pos {
                                assert(t[c] == es[c]);
                                lemma_first_key_exists(es, k2, c);
                            } else if c > pos {
                                assert(t[c] == es[c - 1]);
                                lemma_first_key_exists(es, k2, c - 1);
                            }
                        }
                    }
                },
            }
        },
    }
}

proof fn lemma_key_names_differ()
    ensures
        "hidden"@ != "hide_in_subscribers"@,
        "hidden"@ != "device_class"@,
        "hide_in_subscribers"@ != "device_class"@,
        "hidden"@ != "source"@,
        "hidden"@ != "label"@,
        "hidden"@ != "location"@,
        "hidden"@ != "color"@,
        "hide_in_subscribers"@ != "source"@,
        "hide_in_subscribers"@ != "label"@,
        "hide_in_subscribers"@ != "location"@,
        "hide_in_subscribers"@ != "color"@,
        "device_class"@ != "source"@,
        "device_class"@ != "label"@,
        "device_class"@ != "location"@,
        "device_class"@ != "color"@,
{
    reveal_strlit("hidden");
    reveal_strlit("hide_in_subscribers");
    reveal_strlit("device_class");
    reveal_strlit("source");
    reveal_strlit("label");
    reveal_strlit("location");
    reveal_strlit("color");
    assert("hidden"@[3] != "hide_in_subscribers"@[3]);
    assert("hidden"@[0] != "device_class"@[0]);
    assert("hide_in_subscribers"@[0] != "device_class"@[0]);
    assert("hidden"@[0] != "source"@[0]);
    assert("hidden"@.len() != "label"@.len());
    assert("hidden"@.len() != "location"@.len());
    assert("hidden"@.len() != "color"@.len());
    assert("hide_in_subscribers"@.len() != "source"@.len());
    assert("hide_in_subscribers"@.len() != "label"@.len());
    assert("hide_in_subscribers"@.len() != "location"@.len());
    assert("hide_in_subscribers"@.len() != "color"@.len());
    assert("device_class"@.len() != "source"@.len());
    assert("device_class"@.len() != "label"@.len());
    assert("device_class"@.len() != "location"@.len());
    assert("device_class"@.len() != "color"@.len());
}

/// The fields that the optional texts of a base station record set leave
/// the other fields as they were.
proof fn lemma_basestation_extras(item: JsonView, e5: Seq<(Seq<char>, JsonView)>, k: Seq<char>)
    requires
        k != "label"@,
        k != "location"@,
        k != "color"@,
    ensures
        lookup(
            text_field_put(
                item,
                text_field_put(item, text_field_put(item, e5, "label"@, seq!["short"@, "label"@]), "location"@, seq!["location"@]),
                "color"@,
                seq!["color"@],
            ),
            k,
        ) == lookup(e5, k),
{
    let e6 = text_field_put(item, e5, "label"@, seq!["short"@, "label"@]);
    let e7 = text_field_put(item, e6, "location"@, seq!["location"@]);
    lemma_text_field_put_other(item, e5, "label"@, seq!["short"@, "label"@], k);
    lemma_text_field_put_other(item, e6, "location"@, seq!["location"@], k);
    lemma_text_field_put_other(item, e7, "color"@, seq!["color"@], k);
}

/// Every directory record built from a NetCore Directory base station is
/// hidden, kept out of the subscriber list, and classed as infrastructure.
pub proof fn law_basestation_records_are_hidden(item: JsonView, issi: u64)
    ensures
        get_view(basestation_entry(item, issi), "hidden"@) == Some(JsonView::Bool(true)),
        get_view(basestation_entry(item, issi), "hide_in_subscribers"@) == Some(JsonView::Bool(true)),
        get_view(basestation_entry(item, issi), "device_class"@) == Some(JsonView::Text("Infrastruktur"@)),
        get_view(kind_entry(ItemKind::Basestation, item, issi), "hidden"@) == Some(JsonView::Bool(true)),
{
    lemma_key_names_differ();
    let name = or_text(field_string(item, seq!["name"@, "short"@, "label"@]), dec_seq(issi as nat));
    let e1 = set_entry(Seq::empty(), "name"@, JsonView::Text(name));
    let e2 = set_entry(e1, "device_class"@, JsonView::Text("Infrastruktur"@));
    let e3 = set_entry(e2, "hidden"@, JsonView::Bool(true));
    let e4 = set_entry(e3, "hide_in_subscribers"@, JsonView::Bool(true));
    let e5 = set_entry(e4, "source"@, JsonView::Text("netcore-directory-basestation"@));
    assert(basestation_entry(item, issi) == JsonView::Object(
        text_field_put(
            item,
            text_field_put(item, text_field_put(item, e5, "label"@, seq!["short"@, "label"@]), "location"@, seq!["location"@]),
            "color"@,
            seq!["color"@],
        ),
    ));
    lemma_lookup_set_entry(e1, "device_class"@, JsonView::Text("Infrastruktur"@));
    lemma_lookup_set_entry(e2, "hidden"@, JsonView::Bool(true));
    lemma_lookup_set_entry(e3, "hide_in_subscribers"@, JsonView::Bool(true));
    lemma_lookup_other_key(e2, "hidden"@, JsonView::Bool(true), "device_class"@);
    lemma_lookup_other_key(e3, "hide_in_subscribers"@, JsonView::Bool(true), "device_class"@);
    lemma_lookup_other_key(e3, "hide_in_subscribers"@, JsonView::Bool(true), "hidden"@);
    lemma_lookup_other_key(e4, "source"@, JsonView::Text("netcore-directory-basestation"@), "hidden"@);
    lemma_lookup_other_key(e4, "source"@, JsonView::Text("netcore-directory-basestation"@), "hide_in_subscribers"@);
    lemma_lookup_other_key(e4, "source"@, JsonView::Text("netcore-directory-basestation"@), "device_class"@);
    lemma_basestation_extras(item, e5, "hidden"@);
    lemma_basestation_extras(item, e5, "hide_in_subscribers"@);
    lemma_basestation_extras(item, e5, "device_class"@);
}

proof fn lemma_text_field_put_other(
    item: JsonView,
    es: Seq<(Seq<char>, JsonView)>,
    key: Seq<char>,
    fields: Seq<Seq<char>>,
    k2: Seq<char>,
)
    requires
        k2 != key,
    ensures
        lookup(text_field_put(item, es, key, fields), k2) == lookup(es, k2),
{
    match field_string(item, fields) {
        Some(t) => {
            lemma_lookup_other_key(es, key, JsonView::Text(t), k2);
        },
        None => {},
    }
}

/// Every row of the emergencies listing is an emergency of a listed node,
/// carrying that alarm's source, destination, state and times.
pub proof fn law_emergency_rows_carry_their_alarm(
    nodes: Seq<NodeState>,
    filter: Option<Seq<char>>,
    active_only: bool,
    d: EmergencyDetail,
)
    requires
        emergency_listed(nodes, filter, active_only, d),
    ensures
        exists|i: int, k: u32|
            0 <= i < nodes.len() && #[trigger] nodes[i].radio.emergencies@.contains_key(k) && {
                let e = nodes[i].radio.emergencies@[k];
                &&& d.node_id == nodes[i].node_id
                &&& d.source_issi == e.source_issi
                &&& d.dest_ssi == e.dest_ssi
                &&& d.active == e.active
                &&& d.raised_at == e.raised_at
                &&& d.cleared_at == e.cleared_at
            },
{
}

/// An emergency alarm records an active emergency under its source, with
/// the destination and time it reported.
pub proof fn law_alarm_records_its_destination(r: RadioView, at: String, source_issi: u32, dest_ssi: u32)
    ensures
        ({
            let n = event_effect(r, at, TelemetryEvent::EmergencyAlarm { source_issi, dest_ssi });
            &&& n.emergencies.contains_key(source_issi)
            &&& n.emergencies[source_issi].source_issi == source_issi
            &&& n.emergencies[source_issi].dest_ssi == dest_ssi
            &&& n.emergencies[source_issi].active
            &&& n.emergencies[source_issi].raised_at == at
        }),
{
}

/// A Brew registration puts the subscriber online and a Brew
/// deregistration takes it offline, each recording where it came from.
pub proof fn law_brew_presence(r: RadioView, at: String, issi: u32, source: String)
    ensures
        ({
            let on = event_effect(r, at, TelemetryEvent::BrewSubscriberRegistered { issi, source });
            &&& on.subscribers.contains_key(issi) && on.subscribers[issi].online
            &&& on.subscribers[issi].remote_source == Some(source@)
            &&& on.subscribers[issi].last_event == Some("brew_registered"@)
            &&& on.subscribers[issi].last_seen == Some(at@)
        }),
        ({
            let off = event_effect(r, at, TelemetryEvent::BrewSubscriberDeregistered { issi, source });
            &&& off.subscribers.contains_key(issi) && !off.subscribers[issi].online
            &&& off.subscribers[issi].remote_source == Some(source@)
            &&& off.subscribers[issi].last_event == Some("brew_deregistered"@)
            &&& off.subscribers[issi].last_seen == Some(at@)
        }),
{
}

/// A media library whose base URL (trimmed, trailing slashes taken off)
/// starts with `https://` or `http://` is not refused for its base URL; an
/// enabled one whose base URL starts with neither is.
pub proof fn law_media_library_base_url_schemes(src: CfgMediaLibraryDto)
    ensures
        starts_with_seq(trim_end_char_seq(trim_seq(src.base_url@), '/'), "https://"@) || starts_with_seq(
            trim_end_char_seq(trim_seq(src.base_url@), '/'),
            "http://"@,
        ) ==> media_library_patch_error(src) != Some(
            "media_library: base_url must use http:// or https:// when enabled"@,
        ),
        src.enabled && !starts_with_seq(trim_end_char_seq(trim_seq(src.base_url@), '/'), "https://"@)
            && !starts_with_seq(trim_end_char_seq(trim_seq(src.base_url@), '/'), "http://"@)
            ==> media_library_patch_error(src) == Some(
            "media_library: base_url must use http:// or https:// when enabled"@,
        ),
{
    let base_err = "media_library: base_url must use http:// or https:// when enabled"@;
    let others = seq![
        "media_library: recording_source_base_url must use http:// or https:// when publish_recordings=true"@,
        "media_library: station_id must be 1-96 characters and contain only letters, numbers, space, '.', '-', '_', or ':'"@,
        "media_library: retry_seconds must be greater than zero"@,
        "media_library: request_timeout_seconds must be greater than zero"@,
        "media_library: download_timeout_seconds must be greater than zero"@,
        "media_library: max_list_entries must be greater than zero"@,
    ];
    reveal_strlit("media_library: base_url must use http:// or https:// when enabled");
    reveal_strlit("media_library: recording_source_base_url must use http:// or https:// when publish_recordings=true");
    reveal_strlit("media_library: station_id must be 1-96 characters and contain only letters, numbers, space, '.', '-', '_', or ':'");
    reveal_strlit("media_library: retry_seconds must be greater than zero");
    reveal_strlit("media_library: request_timeout_seconds must be greater than zero");
    reveal_strlit("media_library: download_timeout_seconds must be greater than zero");
    reveal_strlit("media_library: max_list_entries must be greater than zero");
    assert(others[0].len() != base_err.len());
    assert(others[1].len() != base_err.len());
    assert(others[2][15] != base_err[15]);
    assert(others[3][15] != base_err[15]);
    assert(others[4][15] != base_err[15]);
    assert(others[5][15] != base_err[15]);
}

/// An enabled media library with an `https://` (or `http://`) base URL,
/// recordings not published, a valid station label and non-zero limits is
/// accepted.
pub proof fn law_https_media_library_accepted(src: CfgMediaLibraryDto)
    requires
        src.enabled,
        starts_with_seq(trim_end_char_seq(trim_seq(src.base_url@), '/'), "https://"@) || starts_with_seq(
            trim_end_char_seq(trim_seq(src.base_url@), '/'),
            "http://"@,
        ),
        !src.publish_recordings,
        valid_station_id_seq(trim_seq(src.station_id@)),
        src.retry_seconds > 0,
        src.request_timeout_seconds > 0,
        src.download_timeout_seconds > 0,
        src.max_list_entries > 0,
    ensures
        media_library_patch_error(src) is None,
{
}

/// With a wildcard outbound prefix (`91*`), every dial that begins with
/// what precedes the `*` is routed, whatever the service numbers, to the
/// dial with that part taken off where stripping is set, unless nothing is
/// left; and a service number listed exactly is routed whenever the dial
/// reduces to it.
pub proof fn law_wildcard_prefix_and_listed_numbers_route(
    prefix: Seq<char>,
    strip: bool,
    services: Seq<Seq<char>>,
    raw0: Seq<char>,
)
    ensures
        ({
            let raw = trim_seq(raw0);
            let p = trim_end_char_seq(trim_seq(prefix), '*');
            let routed = trim_seq(if strip { raw.skip(p.len() as int) } else { raw });
            (trim_seq(prefix).len() > 0 && trim_seq(prefix).last() == '*' && p.len() > 0 && starts_with_seq(raw, p)
                && routed.len() > 0) ==> asterisk_route(true, prefix, strip, services, raw0) == Some(routed)
        }),
        ({
            let raw = trim_seq(raw0);
            let p = trim_end_char_seq(trim_seq(prefix), '*');
            let matched = if p.len() == 0 {
                trim_seq(prefix).len() > 0 && trim_seq(prefix).last() == '*'
            } else {
                starts_with_seq(raw, p)
            };
            let routed = trim_seq(if matched && strip { raw.skip(p.len() as int) } else { raw });
            (raw.len() > 0 && routed.len() > 0 && services.contains(routed)) ==> asterisk_route(
                true,
                prefix,
                strip,
                services,
                raw0,
            ) == Some(routed)
        }),
{
}

} // verus!
