//! The listings of the control room across its nodes, in listing order.
use vstd::prelude::*;
use crate::listing_order::{in_key_order, sort_rows, KeyPart, ListingKey, PartView, key_view};
use crate::node_state::{keys_of, NodeState};
use crate::room_registry::{knows, str_view, ControlRoomState};
use crate::room_state::{
    call_detail, call_listed, CallDetail, CallState, ControlRoomCallsSnapshot, ControlRoomEmergenciesSnapshot,
    ControlRoomGroupsSnapshot, ControlRoomSdsSnapshot, EmergencyDetail, EmergencyState, GroupDetail, GroupState,
    SdsDetail, SdsLogEntry,
};
use crate::listings::{
    ascending, call_ids, group_detail, involved_call_keys, listed_group_call, online_members, subscriber_detail,
    group_call_key, SubscriberDetail,
};
use crate::node_state::{subscribers_view, LocationState, SubscriberState};
use crate::text::strictly_sorted;
use std::collections::HashMap;
use crate::operations::now_iso;
use crate::text::{concat, dec_seq, dec_string, lit, str_eq};

verus! {

broadcast use vstd::seq_lib::group_to_multiset_ensures;

impl ListingKey for EmergencyDetail {
    /// Active emergencies first, the newest first, then by node and subscriber.
    open spec fn listing_key(&self) -> Seq<PartView> {
        seq![
            PartView::DownNum(if self.active { 1 } else { 0 }),
            PartView::Down(self.raised_at@),
            PartView::Up(self.node_id@),
            PartView::UpNum(self.source_issi as u64),
        ]
    }

    fn key_parts(&self) -> (r: Vec<KeyPart>) {
        let mut v: Vec<KeyPart> = Vec::new();
        v.push(KeyPart::DownNum(if self.active { 1 } else { 0 }));
        v.push(KeyPart::Down(self.raised_at.clone()));
        v.push(KeyPart::Up(self.node_id.clone()));
        v.push(KeyPart::UpNum(self.source_issi as u64));
        proof {
            assert(key_view(v@) =~= self.listing_key());
        }
        v
    }
}

/// Whether a listing asked for the node `filter` (or every node) covers `n`.
pub open spec fn node_selected(n: NodeState, filter: Option<Seq<char>>) -> bool {
    match filter {
        Some(id) => n.node_id@ == id,
        None => true,
    }
}

/// The listing row of the emergency `e` of the node `n`.
pub open spec fn emergency_row_value(n: NodeState, e: EmergencyState) -> EmergencyDetail {
    EmergencyDetail {
        node_id: n.node_id,
        station_name: n.station_name,
        source_issi: e.source_issi,
        dest_ssi: e.dest_ssi,
        active: e.active,
        raised_at: e.raised_at,
        cleared_at: e.cleared_at,
    }
}

/// `d` is the listing row of the emergency `e` of the node `n`.
pub open spec fn emergency_row(d: EmergencyDetail, n: NodeState, e: EmergencyState) -> bool {
    d == emergency_row_value(n, e)
}

fn copy_text(o: &Option<String>) -> (r: Option<String>)
    ensures
        r == *o,
{
    match o {
        Some(s) => Some(s.clone()),
        None => None,
    }
}

fn emergency_row_of(n: &NodeState, e: &EmergencyState) -> (r: EmergencyDetail)
    ensures
        r == emergency_row_value(*n, *e),
{
    EmergencyDetail {
        node_id: n.node_id.clone(),
        station_name: copy_text(&n.station_name),
        source_issi: e.source_issi,
        dest_ssi: e.dest_ssi,
        active: e.active,
        raised_at: e.raised_at.clone(),
        cleared_at: copy_text(&e.cleared_at),
    }
}

/// `d` lists an emergency of one of the nodes `nodes` that `filter` covers,
/// an active one when `active_only`.
pub open spec fn emergency_listed(
    nodes: Seq<NodeState>,
    filter: Option<Seq<char>>,
    active_only: bool,
    d: EmergencyDetail,
) -> bool {
    exists|i: int, k: u32|
        0 <= i < nodes.len() && node_selected(nodes[i], filter) && #[trigger] nodes[i].radio.emergencies@.contains_key(k)
            && (!active_only || nodes[i].radio.emergencies@[k].active) && emergency_row(
            d,
            nodes[i],
            nodes[i].radio.emergencies@[k],
        )
}

/// How many of the rows are active.
pub open spec fn active_rows(s: Seq<EmergencyDetail>) -> nat
    decreases s.len(),
{
    if s.len() == 0 {
        0
    } else {
        active_rows(s.drop_last()) + if s.last().active {
            1nat
        } else {
            0nat
        }
    }
}

fn selects(n: &NodeState, filter: Option<&str>) -> (r: bool)
    ensures
        r == node_selected(*n, str_view(filter)),
{
    match filter {
        Some(id) => str_eq(n.node_id.as_str(), id),
        None => true,
    }
}

fn count_active_rows(s: &Vec<EmergencyDetail>) -> (r: usize)
    ensures
        r == active_rows(s@),
{
    let mut n: usize = 0;
    for i in 0..s.len()
        invariant
            n == active_rows(s@.take(i as int)),
            n <= i,
    {
        proof {
            assert(s@.take(i + 1).drop_last() =~= s@.take(i as int));
        }
        if s[i].active {
            n = n + 1;
        }
    }
    proof {
        assert(s@.take(s@.len() as int) =~= s@);
    }
    n
}

/// `d` lists an emergency of the node `n`, an active one when `active_only`.
pub open spec fn node_emergency_listed(n: NodeState, active_only: bool, d: EmergencyDetail) -> bool {
    exists|k: u32|
        #[trigger] n.radio.emergencies@.contains_key(k) && (!active_only || n.radio.emergencies@[k].active) && d
            == emergency_row_value(n, n.radio.emergencies@[k])
}

/// `after` holds what `before` holds and `row`, and nothing else.
proof fn lemma_push_contains<T>(before: Seq<T>, row: T)
    ensures
        forall|d: T| #[trigger] before.push(row).contains(d) <==> (before.contains(d) || d == row),
{
    assert forall|d: T| #[trigger] before.push(row).contains(d) <==> (before.contains(d) || d == row) by {
        let after = before.push(row);
        if after.contains(d) {
            let m = choose|m: int| 0 <= m < after.len() && after[m] == d;
            if m < before.len() {
                assert(before[m] == d);
            }
        }
        if before.contains(d) {
            let m = choose|m: int| 0 <= m < before.len() && before[m] == d;
            assert(after[m] == d);
        }
        if d == row {
            assert(after[before.len() as int] == d);
        }
    }
}

/// `d` lists one of the first `j` emergencies of `keys` of the node `n`.
pub open spec fn listed_among(n: NodeState, keys: Seq<u32>, j: int, active_only: bool, d: EmergencyDetail) -> bool {
    exists|b: int|
        0 <= b < j && (!active_only || n.radio.emergencies@[#[trigger] keys[b]].active) && d == emergency_row_value(
            n,
            n.radio.emergencies@[keys[b]],
        )
}

proof fn lemma_listed_among_step(n: NodeState, keys: Seq<u32>, j: int, active_only: bool, d: EmergencyDetail)
    requires
        0 <= j < keys.len(),
    ensures
        listed_among(n, keys, j + 1, active_only, d) <==> (listed_among(n, keys, j, active_only, d) || ((!active_only
            || n.radio.emergencies@[keys[j]].active) && d == emergency_row_value(n, n.radio.emergencies@[keys[j]]))),
{
    if listed_among(n, keys, j + 1, active_only, d) {
        let b = choose|b: int|
            0 <= b < j + 1 && (!active_only || n.radio.emergencies@[#[trigger] keys[b]].active) && d
                == emergency_row_value(n, n.radio.emergencies@[keys[b]]);
        if b < j {
            assert(listed_among(n, keys, j, active_only, d));
        }
    }
    if listed_among(n, keys, j, active_only, d) {
        let b = choose|b: int|
            0 <= b < j && (!active_only || n.radio.emergencies@[#[trigger] keys[b]].active) && d
                == emergency_row_value(n, n.radio.emergencies@[keys[b]]);
        assert(listed_among(n, keys, j + 1, active_only, d));
    }
    if (!active_only || n.radio.emergencies@[keys[j]].active) && d == emergency_row_value(
        n,
        n.radio.emergencies@[keys[j]],
    ) {
        assert(listed_among(n, keys, j + 1, active_only, d));
    }
}

proof fn lemma_listed_among_all(n: NodeState, keys: Seq<u32>, active_only: bool, d: EmergencyDetail)
    requires
        keys.to_set() == n.radio.emergencies@.dom(),
    ensures
        listed_among(n, keys, keys.len() as int, active_only, d) <==> node_emergency_listed(n, active_only, d),
{
    let em = n.radio.emergencies@;
    if listed_among(n, keys, keys.len() as int, active_only, d) {
        let b = choose|b: int|
            0 <= b < keys.len() && (!active_only || em[#[trigger] keys[b]].active) && d == emergency_row_value(
                n,
                em[keys[b]],
            );
        assert(keys.to_set().contains(keys[b]));
        assert(em.contains_key(keys[b]));
    }
    if node_emergency_listed(n, active_only, d) {
        let k = choose|k: u32|
            #[trigger] em.contains_key(k) && (!active_only || em[k].active) && d == emergency_row_value(n, em[k]);
        assert(keys.to_set().contains(k));
        let b = choose|b: int| 0 <= b < keys.len() && keys[b] == k;
        assert(em[keys[b]] == em[k]);
        assert(listed_among(n, keys, keys.len() as int, active_only, d));
    }
}

/// Adds to `out` the emergency rows of the node `n`.
fn push_node_emergency_rows(n: &NodeState, active_only: bool, out: &mut Vec<EmergencyDetail>)
    ensures
        forall|d: EmergencyDetail|
            #[trigger] final(out)@.contains(d) <==> (old(out)@.contains(d) || node_emergency_listed(
                *n,
                active_only,
                d,
            )),
{
    let keys = keys_of(&n.radio.emergencies);
    let ghost start = out@;
    for j in 0..keys.len()
        invariant
            keys@.to_set() == n.radio.emergencies@.dom(),
            forall|d: EmergencyDetail|
                #[trigger] out@.contains(d) <==> (start.contains(d) || listed_among(
                    *n,
                    keys@,
                    j as int,
                    active_only,
                    d,
                )),
    {
        let k = keys[j];
        proof {
            assert(keys@.to_set().contains(k));
        }
        let ghost before = out@;
        let ghost pushed: bool = false;
        match n.radio.emergencies.get(&k) {
            Some(e) => {
                if !active_only || e.active {
                    let row = emergency_row_of(n, e);
                    out.push(row);
                    proof {
                        lemma_push_contains(before, row);
                    }
                }
            },
            None => {
                proof {
                    assert(false);
                }
            },
        }
        proof {
            assert forall|d: EmergencyDetail|
                #[trigger] out@.contains(d) <==> (start.contains(d) || listed_among(
                    *n,
                    keys@,
                    j + 1,
                    active_only,
                    d,
                )) by {
                lemma_listed_among_step(*n, keys@, j as int, active_only, d);
                assert(keys@[j as int] == k);
                assert(before.contains(d) <==> (start.contains(d) || listed_among(
                    *n,
                    keys@,
                    j as int,
                    active_only,
                    d,
                )));
            }
        }
    }
    proof {
        assert forall|d: EmergencyDetail|
            #[trigger] out@.contains(d) <==> (start.contains(d) || node_emergency_listed(*n, active_only, d)) by {
            lemma_listed_among_all(*n, keys@, active_only, d);
        }
    }
}

/// The emergency rows of the nodes `nodes` that `filter` covers, in any order.
fn emergency_rows(nodes: &Vec<NodeState>, filter: Option<&str>, active_only: bool) -> (r: Vec<EmergencyDetail>)
    ensures
        forall|d: EmergencyDetail| r@.contains(d) <==> emergency_listed(nodes@, str_view(filter), active_only, d),
{
    let ghost f = str_view(filter);
    let mut out: Vec<EmergencyDetail> = Vec::new();
    for i in 0..nodes.len()
        invariant
            f == str_view(filter),
            forall|d: EmergencyDetail|
                out@.contains(d) <==> exists|a: int|
                    0 <= a < i && node_selected(#[trigger] nodes@[a], f) && node_emergency_listed(
                        nodes@[a],
                        active_only,
                        d,
                    ),
    {
        let ghost before = out@;
        if selects(&nodes[i], filter) {
            push_node_emergency_rows(&nodes[i], active_only, &mut out);
        }
        proof {
            assert forall|d: EmergencyDetail|
                out@.contains(d) <==> exists|a: int|
                    0 <= a < i + 1 && node_selected(#[trigger] nodes@[a], f) && node_emergency_listed(
                        nodes@[a],
                        active_only,
                        d,
                    ) by {
                if exists|a: int|
                    0 <= a < i + 1 && node_selected(#[trigger] nodes@[a], f) && node_emergency_listed(
                        nodes@[a],
                        active_only,
                        d,
                    ) {
                    let a = choose|a: int|
                        0 <= a < i + 1 && node_selected(#[trigger] nodes@[a], f) && node_emergency_listed(
                            nodes@[a],
                            active_only,
                            d,
                        );
                    if a < i {
                        assert(before.contains(d));
                    }
                }
            }
        }
    }
    proof {
        assert forall|d: EmergencyDetail|
            out@.contains(d) <==> emergency_listed(nodes@, f, active_only, d) by {
            if emergency_listed(nodes@, f, active_only, d) {
                let (a, k) = choose|a: int, k: u32|
                    0 <= a < nodes@.len() && node_selected(nodes@[a], f)
                        && #[trigger] nodes@[a].radio.emergencies@.contains_key(k) && (!active_only
                        || nodes@[a].radio.emergencies@[k].active) && emergency_row(
                        d,
                        nodes@[a],
                        nodes@[a].radio.emergencies@[k],
                    );
                assert(node_emergency_listed(nodes@[a], active_only, d));
            }
            if out@.contains(d) {
                let a = choose|a: int|
                    0 <= a < nodes@.len() && node_selected(#[trigger] nodes@[a], f) && node_emergency_listed(
                        nodes@[a],
                        active_only,
                        d,
                    );
                let k = choose|k: u32|
                    #[trigger] nodes@[a].radio.emergencies@.contains_key(k) && (!active_only
                        || nodes@[a].radio.emergencies@[k].active) && d == emergency_row_value(
                        nodes@[a],
                        nodes@[a].radio.emergencies@[k],
                    );
                assert(emergency_row(d, nodes@[a], nodes@[a].radio.emergencies@[k]));
            }
        }
    }
    out
}

impl ListingKey for SdsDetail {
    /// The newest first, then by node.
    open spec fn listing_key(&self) -> Seq<PartView> {
        seq![PartView::Down(self.timestamp@), PartView::Up(self.node_id@)]
    }

    fn key_parts(&self) -> (r: Vec<KeyPart>) {
        let mut v: Vec<KeyPart> = Vec::new();
        v.push(KeyPart::Down(self.timestamp.clone()));
        v.push(KeyPart::Up(self.node_id.clone()));
        proof {
            assert(key_view(v@) =~= self.listing_key());
        }
        v
    }
}

/// The listing row of the SDS `e` seen on the node `n`.
pub open spec fn sds_row_value(n: NodeState, e: SdsLogEntry) -> SdsDetail {
    SdsDetail {
        node_id: n.node_id,
        station_name: n.station_name,
        timestamp: e.timestamp,
        direction: e.direction,
        source_issi: e.source_issi,
        dest_issi: e.dest_issi,
        is_group: e.is_group,
        protocol_id: e.protocol_id,
        text: e.text,
    }
}

/// The rows of the newest `limit` entries of the SDS log of `n`, newest first.
pub open spec fn node_sds_rows(n: NodeState, limit: nat) -> Seq<SdsDetail> {
    let log = n.radio.sds_log@;
    let m = if log.len() < limit {
        log.len()
    } else {
        limit
    };
    Seq::new(m, |r: int| sds_row_value(n, log[log.len() - 1 - r]))
}

/// The SDS rows of the nodes that `filter` covers, node by node.
pub open spec fn sds_collected(nodes: Seq<NodeState>, filter: Option<Seq<char>>, limit: nat) -> Seq<SdsDetail>
    decreases nodes.len(),
{
    if nodes.len() == 0 {
        Seq::empty()
    } else {
        sds_collected(nodes.drop_last(), filter, limit) + if node_selected(nodes.last(), filter) {
            node_sds_rows(nodes.last(), limit)
        } else {
            Seq::empty()
        }
    }
}

fn sds_row_of(n: &NodeState, e: &SdsLogEntry) -> (r: SdsDetail)
    ensures
        r == sds_row_value(*n, *e),
{
    SdsDetail {
        node_id: n.node_id.clone(),
        station_name: copy_text(&n.station_name),
        timestamp: e.timestamp.clone(),
        direction: e.direction.clone(),
        source_issi: e.source_issi,
        dest_issi: e.dest_issi,
        is_group: e.is_group,
        protocol_id: e.protocol_id,
        text: e.text.clone(),
    }
}

fn sds_rows(nodes: &Vec<NodeState>, filter: Option<&str>, limit: usize) -> (r: Vec<SdsDetail>)
    ensures
        r@ == sds_collected(nodes@, str_view(filter), limit as nat),
{
    let ghost f = str_view(filter);
    let mut out: Vec<SdsDetail> = Vec::new();
    proof {
        assert(nodes@.take(0) =~= Seq::<NodeState>::empty());
    }
    for i in 0..nodes.len()
        invariant
            f == str_view(filter),
            out@ == sds_collected(nodes@.take(i as int), f, limit as nat),
    {
        let ghost before = out@;
        proof {
            assert(nodes@.take(i + 1).drop_last() =~= nodes@.take(i as int));
            assert(nodes@.take(i + 1).last() == nodes@[i as int]);
        }
        let node = &nodes[i];
        if selects(node, filter) {
            let log = &node.radio.sds_log;
            let m = if log.len() < limit {
                log.len()
            } else {
                limit
            };
            let ghost rows = node_sds_rows(*node, limit as nat);
            for r in 0..m
                invariant
                    *node == nodes@[i as int],
                    log == &node.radio.sds_log,
                    m <= log@.len(),
                    rows == node_sds_rows(*node, limit as nat),
                    rows.len() == m,
                    out@ == before + rows.take(r as int),
            {
                let row = sds_row_of(node, &log[log.len() - 1 - r]);
                out.push(row);
                proof {
                    assert(before + rows.take(r + 1) =~= (before + rows.take(r as int)).push(row));
                }
            }
            proof {
                assert(rows.take(m as int) =~= rows);
            }
        } else {
            proof {
                assert(before + Seq::<SdsDetail>::empty() =~= before);
            }
        }
    }
    proof {
        assert(nodes@.take(nodes@.len() as int) =~= nodes@);
    }
    out
}

impl ListingKey for CallDetail {
    /// By node, then by start, then by key.
    open spec fn listing_key(&self) -> Seq<PartView> {
        seq![PartView::Up(self.node_id@), PartView::Up(self.started_at@), PartView::Up(self.key@)]
    }

    fn key_parts(&self) -> (r: Vec<KeyPart>) {
        let mut v: Vec<KeyPart> = Vec::new();
        v.push(KeyPart::Up(self.node_id.clone()));
        v.push(KeyPart::Up(self.started_at.clone()));
        v.push(KeyPart::Up(self.key.clone()));
        proof {
            assert(key_view(v@) =~= self.listing_key());
        }
        v
    }
}

/// `d` lists one of the calls `calls` of the node `n`, under `prefix` and its id.
pub open spec fn lists_call_of(d: CallDetail, n: NodeState, calls: Map<u16, CallState>, prefix: Seq<char>) -> bool {
    exists|id: u16|
        #[trigger] calls.contains_key(id) && call_listed(d, n.node_id@, n.station_name, prefix + dec_seq(id as nat), calls[id])
}

/// The call `id` of `calls` of the node `n` has a row among `rows`.
pub open spec fn call_has_row(rows: Seq<CallDetail>, n: NodeState, calls: Map<u16, CallState>, prefix: Seq<char>, id: u16) -> bool {
    exists|d: CallDetail| #[trigger] rows.contains(d) && call_listed(d, n.node_id@, n.station_name, prefix + dec_seq(id as nat), calls[id])
}

/// `d` lists a group or an individual call of a node that `filter` covers.
pub open spec fn call_row_listed(nodes: Seq<NodeState>, filter: Option<Seq<char>>, d: CallDetail) -> bool {
    exists|i: int|
        0 <= i < nodes.len() && node_selected(#[trigger] nodes[i], filter) && (lists_call_of(
            d,
            nodes[i],
            nodes[i].radio.group_calls@,
            "group:"@,
        ) || lists_call_of(d, nodes[i], nodes[i].radio.individual_calls@, "individual:"@))
}

/// Every call of `calls_of` of the first `upto` nodes that `filter` covers has
/// a row among `rows`, under `prefix`; `group` picks the group calls, else
/// the individual calls.
pub open spec fn calls_have_rows(
    rows: Seq<CallDetail>,
    nodes: Seq<NodeState>,
    filter: Option<Seq<char>>,
    upto: int,
    group: bool,
) -> bool {
    forall|i: int, id: u16|
        0 <= i < upto && node_selected(nodes[i], filter) && #[trigger] node_calls(nodes[i], group).contains_key(id)
            ==> call_has_row(rows, nodes[i], node_calls(nodes[i], group), call_prefix(group), id)
}

/// The group calls (`group`) or the individual calls of a node.
pub open spec fn node_calls(n: NodeState, group: bool) -> Map<u16, CallState> {
    if group {
        n.radio.group_calls@
    } else {
        n.radio.individual_calls@
    }
}

/// The prefix of the keys of group calls (`group`) or of individual calls.
pub open spec fn call_prefix(group: bool) -> Seq<char> {
    if group {
        "group:"@
    } else {
        "individual:"@
    }
}

/// Every call of every node that `filter` covers has a row among `rows`.
pub open spec fn every_call_has_row(rows: Seq<CallDetail>, nodes: Seq<NodeState>, filter: Option<Seq<char>>) -> bool {
    &&& calls_have_rows(rows, nodes, filter, nodes.len() as int, true)
    &&& calls_have_rows(rows, nodes, filter, nodes.len() as int, false)
}

/// Rows kept from `before` to `after` keep every call covered.
proof fn lemma_calls_have_rows_grow(
    before: Seq<CallDetail>,
    after: Seq<CallDetail>,
    nodes: Seq<NodeState>,
    filter: Option<Seq<char>>,
    upto: int,
    group: bool,
)
    requires
        calls_have_rows(before, nodes, filter, upto, group),
        forall|d: CallDetail| #[trigger] before.contains(d) ==> after.contains(d),
    ensures
        calls_have_rows(after, nodes, filter, upto, group),
{
    assert forall|i: int, id: u16|
        0 <= i < upto && node_selected(nodes[i], filter) && #[trigger] node_calls(nodes[i], group).contains_key(id)
            implies call_has_row(after, nodes[i], node_calls(nodes[i], group), call_prefix(group), id) by {
        let d = choose|d: CallDetail|
            #[trigger] before.contains(d) && call_listed(
                d,
                nodes[i].node_id@,
                nodes[i].station_name,
                call_prefix(group) + dec_seq(id as nat),
                node_calls(nodes[i], group)[id],
            );
        assert(after.contains(d));
    }
}

/// Adds the rows of the calls `m` of the node `n`, under `prefix`.
fn push_call_rows(n: &NodeState, m: &HashMap<u16, CallState>, prefix: &str, out: &mut Vec<CallDetail>)
    ensures
        forall|d: CallDetail| #[trigger] old(out)@.contains(d) ==> final(out)@.contains(d),
        forall|d: CallDetail|
            #[trigger] final(out)@.contains(d) ==> old(out)@.contains(d) || lists_call_of(d, *n, m@, prefix@),
        forall|id: u16| #[trigger] m@.contains_key(id) ==> call_has_row(final(out)@, *n, m@, prefix@, id),
{
    let ids = call_ids(m);
    let ghost start = out@;
    for j in 0..ids.len()
        invariant
            ids@.to_set() == m@.dom(),
            forall|d: CallDetail| #[trigger] start.contains(d) ==> out@.contains(d),
            forall|d: CallDetail| #[trigger] out@.contains(d) ==> start.contains(d) || lists_call_of(d, *n, m@, prefix@),
            forall|b: int| 0 <= b < j ==> call_has_row(out@, *n, m@, prefix@, #[trigger] ids@[b]),
    {
        let id = ids[j];
        proof {
            assert(ids@.to_set().contains(id));
        }
        let ghost before = out@;
        match m.get(&id) {
            Some(call) => {
                let key = concat(prefix, dec_string(id as u64).as_str());
                let row = call_detail(n.node_id.as_str(), &n.station_name, key.as_str(), call);
                out.push(row);
                proof {
                    lemma_push_contains(before, row);
                    assert(out@.contains(row));
                    assert(lists_call_of(row, *n, m@, prefix@));
                    assert forall|b: int| 0 <= b < j + 1 implies call_has_row(out@, *n, m@, prefix@, #[trigger] ids@[b]) by {
                        if b < j {
                            let d = choose|d: CallDetail|
                                #[trigger] before.contains(d) && call_listed(
                                    d,
                                    n.node_id@,
                                    n.station_name,
                                    prefix@ + dec_seq(ids@[b] as nat),
                                    m@[ids@[b]],
                                );
                            assert(out@.contains(d));
                        } else {
                            assert(out@.contains(row));
                        }
                    }
                }
            },
            None => {
                proof {
                    assert(false);
                }
            },
        }
    }
    proof {
        assert forall|id: u16| #[trigger] m@.contains_key(id) implies call_has_row(out@, *n, m@, prefix@, id) by {
            assert(ids@.to_set().contains(id));
            let b = choose|b: int| 0 <= b < ids@.len() && ids@[b] == id;
            assert(call_has_row(out@, *n, m@, prefix@, ids@[b]));
        }
    }
}

/// The call rows of the nodes that `filter` covers, in any order.
fn call_rows(nodes: &Vec<NodeState>, filter: Option<&str>) -> (r: Vec<CallDetail>)
    ensures
        forall|d: CallDetail| #[trigger] r@.contains(d) ==> call_row_listed(nodes@, str_view(filter), d),
        every_call_has_row(r@, nodes@, str_view(filter)),
{
    let ghost f = str_view(filter);
    let mut out: Vec<CallDetail> = Vec::new();
    for i in 0..nodes.len()
        invariant
            f == str_view(filter),
            forall|d: CallDetail| #[trigger] out@.contains(d) ==> call_row_listed(nodes@, f, d),
            calls_have_rows(out@, nodes@, f, i as int, true),
            calls_have_rows(out@, nodes@, f, i as int, false),
    {
        let node = &nodes[i];
        let ghost before = out@;
        if selects(node, filter) {
            push_call_rows(node, &node.radio.group_calls, "group:", &mut out);
            let ghost mid = out@;
            push_call_rows(node, &node.radio.individual_calls, "individual:", &mut out);
            proof {
                assert forall|d: CallDetail| #[trigger] out@.contains(d) implies call_row_listed(nodes@, f, d) by {
                    if !before.contains(d) {
                        if mid.contains(d) {
                            assert(lists_call_of(d, *node, node.radio.group_calls@, "group:"@));
                        } else {
                            assert(lists_call_of(d, *node, node.radio.individual_calls@, "individual:"@));
                        }
                        assert(node_selected(nodes@[i as int], f));
                    }
                }
                assert forall|d: CallDetail| #[trigger] before.contains(d) implies out@.contains(d) by {
                    assert(mid.contains(d));
                }
                lemma_calls_have_rows_grow(before, out@, nodes@, f, i as int, true);
                lemma_calls_have_rows_grow(before, out@, nodes@, f, i as int, false);
                assert forall|a: int, id: u16|
                    0 <= a < i + 1 && node_selected(nodes@[a], f) && #[trigger] node_calls(nodes@[a], true).contains_key(id)
                        implies call_has_row(out@, nodes@[a], node_calls(nodes@[a], true), call_prefix(true), id) by {
                    if a == i {
                        assert(call_has_row(mid, *node, node.radio.group_calls@, "group:"@, id));
                        let d = choose|d: CallDetail|
                            #[trigger] mid.contains(d) && call_listed(
                                d,
                                node.node_id@,
                                node.station_name,
                                "group:"@ + dec_seq(id as nat),
                                node.radio.group_calls@[id],
                            );
                        assert(out@.contains(d));
                    }
                }
                assert forall|a: int, id: u16|
                    0 <= a < i + 1 && node_selected(nodes@[a], f) && #[trigger] node_calls(nodes@[a], false).contains_key(id)
                        implies call_has_row(out@, nodes@[a], node_calls(nodes@[a], false), call_prefix(false), id) by {
                    if a == i {
                        assert(call_has_row(out@, *node, node.radio.individual_calls@, "individual:"@, id));
                    }
                }
            }
        } else {
            proof {
                assert forall|a: int, id: u16|
                    0 <= a < i + 1 && node_selected(nodes@[a], f) && #[trigger] node_calls(nodes@[a], true).contains_key(id)
                        implies call_has_row(out@, nodes@[a], node_calls(nodes@[a], true), call_prefix(true), id) by {
                    assert(a < i);
                }
                assert forall|a: int, id: u16|
                    0 <= a < i + 1 && node_selected(nodes@[a], f) && #[trigger] node_calls(nodes@[a], false).contains_key(id)
                        implies call_has_row(out@, nodes@[a], node_calls(nodes@[a], false), call_prefix(false), id) by {
                    assert(a < i);
                }
            }
        }
    }
    out
}

impl ListingKey for GroupDetail {
    /// By node, then by group number.
    open spec fn listing_key(&self) -> Seq<PartView> {
        seq![PartView::Up(self.node_id@), PartView::UpNum(self.gssi as u64)]
    }

    fn key_parts(&self) -> (r: Vec<KeyPart>) {
        let mut v: Vec<KeyPart> = Vec::new();
        v.push(KeyPart::Up(self.node_id.clone()));
        v.push(KeyPart::UpNum(self.gssi as u64));
        proof {
            assert(key_view(v@) =~= self.listing_key());
        }
        v
    }
}

/// `d` is the listing row of the group `g` of the node `n` (`group_detail`).
pub open spec fn group_row(d: GroupDetail, n: NodeState, g: GroupState) -> bool {
    &&& d.node_id == n.node_id
    &&& d.station_name == n.station_name
    &&& d.gssi == g.gssi
    &&& ascending(d.members@)
    &&& d.members@.to_set() == g.members@
    &&& d.members_online == online_members(d.members@, subscribers_view(n.radio.subscribers@))
    &&& d.active_call_id == listed_group_call(n.radio.group_calls@, g.gssi, g.active_call_id)
    &&& match d.active_call_id {
        Some(id) => d.active_call_key matches Some(k) && k@ == group_call_key(id),
        None => d.active_call_key is None,
    }
}

/// `d` lists a group of the node `n`.
pub open spec fn lists_group_of(d: GroupDetail, n: NodeState) -> bool {
    exists|k: u32| #[trigger] n.radio.groups@.contains_key(k) && group_row(d, n, n.radio.groups@[k])
}

/// The group `k` of the node `n` has a row among `rows`.
pub open spec fn group_has_row(rows: Seq<GroupDetail>, n: NodeState, k: u32) -> bool {
    exists|d: GroupDetail| #[trigger] rows.contains(d) && group_row(d, n, n.radio.groups@[k])
}

/// `d` lists a group of a node that `filter` covers.
pub open spec fn group_row_listed(nodes: Seq<NodeState>, filter: Option<Seq<char>>, d: GroupDetail) -> bool {
    exists|i: int| 0 <= i < nodes.len() && node_selected(#[trigger] nodes[i], filter) && lists_group_of(d, nodes[i])
}

/// Every group of the first `upto` nodes that `filter` covers has a row among `rows`.
pub open spec fn groups_have_rows(rows: Seq<GroupDetail>, nodes: Seq<NodeState>, filter: Option<Seq<char>>, upto: int) -> bool {
    forall|i: int, k: u32|
        0 <= i < upto && node_selected(nodes[i], filter) && #[trigger] nodes[i].radio.groups@.contains_key(k)
            ==> group_has_row(rows, nodes[i], k)
}

proof fn lemma_groups_have_rows_grow(
    before: Seq<GroupDetail>,
    after: Seq<GroupDetail>,
    nodes: Seq<NodeState>,
    filter: Option<Seq<char>>,
    upto: int,
)
    requires
        groups_have_rows(before, nodes, filter, upto),
        forall|d: GroupDetail| #[trigger] before.contains(d) ==> after.contains(d),
    ensures
        groups_have_rows(after, nodes, filter, upto),
{
    assert forall|i: int, k: u32|
        0 <= i < upto && node_selected(nodes[i], filter) && #[trigger] nodes[i].radio.groups@.contains_key(k)
            implies group_has_row(after, nodes[i], k) by {
        let d = choose|d: GroupDetail| #[trigger] before.contains(d) && group_row(d, nodes[i], nodes[i].radio.groups@[k]);
        assert(after.contains(d));
    }
}

fn push_group_rows(n: &NodeState, out: &mut Vec<GroupDetail>)
    ensures
        forall|d: GroupDetail| #[trigger] old(out)@.contains(d) ==> final(out)@.contains(d),
        forall|d: GroupDetail| #[trigger] final(out)@.contains(d) ==> old(out)@.contains(d) || lists_group_of(d, *n),
        forall|k: u32| #[trigger] n.radio.groups@.contains_key(k) ==> group_has_row(final(out)@, *n, k),
{
    let keys = keys_of(&n.radio.groups);
    let ghost start = out@;
    for j in 0..keys.len()
        invariant
            keys@.to_set() == n.radio.groups@.dom(),
            forall|d: GroupDetail| #[trigger] start.contains(d) ==> out@.contains(d),
            forall|d: GroupDetail| #[trigger] out@.contains(d) ==> start.contains(d) || lists_group_of(d, *n),
            forall|b: int| 0 <= b < j ==> group_has_row(out@, *n, #[trigger] keys@[b]),
    {
        let k = keys[j];
        proof {
            assert(keys@.to_set().contains(k));
        }
        let ghost before = out@;
        match n.radio.groups.get(&k) {
            Some(g) => {
                let row = group_detail(n, g);
                out.push(row);
                proof {
                    lemma_push_contains(before, row);
                    assert(out@.contains(row));
                    assert(lists_group_of(row, *n));
                    assert forall|b: int| 0 <= b < j + 1 implies group_has_row(out@, *n, #[trigger] keys@[b]) by {
                        if b < j {
                            let d = choose|d: GroupDetail|
                                #[trigger] before.contains(d) && group_row(d, *n, n.radio.groups@[keys@[b]]);
                            assert(out@.contains(d));
                        } else {
                            assert(out@.contains(row));
                        }
                    }
                }
            },
            None => {
                proof {
                    assert(false);
                }
            },
        }
    }
    proof {
        assert forall|k: u32| #[trigger] n.radio.groups@.contains_key(k) implies group_has_row(out@, *n, k) by {
            assert(keys@.to_set().contains(k));
            let b = choose|b: int| 0 <= b < keys@.len() && keys@[b] == k;
            assert(group_has_row(out@, *n, keys@[b]));
        }
    }
}

fn group_rows(nodes: &Vec<NodeState>, filter: Option<&str>) -> (r: Vec<GroupDetail>)
    ensures
        forall|d: GroupDetail| #[trigger] r@.contains(d) ==> group_row_listed(nodes@, str_view(filter), d),
        groups_have_rows(r@, nodes@, str_view(filter), nodes@.len() as int),
{
    let ghost f = str_view(filter);
    let mut out: Vec<GroupDetail> = Vec::new();
    for i in 0..nodes.len()
        invariant
            f == str_view(filter),
            forall|d: GroupDetail| #[trigger] out@.contains(d) ==> group_row_listed(nodes@, f, d),
            groups_have_rows(out@, nodes@, f, i as int),
    {
        let node = &nodes[i];
        let ghost before = out@;
        if selects(node, filter) {
            push_group_rows(node, &mut out);
            proof {
                assert forall|d: GroupDetail| #[trigger] out@.contains(d) implies group_row_listed(nodes@, f, d) by {
                    if !before.contains(d) {
                        assert(lists_group_of(d, nodes@[i as int]));
                    }
                }
                lemma_groups_have_rows_grow(before, out@, nodes@, f, i as int);
                assert forall|a: int, k: u32|
                    0 <= a < i + 1 && node_selected(nodes@[a], f) && #[trigger] nodes@[a].radio.groups@.contains_key(k)
                        implies group_has_row(out@, nodes@[a], k) by {
                    if a < i {
                    }
                }
            }
        } else {
            proof {
                assert forall|a: int, k: u32|
                    0 <= a < i + 1 && node_selected(nodes@[a], f) && #[trigger] nodes@[a].radio.groups@.contains_key(k)
                        implies group_has_row(out@, nodes@[a], k) by {
                    assert(a < i);
                }
            }
        }
    }
    out
}

impl ListingKey for SubscriberDetail {
    /// By node, then by subscriber number.
    open spec fn listing_key(&self) -> Seq<PartView> {
        seq![PartView::Up(self.node_id@), PartView::UpNum(self.issi as u64)]
    }

    fn key_parts(&self) -> (r: Vec<KeyPart>) {
        let mut v: Vec<KeyPart> = Vec::new();
        v.push(KeyPart::Up(self.node_id.clone()));
        v.push(KeyPart::UpNum(self.issi as u64));
        proof {
            assert(key_view(v@) =~= self.listing_key());
        }
        v
    }
}

/// The subscribers of the nodes asked for.
#[derive(Debug)]
pub struct ControlRoomSubscribersSnapshot {
    pub now: String,
    pub node_filter: Option<String>,
    pub count: usize,
    pub online_count: usize,
    pub subscribers: Vec<SubscriberDetail>,
}

/// `d` is the listing row of the subscriber `m` of the node `n`
/// (`subscriber_detail`).
pub open spec fn subscriber_row(d: SubscriberDetail, n: NodeState, m: SubscriberState) -> bool {
    &&& d.node_id == n.node_id
    &&& d.station_name == n.station_name
    &&& d.issi == m.issi
    &&& d.online == m.online
    &&& ascending(d.groups@)
    &&& d.groups@.to_set() == m.groups@
    &&& d.rssi_dbfs_bits == m.rssi_dbfs_bits
    &&& d.energy_saving_mode == m.energy_saving_mode
    &&& d.emergency == m.emergency
    &&& d.remote_source == m.remote_source
    &&& d.last_seen == m.last_seen
    &&& d.last_event == m.last_event
    &&& d.timeout_drop_count == m.timeout_drop_count
    &&& strictly_sorted(d.active_call_keys.deep_view())
    &&& d.active_call_keys.deep_view().to_set() == involved_call_keys(
        n.radio.group_calls@,
        n.radio.individual_calls@,
        m.issi,
    )
    &&& d.last_location == m.last_location
}

/// Whether a listing, online subscribers only when `online_only`, covers the
/// subscriber `k` of the node `n`.
pub open spec fn subscriber_covered(n: NodeState, k: u32, online_only: bool) -> bool {
    n.radio.subscribers@.contains_key(k) && (!online_only || n.radio.subscribers@[k].online)
}

/// The subscriber `k` of the node `n` has a row among `rows`.
pub open spec fn subscriber_has_row(rows: Seq<SubscriberDetail>, n: NodeState, k: u32) -> bool {
    exists|d: SubscriberDetail| #[trigger] rows.contains(d) && subscriber_row(d, n, n.radio.subscribers@[k])
}

/// `d` lists a subscriber of the node `n` that the listing covers.
pub open spec fn lists_subscriber_of(d: SubscriberDetail, n: NodeState, online_only: bool) -> bool {
    exists|k: u32| #[trigger] subscriber_covered(n, k, online_only) && subscriber_row(d, n, n.radio.subscribers@[k])
}

/// `d` lists a subscriber that the listing covers of a node that `filter` covers.
pub open spec fn subscriber_row_listed(
    nodes: Seq<NodeState>,
    filter: Option<Seq<char>>,
    online_only: bool,
    d: SubscriberDetail,
) -> bool {
    exists|i: int|
        0 <= i < nodes.len() && node_selected(#[trigger] nodes[i], filter) && lists_subscriber_of(d, nodes[i], online_only)
}

/// Every covered subscriber of the first `upto` nodes that `filter` covers
/// has a row among `rows`.
pub open spec fn subscribers_have_rows(
    rows: Seq<SubscriberDetail>,
    nodes: Seq<NodeState>,
    filter: Option<Seq<char>>,
    online_only: bool,
    upto: int,
) -> bool {
    forall|i: int, k: u32|
        0 <= i < upto && node_selected(nodes[i], filter) && #[trigger] subscriber_covered(nodes[i], k, online_only)
            ==> subscriber_has_row(rows, nodes[i], k)
}

/// How many of the rows are online.
pub open spec fn online_rows(s: Seq<SubscriberDetail>) -> nat
    decreases s.len(),
{
    if s.len() == 0 {
        0
    } else {
        online_rows(s.drop_last()) + if s.last().online {
            1nat
        } else {
            0nat
        }
    }
}

fn count_online_rows(s: &Vec<SubscriberDetail>) -> (r: usize)
    ensures
        r == online_rows(s@),
{
    let mut n: usize = 0;
    for i in 0..s.len()
        invariant
            n == online_rows(s@.take(i as int)),
            n <= i,
    {
        proof {
            assert(s@.take(i + 1).drop_last() =~= s@.take(i as int));
        }
        if s[i].online {
            n = n + 1;
        }
    }
    proof {
        assert(s@.take(s@.len() as int) =~= s@);
    }
    n
}

proof fn lemma_subscribers_have_rows_grow(
    before: Seq<SubscriberDetail>,
    after: Seq<SubscriberDetail>,
    nodes: Seq<NodeState>,
    filter: Option<Seq<char>>,
    online_only: bool,
    upto: int,
)
    requires
        subscribers_have_rows(before, nodes, filter, online_only, upto),
        forall|d: SubscriberDetail| #[trigger] before.contains(d) ==> after.contains(d),
    ensures
        subscribers_have_rows(after, nodes, filter, online_only, upto),
{
    assert forall|i: int, k: u32|
        0 <= i < upto && node_selected(nodes[i], filter) && #[trigger] subscriber_covered(nodes[i], k, online_only)
            implies subscriber_has_row(after, nodes[i], k) by {
        let d = choose|d: SubscriberDetail|
            #[trigger] before.contains(d) && subscriber_row(d, nodes[i], nodes[i].radio.subscribers@[k]);
        assert(after.contains(d));
    }
}

fn push_subscriber_rows(n: &NodeState, online_only: bool, out: &mut Vec<SubscriberDetail>)
    ensures
        forall|d: SubscriberDetail| #[trigger] old(out)@.contains(d) ==> final(out)@.contains(d),
        forall|d: SubscriberDetail|
            #[trigger] final(out)@.contains(d) ==> old(out)@.contains(d) || lists_subscriber_of(d, *n, online_only),
        forall|k: u32| #[trigger] subscriber_covered(*n, k, online_only) ==> subscriber_has_row(final(out)@, *n, k),
{
    let keys = keys_of(&n.radio.subscribers);
    let ghost start = out@;
    for j in 0..keys.len()
        invariant
            keys@.to_set() == n.radio.subscribers@.dom(),
            forall|d: SubscriberDetail| #[trigger] start.contains(d) ==> out@.contains(d),
            forall|d: SubscriberDetail|
                #[trigger] out@.contains(d) ==> start.contains(d) || lists_subscriber_of(d, *n, online_only),
            forall|b: int|
                0 <= b < j && subscriber_covered(*n, #[trigger] keys@[b], online_only) ==> subscriber_has_row(
                    out@,
                    *n,
                    keys@[b],
                ),
    {
        let k = keys[j];
        proof {
            assert(keys@.to_set().contains(k));
        }
        let ghost before = out@;
        match n.radio.subscribers.get(&k) {
            Some(m) => {
                if !online_only || m.online {
                    let row = subscriber_detail(n, m);
                    out.push(row);
                    proof {
                        lemma_push_contains(before, row);
                        assert(out@.contains(row));
                        assert(subscriber_covered(*n, k, online_only));
                        assert(lists_subscriber_of(row, *n, online_only));
                        assert forall|b: int|
                            0 <= b < j + 1 && subscriber_covered(*n, #[trigger] keys@[b], online_only) implies subscriber_has_row(
                            out@,
                            *n,
                            keys@[b],
                        ) by {
                            if b < j {
                                let d = choose|d: SubscriberDetail|
                                    #[trigger] before.contains(d) && subscriber_row(d, *n, n.radio.subscribers@[keys@[b]]);
                                assert(out@.contains(d));
                            } else {
                                assert(out@.contains(row));
                            }
                        }
                    }
                } else {
                    proof {
                        assert forall|b: int|
                            0 <= b < j + 1 && subscriber_covered(*n, #[trigger] keys@[b], online_only) implies subscriber_has_row(
                            out@,
                            *n,
                            keys@[b],
                        ) by {
                            if b == j {
                                assert(keys@[b] == k);
                            }
                        }
                    }
                }
            },
            None => {
                proof {
                    assert(false);
                }
            },
        }
    }
    proof {
        assert forall|k: u32| #[trigger] subscriber_covered(*n, k, online_only) implies subscriber_has_row(out@, *n, k) by {
            assert(keys@.to_set().contains(k));
            let b = choose|b: int| 0 <= b < keys@.len() && keys@[b] == k;
            assert(subscriber_covered(*n, keys@[b], online_only));
        }
    }
}

fn subscriber_rows(nodes: &Vec<NodeState>, filter: Option<&str>, online_only: bool) -> (r: Vec<SubscriberDetail>)
    ensures
        forall|d: SubscriberDetail|
            #[trigger] r@.contains(d) ==> subscriber_row_listed(nodes@, str_view(filter), online_only, d),
        subscribers_have_rows(r@, nodes@, str_view(filter), online_only, nodes@.len() as int),
{
    let ghost f = str_view(filter);
    let mut out: Vec<SubscriberDetail> = Vec::new();
    for i in 0..nodes.len()
        invariant
            f == str_view(filter),
            forall|d: SubscriberDetail| #[trigger] out@.contains(d) ==> subscriber_row_listed(nodes@, f, online_only, d),
            subscribers_have_rows(out@, nodes@, f, online_only, i as int),
    {
        let node = &nodes[i];
        let ghost before = out@;
        if selects(node, filter) {
            push_subscriber_rows(node, online_only, &mut out);
            proof {
                assert forall|d: SubscriberDetail| #[trigger] out@.contains(d) implies subscriber_row_listed(
                    nodes@,
                    f,
                    online_only,
                    d,
                ) by {
                    if !before.contains(d) {
                        assert(lists_subscriber_of(d, nodes@[i as int], online_only));
                    }
                }
                lemma_subscribers_have_rows_grow(before, out@, nodes@, f, online_only, i as int);
                assert forall|a: int, k: u32|
                    0 <= a < i + 1 && node_selected(nodes@[a], f) && #[trigger] subscriber_covered(nodes@[a], k, online_only)
                        implies subscriber_has_row(out@, nodes@[a], k) by {
                }
            }
        } else {
            proof {
                assert forall|a: int, k: u32|
                    0 <= a < i + 1 && node_selected(nodes@[a], f) && #[trigger] subscriber_covered(nodes@[a], k, online_only)
                        implies subscriber_has_row(out@, nodes@[a], k) by {
                    assert(a < i);
                }
            }
        }
    }
    out
}

/// A position fix as listed to operators; latitude and longitude are the
/// bit patterns of their `f64` values.
#[derive(Debug)]
pub struct LocationDetail {
    pub node_id: String,
    pub station_name: Option<String>,
    pub issi: u32,
    pub latitude_bits: u64,
    pub longitude_bits: u64,
    pub source: String,
    pub updated_at: String,
    pub raw_text: Option<String>,
}

/// The position fixes of the nodes asked for.
#[derive(Debug)]
pub struct ControlRoomLocationsSnapshot {
    pub now: String,
    pub node_filter: Option<String>,
    pub count: usize,
    pub locations: Vec<LocationDetail>,
}

impl ListingKey for LocationDetail {
    /// The newest first, then by node and subscriber.
    open spec fn listing_key(&self) -> Seq<PartView> {
        seq![PartView::Down(self.updated_at@), PartView::Up(self.node_id@), PartView::UpNum(self.issi as u64)]
    }

    fn key_parts(&self) -> (r: Vec<KeyPart>) {
        let mut v: Vec<KeyPart> = Vec::new();
        v.push(KeyPart::Down(self.updated_at.clone()));
        v.push(KeyPart::Up(self.node_id.clone()));
        v.push(KeyPart::UpNum(self.issi as u64));
        proof {
            assert(key_view(v@) =~= self.listing_key());
        }
        v
    }
}

/// The listing row of the fix `l` of subscriber `issi` of the node `n`.
pub open spec fn location_row_value(n: NodeState, issi: u32, l: LocationState) -> LocationDetail {
    LocationDetail {
        node_id: n.node_id,
        station_name: n.station_name,
        issi,
        latitude_bits: l.latitude_bits,
        longitude_bits: l.longitude_bits,
        source: l.source,
        updated_at: l.updated_at,
        raw_text: l.raw_text,
    }
}

/// The subscriber `k` of the node `n` has a fix.
pub open spec fn has_fix(n: NodeState, k: u32) -> bool {
    n.radio.subscribers@.contains_key(k) && n.radio.subscribers@[k].last_location is Some
}

/// `d` lists the fix of a subscriber of the node `n`.
pub open spec fn lists_fix_of(d: LocationDetail, n: NodeState) -> bool {
    exists|k: u32|
        #[trigger] has_fix(n, k) && d == location_row_value(
            n,
            n.radio.subscribers@[k].issi,
            n.radio.subscribers@[k].last_location->Some_0,
        )
}

/// `d` lists a fix of a subscriber of a node that `filter` covers.
pub open spec fn location_listed(nodes: Seq<NodeState>, filter: Option<Seq<char>>, d: LocationDetail) -> bool {
    exists|i: int| 0 <= i < nodes.len() && node_selected(#[trigger] nodes[i], filter) && lists_fix_of(d, nodes[i])
}

/// The fix of subscriber `k` of the node `n` has a row among `rows`.
pub open spec fn fix_has_row(rows: Seq<LocationDetail>, n: NodeState, k: u32) -> bool {
    rows.contains(
        location_row_value(n, n.radio.subscribers@[k].issi, n.radio.subscribers@[k].last_location->Some_0),
    )
}

/// Every fix of the first `upto` nodes that `filter` covers has a row among `rows`.
pub open spec fn fixes_have_rows(rows: Seq<LocationDetail>, nodes: Seq<NodeState>, filter: Option<Seq<char>>, upto: int) -> bool {
    forall|i: int, k: u32|
        0 <= i < upto && node_selected(nodes[i], filter) && #[trigger] has_fix(nodes[i], k) ==> fix_has_row(
            rows,
            nodes[i],
            k,
        )
}

fn location_row_of(n: &NodeState, issi: u32, l: &LocationState) -> (r: LocationDetail)
    ensures
        r == location_row_value(*n, issi, *l),
{
    LocationDetail {
        node_id: n.node_id.clone(),
        station_name: copy_text(&n.station_name),
        issi,
        latitude_bits: l.latitude_bits,
        longitude_bits: l.longitude_bits,
        source: l.source.clone(),
        updated_at: l.updated_at.clone(),
        raw_text: copy_text(&l.raw_text),
    }
}

fn push_location_rows(n: &NodeState, out: &mut Vec<LocationDetail>)
    ensures
        forall|d: LocationDetail| #[trigger] old(out)@.contains(d) ==> final(out)@.contains(d),
        forall|d: LocationDetail| #[trigger] final(out)@.contains(d) ==> old(out)@.contains(d) || lists_fix_of(d, *n),
        forall|k: u32| #[trigger] has_fix(*n, k) ==> fix_has_row(final(out)@, *n, k),
{
    let keys = keys_of(&n.radio.subscribers);
    let ghost start = out@;
    for j in 0..keys.len()
        invariant
            keys@.to_set() == n.radio.subscribers@.dom(),
            forall|d: LocationDetail| #[trigger] start.contains(d) ==> out@.contains(d),
            forall|d: LocationDetail| #[trigger] out@.contains(d) ==> start.contains(d) || lists_fix_of(d, *n),
            forall|b: int| 0 <= b < j && has_fix(*n, #[trigger] keys@[b]) ==> fix_has_row(out@, *n, keys@[b]),
    {
        let k = keys[j];
        proof {
            assert(keys@.to_set().contains(k));
        }
        let ghost before = out@;
        match n.radio.subscribers.get(&k) {
            Some(m) => match &m.last_location {
                Some(l) => {
                    let row = location_row_of(n, m.issi, l);
                    out.push(row);
                    proof {
                        lemma_push_contains(before, row);
                        assert(has_fix(*n, k));
                        assert(lists_fix_of(row, *n));
                        assert forall|b: int| 0 <= b < j + 1 && has_fix(*n, #[trigger] keys@[b]) implies fix_has_row(
                            out@,
                            *n,
                            keys@[b],
                        ) by {
                            if b == j {
                                assert(keys@[b] == k);
                            }
                        }
                    }
                },
                None => {
                    proof {
                        assert forall|b: int| 0 <= b < j + 1 && has_fix(*n, #[trigger] keys@[b]) implies fix_has_row(
                            out@,
                            *n,
                            keys@[b],
                        ) by {
                            if b == j {
                                assert(keys@[b] == k);
                            }
                        }
                    }
                },
            },
            None => {
                proof {
                    assert(false);
                }
            },
        }
    }
    proof {
        assert forall|k: u32| #[trigger] has_fix(*n, k) implies fix_has_row(out@, *n, k) by {
            assert(keys@.to_set().contains(k));
            let b = choose|b: int| 0 <= b < keys@.len() && keys@[b] == k;
            assert(has_fix(*n, keys@[b]));
        }
    }
}

fn location_rows(nodes: &Vec<NodeState>, filter: Option<&str>) -> (r: Vec<LocationDetail>)
    ensures
        forall|d: LocationDetail| #[trigger] r@.contains(d) ==> location_listed(nodes@, str_view(filter), d),
        fixes_have_rows(r@, nodes@, str_view(filter), nodes@.len() as int),
{
    let ghost f = str_view(filter);
    let mut out: Vec<LocationDetail> = Vec::new();
    for i in 0..nodes.len()
        invariant
            f == str_view(filter),
            forall|d: LocationDetail| #[trigger] out@.contains(d) ==> location_listed(nodes@, f, d),
            fixes_have_rows(out@, nodes@, f, i as int),
    {
        let node = &nodes[i];
        let ghost before = out@;
        if selects(node, filter) {
            push_location_rows(node, &mut out);
            proof {
                assert forall|d: LocationDetail| #[trigger] out@.contains(d) implies location_listed(nodes@, f, d) by {
                    if !before.contains(d) {
                        assert(lists_fix_of(d, nodes@[i as int]));
                    }
                }
                assert forall|a: int, k: u32|
                    0 <= a < i + 1 && node_selected(nodes@[a], f) && #[trigger] has_fix(nodes@[a], k) implies fix_has_row(
                    out@,
                    nodes@[a],
                    k,
                ) by {
                    if a < i {
                        assert(fix_has_row(before, nodes@[a], k));
                    }
                }
            }
        } else {
            proof {
                assert forall|a: int, k: u32|
                    0 <= a < i + 1 && node_selected(nodes@[a], f) && #[trigger] has_fix(nodes@[a], k) implies fix_has_row(
                    out@,
                    nodes@[a],
                    k,
                ) by {
                    assert(a < i);
                }
            }
        }
    }
    out
}

impl ControlRoomState {
    /// The emergencies of the node `node_filter`, or of every node, the
    /// active ones only when `active_only`, in listing order; none when the
    /// node asked for is not in the register.
    pub fn emergencies_snapshot(&self, node_filter: Option<&str>, active_only: bool) -> (r: Option<
        ControlRoomEmergenciesSnapshot,
    >)
        requires
            self.wf(),
        ensures
            r is None <==> (node_filter matches Some(id) && !knows(self.nodes@, id@)),
            r matches Some(s) ==> {
                &&& crate::node_state::text_view(s.node_filter) == str_view(node_filter)
                &&& in_key_order(s.emergencies@)
                &&& forall|d: EmergencyDetail|
                    s.emergencies@.contains(d) <==> emergency_listed(
                        self.nodes@,
                        str_view(node_filter),
                        active_only,
                        d,
                    )
                &&& s.count == s.emergencies@.len()
                &&& s.active_count == active_rows(s.emergencies@)
            },
    {
        match node_filter {
            Some(id) => {
                if self.node(id).is_none() {
                    return None;
                }
            },
            None => {},
        }
        let rows = emergency_rows(&self.nodes, node_filter, active_only);
        let sorted = sort_rows(rows);
        proof {
            assert forall|d: EmergencyDetail| sorted@.contains(d) <==> rows@.contains(d) by {
                assert(sorted@.to_multiset().count(d) == rows@.to_multiset().count(d));
            }
        }
        let active_count = count_active_rows(&sorted);
        Some(
            ControlRoomEmergenciesSnapshot {
                now: now_iso(),
                node_filter: match node_filter {
                    Some(id) => Some(lit(id)),
                    None => None,
                },
                count: sorted.len(),
                active_count,
                emergencies: sorted,
            },
        )
    }

    /// The SDS of the node `node_filter`, or of every node: the newest
    /// `limit` of each node's log, in listing order, the first `limit` of
    /// them; none when the node asked for is not in the register.
    pub fn sds_snapshot(&self, node_filter: Option<&str>, limit: usize) -> (r: Option<ControlRoomSdsSnapshot>)
        requires
            self.wf(),
        ensures
            r is None <==> (node_filter matches Some(id) && !knows(self.nodes@, id@)),
            r matches Some(s) ==> {
                &&& crate::node_state::text_view(s.node_filter) == str_view(node_filter)
                &&& s.count == s.sds@.len()
                &&& exists|full: Seq<SdsDetail>|
                    in_key_order(full) && #[trigger] full.to_multiset() == sds_collected(
                        self.nodes@,
                        str_view(node_filter),
                        limit as nat,
                    ).to_multiset() && s.sds@ == full.take(
                        if full.len() < limit {
                            full.len() as int
                        } else {
                            limit as int
                        },
                    )
            },
    {
        match node_filter {
            Some(id) => {
                if self.node(id).is_none() {
                    return None;
                }
            },
            None => {},
        }
        let rows = sds_rows(&self.nodes, node_filter, limit);
        let mut sorted = sort_rows(rows);
        let ghost full = sorted@;
        sorted.truncate(limit);
        proof {
            if full.len() < limit {
                assert(sorted@ == full);
                assert(full.take(full.len() as int) =~= full);
            } else {
                assert(sorted@ =~= full.take(limit as int));
            }
        }
        Some(
            ControlRoomSdsSnapshot {
                now: now_iso(),
                node_filter: match node_filter {
                    Some(id) => Some(lit(id)),
                    None => None,
                },
                count: sorted.len(),
                sds: sorted,
            },
        )
    }

    /// The calls of the node `node_filter`, or of every node, in listing
    /// order: every row lists a call of such a node, and every call of such
    /// a node has a row; none when the node asked for is not in the register.
    pub fn calls_snapshot(&self, node_filter: Option<&str>) -> (r: Option<ControlRoomCallsSnapshot>)
        requires
            self.wf(),
        ensures
            r is None <==> (node_filter matches Some(id) && !knows(self.nodes@, id@)),
            r matches Some(s) ==> {
                &&& crate::node_state::text_view(s.node_filter) == str_view(node_filter)
                &&& in_key_order(s.calls@)
                &&& forall|d: CallDetail| #[trigger] s.calls@.contains(d) ==> call_row_listed(self.nodes@, str_view(node_filter), d)
                &&& every_call_has_row(s.calls@, self.nodes@, str_view(node_filter))
                &&& s.count == s.calls@.len()
            },
    {
        match node_filter {
            Some(id) => {
                if self.node(id).is_none() {
                    return None;
                }
            },
            None => {},
        }
        let rows = call_rows(&self.nodes, node_filter);
        let sorted = sort_rows(rows);
        proof {
            assert forall|d: CallDetail| sorted@.contains(d) <==> rows@.contains(d) by {
                assert(sorted@.to_multiset().count(d) == rows@.to_multiset().count(d));
            }
            lemma_calls_have_rows_grow(rows@, sorted@, self.nodes@, str_view(node_filter), self.nodes@.len() as int, true);
            lemma_calls_have_rows_grow(rows@, sorted@, self.nodes@, str_view(node_filter), self.nodes@.len() as int, false);
        }
        Some(
            ControlRoomCallsSnapshot {
                now: now_iso(),
                node_filter: match node_filter {
                    Some(id) => Some(lit(id)),
                    None => None,
                },
                count: sorted.len(),
                calls: sorted,
            },
        )
    }

    /// The groups of the node `node_filter`, or of every node, in listing
    /// order: every row lists a group of such a node, and every group of
    /// such a node has a row; none when the node asked for is not in the
    /// register.
    pub fn groups_snapshot(&self, node_filter: Option<&str>) -> (r: Option<ControlRoomGroupsSnapshot>)
        requires
            self.wf(),
        ensures
            r is None <==> (node_filter matches Some(id) && !knows(self.nodes@, id@)),
            r matches Some(s) ==> {
                &&& crate::node_state::text_view(s.node_filter) == str_view(node_filter)
                &&& in_key_order(s.groups@)
                &&& forall|d: GroupDetail| #[trigger] s.groups@.contains(d) ==> group_row_listed(self.nodes@, str_view(node_filter), d)
                &&& groups_have_rows(s.groups@, self.nodes@, str_view(node_filter), self.nodes@.len() as int)
                &&& s.count == s.groups@.len()
            },
    {
        match node_filter {
            Some(id) => {
                if self.node(id).is_none() {
                    return None;
                }
            },
            None => {},
        }
        let rows = group_rows(&self.nodes, node_filter);
        let sorted = sort_rows(rows);
        proof {
            assert forall|d: GroupDetail| sorted@.contains(d) <==> rows@.contains(d) by {
                assert(sorted@.to_multiset().count(d) == rows@.to_multiset().count(d));
            }
            lemma_groups_have_rows_grow(rows@, sorted@, self.nodes@, str_view(node_filter), self.nodes@.len() as int);
        }
        Some(
            ControlRoomGroupsSnapshot {
                now: now_iso(),
                node_filter: match node_filter {
                    Some(id) => Some(lit(id)),
                    None => None,
                },
                count: sorted.len(),
                groups: sorted,
            },
        )
    }

    /// The subscribers of the node `node_filter`, or of every node, online
    /// ones only when `online_only`, in listing order: every row lists such
    /// a subscriber, and every such subscriber has a row; none when the node
    /// asked for is not in the register.
    pub fn subscribers_snapshot(&self, node_filter: Option<&str>, online_only: bool) -> (r: Option<
        ControlRoomSubscribersSnapshot,
    >)
        requires
            self.wf(),
        ensures
            r is None <==> (node_filter matches Some(id) && !knows(self.nodes@, id@)),
            r matches Some(s) ==> {
                &&& crate::node_state::text_view(s.node_filter) == str_view(node_filter)
                &&& in_key_order(s.subscribers@)
                &&& forall|d: SubscriberDetail|
                    #[trigger] s.subscribers@.contains(d) ==> subscriber_row_listed(
                        self.nodes@,
                        str_view(node_filter),
                        online_only,
                        d,
                    )
                &&& subscribers_have_rows(
                    s.subscribers@,
                    self.nodes@,
                    str_view(node_filter),
                    online_only,
                    self.nodes@.len() as int,
                )
                &&& s.count == s.subscribers@.len()
                &&& s.online_count == online_rows(s.subscribers@)
            },
    {
        match node_filter {
            Some(id) => {
                if self.node(id).is_none() {
                    return None;
                }
            },
            None => {},
        }
        let rows = subscriber_rows(&self.nodes, node_filter, online_only);
        let sorted = sort_rows(rows);
        proof {
            assert forall|d: SubscriberDetail| sorted@.contains(d) <==> rows@.contains(d) by {
                assert(sorted@.to_multiset().count(d) == rows@.to_multiset().count(d));
            }
            lemma_subscribers_have_rows_grow(
                rows@,
                sorted@,
                self.nodes@,
                str_view(node_filter),
                online_only,
                self.nodes@.len() as int,
            );
        }
        let online_count = count_online_rows(&sorted);
        Some(
            ControlRoomSubscribersSnapshot {
                now: now_iso(),
                node_filter: match node_filter {
                    Some(id) => Some(lit(id)),
                    None => None,
                },
                count: sorted.len(),
                online_count,
                subscribers: sorted,
            },
        )
    }

    /// The position fixes of the subscribers of the node `node_filter`, or
    /// of every node, in listing order: every row lists such a fix, and every
    /// such fix has a row; none when the node asked for is not in the
    /// register.
    pub fn locations_snapshot(&self, node_filter: Option<&str>) -> (r: Option<ControlRoomLocationsSnapshot>)
        requires
            self.wf(),
        ensures
            r is None <==> (node_filter matches Some(id) && !knows(self.nodes@, id@)),
            r matches Some(s) ==> {
                &&& crate::node_state::text_view(s.node_filter) == str_view(node_filter)
                &&& in_key_order(s.locations@)
                &&& forall|d: LocationDetail|
                    #[trigger] s.locations@.contains(d) ==> location_listed(self.nodes@, str_view(node_filter), d)
                &&& fixes_have_rows(s.locations@, self.nodes@, str_view(node_filter), self.nodes@.len() as int)
                &&& s.count == s.locations@.len()
            },
    {
        match node_filter {
            Some(id) => {
                if self.node(id).is_none() {
                    return None;
                }
            },
            None => {},
        }
        let rows = location_rows(&self.nodes, node_filter);
        let sorted = sort_rows(rows);
        proof {
            assert forall|d: LocationDetail| sorted@.contains(d) <==> rows@.contains(d) by {
                assert(sorted@.to_multiset().count(d) == rows@.to_multiset().count(d));
            }
            assert forall|i: int, k: u32|
                0 <= i < self.nodes@.len() && node_selected(self.nodes@[i], str_view(node_filter))
                    && #[trigger] has_fix(self.nodes@[i], k) implies fix_has_row(sorted@, self.nodes@[i], k) by {
                assert(fix_has_row(rows@, self.nodes@[i], k));
            }
        }
        Some(
            ControlRoomLocationsSnapshot {
                now: now_iso(),
                node_filter: match node_filter {
                    Some(id) => Some(lit(id)),
                    None => None,
                },
                count: sorted.len(),
                locations: sorted,
            },
        )
    }
}

} // verus!
