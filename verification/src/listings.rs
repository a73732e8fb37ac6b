//! The rows that the control room lists for the groups and subscribers of a
//! node, and the counts of its overview.
use vstd::prelude::*;
use std::collections::{HashMap, HashSet};
use crate::node_state::{keys_of, LocationState, NodeState, SubscriberState, SubscriberView, subscribers_view, text_view};
use crate::room_state::{involves, call_involves_subscriber, CallState, EmergencyState, GroupDetail, GroupState};
use crate::text::{concat, dec_string, dec_seq, sorted_dedup, strictly_sorted};

verus! {

/// The numbers of `s` rise strictly.
pub open spec fn ascending(s: Seq<u32>) -> bool {
    forall|i: int, j: int| 0 <= i < j < s.len() ==> #[trigger] s[i] < #[trigger] s[j]
}

/// Puts `x`, which `v` does not hold, into its place in the rising `v`.
fn insert_ascending(v: &mut Vec<u32>, x: u32)
    requires
        ascending(old(v)@),
        !old(v)@.contains(x),
    ensures
        ascending(final(v)@),
        final(v)@.to_set() == old(v)@.to_set().insert(x),
{
    let mut p: usize = 0;
    while p < v.len() && v[p] < x
        invariant
            p <= v@.len(),
            forall|k: int| 0 <= k < p ==> #[trigger] v@[k] < x,
        decreases v@.len() - p,
    {
        p = p + 1;
    }
    let ghost before = v@;
    v.insert(p, x);
    proof {
        assert(p < before.len() ==> before[p as int] != x);
        assert(forall|k: int| p <= k < before.len() ==> #[trigger] before[k] >= before[p as int]);
        assert forall|i: int, j: int| 0 <= i < j < v@.len() implies #[trigger] v@[i] < #[trigger] v@[j] by {
            if j < p {
                assert(v@[i] == before[i] && v@[j] == before[j]);
            } else if j == p {
                assert(v@[i] == before[i]);
            } else if i < p {
                assert(v@[i] == before[i] && v@[j] == before[j - 1]);
                assert(before[j - 1] >= before[p as int]);
            } else if i == p {
                assert(v@[j] == before[j - 1]);
                assert(before[j - 1] >= before[p as int]);
                assert(before[p as int] != x);
            } else {
                assert(v@[i] == before[i - 1] && v@[j] == before[j - 1]);
            }
        }
        assert(v@ =~= before.insert(p as int, x));
        assert forall|y: u32| v@.to_set().contains(y) <==> before.to_set().insert(x).contains(y) by {
            if v@.to_set().contains(y) {
                let k = choose|k: int| 0 <= k < v@.len() && v@[k] == y;
                if k < p {
                    assert(before[k] == y);
                } else if k > p {
                    assert(before[k - 1] == y);
                }
            }
            if before.to_set().contains(y) {
                let k = choose|k: int| 0 <= k < before.len() && before[k] == y;
                if k < p {
                    assert(v@[k] == y);
                } else {
                    assert(v@[k + 1] == y);
                }
            }
            if y == x {
                assert(v@[p as int] == x);
            }
        }
        assert(v@.to_set() =~= before.to_set().insert(x));
    }
}

/// The numbers of a set, rising.
pub fn ascending_ids(set: &HashSet<u32>) -> (r: Vec<u32>)
    ensures
        ascending(r@),
        r@.to_set() == set@,
{
    let mut out: Vec<u32> = Vec::new();
    for x in it: set.iter()
        invariant
            ascending(out@),
            out@.to_set() == it.seq().take(it.index() as int).unref().to_set(),
            it.seq().unref().to_set() == set@,
            it.seq().unref().no_duplicates(),
            it.seq().take(it.seq().len() as int) == it.seq(),
    {
        let ghost done = it.seq().take(it.index() as int).unref();
        proof {
            let all = it.seq().unref();
            assert(all[it.index() as int] == *x);
            if out@.contains(*x) {
                let k = choose|k: int| 0 <= k < out@.len() && out@[k] == *x;
                assert(out@.to_set().contains(*x));
                assert(done.to_set().contains(*x));
                let j = choose|j: int| 0 <= j < done.len() && done[j] == *x;
                assert(all[j] == all[it.index() as int]);
            }
        }
        insert_ascending(&mut out, *x);
        proof {
            let next = it.seq().take(it.index() as int + 1).unref();
            assert(next =~= done.push(*x));
            assert(next.to_set() =~= done.to_set().insert(*x)) by {
                assert forall|y: u32| next.to_set().contains(y) <==> done.to_set().insert(*x).contains(y) by {
                    if next.to_set().contains(y) {
                        let k = choose|k: int| 0 <= k < next.len() && next[k] == y;
                        if k < done.len() {
                            assert(done[k] == y);
                        }
                    }
                    if done.to_set().contains(y) {
                        let k = choose|k: int| 0 <= k < done.len() && done[k] == y;
                        assert(next[k] == y);
                    }
                    if y == *x {
                        assert(next[done.len() as int] == y);
                    }
                }
            }
        }
    }
    out
}

/// How many of the subscribers `ms` are online, by the records `subs`; a
/// subscriber without a record is not.
pub open spec fn online_members(ms: Seq<u32>, subs: Map<u32, SubscriberView>) -> nat
    decreases ms.len(),
{
    if ms.len() == 0 {
        0
    } else {
        online_members(ms.drop_last(), subs) + if subs.contains_key(ms.last()) && subs[ms.last()].online {
            1nat
        } else {
            0nat
        }
    }
}

/// The key under which the control room lists the group call `call_id`.
pub open spec fn group_call_key(call_id: u16) -> Seq<char> {
    "group:"@ + dec_seq(call_id as nat)
}

/// The key of the call that a group listing names: the group's active call,
/// when the node holds it as a group call of this group.
pub open spec fn listed_group_call(calls: Map<u16, CallState>, gssi: u32, active: Option<u16>) -> Option<u16> {
    match active {
        Some(id) => if calls.contains_key(id) && (calls[id] matches CallState::Group { call_id, gssi: g, .. } && call_id
            == id && g == gssi) {
            Some(id)
        } else {
            None
        },
        None => None,
    }
}

/// The listing row of a group of a node: its members rising, how many of
/// them are online, and its active call where the node holds that call.
pub fn group_detail(node: &NodeState, group: &GroupState) -> (r: GroupDetail)
    ensures
        r.node_id == node.node_id,
        r.station_name == node.station_name,
        r.gssi == group.gssi,
        ascending(r.members@),
        r.members@.to_set() == group.members@,
        r.members_online == online_members(r.members@, subscribers_view(node.radio.subscribers@)),
        r.active_call_id == listed_group_call(node.radio.group_calls@, group.gssi, group.active_call_id),
        match r.active_call_id {
            Some(id) => r.active_call_key matches Some(k) && k@ == group_call_key(id),
            None => r.active_call_key is None,
        },
{
    let members = ascending_ids(&group.members);
    let ghost subs = subscribers_view(node.radio.subscribers@);
    let mut online: usize = 0;
    let mut i: usize = 0;
    while i < members.len()
        invariant
            i <= members@.len(),
            subs == subscribers_view(node.radio.subscribers@),
            online == online_members(members@.take(i as int), subs),
            online <= i,
        decreases members@.len() - i,
    {
        let ghost before = members@.take(i as int);
        proof {
            assert(members@.take(i + 1).drop_last() =~= before);
            assert(members@.take(i + 1).last() == members@[i as int]);
        }
        match node.radio.subscribers.get(&members[i]) {
            Some(s) => {
                if s.online {
                    online = online + 1;
                }
            },
            None => {},
        }
        i = i + 1;
    }
    proof {
        assert(members@.take(members@.len() as int) =~= members@);
    }
    let active_call_id = match group.active_call_id {
        Some(id) => match node.radio.group_calls.get(&id) {
            Some(CallState::Group { call_id, gssi, .. }) => {
                if *call_id == id && *gssi == group.gssi {
                    Some(id)
                } else {
                    None
                }
            },
            _ => None,
        },
        None => None,
    };
    let active_call_key = match active_call_id {
        Some(id) => Some(concat("group:", dec_string(id as u64).as_str())),
        None => None,
    };
    GroupDetail {
        node_id: node.node_id.clone(),
        station_name: match &node.station_name {
            Some(s) => Some(s.clone()),
            None => None,
        },
        gssi: group.gssi,
        members,
        members_online: online,
        active_call_id,
        active_call_key,
    }
}

/// The key under which the control room lists the individual call `call_id`.
pub open spec fn individual_call_key(call_id: u16) -> Seq<char> {
    "individual:"@ + dec_seq(call_id as nat)
}

/// The keys of the calls of `calls`, listed under `prefix` and the call id,
/// that subscriber `issi` takes part in.
pub open spec fn keys_involving(calls: Map<u16, CallState>, prefix: Seq<char>, issi: u32) -> Set<Seq<char>> {
    Set::new(
        |k: Seq<char>|
            exists|id: u16|
                #[trigger] calls.contains_key(id) && involves(calls[id], issi) && k == prefix + dec_seq(id as nat),
    )
}

/// The keys of the group and individual calls of a node that subscriber
/// `issi` takes part in.
pub open spec fn involved_call_keys(
    group_calls: Map<u16, CallState>,
    individual_calls: Map<u16, CallState>,
    issi: u32,
) -> Set<Seq<char>> {
    keys_involving(group_calls, "group:"@, issi).union(keys_involving(individual_calls, "individual:"@, issi))
}

/// The ids of a map of calls, each once.
pub(crate) fn call_ids(m: &HashMap<u16, CallState>) -> (r: Vec<u16>)
    ensures
        r@.to_set() == m@.dom(),
{
    let mut out: Vec<u16> = Vec::new();
    for k in it: m.keys()
        invariant
            out@ == it.seq().take(it.index() as int).unref(),
            it.seq().unref().to_set() == m@.dom(),
            it.seq().take(it.seq().len() as int) == it.seq(),
    {
        out.push(*k);
        proof {
            assert(it.seq().take(it.index() as int + 1).unref() =~= out@);
        }
    }
    out
}

/// Adds to `out` the keys, under `prefix`, of the calls of `m` that
/// subscriber `issi` takes part in.
fn push_keys_involving(out: &mut Vec<String>, m: &HashMap<u16, CallState>, prefix: &str, issi: u32)
    ensures
        final(out).deep_view().to_set() == old(out).deep_view().to_set().union(keys_involving(m@, prefix@, issi)),
{
    let ids = call_ids(m);
    let ghost start = out.deep_view().to_set();
    let ghost found = Set::new(
        |k: Seq<char>|
            exists|j: int|
                0 <= j < ids@.len() && involves(m@[#[trigger] ids@[j]], issi) && k == prefix@ + dec_seq(ids@[j] as nat),
    );
    let mut i: usize = 0;
    while i < ids.len()
        invariant
            i <= ids@.len(),
            ids@.to_set() == m@.dom(),
            out.deep_view().to_set() == start.union(
                Set::new(
                    |k: Seq<char>|
                        exists|j: int|
                            0 <= j < i && involves(m@[#[trigger] ids@[j]], issi) && k == prefix@ + dec_seq(
                                ids@[j] as nat,
                            ),
                ),
            ),
        decreases ids@.len() - i,
    {
        let id = ids[i];
        let ghost done = Set::new(
            |k: Seq<char>|
                exists|j: int|
                    0 <= j < i && involves(m@[#[trigger] ids@[j]], issi) && k == prefix@ + dec_seq(ids@[j] as nat),
        );
        let ghost next = Set::new(
            |k: Seq<char>|
                exists|j: int|
                    0 <= j < i + 1 && involves(m@[#[trigger] ids@[j]], issi) && k == prefix@ + dec_seq(
                        ids@[j] as nat,
                    ),
        );
        proof {
            assert(ids@.to_set().contains(id));
        }
        match m.get(&id) {
            Some(call) => {
                if call_involves_subscriber(call, issi) {
                    let key = concat(prefix, dec_string(id as u64).as_str());
                    let ghost before = out.deep_view();
                    out.push(key);
                    proof {
                        assert(out.deep_view() =~= before.push(key@));
                        assert(next =~= done.insert(key@)) by {
                            assert(involves(m@[ids@[i as int]], issi));
                        }
                        assert(out.deep_view().to_set() =~= before.to_set().insert(key@)) by {
                            assert forall|y: Seq<char>| out.deep_view().to_set().contains(y) <==> before.to_set().insert(
                                key@,
                            ).contains(y) by {
                                if out.deep_view().to_set().contains(y) {
                                    let k = choose|k: int| 0 <= k < out.deep_view().len() && out.deep_view()[k] == y;
                                    if k < before.len() {
                                        assert(before[k] == y);
                                    }
                                }
                                if before.to_set().contains(y) {
                                    let k = choose|k: int| 0 <= k < before.len() && before[k] == y;
                                    assert(out.deep_view()[k] == y);
                                }
                                if y == key@ {
                                    assert(out.deep_view()[before.len() as int] == y);
                                }
                            }
                        }
                        assert(out.deep_view().to_set() =~= start.union(next));
                    }
                } else {
                    proof {
                        assert(next =~= done);
                    }
                }
            },
            None => {
                proof {
                    assert(false);
                }
            },
        }
        i = i + 1;
    }
    proof {
        assert(found =~= keys_involving(m@, prefix@, issi)) by {
            assert forall|k: Seq<char>| found.contains(k) <==> keys_involving(m@, prefix@, issi).contains(k) by {
                if found.contains(k) {
                    let j = choose|j: int|
                        0 <= j < ids@.len() && involves(m@[#[trigger] ids@[j]], issi) && k == prefix@ + dec_seq(
                            ids@[j] as nat,
                        );
                    assert(ids@.to_set().contains(ids@[j]));
                    assert(m@.contains_key(ids@[j]));
                }
                if keys_involving(m@, prefix@, issi).contains(k) {
                    let id = choose|id: u16|
                        #[trigger] m@.contains_key(id) && involves(m@[id], issi) && k == prefix@ + dec_seq(id as nat);
                    assert(ids@.to_set().contains(id));
                    let j = choose|j: int| 0 <= j < ids@.len() && ids@[j] == id;
                    assert(involves(m@[ids@[j]], issi));
                }
            }
        }
    }
}

/// The keys of the calls of a node that subscriber `issi` takes part in,
/// in the order of their text.
pub fn subscriber_active_call_keys(node: &NodeState, issi: u32) -> (r: Vec<String>)
    ensures
        strictly_sorted(r.deep_view()),
        r.deep_view().to_set() == involved_call_keys(
            node.radio.group_calls@,
            node.radio.individual_calls@,
            issi,
        ),
{
    let mut keys: Vec<String> = Vec::new();
    proof {
        assert(keys.deep_view().to_set() =~= Set::empty());
    }
    push_keys_involving(&mut keys, &node.radio.group_calls, "group:", issi);
    push_keys_involving(&mut keys, &node.radio.individual_calls, "individual:", issi);
    proof {
        assert(keys.deep_view().to_set() =~= involved_call_keys(
            node.radio.group_calls@,
            node.radio.individual_calls@,
            issi,
        ));
    }
    sorted_dedup(&keys)
}

/// A subscriber as listed to operators. The signal strength is the bit
/// pattern of the `f32` dBFS value.
#[derive(Debug)]
pub struct SubscriberDetail {
    pub node_id: String,
    pub station_name: Option<String>,
    pub issi: u32,
    pub online: bool,
    pub groups: Vec<u32>,
    pub rssi_dbfs_bits: Option<u32>,
    pub energy_saving_mode: Option<u8>,
    pub emergency: bool,
    pub remote_source: Option<String>,
    pub last_seen: Option<String>,
    pub last_event: Option<String>,
    pub timeout_drop_count: u64,
    pub active_call_keys: Vec<String>,
    pub last_location: Option<LocationState>,
}

fn copy_text(o: &Option<String>) -> (r: Option<String>)
    ensures
        r == *o,
{
    match o {
        Some(s) => Some(s.clone()),
        None => None,
    }
}

fn copy_location(o: &Option<LocationState>) -> (r: Option<LocationState>)
    ensures
        r == *o,
{
    match o {
        Some(l) => Some(
            LocationState {
                latitude_bits: l.latitude_bits,
                longitude_bits: l.longitude_bits,
                source: l.source.clone(),
                updated_at: l.updated_at.clone(),
                raw_text: copy_text(&l.raw_text),
            },
        ),
        None => None,
    }
}

/// The listing row of a subscriber of a node: its groups rising and the
/// keys of the calls it takes part in.
pub fn subscriber_detail(node: &NodeState, subscriber: &SubscriberState) -> (r: SubscriberDetail)
    ensures
        r.node_id == node.node_id,
        r.station_name == node.station_name,
        r.issi == subscriber.issi,
        r.online == subscriber.online,
        ascending(r.groups@),
        r.groups@.to_set() == subscriber.groups@,
        r.rssi_dbfs_bits == subscriber.rssi_dbfs_bits,
        r.energy_saving_mode == subscriber.energy_saving_mode,
        r.emergency == subscriber.emergency,
        r.remote_source == subscriber.remote_source,
        r.last_seen == subscriber.last_seen,
        r.last_event == subscriber.last_event,
        r.timeout_drop_count == subscriber.timeout_drop_count,
        strictly_sorted(r.active_call_keys.deep_view()),
        r.active_call_keys.deep_view().to_set() == involved_call_keys(
            node.radio.group_calls@,
            node.radio.individual_calls@,
            subscriber.issi,
        ),
        r.last_location == subscriber.last_location,
{
    SubscriberDetail {
        node_id: node.node_id.clone(),
        station_name: copy_text(&node.station_name),
        issi: subscriber.issi,
        online: subscriber.online,
        groups: ascending_ids(&subscriber.groups),
        rssi_dbfs_bits: subscriber.rssi_dbfs_bits,
        energy_saving_mode: subscriber.energy_saving_mode,
        emergency: subscriber.emergency,
        remote_source: copy_text(&subscriber.remote_source),
        last_seen: copy_text(&subscriber.last_seen),
        last_event: copy_text(&subscriber.last_event),
        timeout_drop_count: subscriber.timeout_drop_count,
        active_call_keys: subscriber_active_call_keys(node, subscriber.issi),
        last_location: copy_location(&subscriber.last_location),
    }
}

/// Counting one more key, `x`, that was not counted before.
proof fn lemma_count_one_more(done: Set<u32>, x: u32, p: spec_fn(u32) -> bool)
    requires
        done.finite(),
        !done.contains(x),
    ensures
        done.insert(x).finite(),
        done.insert(x).filter(p).len() == done.filter(p).len() + if p(x) {
            1int
        } else {
            0int
        },
{
    assert(done.filter(p).finite());
    if p(x) {
        assert(done.insert(x).filter(p) =~= done.filter(p).insert(x));
    } else {
        assert(done.insert(x).filter(p) =~= done.filter(p));
    }
}

/// The first `i + 1` keys of `keys` as a set: the first `i` and `keys[i]`,
/// which is not among them.
proof fn lemma_take_one_more(keys: Seq<u32>, i: int)
    requires
        0 <= i < keys.len(),
        keys.no_duplicates(),
    ensures
        keys.take(i + 1).to_set() == keys.take(i).to_set().insert(keys[i]),
        !keys.take(i).to_set().contains(keys[i]),
{
    assert(keys.take(i + 1) =~= keys.take(i).push(keys[i]));
    assert(keys.take(i + 1).to_set() =~= keys.take(i).to_set().insert(keys[i])) by {
        assert forall|y: u32| keys.take(i + 1).to_set().contains(y) <==> keys.take(i).to_set().insert(keys[i]).contains(
            y,
        ) by {
            if keys.take(i + 1).to_set().contains(y) {
                let k = choose|k: int| 0 <= k < i + 1 && #[trigger] keys.take(i + 1)[k] == y;
                if k < i {
                    assert(keys.take(i)[k] == y);
                }
            }
            if keys.take(i).to_set().contains(y) {
                let k = choose|k: int| 0 <= k < i && keys.take(i)[k] == y;
                assert(keys.take(i + 1)[k] == y);
            }
            if y == keys[i] {
                assert(keys.take(i + 1)[i] == y);
            }
        }
    }
    if keys.take(i).to_set().contains(keys[i]) {
        let k = choose|k: int| 0 <= k < i && keys.take(i)[k] == keys[i];
        assert(keys[k] == keys[i]);
    }
}

/// How many subscribers of `m` are online.
pub fn count_online(m: &HashMap<u32, SubscriberState>) -> (r: usize)
    ensures
        r == m@.dom().filter(|k: u32| m@[k].online).len(),
{
    let keys = keys_of(m);
    let ghost p = |k: u32| m@[k].online;
    let mut n: usize = 0;
    let mut i: usize = 0;
    proof {
        assert(keys@.take(0).to_set() =~= Set::<u32>::empty());
        assert(Set::<u32>::empty().filter(p) =~= Set::<u32>::empty());
    }
    while i < keys.len()
        invariant
            i <= keys@.len(),
            keys@.to_set() == m@.dom(),
            keys@.no_duplicates(),
            p == (|k: u32| m@[k].online),
            keys@.take(i as int).to_set().finite(),
            n == keys@.take(i as int).to_set().filter(p).len(),
            n <= i,
        decreases keys@.len() - i,
    {
        let k = keys[i];
        proof {
            lemma_take_one_more(keys@, i as int);
            lemma_count_one_more(keys@.take(i as int).to_set(), k, p);
            assert(keys@.to_set().contains(k));
        }
        match m.get(&k) {
            Some(s) => {
                if s.online {
                    n = n + 1;
                }
            },
            None => {},
        }
        i = i + 1;
    }
    proof {
        assert(keys@.take(keys@.len() as int) =~= keys@);
    }
    n
}

/// How many emergencies of `m` are active.
pub fn count_active_emergencies(m: &HashMap<u32, EmergencyState>) -> (r: usize)
    ensures
        r == m@.dom().filter(|k: u32| m@[k].active).len(),
{
    let keys = keys_of(m);
    let ghost p = |k: u32| m@[k].active;
    let mut n: usize = 0;
    let mut i: usize = 0;
    proof {
        assert(keys@.take(0).to_set() =~= Set::<u32>::empty());
        assert(Set::<u32>::empty().filter(p) =~= Set::<u32>::empty());
    }
    while i < keys.len()
        invariant
            i <= keys@.len(),
            keys@.to_set() == m@.dom(),
            keys@.no_duplicates(),
            p == (|k: u32| m@[k].active),
            keys@.take(i as int).to_set().finite(),
            n == keys@.take(i as int).to_set().filter(p).len(),
            n <= i,
        decreases keys@.len() - i,
    {
        let k = keys[i];
        proof {
            lemma_take_one_more(keys@, i as int);
            lemma_count_one_more(keys@.take(i as int).to_set(), k, p);
            assert(keys@.to_set().contains(k));
        }
        match m.get(&k) {
            Some(e) => {
                if e.active {
                    n = n + 1;
                }
            },
            None => {},
        }
        i = i + 1;
    }
    proof {
        assert(keys@.take(keys@.len() as int) =~= keys@);
    }
    n
}

/// The summary of a node in the control room's overview.
#[derive(Debug)]
pub struct NodeOverview {
    pub node_id: String,
    pub station_name: Option<String>,
    pub site: Option<String>,
    pub connected: bool,
    pub transport_connected: bool,
    pub last_seen: Option<String>,
    pub stack_version: Option<String>,
    pub mcc: Option<u16>,
    pub mnc: Option<u16>,
    pub location_area: Option<u16>,
    pub main_carrier: Option<u16>,
    pub secondary_carrier: Option<u16>,
    pub colour_code: Option<u8>,
    pub system_code: Option<u8>,
    pub dual_carrier: bool,
    pub telemetry_count: u64,
    pub heartbeat_count: u64,
    pub command_ack_count: u64,
    pub control_response_count: u64,
    pub subscribers_total: usize,
    pub subscribers_online: usize,
    pub groups_total: usize,
    pub active_calls_total: usize,
    pub emergencies_active: usize,
    pub sds_log_count: usize,
    pub brew_connected: Option<bool>,
}

/// `a + b`, or the largest `usize` where the sum would not fit.
pub open spec fn sum_or_max(a: usize, b: usize) -> usize {
    if a + b > usize::MAX {
        usize::MAX
    } else {
        (a + b) as usize
    }
}

/// `r` is the overview of `node`: its identity and link as it stands, and
/// the counts of its radio picture.
pub open spec fn overview_of(node: NodeState, r: NodeOverview) -> bool {
    &&& r.node_id == node.node_id
    &&& r.station_name == node.station_name
    &&& r.site == node.site
    &&& r.connected == node.connected
    &&& r.transport_connected == node.transport_connected
    &&& r.last_seen == node.last_seen
    &&& r.stack_version == node.stack_version
    &&& r.mcc == node.mcc && r.mnc == node.mnc && r.location_area == node.location_area
    &&& r.main_carrier == node.main_carrier && r.secondary_carrier == node.secondary_carrier
    &&& r.colour_code == node.colour_code && r.system_code == node.system_code
    &&& r.dual_carrier == node.secondary_carrier is Some
    &&& r.telemetry_count == node.telemetry_count
    &&& r.heartbeat_count == node.heartbeat_count
    &&& r.command_ack_count == node.command_ack_count
    &&& r.control_response_count == node.control_response_count
    &&& r.subscribers_total == node.radio.subscribers@.len()
    &&& r.subscribers_online == node.radio.subscribers@.dom().filter(|k: u32| node.radio.subscribers@[k].online).len()
    &&& r.groups_total == node.radio.groups@.len()
    &&& r.active_calls_total == sum_or_max(
        node.radio.group_calls@.len() as usize,
        node.radio.individual_calls@.len() as usize,
    )
    &&& r.emergencies_active == node.radio.emergencies@.dom().filter(|k: u32| node.radio.emergencies@[k].active).len()
    &&& r.sds_log_count == node.radio.sds_log@.len()
    &&& r.brew_connected == match node.radio.brew {
        Some(b) => Some(b.connected),
        None => None::<bool>,
    }
}

/// The overview of a node: its identity and link as it stands, and the
/// counts of its radio picture.
pub fn node_overview(node: &NodeState) -> (r: NodeOverview)
    ensures
        overview_of(*node, r),
{
    let group_calls = node.radio.group_calls.len();
    let individual_calls = node.radio.individual_calls.len();
    NodeOverview {
        node_id: node.node_id.clone(),
        station_name: copy_text(&node.station_name),
        site: copy_text(&node.site),
        connected: node.connected,
        transport_connected: node.transport_connected,
        last_seen: copy_text(&node.last_seen),
        stack_version: copy_text(&node.stack_version),
        mcc: node.mcc,
        mnc: node.mnc,
        location_area: node.location_area,
        main_carrier: node.main_carrier,
        secondary_carrier: node.secondary_carrier,
        colour_code: node.colour_code,
        system_code: node.system_code,
        dual_carrier: node.secondary_carrier.is_some(),
        telemetry_count: node.telemetry_count,
        heartbeat_count: node.heartbeat_count,
        command_ack_count: node.command_ack_count,
        control_response_count: node.control_response_count,
        subscribers_total: node.radio.subscribers.len(),
        subscribers_online: count_online(&node.radio.subscribers),
        groups_total: node.radio.groups.len(),
        active_calls_total: group_calls.saturating_add(individual_calls),
        emergencies_active: count_active_emergencies(&node.radio.emergencies),
        sds_log_count: node.radio.sds_log.len(),
        brew_connected: match &node.radio.brew {
            Some(b) => Some(b.connected),
            None => None,
        },
    }
}

} // verus!
