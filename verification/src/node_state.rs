//! The radio picture that the control room keeps of one node: subscribers,
//! talk groups, calls, emergencies, the SDS log, the Brew link, time slot
//! activity and the latest health reports, and how each telemetry event of
//! the node changes it.
use vstd::prelude::*;
use std::collections::{HashMap, HashSet};
use crate::room_state::{BrewState, CallState, EmergencyState, GroupState, SdsLogEntry};
use crate::text::{dec_seq, lit, push_dec, push_str};
use crate::text_map::TextMap;

verus! {

broadcast use vstd::std_specs::hash::group_hash_axioms;

/// A position fix of a subscriber. The coordinates are the bit patterns of
/// the `f64` degrees (`f64::to_bits`), which the library carries unread.
#[derive(Debug)]
pub struct LocationState {
    pub latitude_bits: u64,
    pub longitude_bits: u64,
    pub source: String,
    pub updated_at: String,
    pub raw_text: Option<String>,
}

/// What the control room knows of one subscriber. The signal strength is the
/// bit pattern of the `f32` dBFS value (`f32::to_bits`).
#[derive(Debug)]
pub struct SubscriberState {
    pub issi: u32,
    pub online: bool,
    pub groups: HashSet<u32>,
    pub rssi_dbfs_bits: Option<u32>,
    pub energy_saving_mode: Option<u8>,
    pub emergency: bool,
    pub remote_source: Option<String>,
    pub last_seen: Option<String>,
    pub last_event: Option<String>,
    pub timeout_drop_count: u64,
    pub last_location: Option<LocationState>,
}

/// A position fix as a mathematical value.
pub struct LocationView {
    pub latitude_bits: u64,
    pub longitude_bits: u64,
    pub source: Seq<char>,
    pub updated_at: Seq<char>,
    pub raw_text: Option<Seq<char>>,
}

/// A subscriber as a mathematical value.
pub struct SubscriberView {
    pub issi: u32,
    pub online: bool,
    pub groups: Set<u32>,
    pub rssi_dbfs_bits: Option<u32>,
    pub energy_saving_mode: Option<u8>,
    pub emergency: bool,
    pub remote_source: Option<Seq<char>>,
    pub last_seen: Option<Seq<char>>,
    pub last_event: Option<Seq<char>>,
    pub timeout_drop_count: u64,
    pub last_location: Option<LocationView>,
}

/// A talk group as a mathematical value.
pub struct GroupView {
    pub gssi: u32,
    pub members: Set<u32>,
    pub active_call_id: Option<u16>,
}

/// The view of an optional text.
pub open spec fn text_view(o: Option<String>) -> Option<Seq<char>> {
    match o {
        Some(s) => Some(s@),
        None => None,
    }
}

impl View for LocationState {
    type V = LocationView;

    open spec fn view(&self) -> LocationView {
        LocationView {
            latitude_bits: self.latitude_bits,
            longitude_bits: self.longitude_bits,
            source: self.source@,
            updated_at: self.updated_at@,
            raw_text: text_view(self.raw_text),
        }
    }
}

impl View for SubscriberState {
    type V = SubscriberView;

    open spec fn view(&self) -> SubscriberView {
        SubscriberView {
            issi: self.issi,
            online: self.online,
            groups: self.groups@,
            rssi_dbfs_bits: self.rssi_dbfs_bits,
            energy_saving_mode: self.energy_saving_mode,
            emergency: self.emergency,
            remote_source: text_view(self.remote_source),
            last_seen: text_view(self.last_seen),
            last_event: text_view(self.last_event),
            timeout_drop_count: self.timeout_drop_count,
            last_location: match self.last_location {
                Some(l) => Some(l@),
                None => None,
            },
        }
    }
}

impl View for GroupState {
    type V = GroupView;

    open spec fn view(&self) -> GroupView {
        GroupView { gssi: self.gssi, members: self.members@, active_call_id: self.active_call_id }
    }
}

/// A subscriber seen for the first time: offline, in no group, nothing known.
pub open spec fn fresh_subscriber(issi: u32) -> SubscriberView {
    SubscriberView {
        issi,
        online: false,
        groups: Set::empty(),
        rssi_dbfs_bits: None,
        energy_saving_mode: None,
        emergency: false,
        remote_source: None,
        last_seen: None,
        last_event: None,
        timeout_drop_count: 0,
        last_location: None,
    }
}

/// A talk group seen for the first time: no members, no call.
pub open spec fn fresh_group(gssi: u32) -> GroupView {
    GroupView { gssi, members: Set::empty(), active_call_id: None }
}

/// The subscriber `issi` of `m`, or a fresh one when `m` has none.
pub open spec fn subscriber_or_fresh(m: Map<u32, SubscriberView>, issi: u32) -> SubscriberView {
    if m.contains_key(issi) {
        m[issi]
    } else {
        fresh_subscriber(issi)
    }
}

/// The group `gssi` of `m`, or a fresh one when `m` has none.
pub open spec fn group_or_fresh(m: Map<u32, GroupView>, gssi: u32) -> GroupView {
    if m.contains_key(gssi) {
        m[gssi]
    } else {
        fresh_group(gssi)
    }
}

/// Every group of `m` with `issi` taken out of its members.
pub open spec fn without_member(m: Map<u32, GroupView>, issi: u32) -> Map<u32, GroupView> {
    Map::new(
        |k: u32| m.contains_key(k),
        |k: u32| GroupView { members: m[k].members.remove(issi), ..m[k] },
    )
}

/// `m` with `issi` added to the members of each group in `gssis`; a group
/// that `m` lacks is created first.
pub open spec fn with_member_in(m: Map<u32, GroupView>, gssis: Set<u32>, issi: u32) -> Map<u32, GroupView> {
    Map::new(
        |k: u32| m.contains_key(k) || gssis.contains(k),
        |k: u32|
            if gssis.contains(k) {
                GroupView { members: group_or_fresh(m, k).members.insert(issi), ..group_or_fresh(m, k) }
            } else {
                m[k]
            },
    )
}

/// `m` with `issi` taken out of the members of those groups in `gssis` that
/// `m` holds; no group is created.
pub open spec fn without_member_in(m: Map<u32, GroupView>, gssis: Set<u32>, issi: u32) -> Map<u32, GroupView> {
    Map::new(
        |k: u32| m.contains_key(k),
        |k: u32|
            if gssis.contains(k) {
                GroupView { members: m[k].members.remove(issi), ..m[k] }
            } else {
                m[k]
            },
    )
}

/// Every group of `m` that advertises call `call_id` with that call cleared.
pub open spec fn without_call(m: Map<u32, GroupView>, call_id: u16) -> Map<u32, GroupView> {
    Map::new(
        |k: u32| m.contains_key(k),
        |k: u32|
            if m[k].active_call_id == Some(call_id) {
                GroupView { active_call_id: None, ..m[k] }
            } else {
                m[k]
            },
    )
}

/// The keys of a map keyed by `u32`, each once.
pub(crate) fn keys_of<V>(m: &HashMap<u32, V>) -> (r: Vec<u32>)
    ensures
        r@.to_set() == m@.dom(),
        r@.no_duplicates(),
{
    let mut out: Vec<u32> = Vec::new();
    for k in it: m.keys()
        invariant
            out@ == it.seq().take(it.index() as int).unref(),
            it.seq().unref().to_set() == m@.dom(),
            it.seq().unref().no_duplicates(),
            it.seq().take(it.seq().len() as int) == it.seq(),
    {
        out.push(*k);
        proof {
            assert(it.seq().take(it.index() as int + 1).unref() =~= out@);
        }
    }
    out
}

/// The talk groups of a node as a mathematical map.
pub open spec fn groups_view(m: Map<u32, GroupState>) -> Map<u32, GroupView> {
    Map::new(|k: u32| m.contains_key(k), |k: u32| m[k]@)
}

/// The subscribers of a node as a mathematical map.
pub open spec fn subscribers_view(m: Map<u32, SubscriberState>) -> Map<u32, SubscriberView> {
    Map::new(|k: u32| m.contains_key(k), |k: u32| m[k]@)
}

/// Takes `issi` out of the members of every group.
fn remove_member_everywhere(groups: &mut HashMap<u32, GroupState>, issi: u32)
    ensures
        groups_view(final(groups)@) == without_member(groups_view(old(groups)@), issi),
{
    let keys = keys_of(groups);
    let ghost old_view = groups_view(groups@);
    let mut i: usize = 0;
    while i < keys.len()
        invariant
            i <= keys@.len(),
            keys@.to_set() == old_view.dom(),
            keys@.no_duplicates(),
            old_view == groups_view(old(groups)@),
            groups@.dom() == old_view.dom(),
            forall|k: u32|
                #![trigger groups@[k]]
                groups@.contains_key(k) ==> (if keys@.take(i as int).contains(k) {
                    groups@[k]@ == without_member(old_view, issi)[k]
                } else {
                    groups@[k]@ == old_view[k]
                }),
        decreases keys@.len() - i,
    {
        let k = keys[i];
        assert(keys@.to_set().contains(k));
        let ghost before = groups@;
        proof {
            assert(before.contains_key(k));
            assert(!keys@.take(i as int).contains(k)) by {
                if keys@.take(i as int).contains(k) {
                    let a = choose|a: int| 0 <= a < i && keys@[a] == k;
                    assert(keys@[a] == keys@[i as int]);
                }
            }
            assert(before[k]@ == old_view[k]);
            assert forall|j: u32| before.contains_key(j) && !keys@.take(i as int).contains(j) implies before[j]@
                == old_view[j] by {
                assert(groups@[j] == before[j]);
            }
        }
        if let Some(mut g) = groups.remove(&k) {
            let ghost g0 = g;
            g.members.remove(&issi);
            assert(g@ == GroupView { members: g0@.members.remove(issi), ..g0@ });
            groups.insert(k, g);
        }
        proof {
            assert(keys@.take(i + 1) =~= keys@.take(i as int).push(k));
            assert(keys@.take(i + 1)[i as int] == k);
            assert(keys@.take(i + 1).contains(k));
            assert forall|j: u32| #![trigger groups@[j]] groups@.contains_key(j) implies (if keys@.take(
                i + 1,
            ).contains(j) {
                groups@[j]@ == without_member(old_view, issi)[j]
            } else {
                groups@[j]@ == old_view[j]
            }) by {
                if j != k {
                    assert(groups@[j] == before[j]);
                    assert(keys@.take(i + 1).contains(j) == keys@.take(i as int).contains(j));
                } else {
                    assert(!keys@.take(i as int).contains(k)) by {
                        if keys@.take(i as int).contains(k) {
                            let a = choose|a: int| 0 <= a < i && keys@[a] == k;
                            assert(keys@[a] == keys@[i as int]);
                        }
                    }
                }
            }
            assert(groups@.dom() =~= old_view.dom());
        }
        i = i + 1;
    }
    proof {
        assert(keys@.take(keys@.len() as int) =~= keys@);
        assert forall|k: u32| groups@.contains_key(k) implies keys@.contains(k) by {
            assert(keys@.to_set().contains(k));
        }
        assert(groups_view(groups@) =~= without_member(old_view, issi));
    }
}


/// Clears call `call_id` from every group that advertises it.
fn clear_call_everywhere(groups: &mut HashMap<u32, GroupState>, call_id: u16)
    ensures
        groups_view(final(groups)@) == without_call(groups_view(old(groups)@), call_id),
{
    let keys = keys_of(groups);
    let ghost old_view = groups_view(groups@);
    let mut i: usize = 0;
    while i < keys.len()
        invariant
            i <= keys@.len(),
            keys@.to_set() == old_view.dom(),
            keys@.no_duplicates(),
            old_view == groups_view(old(groups)@),
            groups@.dom() == old_view.dom(),
            forall|k: u32|
                #![trigger groups@[k]]
                groups@.contains_key(k) ==> (if keys@.take(i as int).contains(k) {
                    groups@[k]@ == without_call(old_view, call_id)[k]
                } else {
                    groups@[k]@ == old_view[k]
                }),
        decreases keys@.len() - i,
    {
        let k = keys[i];
        assert(keys@.to_set().contains(k));
        let ghost before = groups@;
        proof {
            assert(before.contains_key(k));
            assert(!keys@.take(i as int).contains(k)) by {
                if keys@.take(i as int).contains(k) {
                    let a = choose|a: int| 0 <= a < i && keys@[a] == k;
                    assert(keys@[a] == keys@[i as int]);
                }
            }
            assert(before[k]@ == old_view[k]);
            assert forall|j: u32| before.contains_key(j) && !keys@.take(i as int).contains(j) implies before[j]@
                == old_view[j] by {
                assert(groups@[j] == before[j]);
            }
        }
        if let Some(mut g) = groups.remove(&k) {
            if g.active_call_id == Some(call_id) {
                g.active_call_id = None;
            }
            groups.insert(k, g);
        }
        proof {
            assert(keys@.take(i + 1) =~= keys@.take(i as int).push(k));
            assert(keys@.take(i + 1)[i as int] == k);
            assert(keys@.take(i + 1).contains(k));
            assert forall|j: u32| #![trigger groups@[j]] groups@.contains_key(j) implies (if keys@.take(
                i + 1,
            ).contains(j) {
                groups@[j]@ == without_call(old_view, call_id)[j]
            } else {
                groups@[j]@ == old_view[j]
            }) by {
                if j != k {
                    assert(groups@[j] == before[j]);
                    assert(keys@.take(i + 1).contains(j) == keys@.take(i as int).contains(j));
                }
            }
            assert(groups@.dom() =~= old_view.dom());
        }
        i = i + 1;
    }
    proof {
        assert(keys@.take(keys@.len() as int) =~= keys@);
        assert forall|k: u32| groups@.contains_key(k) implies keys@.contains(k) by {
            assert(keys@.to_set().contains(k));
        }
        assert(groups_view(groups@) =~= without_call(old_view, call_id));
    }
}

/// Adds `issi` to the members of each group in `gssis`, creating the groups
/// that are missing.
fn add_member_in(groups: &mut HashMap<u32, GroupState>, gssis: &Vec<u32>, issi: u32)
    ensures
        groups_view(final(groups)@) == with_member_in(groups_view(old(groups)@), gssis@.to_set(), issi),
{
    let ghost g0 = groups_view(groups@);
    let mut i: usize = 0;
    while i < gssis.len()
        invariant
            i <= gssis@.len(),
            g0 == groups_view(old(groups)@),
            groups_view(groups@) == with_member_in(g0, gssis@.take(i as int).to_set(), issi),
        decreases gssis@.len() - i,
    {
        let k = gssis[i];
        let ghost before = groups_view(groups@);
        let mut g = match groups.remove(&k) {
            Some(g) => g,
            None => GroupState::new(k),
        };
        assert(g@ == group_or_fresh(before, k));
        g.members.insert(issi);
        let ghost gg = g;
        let ghost m1 = groups@;
        groups.insert(k, g);
        proof {
            assert(groups@ == m1.insert(k, gg));
            assert(groups_view(groups@) =~= before.insert(k, gg@));
            let s0 = gssis@.take(i as int).to_set();
            let s1 = gssis@.take(i + 1).to_set();
            assert(gssis@.take(i + 1) =~= gssis@.take(i as int).push(k));
            gssis@.take(i as int).lemma_push_to_set_commute(k);
            assert(s1 =~= s0.insert(k));
            let target = with_member_in(g0, s1, issi);
            assert forall|j: u32| #[trigger] target.contains_key(j) implies groups_view(groups@).contains_key(j)
                && groups_view(groups@)[j] == target[j] by {
                if j == k {
                    assert(groups_view(groups@)[j].members =~= target[j].members);
                }
            }
            assert(groups_view(groups@) =~= target);
        }
        i = i + 1;
    }
    assert(gssis@.take(gssis@.len() as int) =~= gssis@);
}

/// Takes `issi` out of the members of those groups in `gssis` that exist.
fn remove_member_in(groups: &mut HashMap<u32, GroupState>, gssis: &Vec<u32>, issi: u32)
    ensures
        groups_view(final(groups)@) == without_member_in(groups_view(old(groups)@), gssis@.to_set(), issi),
{
    let ghost g0 = groups_view(groups@);
    let mut i: usize = 0;
    while i < gssis.len()
        invariant
            i <= gssis@.len(),
            g0 == groups_view(old(groups)@),
            groups_view(groups@) == without_member_in(g0, gssis@.take(i as int).to_set(), issi),
        decreases gssis@.len() - i,
    {
        let k = gssis[i];
        let ghost before = groups_view(groups@);
        if let Some(mut g) = groups.remove(&k) {
            assert(g@ == before[k]);
            g.members.remove(&issi);
            let ghost gg = g;
            let ghost m1 = groups@;
            groups.insert(k, g);
            assert(groups@ == m1.insert(k, gg));
            assert(groups_view(groups@) =~= before.insert(k, gg@));
        } else {
            assert(groups_view(groups@) =~= before);
        }
        proof {
            let s0 = gssis@.take(i as int).to_set();
            let s1 = gssis@.take(i + 1).to_set();
            assert(gssis@.take(i + 1) =~= gssis@.take(i as int).push(k));
            gssis@.take(i as int).lemma_push_to_set_commute(k);
            assert(s1 =~= s0.insert(k));
            let target = without_member_in(g0, s1, issi);
            assert forall|j: u32| #[trigger] target.contains_key(j) implies groups_view(groups@).contains_key(j)
                && groups_view(groups@)[j] == target[j] by {
                if j == k {
                    assert(groups_view(groups@)[j].members =~= target[j].members);
                }
            }
            assert(groups_view(groups@).dom() =~= target.dom());
            assert(groups_view(groups@) =~= target);
        }
        i = i + 1;
    }
    assert(gssis@.take(gssis@.len() as int) =~= gssis@);
}


/// Takes subscriber `issi` out of the map, or makes a fresh one.
fn take_subscriber(subs: &mut HashMap<u32, SubscriberState>, issi: u32) -> (s: SubscriberState)
    ensures
        s@ == subscriber_or_fresh(subscribers_view(old(subs)@), issi),
        subscribers_view(final(subs)@) == subscribers_view(old(subs)@).remove(issi),
{
    let ghost before = subscribers_view(subs@);
    let r = match subs.remove(&issi) {
        Some(s) => s,
        None => SubscriberState {
            issi,
            online: false,
            groups: HashSet::new(),
            rssi_dbfs_bits: None,
            energy_saving_mode: None,
            emergency: false,
            remote_source: None,
            last_seen: None,
            last_event: None,
            timeout_drop_count: 0,
            last_location: None,
        },
    };
    assert(subscribers_view(subs@) =~= before.remove(issi));
    r
}

/// Puts subscriber `s` back under `issi`.
fn put_subscriber(subs: &mut HashMap<u32, SubscriberState>, issi: u32, s: SubscriberState)
    ensures
        subscribers_view(final(subs)@) == subscribers_view(old(subs)@).insert(issi, s@),
{
    let ghost before = subscribers_view(subs@);
    let ghost ss = s;
    subs.insert(issi, s);
    assert(subscribers_view(subs@) =~= before.insert(issi, ss@));
}

/// Records that subscriber `issi` was seen at `at`.
fn mark_seen(subs: &mut HashMap<u32, SubscriberState>, issi: u32, at: &String)
    ensures
        subscribers_view(final(subs)@) == seen(subscribers_view(old(subs)@), issi, at@),
{
    let mut s = take_subscriber(subs, issi);
    s.last_seen = Some(at.clone());
    put_subscriber(subs, issi, s);
    assert(subscribers_view(subs@) =~= seen(subscribers_view(old(subs)@), issi, at@));
}

/// `m` with subscriber `issi` (made fresh if missing) seen at `at`.
pub open spec fn seen(m: Map<u32, SubscriberView>, issi: u32, at: Seq<char>) -> Map<u32, SubscriberView> {
    m.insert(issi, SubscriberView { last_seen: Some(at), ..subscriber_or_fresh(m, issi) })
}

/// The newest `n` entries of `s`.
pub open spec fn keep_last<T>(s: Seq<T>, n: nat) -> Seq<T> {
    if s.len() > n {
        s.skip(s.len() - n)
    } else {
        s
    }
}

/// The most SDS entries a node keeps.
pub const SDS_LOG_LIMIT: usize = 200;

/// The most error messages a node keeps.
pub const ERROR_LOG_LIMIT: usize = 50;

pub(crate) fn keep_last_in<T>(v: &mut Vec<T>, n: usize)
    ensures
        final(v)@ == keep_last(old(v)@, n as nat),
{
    if v.len() > n {
        let cut = v.len() - n;
        let tail = v.split_off(cut);
        *v = tail;
    }
}

/// A telemetry event of a node, with the values that the control room reads.
/// RF and health reports are JSON documents, carried unread; a signal strength
/// is the bit pattern of its `f32` dBFS value, and the position found in the
/// text of an SDS the bit patterns of its `f64` latitude and longitude.
#[derive(Debug)]
pub enum TelemetryEvent {
    MsRegistration { issi: u32 },
    MsDeregistration { issi: u32 },
    MsTimeoutDrop { issi: u32 },
    MsGroupAttach { issi: u32, gssis: Vec<u32> },
    MsGroupsSnapshot { issi: u32, gssis: Vec<u32> },
    MsGroupDetach { issi: u32, gssis: Vec<u32> },
    MsRssi { issi: u32, rssi_dbfs_bits: u32 },
    MsEnergySaving { issi: u32, mode: u8 },
    GroupCallStarted {
        call_id: u16,
        gssi: u32,
        caller_issi: u32,
        ts: u8,
        carrier_num: u16,
        priority: u8,
        source: String,
    },
    GroupCallSpeakerChanged { call_id: u16, gssi: u32, speaker_issi: u32, source: String },
    GroupCallEnded { call_id: u16, gssi: u32 },
    IndividualCallStarted {
        call_id: u16,
        calling_issi: u32,
        called_issi: u32,
        simplex: bool,
        ts: u8,
        carrier_num: u16,
        priority: u8,
        source: String,
    },
    IndividualCallEnded { call_id: u16 },
    SdsActivity { source_issi: u32, dest_issi: u32, source: String },
    SdsLog {
        direction: String,
        source_issi: u32,
        dest_issi: u32,
        is_group: bool,
        protocol_id: u8,
        text: String,
        position: Option<(u64, u64)>,
    },
    SdsEdgeIngress { source_issi: u32, dest_issi: u32, is_group: bool, ingress: String },
    TsVoiceActivity { carrier_num: u16, ts: u8 },
    TxQuality { report: serde_json::Value },
    TxVisual { report: serde_json::Value },
    SdrHealth { report: serde_json::Value },
    SysHealth { report: serde_json::Value },
    HealthSnapshot { report: serde_json::Value },
    PacketDataSnapshot { report: serde_json::Value },
    BrewConnected { connected: bool, server_version: u8 },
    EmergencyAlarm { source_issi: u32, dest_ssi: u32 },
    EmergencyCancel { source_issi: u32 },
    BrewSubscriberRegistered { issi: u32, source: String },
    BrewSubscriberDeregistered { issi: u32, source: String },
    DapnetLog,
    MeshcomMessageLog,
    MeshcomNodeUpdate,
}

/// The radio picture of a node. Calls are kept by kind and call id; the key
/// under which a listing shows them is `group:<id>` or `individual:<id>`.
/// The node knows one Brew link.
pub struct RadioState {
    pub subscribers: HashMap<u32, SubscriberState>,
    pub groups: HashMap<u32, GroupState>,
    pub group_calls: HashMap<u16, CallState>,
    pub individual_calls: HashMap<u16, CallState>,
    pub emergencies: HashMap<u32, EmergencyState>,
    pub sds_log: Vec<SdsLogEntry>,
    pub brew: Option<BrewState>,
    pub timeslot_activity: TextMap,
    pub rf_quality: Option<serde_json::Value>,
    pub sdr_health: Option<serde_json::Value>,
    pub sys_health: Option<serde_json::Value>,
    pub health: Option<serde_json::Value>,
    pub packet_data: Option<serde_json::Value>,
}

/// The radio picture of a node as a mathematical value.
pub struct RadioView {
    pub subscribers: Map<u32, SubscriberView>,
    pub groups: Map<u32, GroupView>,
    pub group_calls: Map<u16, CallState>,
    pub individual_calls: Map<u16, CallState>,
    pub emergencies: Map<u32, EmergencyState>,
    pub sds_log: Seq<SdsLogEntry>,
    pub brew: Option<BrewState>,
    pub timeslot_activity: Map<Seq<char>, Seq<char>>,
    pub rf_quality: Option<serde_json::Value>,
    pub sdr_health: Option<serde_json::Value>,
    pub sys_health: Option<serde_json::Value>,
    pub health: Option<serde_json::Value>,
    pub packet_data: Option<serde_json::Value>,
}

impl View for RadioState {
    type V = RadioView;

    open spec fn view(&self) -> RadioView {
        RadioView {
            subscribers: subscribers_view(self.subscribers@),
            groups: groups_view(self.groups@),
            group_calls: self.group_calls@,
            individual_calls: self.individual_calls@,
            emergencies: self.emergencies@,
            sds_log: self.sds_log@,
            brew: self.brew,
            timeslot_activity: self.timeslot_activity.view(),
            rf_quality: self.rf_quality,
            sdr_health: self.sdr_health,
            sys_health: self.sys_health,
            health: self.health,
            packet_data: self.packet_data,
        }
    }
}

/// The time slot activity key of an SDS between two subscribers.
pub open spec fn sds_activity_key(prefix: Seq<char>, source_issi: u32, dest_issi: u32) -> Seq<char> {
    prefix + dec_seq(source_issi as nat) + "->"@ + dec_seq(dest_issi as nat)
}

/// The time slot activity key of voice on a carrier's time slot.
pub open spec fn voice_activity_key(carrier_num: u16, ts: u8) -> Seq<char> {
    "c"@ + dec_seq(carrier_num as nat) + ":ts"@ + dec_seq(ts as nat)
}


/// A counter that wraps to 0 after its largest value.
pub open spec fn wrapping_inc(n: u64) -> u64 {
    if n == u64::MAX {
        0
    } else {
        (n + 1) as u64
    }
}

/// `m` with subscriber `issi` (made fresh if missing) given a new online
/// state, last sighting and last event.
pub open spec fn presence(m: Map<u32, SubscriberView>, issi: u32, online: bool, at: Seq<char>, what: Seq<char>) -> Map<
    u32,
    SubscriberView,
> {
    m.insert(
        issi,
        SubscriberView { online, last_seen: Some(at), last_event: Some(what), ..subscriber_or_fresh(m, issi) },
    )
}

/// The radio picture after telemetry event `e` arrived at time `at`.
pub open spec fn event_effect(r: RadioView, at: String, e: TelemetryEvent) -> RadioView {
    let t = at@;
    match e {
        TelemetryEvent::MsRegistration { issi } => RadioView {
            subscribers: presence(r.subscribers, issi, true, t, "registration"@),
            ..r
        },
        TelemetryEvent::MsDeregistration { issi } => RadioView {
            subscribers: presence(r.subscribers, issi, false, t, "deregistration"@),
            groups: without_member(r.groups, issi),
            ..r
        },
        TelemetryEvent::MsTimeoutDrop { issi } => {
            let s = subscriber_or_fresh(r.subscribers, issi);
            RadioView {
                subscribers: r.subscribers.insert(
                    issi,
                    SubscriberView {
                        online: false,
                        timeout_drop_count: wrapping_inc(s.timeout_drop_count),
                        last_seen: Some(t),
                        last_event: Some("timeout_drop"@),
                        ..s
                    },
                ),
                groups: without_member(r.groups, issi),
                ..r
            }
        },
        TelemetryEvent::MsGroupAttach { issi, gssis } => {
            let s = subscriber_or_fresh(r.subscribers, issi);
            RadioView {
                subscribers: r.subscribers.insert(
                    issi,
                    SubscriberView {
                        online: true,
                        groups: s.groups + gssis@.to_set(),
                        last_seen: Some(t),
                        last_event: Some("group_attach"@),
                        ..s
                    },
                ),
                groups: with_member_in(r.groups, gssis@.to_set(), issi),
                ..r
            }
        },
        TelemetryEvent::MsGroupsSnapshot { issi, gssis } => {
            let s = subscriber_or_fresh(r.subscribers, issi);
            RadioView {
                subscribers: r.subscribers.insert(
                    issi,
                    SubscriberView {
                        online: true,
                        groups: gssis@.to_set(),
                        last_seen: Some(t),
                        last_event: Some("groups_snapshot"@),
                        ..s
                    },
                ),
                groups: with_member_in(without_member(r.groups, issi), gssis@.to_set(), issi),
                ..r
            }
        },
        TelemetryEvent::MsGroupDetach { issi, gssis } => {
            let s = subscriber_or_fresh(r.subscribers, issi);
            RadioView {
                subscribers: r.subscribers.insert(
                    issi,
                    SubscriberView {
                        groups: s.groups - gssis@.to_set(),
                        last_seen: Some(t),
                        last_event: Some("group_detach"@),
                        ..s
                    },
                ),
                groups: without_member_in(r.groups, gssis@.to_set(), issi),
                ..r
            }
        },
        TelemetryEvent::MsRssi { issi, rssi_dbfs_bits } => RadioView {
            subscribers: r.subscribers.insert(
                issi,
                SubscriberView {
                    rssi_dbfs_bits: Some(rssi_dbfs_bits),
                    last_seen: Some(t),
                    last_event: Some("rssi"@),
                    ..subscriber_or_fresh(r.subscribers, issi)
                },
            ),
            ..r
        },
        TelemetryEvent::MsEnergySaving { issi, mode } => RadioView {
            subscribers: r.subscribers.insert(
                issi,
                SubscriberView {
                    energy_saving_mode: Some(mode),
                    last_seen: Some(t),
                    last_event: Some("energy_saving"@),
                    ..subscriber_or_fresh(r.subscribers, issi)
                },
            ),
            ..r
        },
        TelemetryEvent::GroupCallStarted { call_id, gssi, caller_issi, ts, carrier_num, priority, source } => RadioView {
            groups: r.groups.insert(gssi, GroupView { active_call_id: Some(call_id), ..group_or_fresh(r.groups, gssi) }),
            subscribers: seen(r.subscribers, caller_issi, t),
            group_calls: r.group_calls.insert(
                call_id,
                CallState::Group {
                    call_id,
                    gssi,
                    caller_issi,
                    speaker_issi: Some(caller_issi),
                    carrier_num,
                    ts,
                    priority,
                    source,
                    started_at: at,
                    last_activity: at,
                },
            ),
            ..r
        },
        TelemetryEvent::GroupCallSpeakerChanged { call_id, gssi, speaker_issi, source } => RadioView {
            subscribers: seen(r.subscribers, speaker_issi, t),
            groups: r.groups.insert(gssi, GroupView { active_call_id: Some(call_id), ..group_or_fresh(r.groups, gssi) }),
            group_calls: r.group_calls.insert(call_id, speaker_changed(r.group_calls, call_id, gssi, speaker_issi, source, at)),
            ..r
        },
        TelemetryEvent::GroupCallEnded { call_id, .. } => RadioView {
            group_calls: r.group_calls.remove(call_id),
            groups: without_call(r.groups, call_id),
            ..r
        },
        TelemetryEvent::IndividualCallStarted {
            call_id,
            calling_issi,
            called_issi,
            simplex,
            ts,
            carrier_num,
            priority,
            source,
        } => RadioView {
            subscribers: seen(seen(r.subscribers, calling_issi, t), called_issi, t),
            individual_calls: r.individual_calls.insert(
                call_id,
                CallState::Individual {
                    call_id,
                    calling_issi,
                    called_issi,
                    simplex,
                    carrier_num,
                    ts,
                    priority,
                    source,
                    started_at: at,
                    last_activity: at,
                },
            ),
            ..r
        },
        TelemetryEvent::IndividualCallEnded { call_id } => RadioView {
            individual_calls: r.individual_calls.remove(call_id),
            ..r
        },
        TelemetryEvent::SdsActivity { source_issi, dest_issi, source } => RadioView {
            subscribers: seen(seen(r.subscribers, source_issi, t), dest_issi, t),
            timeslot_activity: r.timeslot_activity.insert(
                sds_activity_key("sds:"@, source_issi, dest_issi),
                t + " via "@ + source@,
            ),
            ..r
        },
        TelemetryEvent::SdsLog { direction, source_issi, dest_issi, is_group, protocol_id, text, position } => {
            let entry = SdsLogEntry {
                timestamp: at,
                direction,
                source_issi,
                dest_issi,
                is_group,
                protocol_id,
                text,
            };
            RadioView {
                subscribers: match position {
                    Some((la, lo)) => r.subscribers.insert(
                        source_issi,
                        SubscriberView {
                            online: true,
                            last_seen: Some(t),
                            last_event: Some("lip_position"@),
                            last_location: Some(
                                LocationView {
                                    latitude_bits: la,
                                    longitude_bits: lo,
                                    source: "sds_lip"@,
                                    updated_at: t,
                                    raw_text: Some(text@),
                                },
                            ),
                            ..subscriber_or_fresh(r.subscribers, source_issi)
                        },
                    ),
                    None => r.subscribers,
                },
                sds_log: keep_last(r.sds_log.push(entry), SDS_LOG_LIMIT as nat),
                ..r
            }
        },
        TelemetryEvent::SdsEdgeIngress { source_issi, dest_issi, is_group, ingress } => RadioView {
            subscribers: if is_group {
                seen(r.subscribers, source_issi, t)
            } else {
                seen(seen(r.subscribers, source_issi, t), dest_issi, t)
            },
            timeslot_activity: r.timeslot_activity.insert(
                sds_activity_key("sds-edge:"@, source_issi, dest_issi),
                t + " via "@ + ingress@,
            ),
            ..r
        },
        TelemetryEvent::TsVoiceActivity { carrier_num, ts } => RadioView {
            timeslot_activity: r.timeslot_activity.insert(voice_activity_key(carrier_num, ts), t),
            ..r
        },
        TelemetryEvent::TxQuality { report } => RadioView { rf_quality: Some(report), ..r },
        TelemetryEvent::TxVisual { report } => RadioView { rf_quality: Some(report), ..r },
        TelemetryEvent::SdrHealth { report } => RadioView { sdr_health: Some(report), ..r },
        TelemetryEvent::SysHealth { report } => RadioView { sys_health: Some(report), ..r },
        TelemetryEvent::HealthSnapshot { report } => RadioView { health: Some(report), ..r },
        TelemetryEvent::PacketDataSnapshot { report } => RadioView { packet_data: Some(report), ..r },
        TelemetryEvent::BrewConnected { connected, server_version } => RadioView {
            brew: Some(BrewState { connected, server_version, last_seen: at }),
            ..r
        },
        TelemetryEvent::EmergencyAlarm { source_issi, dest_ssi } => RadioView {
            emergencies: r.emergencies.insert(
                source_issi,
                EmergencyState { source_issi, dest_ssi, active: true, raised_at: at, cleared_at: None },
            ),
            subscribers: r.subscribers.insert(
                source_issi,
                SubscriberView { emergency: true, last_seen: Some(t), ..subscriber_or_fresh(r.subscribers, source_issi) },
            ),
            ..r
        },
        TelemetryEvent::EmergencyCancel { source_issi } => RadioView {
            emergencies: if r.emergencies.contains_key(source_issi) {
                r.emergencies.insert(
                    source_issi,
                    EmergencyState { active: false, cleared_at: Some(at), ..r.emergencies[source_issi] },
                )
            } else {
                r.emergencies
            },
            subscribers: r.subscribers.insert(
                source_issi,
                SubscriberView { emergency: false, last_seen: Some(t), ..subscriber_or_fresh(r.subscribers, source_issi) },
            ),
            ..r
        },
        TelemetryEvent::BrewSubscriberRegistered { issi, source } => RadioView {
            subscribers: r.subscribers.insert(
                issi,
                SubscriberView {
                    online: true,
                    remote_source: Some(source@),
                    last_seen: Some(t),
                    last_event: Some("brew_registered"@),
                    ..subscriber_or_fresh(r.subscribers, issi)
                },
            ),
            ..r
        },
        TelemetryEvent::BrewSubscriberDeregistered { issi, source } => RadioView {
            subscribers: r.subscribers.insert(
                issi,
                SubscriberView {
                    online: false,
                    remote_source: Some(source@),
                    last_seen: Some(t),
                    last_event: Some("brew_deregistered"@),
                    ..subscriber_or_fresh(r.subscribers, issi)
                },
            ),
            ..r
        },
        TelemetryEvent::DapnetLog => r,
        TelemetryEvent::MeshcomMessageLog => r,
        TelemetryEvent::MeshcomNodeUpdate => r,
    }
}

/// The group call `call_id` after a change of speaker: the call it was with
/// the new speaker, source and activity time, or a call of unknown carrier
/// and slot that the speaker started when none was known.
pub open spec fn speaker_changed(
    calls: Map<u16, CallState>,
    call_id: u16,
    gssi: u32,
    speaker_issi: u32,
    source: String,
    at: String,
) -> CallState {
    if calls.contains_key(call_id) && calls[call_id] is Group {
        match calls[call_id] {
            CallState::Group { call_id: c, gssi: g, caller_issi, carrier_num, ts, priority, started_at, .. } => {
                CallState::Group {
                    call_id: c,
                    gssi: g,
                    caller_issi,
                    speaker_issi: Some(speaker_issi),
                    carrier_num,
                    ts,
                    priority,
                    source,
                    started_at,
                    last_activity: at,
                }
            },
            _ => calls[call_id],
        }
    } else {
        CallState::Group {
            call_id,
            gssi,
            caller_issi: speaker_issi,
            speaker_issi: Some(speaker_issi),
            carrier_num: 0,
            ts: 0,
            priority: 0,
            source,
            started_at: at,
            last_activity: at,
        }
    }
}


/// The radio picture of a node that has reported nothing yet.
pub open spec fn empty_radio(r: RadioView) -> bool {
    &&& r.subscribers == Map::<u32, SubscriberView>::empty()
    &&& r.groups == Map::<u32, GroupView>::empty()
    &&& r.group_calls == Map::<u16, CallState>::empty()
    &&& r.individual_calls == Map::<u16, CallState>::empty()
    &&& r.emergencies == Map::<u32, EmergencyState>::empty()
    &&& r.sds_log == Seq::<SdsLogEntry>::empty()
    &&& r.brew is None
    &&& r.timeslot_activity == Map::<Seq<char>, Seq<char>>::empty()
    &&& r.rf_quality is None && r.sdr_health is None && r.sys_health is None
    &&& r.health is None && r.packet_data is None
}

impl RadioState {
    /// A node that has reported nothing yet.
    pub fn new() -> (r: RadioState)
        ensures
            empty_radio(r@),
    {
        let r = RadioState {
            subscribers: HashMap::new(),
            groups: HashMap::new(),
            group_calls: HashMap::new(),
            individual_calls: HashMap::new(),
            emergencies: HashMap::new(),
            sds_log: Vec::new(),
            brew: None,
            timeslot_activity: TextMap::new(),
            rf_quality: None,
            sdr_health: None,
            sys_health: None,
            health: None,
            packet_data: None,
        };
        assert(r@.subscribers =~= Map::<u32, SubscriberView>::empty());
        assert(r@.groups =~= Map::<u32, GroupView>::empty());
        r
    }

    fn on_presence(&mut self, issi: u32, online: bool, at: &String, what: &str)
        ensures
            final(self)@ == (RadioView { subscribers: presence(old(self)@.subscribers, issi, online, at@, what@), ..old(self)@ }),
    {
        let mut s = take_subscriber(&mut self.subscribers, issi);
        s.online = online;
        s.last_seen = Some(at.clone());
        s.last_event = Some(lit(what));
        put_subscriber(&mut self.subscribers, issi, s);
        assert(self@.subscribers =~= presence(old(self)@.subscribers, issi, online, at@, what@));
    }

    fn on_timeout_drop(&mut self, issi: u32, at: &String)
        ensures
            final(self)@ == event_effect(old(self)@, *at, TelemetryEvent::MsTimeoutDrop { issi }),
    {
        proof {
            reveal_strlit("timeout_drop");
        }
        let mut s = take_subscriber(&mut self.subscribers, issi);
        s.online = false;
        s.timeout_drop_count = if s.timeout_drop_count == u64::MAX { 0 } else { s.timeout_drop_count + 1 };
        s.last_seen = Some(at.clone());
        s.last_event = Some(lit("timeout_drop"));
        put_subscriber(&mut self.subscribers, issi, s);
        remove_member_everywhere(&mut self.groups, issi);
        assert(self@.subscribers =~= event_effect(old(self)@, *at, TelemetryEvent::MsTimeoutDrop { issi }).subscribers);
    }

    fn on_group_attach(&mut self, issi: u32, gssis: Vec<u32>, snapshot: bool, at: &String)
        ensures
            snapshot ==> final(self)@ == event_effect(old(self)@, *at, TelemetryEvent::MsGroupsSnapshot { issi, gssis }),
            !snapshot ==> final(self)@ == event_effect(old(self)@, *at, TelemetryEvent::MsGroupAttach { issi, gssis }),
    {
        let mut s = take_subscriber(&mut self.subscribers, issi);
        let ghost s0 = s@;
        if snapshot {
            remove_member_everywhere(&mut self.groups, issi);
            s.groups.clear();
        }
        let ghost g1 = s.groups@;
        let mut i: usize = 0;
        while i < gssis.len()
            invariant
                i <= gssis@.len(),
                s.groups@ == g1 + gssis@.take(i as int).to_set(),
                s@ == (SubscriberView { groups: s.groups@, ..s0 }),
            decreases gssis@.len() - i,
        {
            s.groups.insert(gssis[i]);
            proof {
                assert(gssis@.take(i + 1) =~= gssis@.take(i as int).push(gssis@[i as int]));
                gssis@.take(i as int).lemma_push_to_set_commute(gssis@[i as int]);
                assert(s.groups@ =~= g1 + gssis@.take(i + 1).to_set());
            }
            i = i + 1;
        }
        assert(gssis@.take(gssis@.len() as int) =~= gssis@);
        add_member_in(&mut self.groups, &gssis, issi);
        s.online = true;
        s.last_seen = Some(at.clone());
        s.last_event = if snapshot { Some(lit("groups_snapshot")) } else { Some(lit("group_attach")) };
        put_subscriber(&mut self.subscribers, issi, s);
        proof {
            if snapshot {
                assert(g1 + gssis@.to_set() =~= gssis@.to_set());
                assert(self@.subscribers =~= event_effect(old(self)@, *at, TelemetryEvent::MsGroupsSnapshot { issi, gssis }).subscribers);
            } else {
                assert(self@.subscribers =~= event_effect(old(self)@, *at, TelemetryEvent::MsGroupAttach { issi, gssis }).subscribers);
            }
        }
    }
}


impl RadioState {
    fn on_group_detach(&mut self, issi: u32, gssis: Vec<u32>, at: &String)
        ensures
            final(self)@ == event_effect(old(self)@, *at, TelemetryEvent::MsGroupDetach { issi, gssis }),
    {
        let mut s = take_subscriber(&mut self.subscribers, issi);
        let ghost s0 = s@;
        let mut i: usize = 0;
        while i < gssis.len()
            invariant
                i <= gssis@.len(),
                s.groups@ == s0.groups - gssis@.take(i as int).to_set(),
                s@ == (SubscriberView { groups: s.groups@, ..s0 }),
            decreases gssis@.len() - i,
        {
            s.groups.remove(&gssis[i]);
            proof {
                assert(gssis@.take(i + 1) =~= gssis@.take(i as int).push(gssis@[i as int]));
                gssis@.take(i as int).lemma_push_to_set_commute(gssis@[i as int]);
                assert(s.groups@ =~= s0.groups - gssis@.take(i + 1).to_set());
            }
            i = i + 1;
        }
        assert(gssis@.take(gssis@.len() as int) =~= gssis@);
        remove_member_in(&mut self.groups, &gssis, issi);
        s.last_seen = Some(at.clone());
        s.last_event = Some(lit("group_detach"));
        put_subscriber(&mut self.subscribers, issi, s);
        assert(self@.subscribers =~= event_effect(old(self)@, *at, TelemetryEvent::MsGroupDetach { issi, gssis }).subscribers);
    }

    fn on_rssi(&mut self, issi: u32, rssi_dbfs_bits: u32, at: &String)
        ensures
            final(self)@ == event_effect(old(self)@, *at, TelemetryEvent::MsRssi { issi, rssi_dbfs_bits }),
    {
        let mut s = take_subscriber(&mut self.subscribers, issi);
        s.rssi_dbfs_bits = Some(rssi_dbfs_bits);
        s.last_seen = Some(at.clone());
        s.last_event = Some(lit("rssi"));
        put_subscriber(&mut self.subscribers, issi, s);
        assert(self@.subscribers =~= event_effect(
            old(self)@,
            *at,
            TelemetryEvent::MsRssi { issi, rssi_dbfs_bits },
        ).subscribers);
    }

    fn on_energy_saving(&mut self, issi: u32, mode: u8, at: &String)
        ensures
            final(self)@ == event_effect(old(self)@, *at, TelemetryEvent::MsEnergySaving { issi, mode }),
    {
        let mut s = take_subscriber(&mut self.subscribers, issi);
        s.energy_saving_mode = Some(mode);
        s.last_seen = Some(at.clone());
        s.last_event = Some(lit("energy_saving"));
        put_subscriber(&mut self.subscribers, issi, s);
        assert(self@.subscribers =~= event_effect(
            old(self)@,
            *at,
            TelemetryEvent::MsEnergySaving { issi, mode },
        ).subscribers);
    }

    fn set_group_call(&mut self, gssi: u32, call_id: u16)
        ensures
            final(self)@ == (RadioView {
                groups: old(self)@.groups.insert(
                    gssi,
                    GroupView { active_call_id: Some(call_id), ..group_or_fresh(old(self)@.groups, gssi) },
                ),
                ..old(self)@
            }),
    {
        let ghost before = self@.groups;
        let mut g = match self.groups.remove(&gssi) {
            Some(g) => g,
            None => GroupState::new(gssi),
        };
        assert(g@ == group_or_fresh(before, gssi));
        g.active_call_id = Some(call_id);
        let ghost gg = g;
        self.groups.insert(gssi, g);
        assert(self@.groups =~= before.insert(gssi, gg@));
    }

    fn on_group_call_started(
        &mut self,
        call_id: u16,
        gssi: u32,
        caller_issi: u32,
        ts: u8,
        carrier_num: u16,
        priority: u8,
        source: String,
        at: &String,
    )
        ensures
            final(self)@ == event_effect(
                old(self)@,
                *at,
                TelemetryEvent::GroupCallStarted { call_id, gssi, caller_issi, ts, carrier_num, priority, source },
            ),
    {
        self.set_group_call(gssi, call_id);
        mark_seen(&mut self.subscribers, caller_issi, at);
        self.group_calls.insert(
            call_id,
            CallState::Group {
                call_id,
                gssi,
                caller_issi,
                speaker_issi: Some(caller_issi),
                carrier_num,
                ts,
                priority,
                source,
                started_at: at.clone(),
                last_activity: at.clone(),
            },
        );
    }

    fn on_speaker_changed(&mut self, call_id: u16, gssi: u32, speaker_issi: u32, source: String, at: &String)
        ensures
            final(self)@ == event_effect(
                old(self)@,
                *at,
                TelemetryEvent::GroupCallSpeakerChanged { call_id, gssi, speaker_issi, source },
            ),
    {
        mark_seen(&mut self.subscribers, speaker_issi, at);
        self.set_group_call(gssi, call_id);
        let ghost calls = self.group_calls@;
        let updated = match self.group_calls.remove(&call_id) {
            Some(
                CallState::Group { call_id: c, gssi: g, caller_issi, carrier_num, ts, priority, started_at, .. },
            ) => CallState::Group {
                call_id: c,
                gssi: g,
                caller_issi,
                speaker_issi: Some(speaker_issi),
                carrier_num,
                ts,
                priority,
                source,
                started_at,
                last_activity: at.clone(),
            },
            _ => CallState::Group {
                call_id,
                gssi,
                caller_issi: speaker_issi,
                speaker_issi: Some(speaker_issi),
                carrier_num: 0,
                ts: 0,
                priority: 0,
                source,
                started_at: at.clone(),
                last_activity: at.clone(),
            },
        };
        assert(updated == speaker_changed(calls, call_id, gssi, speaker_issi, source, *at));
        self.group_calls.insert(call_id, updated);
        assert(self.group_calls@ =~= calls.insert(call_id, speaker_changed(calls, call_id, gssi, speaker_issi, source, *at)));
    }

    fn on_individual_call_started(
        &mut self,
        call_id: u16,
        calling_issi: u32,
        called_issi: u32,
        simplex: bool,
        ts: u8,
        carrier_num: u16,
        priority: u8,
        source: String,
        at: &String,
    )
        ensures
            final(self)@ == event_effect(
                old(self)@,
                *at,
                TelemetryEvent::IndividualCallStarted {
                    call_id,
                    calling_issi,
                    called_issi,
                    simplex,
                    ts,
                    carrier_num,
                    priority,
                    source,
                },
            ),
    {
        mark_seen(&mut self.subscribers, calling_issi, at);
        mark_seen(&mut self.subscribers, called_issi, at);
        self.individual_calls.insert(
            call_id,
            CallState::Individual {
                call_id,
                calling_issi,
                called_issi,
                simplex,
                carrier_num,
                ts,
                priority,
                source,
                started_at: at.clone(),
                last_activity: at.clone(),
            },
        );
    }
}


fn activity_key(prefix: &str, source_issi: u32, dest_issi: u32) -> (r: String)
    ensures
        r@ == sds_activity_key(prefix@, source_issi, dest_issi),
{
    let mut k = lit(prefix);
    push_dec(&mut k, source_issi as u64);
    push_str(&mut k, "->");
    push_dec(&mut k, dest_issi as u64);
    k
}

fn via(at: &String, what: &String) -> (r: String)
    ensures
        r@ == at@ + " via "@ + what@,
{
    let mut v = at.clone();
    push_str(&mut v, " via ");
    push_str(&mut v, what.as_str());
    v
}

impl RadioState {
    fn on_sds_activity(&mut self, source_issi: u32, dest_issi: u32, source: String, at: &String)
        ensures
            final(self)@ == event_effect(old(self)@, *at, TelemetryEvent::SdsActivity { source_issi, dest_issi, source }),
    {
        mark_seen(&mut self.subscribers, source_issi, at);
        mark_seen(&mut self.subscribers, dest_issi, at);
        let key = activity_key("sds:", source_issi, dest_issi);
        let value = via(at, &source);
        self.timeslot_activity.insert(key, value);
    }

    fn on_sds_edge_ingress(&mut self, source_issi: u32, dest_issi: u32, is_group: bool, ingress: String, at: &String)
        ensures
            final(self)@ == event_effect(
                old(self)@,
                *at,
                TelemetryEvent::SdsEdgeIngress { source_issi, dest_issi, is_group, ingress },
            ),
    {
        mark_seen(&mut self.subscribers, source_issi, at);
        if !is_group {
            mark_seen(&mut self.subscribers, dest_issi, at);
        }
        let key = activity_key("sds-edge:", source_issi, dest_issi);
        let value = via(at, &ingress);
        self.timeslot_activity.insert(key, value);
    }

    fn on_voice_activity(&mut self, carrier_num: u16, ts: u8, at: &String)
        ensures
            final(self)@ == event_effect(old(self)@, *at, TelemetryEvent::TsVoiceActivity { carrier_num, ts }),
    {
        let mut key = lit("c");
        push_dec(&mut key, carrier_num as u64);
        push_str(&mut key, ":ts");
        push_dec(&mut key, ts as u64);
        self.timeslot_activity.insert(key, at.clone());
    }

    fn on_sds_log(
        &mut self,
        direction: String,
        source_issi: u32,
        dest_issi: u32,
        is_group: bool,
        protocol_id: u8,
        text: String,
        position: Option<(u64, u64)>,
        at: &String,
    )
        ensures
            final(self)@ == event_effect(
                old(self)@,
                *at,
                TelemetryEvent::SdsLog { direction, source_issi, dest_issi, is_group, protocol_id, text, position },
            ),
    {
        if let Some((la, lo)) = position {
            let mut s = take_subscriber(&mut self.subscribers, source_issi);
            s.online = true;
            s.last_seen = Some(at.clone());
            s.last_event = Some(lit("lip_position"));
            s.last_location = Some(
                LocationState {
                    latitude_bits: la,
                    longitude_bits: lo,
                    source: lit("sds_lip"),
                    updated_at: at.clone(),
                    raw_text: Some(text.clone()),
                },
            );
            put_subscriber(&mut self.subscribers, source_issi, s);
        }
        let entry = SdsLogEntry {
            timestamp: at.clone(),
            direction,
            source_issi,
            dest_issi,
            is_group,
            protocol_id,
            text,
        };
        self.sds_log.push(entry);
        keep_last_in(&mut self.sds_log, SDS_LOG_LIMIT);
        proof {
            let e = event_effect(
                old(self)@,
                *at,
                TelemetryEvent::SdsLog { direction, source_issi, dest_issi, is_group, protocol_id, text, position },
            );
            assert(self@.subscribers =~= e.subscribers);
        }
    }

    fn on_emergency(&mut self, source_issi: u32, alarm: Option<u32>, at: &String)
        ensures
            alarm matches Some(d) ==> final(self)@ == event_effect(
                old(self)@,
                *at,
                TelemetryEvent::EmergencyAlarm { source_issi, dest_ssi: d },
            ),
            alarm is None ==> final(self)@ == event_effect(old(self)@, *at, TelemetryEvent::EmergencyCancel { source_issi }),
    {
        let ghost before = self.emergencies@;
        match alarm {
            Some(dest_ssi) => {
                self.emergencies.insert(
                    source_issi,
                    EmergencyState { source_issi, dest_ssi, active: true, raised_at: at.clone(), cleared_at: None },
                );
            },
            None => {
                if let Some(mut e) = self.emergencies.remove(&source_issi) {
                    e.active = false;
                    e.cleared_at = Some(at.clone());
                    self.emergencies.insert(source_issi, e);
                }
                proof {
                    if before.contains_key(source_issi) {
                        assert(self.emergencies@ =~= before.insert(
                            source_issi,
                            EmergencyState { active: false, cleared_at: Some(*at), ..before[source_issi] },
                        ));
                    } else {
                        assert(self.emergencies@ =~= before);
                    }
                }
            },
        }
        let mut s = take_subscriber(&mut self.subscribers, source_issi);
        s.emergency = alarm.is_some();
        s.last_seen = Some(at.clone());
        put_subscriber(&mut self.subscribers, source_issi, s);
        proof {
            match alarm {
                Some(d) => {
                    assert(self@.subscribers =~= event_effect(
                        old(self)@,
                        *at,
                        TelemetryEvent::EmergencyAlarm { source_issi, dest_ssi: d },
                    ).subscribers);
                },
                None => {
                    assert(self@.subscribers =~= event_effect(
                        old(self)@,
                        *at,
                        TelemetryEvent::EmergencyCancel { source_issi },
                    ).subscribers);
                },
            }
        }
    }

    fn on_brew_subscriber(&mut self, issi: u32, registered: bool, source: String, at: &String)
        ensures
            registered ==> final(self)@ == event_effect(
                old(self)@,
                *at,
                TelemetryEvent::BrewSubscriberRegistered { issi, source },
            ),
            !registered ==> final(self)@ == event_effect(
                old(self)@,
                *at,
                TelemetryEvent::BrewSubscriberDeregistered { issi, source },
            ),
    {
        let ghost src = source;
        let mut s = take_subscriber(&mut self.subscribers, issi);
        s.online = registered;
        s.remote_source = Some(source);
        s.last_seen = Some(at.clone());
        s.last_event = if registered { Some(lit("brew_registered")) } else { Some(lit("brew_deregistered")) };
        put_subscriber(&mut self.subscribers, issi, s);
        proof {
            if registered {
                assert(self@.subscribers =~= event_effect(
                    old(self)@,
                    *at,
                    TelemetryEvent::BrewSubscriberRegistered { issi, source: src },
                ).subscribers);
            } else {
                assert(self@.subscribers =~= event_effect(
                    old(self)@,
                    *at,
                    TelemetryEvent::BrewSubscriberDeregistered { issi, source: src },
                ).subscribers);
            }
        }
    }
}


impl RadioState {
    /// Applies telemetry event `event`, reported at time `at`.
    pub fn apply_event(&mut self, at: &String, event: TelemetryEvent)
        ensures
            final(self)@ == event_effect(old(self)@, *at, event),
    {
        proof {
            reveal_strlit("registration");
            reveal_strlit("deregistration");
        }
        match event {
            TelemetryEvent::MsRegistration { issi } => self.on_presence(issi, true, at, "registration"),
            TelemetryEvent::MsDeregistration { issi } => {
                self.on_presence(issi, false, at, "deregistration");
                remove_member_everywhere(&mut self.groups, issi);
            },
            TelemetryEvent::MsTimeoutDrop { issi } => self.on_timeout_drop(issi, at),
            TelemetryEvent::MsGroupAttach { issi, gssis } => self.on_group_attach(issi, gssis, false, at),
            TelemetryEvent::MsGroupsSnapshot { issi, gssis } => self.on_group_attach(issi, gssis, true, at),
            TelemetryEvent::MsGroupDetach { issi, gssis } => self.on_group_detach(issi, gssis, at),
            TelemetryEvent::MsRssi { issi, rssi_dbfs_bits } => self.on_rssi(issi, rssi_dbfs_bits, at),
            TelemetryEvent::MsEnergySaving { issi, mode } => self.on_energy_saving(issi, mode, at),
            TelemetryEvent::GroupCallStarted { call_id, gssi, caller_issi, ts, carrier_num, priority, source } => {
                self.on_group_call_started(call_id, gssi, caller_issi, ts, carrier_num, priority, source, at)
            },
            TelemetryEvent::GroupCallSpeakerChanged { call_id, gssi, speaker_issi, source } => {
                self.on_speaker_changed(call_id, gssi, speaker_issi, source, at)
            },
            TelemetryEvent::GroupCallEnded { call_id, .. } => {
                self.group_calls.remove(&call_id);
                clear_call_everywhere(&mut self.groups, call_id);
            },
            TelemetryEvent::IndividualCallStarted {
                call_id,
                calling_issi,
                called_issi,
                simplex,
                ts,
                carrier_num,
                priority,
                source,
            } => self.on_individual_call_started(
                call_id,
                calling_issi,
                called_issi,
                simplex,
                ts,
                carrier_num,
                priority,
                source,
                at,
            ),
            TelemetryEvent::IndividualCallEnded { call_id } => {
                self.individual_calls.remove(&call_id);
            },
            TelemetryEvent::SdsActivity { source_issi, dest_issi, source } => {
                self.on_sds_activity(source_issi, dest_issi, source, at)
            },
            TelemetryEvent::SdsLog { direction, source_issi, dest_issi, is_group, protocol_id, text, position } => {
                self.on_sds_log(direction, source_issi, dest_issi, is_group, protocol_id, text, position, at)
            },
            TelemetryEvent::SdsEdgeIngress { source_issi, dest_issi, is_group, ingress } => {
                self.on_sds_edge_ingress(source_issi, dest_issi, is_group, ingress, at)
            },
            TelemetryEvent::TsVoiceActivity { carrier_num, ts } => self.on_voice_activity(carrier_num, ts, at),
            TelemetryEvent::TxQuality { report } => self.rf_quality = Some(report),
            TelemetryEvent::TxVisual { report } => self.rf_quality = Some(report),
            TelemetryEvent::SdrHealth { report } => self.sdr_health = Some(report),
            TelemetryEvent::SysHealth { report } => self.sys_health = Some(report),
            TelemetryEvent::HealthSnapshot { report } => self.health = Some(report),
            TelemetryEvent::PacketDataSnapshot { report } => self.packet_data = Some(report),
            TelemetryEvent::BrewConnected { connected, server_version } => {
                self.brew = Some(BrewState { connected, server_version, last_seen: at.clone() });
            },
            TelemetryEvent::EmergencyAlarm { source_issi, dest_ssi } => self.on_emergency(source_issi, Some(dest_ssi), at),
            TelemetryEvent::EmergencyCancel { source_issi } => self.on_emergency(source_issi, None, at),
            TelemetryEvent::BrewSubscriberRegistered { issi, source } => self.on_brew_subscriber(issi, true, source, at),
            TelemetryEvent::BrewSubscriberDeregistered { issi, source } => {
                self.on_brew_subscriber(issi, false, source, at)
            },
            TelemetryEvent::DapnetLog => {},
            TelemetryEvent::MeshcomMessageLog => {},
            TelemetryEvent::MeshcomNodeUpdate => {},
        }
    }
}


/// The log name of a telemetry event's kind.
pub open spec fn event_type_name(e: TelemetryEvent) -> Seq<char> {
    match e {
        TelemetryEvent::MsRegistration { .. } => "ms_registration"@,
        TelemetryEvent::MsDeregistration { .. } => "ms_deregistration"@,
        TelemetryEvent::MsTimeoutDrop { .. } => "ms_timeout_drop"@,
        TelemetryEvent::MsGroupAttach { .. } => "ms_group_attach"@,
        TelemetryEvent::MsGroupsSnapshot { .. } => "ms_groups_snapshot"@,
        TelemetryEvent::MsGroupDetach { .. } => "ms_group_detach"@,
        TelemetryEvent::MsRssi { .. } => "ms_rssi"@,
        TelemetryEvent::GroupCallStarted { .. } => "group_call_started"@,
        TelemetryEvent::GroupCallEnded { .. } => "group_call_ended"@,
        TelemetryEvent::GroupCallSpeakerChanged { .. } => "group_call_speaker_changed"@,
        TelemetryEvent::IndividualCallStarted { .. } => "individual_call_started"@,
        TelemetryEvent::IndividualCallEnded { .. } => "individual_call_ended"@,
        TelemetryEvent::MsEnergySaving { .. } => "ms_energy_saving"@,
        TelemetryEvent::BrewConnected { .. } => "brew_connected"@,
        TelemetryEvent::SdsActivity { .. } => "sds_activity"@,
        TelemetryEvent::SdsLog { .. } => "sds_log"@,
        TelemetryEvent::TsVoiceActivity { .. } => "ts_voice_activity"@,
        TelemetryEvent::TxVisual { .. } => "tx_visual"@,
        TelemetryEvent::TxQuality { .. } => "tx_quality"@,
        TelemetryEvent::SdrHealth { .. } => "sdr_health"@,
        TelemetryEvent::SysHealth { .. } => "sys_health"@,
        TelemetryEvent::HealthSnapshot { .. } => "health_snapshot"@,
        TelemetryEvent::EmergencyAlarm { .. } => "emergency_alarm"@,
        TelemetryEvent::EmergencyCancel { .. } => "emergency_cancel"@,
        TelemetryEvent::DapnetLog => "dapnet_log"@,
        TelemetryEvent::MeshcomMessageLog => "meshcom_message_log"@,
        TelemetryEvent::MeshcomNodeUpdate => "meshcom_node_update"@,
        TelemetryEvent::BrewSubscriberRegistered { .. } => "brew_subscriber_registered"@,
        TelemetryEvent::BrewSubscriberDeregistered { .. } => "brew_subscriber_deregistered"@,
        TelemetryEvent::PacketDataSnapshot { .. } => "packet_data_snapshot"@,
        TelemetryEvent::SdsEdgeIngress { .. } => "sds_edge_ingress"@,
    }
}

/// The log name of a telemetry event's kind.
pub fn telemetry_event_type(event: &TelemetryEvent) -> (r: &'static str)
    ensures
        r@ == event_type_name(*event),
{
    match event {
        TelemetryEvent::MsRegistration { .. } => "ms_registration",
        TelemetryEvent::MsDeregistration { .. } => "ms_deregistration",
        TelemetryEvent::MsTimeoutDrop { .. } => "ms_timeout_drop",
        TelemetryEvent::MsGroupAttach { .. } => "ms_group_attach",
        TelemetryEvent::MsGroupsSnapshot { .. } => "ms_groups_snapshot",
        TelemetryEvent::MsGroupDetach { .. } => "ms_group_detach",
        TelemetryEvent::MsRssi { .. } => "ms_rssi",
        TelemetryEvent::GroupCallStarted { .. } => "group_call_started",
        TelemetryEvent::GroupCallEnded { .. } => "group_call_ended",
        TelemetryEvent::GroupCallSpeakerChanged { .. } => "group_call_speaker_changed",
        TelemetryEvent::IndividualCallStarted { .. } => "individual_call_started",
        TelemetryEvent::IndividualCallEnded { .. } => "individual_call_ended",
        TelemetryEvent::MsEnergySaving { .. } => "ms_energy_saving",
        TelemetryEvent::BrewConnected { .. } => "brew_connected",
        TelemetryEvent::SdsActivity { .. } => "sds_activity",
        TelemetryEvent::SdsLog { .. } => "sds_log",
        TelemetryEvent::TsVoiceActivity { .. } => "ts_voice_activity",
        TelemetryEvent::TxVisual { .. } => "tx_visual",
        TelemetryEvent::TxQuality { .. } => "tx_quality",
        TelemetryEvent::SdrHealth { .. } => "sdr_health",
        TelemetryEvent::SysHealth { .. } => "sys_health",
        TelemetryEvent::HealthSnapshot { .. } => "health_snapshot",
        TelemetryEvent::EmergencyAlarm { .. } => "emergency_alarm",
        TelemetryEvent::EmergencyCancel { .. } => "emergency_cancel",
        TelemetryEvent::DapnetLog => "dapnet_log",
        TelemetryEvent::MeshcomMessageLog => "meshcom_message_log",
        TelemetryEvent::MeshcomNodeUpdate => "meshcom_node_update",
        TelemetryEvent::BrewSubscriberRegistered { .. } => "brew_subscriber_registered",
        TelemetryEvent::BrewSubscriberDeregistered { .. } => "brew_subscriber_deregistered",
        TelemetryEvent::PacketDataSnapshot { .. } => "packet_data_snapshot",
        TelemetryEvent::SdsEdgeIngress { .. } => "sds_edge_ingress",
    }
}

/// What a node announces when it connects.
#[derive(Debug)]
pub struct NodeHello {
    pub protocol_version: String,
    pub started_at: String,
    pub station_name: String,
    pub site: Option<String>,
    pub stack_version: String,
    pub mcc: u16,
    pub mnc: u16,
    pub location_area: u16,
    pub main_carrier: u16,
    pub secondary_carrier: Option<u16>,
    pub colour_code: u8,
    pub system_code: u8,
    /// The node's capability report, a JSON document carried unread.
    pub capabilities: serde_json::Value,
}

/// What the control room knows of one node.
pub struct NodeState {
    pub node_id: String,
    pub station_name: Option<String>,
    pub site: Option<String>,
    pub connected: bool,
    pub transport_connected: bool,
    pub protocol_version: Option<String>,
    pub started_at: Option<String>,
    pub stack_version: Option<String>,
    pub mcc: Option<u16>,
    pub mnc: Option<u16>,
    pub location_area: Option<u16>,
    pub main_carrier: Option<u16>,
    pub secondary_carrier: Option<u16>,
    pub colour_code: Option<u8>,
    pub system_code: Option<u8>,
    pub capabilities: Option<serde_json::Value>,
    pub last_seen: Option<String>,
    pub last_seq: u64,
    pub telemetry_count: u64,
    pub heartbeat_count: u64,
    pub command_ack_count: u64,
    pub control_response_count: u64,
    pub radio: RadioState,
    pub errors: Vec<String>,
}

/// `n` is the node `o` with only its link state and counters changed as given.
pub open spec fn same_identity(o: NodeState, n: NodeState) -> bool {
    &&& n.node_id == o.node_id
    &&& n.station_name == o.station_name
    &&& n.site == o.site
    &&& n.protocol_version == o.protocol_version
    &&& n.started_at == o.started_at
    &&& n.stack_version == o.stack_version
    &&& n.mcc == o.mcc && n.mnc == o.mnc && n.location_area == o.location_area
    &&& n.main_carrier == o.main_carrier && n.secondary_carrier == o.secondary_carrier
    &&& n.colour_code == o.colour_code && n.system_code == o.system_code
    &&& n.capabilities == o.capabilities
}

/// The counters and the last sequence number of `n` are those of `o`.
pub open spec fn counters_kept(o: NodeState, n: NodeState) -> bool {
    &&& n.last_seq == o.last_seq
    &&& n.telemetry_count == o.telemetry_count
    &&& n.heartbeat_count == o.heartbeat_count
    &&& n.command_ack_count == o.command_ack_count
    &&& n.control_response_count == o.control_response_count
}

/// `n` is a node that the control room has only just heard of, by `id`.
pub open spec fn node_is_new(n: NodeState, id: Seq<char>) -> bool {
    &&& n.node_id@ == id
    &&& n.station_name is None && n.site is None
    &&& !n.connected && !n.transport_connected
    &&& n.protocol_version is None && n.started_at is None && n.stack_version is None
    &&& n.mcc is None && n.mnc is None && n.location_area is None
    &&& n.main_carrier is None && n.secondary_carrier is None
    &&& n.colour_code is None && n.system_code is None
    &&& n.capabilities is None
    &&& n.last_seen is None
    &&& n.last_seq == 0
    &&& n.telemetry_count == 0 && n.heartbeat_count == 0
    &&& n.command_ack_count == 0 && n.control_response_count == 0
    &&& empty_radio(n.radio@)
    &&& n.errors@.len() == 0
}

/// `n` is `o` after the announcement `hello`, received at `now`: the node is
/// linked and takes the announced identity; counters, radio picture and error
/// log stay.
pub open spec fn hello_applied(o: NodeState, n: NodeState, hello: NodeHello, now: String) -> bool {
    &&& n.connected && n.transport_connected
    &&& n.protocol_version == Some(hello.protocol_version)
    &&& n.started_at == Some(hello.started_at)
    &&& n.station_name == Some(hello.station_name)
    &&& n.site == hello.site
    &&& n.stack_version == Some(hello.stack_version)
    &&& n.mcc == Some(hello.mcc) && n.mnc == Some(hello.mnc)
    &&& n.location_area == Some(hello.location_area)
    &&& n.main_carrier == Some(hello.main_carrier)
    &&& n.secondary_carrier == hello.secondary_carrier
    &&& n.colour_code == Some(hello.colour_code)
    &&& n.system_code == Some(hello.system_code)
    &&& n.capabilities == Some(hello.capabilities)
    &&& n.last_seen == Some(now)
    &&& n.node_id == o.node_id
    &&& counters_kept(o, n)
    &&& n.radio@ == o.radio@
    &&& n.errors@ == o.errors@
}

/// `n` is `o` after a heartbeat that reports the link state `connected`, with
/// sequence number `seq`, at `timestamp`; the heartbeat counter wraps.
pub open spec fn heartbeat_applied(o: NodeState, n: NodeState, connected: bool, seq: u64, timestamp: String) -> bool {
    &&& n.connected == connected
    &&& n.transport_connected
    &&& n.heartbeat_count == wrapping_inc(o.heartbeat_count)
    &&& n.last_seq == seq
    &&& n.last_seen == Some(timestamp)
    &&& same_identity(o, n)
    &&& n.telemetry_count == o.telemetry_count
    &&& n.command_ack_count == o.command_ack_count
    &&& n.control_response_count == o.control_response_count
    &&& n.radio@ == o.radio@
    &&& n.errors@ == o.errors@
}

/// `n` is `o` after the telemetry event `event` with sequence number `seq`,
/// sent at `timestamp`: the node is linked, the counter wraps, and the event
/// changes the radio picture.
pub open spec fn telemetry_applied(o: NodeState, n: NodeState, seq: u64, timestamp: String, event: TelemetryEvent) -> bool {
    &&& n.connected && n.transport_connected
    &&& n.telemetry_count == wrapping_inc(o.telemetry_count)
    &&& n.last_seq == seq
    &&& n.last_seen == Some(timestamp)
    &&& n.radio@ == event_effect(o.radio@, timestamp, event)
    &&& same_identity(o, n)
    &&& n.heartbeat_count == o.heartbeat_count
    &&& n.command_ack_count == o.command_ack_count
    &&& n.control_response_count == o.control_response_count
    &&& n.errors@ == o.errors@
}

/// Everything of `n` but the time it was last seen and the counters is that of `o`.
pub open spec fn link_kept(o: NodeState, n: NodeState) -> bool {
    &&& n.connected == o.connected
    &&& n.transport_connected == o.transport_connected
    &&& same_identity(o, n)
    &&& n.radio@ == o.radio@
    &&& n.errors@ == o.errors@
}

/// `n` is `o` after a command acknowledgement that arrived at `timestamp`.
pub open spec fn ack_counted(o: NodeState, n: NodeState, timestamp: String) -> bool {
    &&& n.command_ack_count == wrapping_inc(o.command_ack_count)
    &&& n.last_seen == Some(timestamp)
    &&& link_kept(o, n)
    &&& n.last_seq == o.last_seq
    &&& n.telemetry_count == o.telemetry_count
    &&& n.heartbeat_count == o.heartbeat_count
    &&& n.control_response_count == o.control_response_count
}

/// `n` is `o` after a control response that arrived at `timestamp`.
pub open spec fn response_counted(o: NodeState, n: NodeState, timestamp: String) -> bool {
    &&& n.control_response_count == wrapping_inc(o.control_response_count)
    &&& n.last_seen == Some(timestamp)
    &&& link_kept(o, n)
    &&& n.last_seq == o.last_seq
    &&& n.telemetry_count == o.telemetry_count
    &&& n.heartbeat_count == o.heartbeat_count
    &&& n.command_ack_count == o.command_ack_count
}

/// `n` is `o` seen again at `timestamp`, with nothing else changed.
pub open spec fn seen_again(o: NodeState, n: NodeState, timestamp: String) -> bool {
    &&& n.last_seen == Some(timestamp)
    &&& link_kept(o, n)
    &&& counters_kept(o, n)
}

/// `n` is `o` with `<timestamp>: <message>` added to its error log, of which
/// the newest 50 are kept.
pub open spec fn error_recorded(o: NodeState, n: NodeState, timestamp: Seq<char>, message: Seq<char>) -> bool {
    &&& n.errors@.len() <= ERROR_LOG_LIMIT
    &&& n.errors@.map_values(|e: String| e@) == keep_last(
        o.errors@.map_values(|e: String| e@).push(timestamp + ": "@ + message),
        ERROR_LOG_LIMIT as nat,
    )
    &&& n.radio@ == o.radio@
    &&& n.last_seen == o.last_seen
    &&& n.connected == o.connected
    &&& n.transport_connected == o.transport_connected
    &&& same_identity(o, n)
    &&& counters_kept(o, n)
}

/// `n` is `o` with its link marked up (`up`) or down at `now`.
pub open spec fn link_marked(o: NodeState, n: NodeState, up: bool, now: String) -> bool {
    &&& n.connected == up && n.transport_connected == up
    &&& n.last_seen == Some(now)
    &&& same_identity(o, n)
    &&& counters_kept(o, n)
    &&& n.radio@ == o.radio@
    &&& n.errors@ == o.errors@
}

impl NodeState {
    /// A node known only by its id.
    pub fn new(node_id: String) -> (r: NodeState)
        ensures
            r.node_id == node_id,
            node_is_new(r, node_id@),
    {
        NodeState {
            node_id,
            station_name: None,
            site: None,
            connected: false,
            transport_connected: false,
            protocol_version: None,
            started_at: None,
            stack_version: None,
            mcc: None,
            mnc: None,
            location_area: None,
            main_carrier: None,
            secondary_carrier: None,
            colour_code: None,
            system_code: None,
            capabilities: None,
            last_seen: None,
            last_seq: 0,
            telemetry_count: 0,
            heartbeat_count: 0,
            command_ack_count: 0,
            control_response_count: 0,
            radio: RadioState::new(),
            errors: Vec::new(),
        }
    }

    /// Records the node's announcement, received at `now`.
    pub fn apply_hello_at(&mut self, hello: NodeHello, now: String)
        ensures
            hello_applied(*old(self), *final(self), hello, now),
    {
        self.connected = true;
        self.transport_connected = true;
        self.protocol_version = Some(hello.protocol_version);
        self.started_at = Some(hello.started_at);
        self.station_name = Some(hello.station_name);
        self.site = hello.site;
        self.stack_version = Some(hello.stack_version);
        self.mcc = Some(hello.mcc);
        self.mnc = Some(hello.mnc);
        self.location_area = Some(hello.location_area);
        self.main_carrier = Some(hello.main_carrier);
        self.secondary_carrier = hello.secondary_carrier;
        self.colour_code = Some(hello.colour_code);
        self.system_code = Some(hello.system_code);
        self.capabilities = Some(hello.capabilities);
        self.last_seen = Some(now);
    }

    /// Records a heartbeat: the link state it reports, its sequence number
    /// and time; the heartbeat counter wraps.
    pub fn apply_heartbeat(&mut self, connected: bool, seq: u64, timestamp: String)
        ensures
            heartbeat_applied(*old(self), *final(self), connected, seq, timestamp),
    {
        self.connected = connected;
        self.transport_connected = true;
        self.heartbeat_count = if self.heartbeat_count == u64::MAX { 0 } else { self.heartbeat_count + 1 };
        self.last_seq = seq;
        self.last_seen = Some(timestamp);
    }

    /// Records a telemetry envelope: the node is connected, the counter
    /// wraps, and the event changes the radio picture.
    pub fn apply_telemetry(&mut self, seq: u64, timestamp: String, event: TelemetryEvent)
        ensures
            telemetry_applied(*old(self), *final(self), seq, timestamp, event),
    {
        self.connected = true;
        self.transport_connected = true;
        self.telemetry_count = if self.telemetry_count == u64::MAX { 0 } else { self.telemetry_count + 1 };
        self.last_seq = seq;
        self.radio.apply_event(&timestamp, event);
        self.last_seen = Some(timestamp);
    }

    /// Records a command acknowledgement that arrived at `timestamp`.
    pub fn record_command_ack(&mut self, timestamp: String)
        ensures
            ack_counted(*old(self), *final(self), timestamp),
    {
        self.command_ack_count = if self.command_ack_count == u64::MAX { 0 } else { self.command_ack_count + 1 };
        self.last_seen = Some(timestamp);
    }

    /// Records a control response that arrived at `timestamp`.
    pub fn record_control_response(&mut self, timestamp: String)
        ensures
            response_counted(*old(self), *final(self), timestamp),
    {
        self.control_response_count = if self.control_response_count == u64::MAX {
            0
        } else {
            self.control_response_count + 1
        };
        self.last_seen = Some(timestamp);
    }

    /// Records that the node was seen at `timestamp`.
    pub fn mark_seen(&mut self, timestamp: String)
        ensures
            seen_again(*old(self), *final(self), timestamp),
    {
        self.last_seen = Some(timestamp);
    }

    /// Records an error that the node reported at `timestamp`, as
    /// `<timestamp>: <message>`; the newest 50 are kept.
    pub fn push_error(&mut self, timestamp: &str, message: &str)
        ensures
            error_recorded(*old(self), *final(self), timestamp@, message@),
    {
        let mut text = lit(timestamp);
        push_str(&mut text, ": ");
        push_str(&mut text, message);
        self.errors.push(text);
        let ghost pushed = self.errors@;
        keep_last_in(&mut self.errors, ERROR_LOG_LIMIT);
        proof {
            let a = old(self).errors@.map_values(|e: String| e@).push(timestamp@ + ": "@ + message@);
            assert(pushed.map_values(|e: String| e@) =~= a);
            if pushed.len() > ERROR_LOG_LIMIT {
                assert(self.errors@.map_values(|e: String| e@) =~= a.skip(a.len() - ERROR_LOG_LIMIT));
            }
        }
    }

    /// Marks the node's link up at `now`.
    pub fn mark_connected_transport(&mut self, now: String)
        ensures
            link_marked(*old(self), *final(self), true, now),
    {
        self.connected = true;
        self.transport_connected = true;
        self.last_seen = Some(now);
    }

    /// Marks the node's link down at `now`.
    pub fn mark_disconnected(&mut self, now: String)
        ensures
            link_marked(*old(self), *final(self), false, now),
    {
        self.connected = false;
        self.transport_connected = false;
        self.last_seen = Some(now);
    }

    /// Records the node's announcement, received now.
    pub fn apply_hello(&mut self, hello: NodeHello)
        ensures
            exists|now: String| hello_applied(*old(self), *final(self), hello, now),
    {
        let now = crate::operations::now_iso();
        self.apply_hello_at(hello, now);
    }
}

} // verus!
