//! The per-node radio state that the control room keeps (groups, calls,
//! emergencies, SDS log, Brew link) and the detail rows it serves.
use vstd::prelude::*;
use std::collections::HashSet;
use crate::text::{lit, str_eq};

verus! {

/// A talk group and its members.
#[derive(Debug)]
pub struct GroupState {
    pub gssi: u32,
    pub members: HashSet<u32>,
    pub active_call_id: Option<u16>,
}

impl GroupState {
    /// A group with no members and no active call.
    pub fn new(gssi: u32) -> (r: GroupState)
        ensures
            r.gssi == gssi,
            r.members@ == Set::<u32>::empty(),
            r.active_call_id is None,
    {
        GroupState { gssi, members: HashSet::new(), active_call_id: None }
    }
}

/// A call in progress.
#[derive(Debug)]
pub enum CallState {
    Group {
        call_id: u16,
        gssi: u32,
        caller_issi: u32,
        speaker_issi: Option<u32>,
        carrier_num: u16,
        ts: u8,
        priority: u8,
        source: String,
        started_at: String,
        last_activity: String,
    },
    Individual {
        call_id: u16,
        calling_issi: u32,
        called_issi: u32,
        simplex: bool,
        carrier_num: u16,
        ts: u8,
        priority: u8,
        source: String,
        started_at: String,
        last_activity: String,
    },
}

/// Whether subscriber `issi` takes part in the call: as caller or current
/// speaker of a group call, or as either party of an individual call.
pub open spec fn involves(call: CallState, issi: u32) -> bool {
    match call {
        CallState::Group { caller_issi, speaker_issi, .. } => caller_issi == issi || speaker_issi == Some(issi),
        CallState::Individual { calling_issi, called_issi, .. } => calling_issi == issi || called_issi == issi,
    }
}

/// Whether subscriber `issi` takes part in the call.
pub fn call_involves_subscriber(call: &CallState, issi: u32) -> (r: bool)
    ensures
        r == involves(*call, issi),
{
    match call {
        CallState::Group { caller_issi, speaker_issi, .. } => *caller_issi == issi || match speaker_issi {
            Some(s) => *s == issi,
            None => false,
        },
        CallState::Individual { calling_issi, called_issi, .. } => *calling_issi == issi || *called_issi == issi,
    }
}

/// An emergency raised by a subscriber.
#[derive(Debug)]
pub struct EmergencyState {
    pub source_issi: u32,
    pub dest_ssi: u32,
    pub active: bool,
    pub raised_at: String,
    pub cleared_at: Option<String>,
}

/// An SDS seen on a node.
#[derive(Debug)]
pub struct SdsLogEntry {
    pub timestamp: String,
    pub direction: String,
    pub source_issi: u32,
    pub dest_issi: u32,
    pub is_group: bool,
    pub protocol_id: u8,
    pub text: String,
}

/// The Brew link of a node.
#[derive(Debug)]
pub struct BrewState {
    pub connected: bool,
    pub server_version: u8,
    pub last_seen: String,
}

/// A command accepted for delivery to a node.
#[derive(Debug)]
pub struct QueuedCommand {
    pub command_id: String,
    pub target_node_id: String,
    pub status: String,
    pub timestamp: String,
}

/// A command and its delivery state, as listed to operators.
#[derive(Debug)]
pub struct CommandSummary {
    pub command_id: String,
    pub target_node_id: String,
    pub operator_id: Option<String>,
    pub issued_at: String,
    pub updated_at: String,
    pub status: String,
    pub message: Option<String>,
}

/// A group as listed to operators.
#[derive(Debug)]
pub struct GroupDetail {
    pub node_id: String,
    pub station_name: Option<String>,
    pub gssi: u32,
    pub members: Vec<u32>,
    pub members_online: usize,
    pub active_call_id: Option<u16>,
    pub active_call_key: Option<String>,
}

/// The groups of the nodes asked for.
#[derive(Debug)]
pub struct ControlRoomGroupsSnapshot {
    pub now: String,
    pub node_filter: Option<String>,
    pub count: usize,
    pub groups: Vec<GroupDetail>,
}

/// A call as listed to operators.
#[derive(Debug)]
pub struct CallDetail {
    pub node_id: String,
    pub station_name: Option<String>,
    pub key: String,
    pub call_kind: String,
    pub call_id: u16,
    pub gssi: Option<u32>,
    pub caller_issi: Option<u32>,
    pub speaker_issi: Option<u32>,
    pub calling_issi: Option<u32>,
    pub called_issi: Option<u32>,
    pub simplex: Option<bool>,
    pub carrier_num: u16,
    pub ts: u8,
    pub priority: u8,
    pub source: String,
    pub started_at: String,
    pub last_activity: String,
}

/// The calls of the nodes asked for.
#[derive(Debug)]
pub struct ControlRoomCallsSnapshot {
    pub now: String,
    pub node_filter: Option<String>,
    pub count: usize,
    pub calls: Vec<CallDetail>,
}

/// An SDS as listed to operators.
#[derive(Debug)]
pub struct SdsDetail {
    pub node_id: String,
    pub station_name: Option<String>,
    pub timestamp: String,
    pub direction: String,
    pub source_issi: u32,
    pub dest_issi: u32,
    pub is_group: bool,
    pub protocol_id: u8,
    pub text: String,
}

/// The SDS log of the nodes asked for.
#[derive(Debug)]
pub struct ControlRoomSdsSnapshot {
    pub now: String,
    pub node_filter: Option<String>,
    pub count: usize,
    pub sds: Vec<SdsDetail>,
}

/// An emergency as listed to operators.
#[derive(Debug)]
pub struct EmergencyDetail {
    pub node_id: String,
    pub station_name: Option<String>,
    pub source_issi: u32,
    pub dest_ssi: u32,
    pub active: bool,
    pub raised_at: String,
    pub cleared_at: Option<String>,
}

/// The emergencies of the nodes asked for.
#[derive(Debug)]
pub struct ControlRoomEmergenciesSnapshot {
    pub now: String,
    pub node_filter: Option<String>,
    pub count: usize,
    pub active_count: usize,
    pub emergencies: Vec<EmergencyDetail>,
}

fn clone_opt(o: &Option<String>) -> (r: Option<String>)
    ensures
        r == *o,
{
    match o {
        Some(s) => Some(s.clone()),
        None => None,
    }
}

/// `d` lists the call `call` under `key` for the node `node_id` named `station_name`.
pub open spec fn call_listed(d: CallDetail, node_id: Seq<char>, station_name: Option<String>, key: Seq<char>, call: CallState) -> bool {
    &&& d.node_id@ == node_id
    &&& d.station_name == station_name
    &&& d.key@ == key
    &&& match call {
        CallState::Group {
            call_id,
            gssi,
            caller_issi,
            speaker_issi,
            carrier_num,
            ts,
            priority,
            source,
            started_at,
            last_activity,
        } => {
            &&& d.call_kind@ == "group"@
            &&& d.call_id == call_id && d.gssi == Some(gssi) && d.caller_issi == Some(caller_issi)
            &&& d.speaker_issi == speaker_issi
            &&& d.calling_issi is None && d.called_issi is None && d.simplex is None
            &&& d.carrier_num == carrier_num && d.ts == ts && d.priority == priority
            &&& d.source == source && d.started_at == started_at && d.last_activity == last_activity
        },
        CallState::Individual {
            call_id,
            calling_issi,
            called_issi,
            simplex,
            carrier_num,
            ts,
            priority,
            source,
            started_at,
            last_activity,
        } => {
            &&& d.call_kind@ == "individual"@
            &&& d.call_id == call_id && d.gssi is None && d.caller_issi is None && d.speaker_issi is None
            &&& d.calling_issi == Some(calling_issi) && d.called_issi == Some(called_issi)
            &&& d.simplex == Some(simplex)
            &&& d.carrier_num == carrier_num && d.ts == ts && d.priority == priority
            &&& d.source == source && d.started_at == started_at && d.last_activity == last_activity
        },
    }
}

/// The listing row of a call of a node.
pub fn call_detail(node_id: &str, station_name: &Option<String>, key: &str, call: &CallState) -> (r: CallDetail)
    ensures
        call_listed(r, node_id@, *station_name, key@, *call),
{
    match call {
        CallState::Group {
            call_id,
            gssi,
            caller_issi,
            speaker_issi,
            carrier_num,
            ts,
            priority,
            source,
            started_at,
            last_activity,
        } => CallDetail {
            node_id: lit(node_id),
            station_name: clone_opt(station_name),
            key: lit(key),
            call_kind: lit("group"),
            call_id: *call_id,
            gssi: Some(*gssi),
            caller_issi: Some(*caller_issi),
            speaker_issi: *speaker_issi,
            calling_issi: None,
            called_issi: None,
            simplex: None,
            carrier_num: *carrier_num,
            ts: *ts,
            priority: *priority,
            source: source.clone(),
            started_at: started_at.clone(),
            last_activity: last_activity.clone(),
        },
        CallState::Individual {
            call_id,
            calling_issi,
            called_issi,
            simplex,
            carrier_num,
            ts,
            priority,
            source,
            started_at,
            last_activity,
        } => CallDetail {
            node_id: lit(node_id),
            station_name: clone_opt(station_name),
            key: lit(key),
            call_kind: lit("individual"),
            call_id: *call_id,
            gssi: None,
            caller_issi: None,
            speaker_issi: None,
            calling_issi: Some(*calling_issi),
            called_issi: Some(*called_issi),
            simplex: Some(*simplex),
            carrier_num: *carrier_num,
            ts: *ts,
            priority: *priority,
            source: source.clone(),
            started_at: started_at.clone(),
            last_activity: last_activity.clone(),
        },
    }
}

/// The listing row of an SDS seen on a node.
pub fn sds_detail(node_id: &str, station_name: &Option<String>, entry: &SdsLogEntry) -> (r: SdsDetail)
    ensures
        r.node_id@ == node_id@,
        r.station_name == *station_name,
        r.timestamp == entry.timestamp,
        r.direction == entry.direction,
        r.source_issi == entry.source_issi,
        r.dest_issi == entry.dest_issi,
        r.is_group == entry.is_group,
        r.protocol_id == entry.protocol_id,
        r.text == entry.text,
{
    SdsDetail {
        node_id: lit(node_id),
        station_name: clone_opt(station_name),
        timestamp: entry.timestamp.clone(),
        direction: entry.direction.clone(),
        source_issi: entry.source_issi,
        dest_issi: entry.dest_issi,
        is_group: entry.is_group,
        protocol_id: entry.protocol_id,
        text: entry.text.clone(),
    }
}

/// The listing row of an emergency raised on a node.
pub fn emergency_detail(node_id: &str, station_name: &Option<String>, emergency: &EmergencyState) -> (r: EmergencyDetail)
    ensures
        r.node_id@ == node_id@,
        r.station_name == *station_name,
        r.source_issi == emergency.source_issi,
        r.dest_ssi == emergency.dest_ssi,
        r.active == emergency.active,
        r.raised_at == emergency.raised_at,
        r.cleared_at == emergency.cleared_at,
{
    EmergencyDetail {
        node_id: lit(node_id),
        station_name: clone_opt(station_name),
        source_issi: emergency.source_issi,
        dest_ssi: emergency.dest_ssi,
        active: emergency.active,
        raised_at: emergency.raised_at.clone(),
        cleared_at: clone_opt(&emergency.cleared_at),
    }
}

/// The event types logged so often that quiet listings leave them out.
pub open spec fn noisy_event_type(t: Seq<char>) -> bool {
    t == "tx_visual"@ || t == "tx_quality"@ || t == "sdr_health"@ || t == "sys_health"@ || t == "health_snapshot"@
        || t == "packet_data_snapshot"@ || t == "ms_rssi"@ || t == "ts_voice_activity"@
}

/// Whether an event type is one that quiet listings leave out.
pub fn is_noisy_event_type(event_type: &str) -> (r: bool)
    ensures
        r == noisy_event_type(event_type@),
{
    str_eq(event_type, "tx_visual") || str_eq(event_type, "tx_quality") || str_eq(event_type, "sdr_health")
        || str_eq(event_type, "sys_health") || str_eq(event_type, "health_snapshot") || str_eq(
        event_type,
        "packet_data_snapshot",
    ) || str_eq(event_type, "ms_rssi") || str_eq(event_type, "ts_voice_activity")
}

} // verus!
