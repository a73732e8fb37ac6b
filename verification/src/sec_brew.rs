//! Brew protocol (TetraPack/BrandMeister) configuration and its local ISSI
//! admission rules.
use vstd::prelude::*;
use std::time::Duration;
use crate::secret::SecretField;
use crate::text::{dec_seq, dec_string};
use crate::timing::{duration_of_secs, seconds};

verus! {

/// Brew protocol (TetraPack/BrandMeister) configuration.
pub struct CfgBrew {
    /// TetraPack server hostname or IP
    pub host: String,
    /// TetraPack server port
    pub port: u16,
    /// Use TLS (wss:// / https://)
    pub tls: bool,
    /// Optional username for HTTP Digest auth
    pub username: Option<String>,
    /// Optional password for HTTP Digest auth
    pub password: Option<SecretField>,
    /// Reconnection delay
    pub reconnect_delay: Duration,
    /// Extra initial jitter playout delay in frames
    pub jitter_initial_latency_frames: u8,
    /// Set to true when SDS between local and Brew clients is enabled
    pub feature_sds_enabled: bool,
    /// Export RSSI measurements to the Brew server as Service (0xf4) JSON messages.
    pub feature_rssi_export: bool,
    /// If present, restrict Brew call to these remote SSIs
    pub whitelisted_ssis: Option<Vec<u32>>,
    /// Optional PBX gateway ISSIs routable over Brew.
    pub pbx_gateway_issis: Option<Vec<u32>>,
    /// Local TETRA ISSIs allowed to register and originate traffic over this Brew server.
    pub local_issi_allowlist: Option<Vec<u32>>,
    /// Local TETRA ISSIs that must never register or originate traffic over this Brew server.
    pub local_issi_blocklist: Vec<u32>,
    /// Subscriber message type used for deregistration.
    pub subscriber_type_deregister: u8,
    /// Subscriber message type used for first registration.
    pub subscriber_type_register: u8,
    /// Subscriber message type used for re-registration.
    pub subscriber_type_reregister: u8,
    /// Subscriber message type used for group affiliation.
    pub subscriber_type_affiliate: u8,
    /// Subscriber message type used for group de-affiliation.
    pub subscriber_type_deaffiliate: u8,
}

/// The `[brew]` section as read from the configuration file.
#[derive(Debug, Default)]
pub struct CfgBrewDto {
    pub host: String,
    pub port: u16,
    pub tls: bool,
    pub username: u32,
    pub password: String,
    pub reconnect_delay_secs: u64,
    pub jitter_initial_latency_frames: u8,
    pub whitelisted_ssis: Option<Vec<u32>>,
    pub feature_sds_enabled: bool,
    pub feature_rssi_export: bool,
    pub pbx_gateway_issis: Option<Vec<u32>>,
    pub local_issi_allowlist: Option<Vec<u32>>,
    pub local_issi_blocklist: Vec<u32>,
    pub subscriber_type_deregister: u8,
    pub subscriber_type_register: u8,
    pub subscriber_type_reregister: u8,
    pub subscriber_type_affiliate: u8,
    pub subscriber_type_deaffiliate: u8,
    pub extra_keys: Vec<String>,
}

/// The allowlist entries that the blocklist does not remove, in order.
pub open spec fn effective_allowlist(allow: Seq<u32>, block: Seq<u32>) -> Seq<u32> {
    allow.filter(|issi: u32| !block.contains(issi))
}

fn vec_contains(v: &Vec<u32>, x: u32) -> (r: bool)
    ensures
        r == v@.contains(x),
{
    let mut i: usize = 0;
    while i < v.len()
        invariant
            i <= v.len(),
            forall|k: int| 0 <= k < i ==> v@[k] != x,
        decreases v.len() - i,
    {
        if v[i] == x {
            assert(v@[i as int] == x);
            return true;
        }
        i = i + 1;
    }
    false
}

impl CfgBrew {
    /// Whether a non-empty local ISSI allowlist is configured.
    pub fn has_local_issi_allowlist(&self) -> (r: bool)
        ensures
            r == (self.local_issi_allowlist matches Some(l) && l@.len() > 0),
    {
        match &self.local_issi_allowlist {
            Some(l) => l.len() > 0,
            None => false,
        }
    }

    /// Whether the local ISSI `issi` may register and originate traffic over
    /// this Brew server: not blocked, and allowed when an allowlist is set.
    pub fn local_issi_allowed(&self, issi: u32) -> (r: bool)
        ensures
            r == (!self.local_issi_blocklist@.contains(issi) && match self.local_issi_allowlist {
                Some(l) => l@.contains(issi),
                None => true,
            }),
    {
        if vec_contains(&self.local_issi_blocklist, issi) {
            return false;
        }
        match &self.local_issi_allowlist {
            Some(l) => vec_contains(l, issi),
            None => true,
        }
    }

    /// The allowlist without the blocked ISSIs, if an allowlist is set.
    pub fn effective_local_issi_allowlist(&self) -> (r: Option<Vec<u32>>)
        ensures
            match self.local_issi_allowlist {
                Some(l) => r matches Some(e) && e@ == effective_allowlist(
                    l@,
                    self.local_issi_blocklist@,
                ),
                None => r is None,
            },
    {
        match &self.local_issi_allowlist {
            Some(allow) => {
                let mut out: Vec<u32> = Vec::new();
                let mut i: usize = 0;
                while i < allow.len()
                    invariant
                        i <= allow.len(),
                        out@ == effective_allowlist(allow@.take(i as int), self.local_issi_blocklist@),
                    decreases allow.len() - i,
                {
                    reveal_with_fuel(Seq::<_>::filter, 1);
                    assert(allow@.take(i + 1).drop_last() =~= allow@.take(i as int));
                    if !vec_contains(&self.local_issi_blocklist, allow[i]) {
                        out.push(allow[i]);
                    }
                    i = i + 1;
                }
                assert(allow@.take(allow.len() as int) =~= allow@);
                Some(out)
            },
            None => None,
        }
    }
}

pub fn default_brew_port() -> (r: u16)
    ensures
        r == 443,
{
    443
}

pub fn default_brew_reconnect_delay() -> (r: u64)
    ensures
        r == 15,
{
    15
}

pub fn default_brew_feature_sds_enabled() -> (r: bool)
    ensures
        r,
{
    true
}

pub fn default_subscriber_type_deregister() -> (r: u8)
    ensures
        r == 0,
{
    0
}

pub fn default_subscriber_type_register() -> (r: u8)
    ensures
        r == 1,
{
    1
}

pub fn default_subscriber_type_reregister() -> (r: u8)
    ensures
        r == 2,
{
    2
}

pub fn default_subscriber_type_affiliate() -> (r: u8)
    ensures
        r == 8,
{
    8
}

pub fn default_subscriber_type_deaffiliate() -> (r: u8)
    ensures
        r == 9,
{
    9
}

/// Convert a `[brew]` section into the Brew configuration of the stack.
pub fn apply_brew_patch(src: CfgBrewDto) -> (r: CfgBrew)
    ensures
        r.host == src.host,
        r.port == src.port,
        r.tls == src.tls,
        r.username matches Some(u) && u@ == dec_seq(src.username as nat),
        r.password matches Some(p) && p.val == src.password,
        r.reconnect_delay == duration_of_secs(src.reconnect_delay_secs),
        r.jitter_initial_latency_frames == src.jitter_initial_latency_frames,
        r.feature_sds_enabled == src.feature_sds_enabled,
        r.feature_rssi_export == src.feature_rssi_export,
        r.whitelisted_ssis == src.whitelisted_ssis,
        r.pbx_gateway_issis == src.pbx_gateway_issis,
        r.local_issi_allowlist == src.local_issi_allowlist,
        r.local_issi_blocklist == src.local_issi_blocklist,
        r.subscriber_type_deregister == src.subscriber_type_deregister,
        r.subscriber_type_register == src.subscriber_type_register,
        r.subscriber_type_reregister == src.subscriber_type_reregister,
        r.subscriber_type_affiliate == src.subscriber_type_affiliate,
        r.subscriber_type_deaffiliate == src.subscriber_type_deaffiliate,
{
    CfgBrew {
        host: src.host,
        port: src.port,
        tls: src.tls,
        username: Some(dec_string(src.username as u64)),
        password: Some(SecretField::new(src.password)),
        reconnect_delay: seconds(src.reconnect_delay_secs),
        jitter_initial_latency_frames: src.jitter_initial_latency_frames,
        feature_sds_enabled: src.feature_sds_enabled,
        feature_rssi_export: src.feature_rssi_export,
        whitelisted_ssis: src.whitelisted_ssis,
        pbx_gateway_issis: src.pbx_gateway_issis,
        local_issi_allowlist: src.local_issi_allowlist,
        local_issi_blocklist: src.local_issi_blocklist,
        subscriber_type_deregister: src.subscriber_type_deregister,
        subscriber_type_register: src.subscriber_type_register,
        subscriber_type_reregister: src.subscriber_type_reregister,
        subscriber_type_affiliate: src.subscriber_type_affiliate,
        subscriber_type_deaffiliate: src.subscriber_type_deaffiliate,
    }
}

} // verus!
