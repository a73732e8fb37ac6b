//! NetCore Directory runtime export configuration.
use vstd::prelude::*;
use std::time::Duration;
use crate::text::{lit, starts_with_seq, trim, trim_end_char_seq, trim_seq, trim_then_strip_end};
use crate::timing::{duration_of_millis, millis};

verus! {

/// NetCore Directory / SwMI-Light runtime export configuration: publishes the
/// BS runtime state to the local NetCore Directory server over HTTP/JSON.
#[derive(Debug)]
pub struct CfgDirectory {
    /// Master switch for publishing live BS/runtime data to NetCore Directory.
    pub enabled: bool,
    /// Base URL of the Directory server, e.g. http://127.0.0.1:8095.
    pub base_url: String,
    /// Source label written into Directory rows (usually the station name).
    pub source: String,
    /// ISSI used to identify this base station/control endpoint in Directory rows.
    pub bs_issi: u32,
    /// HTTP request timeout.
    pub timeout: Duration,
    /// Publish registration / deregistration / group / RSSI information.
    pub publish_presence: bool,
    /// Publish U-STATUS / Directory status labels into the live status board.
    pub publish_status: bool,
    /// Publish group and individual call start/end rows into CDR.
    pub publish_cdr: bool,
    /// Publish emergency enter/cancel events.
    pub publish_emergencies: bool,
    /// Publish health snapshots / host and SDR health as health-events.
    pub publish_health: bool,
    /// Publish SDS activity as lightweight CDR/activity rows.
    pub publish_sds_activity: bool,
    /// Publish decoded LIP/APRS positions.
    pub publish_positions: bool,
    /// Consult `/api/policy-check` before local-originated SDS and call setup.
    pub enforce_policies: bool,
    /// Deny traffic when the policy check fails or is unreachable.
    pub policy_fail_closed: bool,
}

/// The `[netcore_directory]` section as read from the configuration file.
#[derive(Debug)]
pub struct CfgDirectoryDto {
    pub enabled: bool,
    pub base_url: String,
    pub source: String,
    pub bs_issi: u32,
    pub timeout_ms: u64,
    pub publish_presence: bool,
    pub publish_status: bool,
    pub publish_cdr: bool,
    pub publish_emergencies: bool,
    pub publish_health: bool,
    pub publish_sds_activity: bool,
    pub publish_positions: bool,
    pub enforce_policies: bool,
    pub policy_fail_closed: bool,
    pub extra_keys: Vec<String>,
}

pub fn default_true() -> (r: bool)
    ensures
        r,
{
    true
}

pub fn default_directory_base_url() -> (r: String)
    ensures
        r@ == "http://127.0.0.1:8095"@,
{
    lit("http://127.0.0.1:8095")
}

pub fn default_directory_source() -> (r: String)
    ensures
        r@ == "bluestation-bs"@,
{
    lit("bluestation-bs")
}

pub fn default_directory_bs_issi() -> (r: u32)
    ensures
        r == 4010001,
{
    4010001
}

pub fn default_directory_timeout_ms() -> (r: u64)
    ensures
        r == 1500,
{
    1500
}

impl Default for CfgDirectoryDto {
    fn default() -> (r: CfgDirectoryDto)
        ensures
            !r.enabled,
            r.base_url@ == "http://127.0.0.1:8095"@,
            r.source@ == "bluestation-bs"@,
            r.bs_issi == 4010001,
            r.timeout_ms == 1500,
            r.publish_presence && r.publish_status && r.publish_cdr && r.publish_emergencies,
            r.publish_health && r.publish_sds_activity && r.publish_positions,
            !r.enforce_policies && !r.policy_fail_closed,
            r.extra_keys@.len() == 0,
    {
        CfgDirectoryDto {
            enabled: false,
            base_url: default_directory_base_url(),
            source: default_directory_source(),
            bs_issi: default_directory_bs_issi(),
            timeout_ms: default_directory_timeout_ms(),
            publish_presence: default_true(),
            publish_status: default_true(),
            publish_cdr: default_true(),
            publish_emergencies: default_true(),
            publish_health: default_true(),
            publish_sds_activity: default_true(),
            publish_positions: default_true(),
            enforce_policies: false,
            policy_fail_closed: false,
            extra_keys: Vec::new(),
        }
    }
}

/// The base URL that a section gives: the default when blank, otherwise
/// trimmed and without trailing slashes.
pub open spec fn directory_base_url(src: CfgDirectoryDto) -> Seq<char> {
    if trim_seq(src.base_url@).len() == 0 {
        "http://127.0.0.1:8095"@
    } else {
        trim_end_char_seq(trim_seq(src.base_url@), '/')
    }
}

/// The first reason for which a `[netcore_directory]` section is refused, if any.
pub open spec fn directory_patch_error(src: CfgDirectoryDto) -> Option<Seq<char>> {
    let base = directory_base_url(src);
    if src.enabled && !(starts_with_seq(base, "http://"@) || starts_with_seq(base, "https://"@)) {
        Some("netcore_directory: base_url must start with http:// or https://"@)
    } else {
        None
    }
}

/// `v` brought into `lo..=hi`.
pub open spec fn clamp_ms(v: u64, lo: u64, hi: u64) -> u64 {
    if v < lo { lo } else if v > hi { hi } else { v }
}

/// The export configuration that an accepted `[netcore_directory]` section yields.
pub open spec fn directory_from_dto(src: CfgDirectoryDto, cfg: CfgDirectory) -> bool {
    &&& cfg.enabled == src.enabled
    &&& cfg.base_url@ == directory_base_url(src)
    &&& cfg.source@ == (if trim_seq(src.source@).len() == 0 {
        "bluestation-bs"@
    } else {
        trim_seq(src.source@)
    })
    &&& cfg.bs_issi == (if src.bs_issi == 0 { 4010001 } else { src.bs_issi })
    &&& cfg.timeout == duration_of_millis(clamp_ms(src.timeout_ms, 250, 10_000))
    &&& cfg.publish_presence == src.publish_presence
    &&& cfg.publish_status == src.publish_status
    &&& cfg.publish_cdr == src.publish_cdr
    &&& cfg.publish_emergencies == src.publish_emergencies
    &&& cfg.publish_health == src.publish_health
    &&& cfg.publish_sds_activity == src.publish_sds_activity
    &&& cfg.publish_positions == src.publish_positions
    &&& cfg.enforce_policies == src.enforce_policies
    &&& cfg.policy_fail_closed == src.policy_fail_closed
}

/// Checks a `[netcore_directory]` section and builds the export configuration from it.
pub fn apply_directory_patch(src: CfgDirectoryDto) -> (r: Result<CfgDirectory, String>)
    ensures
        match r {
            Ok(cfg) => directory_patch_error(src) is None && directory_from_dto(src, cfg),
            Err(e) => directory_patch_error(src) == Some(e@),
        },
{
    let trimmed = trim(src.base_url.as_str());
    let base_url = if trimmed.as_str().is_empty() {
        default_directory_base_url()
    } else {
        trim_then_strip_end(src.base_url.as_str(), '/')
    };
    if src.enabled && !(crate::text::starts_with(base_url.as_str(), "http://")
        || crate::text::starts_with(base_url.as_str(), "https://")) {
        return Err(lit("netcore_directory: base_url must start with http:// or https://"));
    }
    let source_t = trim(src.source.as_str());
    let source = if source_t.as_str().is_empty() {
        default_directory_source()
    } else {
        source_t
    };
    let t = src.timeout_ms;
    let timeout_ms = if t < 250 { 250 } else if t > 10_000 { 10_000 } else { t };
    Ok(CfgDirectory {
        enabled: src.enabled,
        base_url,
        source,
        bs_issi: if src.bs_issi == 0 { default_directory_bs_issi() } else { src.bs_issi },
        timeout: millis(timeout_ms),
        publish_presence: src.publish_presence,
        publish_status: src.publish_status,
        publish_cdr: src.publish_cdr,
        publish_emergencies: src.publish_emergencies,
        publish_health: src.publish_health,
        publish_sds_activity: src.publish_sds_activity,
        publish_positions: src.publish_positions,
        enforce_policies: src.enforce_policies,
        policy_fail_closed: src.policy_fail_closed,
    })
}

} // verus!
