//! Bidirectional Base Station ↔ Media Library integration.
use vstd::prelude::*;
use crate::text::{chars_of, is_alnum, lit, starts_with, starts_with_seq, trim, trim_end_char_seq, trim_seq, trim_then_strip_end};

verus! {

/// Bidirectional Base Station ↔ Media Library integration.
#[derive(Debug, Clone)]
pub struct CfgMediaLibrary {
    /// Master switch for the integration.
    pub enabled: bool,
    /// Media Library HTTP base URL, for example `http://10.0.1.154:8230`.
    pub base_url: String,
    /// Stable station label written into tags and audit actor fields.
    pub station_id: String,
    /// Publish completed local recordings to the Media Library.
    pub publish_recordings: bool,
    /// Publicly reachable base URL of this base station dashboard/export endpoint.
    pub recording_source_base_url: String,
    /// Let newly imported recordings immediately appear as approved assets.
    pub auto_approve_recordings: bool,
    /// Expose the Media Library as a source in the Audio Centre.
    pub audio_source_enabled: bool,
    /// Only list assets whose processing state is `ready`.
    pub only_ready: bool,
    /// Only list assets whose approval state is `approved`.
    pub only_approved: bool,
    /// Retry/poll interval for pending recording transfers.
    pub retry_seconds: u64,
    /// Timeout for metadata/API requests.
    pub request_timeout_seconds: u64,
    /// Timeout for media downloads into the local playout cache.
    pub download_timeout_seconds: u64,
    /// Maximum number of assets shown by the base-station media browser.
    pub max_list_entries: usize,
}

/// The `[media_library]` section as read from the configuration file.
#[derive(Debug)]
pub struct CfgMediaLibraryDto {
    pub enabled: bool,
    pub base_url: String,
    pub station_id: String,
    pub publish_recordings: bool,
    pub recording_source_base_url: String,
    pub auto_approve_recordings: bool,
    pub audio_source_enabled: bool,
    pub only_ready: bool,
    pub only_approved: bool,
    pub retry_seconds: u64,
    pub request_timeout_seconds: u64,
    pub download_timeout_seconds: u64,
    pub max_list_entries: usize,
    pub extra_keys: Vec<String>,
}

pub fn default_true() -> (r: bool)
    ensures
        r,
{
    true
}

pub fn default_station_id() -> (r: String)
    ensures
        r@ == "basisstation"@,
{
    lit("basisstation")
}

pub fn default_retry_seconds() -> (r: u64)
    ensures
        r == 60,
{
    60
}

pub fn default_request_timeout_seconds() -> (r: u64)
    ensures
        r == 15,
{
    15
}

pub fn default_download_timeout_seconds() -> (r: u64)
    ensures
        r == 120,
{
    120
}

pub fn default_max_list_entries() -> (r: usize)
    ensures
        r == 1_000,
{
    1_000
}

impl Default for CfgMediaLibraryDto {
    fn default() -> (r: CfgMediaLibraryDto)
        ensures
            !r.enabled,
            r.base_url@.len() == 0,
            r.station_id@ == "basisstation"@,
            !r.publish_recordings,
            r.recording_source_base_url@.len() == 0,
            !r.auto_approve_recordings,
            !r.audio_source_enabled,
            r.only_ready,
            r.only_approved,
            r.retry_seconds == 60,
            r.request_timeout_seconds == 15,
            r.download_timeout_seconds == 120,
            r.max_list_entries == 1_000,
            r.extra_keys@.len() == 0,
    {
        CfgMediaLibraryDto {
            enabled: false,
            base_url: String::new(),
            station_id: default_station_id(),
            publish_recordings: false,
            recording_source_base_url: String::new(),
            auto_approve_recordings: false,
            audio_source_enabled: false,
            only_ready: default_true(),
            only_approved: default_true(),
            retry_seconds: default_retry_seconds(),
            request_timeout_seconds: default_request_timeout_seconds(),
            download_timeout_seconds: default_download_timeout_seconds(),
            max_list_entries: default_max_list_entries(),
            extra_keys: Vec::new(),
        }
    }
}

/// A URL that uses `http://` or `https://`.
pub open spec fn valid_http_url_seq(v: Seq<char>) -> bool {
    starts_with_seq(v, "http://"@) || starts_with_seq(v, "https://"@)
}

fn valid_http_url(value: &str) -> (r: bool)
    ensures
        r == valid_http_url_seq(value@),
{
    starts_with(value, "http://") || starts_with(value, "https://")
}

/// A station label: 1 to 96 characters, each an ASCII letter or digit or one
/// of `-`, `_`, `.`, `:`, space.
pub open spec fn valid_station_id_seq(v: Seq<char>) -> bool {
    &&& 0 < v.len() <= 96
    &&& forall|i: int|
        0 <= i < v.len() ==> is_alnum(#[trigger] v[i]) || v[i] == '-' || v[i] == '_' || v[i]
            == '.' || v[i] == ':' || v[i] == ' '
}

fn valid_station_id(value: &str) -> (r: bool)
    ensures
        r == valid_station_id_seq(value@),
{
    let v = chars_of(value);
    if v.len() == 0 || v.len() > 96 {
        return false;
    }
    let mut i: usize = 0;
    while i < v.len()
        invariant
            v@ == value@,
            i <= v.len(),
            forall|k: int|
                0 <= k < i ==> is_alnum(#[trigger] v@[k]) || v@[k] == '-' || v@[k] == '_' || v@[k]
                    == '.' || v@[k] == ':' || v@[k] == ' ',
        decreases v.len() - i,
    {
        let c = v[i];
        let ok = ('0' <= c && c <= '9') || ('a' <= c && c <= 'z') || ('A' <= c && c <= 'Z')
            || c == '-' || c == '_' || c == '.' || c == ':' || c == ' ';
        if !ok {
            return false;
        }
        i = i + 1;
    }
    true
}

/// The first reason for which a `[media_library]` section is refused, if any.
pub open spec fn media_library_patch_error(src: CfgMediaLibraryDto) -> Option<Seq<char>> {
    let base = trim_end_char_seq(trim_seq(src.base_url@), '/');
    let rec = trim_end_char_seq(trim_seq(src.recording_source_base_url@), '/');
    let station = trim_seq(src.station_id@);
    if src.enabled && !valid_http_url_seq(base) {
        Some("media_library: base_url must use http:// or https:// when enabled"@)
    } else if src.enabled && src.publish_recordings && !valid_http_url_seq(rec) {
        Some(
            "media_library: recording_source_base_url must use http:// or https:// when publish_recordings=true"@,
        )
    } else if !valid_station_id_seq(station) {
        Some(
            "media_library: station_id must be 1-96 characters and contain only letters, numbers, space, '.', '-', '_', or ':'"@,
        )
    } else if src.retry_seconds == 0 {
        Some("media_library: retry_seconds must be greater than zero"@)
    } else if src.request_timeout_seconds == 0 {
        Some("media_library: request_timeout_seconds must be greater than zero"@)
    } else if src.download_timeout_seconds == 0 {
        Some("media_library: download_timeout_seconds must be greater than zero"@)
    } else if src.max_list_entries == 0 {
        Some("media_library: max_list_entries must be greater than zero"@)
    } else {
        None
    }
}

/// The integration configuration that an accepted `[media_library]` section yields.
pub open spec fn media_library_from_dto(src: CfgMediaLibraryDto, cfg: CfgMediaLibrary) -> bool {
    &&& cfg.enabled == src.enabled
    &&& cfg.base_url@ == trim_end_char_seq(trim_seq(src.base_url@), '/')
    &&& cfg.station_id@ == trim_seq(src.station_id@)
    &&& cfg.publish_recordings == src.publish_recordings
    &&& cfg.recording_source_base_url@ == trim_end_char_seq(trim_seq(src.recording_source_base_url@), '/')
    &&& cfg.auto_approve_recordings == src.auto_approve_recordings
    &&& cfg.audio_source_enabled == src.audio_source_enabled
    &&& cfg.only_ready == src.only_ready
    &&& cfg.only_approved == src.only_approved
    &&& cfg.retry_seconds == src.retry_seconds
    &&& cfg.request_timeout_seconds == src.request_timeout_seconds
    &&& cfg.download_timeout_seconds == src.download_timeout_seconds
    &&& cfg.max_list_entries == (if src.max_list_entries > 5_000 { 5_000 } else { src.max_list_entries })
}

/// Checks a `[media_library]` section and builds the integration configuration from it.
pub fn apply_media_library_patch(src: CfgMediaLibraryDto) -> (r: Result<CfgMediaLibrary, String>)
    ensures
        match r {
            Ok(cfg) => media_library_patch_error(src) is None && media_library_from_dto(src, cfg),
            Err(e) => media_library_patch_error(src) == Some(e@),
        },
{
    let base_url = trim_then_strip_end(src.base_url.as_str(), '/');
    let recording_source_base_url = trim_then_strip_end(src.recording_source_base_url.as_str(), '/');
    let station_id = trim(src.station_id.as_str());
    if src.enabled && !valid_http_url(base_url.as_str()) {
        return Err(lit("media_library: base_url must use http:// or https:// when enabled"));
    }
    if src.enabled && src.publish_recordings && !valid_http_url(recording_source_base_url.as_str()) {
        return Err(
            lit(
                "media_library: recording_source_base_url must use http:// or https:// when publish_recordings=true",
            ),
        );
    }
    if !valid_station_id(station_id.as_str()) {
        return Err(
            lit(
                "media_library: station_id must be 1-96 characters and contain only letters, numbers, space, '.', '-', '_', or ':'",
            ),
        );
    }
    if src.retry_seconds == 0 {
        return Err(lit("media_library: retry_seconds must be greater than zero"));
    }
    if src.request_timeout_seconds == 0 {
        return Err(lit("media_library: request_timeout_seconds must be greater than zero"));
    }
    if src.download_timeout_seconds == 0 {
        return Err(lit("media_library: download_timeout_seconds must be greater than zero"));
    }
    if src.max_list_entries == 0 {
        return Err(lit("media_library: max_list_entries must be greater than zero"));
    }
    Ok(CfgMediaLibrary {
        enabled: src.enabled,
        base_url,
        station_id,
        publish_recordings: src.publish_recordings,
        recording_source_base_url,
        auto_approve_recordings: src.auto_approve_recordings,
        audio_source_enabled: src.audio_source_enabled,
        only_ready: src.only_ready,
        only_approved: src.only_approved,
        retry_seconds: src.retry_seconds,
        request_timeout_seconds: src.request_timeout_seconds,
        download_timeout_seconds: src.download_timeout_seconds,
        max_list_entries: if src.max_list_entries > 5_000 { 5_000 } else { src.max_list_entries },
    })
}

impl Default for CfgMediaLibrary {
    /// The integration configuration of a `[media_library]` section that sets
    /// nothing: disabled, station `basisstation`.
    fn default() -> (r: CfgMediaLibrary)
        ensures
            !r.enabled,
            !r.publish_recordings,
            !r.audio_source_enabled,
            r.station_id@ == "basisstation"@,
            r.base_url@.len() == 0,
            r.max_list_entries == 1_000,
    {
        let dto = CfgMediaLibraryDto::default();
        proof {
            reveal_strlit("basisstation");
            crate::text::lemma_trim_noop("basisstation"@);
            crate::text::lemma_trim_empty(dto.base_url@);
            crate::text::lemma_trim_empty(dto.recording_source_base_url@);
            assert(trim_end_char_seq(dto.base_url@, '/') == dto.base_url@);
            assert(trim_end_char_seq(dto.recording_source_base_url@, '/') == dto.recording_source_base_url@);
            assert(valid_station_id_seq("basisstation"@));
        }
        apply_media_library_patch(dto).unwrap()
    }
}

} // verus!
