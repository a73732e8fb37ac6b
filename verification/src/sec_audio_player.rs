//! Local audio dispatch configuration: managed media directories, read-only
//! shares and the TETRA identities and RF guard times used for playback.
use vstd::prelude::*;
use crate::text::{
    lemma_trim_noop,
    chars_of, concat, debug_list, debug_string_list, dec_seq, dec_string, is_alnum, lit,
    lower_seq, push_str, sorted_set, sorted_set_seq, trim, trim_lower, trim_seq,
};

verus! {

/// Read-only external media source mounted by the operating system.
#[derive(Debug, Clone)]
pub struct CfgAudioShare {
    /// Stable identifier used by the dashboard/API.
    pub id: String,
    /// Human-readable label shown in the media browser.
    pub name: String,
    /// Absolute local mount path, for example `/mnt/nfs-share`.
    pub path: String,
}

/// Local audio dispatch configuration.
#[derive(Debug, Clone)]
pub struct CfgAudioPlayer {
    /// Instantiate the audio-player entity and dashboard API.
    pub enabled: bool,
    /// Root directory for locally managed WAV/MP3 files.
    pub directory: String,
    /// Local staging directory used before decoding files from network shares.
    pub cache_directory: String,
    /// Additional read-only media roots mounted by the operating system.
    pub shares: Vec<CfgAudioShare>,
    /// TETRA identity displayed as the network-side source of generated calls.
    pub source_issi: u32,
    /// Default TETRA call priority used when the UI does not override it.
    pub default_priority: u8,
    /// Reject source files larger than this value.
    pub max_file_size_mb: u64,
    /// Reject or truncate decoded audio beyond this duration.
    pub max_duration_seconds: u32,
    /// Number of encoded silence blocks sent before the source audio starts.
    pub lead_in_silence_blocks: u8,
    /// Number of encoded silence blocks appended before call release.
    pub tail_silence_blocks: u8,
    /// Keep a completed group dispatch busy until CMCE hangtime has fully expired.
    pub group_release_guard_seconds: u32,
    /// Maximum time to wait for an individual subscriber to answer.
    pub individual_answer_timeout_seconds: u32,
    /// ffmpeg executable used for MP3 and non-native WAV conversion.
    pub ffmpeg_path: String,
}

/// One `[[audio_player.shares]]` entry as read from the configuration file.
/// `extra_keys` holds the distinct names of keys that no field takes.
#[derive(Debug)]
pub struct CfgAudioShareDto {
    pub id: String,
    pub name: String,
    pub path: String,
    pub extra_keys: Vec<String>,
}

/// The `[audio_player]` section as read from the configuration file.
#[derive(Debug)]
pub struct CfgAudioPlayerDto {
    pub enabled: bool,
    pub directory: String,
    pub cache_directory: String,
    pub shares: Vec<CfgAudioShareDto>,
    pub source_issi: u32,
    pub default_priority: u8,
    pub max_file_size_mb: u64,
    pub max_duration_seconds: u32,
    pub lead_in_silence_blocks: u8,
    pub tail_silence_blocks: u8,
    pub group_release_guard_seconds: u32,
    pub individual_answer_timeout_seconds: u32,
    pub ffmpeg_path: String,
    pub extra_keys: Vec<String>,
}

pub fn default_directory() -> (r: String)
    ensures
        r@ == "/var/lib/netcore/audio"@,
{
    lit("/var/lib/netcore/audio")
}

pub fn default_cache_directory() -> (r: String)
    ensures
        r@ == "/var/cache/netcore/audio"@,
{
    lit("/var/cache/netcore/audio")
}

pub fn default_source_issi() -> (r: u32)
    ensures
        r == 4_010_099,
{
    4_010_099
}

pub fn default_priority() -> (r: u8)
    ensures
        r == 5,
{
    5
}

pub fn default_max_file_size_mb() -> (r: u64)
    ensures
        r == 100,
{
    100
}

pub fn default_max_duration_seconds() -> (r: u32)
    ensures
        r == 1_800,
{
    1_800
}

pub fn default_lead_in_silence_blocks() -> (r: u8)
    ensures
        r == 12,
{
    12
}

pub fn default_tail_silence_blocks() -> (r: u8)
    ensures
        r == 3,
{
    3
}

pub fn default_group_release_guard_seconds() -> (r: u32)
    ensures
        r == 6,
{
    6
}

pub fn default_individual_answer_timeout_seconds() -> (r: u32)
    ensures
        r == 30,
{
    30
}

pub fn default_ffmpeg_path() -> (r: String)
    ensures
        r@ == "ffmpeg"@,
{
    lit("ffmpeg")
}

impl Default for CfgAudioPlayerDto {
    fn default() -> (r: CfgAudioPlayerDto)
        ensures
            !r.enabled,
            r.directory@ == "/var/lib/netcore/audio"@,
            r.cache_directory@ == "/var/cache/netcore/audio"@,
            r.shares@.len() == 0,
            r.source_issi == 4_010_099,
            r.default_priority == 5,
            r.max_file_size_mb == 100,
            r.max_duration_seconds == 1_800,
            r.lead_in_silence_blocks == 12,
            r.tail_silence_blocks == 3,
            r.group_release_guard_seconds == 6,
            r.individual_answer_timeout_seconds == 30,
            r.ffmpeg_path@ == "ffmpeg"@,
            r.extra_keys@.len() == 0,
    {
        CfgAudioPlayerDto {
            enabled: false,
            directory: default_directory(),
            cache_directory: default_cache_directory(),
            shares: Vec::new(),
            source_issi: default_source_issi(),
            default_priority: default_priority(),
            max_file_size_mb: default_max_file_size_mb(),
            max_duration_seconds: default_max_duration_seconds(),
            lead_in_silence_blocks: default_lead_in_silence_blocks(),
            tail_silence_blocks: default_tail_silence_blocks(),
            group_release_guard_seconds: default_group_release_guard_seconds(),
            individual_answer_timeout_seconds: default_individual_answer_timeout_seconds(),
            ffmpeg_path: default_ffmpeg_path(),
            extra_keys: Vec::new(),
        }
    }
}

/// Why `value` is refused as an absolute directory named `field`, if it is.
/// A path is absolute on the Unix targets of this station when it starts with `/`.
pub open spec fn abs_dir_error(value: Seq<char>, field: Seq<char>) -> Option<Seq<char>> {
    if value.len() == 0 {
        Some("audio_player: "@ + field + " cannot be empty"@)
    } else if value[0] != '/' {
        Some("audio_player: "@ + field + " must be an absolute path"@)
    } else {
        None
    }
}

fn validate_absolute_directory(value: &str, field: &str) -> (r: Result<(), String>)
    ensures
        match r {
            Ok(()) => abs_dir_error(value@, field@) is None,
            Err(e) => abs_dir_error(value@, field@) == Some(e@),
        },
{
    let v = chars_of(value);
    if v.len() == 0 {
        let mut e = concat("audio_player: ", field);
        push_str(&mut e, " cannot be empty");
        return Err(e);
    }
    if v[0] != '/' {
        let mut e = concat("audio_player: ", field);
        push_str(&mut e, " must be an absolute path");
        return Err(e);
    }
    Ok(())
}

/// Identifier rules for a media source: 1 to 48 characters, each an ASCII
/// letter or digit or one of `-`, `_`, `.`.
pub open spec fn valid_source_id_seq(v: Seq<char>) -> bool {
    &&& 0 < v.len() <= 48
    &&& forall|i: int|
        0 <= i < v.len() ==> is_alnum(#[trigger] v[i]) || v[i] == '-' || v[i] == '_' || v[i]
            == '.'
}

fn valid_source_id(value: &str) -> (r: bool)
    ensures
        r == valid_source_id_seq(value@),
{
    let v = chars_of(value);
    if v.len() == 0 || v.len() > 48 {
        return false;
    }
    let mut i: usize = 0;
    while i < v.len()
        invariant
            v@ == value@,
            i <= v.len(),
            forall|k: int|
                0 <= k < i ==> is_alnum(#[trigger] v@[k]) || v@[k] == '-' || v@[k] == '_'
                    || v@[k] == '.',
        decreases v.len() - i,
    {
        let c = v[i];
        let ok = ('0' <= c && c <= '9') || ('a' <= c && c <= 'z') || ('A' <= c && c <= 'Z')
            || c == '-' || c == '_' || c == '.';
        if !ok {
            return false;
        }
        i = i + 1;
    }
    true
}

/// The identifier of share `i` after trimming and lower-casing.
pub open spec fn share_id(shares: Seq<CfgAudioShareDto>, i: int) -> Seq<char> {
    lower_seq(trim_seq(shares[i].id@))
}

/// `shares[<i>]`.
pub open spec fn share_label(i: int) -> Seq<char> {
    "shares["@ + dec_seq(i as nat) + "]"@
}

/// Why share `i` is refused, given that the shares before it were accepted.
pub open spec fn share_error(shares: Seq<CfgAudioShareDto>, i: int) -> Option<Seq<char>> {
    let id = share_id(shares, i);
    if shares[i].extra_keys@.len() > 0 {
        Some(
            "audio_player: unrecognized fields in "@ + share_label(i) + ": "@ + debug_string_list(
                sorted_set_seq(shares[i].extra_keys.deep_view()),
            ),
        )
    } else if !valid_source_id_seq(id) {
        Some(
            "audio_player: "@ + share_label(i)
                + ".id must contain only letters, numbers, '.', '-' or '_'"@,
        )
    } else if id == "local"@ || exists|j: int| 0 <= j < i && #[trigger] share_id(shares, j) == id {
        Some("audio_player: duplicate media-source id '"@ + id + "'"@)
    } else if trim_seq(shares[i].name@).len() == 0 {
        Some("audio_player: "@ + share_label(i) + ".name cannot be empty"@)
    } else {
        abs_dir_error(trim_seq(shares[i].path@), share_label(i) + ".path"@)
    }
}

/// The first refused share among `shares[i..]`.
pub open spec fn shares_error(shares: Seq<CfgAudioShareDto>, i: int) -> Option<Seq<char>>
    decreases shares.len() - i,
{
    if i < 0 || i >= shares.len() {
        None
    } else if share_error(shares, i) is Some {
        share_error(shares, i)
    } else {
        shares_error(shares, i + 1)
    }
}

/// The first reason for which an `[audio_player]` section is refused, if any.
pub open spec fn audio_player_patch_error(src: CfgAudioPlayerDto) -> Option<Seq<char>> {
    let dir = trim_seq(src.directory@);
    let cache = trim_seq(src.cache_directory@);
    if abs_dir_error(dir, "directory"@) is Some {
        abs_dir_error(dir, "directory"@)
    } else if abs_dir_error(cache, "cache_directory"@) is Some {
        abs_dir_error(cache, "cache_directory"@)
    } else if src.source_issi == 0 || src.source_issi > 0x00ff_ffff {
        Some("audio_player: source_issi must be a valid 24-bit ISSI"@)
    } else if src.default_priority > 15 {
        Some("audio_player: default_priority must be 0-15"@)
    } else if src.max_file_size_mb == 0 {
        Some("audio_player: max_file_size_mb must be greater than zero"@)
    } else if src.max_duration_seconds == 0 {
        Some("audio_player: max_duration_seconds must be greater than zero"@)
    } else if src.lead_in_silence_blocks > 40 {
        Some("audio_player: lead_in_silence_blocks must be 0-40"@)
    } else if src.tail_silence_blocks > 20 {
        Some("audio_player: tail_silence_blocks must be 0-20"@)
    } else if !(5 <= src.group_release_guard_seconds <= 30) {
        Some("audio_player: group_release_guard_seconds must be 5-30"@)
    } else if src.individual_answer_timeout_seconds == 0 {
        Some("audio_player: individual_answer_timeout_seconds must be greater than zero"@)
    } else if trim_seq(src.ffmpeg_path@).len() == 0 {
        Some("audio_player: ffmpeg_path cannot be empty"@)
    } else {
        shares_error(src.shares@, 0)
    }
}

/// The share that an accepted share entry yields.
pub open spec fn share_from_dto(s: CfgAudioShareDto, c: CfgAudioShare) -> bool {
    &&& c.id@ == lower_seq(trim_seq(s.id@))
    &&& c.name@ == trim_seq(s.name@)
    &&& c.path@ == trim_seq(s.path@)
}

/// The configuration that an accepted `[audio_player]` section yields.
pub open spec fn audio_player_from_dto(src: CfgAudioPlayerDto, cfg: CfgAudioPlayer) -> bool {
    &&& cfg.enabled == src.enabled
    &&& cfg.directory@ == trim_seq(src.directory@)
    &&& cfg.cache_directory@ == trim_seq(src.cache_directory@)
    &&& cfg.shares@.len() == src.shares@.len()
    &&& forall|i: int|
        0 <= i < src.shares@.len() ==> share_from_dto(#[trigger] src.shares@[i], cfg.shares@[i])
    &&& cfg.source_issi == src.source_issi
    &&& cfg.default_priority == src.default_priority
    &&& cfg.max_file_size_mb == src.max_file_size_mb
    &&& cfg.max_duration_seconds == src.max_duration_seconds
    &&& cfg.lead_in_silence_blocks == src.lead_in_silence_blocks
    &&& cfg.tail_silence_blocks == src.tail_silence_blocks
    &&& cfg.group_release_guard_seconds == src.group_release_guard_seconds
    &&& cfg.individual_answer_timeout_seconds == src.individual_answer_timeout_seconds
    &&& cfg.ffmpeg_path@ == trim_seq(src.ffmpeg_path@)
}

proof fn lemma_shares_error_prefix(shares: Seq<CfgAudioShareDto>, i: int)
    requires
        0 <= i <= shares.len(),
        forall|j: int| 0 <= j < i ==> share_error(shares, j) is None,
    ensures
        shares_error(shares, 0) == shares_error(shares, i),
    decreases i,
{
    if i > 0 {
        lemma_shares_error_prefix(shares, i - 1);
    }
}

fn share_label_exec(i: usize) -> (r: String)
    ensures
        r@ == share_label(i as int),
{
    let mut s = lit("shares[");
    let d = dec_string(i as u64);
    push_str(&mut s, d.as_str());
    push_str(&mut s, "]");
    s
}

/// Checks an `[audio_player]` section and builds the audio dispatch configuration from it.
pub fn apply_audio_player_patch(src: CfgAudioPlayerDto) -> (r: Result<CfgAudioPlayer, String>)
    ensures
        match r {
            Ok(cfg) => audio_player_patch_error(src) is None && audio_player_from_dto(src, cfg),
            Err(e) => audio_player_patch_error(src) == Some(e@),
        },
{
    let directory = trim(src.directory.as_str());
    let cache_directory = trim(src.cache_directory.as_str());
    let ffmpeg_path = trim(src.ffmpeg_path.as_str());
    match validate_absolute_directory(directory.as_str(), "directory") {
        Ok(()) => {},
        Err(e) => {
            return Err(e);
        },
    }
    match validate_absolute_directory(cache_directory.as_str(), "cache_directory") {
        Ok(()) => {},
        Err(e) => {
            return Err(e);
        },
    }
    if src.source_issi == 0 || src.source_issi > 0x00ff_ffff {
        return Err(lit("audio_player: source_issi must be a valid 24-bit ISSI"));
    }
    if src.default_priority > 15 {
        return Err(lit("audio_player: default_priority must be 0-15"));
    }
    if src.max_file_size_mb == 0 {
        return Err(lit("audio_player: max_file_size_mb must be greater than zero"));
    }
    if src.max_duration_seconds == 0 {
        return Err(lit("audio_player: max_duration_seconds must be greater than zero"));
    }
    if src.lead_in_silence_blocks > 40 {
        return Err(lit("audio_player: lead_in_silence_blocks must be 0-40"));
    }
    if src.tail_silence_blocks > 20 {
        return Err(lit("audio_player: tail_silence_blocks must be 0-20"));
    }
    if !(5 <= src.group_release_guard_seconds && src.group_release_guard_seconds <= 30) {
        return Err(lit("audio_player: group_release_guard_seconds must be 5-30"));
    }
    if src.individual_answer_timeout_seconds == 0 {
        return Err(lit("audio_player: individual_answer_timeout_seconds must be greater than zero"));
    }
    if ffmpeg_path.as_str().is_empty() {
        return Err(lit("audio_player: ffmpeg_path cannot be empty"));
    }
    assert(audio_player_patch_error(src) == shares_error(src.shares@, 0));
    let mut ids: Vec<String> = Vec::new();
    let mut shares: Vec<CfgAudioShare> = Vec::new();
    let mut index: usize = 0;
    while index < src.shares.len()
        invariant
            index <= src.shares@.len(),
            audio_player_patch_error(src) == shares_error(src.shares@, 0),
            shares@.len() == index,
            ids@.len() == index,
            forall|j: int| 0 <= j < index ==> #[trigger] ids@[j]@ == share_id(src.shares@, j),
            forall|j: int| 0 <= j < index ==> share_error(src.shares@, j) is None,
            forall|j: int| 0 <= j < index ==> share_from_dto(#[trigger] src.shares@[j], shares@[j]),
        decreases src.shares@.len() - index,
    {
        let share = &src.shares[index];
        let id = trim_lower(share.id.as_str());
        let name = trim(share.name.as_str());
        let path = trim(share.path.as_str());
        assert(id@ == share_id(src.shares@, index as int));
        if share.extra_keys.len() > 0 {
            let keys = sorted_set(&share.extra_keys);
            let mut e = lit("audio_player: unrecognized fields in ");
            let label = share_label_exec(index);
            push_str(&mut e, label.as_str());
            push_str(&mut e, ": ");
            let d = debug_list(&keys);
            push_str(&mut e, d.as_str());
            proof {
                lemma_shares_error_prefix(src.shares@, index as int);
            }
            return Err(e);
        }
        if !valid_source_id(id.as_str()) {
            let mut e = lit("audio_player: ");
            let label = share_label_exec(index);
            push_str(&mut e, label.as_str());
            push_str(&mut e, ".id must contain only letters, numbers, '.', '-' or '_'");
            proof {
                lemma_shares_error_prefix(src.shares@, index as int);
            }
            return Err(e);
        }
        let mut taken = crate::text::str_eq(id.as_str(), "local");
        let mut k: usize = 0;
        while k < ids.len() && !taken
            invariant
                k <= ids@.len(),
                ids@.len() == index,
                forall|j: int| 0 <= j < index ==> #[trigger] ids@[j]@ == share_id(src.shares@, j),
                taken ==> (id@ == "local"@ || exists|j: int|
                    0 <= j < index && #[trigger] share_id(src.shares@, j) == id@),
                !taken ==> id@ != "local"@ && forall|j: int|
                    0 <= j < k ==> #[trigger] share_id(src.shares@, j) != id@,
            decreases ids@.len() - k,
        {
            if crate::text::str_eq(ids[k].as_str(), id.as_str()) {
                assert(share_id(src.shares@, k as int) == id@);
                taken = true;
            }
            k = k + 1;
        }
        if taken {
            let mut e = lit("audio_player: duplicate media-source id '");
            push_str(&mut e, id.as_str());
            push_str(&mut e, "'");
            proof {
                lemma_shares_error_prefix(src.shares@, index as int);
            }
            return Err(e);
        }
        if name.as_str().is_empty() {
            let mut e = lit("audio_player: ");
            let label = share_label_exec(index);
            push_str(&mut e, label.as_str());
            push_str(&mut e, ".name cannot be empty");
            proof {
                lemma_shares_error_prefix(src.shares@, index as int);
            }
            return Err(e);
        }
        let label = share_label_exec(index);
        let field = concat(label.as_str(), ".path");
        match validate_absolute_directory(path.as_str(), field.as_str()) {
            Ok(()) => {},
            Err(e) => {
                proof {
                    lemma_shares_error_prefix(src.shares@, index as int);
                }
                return Err(e);
            },
        }
        assert(share_error(src.shares@, index as int) is None);
        ids.push(id.clone());
        shares.push(CfgAudioShare { id, name, path });
        index = index + 1;
    }
    proof {
        lemma_shares_error_prefix(src.shares@, src.shares@.len() as int);
    }
    Ok(CfgAudioPlayer {
        enabled: src.enabled,
        directory,
        cache_directory,
        shares,
        source_issi: src.source_issi,
        default_priority: src.default_priority,
        max_file_size_mb: src.max_file_size_mb,
        max_duration_seconds: src.max_duration_seconds,
        lead_in_silence_blocks: src.lead_in_silence_blocks,
        tail_silence_blocks: src.tail_silence_blocks,
        group_release_guard_seconds: src.group_release_guard_seconds,
        individual_answer_timeout_seconds: src.individual_answer_timeout_seconds,
        ffmpeg_path,
    })
}

impl Default for CfgAudioPlayer {
    /// The audio dispatch configuration of an `[audio_player]` section that sets
    /// nothing: disabled, with the default directories and no shares.
    fn default() -> (r: CfgAudioPlayer)
        ensures
            !r.enabled,
            r.directory@ == "/var/lib/netcore/audio"@,
            r.cache_directory@ == "/var/cache/netcore/audio"@,
            r.shares@.len() == 0,
            r.source_issi == 4_010_099,
            r.default_priority == 5,
            r.max_file_size_mb == 100,
            r.max_duration_seconds == 1_800,
            r.lead_in_silence_blocks == 12,
            r.tail_silence_blocks == 3,
            r.group_release_guard_seconds == 6,
            r.individual_answer_timeout_seconds == 30,
            r.ffmpeg_path@ == "ffmpeg"@,
    {
        let dto = CfgAudioPlayerDto::default();
        proof {
            reveal_strlit("/var/lib/netcore/audio");
            reveal_strlit("/var/cache/netcore/audio");
            reveal_strlit("ffmpeg");
            lemma_trim_noop("/var/lib/netcore/audio"@);
            lemma_trim_noop("/var/cache/netcore/audio"@);
            lemma_trim_noop("ffmpeg"@);
        }
        apply_audio_player_patch(dto).unwrap()
    }
}

} // verus!
