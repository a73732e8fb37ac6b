//! Asterisk SIP/RTP bridge configuration and outbound dial routing.
use vstd::prelude::*;
use crate::secret::SecretField;
use crate::text::{
    is_ws, trim_end_seq, trim_start_seq,
    chars_of, contains_str, lit, opt_view, starts_with_part, starts_with_seq, str_eq, string_of,
    string_of_range, trim, trim_end_char, trim_end_char_seq, trim_seq, trim_upper,
    trimmed_nonempty, trimmed_nonempty_seq, upper_seq,
};

verus! {

/// Asterisk SIP/RTP bridge configuration.
#[derive(Clone)]
pub struct CfgAsterisk {
    pub enabled: bool,
    pub outbound_prefix: String,
    pub strip_outbound_prefix: bool,
    pub inbound_prefix: String,
    pub register: bool,
    pub codec: String,
    pub service_numbers: Vec<String>,
    pub rtp_port_min: u16,
    pub rtp_port_max: u16,
    pub bind_addr: String,
    pub bind_port: u16,
    pub remote_host: String,
    pub remote_port: u16,
    pub contact_host: String,
    pub from_domain: String,
    pub local_user: String,
    pub auth_user: String,
    pub password: SecretField,
    pub realm: String,
    pub options_interval_secs: u64,
    /// Timeout for Asterisk-originated calls while waiting for the called TETRA MS to answer D-SETUP.
    pub inbound_setup_timeout_secs: u32,
}

/// The `[asterisk]` section as read from the configuration file. The names of
/// keys that no field takes are kept in `extra_keys`.
pub struct CfgAsteriskDto {
    pub enabled: bool,
    pub outbound_prefix: String,
    pub strip_outbound_prefix: bool,
    pub inbound_prefix: String,
    pub register: bool,
    pub codec: String,
    pub service_numbers: Vec<String>,
    pub rtp_port_min: u16,
    pub rtp_port_max: u16,
    pub bind_addr: String,
    pub bind_port: u16,
    pub remote_host: String,
    pub remote_port: u16,
    pub contact_host: String,
    pub from_domain: String,
    pub local_user: String,
    pub auth_user: String,
    pub password: String,
    pub realm: String,
    pub options_interval_secs: u64,
    pub inbound_setup_timeout_secs: u32,
    pub extra_keys: Vec<String>,
}

/// A `service_numbers` entry that ends in `*` and matches every routed number
/// that begins with what precedes the `*` (a lone `*` matches everything).
pub open spec fn service_pattern_matches(n: Seq<char>, routed: Seq<char>) -> bool {
    ||| n == seq!['*']
    ||| (n.len() > 1 && n.last() == '*' && starts_with_seq(routed, n.drop_last()))
}

/// The SIP user that a TETRA dial string `raw0` is routed to, if any.
pub open spec fn asterisk_route(
    enabled: bool,
    prefix: Seq<char>,
    strip: bool,
    services: Seq<Seq<char>>,
    raw0: Seq<char>,
) -> Option<Seq<char>> {
    let raw = trim_seq(raw0);
    let configured = trim_seq(prefix);
    let wildcard = configured.len() > 0 && configured.last() == '*';
    let outp = trim_end_char_seq(configured, '*');
    let matched = if outp.len() == 0 { wildcard } else { starts_with_seq(raw, outp) };
    let routed = trim_seq(if matched && strip { raw.skip(outp.len() as int) } else { raw });
    if !enabled || raw.len() == 0 || routed.len() == 0 {
        None
    } else if wildcard && matched {
        Some(routed)
    } else if services.len() == 0 {
        if matched { Some(routed) } else { None }
    } else if services.contains(routed) {
        Some(routed)
    } else if (outp.len() == 0 || matched) && exists|i: int|
        0 <= i < services.len() && service_pattern_matches(#[trigger] services[i], routed) {
        Some(routed)
    } else {
        None
    }
}

fn any_service_pattern(services: &Vec<String>, routed: &Vec<char>) -> (r: bool)
    ensures
        r == exists|i: int|
            0 <= i < services.deep_view().len() && service_pattern_matches(
                #[trigger] services.deep_view()[i],
                routed@,
            ),
{
    let mut i: usize = 0;
    while i < services.len()
        invariant
            i <= services.len(),
            forall|k: int|
                0 <= k < i ==> !service_pattern_matches(#[trigger] services.deep_view()[k], routed@),
        decreases services.len() - i,
    {
        let nv = chars_of(services[i].as_str());
        assert(nv@ == services.deep_view()[i as int]);
        let star = nv.len() == 1 && nv[0] == '*';
        if star {
            assert(nv@ =~= seq!['*']);
            return true;
        }
        if nv.len() > 1 && nv[nv.len() - 1] == '*' && starts_with_part(routed, &nv, nv.len() - 1) {
            assert(nv@.take(nv.len() - 1) =~= nv@.drop_last());
            return true;
        }
        assert(nv@.take(nv.len() - 1) =~= nv@.drop_last());
        assert(!service_pattern_matches(services.deep_view()[i as int], routed@));
        i = i + 1;
    }
    false
}

impl CfgAsterisk {
    /// Route a TETRA dial string to a SIP user according to the Asterisk outbound rules.
    ///
    /// Matching modes:
    /// - `outbound_prefix = "91"` and empty `service_numbers` routes every `91...` dial.
    /// - `outbound_prefix = "91*"` explicitly routes every `91...` dial.
    /// - `service_numbers = ["*"]` routes every dial behind the configured prefix.
    /// - `service_numbers = ["38*"]` routes every stripped number starting with `38`.
    /// - Exact `service_numbers` entries keep their old allowlist behaviour.
    pub fn route_outbound_raw(&self, raw: &str) -> (r: Option<String>)
        ensures
            opt_view(r) == asterisk_route(
                self.enabled,
                self.outbound_prefix@,
                self.strip_outbound_prefix,
                self.service_numbers.deep_view(),
                raw@,
            ),
    {
        if !self.enabled {
            return None;
        }
        let raw_t = trim(raw);
        let rv = chars_of(raw_t.as_str());
        if rv.len() == 0 {
            return None;
        }
        let configured = trim(self.outbound_prefix.as_str());
        let cv = chars_of(configured.as_str());
        let wildcard = cv.len() > 0 && cv[cv.len() - 1] == '*';
        let outp = trim_end_char(configured.as_str(), '*');
        let ov = chars_of(outp.as_str());
        let matched = if ov.len() == 0 {
            wildcard
        } else {
            starts_with_part(&rv, &ov, ov.len())
        };
        assert(ov@.take(ov.len() as int) =~= ov@);
        let routed_src = if matched && self.strip_outbound_prefix {
            string_of_range(&rv, ov.len(), rv.len())
        } else {
            string_of(&rv)
        };
        assert(rv@.subrange(ov.len() as int, rv.len() as int) =~= rv@.skip(ov.len() as int));
        let routed = trim(routed_src.as_str());
        let routed_v = chars_of(routed.as_str());
        if routed_v.len() == 0 {
            return None;
        }
        if wildcard && matched {
            return Some(routed);
        }
        if self.service_numbers.len() == 0 {
            if matched {
                return Some(routed);
            }
            return None;
        }
        if contains_str(&self.service_numbers, routed.as_str()) {
            return Some(routed);
        }
        let wildcard_allowed = ov.len() == 0 || matched;
        if wildcard_allowed && any_service_pattern(&self.service_numbers, &routed_v) {
            return Some(routed);
        }
        None
    }
}

/// The first reason for which an `[asterisk]` section is refused, if any.
pub open spec fn asterisk_patch_error(src: CfgAsteriskDto) -> Option<Seq<char>> {
    if src.enabled && src.bind_port == 0 {
        Some("asterisk: bind_port cannot be 0"@)
    } else if src.enabled && src.remote_port == 0 {
        Some("asterisk: remote_port cannot be 0"@)
    } else if src.enabled && (src.rtp_port_min == 0 || src.rtp_port_max == 0 || src.rtp_port_min
        > src.rtp_port_max) {
        Some("asterisk: rtp_port_min/rtp_port_max must define a valid non-zero range"@)
    } else if src.enabled && trim_seq(src.remote_host@).len() == 0 {
        Some("asterisk: remote_host cannot be empty when enabled"@)
    } else if src.enabled && trim_seq(src.contact_host@).len() == 0 {
        Some("asterisk: contact_host cannot be empty when enabled"@)
    } else if src.enabled && trim_seq(src.local_user@).len() == 0 {
        Some("asterisk: local_user cannot be empty when enabled"@)
    } else if src.enabled && trim_seq(src.auth_user@).len() == 0 {
        Some("asterisk: auth_user cannot be empty when enabled"@)
    } else if upper_seq(trim_seq(src.codec@)) != "PCMU"@ {
        Some("asterisk: only codec = \"PCMU\" is currently supported"@)
    } else {
        None
    }
}

/// `v` brought into `lo..=hi`.
pub open spec fn clamp_u32(v: u32, lo: u32, hi: u32) -> u32 {
    if v < lo { lo } else if v > hi { hi } else { v }
}

/// The configuration that an accepted `[asterisk]` section yields.
pub open spec fn asterisk_from_dto(src: CfgAsteriskDto, cfg: CfgAsterisk) -> bool {
    &&& cfg.enabled == src.enabled
    &&& cfg.outbound_prefix == src.outbound_prefix
    &&& cfg.strip_outbound_prefix == src.strip_outbound_prefix
    &&& cfg.inbound_prefix == src.inbound_prefix
    &&& cfg.register == src.register
    &&& cfg.codec@ == upper_seq(trim_seq(src.codec@))
    &&& cfg.service_numbers.deep_view() == trimmed_nonempty_seq(src.service_numbers.deep_view())
    &&& cfg.rtp_port_min == src.rtp_port_min
    &&& cfg.rtp_port_max == src.rtp_port_max
    &&& cfg.bind_addr == src.bind_addr
    &&& cfg.bind_port == src.bind_port
    &&& cfg.remote_host == src.remote_host
    &&& cfg.remote_port == src.remote_port
    &&& cfg.contact_host == src.contact_host
    &&& cfg.from_domain == src.from_domain
    &&& cfg.local_user == src.local_user
    &&& cfg.auth_user == src.auth_user
    &&& cfg.password.val == src.password
    &&& cfg.realm == src.realm
    &&& cfg.options_interval_secs == src.options_interval_secs
    &&& cfg.inbound_setup_timeout_secs == clamp_u32(src.inbound_setup_timeout_secs, 1, 60)
}

fn is_blank(s: &String) -> (r: bool)
    ensures
        r == (trim_seq(s@).len() == 0),
{
    let t = trim(s.as_str());
    t.as_str().is_empty()
}

/// Checks an `[asterisk]` section and builds the bridge configuration from it.
pub fn apply_asterisk_patch(src: CfgAsteriskDto) -> (r: Result<CfgAsterisk, String>)
    ensures
        match r {
            Ok(cfg) => asterisk_patch_error(src) is None && asterisk_from_dto(src, cfg),
            Err(e) => asterisk_patch_error(src) == Some(e@),
        },
{
    if src.enabled {
        if src.bind_port == 0 {
            return Err(lit("asterisk: bind_port cannot be 0"));
        }
        if src.remote_port == 0 {
            return Err(lit("asterisk: remote_port cannot be 0"));
        }
        if src.rtp_port_min == 0 || src.rtp_port_max == 0 || src.rtp_port_min > src.rtp_port_max {
            return Err(lit("asterisk: rtp_port_min/rtp_port_max must define a valid non-zero range"));
        }
        if is_blank(&src.remote_host) {
            return Err(lit("asterisk: remote_host cannot be empty when enabled"));
        }
        if is_blank(&src.contact_host) {
            return Err(lit("asterisk: contact_host cannot be empty when enabled"));
        }
        if is_blank(&src.local_user) {
            return Err(lit("asterisk: local_user cannot be empty when enabled"));
        }
        if is_blank(&src.auth_user) {
            return Err(lit("asterisk: auth_user cannot be empty when enabled"));
        }
    }
    let codec = trim_upper(src.codec.as_str());
    if !str_eq(codec.as_str(), "PCMU") {
        return Err(lit("asterisk: only codec = \"PCMU\" is currently supported"));
    }
    let service_numbers = trimmed_nonempty(&src.service_numbers);
    let t = src.inbound_setup_timeout_secs;
    let timeout = if t < 1 { 1 } else if t > 60 { 60 } else { t };
    Ok(CfgAsterisk {
        enabled: src.enabled,
        outbound_prefix: src.outbound_prefix,
        strip_outbound_prefix: src.strip_outbound_prefix,
        inbound_prefix: src.inbound_prefix,
        register: src.register,
        codec,
        service_numbers,
        rtp_port_min: src.rtp_port_min,
        rtp_port_max: src.rtp_port_max,
        bind_addr: src.bind_addr,
        bind_port: src.bind_port,
        remote_host: src.remote_host,
        remote_port: src.remote_port,
        contact_host: src.contact_host,
        from_domain: src.from_domain,
        local_user: src.local_user,
        auth_user: src.auth_user,
        password: SecretField::new(src.password),
        realm: src.realm,
        options_interval_secs: src.options_interval_secs,
        inbound_setup_timeout_secs: timeout,
    })
}

pub fn default_outbound_prefix() -> (r: String)
    ensures
        r@ == "91"@,
{
    lit("91")
}

pub fn default_strip_outbound_prefix() -> (r: bool)
    ensures
        r == true,
{
    true
}

pub fn default_inbound_prefix() -> (r: String)
    ensures
        r@ == "T"@,
{
    lit("T")
}

pub fn default_register() -> (r: bool)
    ensures
        r == true,
{
    true
}

pub fn default_codec() -> (r: String)
    ensures
        r@ == "PCMU"@,
{
    lit("PCMU")
}

pub fn default_rtp_port_min() -> (r: u16)
    ensures
        r == 30000,
{
    30000
}

pub fn default_rtp_port_max() -> (r: u16)
    ensures
        r == 30100,
{
    30100
}

pub fn default_bind_addr() -> (r: String)
    ensures
        r@ == "0.0.0.0"@,
{
    lit("0.0.0.0")
}

pub fn default_bind_port() -> (r: u16)
    ensures
        r == 5062,
{
    5062
}

pub fn default_remote_host() -> (r: String)
    ensures
        r@ == "127.0.0.1"@,
{
    lit("127.0.0.1")
}

pub fn default_remote_port() -> (r: u16)
    ensures
        r == 5060,
{
    5060
}

pub fn default_contact_host() -> (r: String)
    ensures
        r@ == "127.0.0.1"@,
{
    lit("127.0.0.1")
}

pub fn default_from_domain() -> (r: String)
    ensures
        r@ == "127.0.0.1"@,
{
    lit("127.0.0.1")
}

pub fn default_local_user() -> (r: String)
    ensures
        r@ == "flowstation"@,
{
    lit("flowstation")
}

pub fn default_auth_user() -> (r: String)
    ensures
        r@ == "flowstation"@,
{
    lit("flowstation")
}

pub fn default_realm() -> (r: String)
    ensures
        r@ == "asterisk"@,
{
    lit("asterisk")
}

pub fn default_options_interval_secs() -> (r: u64)
    ensures
        r == 30,
{
    30
}

pub fn default_inbound_setup_timeout_secs() -> (r: u32)
    ensures
        r == 20,
{
    20
}

impl Default for CfgAsteriskDto {
    fn default() -> (r: CfgAsteriskDto)
        ensures
            !r.enabled,
            r.service_numbers@.len() == 0,
            r.password@.len() == 0,
            r.extra_keys@.len() == 0,
            r.outbound_prefix@ == "91"@,
            r.strip_outbound_prefix == true,
            r.inbound_prefix@ == "T"@,
            r.register == true,
            r.codec@ == "PCMU"@,
            r.rtp_port_min == 30000,
            r.rtp_port_max == 30100,
            r.bind_addr@ == "0.0.0.0"@,
            r.bind_port == 5062,
            r.remote_host@ == "127.0.0.1"@,
            r.remote_port == 5060,
            r.contact_host@ == "127.0.0.1"@,
            r.from_domain@ == "127.0.0.1"@,
            r.local_user@ == "flowstation"@,
            r.auth_user@ == "flowstation"@,
            r.realm@ == "asterisk"@,
            r.options_interval_secs == 30,
            r.inbound_setup_timeout_secs == 20,
    {
        CfgAsteriskDto {
            enabled: false,
            outbound_prefix: default_outbound_prefix(),
            strip_outbound_prefix: default_strip_outbound_prefix(),
            inbound_prefix: default_inbound_prefix(),
            register: default_register(),
            codec: default_codec(),
            rtp_port_min: default_rtp_port_min(),
            service_numbers: Vec::new(),
            rtp_port_max: default_rtp_port_max(),
            bind_addr: default_bind_addr(),
            bind_port: default_bind_port(),
            remote_host: default_remote_host(),
            remote_port: default_remote_port(),
            contact_host: default_contact_host(),
            from_domain: default_from_domain(),
            local_user: default_local_user(),
            auth_user: default_auth_user(),
            realm: default_realm(),
            options_interval_secs: default_options_interval_secs(),
            password: String::new(),
            inbound_setup_timeout_secs: default_inbound_setup_timeout_secs(),
            extra_keys: Vec::new(),
        }
    }
}

proof fn lemma_pcmu_accepted()
    ensures
        upper_seq(trim_seq("PCMU"@)) == "PCMU"@,
{
    reveal_strlit("PCMU");
    let s = "PCMU"@;
    assert(!is_ws(s[0]));
    assert(trim_start_seq(s) == s);
    assert(!is_ws(s.last()));
    assert(trim_end_seq(s) == s);
    assert(upper_seq(s) =~= s);
}

impl Default for CfgAsterisk {
    /// The bridge configuration of an `[asterisk]` section that sets nothing: disabled.
    fn default() -> (r: CfgAsterisk)
        ensures
            !r.enabled,
            r.service_numbers@.len() == 0,
            r.password.val@.len() == 0,
            r.outbound_prefix@ == "91"@,
            r.strip_outbound_prefix == true,
            r.inbound_prefix@ == "T"@,
            r.register == true,
            r.codec@ == "PCMU"@,
            r.rtp_port_min == 30000,
            r.rtp_port_max == 30100,
            r.bind_addr@ == "0.0.0.0"@,
            r.bind_port == 5062,
            r.remote_host@ == "127.0.0.1"@,
            r.remote_port == 5060,
            r.contact_host@ == "127.0.0.1"@,
            r.from_domain@ == "127.0.0.1"@,
            r.local_user@ == "flowstation"@,
            r.auth_user@ == "flowstation"@,
            r.realm@ == "asterisk"@,
            r.options_interval_secs == 30,
            r.inbound_setup_timeout_secs == 20,
    {
        let dto = CfgAsteriskDto::default();
        proof {
            lemma_pcmu_accepted();
        }
        assert(dto.service_numbers.deep_view() =~= Seq::<Seq<char>>::empty());
        assert(trimmed_nonempty_seq(dto.service_numbers.deep_view()) =~= Seq::<Seq<char>>::empty());
        let r = apply_asterisk_patch(dto).unwrap();
        assert(r.service_numbers.deep_view().len() == 0);
        r
    }
}

} // verus!
