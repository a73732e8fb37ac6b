//! Configuration of the NetCore control room: listener, persistence,
//! authentication, federation, operations and the monitored core services.
use vstd::prelude::*;
use crate::text::{
    concat, dec_seq, dec_string, lit, lower_seq, replace_char, replace_char_seq, starts_with,
    trim, trim_end_char_seq, trim_lower, trim_seq, trim_then_strip_end, str_eq, seq_lt, str_lt,
    strictly_sorted, lemma_seq_lt_total, lemma_seq_lt_trans, lemma_seq_lt_irrefl,
};

verus! {

/// Listener settings. `bind` is the socket address in text form, such as
/// `127.0.0.1:9010`.
#[derive(Debug, Clone)]
pub struct ServerConfig {
    pub bind: String,
    pub node_path: String,
    pub ui_path: String,
    pub history_limit: usize,
}

impl Default for ServerConfig {
    fn default() -> (r: ServerConfig)
        ensures
            r.bind@ == "127.0.0.1:9010"@,
            r.node_path@ == "/node"@,
            r.ui_path@ == "/ui"@,
            r.history_limit == 500,
    {
        ServerConfig {
            bind: lit("127.0.0.1:9010"),
            node_path: lit("/node"),
            ui_path: lit("/ui"),
            history_limit: 500,
        }
    }
}

/// Polling of the federated core services.
#[derive(Debug, Clone, Copy, PartialEq, Eq, Structural)]
pub struct FederationConfig {
    pub enabled: bool,
    pub poll_interval_secs: u64,
    pub request_timeout_ms: u64,
    pub failure_threshold: u32,
    pub fetch_summaries: bool,
}

impl Default for FederationConfig {
    fn default() -> (r: FederationConfig)
        ensures
            r == (FederationConfig {
                enabled: true,
                poll_interval_secs: 5,
                request_timeout_ms: 1200,
                failure_threshold: 3,
                fetch_summaries: true,
            }),
    {
        FederationConfig {
            enabled: true,
            poll_interval_secs: 5,
            request_timeout_ms: 1200,
            failure_threshold: 3,
            fetch_summaries: true,
        }
    }
}

/// The larger of `a` and `b`.
pub open spec fn max_u64(a: u64, b: u64) -> u64 {
    if a < b { b } else { a }
}

/// The larger of `a` and `b`.
pub open spec fn max_usize(a: usize, b: usize) -> usize {
    if a < b { b } else { a }
}

impl FederationConfig {
    /// Raises the intervals and the threshold to their least usable values.
    pub fn normalise(&mut self)
        ensures
            final(self).enabled == old(self).enabled,
            final(self).fetch_summaries == old(self).fetch_summaries,
            final(self).poll_interval_secs == max_u64(old(self).poll_interval_secs, 1),
            final(self).request_timeout_ms == max_u64(old(self).request_timeout_ms, 100),
            final(self).failure_threshold == (if old(self).failure_threshold < 1 {
                1
            } else {
                old(self).failure_threshold
            }),
    {
        if self.poll_interval_secs < 1 {
            self.poll_interval_secs = 1;
        }
        if self.request_timeout_ms < 100 {
            self.request_timeout_ms = 100;
        }
        if self.failure_threshold < 1 {
            self.failure_threshold = 1;
        }
    }
}

/// Storage and limits of the operations journal (incidents and shift log).
#[derive(Debug, Clone)]
pub struct OperationsConfig {
    pub state_path: String,
    pub backup_path: String,
    pub auto_service_incidents: bool,
    pub incident_limit: usize,
    pub shift_log_limit: usize,
}

impl Default for OperationsConfig {
    fn default() -> (r: OperationsConfig)
        ensures
            r.state_path@ == "/var/lib/netcore-control-room/operations.json"@,
            r.backup_path@ == "/var/lib/netcore-control-room/operations.json.bak"@,
            r.auto_service_incidents,
            r.incident_limit == 5000,
            r.shift_log_limit == 10000,
    {
        OperationsConfig {
            state_path: lit("/var/lib/netcore-control-room/operations.json"),
            backup_path: lit("/var/lib/netcore-control-room/operations.json.bak"),
            auto_service_incidents: true,
            incident_limit: 5000,
            shift_log_limit: 10000,
        }
    }
}

impl OperationsConfig {
    /// Keeps at least 100 incidents and 100 shift log entries.
    pub fn normalise(&mut self)
        ensures
            final(self).state_path == old(self).state_path,
            final(self).backup_path == old(self).backup_path,
            final(self).auto_service_incidents == old(self).auto_service_incidents,
            final(self).incident_limit == max_usize(old(self).incident_limit, 100),
            final(self).shift_log_limit == max_usize(old(self).shift_log_limit, 100),
    {
        if self.incident_limit < 100 {
            self.incident_limit = 100;
        }
        if self.shift_log_limit < 100 {
            self.shift_log_limit = 100;
        }
    }
}

/// Storage of the event database.
#[derive(Debug, Clone)]
pub struct PersistenceConfig {
    pub enabled: bool,
    pub database_path: String,
    pub persist_events: bool,
    pub persist_noisy_events: bool,
    pub load_recent_limit: usize,
}

impl Default for PersistenceConfig {
    fn default() -> (r: PersistenceConfig)
        ensures
            !r.enabled,
            r.database_path@ == "/var/lib/netcore-control-room/control-room.sqlite3"@,
            r.persist_events,
            !r.persist_noisy_events,
            r.load_recent_limit == 500,
    {
        PersistenceConfig {
            enabled: false,
            database_path: lit("/var/lib/netcore-control-room/control-room.sqlite3"),
            persist_events: true,
            persist_noisy_events: false,
            load_recent_limit: 500,
        }
    }
}

/// `path` with a leading `/` added when it has none.
pub open spec fn normalise_path_seq(path: Seq<char>) -> Seq<char> {
    if path.len() > 0 && path[0] == '/' {
        path
    } else {
        seq!['/'] + path
    }
}

/// `path` with a leading `/` added when it has none.
pub fn normalise_path(path: &str) -> (r: String)
    ensures
        r@ == normalise_path_seq(path@),
{
    proof {
        reveal_strlit("/");
        assert("/"@ =~= seq!['/']);
    }
    proof {
        if path@.len() > 0 && path@[0] == '/' {
            assert(path@.take(1) =~= seq!['/']);
        }
    }
    if starts_with(path, "/") {
        assert(path@.take(1)[0] == path@[0]);
        lit(path)
    } else {
        concat("/", path)
    }
}

/// A secret that is present only when it holds more than whitespace, trimmed.
pub open spec fn optional_secret_seq(value: Option<Seq<char>>) -> Option<Seq<char>> {
    match value {
        Some(v) => if trim_seq(v).len() == 0 {
            None
        } else {
            Some(trim_seq(v))
        },
        None => None,
    }
}

/// The view of an optional string.
pub open spec fn opt_seq(o: Option<String>) -> Option<Seq<char>> {
    match o {
        Some(s) => Some(s@),
        None => None,
    }
}

/// A secret that is present only when it holds more than whitespace, trimmed.
pub fn normalise_optional_secret(value: Option<String>) -> (r: Option<String>)
    ensures
        opt_seq(r) == optional_secret_seq(opt_seq(value)),
{
    match value {
        Some(v) => {
            let t = trim(v.as_str());
            if t.as_str().is_empty() {
                None
            } else {
                Some(t)
            }
        },
        None => None,
    }
}

/// A monitored core service of the NetCore network.
#[derive(Debug, Clone)]
pub struct CoreServiceConfig {
    pub name: String,
    pub display_name: String,
    pub kind: String,
    pub base_url: String,
    pub health_live: String,
    pub health_ready: String,
    pub summary_path: String,
    pub webui_path: String,
    pub critical: bool,
    pub enabled: bool,
    pub timeout_ms: Option<u64>,
}

/// `s` holds the settings of an unnamed service entry.
pub open spec fn is_default_service(s: CoreServiceConfig) -> bool {
    &&& s.name@ == "service"@
    &&& s.display_name@ == "Service"@
    &&& s.kind@ == "core"@
    &&& s.base_url@ == "http://127.0.0.1:8080"@
    &&& s.health_live@ == "/health/live"@
    &&& s.health_ready@ == "/health/ready"@
    &&& s.summary_path@ == "/api/v1/status"@
    &&& s.webui_path@ == "/"@
    &&& !s.critical
    &&& s.enabled
    &&& s.timeout_ms is None
}

impl Default for CoreServiceConfig {
    fn default() -> (r: CoreServiceConfig)
        ensures
            is_default_service(r),
    {
        CoreServiceConfig {
            name: lit("service"),
            display_name: lit("Service"),
            kind: lit("core"),
            base_url: lit("http://127.0.0.1:8080"),
            health_live: lit("/health/live"),
            health_ready: lit("/health/ready"),
            summary_path: lit("/api/v1/status"),
            webui_path: lit("/"),
            critical: false,
            enabled: true,
            timeout_ms: None,
        }
    }
}

/// The key under which a service is known: trimmed, ASCII lower case, spaces
/// turned into `-`, and `service` when nothing is left.
pub open spec fn service_name_norm(name: Seq<char>) -> Seq<char> {
    let t = replace_char_seq(lower_seq(trim_seq(name)), ' ', '-');
    if t.len() == 0 {
        "service"@
    } else {
        t
    }
}

/// `n` is the service entry `o` in normal form.
pub open spec fn service_normalised(o: CoreServiceConfig, n: CoreServiceConfig) -> bool {
    &&& n.name@ == service_name_norm(o.name@)
    &&& n.display_name@ == (if trim_seq(o.display_name@).len() == 0 {
        service_name_norm(o.name@)
    } else {
        o.display_name@
    })
    &&& n.kind@ == o.kind@
    &&& n.base_url@ == trim_end_char_seq(trim_seq(o.base_url@), '/')
    &&& n.health_live@ == normalise_path_seq(o.health_live@)
    &&& n.health_ready@ == normalise_path_seq(o.health_ready@)
    &&& n.summary_path@ == normalise_path_seq(o.summary_path@)
    &&& n.webui_path@ == normalise_path_seq(o.webui_path@)
    &&& n.critical == o.critical
    &&& n.enabled == o.enabled
    &&& n.timeout_ms == (match o.timeout_ms {
        Some(v) => Some(max_u64(v, 100)),
        None => None,
    })
}

impl CoreServiceConfig {
    /// Brings the entry into normal form: a lower-case key, a display name,
    /// a base URL without trailing slashes, absolute paths and a timeout of
    /// at least 100 ms.
    pub fn normalise(&mut self)
        ensures
            service_normalised(*old(self), *final(self)),
    {
        let t = trim_lower(self.name.as_str());
        let n = replace_char(t.as_str(), ' ', '-');
        self.name = if n.as_str().is_empty() {
            lit("service")
        } else {
            n
        };
        let d = trim(self.display_name.as_str());
        if d.as_str().is_empty() {
            self.display_name = self.name.clone();
        }
        self.base_url = trim_then_strip_end(self.base_url.as_str(), '/');
        self.health_live = normalise_path(self.health_live.as_str());
        self.health_ready = normalise_path(self.health_ready.as_str());
        self.summary_path = normalise_path(self.summary_path.as_str());
        self.webui_path = normalise_path(self.webui_path.as_str());
        self.timeout_ms = match self.timeout_ms {
            Some(v) => Some(if v < 100 { 100 } else { v }),
            None => None,
        };
    }
}

/// `s` is the default service entry with the given name, display name, kind,
/// local port and criticality.
pub open spec fn is_service(
    s: CoreServiceConfig,
    name: Seq<char>,
    display_name: Seq<char>,
    kind: Seq<char>,
    port: u16,
    critical: bool,
) -> bool {
    &&& s.name@ == name
    &&& s.display_name@ == display_name
    &&& s.kind@ == kind
    &&& s.base_url@ == "http://127.0.0.1:"@ + dec_seq(port as nat)
    &&& s.health_live@ == "/health/live"@
    &&& s.health_ready@ == "/health/ready"@
    &&& s.summary_path@ == "/api/v1/status"@
    &&& s.webui_path@ == "/"@
    &&& s.critical == critical
    &&& s.enabled
    &&& s.timeout_ms is None
}

/// A service entry on `http://127.0.0.1:<port>` with the default paths.
pub fn service(name: &str, display_name: &str, kind: &str, port: u16, critical: bool) -> (r: CoreServiceConfig)
    ensures
        is_service(r, name@, display_name@, kind@, port, critical),
{
    let d = CoreServiceConfig::default();
    let p = dec_string(port as u64);
    CoreServiceConfig {
        name: lit(name),
        display_name: lit(display_name),
        kind: lit(kind),
        base_url: concat("http://127.0.0.1:", p.as_str()),
        critical,
        ..d
    }
}

/// Name, display name, kind, local port and criticality of each built-in service.
pub open spec fn default_service_table() -> Seq<(Seq<char>, Seq<char>, Seq<char>, u16, bool)> {
    seq![
        ("node-gateway"@, "Node Gateway"@, "edge"@, 8080u16, true),
        ("mobility-core"@, "Mobility Core"@, "core"@, 8090u16, true),
        ("subscriber-core"@, "Subscriber Core"@, "core"@, 8100u16, true),
        ("group-core"@, "Group Core"@, "core"@, 8110u16, true),
        ("call-control"@, "Call Control"@, "core"@, 8120u16, true),
        ("media-switch"@, "Media Switch"@, "media"@, 8130u16, true),
        ("recorder"@, "Recorder"@, "media"@, 8140u16, false),
        ("sds-router"@, "SDS Router"@, "data"@, 8150u16, false),
        ("packet-core"@, "Packet Core"@, "data"@, 8160u16, false),
        ("ip-gateway"@, "IP Gateway"@, "data"@, 8170u16, false),
        ("security-core"@, "Security Core"@, "security"@, 8180u16, true),
        ("kmf"@, "KMF"@, "security"@, 8190u16, false),
        ("transit"@, "Transit"@, "interworking"@, 8200u16, false),
        ("application-gateway"@, "Application Gateway"@, "application"@, 8220u16, false),
        ("media-library"@, "Media Library"@, "media"@, 8230u16, false),
        ("iot-gateway"@, "IoT Gateway / MQTT"@, "integration"@, 8240u16, false),
    ]
}

/// `l` is the built-in list of core services, in table order.
pub open spec fn is_default_service_list(l: Seq<CoreServiceConfig>) -> bool {
    &&& l.len() == default_service_table().len()
    &&& forall|i: int|
        0 <= i < l.len() ==> {
            let row = #[trigger] default_service_table()[i];
            is_service(l[i], row.0, row.1, row.2, row.3, row.4)
        }
}

/// The built-in list of NetCore core services.
pub fn default_core_services() -> (r: Vec<CoreServiceConfig>)
    ensures
        is_default_service_list(r@),
{
    let mut v: Vec<CoreServiceConfig> = Vec::new();
    v.push(service("node-gateway", "Node Gateway", "edge", 8080, true));
    v.push(service("mobility-core", "Mobility Core", "core", 8090, true));
    v.push(service("subscriber-core", "Subscriber Core", "core", 8100, true));
    v.push(service("group-core", "Group Core", "core", 8110, true));
    v.push(service("call-control", "Call Control", "core", 8120, true));
    v.push(service("media-switch", "Media Switch", "media", 8130, true));
    v.push(service("recorder", "Recorder", "media", 8140, false));
    v.push(service("sds-router", "SDS Router", "data", 8150, false));
    v.push(service("packet-core", "Packet Core", "data", 8160, false));
    v.push(service("ip-gateway", "IP Gateway", "data", 8170, false));
    v.push(service("security-core", "Security Core", "security", 8180, true));
    v.push(service("kmf", "KMF", "security", 8190, false));
    v.push(service("transit", "Transit", "interworking", 8200, false));
    v.push(service("application-gateway", "Application Gateway", "application", 8220, false));
    v.push(service("media-library", "Media Library", "media", 8230, false));
    v.push(service("iot-gateway", "IoT Gateway / MQTT", "integration", 8240, false));
    v
}

/// Authentication settings.
#[derive(Debug, Clone)]
pub struct AuthConfig {
    /// Master switch. Keep disabled only for first lab tests.
    pub enabled: bool,
    /// Keep /health public for service checks even when auth is enabled.
    pub allow_health_unauthenticated: bool,
    /// Node token for BS to control room WebSocket authentication.
    pub node_token: Option<String>,
    /// Environment variable containing the node token.
    pub node_token_env: Option<String>,
    /// Bootstrap admin username for initial recovery/login.
    pub bootstrap_username: Option<String>,
    /// Bootstrap admin password for initial recovery/login.
    pub bootstrap_password: Option<String>,
    /// Role for the bootstrap user.
    pub bootstrap_role: String,
    /// Environment variable containing the bootstrap username.
    pub bootstrap_username_env: Option<String>,
    /// Environment variable containing the bootstrap password.
    pub bootstrap_password_env: Option<String>,
}

impl Default for AuthConfig {
    fn default() -> (r: AuthConfig)
        ensures
            !r.enabled,
            r.allow_health_unauthenticated,
            r.node_token is None,
            opt_seq(r.node_token_env) == Some("NETCORE_CONTROL_ROOM_NODE_TOKEN"@),
            r.bootstrap_username is None,
            r.bootstrap_password is None,
            r.bootstrap_role@ == "admin"@,
            opt_seq(r.bootstrap_username_env) == Some("NETCORE_CONTROL_ROOM_BOOTSTRAP_USER"@),
            opt_seq(r.bootstrap_password_env) == Some("NETCORE_CONTROL_ROOM_BOOTSTRAP_PASSWORD"@),
    {
        AuthConfig {
            enabled: false,
            allow_health_unauthenticated: true,
            node_token: None,
            node_token_env: Some(lit("NETCORE_CONTROL_ROOM_NODE_TOKEN")),
            bootstrap_username: None,
            bootstrap_password: None,
            bootstrap_role: lit("admin"),
            bootstrap_username_env: Some(lit("NETCORE_CONTROL_ROOM_BOOTSTRAP_USER")),
            bootstrap_password_env: Some(lit("NETCORE_CONTROL_ROOM_BOOTSTRAP_PASSWORD")),
        }
    }
}

/// The bootstrap role kept: `viewer`, `operator` or `admin` after trimming and
/// ASCII lower-casing, and `admin` for anything else.
pub open spec fn bootstrap_role_norm(role: Seq<char>) -> Seq<char> {
    let r = lower_seq(trim_seq(role));
    if r == "viewer"@ || r == "operator"@ || r == "admin"@ {
        r
    } else {
        "admin"@
    }
}

impl AuthConfig {
    /// Brings the role into normal form and drops blank secrets.
    pub fn normalise(&mut self)
        ensures
            final(self).enabled == old(self).enabled,
            final(self).allow_health_unauthenticated == old(self).allow_health_unauthenticated,
            final(self).bootstrap_role@ == bootstrap_role_norm(old(self).bootstrap_role@),
            opt_seq(final(self).node_token) == optional_secret_seq(opt_seq(old(self).node_token)),
            opt_seq(final(self).node_token_env) == optional_secret_seq(opt_seq(old(self).node_token_env)),
            opt_seq(final(self).bootstrap_username) == optional_secret_seq(
                opt_seq(old(self).bootstrap_username),
            ),
            opt_seq(final(self).bootstrap_password) == optional_secret_seq(
                opt_seq(old(self).bootstrap_password),
            ),
            opt_seq(final(self).bootstrap_username_env) == optional_secret_seq(
                opt_seq(old(self).bootstrap_username_env),
            ),
            opt_seq(final(self).bootstrap_password_env) == optional_secret_seq(
                opt_seq(old(self).bootstrap_password_env),
            ),
    {
        let role = trim_lower(self.bootstrap_role.as_str());
        let keep = str_eq(role.as_str(), "viewer") || str_eq(role.as_str(), "operator") || str_eq(
            role.as_str(),
            "admin",
        );
        self.bootstrap_role = if keep {
            role
        } else {
            lit("admin")
        };
        self.node_token = normalise_optional_secret(self.node_token.take());
        self.node_token_env = normalise_optional_secret(self.node_token_env.take());
        self.bootstrap_username = normalise_optional_secret(self.bootstrap_username.take());
        self.bootstrap_password = normalise_optional_secret(self.bootstrap_password.take());
        self.bootstrap_username_env = normalise_optional_secret(self.bootstrap_username_env.take());
        self.bootstrap_password_env = normalise_optional_secret(self.bootstrap_password_env.take());
    }
}

/// The names of a list of services, in order.
pub open spec fn service_names(l: Seq<CoreServiceConfig>) -> Seq<Seq<char>> {
    l.map_values(|x: CoreServiceConfig| x.name@)
}

/// Entry `k` of `l` is the first one with its name.
pub open spec fn first_of_name(l: Seq<CoreServiceConfig>, k: int) -> bool {
    forall|j: int| 0 <= j < k ==> (#[trigger] l[j]).name@ != l[k].name@
}

/// Entry `m` of `out` is entry `k` of `l`, the first of `l` with its name.
pub open spec fn taken_from(l: Seq<CoreServiceConfig>, out: Seq<CoreServiceConfig>, m: int, k: int) -> bool {
    0 <= k < l.len() && out[m] == l[k] && first_of_name(l, k)
}

/// Entry `m` of `out` is the first entry of `l` with its name.
pub open spec fn has_source(l: Seq<CoreServiceConfig>, out: Seq<CoreServiceConfig>, m: int) -> bool {
    exists|k: int| #[trigger] taken_from(l, out, m, k)
}

/// `out` is `l` in order of name, with only the first entry of each name
/// kept: what a stable sort by name followed by dropping repeated names gives.
pub open spec fn sorted_first_by_name(l: Seq<CoreServiceConfig>, out: Seq<CoreServiceConfig>) -> bool {
    &&& strictly_sorted(service_names(out))
    &&& forall|m: int| 0 <= m < out.len() ==> #[trigger] has_source(l, out, m)
    &&& forall|k: int|
        #![trigger l[k]]
        0 <= k < l.len() ==> exists|m: int|
            #![trigger out[m]]
            0 <= m < out.len() && out[m].name@ == l[k].name@
}

fn clone_service(s: &CoreServiceConfig) -> (r: CoreServiceConfig)
    ensures
        r == *s,
{
    CoreServiceConfig {
        name: s.name.clone(),
        display_name: s.display_name.clone(),
        kind: s.kind.clone(),
        base_url: s.base_url.clone(),
        health_live: s.health_live.clone(),
        health_ready: s.health_ready.clone(),
        summary_path: s.summary_path.clone(),
        webui_path: s.webui_path.clone(),
        critical: s.critical,
        enabled: s.enabled,
        timeout_ms: s.timeout_ms,
    }
}

/// `out` is a strictly name-sorted selection of first entries of `l.take(i)`
/// that covers every name there: `src[m]` is where `out[m]` comes from, and
/// `pos[k]` where the name of `l[k]` stands in `out`.
pub open spec fn sorted_prefix(
    l: Seq<CoreServiceConfig>,
    out: Seq<CoreServiceConfig>,
    i: int,
    src: Seq<int>,
    pos: Seq<int>,
) -> bool {
    &&& strictly_sorted(service_names(out))
    &&& src.len() == out.len()
    &&& pos.len() == i
    &&& forall|m: int|
        0 <= m < out.len() ==> 0 <= #[trigger] src[m] < i && out[m] == l[src[m]] && first_of_name(l, src[m])
    &&& forall|k: int| 0 <= k < i ==> 0 <= #[trigger] pos[k] < out.len() && out[pos[k]].name@ == l[k].name@
}

proof fn lemma_name_at(out: Seq<CoreServiceConfig>, m: int)
    requires
        0 <= m < out.len(),
    ensures
        service_names(out)[m] == out[m].name@,
        service_names(out).len() == out.len(),
{
}

/// Inserting `x` at `p` keeps a name list strictly sorted when every name
/// before `p` is smaller than the name of `x` and the name at `p` larger.
proof fn lemma_insert_sorted(out: Seq<CoreServiceConfig>, p: int, x: CoreServiceConfig)
    requires
        0 <= p <= out.len(),
        strictly_sorted(service_names(out)),
        forall|k: int| 0 <= k < p ==> seq_lt((#[trigger] out[k]).name@, x.name@),
        p < out.len() ==> seq_lt(x.name@, out[p].name@),
    ensures
        strictly_sorted(service_names(out.insert(p, x))),
{
    let after = out.insert(p, x);
    let xn = x.name@;
    assert forall|a: int, b: int| 0 <= a < b < service_names(after).len() implies seq_lt(
        #[trigger] service_names(after)[a],
        #[trigger] service_names(after)[b],
    ) by {
        lemma_name_at(after, a);
        lemma_name_at(after, b);
        if b < p {
            lemma_name_at(out, a);
            lemma_name_at(out, b);
        } else if b == p {
            assert(after[a] == out[a]);
        } else if a == p {
            assert(after[b] == out[b - 1]);
            if b - 1 > p {
                lemma_name_at(out, p);
                lemma_name_at(out, b - 1);
                lemma_seq_lt_trans(xn, out[p].name@, out[b - 1].name@);
            }
        } else if a < p {
            lemma_name_at(out, a);
            lemma_name_at(out, b - 1);
        } else {
            lemma_name_at(out, a - 1);
            lemma_name_at(out, b - 1);
        }
    }
}

/// A name that the sorted prefix does not hold at its place `p` is held
/// nowhere in it, so entry `i` is the first entry of `l` with that name.
proof fn lemma_new_name(
    l: Seq<CoreServiceConfig>,
    out: Seq<CoreServiceConfig>,
    i: int,
    p: int,
    src: Seq<int>,
    pos: Seq<int>,
)
    requires
        0 <= i < l.len(),
        0 <= p <= out.len(),
        sorted_prefix(l, out, i, src, pos),
        forall|k: int| 0 <= k < p ==> seq_lt((#[trigger] out[k]).name@, l[i].name@),
        p < out.len() ==> seq_lt(l[i].name@, out[p].name@),
    ensures
        first_of_name(l, i),
{
    let xn = l[i].name@;
    assert forall|m: int| 0 <= m < out.len() implies (#[trigger] out[m]).name@ != xn by {
        if m <= p {
            lemma_seq_lt_irrefl(xn);
        } else {
            lemma_name_at(out, p);
            lemma_name_at(out, m);
            if out[m].name@ == xn {
                lemma_seq_lt_trans(xn, out[p].name@, xn);
                lemma_seq_lt_irrefl(xn);
            }
        }
    }
    assert forall|j: int| 0 <= j < i implies (#[trigger] l[j]).name@ != l[i].name@ by {
        assert(out[pos[j]].name@ != xn);
    }
}

/// Inserting the first entry of a new name keeps the loop state.
proof fn lemma_insert_step(
    l: Seq<CoreServiceConfig>,
    out: Seq<CoreServiceConfig>,
    i: int,
    p: int,
    src: Seq<int>,
    pos: Seq<int>,
)
    requires
        0 <= i < l.len(),
        0 <= p <= out.len(),
        sorted_prefix(l, out, i, src, pos),
        first_of_name(l, i),
        strictly_sorted(service_names(out.insert(p, l[i]))),
    ensures
        sorted_prefix(
            l,
            out.insert(p, l[i]),
            i + 1,
            src.insert(p, i),
            pos.map_values(|m: int| if m >= p { m + 1 } else { m }).push(p),
        ),
{
    let after = out.insert(p, l[i]);
    let src2 = src.insert(p, i);
    let pos2 = pos.map_values(|m: int| if m >= p { m + 1 } else { m }).push(p);
    assert forall|m: int| 0 <= m < after.len() implies 0 <= #[trigger] src2[m] < i + 1 && after[m]
        == l[src2[m]] && first_of_name(l, src2[m]) by {
        if m < p {
            assert(after[m] == out[m] && src2[m] == src[m]);
        } else if m > p {
            assert(after[m] == out[m - 1] && src2[m] == src[m - 1]);
        }
    }
    assert forall|k: int| 0 <= k < i + 1 implies 0 <= #[trigger] pos2[k] < after.len() && after[pos2[k]].name@
        == l[k].name@ by {
        if k < i {
            let m = pos[k];
            if m >= p {
                assert(after[m + 1] == out[m]);
            } else {
                assert(after[m] == out[m]);
            }
        }
    }
}

proof fn lemma_sorted_prefix_done(
    l: Seq<CoreServiceConfig>,
    out: Seq<CoreServiceConfig>,
    src: Seq<int>,
    pos: Seq<int>,
)
    requires
        sorted_prefix(l, out, l.len() as int, src, pos),
    ensures
        sorted_first_by_name(l, out),
{
    assert forall|m: int| 0 <= m < out.len() implies #[trigger] has_source(l, out, m) by {
        assert(taken_from(l, out, m, src[m]));
    }
    assert forall|k: int| #![trigger l[k]] 0 <= k < l.len() implies exists|m: int|
        #![trigger out[m]]
        0 <= m < out.len() && out[m].name@ == l[k].name@ by {
        let m = pos[k];
        assert(0 <= m < out.len() && out[m].name@ == l[k].name@);
    }
}

/// Orders services by name, keeping only the first entry of each name.
pub fn sort_dedup_services(l: &Vec<CoreServiceConfig>) -> (r: Vec<CoreServiceConfig>)
    ensures
        sorted_first_by_name(l@, r@),
{
    let mut out: Vec<CoreServiceConfig> = Vec::new();
    let ghost mut src: Seq<int> = Seq::empty();
    let ghost mut pos: Seq<int> = Seq::empty();
    let mut i: usize = 0;
    while i < l.len()
        invariant
            i <= l@.len(),
            sorted_prefix(l@, out@, i as int, src, pos),
        decreases l@.len() - i,
    {
        let x = clone_service(&l[i]);
        let ghost xn = x.name@;
        let mut p: usize = 0;
        while p < out.len() && str_lt(out[p].name.as_str(), x.name.as_str())
            invariant
                p <= out@.len(),
                x.name@ == xn,
                forall|k: int| 0 <= k < p ==> seq_lt((#[trigger] out@[k]).name@, xn),
            decreases out@.len() - p,
        {
            p = p + 1;
        }
        if p < out.len() && str_eq(out[p].name.as_str(), x.name.as_str()) {
            proof {
                pos = pos.push(p as int);
            }
        } else {
            proof {
                if p < out@.len() {
                    lemma_seq_lt_total(out@[p as int].name@, xn);
                }
                lemma_new_name(l@, out@, i as int, p as int, src, pos);
                lemma_insert_sorted(out@, p as int, x);
                lemma_insert_step(l@, out@, i as int, p as int, src, pos);
                src = src.insert(p as int, i as int);
                pos = pos.map_values(|m: int| if m >= p { m + 1 } else { m }).push(p as int);
            }
            out.insert(p, x);
        }
        i = i + 1;
    }
    proof {
        lemma_sorted_prefix_done(l@, out@, src, pos);
    }
    out
}

/// Entry `m` of `out` is entry `k` of `base` in normal form, and `k` is the
/// first entry of `base` whose name has that normal form.
pub open spec fn normal_from(base: Seq<CoreServiceConfig>, out: Seq<CoreServiceConfig>, m: int, k: int) -> bool {
    &&& 0 <= k < base.len()
    &&& service_normalised(base[k], out[m])
    &&& forall|j: int|
        0 <= j < k ==> service_name_norm((#[trigger] base[j]).name@) != service_name_norm(base[k].name@)
}

/// Entry `m` of `out` comes from the first entry of `base` with its name.
pub open spec fn has_normal_source(base: Seq<CoreServiceConfig>, out: Seq<CoreServiceConfig>, m: int) -> bool {
    exists|k: int| #[trigger] normal_from(base, out, m, k)
}

/// The name of entry `k` of `base`, in normal form, stands in `out`.
pub open spec fn name_kept(base: Seq<CoreServiceConfig>, out: Seq<CoreServiceConfig>, k: int) -> bool {
    exists|m: int| 0 <= m < out.len() && (#[trigger] out[m]).name@ == service_name_norm(base[k].name@)
}

/// `out` is the service list `base` in normal form: every entry normalised,
/// ordered by name, and only the first entry of each name kept.
pub open spec fn services_normal_form(base: Seq<CoreServiceConfig>, out: Seq<CoreServiceConfig>) -> bool {
    &&& strictly_sorted(service_names(out))
    &&& forall|m: int| 0 <= m < out.len() ==> #[trigger] has_normal_source(base, out, m)
    &&& forall|k: int| 0 <= k < base.len() ==> #[trigger] name_kept(base, out, k)
}

proof fn lemma_normal_form(
    base: Seq<CoreServiceConfig>,
    n: Seq<CoreServiceConfig>,
    out: Seq<CoreServiceConfig>,
)
    requires
        n.len() == base.len(),
        forall|i: int| 0 <= i < n.len() ==> service_normalised(base[i], #[trigger] n[i]),
        sorted_first_by_name(n, out),
    ensures
        services_normal_form(base, out),
{
    assert forall|m: int| 0 <= m < out.len() implies #[trigger] has_normal_source(base, out, m) by {
        assert(has_source(n, out, m));
        let k = choose|k: int| #[trigger] taken_from(n, out, m, k);
        assert(service_normalised(base[k], n[k]));
        assert forall|j: int| 0 <= j < k implies service_name_norm((#[trigger] base[j]).name@)
            != service_name_norm(base[k].name@) by {
            assert(service_normalised(base[j], n[j]));
            assert(n[j].name@ != n[k].name@);
        }
        assert(normal_from(base, out, m, k));
    }
    assert forall|k: int| 0 <= k < base.len() implies #[trigger] name_kept(base, out, k) by {
        assert(service_normalised(base[k], n[k]));
        assert(n[k] == n[k]);
        let m = choose|m: int| #![trigger out[m]] 0 <= m < out.len() && out[m].name@ == n[k].name@;
        assert(out[m].name@ == service_name_norm(base[k].name@));
    }
}

/// Each entry of `l` in normal form, then ordered by name with only the first
/// entry of each name kept.
pub fn normalise_services(l: &Vec<CoreServiceConfig>) -> (r: Vec<CoreServiceConfig>)
    ensures
        services_normal_form(l@, r@),
{
    let mut n: Vec<CoreServiceConfig> = Vec::new();
    let mut i: usize = 0;
    while i < l.len()
        invariant
            i <= l@.len(),
            n@.len() == i,
            forall|k: int| 0 <= k < i ==> service_normalised(l@[k], #[trigger] n@[k]),
        decreases l@.len() - i,
    {
        let mut x = clone_service(&l[i]);
        x.normalise();
        n.push(x);
        i = i + 1;
    }
    let r = sort_dedup_services(&n);
    proof {
        lemma_normal_form(l@, n@, r@);
    }
    r
}

/// The control room configuration. The operator directory block that the
/// configuration file may also carry is JSON and is kept beside it.
#[derive(Debug, Clone)]
pub struct ControlRoomConfig {
    pub server: ServerConfig,
    pub persistence: PersistenceConfig,
    pub auth: AuthConfig,
    pub federation: FederationConfig,
    pub operations: OperationsConfig,
    pub services: Vec<CoreServiceConfig>,
}

impl Default for ControlRoomConfig {
    fn default() -> (r: ControlRoomConfig)
        ensures
            r.server.bind@ == "127.0.0.1:9010"@,
            r.server.node_path@ == "/node"@,
            r.server.ui_path@ == "/ui"@,
            r.server.history_limit == 500,
            !r.persistence.enabled,
            r.persistence.load_recent_limit == 500,
            !r.auth.enabled,
            r.auth.bootstrap_role@ == "admin"@,
            r.federation.enabled,
            r.federation.poll_interval_secs == 5,
            r.operations.incident_limit == 5000,
            r.operations.shift_log_limit == 10000,
            is_default_service_list(r.services@),
    {
        ControlRoomConfig {
            server: ServerConfig::default(),
            persistence: PersistenceConfig::default(),
            auth: AuthConfig::default(),
            federation: FederationConfig::default(),
            operations: OperationsConfig::default(),
            services: default_core_services(),
        }
    }
}

/// `n` is the authentication settings `o` in normal form.
pub open spec fn auth_normalised(o: AuthConfig, n: AuthConfig) -> bool {
    &&& n.enabled == o.enabled
    &&& n.allow_health_unauthenticated == o.allow_health_unauthenticated
    &&& n.bootstrap_role@ == bootstrap_role_norm(o.bootstrap_role@)
    &&& opt_seq(n.node_token) == optional_secret_seq(opt_seq(o.node_token))
    &&& opt_seq(n.node_token_env) == optional_secret_seq(opt_seq(o.node_token_env))
    &&& opt_seq(n.bootstrap_username) == optional_secret_seq(opt_seq(o.bootstrap_username))
    &&& opt_seq(n.bootstrap_password) == optional_secret_seq(opt_seq(o.bootstrap_password))
    &&& opt_seq(n.bootstrap_username_env) == optional_secret_seq(opt_seq(o.bootstrap_username_env))
    &&& opt_seq(n.bootstrap_password_env) == optional_secret_seq(opt_seq(o.bootstrap_password_env))
}

/// `n` is the control room configuration `o` in normal form.
pub open spec fn config_normalised(o: ControlRoomConfig, n: ControlRoomConfig) -> bool {
    let history = if o.server.history_limit == 0 { 500 } else { o.server.history_limit };
    &&& n.server.bind == o.server.bind
    &&& n.server.node_path@ == normalise_path_seq(o.server.node_path@)
    &&& n.server.ui_path@ == normalise_path_seq(o.server.ui_path@)
    &&& n.server.history_limit == history
    &&& n.persistence.enabled == o.persistence.enabled
    &&& n.persistence.database_path == o.persistence.database_path
    &&& n.persistence.persist_events == o.persistence.persist_events
    &&& n.persistence.persist_noisy_events == o.persistence.persist_noisy_events
    &&& n.persistence.load_recent_limit == (if o.persistence.load_recent_limit == 0 {
        history
    } else {
        o.persistence.load_recent_limit
    })
    &&& auth_normalised(o.auth, n.auth)
    &&& n.federation == (FederationConfig {
        poll_interval_secs: max_u64(o.federation.poll_interval_secs, 1),
        request_timeout_ms: max_u64(o.federation.request_timeout_ms, 100),
        failure_threshold: if o.federation.failure_threshold < 1 { 1 } else { o.federation.failure_threshold },
        ..o.federation
    })
    &&& n.operations.state_path == o.operations.state_path
    &&& n.operations.backup_path == o.operations.backup_path
    &&& n.operations.auto_service_incidents == o.operations.auto_service_incidents
    &&& n.operations.incident_limit == max_usize(o.operations.incident_limit, 100)
    &&& n.operations.shift_log_limit == max_usize(o.operations.shift_log_limit, 100)
    &&& if o.services@.len() == 0 {
        exists|d: Seq<CoreServiceConfig>| #[trigger] is_default_service_list(d) && services_normal_form(d, n.services@)
    } else {
        services_normal_form(o.services@, n.services@)
    }
}

impl ControlRoomConfig {
    /// Brings every section into normal form; an empty service list becomes
    /// the built-in one.
    pub fn normalise(&mut self)
        ensures
            config_normalised(*old(self), *final(self)),
    {
        self.server.node_path = normalise_path(self.server.node_path.as_str());
        self.server.ui_path = normalise_path(self.server.ui_path.as_str());
        if self.server.history_limit == 0 {
            self.server.history_limit = 500;
        }
        if self.persistence.load_recent_limit == 0 {
            self.persistence.load_recent_limit = self.server.history_limit;
        }
        self.auth.normalise();
        self.federation.normalise();
        self.operations.normalise();
        if self.services.len() == 0 {
            let d = default_core_services();
            self.services = normalise_services(&d);
        } else {
            self.services = normalise_services(&self.services);
        }
    }
}

/// The configuration `o` with the command-line overrides applied, before it
/// is brought into normal form.
pub open spec fn with_cli_overrides(
    o: ControlRoomConfig,
    bind: Option<String>,
    node_path: Option<String>,
    ui_path: Option<String>,
    history_limit: Option<usize>,
    database: Option<String>,
    no_persistence: bool,
    auth_enabled: bool,
    no_auth: bool,
    node_token: Option<String>,
    bootstrap_username: Option<String>,
    bootstrap_password: Option<String>,
) -> ControlRoomConfig {
    ControlRoomConfig {
        server: ServerConfig {
            bind: match bind {
                Some(b) => b,
                None => o.server.bind,
            },
            node_path: match node_path {
                Some(p) => p,
                None => o.server.node_path,
            },
            ui_path: match ui_path {
                Some(p) => p,
                None => o.server.ui_path,
            },
            history_limit: match history_limit {
                Some(h) => h,
                None => o.server.history_limit,
            },
        },
        persistence: PersistenceConfig {
            enabled: if no_persistence {
                false
            } else if database is Some {
                true
            } else {
                o.persistence.enabled
            },
            database_path: match database {
                Some(d) => d,
                None => o.persistence.database_path,
            },
            ..o.persistence
        },
        auth: AuthConfig {
            enabled: if no_auth {
                false
            } else if auth_enabled {
                true
            } else {
                o.auth.enabled
            },
            node_token: if node_token is Some { node_token } else { o.auth.node_token },
            bootstrap_username: if bootstrap_username is Some {
                bootstrap_username
            } else {
                o.auth.bootstrap_username
            },
            bootstrap_password: if bootstrap_password is Some {
                bootstrap_password
            } else {
                o.auth.bootstrap_password
            },
            ..o.auth
        },
        ..o
    }
}

fn set_server_overrides(
    s: &mut ServerConfig,
    bind: Option<String>,
    node_path: Option<String>,
    ui_path: Option<String>,
    history_limit: Option<usize>,
)
    ensures
        final(s).bind == (match bind {
            Some(b) => b,
            None => old(s).bind,
        }),
        final(s).node_path == (match node_path {
            Some(p) => p,
            None => old(s).node_path,
        }),
        final(s).ui_path == (match ui_path {
            Some(p) => p,
            None => old(s).ui_path,
        }),
        final(s).history_limit == (match history_limit {
            Some(h) => h,
            None => old(s).history_limit,
        }),
{
    if let Some(b) = bind {
        s.bind = b;
    }
    if let Some(p) = node_path {
        s.node_path = p;
    }
    if let Some(p) = ui_path {
        s.ui_path = p;
    }
    if let Some(h) = history_limit {
        s.history_limit = h;
    }
}

fn set_persistence_overrides(p: &mut PersistenceConfig, database: Option<String>, no_persistence: bool)
    ensures
        final(p).enabled == (if no_persistence {
            false
        } else if database is Some {
            true
        } else {
            old(p).enabled
        }),
        final(p).database_path == (match database {
            Some(d) => d,
            None => old(p).database_path,
        }),
        final(p).persist_events == old(p).persist_events,
        final(p).persist_noisy_events == old(p).persist_noisy_events,
        final(p).load_recent_limit == old(p).load_recent_limit,
{
    if let Some(d) = database {
        p.enabled = true;
        p.database_path = d;
    }
    if no_persistence {
        p.enabled = false;
    }
}

fn set_auth_overrides(
    a: &mut AuthConfig,
    auth_enabled: bool,
    no_auth: bool,
    node_token: Option<String>,
    bootstrap_username: Option<String>,
    bootstrap_password: Option<String>,
)
    ensures
        *final(a) == (AuthConfig {
            enabled: if no_auth {
                false
            } else if auth_enabled {
                true
            } else {
                old(a).enabled
            },
            node_token: if node_token is Some { node_token } else { old(a).node_token },
            bootstrap_username: if bootstrap_username is Some {
                bootstrap_username
            } else {
                old(a).bootstrap_username
            },
            bootstrap_password: if bootstrap_password is Some {
                bootstrap_password
            } else {
                old(a).bootstrap_password
            },
            ..*old(a)
        }),
{
    if auth_enabled {
        a.enabled = true;
    }
    if no_auth {
        a.enabled = false;
    }
    if let Some(t) = node_token {
        a.node_token = Some(t);
    }
    if let Some(u) = bootstrap_username {
        a.bootstrap_username = Some(u);
    }
    if let Some(p) = bootstrap_password {
        a.bootstrap_password = Some(p);
    }
}

impl ControlRoomConfig {
    /// Applies the command-line overrides, then brings the configuration into
    /// normal form. A database path turns persistence on; `no_persistence`
    /// and `no_auth` win over the settings that turn the features on.
    pub fn apply_cli_overrides(
        &mut self,
        bind: Option<String>,
        node_path: Option<String>,
        ui_path: Option<String>,
        history_limit: Option<usize>,
        database: Option<String>,
        no_persistence: bool,
        auth_enabled: bool,
        no_auth: bool,
        node_token: Option<String>,
        bootstrap_username: Option<String>,
        bootstrap_password: Option<String>,
    )
        ensures
            config_normalised(
                with_cli_overrides(
                    *old(self),
                    bind,
                    node_path,
                    ui_path,
                    history_limit,
                    database,
                    no_persistence,
                    auth_enabled,
                    no_auth,
                    node_token,
                    bootstrap_username,
                    bootstrap_password,
                ),
                *final(self),
            ),
    {
        set_server_overrides(&mut self.server, bind, node_path, ui_path, history_limit);
        set_persistence_overrides(&mut self.persistence, database, no_persistence);
        set_auth_overrides(&mut self.auth, auth_enabled, no_auth, node_token, bootstrap_username, bootstrap_password);
        self.normalise();
    }
}

} // verus!
