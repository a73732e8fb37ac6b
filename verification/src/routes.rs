//! Which operation a request under `/api/v1/services/` or
//! `/api/v1/incidents/` asks for.
use vstd::prelude::*;
use crate::http::{
    admin_user_route, node_command_route, node_detail_route, parse_admin_user_route, parse_node_command_route,
    parse_node_detail_route, path_parts, path_parts_of,
};
use crate::text::{chars_of, opt_view, starts_with, starts_with_seq, str_eq, string_of_range, trim_start_str_seq};

verus! {

/// `s` without any leading copies of `p` (`str::trim_start_matches`).
pub fn trim_start_str(s: &str, p: &str) -> (r: String)
    ensures
        r@ == trim_start_str_seq(s@, p@),
{
    let v = chars_of(s);
    let plen = chars_of(p).len();
    let vlen: usize = v.len();
    let mut start: usize = 0;
    let mut rest = string_of_range(&v, 0, v.len());
    assert(rest@ =~= s@.skip(0));
    assert(s@.skip(0) =~= s@);
    if plen == 0 {
        return rest;
    }
    while starts_with(rest.as_str(), p)
        invariant
            v@ == s@,
            vlen == v@.len(),
            plen == p@.len(),
            plen > 0,
            start <= v@.len(),
            rest@ == s@.skip(start as int),
            trim_start_str_seq(s@, p@) == trim_start_str_seq(s@.skip(start as int), p@),
        decreases v@.len() - start,
    {
        assert(starts_with_seq(rest@, p@));
        assert(rest@.len() >= plen);
        assert(rest@.len() == v@.len() - start);
        assert(trim_start_str_seq(s@.skip(start as int), p@) == trim_start_str_seq(
            s@.skip(start as int).skip(plen as int),
            p@,
        ));
        start = start + plen;
        assert(s@.skip(start as int) =~= rest@.skip(plen as int));
        rest = string_of_range(&v, start, v.len());
        assert(rest@ =~= s@.skip(start as int));
    }
    rest
}

/// A request under `/api/v1/services/`.
#[derive(Debug, PartialEq, Eq)]
pub enum ServiceRoute {
    /// No service name follows the prefix.
    NameMissing,
    /// More than a name and an action follow the prefix.
    ExtraSegments,
    /// `GET` of one service.
    Show { name: String },
    /// `POST` of `enable` or `disable` for one service.
    Switch { name: String, enable: bool },
    /// Any other method or action.
    Unmatched,
}

/// The segments after the service prefix.
pub open spec fn service_parts(path: Seq<char>) -> Seq<Seq<char>> {
    path_parts(trim_start_str_seq(path, "/api/v1/services/"@))
}

/// Which service operation `method` and `path` ask for.
pub open spec fn service_route_is(method: Seq<char>, path: Seq<char>, r: ServiceRoute) -> bool {
    let parts = service_parts(path);
    let show = parts.len() == 1 && method == "GET"@;
    let switch = parts.len() == 2 && method == "POST"@ && (parts[1] == "enable"@ || parts[1] == "disable"@);
    match r {
        ServiceRoute::NameMissing => parts.len() == 0,
        ServiceRoute::ExtraSegments => parts.len() > 2,
        ServiceRoute::Show { name } => show && name@ == parts[0],
        ServiceRoute::Switch { name, enable } => switch && name@ == parts[0] && enable == (parts[1] == "enable"@),
        ServiceRoute::Unmatched => 1 <= parts.len() <= 2 && !show && !switch,
    }
}

/// Reads which service operation a request asks for.
pub fn service_route(method: &str, path: &str) -> (r: ServiceRoute)
    ensures
        service_route_is(method@, path@, r),
{
    proof {
        reveal_strlit("GET");
        reveal_strlit("POST");
        reveal_strlit("enable");
        reveal_strlit("disable");
        assert("enable"@.len() == 6 && "disable"@.len() == 7);
    }
    let rest = trim_start_str(path, "/api/v1/services/");
    let parts = path_parts_of(rest.as_str());
    assert(parts.deep_view().len() == parts@.len());
    if parts.len() == 0 {
        return ServiceRoute::NameMissing;
    }
    if parts.len() > 2 {
        return ServiceRoute::ExtraSegments;
    }
    assert(parts@[0]@ == parts.deep_view()[0]);
    if parts.len() == 1 {
        if str_eq(method, "GET") {
            return ServiceRoute::Show { name: parts[0].clone() };
        }
        return ServiceRoute::Unmatched;
    }
    assert(parts@[1]@ == parts.deep_view()[1]);
    let enable = str_eq(parts[1].as_str(), "enable");
    let disable = str_eq(parts[1].as_str(), "disable");
    if str_eq(method, "POST") && (enable || disable) {
        ServiceRoute::Switch { name: parts[0].clone(), enable }
    } else {
        ServiceRoute::Unmatched
    }
}

/// A request under `/api/v1/incidents/`.
#[derive(Debug, PartialEq, Eq)]
pub enum IncidentRoute {
    /// No incident id follows the prefix.
    IdMissing,
    /// More than an id and an action follow the prefix.
    ExtraSegments,
    /// `GET` of one incident.
    Show { id: String },
    /// `POST .../ack`.
    Acknowledge { id: String },
    /// `POST .../resolve`.
    Resolve { id: String },
    /// `POST .../notes`.
    AddNote { id: String },
    /// Any other method or action.
    Unmatched,
}

/// The segments after the incident prefix.
pub open spec fn incident_parts(path: Seq<char>) -> Seq<Seq<char>> {
    path_parts(trim_start_str_seq(path, "/api/v1/incidents/"@))
}

/// `POST` of `action` on one incident.
pub open spec fn incident_action(method: Seq<char>, parts: Seq<Seq<char>>, action: Seq<char>) -> bool {
    parts.len() == 2 && method == "POST"@ && parts[1] == action
}

/// Which incident operation `method` and `path` ask for.
pub open spec fn incident_route_is(method: Seq<char>, path: Seq<char>, r: IncidentRoute) -> bool {
    let parts = incident_parts(path);
    let show = parts.len() == 1 && method == "GET"@;
    match r {
        IncidentRoute::IdMissing => parts.len() == 0,
        IncidentRoute::ExtraSegments => parts.len() > 2,
        IncidentRoute::Show { id } => show && id@ == parts[0],
        IncidentRoute::Acknowledge { id } => incident_action(method, parts, "ack"@) && id@ == parts[0],
        IncidentRoute::Resolve { id } => incident_action(method, parts, "resolve"@) && id@ == parts[0],
        IncidentRoute::AddNote { id } => incident_action(method, parts, "notes"@) && id@ == parts[0],
        IncidentRoute::Unmatched => 1 <= parts.len() <= 2 && !show && !incident_action(method, parts, "ack"@)
            && !incident_action(method, parts, "resolve"@) && !incident_action(method, parts, "notes"@),
    }
}

/// Reads which incident operation a request asks for.
pub fn incident_route(method: &str, path: &str) -> (r: IncidentRoute)
    ensures
        incident_route_is(method@, path@, r),
{
    let rest = trim_start_str(path, "/api/v1/incidents/");
    let parts = path_parts_of(rest.as_str());
    assert(parts.deep_view().len() == parts@.len());
    if parts.len() == 0 {
        return IncidentRoute::IdMissing;
    }
    if parts.len() > 2 {
        return IncidentRoute::ExtraSegments;
    }
    assert(parts@[0]@ == parts.deep_view()[0]);
    if parts.len() == 1 {
        if str_eq(method, "GET") {
            return IncidentRoute::Show { id: parts[0].clone() };
        }
        return IncidentRoute::Unmatched;
    }
    assert(parts@[1]@ == parts.deep_view()[1]);
    if !str_eq(method, "POST") {
        return IncidentRoute::Unmatched;
    }
    let id = parts[0].clone();
    if str_eq(parts[1].as_str(), "ack") {
        IncidentRoute::Acknowledge { id }
    } else if str_eq(parts[1].as_str(), "resolve") {
        IncidentRoute::Resolve { id }
    } else if str_eq(parts[1].as_str(), "notes") {
        IncidentRoute::AddNote { id }
    } else {
        IncidentRoute::Unmatched
    }
}


/// An endpoint reached by a fixed method and path.
#[derive(Debug, Clone, Copy, PartialEq, Eq, Structural)]
pub enum FixedEndpoint {
    /// The operator page.
    Index,
    /// Liveness.
    HealthLive,
    /// Readiness.
    HealthReady,
    /// Prometheus counts.
    Metrics,
    /// Service status.
    Status,
    /// The API description.
    OpenApi,
    /// The federation configuration.
    ConfigSnapshot,
    /// The service dependencies.
    Dependencies,
    /// The operations export.
    Export,
    /// The combined overview.
    ControlRoomOverview,
    /// The monitored services.
    Services,
    /// The incident list.
    ListIncidents,
    /// The shift log.
    ShiftLog,
    /// Health.
    Health,
    /// The caller.
    Me,
    /// The radio overview.
    Overview,
    /// The operator directory.
    Directory,
    /// The resolved directory.
    DirectoryResolved,
    /// The directory upstream state.
    DirectoryUpstream,
    /// The whole radio state.
    State,
    /// The RF reports.
    Rf,
    /// The health reports.
    HealthFull,
    /// The packet data reports.
    PacketData,
    /// The subscribers.
    Subscribers,
    /// The talk groups.
    Groups,
    /// The calls.
    Calls,
    /// The SDS log.
    Sds,
    /// The emergencies.
    Emergencies,
    /// The positions.
    Locations,
    /// The nodes.
    Nodes,
    /// The command audit.
    Commands,
    /// The event log.
    Events,
    /// The operator accounts.
    ListUsers,
    /// A service poll.
    PollServices,
    /// A new incident.
    CreateIncident,
    /// A new shift log entry.
    AddShiftLog,
    /// A login.
    Login,
    /// A directory import or merge.
    DirectoryImport,
    /// A directory refresh from upstream.
    DirectoryRefresh,
    /// A new operator account.
    CreateUser,
    /// A command for a node.
    SubmitCommand,
}

/// The fixed endpoint that `GET` reaches at `path`.
pub open spec fn fixed_get(path: Seq<char>) -> Option<FixedEndpoint> {
    if path == "/"@ {
        Some(FixedEndpoint::Index)
    } else if path == "/health/live"@ {
        Some(FixedEndpoint::HealthLive)
    } else if path == "/health/ready"@ {
        Some(FixedEndpoint::HealthReady)
    } else if path == "/metrics"@ {
        Some(FixedEndpoint::Metrics)
    } else if path == "/api/v1/status"@ {
        Some(FixedEndpoint::Status)
    } else if path == "/openapi.json"@ {
        Some(FixedEndpoint::OpenApi)
    } else if path == "/api/v1/openapi.json"@ {
        Some(FixedEndpoint::OpenApi)
    } else if path == "/api/v1/config"@ {
        Some(FixedEndpoint::ConfigSnapshot)
    } else if path == "/api/v1/dependencies"@ {
        Some(FixedEndpoint::Dependencies)
    } else if path == "/api/v1/export"@ {
        Some(FixedEndpoint::Export)
    } else if path == "/api/v1/control-room/overview"@ {
        Some(FixedEndpoint::ControlRoomOverview)
    } else if path == "/api/v1/services"@ {
        Some(FixedEndpoint::Services)
    } else if path == "/api/v1/incidents"@ {
        Some(FixedEndpoint::ListIncidents)
    } else if path == "/api/v1/shift-log"@ {
        Some(FixedEndpoint::ShiftLog)
    } else if path == "/health"@ {
        Some(FixedEndpoint::Health)
    } else if path == "/api/me"@ {
        Some(FixedEndpoint::Me)
    } else if path == "/api/overview"@ {
        Some(FixedEndpoint::Overview)
    } else if path == "/api/directory"@ {
        Some(FixedEndpoint::Directory)
    } else if path == "/api/directory/resolved"@ {
        Some(FixedEndpoint::DirectoryResolved)
    } else if path == "/api/directory/upstream"@ {
        Some(FixedEndpoint::DirectoryUpstream)
    } else if path == "/api/state"@ {
        Some(FixedEndpoint::State)
    } else if path == "/api/rf"@ {
        Some(FixedEndpoint::Rf)
    } else if path == "/api/health/full"@ {
        Some(FixedEndpoint::HealthFull)
    } else if path == "/api/packet-data"@ {
        Some(FixedEndpoint::PacketData)
    } else if path == "/api/subscribers"@ {
        Some(FixedEndpoint::Subscribers)
    } else if path == "/api/groups"@ {
        Some(FixedEndpoint::Groups)
    } else if path == "/api/calls"@ {
        Some(FixedEndpoint::Calls)
    } else if path == "/api/sds"@ {
        Some(FixedEndpoint::Sds)
    } else if path == "/api/emergencies"@ {
        Some(FixedEndpoint::Emergencies)
    } else if path == "/api/locations"@ {
        Some(FixedEndpoint::Locations)
    } else if path == "/api/nodes"@ {
        Some(FixedEndpoint::Nodes)
    } else if path == "/api/commands"@ {
        Some(FixedEndpoint::Commands)
    } else if path == "/api/events"@ {
        Some(FixedEndpoint::Events)
    } else if path == "/api/admin/users"@ {
        Some(FixedEndpoint::ListUsers)
    } else {
        None
    }
}

/// The fixed endpoint that `POST` reaches at `path`.
pub open spec fn fixed_post(path: Seq<char>) -> Option<FixedEndpoint> {
    if path == "/api/v1/services/poll"@ {
        Some(FixedEndpoint::PollServices)
    } else if path == "/api/v1/incidents"@ {
        Some(FixedEndpoint::CreateIncident)
    } else if path == "/api/v1/shift-log"@ {
        Some(FixedEndpoint::AddShiftLog)
    } else if path == "/api/login"@ {
        Some(FixedEndpoint::Login)
    } else if path == "/api/directory/import"@ {
        Some(FixedEndpoint::DirectoryImport)
    } else if path == "/api/directory/merge"@ {
        Some(FixedEndpoint::DirectoryImport)
    } else if path == "/api/directory/refresh"@ {
        Some(FixedEndpoint::DirectoryRefresh)
    } else if path == "/api/admin/users"@ {
        Some(FixedEndpoint::CreateUser)
    } else if path == "/api/commands"@ {
        Some(FixedEndpoint::SubmitCommand)
    } else {
        None
    }
}

fn fixed_get_of(path: &str) -> (r: Option<FixedEndpoint>)
    ensures
        r == fixed_get(path@),
{
    if str_eq(path, "/") {
        Some(FixedEndpoint::Index)
    } else if str_eq(path, "/health/live") {
        Some(FixedEndpoint::HealthLive)
    } else if str_eq(path, "/health/ready") {
        Some(FixedEndpoint::HealthReady)
    } else if str_eq(path, "/metrics") {
        Some(FixedEndpoint::Metrics)
    } else if str_eq(path, "/api/v1/status") {
        Some(FixedEndpoint::Status)
    } else if str_eq(path, "/openapi.json") {
        Some(FixedEndpoint::OpenApi)
    } else if str_eq(path, "/api/v1/openapi.json") {
        Some(FixedEndpoint::OpenApi)
    } else if str_eq(path, "/api/v1/config") {
        Some(FixedEndpoint::ConfigSnapshot)
    } else if str_eq(path, "/api/v1/dependencies") {
        Some(FixedEndpoint::Dependencies)
    } else if str_eq(path, "/api/v1/export") {
        Some(FixedEndpoint::Export)
    } else if str_eq(path, "/api/v1/control-room/overview") {
        Some(FixedEndpoint::ControlRoomOverview)
    } else if str_eq(path, "/api/v1/services") {
        Some(FixedEndpoint::Services)
    } else if str_eq(path, "/api/v1/incidents") {
        Some(FixedEndpoint::ListIncidents)
    } else if str_eq(path, "/api/v1/shift-log") {
        Some(FixedEndpoint::ShiftLog)
    } else if str_eq(path, "/health") {
        Some(FixedEndpoint::Health)
    } else if str_eq(path, "/api/me") {
        Some(FixedEndpoint::Me)
    } else if str_eq(path, "/api/overview") {
        Some(FixedEndpoint::Overview)
    } else if str_eq(path, "/api/directory") {
        Some(FixedEndpoint::Directory)
    } else if str_eq(path, "/api/directory/resolved") {
        Some(FixedEndpoint::DirectoryResolved)
    } else if str_eq(path, "/api/directory/upstream") {
        Some(FixedEndpoint::DirectoryUpstream)
    } else if str_eq(path, "/api/state") {
        Some(FixedEndpoint::State)
    } else if str_eq(path, "/api/rf") {
        Some(FixedEndpoint::Rf)
    } else if str_eq(path, "/api/health/full") {
        Some(FixedEndpoint::HealthFull)
    } else if str_eq(path, "/api/packet-data") {
        Some(FixedEndpoint::PacketData)
    } else if str_eq(path, "/api/subscribers") {
        Some(FixedEndpoint::Subscribers)
    } else if str_eq(path, "/api/groups") {
        Some(FixedEndpoint::Groups)
    } else if str_eq(path, "/api/calls") {
        Some(FixedEndpoint::Calls)
    } else if str_eq(path, "/api/sds") {
        Some(FixedEndpoint::Sds)
    } else if str_eq(path, "/api/emergencies") {
        Some(FixedEndpoint::Emergencies)
    } else if str_eq(path, "/api/locations") {
        Some(FixedEndpoint::Locations)
    } else if str_eq(path, "/api/nodes") {
        Some(FixedEndpoint::Nodes)
    } else if str_eq(path, "/api/commands") {
        Some(FixedEndpoint::Commands)
    } else if str_eq(path, "/api/events") {
        Some(FixedEndpoint::Events)
    } else if str_eq(path, "/api/admin/users") {
        Some(FixedEndpoint::ListUsers)
    } else {
        None
    }
}

fn fixed_post_of(path: &str) -> (r: Option<FixedEndpoint>)
    ensures
        r == fixed_post(path@),
{
    if str_eq(path, "/api/v1/services/poll") {
        Some(FixedEndpoint::PollServices)
    } else if str_eq(path, "/api/v1/incidents") {
        Some(FixedEndpoint::CreateIncident)
    } else if str_eq(path, "/api/v1/shift-log") {
        Some(FixedEndpoint::AddShiftLog)
    } else if str_eq(path, "/api/login") {
        Some(FixedEndpoint::Login)
    } else if str_eq(path, "/api/directory/import") {
        Some(FixedEndpoint::DirectoryImport)
    } else if str_eq(path, "/api/directory/merge") {
        Some(FixedEndpoint::DirectoryImport)
    } else if str_eq(path, "/api/directory/refresh") {
        Some(FixedEndpoint::DirectoryRefresh)
    } else if str_eq(path, "/api/admin/users") {
        Some(FixedEndpoint::CreateUser)
    } else if str_eq(path, "/api/commands") {
        Some(FixedEndpoint::SubmitCommand)
    } else {
        None
    }
}

/// The fixed endpoint that `method` reaches at `path`.
pub open spec fn fixed_endpoint(method: Seq<char>, path: Seq<char>) -> Option<FixedEndpoint> {
    if method == "GET"@ {
        fixed_get(path)
    } else if method == "POST"@ {
        fixed_post(path)
    } else {
        None
    }
}

/// What a request under `/api/admin/users/` does to an account.
#[derive(Debug, Clone, Copy, PartialEq, Eq, Structural)]
pub enum AdminUserAction {
    ChangePassword,
    Update,
    Delete,
}

/// The endpoint of a request.
#[derive(Debug, PartialEq, Eq)]
pub enum Endpoint {
    /// A CORS preflight (`OPTIONS`).
    Preflight,
    /// An endpoint reached by a fixed method and path.
    Fixed(FixedEndpoint),
    /// A request under `/api/v1/services/`.
    Service(ServiceRoute),
    /// A request under `/api/v1/incidents/`.
    Incident(IncidentRoute),
    /// A change to one operator account.
    AdminUser { username: String, action: AdminUserAction },
    /// A request under `/api/admin/users/` that matches no account operation.
    AdminUserUnknown,
    /// `GET` of a node or of one of its collections.
    NodeDetail { node_id: String, collection: Option<String> },
    /// `POST` of a command to a node, possibly by shortcut.
    NodeCommand { node_id: String, shortcut: Option<String> },
    /// Nothing is served here.
    NotFound,
}

/// Which account operation a request under `/api/admin/users/` asks for.
pub open spec fn admin_endpoint_is(method: Seq<char>, path: Seq<char>, e: Endpoint) -> bool {
    match admin_user_route(path) {
        Some((user, Some(_))) => if method == "POST"@ {
            e matches Endpoint::AdminUser { username, action } && username@ == user && action
                == AdminUserAction::ChangePassword
        } else {
            e is AdminUserUnknown
        },
        Some((user, None)) => if method == "PATCH"@ || method == "POST"@ {
            e matches Endpoint::AdminUser { username, action } && username@ == user && action == AdminUserAction::Update
        } else if method == "DELETE"@ {
            e matches Endpoint::AdminUser { username, action } && username@ == user && action == AdminUserAction::Delete
        } else {
            e is AdminUserUnknown
        },
        None => e is AdminUserUnknown,
    }
}

/// The endpoint that `method` and `path` reach: a preflight, then the fixed
/// endpoints, then the service, incident and account prefixes, then a node's
/// details (`GET`) or commands (`POST`).
pub open spec fn endpoint_is(method: Seq<char>, path: Seq<char>, e: Endpoint) -> bool {
    if method == "OPTIONS"@ {
        e is Preflight
    } else if fixed_endpoint(method, path) is Some {
        e == Endpoint::Fixed(fixed_endpoint(method, path)->0)
    } else if starts_with_seq(path, "/api/v1/services/"@) {
        e matches Endpoint::Service(r) && service_route_is(method, path, r)
    } else if starts_with_seq(path, "/api/v1/incidents/"@) {
        e matches Endpoint::Incident(r) && incident_route_is(method, path, r)
    } else if starts_with_seq(path, "/api/admin/users/"@) {
        admin_endpoint_is(method, path, e)
    } else if method == "GET"@ {
        match node_detail_route(path) {
            Some((n, c)) => e matches Endpoint::NodeDetail { node_id, collection } && node_id@ == n && opt_view(
                collection,
            ) == c,
            None => e is NotFound,
        }
    } else if method == "POST"@ {
        match node_command_route(path) {
            Some((n, c)) => e matches Endpoint::NodeCommand { node_id, shortcut } && node_id@ == n && opt_view(
                shortcut,
            ) == c,
            None => e is NotFound,
        }
    } else {
        e is NotFound
    }
}

/// The endpoint of a request.
pub fn endpoint_of(method: &str, path: &str) -> (r: Endpoint)
    ensures
        endpoint_is(method@, path@, r),
{
    if str_eq(method, "OPTIONS") {
        return Endpoint::Preflight;
    }
    let fixed = if str_eq(method, "GET") {
        fixed_get_of(path)
    } else if str_eq(method, "POST") {
        fixed_post_of(path)
    } else {
        None
    };
    if let Some(f) = fixed {
        return Endpoint::Fixed(f);
    }
    if starts_with(path, "/api/v1/services/") {
        return Endpoint::Service(service_route(method, path));
    }
    if starts_with(path, "/api/v1/incidents/") {
        return Endpoint::Incident(incident_route(method, path));
    }
    if starts_with(path, "/api/admin/users/") {
        return match parse_admin_user_route(path) {
            Some((username, Some(_))) => if str_eq(method, "POST") {
                Endpoint::AdminUser { username, action: AdminUserAction::ChangePassword }
            } else {
                Endpoint::AdminUserUnknown
            },
            Some((username, None)) => if str_eq(method, "PATCH") || str_eq(method, "POST") {
                Endpoint::AdminUser { username, action: AdminUserAction::Update }
            } else if str_eq(method, "DELETE") {
                Endpoint::AdminUser { username, action: AdminUserAction::Delete }
            } else {
                Endpoint::AdminUserUnknown
            },
            None => Endpoint::AdminUserUnknown,
        };
    }
    if str_eq(method, "GET") {
        return match parse_node_detail_route(path) {
            Some(route) => Endpoint::NodeDetail { node_id: route.node_id, collection: route.collection },
            None => Endpoint::NotFound,
        };
    }
    if str_eq(method, "POST") {
        return match parse_node_command_route(path) {
            Some(route) => Endpoint::NodeCommand { node_id: route.node_id, shortcut: route.shortcut },
            None => Endpoint::NotFound,
        };
    }
    Endpoint::NotFound
}

/// Whether a request is served without a login: the health endpoints when
/// the configuration keeps them public, and the login itself.
pub open spec fn public_request(method: Seq<char>, path: Seq<char>, allow_health_unauthenticated: bool) -> bool {
    (method == "GET"@ && (path == "/health"@ || path == "/health/live"@ || path == "/health/ready"@)
        && allow_health_unauthenticated) || (method == "POST"@ && path == "/api/login"@)
}

/// Whether a request is served without a login.
pub fn is_public_request(method: &str, path: &str, allow_health_unauthenticated: bool) -> (r: bool)
    ensures
        r == public_request(method@, path@, allow_health_unauthenticated),
{
    (str_eq(method, "GET") && (str_eq(path, "/health") || str_eq(path, "/health/live") || str_eq(path, "/health/ready"))
        && allow_health_unauthenticated) || (str_eq(method, "POST") && str_eq(path, "/api/login"))
}

} // verus!
