use netcore::cr_config::{
    default_core_services, normalise_optional_secret, normalise_path, normalise_services, service, AuthConfig,
    ControlRoomConfig, CoreServiceConfig, FederationConfig,
};
use netcore::http::{
    available_routes, find_subslice, index_html, looks_like_websocket_upgrade, parse_admin_user_route,
    parse_http_url, parse_node_command_route, parse_node_detail_route, parse_path_and_query,
    parse_query_string, percentish_decode, query_bool, query_usize, reason_phrase, required_role_for_request,
    AuthRole, HttpRequest, HttpResponse,
};
use netcore::text_map::TextMap;

fn named_service(name: &str, display: &str) -> CoreServiceConfig {
    let mut s = CoreServiceConfig::default();
    s.name = name.to_string();
    s.display_name = display.to_string();
    s
}

fn request(method: &str, path: &str) -> HttpRequest {
    HttpRequest {
        method: method.to_string(),
        path: path.to_string(),
        query: TextMap::new(),
        headers: TextMap::new(),
        body: Vec::new(),
    }
}

#[test]
fn default_control_room_config_lists_sixteen_services_in_order() {
    let config = ControlRoomConfig::default();
    let names: Vec<&str> = config.services.iter().map(|s| s.name.as_str()).collect();
    assert_eq!(
        names,
        vec![
            "node-gateway",
            "mobility-core",
            "subscriber-core",
            "group-core",
            "call-control",
            "media-switch",
            "recorder",
            "sds-router",
            "packet-core",
            "ip-gateway",
            "security-core",
            "kmf",
            "transit",
            "application-gateway",
            "media-library",
            "iot-gateway",
        ]
    );
    assert_eq!(config.server.bind, "127.0.0.1:9010");
    assert_eq!(config.server.history_limit, 500);
    assert!(!config.persistence.enabled);
    assert!(!config.auth.enabled);
    assert_eq!(config.auth.bootstrap_role, "admin");
    assert_eq!(config.federation.request_timeout_ms, 1200);
    assert_eq!(config.operations.incident_limit, 5000);
}

#[test]
fn built_in_service_points_at_its_local_port() {
    let s = service("kmf", "KMF", "security", 8190, false);
    assert_eq!(s.base_url, "http://127.0.0.1:8190");
    assert_eq!(s.health_live, "/health/live");
    assert_eq!(s.summary_path, "/api/v1/status");
    assert!(!s.critical);
    assert!(s.enabled);
    let all = default_core_services();
    assert_eq!(all.len(), 16);
    assert_eq!(all[0].base_url, "http://127.0.0.1:8080");
    assert!(all[0].critical);
    assert_eq!(all[15].display_name, "IoT Gateway / MQTT");
}

#[test]
fn paths_get_a_leading_slash() {
    assert_eq!(normalise_path("api"), "/api");
    assert_eq!(normalise_path("/ui"), "/ui");
    assert_eq!(normalise_path(""), "/");
}

#[test]
fn blank_secrets_are_dropped_and_others_trimmed() {
    assert_eq!(normalise_optional_secret(Some("  tok  ".to_string())), Some("tok".to_string()));
    assert_eq!(normalise_optional_secret(Some("   ".to_string())), None);
    assert_eq!(normalise_optional_secret(None), None);
}

#[test]
fn service_entries_are_normalised_sorted_and_deduplicated() {
    let mut first = named_service("B", "First");
    first.base_url = " http://10.0.0.1:8000// ".to_string();
    first.health_live = "live".to_string();
    first.timeout_ms = Some(5);
    let second = named_service(" alpha one ", "  ");
    let third = named_service("b", "Third");
    let out = normalise_services(&vec![first, second, third]);
    assert_eq!(out.len(), 2);
    assert_eq!(out[0].name, "alpha-one");
    assert_eq!(out[0].display_name, "alpha-one");
    assert_eq!(out[1].name, "b");
    assert_eq!(out[1].display_name, "First");
    assert_eq!(out[1].base_url, "http://10.0.0.1:8000");
    assert_eq!(out[1].health_live, "/live");
    assert_eq!(out[1].timeout_ms, Some(100));
}

#[test]
fn empty_service_list_becomes_the_built_in_one() {
    let mut config = ControlRoomConfig::default();
    config.services = Vec::new();
    config.apply_cli_overrides(None, None, None, None, None, false, false, false, None, None, None);
    assert_eq!(config.services.len(), 16);
    assert_eq!(config.services[0].name, "application-gateway");
    assert_eq!(config.services[15].name, "transit");
}

#[test]
fn cli_overrides_win_and_are_normalised() {
    let mut config = ControlRoomConfig::default();
    config.auth.bootstrap_role = " Operator ".to_string();
    config.federation.poll_interval_secs = 0;
    config.federation.failure_threshold = 0;
    config.operations.shift_log_limit = 7;
    config.apply_cli_overrides(
        Some("0.0.0.0:9100".to_string()),
        Some("ws-node".to_string()),
        None,
        Some(0),
        Some("/tmp/room.sqlite3".to_string()),
        false,
        true,
        false,
        Some("  secret-token ".to_string()),
        Some("root".to_string()),
        Some("   ".to_string()),
    );
    assert_eq!(config.server.bind, "0.0.0.0:9100");
    assert_eq!(config.server.node_path, "/ws-node");
    assert_eq!(config.server.ui_path, "/ui");
    assert_eq!(config.server.history_limit, 500);
    assert!(config.persistence.enabled);
    assert_eq!(config.persistence.database_path, "/tmp/room.sqlite3");
    assert!(config.auth.enabled);
    assert_eq!(config.auth.bootstrap_role, "operator");
    assert_eq!(config.auth.node_token, Some("secret-token".to_string()));
    assert_eq!(config.auth.bootstrap_username, Some("root".to_string()));
    assert_eq!(config.auth.bootstrap_password, None);
    assert_eq!(config.federation.poll_interval_secs, 1);
    assert_eq!(config.federation.failure_threshold, 1);
    assert_eq!(config.operations.shift_log_limit, 100);

    let mut off = ControlRoomConfig::default();
    off.apply_cli_overrides(
        None,
        None,
        None,
        None,
        Some("/tmp/other.sqlite3".to_string()),
        true,
        true,
        true,
        None,
        None,
        None,
    );
    assert!(!off.persistence.enabled);
    assert!(!off.auth.enabled);
}

#[test]
fn unknown_bootstrap_role_falls_back_to_admin() {
    let mut auth = AuthConfig::default();
    auth.bootstrap_role = "superuser".to_string();
    auth.normalise();
    assert_eq!(auth.bootstrap_role, "admin");
    let mut viewer = AuthConfig::default();
    viewer.bootstrap_role = "VIEWER".to_string();
    viewer.normalise();
    assert_eq!(viewer.bootstrap_role, "viewer");
}

#[test]
fn federation_limits_have_floors() {
    let mut f = FederationConfig::default();
    f.request_timeout_ms = 3;
    f.normalise();
    assert_eq!(f.request_timeout_ms, 100);
    assert_eq!(f.poll_interval_secs, 5);
    assert_eq!(f.failure_threshold, 3);
}

#[test]
fn reason_phrases_follow_the_status() {
    assert_eq!(reason_phrase(200), "OK");
    assert_eq!(reason_phrase(201), "Created");
    assert_eq!(reason_phrase(204), "No Content");
    assert_eq!(reason_phrase(401), "Unauthorized");
    assert_eq!(reason_phrase(404), "Not Found");
    assert_eq!(reason_phrase(409), "Conflict");
    assert_eq!(reason_phrase(500), "Internal Server Error");
    assert_eq!(reason_phrase(418), "OK");
}

#[test]
fn text_and_html_responses_carry_their_content_type() {
    let t = HttpResponse::text(404, "missing".to_string());
    assert_eq!(t.status, 404);
    assert_eq!(t.reason, "Not Found");
    assert_eq!(t.content_type, "text/plain; charset=utf-8");
    assert_eq!(t.body, b"missing".to_vec());
    let h = HttpResponse::html(200, "<p>ä</p>".to_string());
    assert_eq!(h.content_type, "text/html; charset=utf-8");
    assert_eq!(h.body, "<p>ä</p>".as_bytes().to_vec());
}

#[test]
fn subslice_search_finds_the_header_end() {
    assert_eq!(find_subslice(b"GET / HTTP/1.1\r\n\r\nbody", b"\r\n\r\n"), Some(14));
    assert_eq!(find_subslice(b"abc", b""), None);
    assert_eq!(find_subslice(b"ab", b"abc"), None);
    assert_eq!(find_subslice(b"xxabab", b"ab"), Some(2));
}

#[test]
fn websocket_upgrades_are_recognised_ignoring_case() {
    let upgrade = b"GET /node HTTP/1.1\r\nUpgrade: WebSocket\r\nSec-WebSocket-Key: abc\r\n\r\n";
    assert!(looks_like_websocket_upgrade(upgrade));
    assert!(!looks_like_websocket_upgrade(b"GET / HTTP/1.1\r\nUpgrade: websocket\r\n\r\n"));
}

#[test]
fn query_strings_decode_plus_and_default_to_true() {
    assert_eq!(percentish_decode("a+b+c"), "a b c");
    let q = parse_query_string("limit=10&&quiet&name=north+site&x=1=2");
    assert_eq!(q.get("limit"), Some("10".to_string()));
    assert_eq!(q.get("quiet"), Some("true".to_string()));
    assert_eq!(q.get("name"), Some("north site".to_string()));
    assert_eq!(q.get("x"), Some("1=2".to_string()));
    assert_eq!(q.len(), 4);
    let (path, query) = parse_path_and_query("/api/sds?limit=100");
    assert_eq!(path, "/api/sds");
    assert_eq!(query.get("limit"), Some("100".to_string()));
    let (plain, none) = parse_path_and_query("/api/groups");
    assert_eq!(plain, "/api/groups");
    assert_eq!(none.len(), 0);
}

#[test]
fn query_numbers_and_flags_have_defaults_and_caps() {
    let mut r = request("GET", "/api/events");
    let (_, q) = parse_path_and_query("/api/events?limit=900&quiet=yes&bad=-1&off=0");
    r.query = q;
    assert_eq!(query_usize(&r, "limit", 50, 500), 500);
    assert_eq!(query_usize(&r, "bad", 50, 500), 50);
    assert_eq!(query_usize(&r, "missing", 50, 500), 50);
    assert!(query_bool(&r, "quiet", false));
    assert!(!query_bool(&r, "off", true));
    assert!(query_bool(&r, "missing", true));
}

#[test]
fn route_paths_are_split_into_their_parts() {
    assert_eq!(parse_admin_user_route("/api/admin/users/alice"), Some(("alice".to_string(), None)));
    assert_eq!(
        parse_admin_user_route("/api/admin/users/alice/password"),
        Some(("alice".to_string(), Some("password")))
    );
    assert_eq!(parse_admin_user_route("/api/admin/users/alice/other"), None);
    assert_eq!(parse_admin_user_route("/api/admin/users"), None);

    let detail = parse_node_detail_route("/api/nodes/tbs-one/calls").unwrap();
    assert_eq!(detail.node_id, "tbs-one");
    assert_eq!(detail.collection, Some("calls".to_string()));
    assert!(parse_node_detail_route("/api/nodes/tbs-one/calls/extra").is_none());

    let cmd = parse_node_command_route("/api/nodes/tbs-one/commands/kick").unwrap();
    assert_eq!(cmd.node_id, "tbs-one");
    assert_eq!(cmd.shortcut, Some("kick".to_string()));
    let plain = parse_node_command_route("/api/nodes/tbs-one/commands").unwrap();
    assert_eq!(plain.shortcut, None);
    assert!(parse_node_command_route("/api/nodes/tbs-one/calls").is_none());
}

#[test]
fn write_routes_need_the_right_role() {
    assert_eq!(required_role_for_request(&request("GET", "/api/admin/users")), AuthRole::Admin);
    assert_eq!(required_role_for_request(&request("POST", "/api/v1/services/kmf/disable")), AuthRole::Admin);
    assert_eq!(required_role_for_request(&request("GET", "/api/v1/services/kmf/disable")), AuthRole::Viewer);
    assert_eq!(required_role_for_request(&request("POST", "/api/directory/import")), AuthRole::Admin);
    assert_eq!(required_role_for_request(&request("POST", "/api/v1/incidents/inc_1/ack")), AuthRole::Operator);
    assert_eq!(required_role_for_request(&request("POST", "/api/v1/shift-log")), AuthRole::Operator);
    assert_eq!(
        required_role_for_request(&request("POST", "/api/nodes/tbs/commands/restart-service")),
        AuthRole::Admin
    );
    assert_eq!(required_role_for_request(&request("POST", "/api/nodes/tbs/commands/dgna")), AuthRole::Operator);
    assert_eq!(required_role_for_request(&request("POST", "/api/commands")), AuthRole::Operator);
    assert_eq!(required_role_for_request(&request("GET", "/api/overview")), AuthRole::Viewer);
}

#[test]
fn directory_upstream_urls_split_at_the_first_colon() {
    assert_eq!(
        parse_http_url("http://10.0.1.154:8230/api/directory"),
        Some(("10.0.1.154".to_string(), 8230, "/api/directory".to_string()))
    );
    assert_eq!(parse_http_url("http://directory"), Some(("directory".to_string(), 80, "/".to_string())));
    assert_eq!(parse_http_url("https://directory/"), None);
    assert_eq!(parse_http_url("http://host:port/"), None);
}

#[test]
fn not_found_lists_every_route_and_both_sockets() {
    let routes = available_routes("/node", "/ui");
    assert_eq!(routes.len(), 56);
    assert_eq!(routes[0], "GET /");
    assert_eq!(routes[54], "WS /node");
    assert_eq!(routes[55], "WS /ui");
}

#[test]
fn index_page_names_both_socket_paths() {
    let page = index_html("/node", "/ui");
    assert!(page.starts_with("<!doctype html>"));
    assert!(page.contains("<code>/node</code> · Operatorfeed <code>/ui</code>"));
}
