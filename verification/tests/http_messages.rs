use netcore::http_head::{parse_request_head, parse_response_status, split_lines, split_words};
use netcore::routes::{incident_route, service_route, trim_start_str, IncidentRoute, ServiceRoute};

#[test]
fn lines_follow_str_lines() {
    assert_eq!(split_lines("a\r\nb\n\nc"), vec!["a", "b", "", "c"]);
    assert_eq!(split_lines("a\r\n"), vec!["a"]);
    assert_eq!(split_lines(""), Vec::<String>::new());
    assert_eq!(split_lines("x\r"), vec!["x\r"]);
}

#[test]
fn words_skip_runs_of_whitespace() {
    assert_eq!(split_words("  GET\t/api  HTTP/1.1 "), vec!["GET", "/api", "HTTP/1.1"]);
    assert_eq!(split_words("   "), Vec::<String>::new());
}

#[test]
fn request_head_gives_method_path_query_and_headers() {
    let head = b"POST /api/v1/incidents?dry=1 HTTP/1.1\r\nHost: room\r\nContent-Length: 12\r\nX-Note:  a:b \r\n\r\n";
    let h = parse_request_head(head).unwrap();
    assert_eq!(h.method, "POST");
    assert_eq!(h.path, "/api/v1/incidents");
    assert_eq!(h.query.get("dry"), Some("1".to_string()));
    assert_eq!(h.headers.get("host"), Some("room".to_string()));
    assert_eq!(h.headers.get("x-note"), Some("a:b".to_string()));
    assert_eq!(h.content_length, 12);
    let no_body = parse_request_head(b"GET / HTTP/1.1\r\nContent-Length: lots\r\n\r\n").unwrap();
    assert_eq!(no_body.content_length, 0);
}

#[test]
fn malformed_request_heads_are_refused() {
    assert_eq!(parse_request_head(b"").err(), Some("missing request line".to_string()));
    assert_eq!(parse_request_head(b"   \r\n\r\n").err(), Some("missing method".to_string()));
    assert_eq!(parse_request_head(b"GET\r\n\r\n").err(), Some("missing path".to_string()));
    assert_eq!(
        parse_request_head(b"POST / HTTP/1.1\r\ncontent-length: 1048577\r\n\r\n").err(),
        Some("body too large".to_string())
    );
}

#[test]
fn response_status_is_the_second_word() {
    assert_eq!(parse_response_status(b"HTTP/1.1 503 Service Unavailable\r\n\r\n"), Some(503));
    assert_eq!(parse_response_status(b"HTTP/1.1\r\n\r\n"), None);
    assert_eq!(parse_response_status(b"HTTP/1.1 99999 Big\r\n"), None);
}

#[test]
fn service_routes() {
    assert_eq!(service_route("GET", "/api/v1/services/kmf"), ServiceRoute::Show { name: "kmf".to_string() });
    assert_eq!(
        service_route("POST", "/api/v1/services/kmf/disable"),
        ServiceRoute::Switch { name: "kmf".to_string(), enable: false }
    );
    assert_eq!(
        service_route("POST", "/api/v1/services/kmf/enable/"),
        ServiceRoute::Switch { name: "kmf".to_string(), enable: true }
    );
    assert_eq!(service_route("GET", "/api/v1/services/"), ServiceRoute::NameMissing);
    assert_eq!(service_route("GET", "/api/v1/services/a/b/c"), ServiceRoute::ExtraSegments);
    assert_eq!(service_route("POST", "/api/v1/services/kmf"), ServiceRoute::Unmatched);
    assert_eq!(service_route("GET", "/api/v1/services/kmf/enable"), ServiceRoute::Unmatched);
}

#[test]
fn incident_routes() {
    assert_eq!(incident_route("GET", "/api/v1/incidents/inc_1"), IncidentRoute::Show { id: "inc_1".to_string() });
    assert_eq!(incident_route("POST", "/api/v1/incidents/inc_1/ack"), IncidentRoute::Acknowledge { id: "inc_1".to_string() });
    assert_eq!(incident_route("POST", "/api/v1/incidents/inc_1/resolve"), IncidentRoute::Resolve { id: "inc_1".to_string() });
    assert_eq!(incident_route("POST", "/api/v1/incidents/inc_1/notes"), IncidentRoute::AddNote { id: "inc_1".to_string() });
    assert_eq!(incident_route("POST", "/api/v1/incidents/inc_1/close"), IncidentRoute::Unmatched);
    assert_eq!(incident_route("POST", "/api/v1/incidents/"), IncidentRoute::IdMissing);
    assert_eq!(incident_route("POST", "/api/v1/incidents/a/b/c"), IncidentRoute::ExtraSegments);
}

#[test]
fn prefixes_are_trimmed_repeatedly() {
    assert_eq!(trim_start_str("ababx", "ab"), "x");
    assert_eq!(trim_start_str("x", ""), "x");
    assert_eq!(trim_start_str("abab", "ab"), "");
}
