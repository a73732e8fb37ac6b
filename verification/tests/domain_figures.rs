use netcore::domain_metrics::{
    curated_metrics, first_metric_of, metric_value_of, preferred_count_of, preferred_counts, sum_metrics_of,
    summary_metric_of, ServiceSummary,
};
use netcore::json::{Json, JsonNumber};

fn num(n: u64) -> Json {
    Json::Number(JsonNumber::Unsigned(n))
}

fn object(entries: Vec<(&str, Json)>) -> Json {
    Json::Object(entries.into_iter().map(|(k, v)| (k.to_string(), v)).collect())
}

fn service(name: &str, summary: Option<Json>) -> ServiceSummary {
    ServiceSummary { name: name.to_string(), summary }
}

fn lab_services() -> Vec<ServiceSummary> {
    vec![
        service("mobility-core", Some(object(vec![("nodes_connected", num(3)), ("subscribers_known", Json::Text("17".to_string()))]))),
        service("node-gateway", Some(object(vec![("connected_nodes", Json::Text("n/a".to_string())), ("known_nodes", num(5))]))),
        service("sds-router", Some(object(vec![("queued", num(2)), ("in_flight", Json::Text("4".to_string())), ("offline", Json::Null)]))),
        service("application-gateway", Some(object(vec![("deliveries_queued", num(u64::MAX)), ("deliveries_retry", num(9))]))),
        service("recorder", None),
    ]
}

#[test]
fn summary_values_read_as_figures() {
    assert_eq!(metric_value_of(&num(7)), Some(7));
    assert_eq!(metric_value_of(&Json::Text("12".to_string())), Some(12));
    assert_eq!(metric_value_of(&Json::Text("+12".to_string())), Some(12));
    assert_eq!(metric_value_of(&Json::Text(" 12".to_string())), None);
    assert_eq!(metric_value_of(&Json::Number(JsonNumber::Negative(-3))), None);
    assert_eq!(metric_value_of(&Json::Number(JsonNumber::Float("1.5".to_string()))), None);
    assert_eq!(metric_value_of(&Json::Bool(true)), None);
}

#[test]
fn figures_come_from_the_named_service() {
    let services = lab_services();
    assert_eq!(summary_metric_of(&services, "node-gateway", "known_nodes"), Some(5));
    assert_eq!(summary_metric_of(&services, "node-gateway", "connected_nodes"), None);
    assert_eq!(summary_metric_of(&services, "recorder", "active_recordings"), None);
    assert_eq!(summary_metric_of(&services, "kmf", "active_keys"), None);
}

#[test]
fn first_figure_found_wins() {
    let services = lab_services();
    let candidates = [("node-gateway", "connected_nodes"), ("mobility-core", "nodes_connected"), ("subscriber-core", "nodes_connected")];
    assert_eq!(first_metric_of(&services, &candidates), Some(3));
    assert_eq!(first_metric_of(&services, &[("kmf", "active_keys")]), None);
}

#[test]
fn summed_figures_add_up_and_saturate() {
    let services = lab_services();
    let sds = [("sds-router", "queued"), ("sds-router", "offline"), ("sds-router", "in_flight")];
    assert_eq!(sum_metrics_of(&services, &sds), Some(6));
    let deliveries = [("application-gateway", "deliveries_queued"), ("application-gateway", "deliveries_retry")];
    assert_eq!(sum_metrics_of(&services, &deliveries), Some(u64::MAX));
    assert_eq!(sum_metrics_of(&services, &[("sds-router", "offline")]), None);
}

#[test]
fn curated_metrics_keep_listed_fields_only() {
    let summary = object(vec![("known_nodes", num(5)), ("uptime", num(100)), ("connected_nodes", num(2))]);
    let metrics = curated_metrics("node-gateway", Some(&summary));
    let names: Vec<&str> = metrics.iter().map(|(k, _)| k.as_str()).collect();
    assert_eq!(names, vec!["connected_nodes", "known_nodes"]);
    assert!(curated_metrics("node-gateway", None).is_empty());
    assert!(curated_metrics("unknown-service", Some(&summary)).is_empty());
    assert!(curated_metrics("node-gateway", Some(&num(3))).is_empty());
}

#[test]
fn headline_counts_of_the_lab() {
    let services = lab_services();
    assert_eq!(preferred_count_of(&services, "connected_nodes"), Some(3));
    assert_eq!(preferred_count_of(&services, "subscribers_registered"), Some(17));
    assert_eq!(preferred_count_of(&services, "sds_queued"), Some(6));
    assert_eq!(preferred_count_of(&services, "application_deliveries_pending"), Some(u64::MAX));
    assert_eq!(preferred_count_of(&services, "active_recordings"), None);
    let counts = preferred_counts(&services);
    assert_eq!(counts.len(), 17);
    assert_eq!(counts[0], ("connected_nodes", Some(3)));
    assert!(counts.contains(&("sds_queued", Some(6))));
    assert!(counts.contains(&("active_keys", None)));
}
