use netcore::directory_doc::{
    canonical_directory_value, directory_from_upstream, directory_item_key, directory_object_name,
    directory_resolved_from_value, is_directory_mergeable, merge_directory_value,
    netcore_directory_api_to_control_room_at, upstream_sync_message, value_field_string, value_field_u64,
};
use netcore::json::{json_get, Json, JsonNumber};

fn t(s: &str) -> Json {
    Json::Text(s.to_string())
}

fn u(n: u64) -> Json {
    Json::Number(JsonNumber::Unsigned(n))
}

fn l(items: Vec<Json>) -> Json {
    Json::List(items)
}

fn o(entries: Vec<(&str, Json)>) -> Json {
    let mut es: Vec<(String, Json)> = entries.into_iter().map(|(k, v)| (k.to_string(), v)).collect();
    es.sort_by(|a, b| a.0.cmp(&b.0));
    Json::Object(es)
}

fn at<'a>(j: &'a Json, path: &[&str]) -> Option<&'a Json> {
    let mut cur = j;
    for key in path {
        cur = json_get(cur, key)?;
    }
    Some(cur)
}

fn text_at(j: &Json, path: &[&str]) -> Option<String> {
    match at(j, path)? {
        Json::Text(s) => Some(s.clone()),
        _ => None,
    }
}

fn keys(j: &Json) -> Vec<String> {
    match j {
        Json::Object(es) => es.iter().map(|(k, _)| k.clone()).collect(),
        _ => Vec::new(),
    }
}

#[test]
fn field_readers_take_the_first_usable_field() {
    let item = o(vec![("id", t(" 42 ")), ("issi", t("")), ("name", t("  ")), ("short", Json::Number(JsonNumber::Negative(-5)))]);
    assert_eq!(value_field_u64(&item, &["issi", "id"]), Some(42));
    assert_eq!(value_field_string(&item, &["name", "short"]), Some("-5".to_string()));
    assert_eq!(value_field_string(&item, &["label"]), None);
    assert_eq!(directory_item_key(&item, &["issi", "id"]), Some("42".to_string()));
    assert_eq!(directory_item_key(&u(3), &["id"]), None);
}

#[test]
fn object_name_skips_placeholders() {
    assert_eq!(directory_object_name(&o(vec![("name", t(" Alpha "))]), 7), Some("Alpha".to_string()));
    assert_eq!(directory_object_name(&o(vec![("name", t("-"))]), 7), None);
    assert_eq!(directory_object_name(&o(vec![("name", t("7"))]), 7), None);
    assert_eq!(directory_object_name(&o(vec![("label", u(12))]), 7), Some("12".to_string()));
    assert_eq!(
        directory_object_name(&o(vec![("alias", Json::Number(JsonNumber::Float("1.5".to_string())))]), 7),
        Some("1.5".to_string())
    );
}

#[test]
fn canonical_form_keys_collections_and_unwraps_directory() {
    let doc = o(vec![(
        "directory",
        o(vec![
            (
                "subscribers",
                l(vec![
                    o(vec![("issi", u(1001)), ("name", t("A"))]),
                    o(vec![("id", t("1002")), ("name", t("B"))]),
                    o(vec![("name", t("no key"))]),
                    o(vec![("issi", u(1001)), ("name", t("A2"))]),
                ]),
            ),
            ("groups", o(vec![("91", o(vec![("name", t("G"))]))])),
            ("statuses", l(vec![o(vec![("code", u(3)), ("label", t("Busy"))])])),
        ]),
    )]);
    let canon = canonical_directory_value(doc);
    let subs = at(&canon, &["subscribers"]).unwrap();
    assert_eq!(keys(subs), vec!["1001".to_string(), "1002".to_string()]);
    assert_eq!(text_at(&canon, &["subscribers", "1001", "name"]), Some("A2".to_string()));
    assert_eq!(text_at(&canon, &["groups", "91", "name"]), Some("G".to_string()));
    assert_eq!(text_at(&canon, &["statuses", "3", "label"]), Some("Busy".to_string()));
}

#[test]
fn merge_is_deep_and_sets_the_infrastructure_flag() {
    let target = o(vec![("a", o(vec![("x", u(1))])), ("hide_infrastructure", Json::Bool(false))]);
    let incoming = o(vec![("a", o(vec![("y", u(2))])), ("b", u(3))]);
    let merged = merge_directory_value(target, incoming);
    assert_eq!(keys(&merged), vec!["a".to_string(), "b".to_string(), "hide_infrastructure".to_string()]);
    assert_eq!(keys(at(&merged, &["a"]).unwrap()), vec!["x".to_string(), "y".to_string()]);
    assert!(matches!(at(&merged, &["hide_infrastructure"]), Some(Json::Bool(false))));

    let fresh = merge_directory_value(t("not an object"), o(vec![("b", u(3))]));
    assert!(matches!(at(&fresh, &["hide_infrastructure"]), Some(Json::Bool(true))));

    let from_null = merge_directory_value(o(vec![("a", u(1))]), Json::Null);
    assert_eq!(keys(&from_null), vec!["hide_infrastructure".to_string()]);

    assert!(is_directory_mergeable(&Json::Null));
    assert!(is_directory_mergeable(&o(vec![])));
    assert!(!is_directory_mergeable(&l(vec![u(1)])));
    assert!(!is_directory_mergeable(&o(vec![("directory", l(vec![]))])));
}

#[test]
fn resolved_names_come_from_objects_and_keyed_maps() {
    let doc = o(vec![
        (
            "subscribers",
            o(vec![
                ("1001", o(vec![("name", t("Alpha")), ("device_class", t("HRT")), ("statusGroup", t("3"))])),
                ("1002", t(" Bravo ")),
                ("1003", t("1003")),
                ("x", o(vec![("name", t("ignored"))])),
            ]),
        ),
        ("list", l(vec![o(vec![("issi", u(2001)), ("alias", t(" Zulu "))]), o(vec![("issi", u(1002)), ("name", t("Late"))])])),
    ]);
    let resolved = directory_resolved_from_value(&doc);
    assert_eq!(keys(&resolved), vec!["1001".to_string(), "1002".to_string(), "2001".to_string()]);
    assert_eq!(text_at(&resolved, &["1001", "source"]), Some("directory_map".to_string()));
    assert_eq!(text_at(&resolved, &["1001", "device_class"]), Some("HRT".to_string()));
    assert_eq!(text_at(&resolved, &["1001", "status_group"]), Some("3".to_string()));
    assert_eq!(text_at(&resolved, &["1002", "name"]), Some("Late".to_string()));
    assert_eq!(text_at(&resolved, &["1002", "source"]), Some("directory".to_string()));
    assert_eq!(text_at(&resolved, &["2001", "name"]), Some("Zulu".to_string()));
}

#[test]
fn netcore_lists_become_a_directory() {
    let devices = l(vec![
        o(vec![("issi", u(5)), ("name", t("Dev")), ("owner", t("X")), ("visible", u(1))]),
        o(vec![("name", t("no number"))]),
    ]);
    let basestations = l(vec![o(vec![("id", t("7")), ("short", t("BS"))])]);
    let groups = l(vec![o(vec![("gssi", u(91))])]);
    let device_groups = l(vec![o(vec![
        ("group_id", u(3)),
        ("name", t("Fire")),
        ("members", l(vec![u(5), t("8")])),
        ("member_devices", l(vec![o(vec![("issi", u(9)), ("kind", t("PDA"))])])),
    ])]);
    let statuses = l(vec![o(vec![("code", u(2))])]);
    let d = netcore_directory_api_to_control_room_at(
        &devices,
        &basestations,
        &groups,
        &device_groups,
        &statuses,
        "http://dir",
        "t0".to_string(),
    );
    assert_eq!(keys(at(&d, &["subscribers"]).unwrap()), vec!["5".to_string(), "7".to_string(), "8".to_string(), "9".to_string()]);
    assert_eq!(text_at(&d, &["subscribers", "5", "device_class"]), Some("HRT".to_string()));
    assert_eq!(text_at(&d, &["subscribers", "5", "owner"]), Some("X".to_string()));
    assert_eq!(text_at(&d, &["subscribers", "5", "status_group"]), Some("3".to_string()));
    assert!(matches!(at(&d, &["subscribers", "5", "visible"]), Some(Json::Bool(true))));
    assert_eq!(text_at(&d, &["subscribers", "7", "name"]), Some("BS".to_string()));
    assert_eq!(text_at(&d, &["subscribers", "7", "device_class"]), Some("Infrastruktur".to_string()));
    assert_eq!(text_at(&d, &["subscribers", "8", "source"]), Some("netcore-directory-device-group".to_string()));
    assert_eq!(text_at(&d, &["subscribers", "9", "device_class"]), Some("PDA".to_string()));
    assert_eq!(text_at(&d, &["groups", "91", "name"]), Some("91".to_string()));
    assert_eq!(text_at(&d, &["status_groups", "3", "name"]), Some("Fire".to_string()));
    assert_eq!(text_at(&d, &["statuses", "2", "label"]), Some("Status 2".to_string()));
    assert_eq!(text_at(&d, &["upstream", "base"]), Some("http://dir".to_string()));
    assert_eq!(text_at(&d, &["upstream", "timestamp"]), Some("t0".to_string()));
    assert!(matches!(at(&d, &["hide_infrastructure"]), Some(Json::Bool(true))));
}

#[test]
fn empty_upstream_lists_give_no_directory() {
    let empty = l(vec![]);
    assert!(directory_from_upstream(&empty, &empty, &Json::Null, &empty, &empty, "b").is_none());
    assert!(directory_from_upstream(&empty, &empty, &l(vec![o(vec![])]), &empty, &empty, "b").is_some());
    assert_eq!(upstream_sync_message(3), "NetCore Directory upstream synced: 3 subscriber name(s)");
}
