use mock_registry::json::JsonObject;
use mock_registry::registry::{
    listen_address, payload, resolve, routes, Endpoint, KEY_ERROR, KEY_ID, KEY_STATUS,
    PUBLISH_STATUS_ID, PUBLISH_STATUS_PREFIX, SCOPES_ID, SCOPES_PREFIX, SCOPE_PREFIX,
    SERVER_ERROR_LABEL, STATUS_SUCCESS,
};
use mock_registry::router::{first_match, Route};
use mock_registry::text::starts_with;

fn route(prefix: &str, target: u32) -> Route<u32> {
    Route { prefix: prefix.to_string(), target }
}

fn members(object: &JsonObject) -> Vec<(String, Option<String>)> {
    object.entries.iter().map(|entry| (entry.key.clone(), entry.value.clone())).collect()
}

#[test]
fn starts_with_accepts_prefixes() {
    assert!(starts_with("/api/scope/x", "/api/scope/"));
    assert!(starts_with("/api/scope/", "/api/scope/"));
    assert!(starts_with("abc", ""));
    assert!(starts_with("", ""));
    assert!(starts_with("h\u{e9}llo", "h\u{e9}"));
    assert!(starts_with("\u{4e16}\u{754c}!", "\u{4e16}"));
}

#[test]
fn starts_with_rejects_everything_else() {
    assert!(!starts_with("/api/scope", "/api/scope/"));
    assert!(!starts_with("", "a"));
    assert!(!starts_with("abc", "abd"));
    assert!(!starts_with("abc", "bc"));
    assert!(!starts_with("abc", "abcd"));
    assert!(!starts_with("Abc", "abc"));
    assert!(!starts_with("h\u{e8}llo", "h\u{e9}"));
    assert!(!starts_with("\u{4e16}\u{754c}", "\u{754c}"));
}

#[test]
fn starts_with_agrees_with_std() {
    let samples = ["", "/", "/api/", "/api/scope/", "/api/scopes/x", "\u{e9}t\u{e9}", "\u{e9}", "e"];
    for text in samples {
        for prefix in samples {
            assert_eq!(starts_with(text, prefix), text.starts_with(prefix), "{:?} {:?}", text, prefix);
        }
    }
}

#[test]
fn first_match_returns_the_earliest_route() {
    let table = vec![route("/a/b/", 1), route("/a/", 2), route("/a/b/", 3), route("", 4)];
    assert_eq!(first_match(&table, "/a/b/c"), Some(0));
    assert_eq!(first_match(&table, "/a/c"), Some(1));
    assert_eq!(first_match(&table, "/x"), Some(3));
    assert_eq!(first_match(&table, ""), Some(3));
}

#[test]
fn first_match_follows_table_order() {
    let table = vec![route("/a/", 2), route("/a/b/", 1)];
    assert_eq!(first_match(&table, "/a/b/c"), Some(0));
    let reversed = vec![route("/a/b/", 1), route("/a/", 2)];
    assert_eq!(first_match(&reversed, "/a/b/c"), Some(0));
    assert_eq!(first_match(&reversed, "/a/c"), Some(1));
}

#[test]
fn first_match_finds_nothing_without_a_covering_route() {
    let empty: Vec<Route<u32>> = Vec::new();
    assert_eq!(first_match(&empty, "/a"), None);
    assert_eq!(first_match(&empty, ""), None);
    let table = vec![route("/a/", 1), route("/b/", 2)];
    assert_eq!(first_match(&table, "/c/"), None);
    assert_eq!(first_match(&table, "/a"), None);
    assert_eq!(first_match(&table, ""), None);
}

#[test]
fn routes_lists_the_three_prefixes_in_order() {
    let table = routes();
    assert_eq!(table.len(), 3);
    assert_eq!(table[0].prefix, "/api/scope/");
    assert_eq!(table[0].target, Endpoint::Scope);
    assert_eq!(table[1].prefix, "/api/scopes/");
    assert_eq!(table[1].target, Endpoint::Scopes);
    assert_eq!(table[2].prefix, "/api/publish_status/");
    assert_eq!(table[2].target, Endpoint::PublishStatus);
    assert_eq!(SCOPE_PREFIX, "/api/scope/");
    assert_eq!(SCOPES_PREFIX, "/api/scopes/");
    assert_eq!(PUBLISH_STATUS_PREFIX, "/api/publish_status/");
}

#[test]
fn resolve_picks_the_endpoint_of_each_prefix() {
    assert_eq!(resolve("/api/scope/myscope"), Some(Endpoint::Scope));
    assert_eq!(resolve("/api/scope/"), Some(Endpoint::Scope));
    assert_eq!(resolve("/api/scopes/myscope"), Some(Endpoint::Scopes));
    assert_eq!(resolve("/api/scopes/"), Some(Endpoint::Scopes));
    assert_eq!(resolve("/api/publish_status/abc123"), Some(Endpoint::PublishStatus));
    assert_eq!(resolve("/api/publish_status/"), Some(Endpoint::PublishStatus));
}

#[test]
fn resolve_leaves_other_paths_unrouted() {
    for path in ["", "/", "/api/", "/api/scope", "/api/scopes", "/api/publish_status", "/unknown", "/api/scopex/"] {
        assert_eq!(resolve(path), None, "{:?}", path);
    }
}

#[test]
fn payload_of_scope_is_empty() {
    assert!(payload(Endpoint::Scope).entries.is_empty());
    assert!(JsonObject::new().entries.is_empty());
}

#[test]
fn payload_of_reports_lists_id_status_error() {
    let expected = |id: &str| {
        vec![
            ("id".to_string(), Some(id.to_string())),
            ("status".to_string(), Some("success".to_string())),
            ("error".to_string(), None),
        ]
    };
    assert_eq!(members(&payload(Endpoint::Scopes)), expected("sdfwqer-sffg-qwerasdf"));
    assert_eq!(members(&payload(Endpoint::PublishStatus)), expected("sdfwqer-qwer-qwerasdf"));
    assert_eq!(SCOPES_ID, "sdfwqer-sffg-qwerasdf");
    assert_eq!(PUBLISH_STATUS_ID, "sdfwqer-qwer-qwerasdf");
    assert_eq!(STATUS_SUCCESS, "success");
    assert_eq!((KEY_ID, KEY_STATUS, KEY_ERROR), ("id", "status", "error"));
}

#[test]
fn json_object_builders_append_members() {
    let object = JsonObject::new().with_text("a", "1").with_null("b").with_text("a", "2");
    assert_eq!(
        members(&object),
        vec![
            ("a".to_string(), Some("1".to_string())),
            ("b".to_string(), None),
            ("a".to_string(), Some("2".to_string())),
        ]
    );
}

#[test]
fn listen_address_is_loopback_on_the_given_port() {
    for port in [0u16, 1, 80, 4250, 65535] {
        let address = listen_address(port);
        assert_eq!(address.host, [127, 0, 0, 1]);
        assert_eq!(address.port, port);
    }
    assert_eq!(SERVER_ERROR_LABEL, "Registry server error");
}
