use applinks::apk::{Authority, IntentFilter, PathMatcher};
use applinks::assetlinks::{self, AppTarget, Assetlink};
use applinks::manifest::{
    get_int_attribute, get_intent_filter_auto_verify, get_string_attribute, parse_manifest,
    Attribute, ManifestEvent, TypedValue,
};
use applinks::pattern::match_pattern;
use applinks::url::{assetlinks_json_from_url, Url};

fn url(s: &str) -> Url {
    let u: http::Uri = s.parse().unwrap();
    Url::new(
        u.scheme_str().map(|x| x.to_string()),
        u.host().map(|h| h.to_string()),
        u.port_u16(),
        u.path().to_string(),
    )
}

fn strings(v: &[&str]) -> Vec<String> {
    v.iter().map(|s| s.to_string()).collect()
}

#[test]
fn test_match_pattern() {
    assert!(match_pattern("/", "/"));
    assert!(!match_pattern("/foo", "/bar"));
    assert!(match_pattern("/", "/*"));
    assert!(!match_pattern("/foo", "/*")); // would match any number of slashes
    assert!(match_pattern("/foo", "/.*"));
    assert!(!match_pattern("/foo/bar/baz", "/.*/bar"));
    assert!(!match_pattern("/foobarbaz", "/f.*baz"));
}

#[test]
fn pattern_edge_cases() {
    assert!(match_pattern("", ""));
    assert!(!match_pattern("a", ""));
    assert!(!match_pattern("", "a"));
    assert!(match_pattern("", ".*"));
    assert!(match_pattern("/", "/.*"));
    assert!(match_pattern("/aaa", "/a*"));
    assert!(!match_pattern("/", "/a*"));
    assert!(match_pattern("/x", "/."));
    assert!(!match_pattern("/x", "/\\*"));
    assert!(match_pattern("/*", "/\\*"));
    assert!(match_pattern("/foo/bar", "/.*/bar"));
    assert!(match_pattern("/foobaz", "/f.*baz"));
    assert!(match_pattern("/fbaz", "/f.*baz"));
    assert!(match_pattern("/fb", "/f.*b"));
}

fn sample_filter() -> IntentFilter {
    IntentFilter {
        activity_name: "foo".to_string(),
        auto_verify: true,
        action: vec!["android.intent.action.VIEW".to_string()],
        category: vec!["android.intent.category.BROWSABLE".to_string()],
        schemes: vec!["http".to_string(), "https".to_string()],
        authorities: vec![Authority { host: "example.com".to_string(), port: None }],
        path_matchers: vec![
            PathMatcher::Literal("/bar".to_string()),
            PathMatcher::Literal("/baz".to_string()),
        ],
    }
}

#[test]
fn test_intent_filter_matching() {
    let filter = sample_filter();
    assert!(filter.is_relevant());
    assert!(filter.matches_url(&url("http://example.com/bar")));
    assert!(!filter.matches_url(&url("http://exemple.com/bar")));
    assert!(!filter.matches_url(&url("http://example.com:8080/bar")));
}

#[test]
fn intent_filter_scheme_and_path_rules() {
    let filter = sample_filter();
    assert!(filter.matches_url(&url("https://example.com/baz")));
    assert!(!filter.matches_url(&url("ftp://example.com/bar")));
    assert!(!filter.matches_url(&url("http://example.com/qux")));
    let mut open = sample_filter();
    open.schemes.clear();
    open.authorities.clear();
    assert!(open.matches_url(&url("ftp://other.org/bar")));
    open.path_matchers.clear();
    assert!(!open.matches_url(&url("http://example.com/bar")));
    let mut rules = sample_filter();
    rules.path_matchers = vec![
        PathMatcher::Prefix("/shop/".to_string()),
        PathMatcher::Pattern("/item/.*".to_string()),
    ];
    assert!(rules.matches_url(&url("http://example.com/shop/shoes")));
    assert!(rules.matches_url(&url("http://example.com/item/42")));
    assert!(!rules.matches_url(&url("http://example.com/shop")));
}

#[test]
fn intent_filter_relevance() {
    let mut f = sample_filter();
    assert!(f.contains_http_scheme());
    assert!(!f.contains_non_http_scheme());
    f.schemes.push("myapp".to_string());
    assert!(f.contains_non_http_scheme());
    f.category.clear();
    assert!(!f.is_relevant());
    let mut g = sample_filter();
    g.action = vec!["android.intent.action.SEND".to_string()];
    assert!(!g.is_relevant());
    let mut h = sample_filter();
    h.schemes = vec!["myapp".to_string()];
    assert!(!h.contains_http_scheme());
    assert!(!h.is_relevant());
}

#[test]
fn authority_matches_host_and_port() {
    let a = Authority::new("example.com".to_string(), None);
    assert!(a.matches("example.com", None));
    assert!(!a.matches("example.com", Some(8080)));
    let b = Authority::new("example.com".to_string(), Some(8080));
    assert!(b.matches("example.com", Some(8080)));
    assert!(!b.matches("example.org", Some(8080)));
}

#[test]
fn authority_equality_is_an_equivalence() {
    let a = Authority::new("example.com".to_string(), Some(443));
    let b = Authority::new("example.com".to_string(), Some(443));
    let c = a.clone();
    let d = Authority::new("example.com".to_string(), None);
    assert!(a == a);
    assert!(a == b && b == a);
    assert!(b == c && a == c);
    assert!(a != d && d != a);
}

fn attr(name: &str, text: &str, value: TypedValue) -> Attribute {
    Attribute { name: name.to_string(), text: text.to_string(), value }
}

fn start(name: &str, attributes: Vec<Attribute>) -> ManifestEvent {
    ManifestEvent::ElementStart { name: name.to_string(), attributes }
}

fn end(name: &str) -> ManifestEvent {
    ManifestEvent::ElementEnd { name: name.to_string() }
}

#[test]
fn attribute_lookup() {
    let attrs = vec![
        attr("port", "x", TypedValue::Other),
        attr("host", "example.com", TypedValue::Other),
        attr("port", "8080", TypedValue::IntDecimal(8080)),
        attr("autoVerify", "true", TypedValue::Boolean(true)),
    ];
    assert_eq!(get_string_attribute(&attrs, "host"), Some("example.com".to_string()));
    assert_eq!(get_string_attribute(&attrs, "port"), Some("x".to_string()));
    assert_eq!(get_string_attribute(&attrs, "path"), None);
    assert_eq!(get_int_attribute(&attrs, "port"), Some(8080));
    assert_eq!(get_int_attribute(&attrs, "host"), None);
    assert!(get_intent_filter_auto_verify(&attrs));
    assert!(!get_intent_filter_auto_verify(&vec![attr("autoVerify", "x", TypedValue::Other)]));
}

fn web_filter_events(activity: &str, host: &str, auto_verify: bool) -> Vec<ManifestEvent> {
    vec![
        start("activity", vec![attr("name", activity, TypedValue::Other)]),
        start("intent-filter", vec![attr("autoVerify", "", TypedValue::Boolean(auto_verify))]),
        start("action", vec![attr("name", "android.intent.action.VIEW", TypedValue::Other)]),
        end("action"),
        start(
            "category",
            vec![attr("name", "android.intent.category.BROWSABLE", TypedValue::Other)],
        ),
        end("category"),
        start(
            "data",
            vec![
                attr("scheme", "https", TypedValue::Other),
                attr("host", host, TypedValue::Other),
                attr("pathPrefix", "/p/", TypedValue::Other),
                attr("pathPattern", "/q/.*", TypedValue::Other),
            ],
        ),
        end("data"),
        end("intent-filter"),
        end("activity"),
    ]
}

#[test]
fn manifest_keeps_relevant_filters_in_order() {
    let mut events = web_filter_events(".Main", "example.com", false);
    // a filter outside an activity is ignored
    events.push(start("service", vec![attr("name", ".Svc", TypedValue::Other)]));
    events.push(start("intent-filter", vec![]));
    events.push(start("action", vec![attr("name", "android.intent.action.VIEW", TypedValue::Other)]));
    events.push(end("action"));
    events.push(end("intent-filter"));
    events.push(end("service"));
    // a filter without the BROWSABLE category is not relevant
    events.push(start("activity-alias", vec![attr("name", ".Alias", TypedValue::Other)]));
    events.push(start("intent-filter", vec![]));
    events.push(start("action", vec![attr("name", "android.intent.action.VIEW", TypedValue::Other)]));
    events.push(start("data", vec![attr("scheme", "http", TypedValue::Other)]));
    events.push(end("intent-filter"));
    events.push(end("activity-alias"));
    events.extend(web_filter_events(".Other", "example.org", true));
    events.extend(web_filter_events(".Third", "example.com", false));

    let m = parse_manifest(&events);
    let filters = m.intent_filters();
    assert_eq!(filters.len(), 3);
    assert_eq!(filters[0].activity_name, ".Main");
    assert_eq!(filters[1].activity_name, ".Other");
    assert_eq!(filters[2].activity_name, ".Third");
    assert_eq!(filters[0].schemes, strings(&["https"]));
    assert!(filters[0].matches_url(&url("https://example.com/p/x")));
    assert!(filters[0].matches_url(&url("https://example.com/q/y")));
    assert!(!filters[0].matches_url(&url("https://example.com/r")));
    assert!(m.has_auto_verify());
    let auths = m.unique_authorities();
    assert_eq!(auths.len(), 2);
    assert_eq!(auths[0].host, "example.com");
    assert_eq!(auths[1].host, "example.org");
}

#[test]
fn manifest_port_and_auto_verify() {
    let events = vec![
        start("activity", vec![attr("name", ".Main", TypedValue::Other)]),
        start("intent-filter", vec![]),
        start("action", vec![attr("name", "android.intent.action.VIEW", TypedValue::Other)]),
        start(
            "category",
            vec![attr("name", "android.intent.category.BROWSABLE", TypedValue::Other)],
        ),
        start(
            "data",
            vec![
                attr("scheme", "http", TypedValue::Other),
                attr("host", "example.com", TypedValue::Other),
                attr("port", "8080", TypedValue::IntDecimal(8080)),
                attr("path", "/exact", TypedValue::Other),
            ],
        ),
        end("intent-filter"),
        end("activity"),
    ];
    let m = parse_manifest(&events);
    assert!(!m.has_auto_verify());
    let auths = m.unique_authorities();
    assert_eq!(auths.len(), 1);
    assert_eq!(auths[0].port, Some(8080));
    let f = &m.intent_filters()[0];
    assert!(f.matches_url(&url("http://example.com:8080/exact")));
    assert!(!f.matches_url(&url("http://example.com/exact")));
    assert!(parse_manifest(&vec![]).intent_filters().is_empty());
}

#[test]
fn test_assetlinks_json_from_url() {
    assert_eq!(
        url("https://example.com/.well-known/assetlinks.json"),
        assetlinks_json_from_url(&url("http://example.com/foo/bar?hello=world"))
    );
}

fn statement(package: &str, relations: &[&str]) -> Assetlink {
    Assetlink {
        relation: strings(relations),
        target: AppTarget {
            namespace: "android_app".to_string(),
            package_name: package.to_string(),
            sha256_cert_fingerprints: vec![],
        },
    }
}

fn messages(ps: &[assetlinks::Problem]) -> Vec<String> {
    ps.iter().map(|p| p.to_string_human()).collect()
}

#[test]
fn assetlinks_problems() {
    let handle_all = "delegate_permission/common.handle_all_urls";
    let ok = assetlinks::check_response(
        url("https://example.com/.well-known/assetlinks.json"),
        "com.example.app",
        200,
        Some("application/json".to_string()),
        b"[]".to_vec(),
        Some(vec![statement("com.other", &[]), statement("com.example.app", &[handle_all])]),
    );
    assert!(ok.get_problems().is_empty());

    let missing = assetlinks::check_response(
        url("https://example.com/.well-known/assetlinks.json"),
        "com.example.app",
        200,
        Some("application/json".to_string()),
        b"[]".to_vec(),
        Some(vec![statement("com.example.app", &["delegate_permission/common.get_login_creds"])]),
    );
    assert_eq!(
        messages(&missing.get_problems()),
        vec!["The entry for the specified app id is missing the relation 'delegate_permission/common.handle_all_urls'.".to_string()]
    );

    let absent = assetlinks::check_response(
        url("https://example.com/.well-known/assetlinks.json"),
        "com.example.app",
        200,
        None,
        b"[]".to_vec(),
        Some(vec![statement("com.other", &[handle_all])]),
    );
    assert_eq!(
        messages(&absent.get_problems()),
        vec![
            "No 'Content-Type' HTTP header sent. Must be 'application/json'.".to_string(),
            "The app id you specified was not found in assetlinks.json.".to_string(),
        ]
    );

    let broken = assetlinks::check_response(
        url("https://example.com/.well-known/assetlinks.json"),
        "com.example.app",
        200,
        Some("text/html".to_string()),
        b"<html>".to_vec(),
        None,
    );
    assert_eq!(
        messages(&broken.get_problems()),
        vec![
            "Wrong 'Content-Type' header sent: 'text/html'. Must be 'application/json'".to_string(),
            "Failed to parse file.".to_string(),
        ]
    );

    let moved = assetlinks::check_response(
        url("https://example.com/.well-known/assetlinks.json"),
        "com.example.app",
        301,
        Some("application/json".to_string()),
        vec![],
        None,
    );
    assert!(moved.content.is_none());
    assert_eq!(
        messages(&moved.get_problems()),
        vec!["Invalid status code '301'. Redirects are not allowed.".to_string()]
    );
    let robots = assetlinks::Problem::ForbiddenByRobotsTxt;
    assert_eq!(robots.to_string_human(), "Access to assetlinks.json forbidden by robots.txt");
    assert_eq!(
        assetlinks::Problem::WrongStatusCode(404).to_string_human(),
        "Invalid status code '404'."
    );
}
