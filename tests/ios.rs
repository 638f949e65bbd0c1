use applinks::aasa::{
    self, aasa_match, check_response, find_matches, matching_app_ids, AppError, AppLinkDetail,
    AppLinks, AppleAppSiteAssociation, CheckResult,
};
use applinks::entitlements::{
    self, codesign_plist_bounds, find_codesign_magic_offset, find_codesign_plist, Entitlements,
};
use applinks::glob::{aasa_match_path, glob_match, regex_from_pattern};
use applinks::report::report_problems_human;
use applinks::url::{root_aasa_from_url, well_known_aasa_from_url, Url};

fn url(s: &str) -> Url {
    let u: http::Uri = s.parse().unwrap();
    Url::new(
        u.scheme_str().map(|x| x.to_string()),
        u.host().map(|h| h.to_string()),
        u.port_u16(),
        u.path().to_string(),
    )
}

fn detail(app_id: &str, paths: &[&str]) -> AppLinkDetail {
    AppLinkDetail {
        app_id: app_id.to_string(),
        paths: paths.iter().map(|p| p.to_string()).collect(),
    }
}

fn document(details: Vec<AppLinkDetail>) -> AppleAppSiteAssociation {
    AppleAppSiteAssociation { applinks: AppLinks { apps: vec![], details } }
}

#[test]
fn test_aasa_match_path() {
    assert!(aasa_match_path("*", "/foo"));
    assert!(!aasa_match_path("NOT *", "/foo"));
}

#[test]
fn aasa_test_aasa_match_path() {
    assert!(aasa_match_path("*", "/foo"));
    assert!(!aasa_match_path("NOT *", "/foo"));
}

#[test]
fn test_aasa_from_url() {
    assert_eq!(
        url("https://example.com/.well-known/apple-app-site-association"),
        well_known_aasa_from_url(&url("http://example.com/foo/bar?hello=world"))
    );
    assert_eq!(
        url("https://example.com/apple-app-site-association"),
        root_aasa_from_url(&url("http://example.com/foo/bar?hello=world"))
    );
}

#[test]
fn aasa_test_aasa_from_url() {
    assert_eq!(
        url("https://example.com/.well-known/apple-app-site-association"),
        well_known_aasa_from_url(&url("http://example.com/foo/bar?hello=world"))
    );
    assert_eq!(
        url("https://example.com/apple-app-site-association"),
        root_aasa_from_url(&url("http://example.com/foo/bar?hello=world"))
    );
}

#[test]
fn test_regex_from_pattern() {
    assert_eq!("/foo/", regex_from_pattern("/foo/"));
    assert_eq!("/foo/.*", regex_from_pattern("/foo/*"));
    assert_eq!("/fo./.*", regex_from_pattern("/fo?/*"));
}

#[test]
fn aasa_test_regex_from_pattern() {
    assert_eq!("/foo/", regex_from_pattern("/foo/"));
    assert_eq!("/foo/.*", regex_from_pattern("/foo/*"));
    assert_eq!("/fo./.*", regex_from_pattern("/fo?/*"));
}

#[test]
fn regex_from_pattern_escapes_metacharacters() {
    assert_eq!("/a\\.b\\+c\\(d\\)", regex_from_pattern("/a.b+c(d)"));
    assert_eq!("/x\\-y\\~z", regex_from_pattern("/x-y~z"));
    assert_eq!("", regex_from_pattern(""));
}

#[test]
fn glob_matches_whole_path() {
    assert!(glob_match("/foo/", "/foo/"));
    assert!(!glob_match("/foo/", "/foo/bar"));
    assert!(!glob_match("/foo/", "/x/foo/"));
    assert!(glob_match("/foo/*", "/foo/"));
    assert!(glob_match("/foo/*", "/foo/anything/at/all"));
    assert!(!glob_match("/foo/*", "/bar/foo/x"));
    assert!(glob_match("/fo?/*", "/foX/abc"));
    assert!(glob_match("/fo?/*", "/fo!/"));
    assert!(!glob_match("/fo?/*", "/fooo/abc"));
    assert!(!glob_match("/a.b", "/axb"));
    assert!(glob_match("/a.b", "/a.b"));
}

#[test]
fn not_patterns_never_claim() {
    assert!(!aasa_match_path("NOT /foo/*", "/foo/bar"));
    assert!(!aasa_match_path("NOT /foo/*", "/other"));
    assert!(aasa_match_path("NOT/foo", "NOT/foo"));
}

#[test]
fn app_link_detail_matches_bundle() {
    let d = detail("ABCDE12345.com.example.app", &["/foo/*"]);
    assert!(d.matches("com.example.app"));
    assert!(!d.matches("com.example"));
    assert!(!d.matches("ABCDE12345.com.example.app"));
    assert!(!detail("nodot", &[]).matches("nodot"));
    assert_eq!(aasa_match(&d, "/foo/bar"), Some("/foo/*".to_string()));
    assert_eq!(aasa_match(&d, "/bar"), None);
}

#[test]
fn first_matching_pattern_wins() {
    let d = detail("T.app", &["NOT /foo/*", "/foo/a*", "/foo/*"]);
    assert_eq!(aasa_match(&d, "/foo/abc"), Some("/foo/a*".to_string()));
    assert_eq!(aasa_match(&d, "/foo/xyz"), Some("/foo/*".to_string()));
    assert_eq!(aasa_match(&detail("T.app", &[]), "/foo"), None);
}

#[test]
fn find_matches_filters_by_bundle() {
    let doc = document(vec![
        detail("ABCDE12345.com.example.app", &["/foo/*"]),
        detail("ZZZZZ99999.com.other.app", &["*"]),
        detail("FFFFF11111.com.example.app", &["/bar"]),
        detail("GGGGG22222.com.example.app", &["/foo/bar"]),
    ]);
    let ms = find_matches(&doc, "com.example.app", "/foo/bar");
    assert_eq!(ms.len(), 2);
    assert_eq!(ms[0].bundle_id, "ABCDE12345.com.example.app");
    assert_eq!(ms[0].pattern, "/foo/*");
    assert_eq!(ms[1].bundle_id, "GGGGG22222.com.example.app");
    assert_eq!(ms[1].pattern, "/foo/bar");
}

fn messages(ps: &[aasa::Problem]) -> Vec<String> {
    ps.iter().map(|p| p.to_string_human()).collect()
}

#[test]
fn check_response_without_problems() {
    let doc = document(vec![detail("ABCDE12345.com.example.app", &["/foo/*"])]);
    let r = check_response(
        url("https://example.com/.well-known/apple-app-site-association"),
        "/foo/bar",
        "com.example.app",
        200,
        Some("application/json".to_string()),
        b"{}".to_vec(),
        Some(doc),
    );
    assert_eq!(r.matches.as_ref().unwrap().len(), 1);
    assert!(r.get_problems().is_empty());
}

#[test]
fn every_failed_check_is_reported() {
    let mut r = CheckResult::new(
        url("https://example.com/apple-app-site-association"),
        "/foo".to_string(),
        "com.example.app".to_string(),
    );
    r.status_code = Some(200);
    r.content_type = Some("text/plain".to_string());
    r.content = Some(vec![b' '; 128_001]);
    assert_eq!(
        messages(&r.get_problems()),
        vec![
            "Wrong 'Content-Type' header sent: 'text/plain'. Must be 'application/json'".to_string(),
            "File too large 128001 bytes (uncompressed). Maximum allowed is 128KB".to_string(),
            "Failed to parse file.".to_string(),
        ]
    );
}

#[test]
fn size_limit_is_inclusive() {
    let mut r = CheckResult::new(url("https://example.com/x"), "/".to_string(), "a.b".to_string());
    r.status_code = Some(200);
    r.content_type = Some("application/json".to_string());
    r.content = Some(vec![b' '; 128_000]);
    r.content_parsed = Some(document(vec![]));
    r.matches = Some(vec![]);
    assert_eq!(
        messages(&r.get_problems()),
        vec!["No bundle id, path combination matches your request.".to_string()]
    );
}

#[test]
fn status_and_missing_header_problems() {
    let r = check_response(
        url("https://example.com/x"),
        "/",
        "a.b",
        302,
        None,
        vec![],
        None,
    );
    assert!(r.content.is_none() && r.matches.is_none());
    assert_eq!(
        messages(&r.get_problems()),
        vec![
            "Invalid status code '302'. Redirects are not allowed.".to_string(),
            "No 'Content-Type' HTTP header sent. Must be 'application/json'.".to_string(),
        ]
    );
    assert_eq!(aasa::Problem::WrongStatusCode(500).to_string_human(), "Invalid status code '500'.");
    assert_eq!(aasa::Problem::WrongStatusCode(0).to_string_human(), "Invalid status code '0'.");
}

#[test]
fn first_failure_check() {
    let json = Some("application/json".to_string());
    let doc = Some(document(vec![
        detail("A.com.one", &["/foo/*"]),
        detail("B.com.two", &["/bar"]),
        detail("C.com.three", &["*"]),
    ]));
    match matching_app_ids(200, &json, 10, &doc, "/foo/x") {
        Ok(ids) => assert_eq!(ids, vec!["A.com.one".to_string(), "C.com.three".to_string()]),
        Err(e) => panic!("unexpected {:?}", e),
    }
    assert!(matches!(matching_app_ids(404, &json, 10, &doc, "/"), Err(AppError::AASANotFound)));
    assert!(matches!(matching_app_ids(200, &None, 10, &doc, "/"), Err(AppError::ContentTypeNotSet)));
    match matching_app_ids(200, &Some("text/html".to_string()), 10, &doc, "/") {
        Err(AppError::ContentTypeWrong(s)) => assert_eq!(s, "text/html"),
        other => panic!("unexpected {:?}", other),
    }
    assert!(matches!(
        matching_app_ids(200, &json, 128_001, &doc, "/"),
        Err(AppError::FileTooLarge(128_001))
    ));
    assert!(matches!(matching_app_ids(200, &json, 10, &None, "/"), Err(AppError::InvalidFileFormat)));
    let narrow = Some(document(vec![detail("B.com.two", &["/bar"])]));
    assert!(matches!(
        matching_app_ids(200, &json, 10, &narrow, "/baz"),
        Err(AppError::NoMatchingPattern)
    ));
}

#[test]
fn entitlements_problems() {
    let mut e = Entitlements::new();
    e.application_identifier = Some("ABCDE12345.com.example.app".to_string());
    e.associated_domains = vec!["webcredentials:example.com".to_string(), "applinks:example.com".to_string()];
    assert!(e.matches_applink_domain("example.com"));
    assert!(!e.matches_applink_domain("example.org"));
    assert!(e.get_problems("com.example.app", "example.com").is_empty());
    let ps = e.get_problems("com.other.app", "example.org");
    assert!(ps == vec![
        entitlements::Problem::WrongBundleIdentifier,
        entitlements::Problem::DomainNotInApplinks,
    ]);
    let none = Entitlements::new();
    assert!(none.get_problems("com.example.app", "example.com") == vec![entitlements::Problem::DomainNotInApplinks]);
    assert_eq!(
        entitlements::Problem::DomainNotInApplinks.to_string_human(),
        "The domain is not listed in the entitlements."
    );
    assert_eq!(
        entitlements::Problem::WrongBundleIdentifier.to_string_human(),
        "The bundle identifier in the entitlements does not match the one you supplied."
    );
}

#[test]
fn codesign_blob_lookup() {
    let mut data = vec![0u8, 1, 0xfa, 0xde, 0x71, 0x70, 9];
    data.extend_from_slice(&[0xfa, 0xde, 0x71, 0x71, 0, 0, 0, 11]);
    data.extend_from_slice(b"abc");
    data.extend_from_slice(b"tail");
    assert_eq!(find_codesign_magic_offset(&data), Some(7));
    assert_eq!(find_codesign_plist(&data), Some((15, 11)));
    assert_eq!(codesign_plist_bounds(&data), Some((15, 18)));
    assert_eq!(&data[15..18], b"abc");
    assert_eq!(find_codesign_magic_offset(&[0xfa, 0xde, 0x71]), None);
    assert_eq!(find_codesign_plist(&[0xfa, 0xde, 0x71, 0x71, 0, 0]), None);
    assert_eq!(find_codesign_plist(&[0xfa, 0xde, 0x71, 0x71, 1, 2, 3, 4]), Some((8, 0x01020304)));
    assert_eq!(codesign_plist_bounds(&[0xfa, 0xde, 0x71, 0x71, 1, 2, 3, 4]), None);
    assert_eq!(codesign_plist_bounds(&[0xfa, 0xde, 0x71, 0x71, 0, 0, 0, 4]), None);
}

#[test]
fn report_lists_every_message() {
    let lines = report_problems_human(
        Some(vec![aasa::Problem::NoMatch, aasa::Problem::InvalidFileFormat]),
        Some(vec![entitlements::Problem::DomainNotInApplinks]),
    );
    assert_eq!(
        lines,
        vec![
            "No bundle id, path combination matches your request.".to_string(),
            "Failed to parse file.".to_string(),
            "The domain is not listed in the entitlements.".to_string(),
        ]
    );
    assert!(report_problems_human(None, None).is_empty());
}
