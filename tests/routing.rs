use issue_service::routes::{classify, route, split_path, trim_path, Operation};

#[test]
fn trim_path_collapses_leading_double_slash() {
    assert_eq!(trim_path("//issue/list"), "/issue/list");
    assert_eq!(trim_path("/issue/list"), "/issue/list");
    assert_eq!(trim_path("/"), "/");
    assert_eq!(trim_path(""), "");
}

#[test]
fn split_path_recognises_issue_shapes() {
    assert_eq!(split_path("/issue/list"), ("/issue/list", "list"));
    assert_eq!(split_path("/issue/new"), ("/issue/new", "new"));
    assert_eq!(split_path("/issue/abc123"), ("/issue/{slug}", "abc123"));
    assert_eq!(split_path("/issue/"), ("/issue/", ""));
    assert_eq!(split_path("/issue/a/b"), ("/issue/a/b", ""));
    assert_eq!(split_path("/issue/list/"), ("/issue/list/", ""));
    assert_eq!(split_path("/healthCheck"), ("/healthCheck", ""));
    assert_eq!(split_path("/issues"), ("/issues", ""));
}

#[test]
fn classify_follows_route_table() {
    assert_eq!(classify("GET", "/healthCheck"), Operation::HealthCheck);
    assert_eq!(classify("POST", "/healthCheck"), Operation::MethodNotAllowed);
    assert_eq!(classify("GET", "/issue/list"), Operation::IssueList);
    assert_eq!(classify("DELETE", "/issue/list"), Operation::MethodNotAllowed);
    assert_eq!(classify("POST", "/issue/new"), Operation::IssueInsert);
    assert_eq!(classify("GET", "/issue/new"), Operation::MethodNotAllowed);
    assert_eq!(classify("GET", "/issue/{slug}"), Operation::IssueGet);
    assert_eq!(classify("POST", "/issue/{slug}"), Operation::IssueUpdate);
    assert_eq!(classify("DELETE", "/issue/{slug}"), Operation::IssueDelete);
    assert_eq!(classify("PUT", "/issue/{slug}"), Operation::MethodNotAllowed);
    assert_eq!(classify("GET", "/unknown"), Operation::NotFound);
}

#[test]
fn double_slash_routes_like_single_slash() {
    let a = route("GET", "//issue/list", None);
    let b = route("GET", "/issue/list", None);
    assert_eq!(a.operation, Operation::IssueList);
    assert_eq!(a.operation, b.operation);
    assert_eq!(a.pattern, b.pattern);
    assert_eq!(a.slug, b.slug);
}

#[test]
fn route_prefers_path_parameter_for_id() {
    let r = route("GET", "/issue/abc", Some("xyz"));
    assert_eq!(r.operation, Operation::IssueGet);
    assert_eq!(r.slug, "xyz");
    let r = route("DELETE", "/issue/abc", None);
    assert_eq!(r.operation, Operation::IssueDelete);
    assert_eq!(r.slug, "abc");
    assert_eq!(r.pattern, "/issue/{slug}");
}

#[test]
fn route_unknown_and_wrong_method() {
    assert_eq!(route("GET", "/unknown", None).operation, Operation::NotFound);
    assert_eq!(route("POST", "/healthCheck", None).operation, Operation::MethodNotAllowed);
    assert_eq!(route("GET", "//healthCheck", None).operation, Operation::HealthCheck);
    assert_eq!(route("GET", "/issue/a/b", None).operation, Operation::NotFound);
    assert_eq!(route("GET", "/issue/", None).operation, Operation::NotFound);
    assert_eq!(route("DELETE", "/issue/", None).operation, Operation::NotFound);
}
