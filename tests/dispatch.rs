use issue_service::dispatch::{conclude, plan, serve, Action, Outcome};
use issue_service::errors::ApiError;
use issue_service::models::{GetIssueOutput, Issue, ListIssuesOutput, UpsertIssueInput};
use issue_service::response::{
    bad_payload_response, delete_response, frame, frame_issue, get_response, health_response,
    issue_body, list_response, routing_failure_response, upsert_response,
};
use issue_service::routes::Operation;
use issue_service::table::IssueTable;

fn no_body() -> Result<UpsertIssueInput, String> {
    Err("no body".to_string())
}

fn body(id: &str, title: &str, description: &str) -> Result<UpsertIssueInput, String> {
    Ok(UpsertIssueInput { id: id.to_string(), title: title.to_string(), description: description.to_string() })
}

#[test]
fn health_check_is_ok() {
    let mut t = IssueTable::new();
    let r = serve(&mut t, "GET", "/healthCheck", None, no_body(), "ts");
    assert_eq!(r.status, 200);
    assert_eq!(r.body, "{\"success\":true,\"message\":\"OK\"}");
}

#[test]
fn health_check_wrong_method_is_405() {
    let mut t = IssueTable::new();
    let r = serve(&mut t, "POST", "/healthCheck", None, no_body(), "ts");
    assert_eq!(r.status, 405);
    assert_eq!(r.body, "{\"success\":false,\"message\":\"POST /healthCheck METHOD NOT ALLOWED\"}");
}

#[test]
fn unknown_path_is_404() {
    let mut t = IssueTable::new();
    let r = serve(&mut t, "GET", "/unknown", None, no_body(), "ts");
    assert_eq!(r.status, 404);
    assert_eq!(r.body, "{\"success\":false,\"message\":\"GET /unknown NOT FOUND\"}");
}

#[test]
fn get_unwritten_issue_is_500_not_found() {
    let mut t = IssueTable::new();
    let r = serve(&mut t, "GET", "/issue/abc123", None, no_body(), "ts");
    assert_eq!(r.status, 500);
    assert_eq!(r.body, "{\"success\":false,\"error\":\"item not found\"}");
}

#[test]
fn insert_then_update_keeps_created_at() {
    let mut t = IssueTable::new();
    let r = serve(&mut t, "POST", "/issue/new", None, body("x", "t", "d"), "ts1");
    assert_eq!(r.status, 200);
    assert_eq!(r.body, "{\"success\":true,\"message\":\"inserted x\"}");
    let g = serve(&mut t, "GET", "/issue/x", None, no_body(), "ts9");
    assert_eq!(g.status, 200);
    assert_eq!(
        g.body,
        "{\"success\":true,\"item\":{\"id\":\"x\",\"title\":\"t\",\"description\":\"d\",\"created_at\":\"ts1\",\"modified_at\":\"ts1\"}}"
    );
    let u = serve(&mut t, "POST", "/issue/x", None, body("x", "t2", "d"), "ts2");
    assert_eq!(u.status, 200);
    assert_eq!(u.body, "{\"success\":true,\"message\":\"updated x\"}");
    let g = serve(&mut t, "GET", "/issue/x", None, no_body(), "ts9");
    assert_eq!(
        g.body,
        "{\"success\":true,\"item\":{\"id\":\"x\",\"title\":\"t2\",\"description\":\"d\",\"created_at\":\"ts1\",\"modified_at\":\"ts2\"}}"
    );
}

#[test]
fn double_slash_path_is_served_alike() {
    let mut t = IssueTable::new();
    serve(&mut t, "POST", "/issue/new", None, body("a", "t", "d"), "ts1");
    let one = serve(&mut t, "GET", "/issue/list", None, no_body(), "ts");
    let two = serve(&mut t, "GET", "//issue/list", None, no_body(), "ts");
    assert_eq!(one.status, 200);
    assert_eq!(one.status, two.status);
    assert_eq!(one.body, two.body);
    assert_eq!(
        one.body,
        "{\"success\":true,\"items\":[{\"id\":\"a\",\"title\":\"t\",\"description\":\"d\",\"created_at\":\"ts1\",\"modified_at\":\"ts1\"}]}"
    );
}

#[test]
fn empty_list_and_delete() {
    let mut t = IssueTable::new();
    let l = serve(&mut t, "GET", "/issue/list", None, no_body(), "ts");
    assert_eq!(l.body, "{\"success\":true,\"items\":[]}");
    let d = serve(&mut t, "DELETE", "/issue/ghost", None, no_body(), "ts");
    assert_eq!(d.status, 200);
    assert_eq!(d.body, "{\"success\":true,\"message\":\"deleted ghost\"}");
    serve(&mut t, "POST", "/issue/new", None, body("q", "t", "d"), "ts1");
    serve(&mut t, "DELETE", "/issue/other", Some("q"), no_body(), "ts");
    let g = serve(&mut t, "GET", "/issue/q", None, no_body(), "ts");
    assert_eq!(g.status, 500);
}

#[test]
fn bad_payload_is_400() {
    let mut t = IssueTable::new();
    let r = serve(&mut t, "POST", "/issue/new", None, Err("missing field `title`".to_string()), "ts");
    assert_eq!(r.status, 400);
    assert_eq!(r.body, "{\"success\":false,\"error\":\"missing field `title`\"}");
    let l = serve(&mut t, "GET", "/issue/list", None, no_body(), "ts");
    assert_eq!(l.body, "{\"success\":true,\"items\":[]}");
}

#[test]
fn text_is_escaped_in_bodies() {
    let r = bad_payload_response("say \"hi\"\n");
    assert_eq!(r.body, "{\"success\":false,\"error\":\"say \\\"hi\\\"\\n\"}");
}

#[test]
fn missing_fields_render_as_null() {
    let i = Issue { id: Some("n".to_string()), title: None, description: None, created_at: None, modified_at: None };
    assert_eq!(
        issue_body(&i),
        "{\"id\":\"n\",\"title\":null,\"description\":null,\"created_at\":null,\"modified_at\":null}"
    );
}

#[test]
fn store_failures_are_500() {
    let e = Err(ApiError::DynamoError("timeout".to_string()));
    let r = list_response(&e.map(|_: ()| ListIssuesOutput { entities: vec![] }));
    assert_eq!(r.status, 500);
    assert_eq!(r.body, "{\"success\":false,\"error\":\"aws_sdk_dynamodb error: timeout\"}");
    let g: Result<GetIssueOutput, ApiError> = Err(ApiError::SerdeDynamoError("bad".to_string()));
    let r = get_response(&g);
    assert_eq!(r.status, 500);
    assert_eq!(r.body, "{\"success\":false,\"error\":\"failed to parse database entity: bad\"}");
    let r = upsert_response(true, "x", &Err(ApiError::DynamoError("down".to_string())));
    assert_eq!(r.status, 500);
    let r = delete_response("x", &Err(ApiError::DynamoError("down".to_string())));
    assert_eq!(r.body, "{\"success\":false,\"error\":\"aws_sdk_dynamodb error: down\"}");
}

#[test]
fn direct_replies() {
    assert_eq!(health_response().status, 200);
    let r = routing_failure_response(Operation::NotFound, "PUT", "/x");
    assert_eq!(r.status, 404);
    assert_eq!(r.body, "{\"success\":false,\"message\":\"PUT /x NOT FOUND\"}");
    let r = upsert_response(false, "y", &Ok(issue_service::models::UpsertIssueOutput {}));
    assert_eq!(r.body, "{\"success\":true,\"message\":\"updated y\"}");
}

#[test]
fn frame_wraps_value_text() {
    assert_eq!(frame(true, "items", "[]"), "{\"success\":true,\"items\":[]}");
    assert_eq!(frame(false, "error", "\"e\""), "{\"success\":false,\"error\":\"e\"}");
}

#[test]
fn frame_issue_orders_fields() {
    assert_eq!(
        frame_issue("\"i\"", "null", "\"d\"", "1", "2"),
        "{\"id\":\"i\",\"title\":null,\"description\":\"d\",\"created_at\":1,\"modified_at\":2}"
    );
}

#[test]
fn multi_segment_issue_path_is_404() {
    let mut t = IssueTable::new();
    let r = serve(&mut t, "GET", "/issue/a/b", None, no_body(), "ts");
    assert_eq!(r.status, 404);
    assert_eq!(r.body, "{\"success\":false,\"message\":\"GET /issue/a/b NOT FOUND\"}");
    let r = serve(&mut t, "GET", "/issue/", None, no_body(), "ts");
    assert_eq!(r.status, 404);
}

#[test]
fn plan_names_the_store_call() {
    assert!(matches!(plan("GET", "/issue/list", None, no_body()), Action::List));
    assert!(matches!(plan("GET", "/issue/abc", None, no_body()), Action::Get(ref id) if id == "abc"));
    assert!(matches!(plan("DELETE", "/issue/abc", Some("p"), no_body()), Action::Delete(ref id) if id == "p"));
    match plan("POST", "/issue/other", None, body("x", "t", "d")) {
        Action::Upsert { data, inserted } => {
            assert_eq!(data.id, "x");
            assert!(!inserted);
        }
        other => panic!("unexpected {:?}", other),
    }
    match plan("POST", "/issue/new", None, Err("bad".to_string())) {
        Action::Reply(r) => {
            assert_eq!(r.status, 400);
            assert_eq!(r.body, "{\"success\":false,\"error\":\"bad\"}");
        }
        other => panic!("unexpected {:?}", other),
    }
    match plan("PUT", "/issue/new", None, no_body()) {
        Action::Reply(r) => assert_eq!(r.status, 405),
        other => panic!("unexpected {:?}", other),
    }
}

#[test]
fn conclude_builds_reply_from_outcome() {
    let r = conclude(&Action::Get("k".to_string()), &Outcome::Fetched(Err(ApiError::NotFound)));
    assert_eq!(r.status, 500);
    assert_eq!(r.body, "{\"success\":false,\"error\":\"item not found\"}");
    let a = Action::Upsert {
        data: UpsertIssueInput { id: "z".to_string(), title: "t".to_string(), description: "d".to_string() },
        inserted: true,
    };
    let r = conclude(&a, &Outcome::Written(Ok(issue_service::models::UpsertIssueOutput {})));
    assert_eq!(r.body, "{\"success\":true,\"message\":\"inserted z\"}");
    let r = conclude(
        &Action::Delete("d1".to_string()),
        &Outcome::Deleted(Err(ApiError::DynamoError("down".to_string()))),
    );
    assert_eq!(r.status, 500);
    let r = conclude(&Action::List, &Outcome::Listed(Ok(ListIssuesOutput { entities: vec![] })));
    assert_eq!(r.body, "{\"success\":true,\"items\":[]}");
}
