use vstd::prelude::*;
use crate::errors::{api_error_text, ApiError};
use crate::models::{
    DeleteIssueOutput, GetIssueOutput, Issue, IssueView, ListIssuesOutput, UpsertIssueOutput,
};
use crate::routes::Operation;

verus! {

/// A status code and a JSON body.
#[derive(Debug)]
pub struct Response {
    pub status: u16,
    pub body: String,
}

/// The JSON string literal, quotes and escapes included, that holds `s`.
pub uninterp spec fn json_string(s: Seq<char>) -> Seq<char>;

/// Text that JSON carries unescaped: no quote, no backslash, no control
/// character below U+0020.
pub open spec fn is_plain(s: Seq<char>) -> bool {
    forall|i: int| 0 <= i < s.len() ==> (#[trigger] s[i]) != '"' && s[i] != '\\' && s[i] >= ' '
}

/// Relies on serde_json's `Display` for `Value::String`: the compact JSON
/// text of a string value, which depends on the characters alone; it escapes
/// only quotes, backslashes and control characters below U+0020, so plain
/// text comes back between two quotes.
#[verifier::external_body]
fn json_quoted(s: &str) -> (r: String)
    ensures
        r@ == json_string(s@),
        is_plain(s@) ==> r@ == seq!['"'] + s@ + seq!['"'],
{
    serde_json::Value::String(s.to_string()).to_string()
}

pub open spec fn bool_json(b: bool) -> Seq<char> {
    if b { "true"@ } else { "false"@ }
}

/// `{"success":<b>,"<key>":<value>}`, where `value` is JSON text.
pub open spec fn framed(success: bool, key: Seq<char>, value: Seq<char>) -> Seq<char> {
    "{\"success\":"@ + bool_json(success) + ",\""@ + key + "\":"@ + value + "}"@
}

/// An envelope whose payload is one text.
pub open spec fn text_envelope(success: bool, key: Seq<char>, text: Seq<char>) -> Seq<char> {
    framed(success, key, json_string(text))
}

pub open spec fn optional_json(t: Option<Seq<char>>) -> Seq<char> {
    match t {
        Some(s) => json_string(s),
        None => "null"@,
    }
}

/// An issue object from the JSON text of each field, in declaration order.
pub open spec fn issue_object(
    id: Seq<char>,
    title: Seq<char>,
    description: Seq<char>,
    created_at: Seq<char>,
    modified_at: Seq<char>,
) -> Seq<char> {
    "{\"id\":"@ + id + ",\"title\":"@ + title + ",\"description\":"@ + description
        + ",\"created_at\":"@ + created_at + ",\"modified_at\":"@ + modified_at + "}"@
}

/// The JSON object of an issue, `null` for a missing field.
pub open spec fn issue_json(v: IssueView) -> Seq<char> {
    issue_object(
        optional_json(v.id),
        optional_json(v.title),
        optional_json(v.description),
        optional_json(v.created_at),
        optional_json(v.modified_at),
    )
}

/// The issues' objects separated by commas.
pub open spec fn issues_json(s: Seq<Issue>) -> Seq<char>
    decreases s.len(),
{
    if s.len() == 0 {
        Seq::empty()
    } else if s.len() == 1 {
        issue_json(s[0]@)
    } else {
        issues_json(s.drop_last()) + ","@ + issue_json(s.last()@)
    }
}

pub open spec fn list_envelope(s: Seq<Issue>) -> Seq<char> {
    "{\"success\":true,\"items\":["@ + issues_json(s) + "]}"@
}

pub open spec fn item_envelope(v: IssueView) -> Seq<char> {
    "{\"success\":true,\"item\":"@ + issue_json(v) + "}"@
}

/// Every persistence failure answers 500 with the error's text, `NotFound`
/// included: a lookup of a missing id is reported as a server error, not as
/// 404. This conflates "absent" with "failed" and is kept deliberately, as an
/// open question of the interface rather than a settled contract.
pub open spec fn failure(e: ApiError) -> (u16, Seq<char>) {
    (500, text_envelope(false, "error"@, api_error_text(e)))
}

/// Frames a JSON value, given as text, in an envelope.
pub fn frame(success: bool, key: &str, value: &str) -> (r: String)
    ensures
        r@ == framed(success, key@, value@),
{
    let mut r = String::from_str("{\"success\":");
    r.append(if success { "true" } else { "false" });
    r.append(",\"");
    r.append(key);
    r.append("\":");
    r.append(value);
    r.append("}");
    r
}

fn text_body(success: bool, key: &str, text: &str) -> (r: String)
    ensures
        r@ == text_envelope(success, key@, text@),
{
    let q = json_quoted(text);
    frame(success, key, q.as_str())
}

fn optional_body(t: &Option<String>) -> (r: String)
    ensures
        r@ == optional_json(crate::models::text_view(*t)),
{
    match t {
        Some(s) => json_quoted(s.as_str()),
        None => String::from_str("null"),
    }
}

/// The JSON object of one issue.
pub fn issue_body(issue: &Issue) -> (r: String)
    ensures
        r@ == issue_json(issue@),
{
    let id = optional_body(&issue.id);
    let title = optional_body(&issue.title);
    let description = optional_body(&issue.description);
    let created_at = optional_body(&issue.created_at);
    let modified_at = optional_body(&issue.modified_at);
    frame_issue(
        id.as_str(),
        title.as_str(),
        description.as_str(),
        created_at.as_str(),
        modified_at.as_str(),
    )
}

/// Assembles an issue object from the JSON text of each field.
pub fn frame_issue(
    id: &str,
    title: &str,
    description: &str,
    created_at: &str,
    modified_at: &str,
) -> (r: String)
    ensures
        r@ == issue_object(id@, title@, description@, created_at@, modified_at@),
{
    let mut r = String::from_str("{\"id\":");
    r.append(id);
    r.append(",\"title\":");
    r.append(title);
    r.append(",\"description\":");
    r.append(description);
    r.append(",\"created_at\":");
    r.append(created_at);
    r.append(",\"modified_at\":");
    r.append(modified_at);
    r.append("}");
    r
}

fn failure_response(e: &ApiError) -> (r: Response)
    ensures
        (r.status, r.body@) == failure(*e),
{
    let m = e.message();
    Response { status: 500, body: text_body(false, "error", m.as_str()) }
}

pub open spec fn list_reply(result: Result<ListIssuesOutput, ApiError>) -> (u16, Seq<char>) {
    match result {
        Ok(out) => (200u16, list_envelope(out.entities@)),
        Err(e) => failure(e),
    }
}

pub open spec fn get_reply(result: Result<GetIssueOutput, ApiError>) -> (u16, Seq<char>) {
    match result {
        Ok(out) => (200u16, item_envelope(out.entity@)),
        Err(e) => failure(e),
    }
}

pub open spec fn upsert_reply(
    inserted: bool,
    id: Seq<char>,
    result: Result<UpsertIssueOutput, ApiError>,
) -> (u16, Seq<char>) {
    match result {
        Ok(_) => (200u16, text_envelope(
            true,
            "message"@,
            (if inserted { "inserted "@ } else { "updated "@ }) + id,
        )),
        Err(e) => failure(e),
    }
}

pub open spec fn delete_reply(id: Seq<char>, result: Result<DeleteIssueOutput, ApiError>) -> (u16, Seq<char>) {
    match result {
        Ok(_) => (200u16, text_envelope(true, "message"@, "deleted "@ + id)),
        Err(e) => failure(e),
    }
}

/// `GET /healthCheck`.
pub fn health_response() -> (r: Response)
    ensures
        r.status == 200,
        r.body@ == text_envelope(true, "message"@, "OK"@),
{
    Response { status: 200, body: text_body(true, "message", "OK") }
}

pub open spec fn routing_failure(op: Operation, method: Seq<char>, pattern: Seq<char>) -> (u16, Seq<char>) {
    if op == Operation::MethodNotAllowed {
        (405, text_envelope(false, "message"@, method + " "@ + pattern + " METHOD NOT ALLOWED"@))
    } else {
        (404, text_envelope(false, "message"@, method + " "@ + pattern + " NOT FOUND"@))
    }
}

/// The reply to a request that no route accepts: 405 where the path
/// matched with another method, 404 otherwise.
pub fn routing_failure_response(op: Operation, method: &str, pattern: &str) -> (r: Response)
    requires
        op == Operation::NotFound || op == Operation::MethodNotAllowed,
    ensures
        (r.status, r.body@) == routing_failure(op, method@, pattern@),
{
    let mut text = String::from_str(method);
    text.append(" ");
    text.append(pattern);
    if op == Operation::MethodNotAllowed {
        text.append(" METHOD NOT ALLOWED");
        Response { status: 405, body: text_body(false, "message", text.as_str()) }
    } else {
        text.append(" NOT FOUND");
        Response { status: 404, body: text_body(false, "message", text.as_str()) }
    }
}

/// The reply to a listing.
pub fn list_response(result: &Result<ListIssuesOutput, ApiError>) -> (r: Response)
    ensures
        (r.status, r.body@) == list_reply(*result),
{
    match result {
        Ok(out) => {
            let mut body = String::from_str("{\"success\":true,\"items\":[");
            let mut i: usize = 0;
            while i < out.entities.len()
                invariant
                    i <= out.entities@.len(),
                    body@ == "{\"success\":true,\"items\":["@ + issues_json(
                        out.entities@.subrange(0, i as int),
                    ),
                decreases out.entities@.len() - i,
            {
                let ghost before = out.entities@.subrange(0, i as int);
                let ghost after = out.entities@.subrange(0, i + 1);
                assert(after.drop_last() =~= before);
                if i > 0 {
                    body.append(",");
                }
                let one = issue_body(&out.entities[i]);
                body.append(one.as_str());
                i = i + 1;
            }
            assert(out.entities@.subrange(0, out.entities@.len() as int) =~= out.entities@);
            body.append("]}");
            Response { status: 200, body }
        },
        Err(e) => failure_response(e),
    }
}

/// The reply to a lookup by id; a missing id answers 500 like any other
/// persistence failure (see `failure`).
pub fn get_response(result: &Result<GetIssueOutput, ApiError>) -> (r: Response)
    ensures
        (r.status, r.body@) == get_reply(*result),
{
    match result {
        Ok(out) => {
            let mut body = String::from_str("{\"success\":true,\"item\":");
            body.append(issue_body(&out.entity).as_str());
            body.append("}");
            Response { status: 200, body }
        },
        Err(e) => failure_response(e),
    }
}

/// The reply to a write: `inserted <id>` for a create, `updated <id>` for an update.
pub fn upsert_response(inserted: bool, id: &str, result: &Result<UpsertIssueOutput, ApiError>) -> (r: Response)
    ensures
        (r.status, r.body@) == upsert_reply(inserted, id@, *result),
{
    match result {
        Ok(_) => {
            let mut text = String::from_str(if inserted { "inserted " } else { "updated " });
            text.append(id);
            Response { status: 200, body: text_body(true, "message", text.as_str()) }
        },
        Err(e) => failure_response(e),
    }
}

/// The reply to a write whose body did not decode.
pub fn bad_payload_response(description: &str) -> (r: Response)
    ensures
        r.status == 400,
        r.body@ == text_envelope(false, "error"@, description@),
{
    Response { status: 400, body: text_body(false, "error", description) }
}

/// The reply to a delete.
pub fn delete_response(id: &str, result: &Result<DeleteIssueOutput, ApiError>) -> (r: Response)
    ensures
        (r.status, r.body@) == delete_reply(id@, *result),
{
    match result {
        Ok(_) => {
            let mut text = String::from_str("deleted ");
            text.append(id);
            Response { status: 200, body: text_body(true, "message", text.as_str()) }
        },
        Err(e) => failure_response(e),
    }
}

} // verus!
