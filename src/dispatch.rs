use vstd::prelude::*;
use crate::errors::ApiError;
use crate::models::{
    DeleteIssueOutput, GetIssueOutput, ListIssuesOutput, UpsertIssueInput, UpsertIssueOutput,
};
use crate::persistence::input_after_upsert;
use crate::response::{
    bad_payload_response, delete_reply, delete_response, failure, get_reply, get_response,
    health_response, item_envelope, list_envelope, list_reply, list_response, routing_failure,
    routing_failure_response, text_envelope, upsert_reply, upsert_response, Response,
};
use crate::routes::{param_view, route, route_operation, route_pattern, route_slug, Operation};
use crate::table::{is_listing, IssueTable};

verus! {

pub open spec fn is_write(op: Operation) -> bool {
    op == Operation::IssueInsert || op == Operation::IssueUpdate
}

/// What a request asks for: a reply that needs no store, or one store call.
#[derive(Debug)]
pub enum Action {
    Reply(Response),
    List,
    Get(String),
    Upsert { data: UpsertIssueInput, inserted: bool },
    Delete(String),
}

/// What the store answered to the call of an action.
#[derive(Debug)]
pub enum Outcome {
    Listed(Result<ListIssuesOutput, ApiError>),
    Fetched(Result<GetIssueOutput, ApiError>),
    Written(Result<UpsertIssueOutput, ApiError>),
    Deleted(Result<DeleteIssueOutput, ApiError>),
}

/// The outcome is the answer to the action's store call.
pub open spec fn answers(action: Action, outcome: Outcome) -> bool {
    match action {
        Action::List => outcome is Listed,
        Action::Get(_) => outcome is Fetched,
        Action::Upsert { .. } => outcome is Written,
        Action::Delete(_) => outcome is Deleted,
        Action::Reply(_) => false,
    }
}

/// The status and body that answer a store call's outcome.
pub open spec fn conclusion(action: Action, outcome: Outcome) -> (u16, Seq<char>) {
    match outcome {
        Outcome::Listed(res) => list_reply(res),
        Outcome::Fetched(res) => get_reply(res),
        Outcome::Written(res) => match action {
            Action::Upsert { data, inserted } => upsert_reply(inserted, data.id@, res),
            _ => (0u16, Seq::empty()),
        },
        Outcome::Deleted(res) => match action {
            Action::Delete(id) => delete_reply(id@, res),
            _ => (0u16, Seq::empty()),
        },
    }
}

/// Decides what a request needs. `payload` is the decoded request body, or
/// the decoder's description of why it did not decode; only writes read it.
/// A write names the id of its payload; a lookup or a delete names the
/// request's id.
pub fn plan(
    method: &str,
    path: &str,
    slug_param: Option<&str>,
    payload: Result<UpsertIssueInput, String>,
) -> (r: Action)
    ensures
        ({
            let op = route_operation(method@, path@);
            let slug = route_slug(path@, param_view(slug_param));
            &&& op == Operation::HealthCheck ==> r is Reply && r->Reply_0.status == 200
                && r->Reply_0.body@ == text_envelope(true, "message"@, "OK"@)
            &&& (op == Operation::NotFound || op == Operation::MethodNotAllowed) ==> r is Reply
                && (r->Reply_0.status, r->Reply_0.body@) == routing_failure(op, method@, route_pattern(path@))
            &&& op == Operation::IssueList ==> r is List
            &&& op == Operation::IssueGet ==> r is Get && r->Get_0@ == slug
            &&& op == Operation::IssueDelete ==> r is Delete && r->Delete_0@ == slug
            &&& is_write(op) ==> match payload {
                Ok(d) => r is Upsert && r->data == d && r->inserted == (op == Operation::IssueInsert),
                Err(t) => r is Reply && r->Reply_0.status == 400
                    && r->Reply_0.body@ == text_envelope(false, "error"@, t@),
            }
        }),
{
    let rt = route(method, path, slug_param);
    match rt.operation {
        Operation::HealthCheck => Action::Reply(health_response()),
        Operation::IssueList => Action::List,
        Operation::IssueGet => Action::Get(rt.slug),
        Operation::IssueInsert | Operation::IssueUpdate => match payload {
            Ok(data) => Action::Upsert { data, inserted: rt.operation == Operation::IssueInsert },
            Err(t) => Action::Reply(bad_payload_response(t.as_str())),
        },
        Operation::IssueDelete => Action::Delete(rt.slug),
        Operation::NotFound | Operation::MethodNotAllowed => {
            Action::Reply(routing_failure_response(rt.operation, method, rt.pattern.as_str()))
        },
    }
}

/// Builds the reply to an action from what the store answered.
pub fn conclude(action: &Action, outcome: &Outcome) -> (r: Response)
    requires
        answers(*action, *outcome),
    ensures
        (r.status, r.body@) == conclusion(*action, *outcome),
{
    match outcome {
        Outcome::Listed(res) => list_response(res),
        Outcome::Fetched(res) => get_response(res),
        Outcome::Written(res) => match action {
            Action::Upsert { data, inserted } => upsert_response(*inserted, data.id.as_str(), res),
            _ => Response { status: 0, body: String::new() },
        },
        Outcome::Deleted(res) => match action {
            Action::Delete(id) => delete_response(id.as_str(), res),
            _ => Response { status: 0, body: String::new() },
        },
    }
}

/// Serves one request against an in-memory store: `plan`, the store call,
/// then `conclude`. `now` stamps a write.
pub fn serve(
    table: &mut IssueTable,
    method: &str,
    path: &str,
    slug_param: Option<&str>,
    payload: Result<UpsertIssueInput, String>,
    now: &str,
) -> (r: Response)
    requires
        old(table).wf(),
    ensures
        final(table).wf(),
        ({
            let op = route_operation(method@, path@);
            let slug = route_slug(path@, param_view(slug_param));
            let m = old(table)@;
            let res = (r.status, r.body@);
            &&& op == Operation::HealthCheck ==> final(table)@ == m && res == (
                200u16,
                text_envelope(true, "message"@, "OK"@),
            )
            &&& op == Operation::IssueList ==> final(table)@ == m && r.status == 200 && exists|s|
                is_listing(m, s) && r.body@ == #[trigger] list_envelope(s)
            &&& op == Operation::IssueGet ==> final(table)@ == m && (m.contains_key(slug) ==> res == (
                200u16,
                item_envelope(m[slug]),
            )) && (!m.contains_key(slug) ==> res == failure(ApiError::NotFound))
            &&& is_write(op) ==> match payload {
                Ok(d) => final(table)@ == input_after_upsert(m, d, now@) && res == (
                    200u16,
                    text_envelope(
                        true,
                        "message"@,
                        (if op == Operation::IssueInsert { "inserted "@ } else { "updated "@ }) + d.id@,
                    ),
                ),
                Err(t) => final(table)@ == m && res == (400u16, text_envelope(false, "error"@, t@)),
            }
            &&& op == Operation::IssueDelete ==> final(table)@ == m.remove(slug) && res == (
                200u16,
                text_envelope(true, "message"@, "deleted "@ + slug),
            )
            &&& (op == Operation::NotFound || op == Operation::MethodNotAllowed) ==> final(table)@
                == m && res == routing_failure(op, method@, route_pattern(path@))
        }),
{
    let action = plan(method, path, slug_param, payload);
    match action {
        Action::Reply(r) => r,
        Action::List => {
            let out = Outcome::Listed(Ok(table.list_issues()));
            conclude(&Action::List, &out)
        },
        Action::Get(id) => {
            let out = Outcome::Fetched(table.get_issue(id.as_str()));
            conclude(&Action::Get(id), &out)
        },
        Action::Upsert { data, inserted } => {
            let out = Outcome::Written(Ok(table.upsert_at(&data, now)));
            conclude(&Action::Upsert { data, inserted }, &out)
        },
        Action::Delete(id) => {
            let out = Outcome::Deleted(Ok(table.delete_issue(id.as_str())));
            conclude(&Action::Delete(id), &out)
        },
    }
}

} // verus!
