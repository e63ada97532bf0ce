use vstd::prelude::*;
use crate::errors::ApiError;
use crate::models::{GetIssueOutput, Issue, IssueView, ListIssuesOutput, UpsertIssueInput};

verus! {

/// The collection that holds the issues.
pub const ISSUES_TABLE: &'static str = "issues";

/// The most records that one listing reads.
pub const SCAN_LIMIT: usize = 100;

/// The single conditional write of an upsert, the store-side form of
/// `upserted`: `created_at` is set only where the record has none,
/// `modified_at` always.
pub const UPSERT_EXPRESSION: &'static str = "SET title = :title, description = :description, created_at = if_not_exists(created_at, :now), modified_at = :now";

pub open spec fn views(s: Seq<Issue>) -> Seq<IssueView> {
    s.map_values(|i: Issue| i@)
}

/// The records that decoded, in the order in which the store returned them.
pub open spec fn decoded_issues(records: Seq<Result<Issue, ApiError>>) -> Seq<IssueView>
    decreases records.len(),
{
    if records.len() == 0 {
        Seq::empty()
    } else {
        let rest = decoded_issues(records.drop_last());
        match records.last() {
            Ok(issue) => rest.push(issue@),
            Err(_) => rest,
        }
    }
}

/// Gathers a scan's records into a listing. A record that failed to decode
/// is left out and the others are kept; a scan that returned no record
/// list gives an empty listing.
pub fn collect_issues(records: Option<Vec<Result<Issue, ApiError>>>) -> (r: ListIssuesOutput)
    ensures
        views(r.entities@) == match records {
            Some(v) => decoded_issues(v@),
            None => Seq::empty(),
        },
{
    let mut entities: Vec<Issue> = Vec::new();
    match records {
        Some(v) => {
            let mut i: usize = 0;
            while i < v.len()
                invariant
                    i <= v@.len(),
                    views(entities@) == decoded_issues(v@.subrange(0, i as int)),
                decreases v@.len() - i,
            {
                let ghost before = v@.subrange(0, i as int);
                assert(v@.subrange(0, i + 1).drop_last() =~= before);
                match &v[i] {
                    Ok(issue) => {
                        entities.push(issue.copy());
                        assert(views(entities@) =~= decoded_issues(before).push(v@[i as int]->Ok_0@));
                    },
                    Err(_) => {},
                }
                i = i + 1;
            }
            assert(v@.subrange(0, v@.len() as int) =~= v@);
        },
        None => {
            assert(views(entities@) =~= Seq::<IssueView>::empty());
        },
    }
    ListIssuesOutput { entities }
}

/// Turns the outcome of a lookup by id into the operation's result: no
/// record is `NotFound`, a record that did not decode is that error.
pub fn found_issue(found: Option<Result<Issue, ApiError>>) -> (r: Result<GetIssueOutput, ApiError>)
    ensures
        match found {
            None => r == Err::<GetIssueOutput, ApiError>(ApiError::NotFound),
            Some(Err(e)) => r == Err::<GetIssueOutput, ApiError>(e),
            Some(Ok(issue)) => r is Ok && r->Ok_0.entity@ == issue@,
        },
{
    match found {
        None => Err(ApiError::NotFound),
        Some(Err(e)) => Err(e),
        Some(Ok(issue)) => Ok(GetIssueOutput { entity: issue }),
    }
}

/// What the store holds for `id` before a write, if anything.
pub open spec fn prior(m: Map<Seq<char>, IssueView>, id: Seq<char>) -> Option<IssueView> {
    if m.contains_key(id) { Some(m[id]) } else { None }
}

/// The record that an upsert leaves: title and description from the input,
/// `created_at` kept where the record had one and else `now`, `modified_at`
/// always `now`.
pub open spec fn upserted(
    before: Option<IssueView>,
    id: Seq<char>,
    title: Seq<char>,
    description: Seq<char>,
    now: Seq<char>,
) -> IssueView {
    IssueView {
        id: Some(id),
        title: Some(title),
        description: Some(description),
        created_at: match before {
            Some(b) => if b.created_at is Some { b.created_at } else { Some(now) },
            None => Some(now),
        },
        modified_at: Some(now),
    }
}

/// The contents of a store after one upsert.
pub open spec fn after_upsert(
    m: Map<Seq<char>, IssueView>,
    id: Seq<char>,
    title: Seq<char>,
    description: Seq<char>,
    now: Seq<char>,
) -> Map<Seq<char>, IssueView> {
    m.insert(id, upserted(prior(m, id), id, title, description, now))
}

pub open spec fn input_after_upsert(
    m: Map<Seq<char>, IssueView>,
    data: UpsertIssueInput,
    now: Seq<char>,
) -> Map<Seq<char>, IssueView> {
    after_upsert(m, data.id@, data.title@, data.description@, now)
}

} // verus!
