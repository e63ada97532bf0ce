use vstd::prelude::*;

verus! {

/// An issue record as it is read back from the store. Every field may be
/// missing on read, since stored records are not validated.
#[derive(Debug)]
pub struct Issue {
    pub id: Option<String>,
    pub title: Option<String>,
    pub description: Option<String>,
    pub created_at: Option<String>,
    pub modified_at: Option<String>,
}

/// The mathematical value of an issue: each field as an optional text.
pub struct IssueView {
    pub id: Option<Seq<char>>,
    pub title: Option<Seq<char>>,
    pub description: Option<Seq<char>>,
    pub created_at: Option<Seq<char>>,
    pub modified_at: Option<Seq<char>>,
}

pub open spec fn text_view(t: Option<String>) -> Option<Seq<char>> {
    match t {
        Some(s) => Some(s@),
        None => None,
    }
}

impl View for Issue {
    type V = IssueView;

    open spec fn view(&self) -> IssueView {
        IssueView {
            id: text_view(self.id),
            title: text_view(self.title),
            description: text_view(self.description),
            created_at: text_view(self.created_at),
            modified_at: text_view(self.modified_at),
        }
    }
}

/// A copy of an optional text.
pub fn copy_text(t: &Option<String>) -> (r: Option<String>)
    ensures
        text_view(r) == text_view(*t),
{
    match t {
        Some(s) => Some(s.clone()),
        None => None,
    }
}

impl Issue {
    /// A field-by-field copy of the issue.
    pub fn copy(&self) -> (r: Issue)
        ensures
            r@ == self@,
    {
        Issue {
            id: copy_text(&self.id),
            title: copy_text(&self.title),
            description: copy_text(&self.description),
            created_at: copy_text(&self.created_at),
            modified_at: copy_text(&self.modified_at),
        }
    }
}

/// The issues that a listing returned, in store order.
#[derive(Debug)]
pub struct ListIssuesOutput {
    pub entities: Vec<Issue>,
}

/// The issue that a lookup by id returned.
#[derive(Debug)]
pub struct GetIssueOutput {
    pub entity: Issue,
}

/// The payload of a write: all three fields are required.
#[derive(Debug)]
pub struct UpsertIssueInput {
    pub id: String,
    pub title: String,
    pub description: String,
}

/// Acknowledgement of a write.
#[derive(Debug)]
pub struct UpsertIssueOutput {}

/// Acknowledgement of a delete.
#[derive(Debug)]
pub struct DeleteIssueOutput {}

} // verus!
