use vstd::prelude::*;
use crate::errors::ApiError;
use crate::models::{
    copy_text, DeleteIssueOutput, GetIssueOutput, Issue, IssueView, ListIssuesOutput,
    UpsertIssueInput, UpsertIssueOutput,
};
use crate::persistence::{found_issue, input_after_upsert, upserted, prior, SCAN_LIMIT};
use crate::text::same_text;

verus! {

/// An issue store held in memory: one record per id, in order of first write.
pub struct IssueTable {
    records: Vec<Issue>,
    contents: Ghost<Map<Seq<char>, IssueView>>,
}

/// `s` is what one listing of a store holding `m` may return: records of the
/// store, no id twice, at most the scan bound of them, and all of them unless
/// the bound was reached.
pub open spec fn is_listing(m: Map<Seq<char>, IssueView>, s: Seq<Issue>) -> bool {
    &&& s.len() <= SCAN_LIMIT
    &&& forall|i: int|
        0 <= i < s.len() ==> {
            &&& (#[trigger] s[i])@.id is Some
            &&& m.contains_key(s[i]@.id->0)
            &&& m[s[i]@.id->0] == s[i]@
        }
    &&& forall|i: int, j: int| 0 <= i < s.len() && 0 <= j < s.len() && i != j ==> (#[trigger] s[i])@.id != (#[trigger] s[j])@.id
    &&& s.len() < SCAN_LIMIT ==> forall|k: Seq<char>| #[trigger] m.contains_key(k) ==> exists|i: int| 0 <= i < s.len() && (#[trigger] s[i])@.id == Some(k)
}

/// Relies on chrono's `From<SystemTime>` for `DateTime<Utc>`, which also
/// takes a clock set before 1970, written with its `Debug` format: the
/// current time as text. Nothing is known of the value.
#[verifier::external_body]
fn current_time() -> (r: String) {
    let now = chrono::DateTime::<chrono::Utc>::from(std::time::SystemTime::now());
    std::format!("{:?}", now)
}

impl View for IssueTable {
    type V = Map<Seq<char>, IssueView>;

    closed spec fn view(&self) -> Map<Seq<char>, IssueView> {
        self.contents@
    }
}

impl IssueTable {
    /// Every record has an id, no id twice, and the records are exactly the contents.
    pub closed spec fn wf(&self) -> bool {
        &&& forall|i: int|
            0 <= i < self.records@.len() ==> {
                &&& (#[trigger] self.records@[i])@.id is Some
                &&& self.contents@.contains_key(self.records@[i]@.id->0)
                &&& self.contents@[self.records@[i]@.id->0] == self.records@[i]@
            }
        &&& forall|k: Seq<char>| #[trigger]
            self.contents@.contains_key(k) ==> exists|i: int|
                0 <= i < self.records@.len() && (#[trigger] self.records@[i])@.id == Some(k)
        &&& forall|i: int, j: int|
            0 <= i < self.records@.len() && 0 <= j < self.records@.len() && i != j
                ==> (#[trigger] self.records@[i])@.id != (#[trigger] self.records@[j])@.id
    }

    /// An empty store.
    pub fn new() -> (r: IssueTable)
        ensures
            r.wf(),
            r@ == Map::<Seq<char>, IssueView>::empty(),
    {
        IssueTable { records: Vec::new(), contents: Ghost(Map::empty()) }
    }

    /// The position of the record with this id.
    fn find(&self, id: &str) -> (r: Option<usize>)
        requires
            self.wf(),
        ensures
            match r {
                Some(i) => i < self.records@.len() && self.records@[i as int]@.id == Some(id@),
                None => !self@.contains_key(id@),
            },
    {
        let mut i: usize = 0;
        while i < self.records.len()
            invariant
                self.wf(),
                i <= self.records@.len(),
                forall|k: int| 0 <= k < i ==> (#[trigger] self.records@[k])@.id != Some(id@),
            decreases self.records@.len() - i,
        {
            let hit = match &self.records[i].id {
                Some(s) => same_text(s.as_str(), id),
                None => false,
            };
            if hit {
                return Some(i);
            }
            i = i + 1;
        }
        None
    }

    /// Up to the scan bound of records, in store order.
    pub fn list_issues(&self) -> (r: ListIssuesOutput)
        requires
            self.wf(),
        ensures
            is_listing(self@, r.entities@),
    {
        let mut entities: Vec<Issue> = Vec::new();
        let mut i: usize = 0;
        while i < self.records.len() && i < SCAN_LIMIT
            invariant
                self.wf(),
                i <= self.records@.len(),
                i <= SCAN_LIMIT,
                entities@.len() == i,
                forall|k: int| 0 <= k < i ==> (#[trigger] entities@[k])@ == self.records@[k]@,
            decreases self.records@.len() - i,
        {
            entities.push(self.records[i].copy());
            i = i + 1;
        }
        assert forall|a: int, b: int|
            0 <= a < entities@.len() && 0 <= b < entities@.len() && a != b implies
            (#[trigger] entities@[a])@.id != (#[trigger] entities@[b])@.id by {
            assert(self.records@[a]@.id != self.records@[b]@.id);
        }
        assert forall|a: int| 0 <= a < entities@.len() implies {
            &&& (#[trigger] entities@[a])@.id is Some
            &&& self@.contains_key(entities@[a]@.id->0)
            &&& self@[entities@[a]@.id->0] == entities@[a]@
        } by {
            assert(self.records@[a]@ == entities@[a]@);
        }
        if i < SCAN_LIMIT {
            assert forall|k: Seq<char>| #[trigger] self@.contains_key(k) implies exists|a: int|
                0 <= a < entities@.len() && (#[trigger] entities@[a])@.id == Some(k) by {
                let a = choose|a: int| 0 <= a < self.records@.len() && (#[trigger] self.records@[a])@.id == Some(k);
                assert(entities@[a]@ == self.records@[a]@);
            }
        }
        ListIssuesOutput { entities }
    }

    /// The record with this id, or `NotFound`.
    pub fn get_issue(&self, id: &str) -> (r: Result<GetIssueOutput, ApiError>)
        requires
            self.wf(),
        ensures
            self@.contains_key(id@) ==> r is Ok && r->Ok_0.entity@ == self@[id@],
            !self@.contains_key(id@) ==> r == Err::<GetIssueOutput, ApiError>(ApiError::NotFound),
    {
        match self.find(id) {
            Some(i) => found_issue(Some(Ok(self.records[i].copy()))),
            None => found_issue(None),
        }
    }

    /// Writes title and description for the input's id, keeping the first
    /// write's `created_at` and stamping `modified_at` with `now`.
    pub fn upsert_at(&mut self, data: &UpsertIssueInput, now: &str) -> (r: UpsertIssueOutput)
        requires
            old(self).wf(),
        ensures
            final(self).wf(),
            final(self)@ == input_after_upsert(old(self)@, *data, now@),
    {
        let ghost before = self@;
        let ghost id = data.id@;
        let found = self.find(data.id.as_str());
        match found {
            Some(i) => {
                let created_at = match &self.records[i].created_at {
                    Some(c) => Some(c.clone()),
                    None => Some(String::from_str(now)),
                };
                let issue = Issue {
                    id: Some(data.id.clone()),
                    title: Some(data.title.clone()),
                    description: Some(data.description.clone()),
                    created_at,
                    modified_at: Some(String::from_str(now)),
                };
                proof {
                    assert(before[id] == self.records@[i as int]@);
                    assert(issue@ == upserted(prior(before, id), id, data.title@, data.description@, now@));
                }
                self.records.set(i, issue);
                self.contents = Ghost(self.contents@.insert(id, issue@));
                proof {
                    assert forall|k: Seq<char>| #[trigger] self.contents@.contains_key(k) implies exists|j: int|
                        0 <= j < self.records@.len() && (#[trigger] self.records@[j])@.id == Some(k) by {
                        if k != id {
                            let j = choose|j: int| 0 <= j < self.records@.len() && (#[trigger] old(self).records@[j])@.id == Some(k);
                            assert(self.records@[j] == old(self).records@[j]);
                        } else {
                            assert(self.records@[i as int]@.id == Some(k));
                        }
                    }
                }
            },
            None => {
                let issue = Issue {
                    id: Some(data.id.clone()),
                    title: Some(data.title.clone()),
                    description: Some(data.description.clone()),
                    created_at: Some(String::from_str(now)),
                    modified_at: Some(String::from_str(now)),
                };
                proof {
                    assert(issue@ == upserted(prior(before, id), id, data.title@, data.description@, now@));
                    assert forall|j: int| 0 <= j < self.records@.len() implies (#[trigger] self.records@[j])@.id != Some(id) by {
                        assert(self.contents@.contains_key(self.records@[j]@.id->0));
                    }
                }
                self.records.push(issue);
                self.contents = Ghost(self.contents@.insert(id, issue@));
                proof {
                    let n = self.records@.len() - 1;
                    assert(self.records@[n] == issue);
                    assert forall|k: Seq<char>| #[trigger] self.contents@.contains_key(k) implies exists|j: int|
                        0 <= j < self.records@.len() && (#[trigger] self.records@[j])@.id == Some(k) by {
                        if k != id {
                            let j = choose|j: int| 0 <= j < old(self).records@.len() && (#[trigger] old(self).records@[j])@.id == Some(k);
                            assert(self.records@[j] == old(self).records@[j]);
                        } else {
                            assert(self.records@[n]@.id == Some(k));
                        }
                    }
                }
            },
        }
        UpsertIssueOutput {}
    }

    /// Upserts with the current time as `now`.
    pub fn upsert_issue(&mut self, data: &UpsertIssueInput) -> (r: UpsertIssueOutput)
        requires
            old(self).wf(),
        ensures
            final(self).wf(),
            exists|now: Seq<char>| final(self)@ == #[trigger] input_after_upsert(old(self)@, *data, now),
    {
        let now = current_time();
        self.upsert_at(data, now.as_str())
    }

    /// Removes the record with this id, if there is one; succeeds either way.
    pub fn delete_issue(&mut self, id: &str) -> (r: DeleteIssueOutput)
        requires
            old(self).wf(),
        ensures
            final(self).wf(),
            final(self)@ == old(self)@.remove(id@),
    {
        match self.find(id) {
            Some(i) => {
                let ghost before = self.records@;
                self.records.remove(i);
                self.contents = Ghost(self.contents@.remove(id@));
                proof {
                    assert forall|a: int| 0 <= a < self.records@.len() implies
                        (#[trigger] self.records@[a]) == before[if a < i { a } else { a + 1 }] by {}
                    assert forall|a: int| 0 <= a < self.records@.len() implies {
                        &&& (#[trigger] self.records@[a])@.id is Some
                        &&& self.contents@.contains_key(self.records@[a]@.id->0)
                        &&& self.contents@[self.records@[a]@.id->0] == self.records@[a]@
                    } by {
                        let b = if a < i { a } else { a + 1 };
                        assert(self.records@[a] == before[b]);
                        assert(before[b]@.id != before[i as int]@.id);
                    }
                    assert forall|a: int, c: int|
                        0 <= a < self.records@.len() && 0 <= c < self.records@.len() && a != c
                            implies (#[trigger] self.records@[a])@.id != (#[trigger] self.records@[c])@.id by {
                        let a2 = if a < i { a } else { a + 1 };
                        let c2 = if c < i { c } else { c + 1 };
                        assert(self.records@[a] == before[a2]);
                        assert(self.records@[c] == before[c2]);
                    }
                    assert forall|k: Seq<char>| #[trigger] self.contents@.contains_key(k) implies exists|j: int|
                        0 <= j < self.records@.len() && (#[trigger] self.records@[j])@.id == Some(k) by {
                        let j = choose|j: int| 0 <= j < before.len() && (#[trigger] before[j])@.id == Some(k);
                        assert(j != i);
                        let j2 = if j < i { j } else { j - 1 };
                        assert(self.records@[j2] == before[j]);
                    }
                }
            },
            None => {
                assert(self.contents@.remove(id@) =~= self.contents@);
            },
        }
        DeleteIssueOutput {}
    }
}

} // verus!
