use vstd::prelude::*;
use crate::errors::ApiError;
use crate::models::{Issue, IssueView};
use crate::persistence::{after_upsert, decoded_issues};
use crate::routes::{normalized_path, route_operation, route_pattern, route_slug};

verus! {

/// Two upserts of one id in a row: the second keeps the `created_at` that
/// the first left, each sets `modified_at` to its own `now`, and the first
/// write of an id sets `created_at` to its `now`.
pub proof fn lemma_upsert_twice_keeps_created_at(
    m: Map<Seq<char>, IssueView>,
    id: Seq<char>,
    title1: Seq<char>,
    description1: Seq<char>,
    now1: Seq<char>,
    title2: Seq<char>,
    description2: Seq<char>,
    now2: Seq<char>,
)
    ensures
        ({
            let m1 = after_upsert(m, id, title1, description1, now1);
            let m2 = after_upsert(m1, id, title2, description2, now2);
            &&& m1.contains_key(id) && m2.contains_key(id)
            &&& m2[id].created_at == m1[id].created_at
            &&& m1[id].created_at is Some
            &&& !m.contains_key(id) ==> m1[id].created_at == Some(now1)
            &&& m1[id].modified_at == Some(now1)
            &&& m2[id].modified_at == Some(now2)
            &&& m2[id].title == Some(title2) && m2[id].description == Some(description2)
        }),
{
}

/// A write or a delete of one id leaves every other id as it was: an id
/// that was never written stays absent.
pub proof fn lemma_other_ids_untouched(
    m: Map<Seq<char>, IssueView>,
    id: Seq<char>,
    other: Seq<char>,
    title: Seq<char>,
    description: Seq<char>,
    now: Seq<char>,
)
    requires
        other != id,
    ensures
        after_upsert(m, other, title, description, now).contains_key(id) == m.contains_key(id),
        m.remove(other).contains_key(id) == m.contains_key(id),
{
}

/// Deleting an id that the store does not hold changes nothing.
pub proof fn lemma_delete_absent_is_noop(m: Map<Seq<char>, IssueView>, id: Seq<char>)
    requires
        !m.contains_key(id),
    ensures
        m.remove(id) == m,
{
    assert(m.remove(id) =~= m);
}

/// Decoding a scan's records in two parts gives the two listings one after
/// the other.
pub proof fn lemma_decoded_split(a: Seq<Result<Issue, ApiError>>, b: Seq<Result<Issue, ApiError>>)
    ensures
        decoded_issues(a + b) == decoded_issues(a) + decoded_issues(b),
    decreases b.len(),
{
    if b.len() == 0 {
        assert(a + b =~= a);
        assert(decoded_issues(a) + decoded_issues(b) =~= decoded_issues(a));
    } else {
        assert((a + b).drop_last() =~= a + b.drop_last());
        lemma_decoded_split(a, b.drop_last());
        match b.last() {
            Ok(i) => {
                assert(decoded_issues(a) + decoded_issues(b) =~= (decoded_issues(a)
                    + decoded_issues(b.drop_last())).push(i@));
            },
            Err(_) => {},
        }
    }
}

/// A malformed record anywhere in a scan is left out of the listing and
/// changes nothing else; a well-formed one appears in its place.
pub proof fn lemma_listing_skips_malformed(
    a: Seq<Result<Issue, ApiError>>,
    b: Seq<Result<Issue, ApiError>>,
    e: ApiError,
    issue: Issue,
)
    ensures
        decoded_issues(a + seq![Err(e)] + b) == decoded_issues(a + b),
        decoded_issues(a + seq![Ok(issue)] + b) == decoded_issues(a) + seq![issue@]
            + decoded_issues(b),
{
    let bad = seq![Err::<Issue, ApiError>(e)];
    let good = seq![Ok::<Issue, ApiError>(issue)];
    lemma_decoded_split(a + bad, b);
    lemma_decoded_split(a, bad);
    lemma_decoded_split(a, b);
    assert(bad.drop_last() =~= Seq::<Result<Issue, ApiError>>::empty());
    assert(bad.last() == Err::<Issue, ApiError>(e));
    assert(decoded_issues(bad.drop_last()) =~= Seq::<IssueView>::empty());
    assert(decoded_issues(bad) =~= Seq::<IssueView>::empty());
    assert(decoded_issues(a) + decoded_issues(bad) =~= decoded_issues(a));
    lemma_decoded_split(a + good, b);
    lemma_decoded_split(a, good);
    assert(good.drop_last() =~= Seq::<Result<Issue, ApiError>>::empty());
    assert(good.last() == Ok::<Issue, ApiError>(issue));
    assert(decoded_issues(good.drop_last()) =~= Seq::<IssueView>::empty());
    assert(decoded_issues(good) =~= seq![issue@]);
}

/// A path that begins with a doubled slash routes as the same path with a
/// single leading slash: same operation, same pattern, same id.
pub proof fn lemma_double_slash_routes_alike(
    method: Seq<char>,
    path: Seq<char>,
    slug_param: Option<Seq<char>>,
)
    requires
        path.len() >= 1,
        path[0] == '/',
        !(path.len() >= 2 && path[1] == '/'),
    ensures
        route_operation(method, seq!['/'] + path) == route_operation(method, path),
        route_pattern(seq!['/'] + path) == route_pattern(path),
        route_slug(seq!['/'] + path, slug_param) == route_slug(path, slug_param),
{
    let doubled = seq!['/'] + path;
    assert(doubled.subrange(1, doubled.len() as int) =~= path);
    assert(normalized_path(doubled) == path);
    assert(normalized_path(path) == path);
}

} // verus!
