use vstd::prelude::*;
use crate::text::{has_char, has_prefix, same_text, starts_with};

verus! {

/// The operation that a request is dispatched to.
#[derive(Debug, Clone, Copy, PartialEq, Eq, Structural)]
pub enum Operation {
    HealthCheck,
    IssueList,
    IssueInsert,
    IssueGet,
    IssueUpdate,
    IssueDelete,
    /// The path matches no route.
    NotFound,
    /// The path matches a route, but not with this method.
    MethodNotAllowed,
}

/// A leading double slash collapsed to a single one.
pub open spec fn normalized_path(p: Seq<char>) -> Seq<char> {
    if p.len() >= 2 && p[0] == '/' && p[1] == '/' {
        p.subrange(1, p.len() as int)
    } else {
        p
    }
}

pub open spec fn issue_prefix() -> Seq<char> {
    "/issue/"@
}

/// One non-empty path segment: no slash in it.
pub open spec fn is_segment(s: Seq<char>) -> bool {
    s.len() > 0 && !s.contains('/')
}

/// The route pattern and the literal id segment of a normalized path. Under
/// `/issue/` only a single non-empty segment names a route; any other path
/// stands for itself and matches no pattern of the table.
pub open spec fn path_shape(p: Seq<char>) -> (Seq<char>, Seq<char>) {
    let slug = p.subrange(issue_prefix().len() as int, p.len() as int);
    if starts_with(p, issue_prefix()) && is_segment(slug) {
        if slug == "list"@ {
            ("/issue/list"@, slug)
        } else if slug == "new"@ {
            ("/issue/new"@, slug)
        } else {
            ("/issue/{slug}"@, slug)
        }
    } else {
        (p, ""@)
    }
}

/// The route table: pattern and method to operation.
pub open spec fn operation_for(method: Seq<char>, pattern: Seq<char>) -> Operation {
    if pattern == "/healthCheck"@ {
        if method == "GET"@ { Operation::HealthCheck } else { Operation::MethodNotAllowed }
    } else if pattern == "/issue/list"@ {
        if method == "GET"@ { Operation::IssueList } else { Operation::MethodNotAllowed }
    } else if pattern == "/issue/new"@ {
        if method == "POST"@ { Operation::IssueInsert } else { Operation::MethodNotAllowed }
    } else if pattern == "/issue/{slug}"@ {
        if method == "GET"@ {
            Operation::IssueGet
        } else if method == "POST"@ {
            Operation::IssueUpdate
        } else if method == "DELETE"@ {
            Operation::IssueDelete
        } else {
            Operation::MethodNotAllowed
        }
    } else {
        Operation::NotFound
    }
}

/// Collapses a leading `//` into `/`.
pub fn trim_path(path: &str) -> (r: &str)
    ensures
        r@ == normalized_path(path@),
{
    let n = path.unicode_len();
    if n >= 2 && path.get_char(0) == '/' && path.get_char(1) == '/' {
        path.substring_char(1, n)
    } else {
        path
    }
}

/// Splits a normalized path into its route pattern and its id segment.
pub fn split_path(path: &str) -> (r: (&str, &str))
    ensures
        (r.0@, r.1@) == path_shape(path@),
{
    let prefix = "/issue/";
    if !has_prefix(path, prefix) {
        return (path, "");
    }
    let slug = path.substring_char(prefix.unicode_len(), path.unicode_len());
    if slug.unicode_len() == 0 || has_char(slug, '/') {
        (path, "")
    } else if same_text(slug, "list") {
        ("/issue/list", slug)
    } else if same_text(slug, "new") {
        ("/issue/new", slug)
    } else {
        ("/issue/{slug}", slug)
    }
}

/// Looks a method and a route pattern up in the route table.
pub fn classify(method: &str, pattern: &str) -> (r: Operation)
    ensures
        r == operation_for(method@, pattern@),
{
    let get = same_text(method, "GET");
    if same_text(pattern, "/healthCheck") {
        if get { Operation::HealthCheck } else { Operation::MethodNotAllowed }
    } else if same_text(pattern, "/issue/list") {
        if get { Operation::IssueList } else { Operation::MethodNotAllowed }
    } else if same_text(pattern, "/issue/new") {
        if same_text(method, "POST") { Operation::IssueInsert } else { Operation::MethodNotAllowed }
    } else if same_text(pattern, "/issue/{slug}") {
        if get {
            Operation::IssueGet
        } else if same_text(method, "POST") {
            Operation::IssueUpdate
        } else if same_text(method, "DELETE") {
            Operation::IssueDelete
        } else {
            Operation::MethodNotAllowed
        }
    } else {
        Operation::NotFound
    }
}

/// A request classified: its operation, its route pattern and the id it names.
pub struct Route {
    pub operation: Operation,
    pub pattern: String,
    pub slug: String,
}

pub open spec fn route_operation(method: Seq<char>, path: Seq<char>) -> Operation {
    operation_for(method, path_shape(normalized_path(path)).0)
}

pub open spec fn route_pattern(path: Seq<char>) -> Seq<char> {
    path_shape(normalized_path(path)).0
}

/// The id of a request: the upstream path parameter where there is one,
/// else the literal segment after `/issue/`.
pub open spec fn route_slug(path: Seq<char>, slug_param: Option<Seq<char>>) -> Seq<char> {
    match slug_param {
        Some(s) => s,
        None => path_shape(normalized_path(path)).1,
    }
}

pub open spec fn param_view(p: Option<&str>) -> Option<Seq<char>> {
    match p {
        Some(s) => Some(s@),
        None => None,
    }
}

/// Classifies a request by method, raw path and the optional id that an
/// upstream routing layer extracted.
pub fn route(method: &str, path: &str, slug_param: Option<&str>) -> (r: Route)
    ensures
        r.operation == route_operation(method@, path@),
        r.pattern@ == route_pattern(path@),
        r.slug@ == route_slug(path@, param_view(slug_param)),
{
    let (pattern, path_slug) = split_path(trim_path(path));
    let slug = match slug_param {
        Some(s) => s,
        None => path_slug,
    };
    Route {
        operation: classify(method, pattern),
        pattern: String::from_str(pattern),
        slug: String::from_str(slug),
    }
}

} // verus!
