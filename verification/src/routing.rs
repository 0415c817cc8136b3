use vstd::prelude::*;
use vstd::string::{StrSliceExecFns, StringExecFns};

verus! {

/// What the server does with one request path, evaluated per request.
pub enum RouteDecision {
    /// Exact match on the root path: serve the index document
    /// `<folder>/index.html`.
    Index,
    /// Resolve this path, relative to the served folder, as a static file.
    File(String),
    /// The path could escape the served folder: answered not-found, with no
    /// file lookup at all.
    Rejected,
}

/// The root path, exactly `/`.
pub open spec fn is_root_path(p: Seq<char>) -> bool {
    p.len() == 1 && p[0] == '/'
}

/// A `..` path segment begins at `i`: bounded on the left by the start of
/// the path or a separator, on the right by its end or a separator.
pub open spec fn is_dotdot_at(p: Seq<char>, i: int) -> bool {
    &&& 0 <= i
    &&& i + 2 <= p.len()
    &&& (i == 0 || p[i - 1] == '/')
    &&& p[i] == '.'
    &&& p[i + 1] == '.'
    &&& (i + 2 == p.len() || p[i + 2] == '/')
}

/// A path with a `..` segment could resolve outside the served folder; a
/// compliant static-file resolver refuses it.
pub open spec fn has_traversal_segment(p: Seq<char>) -> bool {
    exists|i: int| is_dotdot_at(p, i)
}

/// The served file's path relative to the folder: the request path with
/// its leading separator removed.
pub open spec fn spec_relative_path(p: Seq<char>) -> Seq<char> {
    if p.len() > 0 && p[0] == '/' {
        p.skip(1)
    } else {
        p
    }
}

/// Whether the path holds a `..` segment anywhere.
fn contains_traversal(path: &str) -> (r: bool)
    ensures
        r == has_traversal_segment(path@),
{
    let n: usize = path.unicode_len();
    if n < 2 {
        assert forall|j: int| !is_dotdot_at(path@, j) by {}
        return false;
    }
    let mut i: usize = 0;
    while i <= n - 2
        invariant
            n == path@.len(),
            2 <= n,
            i <= n,
            forall|j: int| 0 <= j < i ==> !is_dotdot_at(path@, j),
        decreases n - i,
    {
        let left_ok = i == 0 || path.get_char(i - 1) == '/';
        let right_ok = i + 2 == n || path.get_char(i + 2) == '/';
        if left_ok && right_ok && path.get_char(i) == '.' && path.get_char(i + 1) == '.' {
            assert(is_dotdot_at(path@, i as int));
            return true;
        }
        i += 1;
    }
    assert forall|j: int| !is_dotdot_at(path@, j) by {}
    false
}

/// Decides one request path per the routing policy: the exact root path
/// serves the index document; every other path resolves under the served
/// folder as a static file, except that a `..` escape is refused.
pub fn route(path: &str) -> (r: RouteDecision)
    ensures
        is_root_path(path@) ==> r is Index,
        !is_root_path(path@) && has_traversal_segment(path@) ==> r is Rejected,
        !is_root_path(path@) && !has_traversal_segment(path@) ==> (r matches RouteDecision::File(
            f,
        ) && f@ == spec_relative_path(path@)),
{
    let n: usize = path.unicode_len();
    if n == 1 && path.get_char(0) == '/' {
        return RouteDecision::Index;
    }
    if contains_traversal(path) {
        return RouteDecision::Rejected;
    }
    let rel: &str = if n > 0 && path.get_char(0) == '/' {
        let sub = path.substring_char(1, n);
        proof {
            assert(sub@ =~= path@.skip(1));
        }
        sub
    } else {
        path
    };
    RouteDecision::File(String::from_str(rel))
}

} // verus!
