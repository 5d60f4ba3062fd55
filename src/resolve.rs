//! From a request target to the relative path under the document root, and
//! from there to the path that is looked up on the filesystem.

use vstd::prelude::*;
use vstd::string::*;

verus! {

/// The form of a request line's target, as the transport layer parsed it.
pub enum RequestTarget {
    /// `/a/b`: the path as it was sent.
    AbsolutePath(String),
    /// `scheme://host/a/b`: the serialized path component of the URI.
    AbsoluteUri(String),
    /// `host:port`, as in `CONNECT`.
    Authority(String),
    /// `*`, as in `OPTIONS *`.
    Star,
}

/// The file name looked up when a path names a directory.
pub const DEFAULT_DOCUMENT: &'static str = "index.html";

pub open spec fn starts_with_separator(s: Seq<char>) -> bool {
    s.len() > 0 && s[0] == '/'
}

/// A path is absolute when it begins at the filesystem root.
pub open spec fn is_absolute(s: Seq<char>) -> bool {
    starts_with_separator(s)
}

/// The final component of a path is empty when the path is empty or ends
/// with a separator.
pub open spec fn final_component_empty(s: Seq<char>) -> bool {
    s.len() == 0 || s.last() == '/'
}

impl RequestTarget {
    /// Path forms carry a path that begins with the separator.
    pub open spec fn wf(&self) -> bool {
        match self {
            RequestTarget::AbsolutePath(p) => starts_with_separator(p@),
            RequestTarget::AbsoluteUri(p) => starts_with_separator(p@),
            _ => true,
        }
    }
}

/// The relative path that a target names: its path without the leading
/// separator, or none for the forms that name no path.
pub open spec fn resolved(t: &RequestTarget) -> Option<Seq<char>> {
    match t {
        RequestTarget::AbsolutePath(p) => Some(p@.drop_first()),
        RequestTarget::AbsoluteUri(p) => Some(p@.drop_first()),
        _ => None,
    }
}

/// The path looked up for a resolved path: the default document is appended
/// where the final component is empty.
pub open spec fn effective_path(s: Seq<char>) -> Seq<char> {
    if final_component_empty(s) {
        s + DEFAULT_DOCUMENT@
    } else {
        s
    }
}

/// Resolves a request target to a path relative to the document root.
pub fn request_path(target: &RequestTarget) -> (r: Option<String>)
    requires
        target.wf(),
    ensures
        r.is_some() == resolved(target).is_some(),
        r matches Some(p) ==> resolved(target) == Some(p@),
{
    match target {
        RequestTarget::AbsolutePath(p) => Some(strip_separator(p)),
        RequestTarget::AbsoluteUri(p) => Some(strip_separator(p)),
        _ => None,
    }
}

fn strip_separator(p: &String) -> (r: String)
    requires
        starts_with_separator(p@),
    ensures
        r@ == p@.drop_first(),
{
    let s = p.as_str();
    let n = s.unicode_len();
    let rest = s.substring_char(1, n);
    proof {
        assert(rest@ =~= p@.drop_first());
    }
    String::from_str(rest)
}

/// Whether a path begins at the filesystem root.
pub fn path_is_absolute(s: &String) -> (r: bool)
    ensures
        r == is_absolute(s@),
{
    let t = s.as_str();
    let n = t.unicode_len();
    n > 0 && t.get_char(0) == '/'
}

/// The path to look up for a resolved relative path: the default document
/// stands in for an empty final component.
pub fn request_dirindex(file_path_str: &String) -> (r: String)
    requires
        !is_absolute(file_path_str@),
    ensures
        r@ == effective_path(file_path_str@),
{
    let t = file_path_str.as_str();
    let n = t.unicode_len();
    let mut r = file_path_str.clone();
    if n == 0 || t.get_char(n - 1) == '/' {
        r.append(DEFAULT_DOCUMENT);
    }
    r
}

} // verus!
