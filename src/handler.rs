//! The decisions of request handling: which answer a request gets, the fixed
//! error pages, the `Server` header's value and the per-request log line.

use vstd::prelude::*;
use vstd::string::*;
use crate::resolve::{
    RequestTarget, resolved, is_absolute, effective_path, request_path, path_is_absolute,
    request_dirindex,
};

verus! {

pub const SERVER_NAME: &'static str = "hyttpd";

pub const ERR_BAD_REQUEST: &'static str = "<html><body><h1>400 Bad Request</h1></body></html>";

pub const ERR_NOT_FOUND: &'static str = "<html><body><h1>404 Not Found</h1></body></html>";

pub const ERR_INTERNAL_SERVER_ERROR: &'static str =
    "<html><body><h1>500 Internal Server Error</h1></body></html>";

/// An answer with a fixed body, sent before any other output.
#[derive(Clone, Copy, Debug, PartialEq, Eq, Structural)]
pub enum ErrorPage {
    /// The target names no path.
    BadRequest,
    /// Nothing exists at the looked-up path.
    NotFound,
    /// The file exists but could not be opened.
    InternalServerError,
}

impl ErrorPage {
    pub open spec fn spec_status(&self) -> u16 {
        match self {
            ErrorPage::BadRequest => 400,
            ErrorPage::NotFound => 404,
            ErrorPage::InternalServerError => 500,
        }
    }

    pub open spec fn spec_body(&self) -> Seq<char> {
        match self {
            ErrorPage::BadRequest => ERR_BAD_REQUEST@,
            ErrorPage::NotFound => ERR_NOT_FOUND@,
            ErrorPage::InternalServerError => ERR_INTERNAL_SERVER_ERROR@,
        }
    }

    /// The HTTP status code of the page.
    pub fn status(&self) -> (r: u16)
        ensures
            r == self.spec_status(),
    {
        match self {
            ErrorPage::BadRequest => 400,
            ErrorPage::NotFound => 404,
            ErrorPage::InternalServerError => 500,
        }
    }

    /// The page's fixed HTML body.
    pub fn body(&self) -> (r: &'static str)
        ensures
            r@ == self.spec_body(),
    {
        match self {
            ErrorPage::BadRequest => ERR_BAD_REQUEST,
            ErrorPage::NotFound => ERR_NOT_FOUND,
            ErrorPage::InternalServerError => ERR_INTERNAL_SERVER_ERROR,
        }
    }
}

/// The first decision on a request.
pub enum Begin {
    /// The target names no path: answer with this page.
    Reject(ErrorPage),
    /// The resolved path is absolute. Such a path must never reach the
    /// filesystem lookup, so handling stops.
    Abort,
    /// Look up `effective` on the filesystem; `resolved` is the relative path
    /// that the target named.
    Lookup { resolved: String, effective: String },
}

/// How a request whose path was looked up is answered.
#[derive(Clone, Copy, Debug, PartialEq, Eq, Structural)]
pub enum Route {
    /// Render the listing of the resolved path's directory.
    Listing,
    /// Answer with 404.
    NotFound,
    /// Open the looked-up file and stream its bytes; where it cannot be opened,
    /// answer with 500.
    OpenFile,
}

/// The route for a resolved path and what the lookup of its effective path
/// found. The site root is always listed, before anything else is considered.
pub open spec fn route_of(resolved: Seq<char>, exists: bool, is_dir: bool) -> Route {
    if is_dir || resolved.len() == 0 {
        Route::Listing
    } else if !exists {
        Route::NotFound
    } else {
        Route::OpenFile
    }
}

/// Resolves a request's target and computes the path to look up.
pub fn begin_request(target: &RequestTarget) -> (r: Begin)
    requires
        target.wf(),
    ensures
        r is Reject <==> resolved(target) is None,
        r matches Begin::Reject(e) ==> e == ErrorPage::BadRequest,
        r is Abort <==> (resolved(target) matches Some(p) && is_absolute(p)),
        r matches Begin::Lookup { resolved: p, effective: e } ==> resolved(target) == Some(p@)
            && e@ == effective_path(p@),
{
    match request_path(target) {
        None => Begin::Reject(ErrorPage::BadRequest),
        Some(p) => {
            if path_is_absolute(&p) {
                Begin::Abort
            } else {
                let e = request_dirindex(&p);
                Begin::Lookup { resolved: p, effective: e }
            }
        },
    }
}

/// Chooses the answer from the resolved path and whether its effective path
/// exists and is a directory.
pub fn dispatch(resolved: &String, exists: bool, is_dir: bool) -> (r: Route)
    ensures
        r == route_of(resolved@, exists, is_dir),
{
    if is_dir || resolved.as_str().unicode_len() == 0 {
        Route::Listing
    } else if !exists {
        Route::NotFound
    } else {
        Route::OpenFile
    }
}

/// The `Server` header's value for a server of the given version.
pub open spec fn identity(version: Seq<char>) -> Seq<char> {
    SERVER_NAME@ + "/"@ + version
}

/// The value of the `Server` header: name, separator, version.
pub fn server_identity(version: &str) -> (r: String)
    ensures
        r@ == identity(version@),
{
    let mut r = String::from_str(SERVER_NAME);
    r.append("/");
    r.append(version);
    r
}

/// `{ip} [{timestamp}] {version}:{method} {uri}`.
pub open spec fn log_text(
    ip: Seq<char>,
    timestamp: Seq<char>,
    version: Seq<char>,
    method: Seq<char>,
    uri: Seq<char>,
) -> Seq<char> {
    ip + " ["@ + timestamp + "] "@ + version + ":"@ + method + " "@ + uri
}

/// The line logged for a request.
pub fn log_line(ip: &str, timestamp: &str, version: &str, method: &str, uri: &str) -> (r: String)
    ensures
        r@ == log_text(ip@, timestamp@, version@, method@, uri@),
{
    let mut r = String::from_str(ip);
    r.append(" [");
    r.append(timestamp);
    r.append("] ");
    r.append(version);
    r.append(":");
    r.append(method);
    r.append(" ");
    r.append(uri);
    r
}

} // verus!
