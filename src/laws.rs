//! What holds of request handling across all inputs.

use vstd::prelude::*;
use crate::resolve::{
    RequestTarget, DEFAULT_DOCUMENT, resolved, starts_with_separator, final_component_empty,
    effective_path,
};
use crate::listing::{ListingEntry, listing_items, listing_page};
use crate::handler::{ErrorPage, Route, route_of, ERR_NOT_FOUND};

verus! {

/// An absolute-path target `/p` resolves to `p`, with its one leading
/// separator removed; `/` resolves to the empty path.
pub proof fn absolute_path_resolves_to_rest(p: String)
    requires
        starts_with_separator(p@),
    ensures
        resolved(&RequestTarget::AbsolutePath(p)) == Some(p@.drop_first()),
        p@.len() == 1 ==> resolved(&RequestTarget::AbsolutePath(p)) == Some(Seq::<char>::empty()),
{
    if p@.len() == 1 {
        assert(p@.drop_first() =~= Seq::<char>::empty());
    }
}

/// A target that is neither an absolute path nor an absolute URI resolves to
/// no path, and such a request is answered with 400.
pub proof fn other_forms_are_bad_requests(t: RequestTarget)
    requires
        t is Authority || t is Star,
    ensures
        resolved(&t) is None,
        ErrorPage::BadRequest.spec_status() == 400,
{
}

/// Where the final component of a resolved path is empty, the default
/// document is appended to it as the final component of the looked-up path.
pub proof fn empty_final_component_gets_default_document(s: Seq<char>)
    requires
        final_component_empty(s),
    ensures
        effective_path(s) == s + DEFAULT_DOCUMENT@,
        effective_path(s).subrange(0, s.len() as int) == s,
        effective_path(s).subrange(s.len() as int, effective_path(s).len() as int)
            == DEFAULT_DOCUMENT@,
{
    assert((s + DEFAULT_DOCUMENT@).subrange(0, s.len() as int) =~= s);
    assert((s + DEFAULT_DOCUMENT@).subrange(s.len() as int, (s + DEFAULT_DOCUMENT@).len() as int)
        =~= DEFAULT_DOCUMENT@);
}

/// A request for the site root is answered with the listing, whatever the
/// lookup of its default document found.
pub proof fn site_root_is_listed(root: String, exists: bool, is_dir: bool)
    requires
        root@ == seq!['/'],
    ensures
        resolved(&RequestTarget::AbsolutePath(root)) == Some(Seq::<char>::empty()),
        route_of(Seq::<char>::empty(), exists, is_dir) == Route::Listing,
{
    assert(root@.drop_first() =~= Seq::<char>::empty());
}

/// A non-empty path with nothing at its looked-up path is answered with 404
/// and the fixed not-found page.
pub proof fn missing_path_is_not_found(p: Seq<char>)
    requires
        p.len() > 0,
    ensures
        route_of(p, false, false) == Route::NotFound,
        ErrorPage::NotFound.spec_status() == 404,
        ErrorPage::NotFound.spec_body() == ERR_NOT_FOUND@,
{
}

/// Entries that agree in name and kind, one for one.
pub open spec fn same_entries(a: Seq<ListingEntry>, b: Seq<ListingEntry>) -> bool {
    a.len() == b.len() && forall|i: int|
        0 <= i < a.len() ==> #[trigger] a[i].name@ == b[i].name@ && a[i].is_dir == b[i].is_dir
}

proof fn same_entries_same_items(a: Seq<ListingEntry>, b: Seq<ListingEntry>)
    requires
        same_entries(a, b),
    ensures
        listing_items(a) == listing_items(b),
    decreases a.len(),
{
    if a.len() > 0 {
        assert(same_entries(a.drop_last(), b.drop_last()));
        same_entries_same_items(a.drop_last(), b.drop_last());
        assert(a.last().name@ == b.last().name@);
    }
}

/// Two targets of the same form that carry the same text.
pub open spec fn same_target(a: &RequestTarget, b: &RequestTarget) -> bool {
    match (a, b) {
        (RequestTarget::AbsolutePath(x), RequestTarget::AbsolutePath(y)) => x@ == y@,
        (RequestTarget::AbsoluteUri(x), RequestTarget::AbsoluteUri(y)) => x@ == y@,
        (RequestTarget::Authority(x), RequestTarget::Authority(y)) => x@ == y@,
        (RequestTarget::Star, RequestTarget::Star) => true,
        _ => false,
    }
}

/// Asking twice for the same request against an unchanged filesystem gives
/// the same answer: the same resolution, hence the same looked-up path and
/// route, and the same listing page.
pub proof fn repeated_request_answers_alike(
    t1: RequestTarget,
    t2: RequestTarget,
    entries1: Seq<ListingEntry>,
    entries2: Seq<ListingEntry>,
)
    requires
        same_target(&t1, &t2),
        same_entries(entries1, entries2),
    ensures
        resolved(&t1) == resolved(&t2),
        resolved(&t1) matches Some(p) ==> listing_page(p, entries1) == listing_page(p, entries2),
{
    same_entries_same_items(entries1, entries2);
}

} // verus!
