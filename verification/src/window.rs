//! The window of a listing: which documents of an ordered collection a
//! listing with a given offset and limit shows.

use vstd::prelude::*;
use crate::query::BrowseQuery;

verus! {

/// Position of the first document shown, of `total`.
pub open spec fn window_start(total: int, offset: int) -> int {
    if offset < total {
        offset
    } else {
        total
    }
}

/// Position after the last document shown, of `total`.
pub open spec fn window_end(total: int, offset: int, limit: int) -> int {
    if offset + limit < total {
        offset + limit
    } else {
        total
    }
}

/// The documents shown: those at positions `offset` to `offset + limit`,
/// the latter excluded, as far as there are any.
pub open spec fn window<T>(documents: Seq<T>, offset: int, limit: int) -> Seq<T> {
    documents.subrange(
        window_start(documents.len() as int, offset),
        window_end(documents.len() as int, offset, limit),
    )
}

/// The bounds of the window in a collection of `total` documents.
pub fn window_bounds(total: usize, offset: usize, limit: usize) -> (r: (usize, usize))
    ensures
        r.0 == window_start(total as int, offset as int),
        r.1 == window_end(total as int, offset as int, limit as int),
        r.0 <= r.1 <= total,
{
    if offset >= total {
        (total, total)
    } else if limit >= total - offset {
        (offset, total)
    } else {
        (offset, offset + limit)
    }
}

/// The documents that a listing shows.
pub fn select_window(documents: &Vec<String>, offset: usize, limit: usize) -> (shown: Vec<String>)
    ensures
        shown@ == window(documents@, offset as int, limit as int),
{
    let (start, end) = window_bounds(documents.len(), offset, limit);
    let mut shown: Vec<String> = Vec::new();
    let mut i: usize = start;
    while i < end
        invariant
            start <= i <= end <= documents.len(),
            shown@ == documents@.subrange(start as int, i as int),
        decreases end - i,
    {
        shown.push(documents[i].clone());
        i += 1;
        assert(shown@ =~= documents@.subrange(start as int, i as int));
    }
    shown
}

/// The documents that a listing with the given query shows.
pub fn browse(documents: &Vec<String>, query: &BrowseQuery) -> (shown: Vec<String>)
    ensures
        shown@ == window(documents@, query.spec_offset() as int, query.spec_limit() as int),
{
    select_window(documents, query.offset(), query.limit())
}

/// A listing shows at most `limit` documents, in the collection's order,
/// starting at `offset`, and none from outside positions `offset` to
/// `offset + limit`.
pub proof fn window_stays_in_range<T>(documents: Seq<T>, offset: nat, limit: nat)
    ensures
        window(documents, offset as int, limit as int).len() <= limit,
        window(documents, offset as int, limit as int).len() <= documents.len(),
        forall|i: int|
            0 <= i < window(documents, offset as int, limit as int).len() ==> {
                &&& offset + i < offset + limit
                &&& offset + i < documents.len()
                &&& #[trigger] window(documents, offset as int, limit as int)[i] == documents[offset
                    + i]
            },
        offset + limit <= documents.len() ==> window(documents, offset as int, limit as int).len()
            == limit,
        offset >= documents.len() ==> window(documents, offset as int, limit as int).len() == 0,
{
}

} // verus!
