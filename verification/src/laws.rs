//! General properties of the walk, proved once for every run.
//!
//! `page_applied` states what one successful page does to the
//! accumulator: it appends exactly that page's events. These lemmas
//! follow that step relation across a whole walk of any length: the
//! accumulation is the in-order concatenation of the pages' events, and
//! nothing once appended is ever lost or reordered.

use vstd::prelude::*;

verus! {

/// The accumulator after a walk that starts at `init` and applies the
/// pages' event lists one by one, each appended as `page_applied` states.
pub open spec fn events_after_pages(
    init: Seq<serde_json::Value>,
    pages: Seq<Seq<serde_json::Value>>,
) -> Seq<serde_json::Value>
    decreases pages.len(),
{
    if pages.len() == 0 {
        init
    } else {
        events_after_pages(init + pages[0], pages.drop_first())
    }
}

/// The concatenation of the pages' events, in page order.
pub open spec fn concat_pages(pages: Seq<Seq<serde_json::Value>>) -> Seq<serde_json::Value>
    decreases pages.len(),
{
    if pages.len() == 0 {
        Seq::empty()
    } else {
        pages[0] + concat_pages(pages.drop_first())
    }
}

/// A walk over any pages yields its starting accumulation followed by
/// the concatenation of the pages' events, in order.
pub proof fn lemma_walk_concatenates(
    init: Seq<serde_json::Value>,
    pages: Seq<Seq<serde_json::Value>>,
)
    ensures
        events_after_pages(init, pages) == init + concat_pages(pages),
    decreases pages.len(),
{
    if pages.len() == 0 {
        assert(init + concat_pages(pages) =~= init);
    } else {
        lemma_walk_concatenates(init + pages[0], pages.drop_first());
        assert((init + pages[0]) + concat_pages(pages.drop_first()) =~= init + concat_pages(
            pages,
        ));
    }
}

/// A walk that starts empty — as `begin` starts it — ends with exactly
/// the concatenation of all fetched pages' events, in order.
pub proof fn lemma_walk_from_empty(pages: Seq<Seq<serde_json::Value>>)
    ensures
        events_after_pages(Seq::empty(), pages) == concat_pages(pages),
{
    lemma_walk_concatenates(Seq::empty(), pages);
    assert(Seq::empty() + concat_pages(pages) =~= concat_pages(pages));
}

/// No event is ever lost: whatever was accumulated before any stretch of
/// the walk stands unchanged at its front afterwards.
pub proof fn lemma_no_event_lost(init: Seq<serde_json::Value>, pages: Seq<Seq<serde_json::Value>>)
    ensures
        events_after_pages(init, pages).len() >= init.len(),
        events_after_pages(init, pages).subrange(0, init.len() as int) == init,
{
    lemma_walk_concatenates(init, pages);
    assert((init + concat_pages(pages)).subrange(0, init.len() as int) =~= init);
}

} // verus!
