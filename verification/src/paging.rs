//! Following a listing from page to page.
//!
//! A page names the page that follows it by a cursor. The pager takes pages
//! as they come, keeps their items in the order in which they came, and
//! hands out the query for the next page as long as there is one.

use crate::client::http::page_target;
use crate::common::Page;
use crate::context::{Context, EmptyContext};
use crate::query::get_project_release_list_page::GetProjectReleaseListPageQuery;
use vstd::prelude::*;

verus! {

/// Collects the items of a listing while its pages are followed.
pub struct Pager<T> {
    items: Vec<T>,
}

/// Whether `query` is the query for the page at `cursor` and nothing more:
/// that cursor as it is, no settings, no credential.
pub open spec fn asks_for(
    query: GetProjectReleaseListPageQuery<EmptyContext, String>,
    cursor: String,
) -> bool {
    &&& query.cursor == cursor
    &&& query.auth is None
    &&& query.context == Context::<(), ()>::empty()
}

/// Whether `query` is what follows `page`: the query for the page at its
/// `next` cursor, or nothing where it has none.
pub open spec fn follows<T>(
    page: Page<T>,
    query: Option<GetProjectReleaseListPageQuery<EmptyContext, String>>,
) -> bool {
    match (page.next, query) {
        (Some(cursor), Some(query)) => asks_for(query, cursor),
        (None, None) => true,
        _ => false,
    }
}

impl<T> Pager<T> {
    /// The items taken so far, in the order in which they came.
    pub closed spec fn items(self) -> Seq<T> {
        self.items@
    }

    /// A pager that has taken nothing.
    pub fn new() -> (r: Self)
        ensures
            r.items() == Seq::<T>::empty(),
    {
        Self { items: Vec::new() }
    }

    /// Takes a page: its items go behind those taken before, and the query
    /// for the page that follows it comes back, where one follows.
    pub fn turn(&mut self, page: Page<T>) -> (r: Option<
        GetProjectReleaseListPageQuery<EmptyContext, String>,
    >)
        ensures
            final(self).items() == old(self).items() + page.items@,
            follows(page, r),
    {
        let mut items: Vec<T> = page.items;
        self.items.append(&mut items);
        match page.next {
            Some(cursor) => Some(GetProjectReleaseListPageQuery::new(cursor)),
            None => None,
        }
    }

    /// The number of items taken so far.
    pub fn len(&self) -> (r: usize)
        ensures
            r == self.items().len(),
    {
        self.items.len()
    }

    /// The items taken, in the order in which they came.
    pub fn into_items(self) -> (r: Vec<T>)
        ensures
            r@ == self.items(),
    {
        self.items
    }
}

/// The query that follows a page asks for its `next` cursor and for nothing
/// else: whatever settings and credential are added to it before it is sent,
/// the request goes to that cursor, character for character.
pub proof fn lemma_next_page_is_asked_verbatim<T, Cx>(
    page: Page<T>,
    query: GetProjectReleaseListPageQuery<EmptyContext, String>,
    sent: GetProjectReleaseListPageQuery<Cx, String>,
)
    requires
        follows(page, Some(query)),
        sent.cursor == query.cursor,
    ensures
        page.next matches Some(cursor) && page_target(sent) == cursor@,
{
}

/// The number of pages that are fetched when the fetches are answered with
/// the pages of `script`, one after the other: fetching goes on while the
/// page just fetched names a next page and the script holds another.
pub open spec fn followed<T>(script: Seq<Page<T>>) -> nat
    decreases script.len(),
{
    if script.len() == 0 {
        0
    } else if script[0].next is None {
        1
    } else {
        1 + followed(script.drop_first())
    }
}

/// The items of the pages that are fetched when the fetches are answered
/// with the pages of `script`, in the order in which they come.
pub open spec fn gathered<T>(script: Seq<Page<T>>) -> Seq<T>
    decreases script.len(),
{
    if script.len() == 0 {
        Seq::empty()
    } else if script[0].next is None {
        script[0].items@
    } else {
        script[0].items@ + gathered(script.drop_first())
    }
}

/// The items of all pages of `script`, page after page.
pub open spec fn all_items<T>(script: Seq<Page<T>>) -> Seq<T>
    decreases script.len(),
{
    if script.len() == 0 {
        Seq::empty()
    } else {
        script[0].items@ + all_items(script.drop_first())
    }
}

/// Whether `script` is a listing cut into pages: it has a page, every page
/// but the last names a next page, and the last names none.
pub open spec fn consistent<T>(script: Seq<Page<T>>) -> bool {
    &&& script.len() > 0
    &&& forall|i: int|
        0 <= i < script.len() ==> ((#[trigger] script[i]).next is None <==> i == script.len() - 1)
}

/// Follows a scripted listing: the first fetch is answered with the first
/// page of `script`, every further fetch with the page after. Returns the
/// items in the order in which they came, and the number of pages fetched.
pub fn replay<T>(script: Vec<Page<T>>) -> (r: (Vec<T>, usize))
    ensures
        r.0@ == gathered(script@),
        r.1 == followed(script@),
{
    let ghost whole = script@;
    let mut rest: Vec<Page<T>> = script;
    let total: usize = rest.len();
    let mut pager: Pager<T> = Pager::new();
    let mut fetched: usize = 0;
    let mut going: bool = true;
    while going && rest.len() > 0
        invariant
            fetched + rest.len() <= total,
            followed(whole) == fetched + (if going {
                followed(rest@)
            } else {
                0
            }),
            gathered(whole) == pager.items() + (if going {
                gathered(rest@)
            } else {
                Seq::empty()
            }),
        decreases rest.len(),
    {
        let ghost before = rest@;
        let ghost taken = pager.items();
        let page: Page<T> = rest.remove(0);
        assert(rest@ =~= before.drop_first());
        let next = pager.turn(page);
        fetched = fetched + 1;
        going = next.is_some();
        assert(gathered(whole) =~= pager.items() + (if going {
            gathered(rest@)
        } else {
            Seq::empty()
        }));
    }
    assert(gathered(whole) =~= pager.items());
    (pager.into_items(), fetched)
}

/// Following a listing ends: for a consistent script every page is fetched
/// once and no more, and the items come out page after page, in the order
/// in which the pages hold them.
pub proof fn lemma_paging_ends<T>(script: Seq<Page<T>>)
    requires
        consistent(script),
    ensures
        followed(script) == script.len(),
        gathered(script) == all_items(script),
    decreases script.len(),
{
    if script.len() > 1 {
        let rest = script.drop_first();
        assert(script[0].next is Some);
        assert forall|i: int| 0 <= i < rest.len() implies ((#[trigger] rest[i]).next is None <==> i
            == rest.len() - 1) by {
            assert(rest[i] == script[i + 1]);
        }
        lemma_paging_ends(rest);
    } else {
        assert(script[0].next is None);
        let rest = script.drop_first();
        assert(rest.len() == 0);
        assert(all_items(script) =~= script[0].items@ + all_items(rest));
        assert(all_items(script) =~= script[0].items@);
    }
}

} // verus!
