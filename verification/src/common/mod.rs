//! The values that queries and answers are made of.

use vstd::prelude::*;

pub mod project;
pub mod release;

verus! {

/// How the forge is asked to cut a listing into pages.
#[derive(Debug, Clone, Copy, PartialEq, Eq, PartialOrd, Ord, Hash)]
pub struct Pagination {
    /// The number of items wanted on one page.
    pub per_page: Option<u32>,
}

/// One page of a listing, with the cursors that lead to other pages.
///
/// The items stand in the order in which the forge sent them. A cursor is the
/// address of a page as the forge gave it; it is handed back as it is.
#[derive(Debug, Clone, PartialEq, Eq, PartialOrd, Ord, Hash)]
pub struct Page<T> {
    pub items: Vec<T>,
    pub first: Option<String>,
    pub next: Option<String>,
    pub last: Option<String>,
}

/// The text of a cursor, where there is one.
pub open spec fn cursor_text(cursor: Option<String>) -> Option<Seq<char>> {
    match cursor {
        Some(text) => Some(text@),
        None => None,
    }
}

} // verus!
