//! Which neighbouring pages of a search to offer.

use vstd::prelude::*;

use crate::action::{CallbackView, Direction, Kind, MyCallback};

verus! {

/// The navigation buttons offered under one page of search results.
pub struct NavButtons {
    pub prev: Option<MyCallback>,
    pub next: Option<MyCallback>,
}

/// The press that asks for page `page` of the search for `query`.
pub open spec fn page_request(kind: Kind, direction: Direction, query: Seq<char>, page: int) -> CallbackView {
    CallbackView::Search { kind, direction, query, page: page as u8 }
}

/// Which neighbouring pages of a search to offer, for 1-based page numbers:
/// the previous page when there is one before `current_page`, the next one
/// when `current_page` is below `total_pages`.
pub fn buttons(kind: Kind, query: &str, current_page: u8, total_pages: u8) -> (r: NavButtons)
    ensures
        r.prev is Some <==> current_page > 1,
        r.next is Some <==> current_page < total_pages,
        r.prev matches Some(p) ==> p@ == page_request(kind, Direction::Prev, query@, current_page - 1),
        r.next matches Some(n) ==> n@ == page_request(kind, Direction::Next, query@, current_page + 1),
{
    let prev = if current_page > 1 {
        Some(
            MyCallback::SearchPage {
                kind,
                direction: Direction::Prev,
                query: query.to_owned(),
                page: current_page - 1,
            },
        )
    } else {
        None
    };
    let next = if current_page < total_pages {
        Some(
            MyCallback::SearchPage {
                kind,
                direction: Direction::Next,
                query: query.to_owned(),
                page: current_page + 1,
            },
        )
    } else {
        None
    };
    NavButtons { prev, next }
}

/// The number of result pages as a page number can hold it: a negative count
/// is none, and a count past the largest page number stops there.
pub fn page_count(total: i64) -> (r: u8)
    ensures
        total <= 0 ==> r == 0,
        0 <= total <= 255 ==> r as i64 == total,
        total > 255 ==> r == 255,
{
    if total <= 0 {
        0
    } else if total > 255 {
        255
    } else {
        total as u8
    }
}

} // verus!
