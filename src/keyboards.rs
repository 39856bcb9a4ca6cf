//! The rows of buttons attached to each kind of message.

use vstd::prelude::*;

use crate::action::{
    encoding, item_callback, payload_fits, utf8_len, CallbackView, Direction, ItemVerb, Kind,
    MyCallback,
    MAX_PAYLOAD_BYTES,
};
use crate::pagination::buttons;
use crate::watchlist::{not_watched, unwatched_suggestions};

verus! {

/// What the presses of a row of buttons are.
pub open spec fn row_view(row: Vec<MyCallback>) -> Seq<CallbackView> {
    row@.map_values(|c: MyCallback| c@)
}

pub open spec fn rows_view(rows: Vec<Vec<MyCallback>>) -> Seq<Seq<CallbackView>> {
    rows@.map_values(|r: Vec<MyCallback>| row_view(r))
}

pub open spec fn item(verb: ItemVerb, kind: Kind, id: i64) -> CallbackView {
    CallbackView::Item { verb, kind, id }
}

/// A press whose payload a button can carry.
pub open spec fn fits(a: CallbackView) -> bool {
    utf8_len(encoding(a)) <= MAX_PAYLOAD_BYTES
}

/// The rows under a search result or a suggestion: details and adding to the
/// list, then the row `nav` when it has any button.
pub open spec fn result_view(kind: Kind, id: i64, nav: Seq<CallbackView>) -> Seq<Seq<CallbackView>> {
    if nav.len() == 0 {
        seq![seq![item(ItemVerb::Details, kind, id), item(ItemVerb::Add, kind, id)]]
    } else {
        seq![seq![item(ItemVerb::Details, kind, id), item(ItemVerb::Add, kind, id)], nav]
    }
}

pub open spec fn page_press(kind: Kind, direction: Direction, query: Seq<char>, page: int) -> CallbackView {
    CallbackView::Search { kind, direction, query, page: page as u8 }
}

/// The navigation row under page `page` of `total`: the previous page, then
/// the next one, each where it exists and its payload fits on a button.
pub open spec fn nav_view(kind: Kind, query: Seq<char>, page: u8, total: u8) -> Seq<CallbackView> {
    (if page > 1 && fits(page_press(kind, Direction::Prev, query, page - 1)) {
        seq![page_press(kind, Direction::Prev, query, page - 1)]
    } else {
        Seq::<CallbackView>::empty()
    }) + (if page < total && fits(page_press(kind, Direction::Next, query, page + 1)) {
        seq![page_press(kind, Direction::Next, query, page + 1)]
    } else {
        Seq::<CallbackView>::empty()
    })
}

/// The rows under an item of the list still to watch.
pub open spec fn watchlist_view(kind: Kind, id: i64) -> Seq<Seq<CallbackView>> {
    seq![
        seq![item(ItemVerb::Watched, kind, id), item(ItemVerb::Delete, kind, id)],
        seq![item(ItemVerb::Details, kind, id), item(ItemVerb::Credits, kind, id)],
        seq![CallbackView::Cancel],
    ]
}

fn row2(a: MyCallback, b: MyCallback) -> (r: Vec<MyCallback>)
    ensures
        row_view(r) == seq![a@, b@],
{
    let mut r: Vec<MyCallback> = Vec::new();
    r.push(a);
    r.push(b);
    assert(row_view(r) =~= seq![a@, b@]);
    r
}

fn row1(a: MyCallback) -> (r: Vec<MyCallback>)
    ensures
        row_view(r) == seq![a@],
{
    let mut r: Vec<MyCallback> = Vec::new();
    r.push(a);
    assert(row_view(r) =~= seq![a@]);
    r
}

/// The buttons under a search result or a suggestion: details and adding to
/// the list; under the last result of a page, also the row `nav` when it has
/// any button.
pub fn result_rows(kind: Kind, id: i64, nav: Vec<MyCallback>) -> (r: Vec<Vec<MyCallback>>)
    ensures
        rows_view(r) == result_view(kind, id, row_view(nav)),
{
    let mut r: Vec<Vec<MyCallback>> = Vec::new();
    r.push(row2(item_callback(ItemVerb::Details, kind, id), item_callback(ItemVerb::Add, kind, id)));
    let ghost first = r@[0];
    if nav.len() > 0 {
        r.push(nav);
    }
    assert(rows_view(r) =~= if nav@.len() > 0 {
        seq![row_view(first), row_view(nav)]
    } else {
        seq![row_view(first)]
    });
    r
}

/// The navigation row under the last result of page `page` of `total`: the
/// previous page, then the next one, each where it exists and its payload
/// fits on a button.
pub fn nav_row(kind: Kind, query: &str, page: u8, total: u8) -> (r: Vec<MyCallback>)
    ensures
        row_view(r) == nav_view(kind, query@, page, total),
{
    let nav = buttons(kind, query, page, total);
    let mut r: Vec<MyCallback> = Vec::new();
    match nav.prev {
        Some(p) => {
            if payload_fits(p.encode().as_str()) {
                r.push(p);
            }
        },
        None => {},
    }
    match nav.next {
        Some(n) => {
            if payload_fits(n.encode().as_str()) {
                r.push(n);
            }
        },
        None => {},
    }
    assert(row_view(r) =~= nav_view(kind, query@, page, total));
    r
}

/// The buttons under an item of the list still to watch.
pub fn watchlist_rows(kind: Kind, id: i64) -> (r: Vec<Vec<MyCallback>>)
    ensures
        rows_view(r) == watchlist_view(kind, id),
{
    let mut r: Vec<Vec<MyCallback>> = Vec::new();
    r.push(row2(item_callback(ItemVerb::Watched, kind, id), item_callback(ItemVerb::Delete, kind, id)));
    r.push(row2(item_callback(ItemVerb::Details, kind, id), item_callback(ItemVerb::Credits, kind, id)));
    r.push(row1(MyCallback::Cancel));
    assert(rows_view(r) =~= seq![row_view(r@[0]), row_view(r@[1]), row_view(r@[2])]);
    r
}

/// The buttons under an item already watched: to rate it again and to mark
/// it unwatched when it has a rating, with deleting in a row of its own; to
/// rate or delete it when it has none.
pub fn watched_rows(kind: Kind, id: i64, rated: bool) -> (r: Vec<Vec<MyCallback>>)
    ensures
        rated ==> rows_view(r) == seq![
            seq![item(ItemVerb::Rate, kind, id), item(ItemVerb::Unwatched, kind, id)],
            seq![item(ItemVerb::Delete, kind, id)],
        ],
        !rated ==> rows_view(r) == seq![
            seq![item(ItemVerb::Rate, kind, id), item(ItemVerb::Delete, kind, id)],
        ],
{
    let mut r: Vec<Vec<MyCallback>> = Vec::new();
    if rated {
        r.push(row2(item_callback(ItemVerb::Rate, kind, id), item_callback(ItemVerb::Unwatched, kind, id)));
        r.push(row1(item_callback(ItemVerb::Delete, kind, id)));
        assert(rows_view(r) =~= seq![row_view(r@[0]), row_view(r@[1])]);
    } else {
        r.push(row2(item_callback(ItemVerb::Rate, kind, id), item_callback(ItemVerb::Delete, kind, id)));
        assert(rows_view(r) =~= seq![row_view(r@[0])]);
    }
    r
}

/// The buttons under the details of an item: adding it, its credits, and
/// back to the menu.
pub fn details_rows(kind: Kind, id: i64) -> (r: Vec<Vec<MyCallback>>)
    ensures
        rows_view(r) == seq![
            seq![item(ItemVerb::Add, kind, id), item(ItemVerb::Credits, kind, id)],
            seq![CallbackView::Cancel],
        ],
{
    let mut r: Vec<Vec<MyCallback>> = Vec::new();
    r.push(row2(item_callback(ItemVerb::Add, kind, id), item_callback(ItemVerb::Credits, kind, id)));
    r.push(row1(MyCallback::Cancel));
    assert(rows_view(r) =~= seq![row_view(r@[0]), row_view(r@[1])]);
    r
}

/// The buttons under the credits of an item: adding it, its details, and
/// back to the menu.
pub fn credits_rows(kind: Kind, id: i64) -> (r: Vec<Vec<MyCallback>>)
    ensures
        rows_view(r) == seq![
            seq![item(ItemVerb::Add, kind, id), item(ItemVerb::Details, kind, id)],
            seq![CallbackView::Cancel],
        ],
{
    let mut r: Vec<Vec<MyCallback>> = Vec::new();
    r.push(row2(item_callback(ItemVerb::Add, kind, id), item_callback(ItemVerb::Details, kind, id)));
    r.push(row1(MyCallback::Cancel));
    assert(rows_view(r) =~= seq![row_view(r@[0]), row_view(r@[1])]);
    r
}

/// The buttons under each result of page `page` of `total` of a search:
/// every result gets its own row, and the last one also the navigation row.
pub fn page_rows(kind: Kind, ids: &Vec<i64>, query: &str, page: u8, total: u8) -> (r: Vec<
    Vec<Vec<MyCallback>>,
>)
    ensures
        r@.len() == ids@.len(),
        forall|i: int|
            0 <= i < ids@.len() ==> #[trigger] rows_view(r@[i]) == result_view(
                kind,
                ids@[i],
                if i == ids@.len() - 1 {
                    nav_view(kind, query@, page, total)
                } else {
                    Seq::empty()
                },
            ),
{
    let mut r: Vec<Vec<Vec<MyCallback>>> = Vec::new();
    let mut i: usize = 0;
    while i < ids.len()
        invariant
            i <= ids@.len(),
            r@.len() == i,
            forall|k: int|
                0 <= k < i ==> #[trigger] rows_view(r@[k]) == result_view(
                    kind,
                    ids@[k],
                    if k == ids@.len() - 1 {
                        nav_view(kind, query@, page, total)
                    } else {
                        Seq::empty()
                    },
                ),
        decreases ids@.len() - i,
    {
        let nav = if i + 1 == ids.len() {
            nav_row(kind, query, page, total)
        } else {
            let none: Vec<MyCallback> = Vec::new();
            assert(row_view(none) =~= Seq::<CallbackView>::empty());
            none
        };
        r.push(result_rows(kind, ids[i], nav));
        i += 1;
    }
    r
}

/// One item to show, with the buttons under it.
pub struct ItemRows {
    pub id: i64,
    pub rows: Vec<Vec<MyCallback>>,
}

/// What the "to watch" screen shows: the user's list, each item with its
/// list buttons; or, when the list is empty, the `popular` items that are not
/// among `watched`, as suggestions that can be added. The flag tells which.
pub fn to_watch_screen(kind: Kind, listed: &Vec<i64>, popular: &Vec<i64>, watched: &Vec<i64>) -> (r: (
    Vec<ItemRows>,
    bool,
))
    ensures
        r.1 == (listed@.len() == 0),
        listed@.len() > 0 ==> r.0@.len() == listed@.len() && forall|i: int|
            0 <= i < listed@.len() ==> (#[trigger] r.0@[i]).id == listed@[i] && rows_view(r.0@[i].rows)
                == watchlist_view(kind, listed@[i]),
        listed@.len() == 0 ==> r.0@.len() == not_watched(popular@, watched@).len() && forall|i: int|
            0 <= i < r.0@.len() ==> (#[trigger] r.0@[i]).id == not_watched(popular@, watched@)[i]
                && rows_view(r.0@[i].rows) == result_view(
                kind,
                not_watched(popular@, watched@)[i],
                Seq::empty(),
            ),
{
    let suggest = listed.len() == 0;
    let ids = if suggest {
        unwatched_suggestions(popular, watched)
    } else {
        let mut copy: Vec<i64> = Vec::new();
        let mut k: usize = 0;
        while k < listed.len()
            invariant
                k <= listed@.len(),
                copy@ == listed@.subrange(0, k as int),
            decreases listed@.len() - k,
        {
            copy.push(listed[k]);
            k += 1;
            assert(copy@ =~= listed@.subrange(0, k as int));
        }
        assert(copy@ =~= listed@);
        copy
    };
    let mut out: Vec<ItemRows> = Vec::new();
    let mut i: usize = 0;
    while i < ids.len()
        invariant
            i <= ids@.len(),
            suggest == (listed@.len() == 0),
            suggest ==> ids@ == not_watched(popular@, watched@),
            !suggest ==> ids@ == listed@,
            out@.len() == i,
            forall|k: int|
                0 <= k < i ==> (#[trigger] out@[k]).id == ids@[k] && rows_view(out@[k].rows) == (
                if suggest {
                    result_view(kind, ids@[k], Seq::empty())
                } else {
                    watchlist_view(kind, ids@[k])
                }),
        decreases ids@.len() - i,
    {
        let id = ids[i];
        let rows = if suggest {
            let none: Vec<MyCallback> = Vec::new();
            assert(row_view(none) =~= Seq::<CallbackView>::empty());
            result_rows(kind, id, none)
        } else {
            watchlist_rows(kind, id)
        };
        out.push(ItemRows { id, rows });
        i += 1;
    }
    (out, suggest)
}

} // verus!
