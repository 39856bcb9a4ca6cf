use watchlist_bot::action::{Direction, Kind, MyCallback};
use watchlist_bot::pagination::{buttons, page_count};
use watchlist_bot::keyboards::{
    credits_rows, details_rows, nav_row, page_rows, result_rows, to_watch_screen, watched_rows, watchlist_rows,
};
use watchlist_bot::watchlist::{contains_id, unwatched_suggestions};

fn page_of(b: &Option<MyCallback>) -> Option<(Direction, u8, String)> {
    match b {
        Some(MyCallback::SearchPage { direction, page, query, .. }) => Some((*direction, *page, query.clone())),
        Some(other) => panic!("not a page request: {other:?}"),
        None => None,
    }
}

#[test]
fn single_page_has_no_buttons() {
    let r = buttons(Kind::Film, "q", 1, 1);
    assert!(r.prev.is_none());
    assert!(r.next.is_none());
}

#[test]
fn first_of_five_has_next_only() {
    let r = buttons(Kind::Film, "q", 1, 5);
    assert!(r.prev.is_none());
    assert_eq!(page_of(&r.next), Some((Direction::Next, 2, "q".to_string())));
}

#[test]
fn last_of_five_has_prev_only() {
    let r = buttons(Kind::Film, "q", 5, 5);
    assert_eq!(page_of(&r.prev), Some((Direction::Prev, 4, "q".to_string())));
    assert!(r.next.is_none());
}

#[test]
fn middle_page_has_both() {
    let r = buttons(Kind::Series, "q", 3, 5);
    assert_eq!(page_of(&r.prev), Some((Direction::Prev, 2, "q".to_string())));
    assert_eq!(page_of(&r.next), Some((Direction::Next, 4, "q".to_string())));
    assert_eq!(r.prev.unwrap().encode(), "sp:2:q");
    assert_eq!(r.next.unwrap().encode(), "sn:4:q");
}

#[test]
fn no_pages_has_no_buttons() {
    let r = buttons(Kind::Film, "q", 1, 0);
    assert!(r.prev.is_none() && r.next.is_none());
}

#[test]
fn last_page_number_offers_no_next() {
    let r = buttons(Kind::Film, "q", 255, 255);
    assert!(r.next.is_none());
    assert_eq!(page_of(&r.prev), Some((Direction::Prev, 254, "q".to_string())));
}

#[test]
fn page_count_saturates() {
    assert_eq!(page_count(-4), 0);
    assert_eq!(page_count(0), 0);
    assert_eq!(page_count(7), 7);
    assert_eq!(page_count(255), 255);
    assert_eq!(page_count(1000), 255);
}

#[test]
fn nav_row_drops_buttons_that_do_not_fit() {
    let row = nav_row(Kind::Film, "q", 3, 5);
    assert_eq!(row.iter().map(|b| b.encode()).collect::<Vec<_>>(), vec!["fp:2:q", "fn:4:q"]);
    let long = "x".repeat(59);
    let row = nav_row(Kind::Film, &long, 3, 5);
    assert_eq!(row.len(), 2);
    let too_long = "x".repeat(60);
    assert!(nav_row(Kind::Film, &too_long, 3, 5).is_empty());
    assert!(nav_row(Kind::Film, "q", 1, 1).is_empty());
}

#[test]
fn result_and_list_rows() {
    let enc = |rows: Vec<Vec<MyCallback>>| -> Vec<Vec<String>> {
        rows.into_iter().map(|r| r.into_iter().map(|b| b.encode()).collect()).collect()
    };
    assert_eq!(enc(result_rows(Kind::Film, 5, Vec::new())), vec![vec!["fi:5", "fa:5"]]);
    let nav = vec![MyCallback::SearchPage { kind: Kind::Film, direction: Direction::Next, query: "q".to_string(), page: 2 }];
    assert_eq!(enc(result_rows(Kind::Film, 5, nav)), vec![vec!["fi:5", "fa:5"], vec!["fn:2:q"]]);
    assert_eq!(enc(watchlist_rows(Kind::Series, 9)), vec![vec!["sw:9", "sd:9"], vec!["si:9", "sc:9"], vec!["cancel"]]);
    assert_eq!(enc(watched_rows(Kind::Film, 1, true)), vec![vec!["fr:1", "fu:1"], vec!["fd:1"]]);
    assert_eq!(enc(watched_rows(Kind::Film, 1, false)), vec![vec!["fr:1", "fd:1"]]);
    assert_eq!(enc(details_rows(Kind::Film, 2)), vec![vec!["fa:2", "fc:2"], vec!["cancel"]]);
    assert_eq!(enc(credits_rows(Kind::Series, 2)), vec![vec!["sa:2", "si:2"], vec!["cancel"]]);
}

#[test]
fn suggestions_skip_watched() {
    assert_eq!(unwatched_suggestions(&vec![5, 1, 7, 1, 9], &vec![1, 9]), vec![5, 7]);
    assert_eq!(unwatched_suggestions(&vec![], &vec![1]), Vec::<i64>::new());
    assert!(contains_id(&vec![3, 4], 4));
    assert!(!contains_id(&vec![], 4));
}


fn enc_rows(rows: Vec<Vec<MyCallback>>) -> Vec<Vec<String>> {
    rows.into_iter().map(|r| r.into_iter().map(|b| b.encode()).collect()).collect()
}

#[test]
fn only_the_last_result_carries_navigation() {
    let pages = page_rows(Kind::Film, &vec![1, 2, 3], "q", 2, 3);
    let pages: Vec<_> = pages.into_iter().map(enc_rows).collect();
    assert_eq!(pages[0], vec![vec!["fi:1", "fa:1"]]);
    assert_eq!(pages[1], vec![vec!["fi:2", "fa:2"]]);
    assert_eq!(pages[2], vec![vec!["fi:3", "fa:3"], vec!["fp:1:q", "fn:3:q"]]);
    assert!(page_rows(Kind::Film, &vec![], "q", 1, 5).is_empty());
    let single = page_rows(Kind::Series, &vec![7], "q", 1, 1);
    assert_eq!(enc_rows(single.into_iter().next().unwrap()), vec![vec!["si:7", "sa:7"]]);
}

#[test]
fn to_watch_screen_lists_or_suggests() {
    let (items, suggested) = to_watch_screen(Kind::Film, &vec![4, 5], &vec![1], &vec![]);
    assert!(!suggested);
    assert_eq!(items.iter().map(|i| i.id).collect::<Vec<_>>(), vec![4, 5]);
    assert_eq!(enc_rows(items.into_iter().next().unwrap().rows), vec![vec!["fw:4", "fd:4"], vec!["fi:4", "fc:4"], vec!["cancel"]]);
    let (items, suggested) = to_watch_screen(Kind::Series, &vec![], &vec![1, 2, 3], &vec![2]);
    assert!(suggested);
    assert_eq!(items.iter().map(|i| i.id).collect::<Vec<_>>(), vec![1, 3]);
    assert_eq!(enc_rows(items.into_iter().next().unwrap().rows), vec![vec!["si:1", "sa:1"]]);
}
