use watchlist_bot::action::{DecodeError, Direction, Kind, MyCallback};
use watchlist_bot::action::payload_fits;

fn all_presses() -> Vec<MyCallback> {
    let mut v = vec![MyCallback::Cancel];
    for kind in [Kind::Film, Kind::Series] {
        for id in [0i64, 42, -7, i64::MAX, i64::MIN] {
            v.push(MyCallback::ShowDetails { kind, id });
            v.push(MyCallback::ShowCredits { kind, id });
            v.push(MyCallback::AddToWatchlist { kind, id });
            v.push(MyCallback::MarkWatched { kind, id });
            v.push(MyCallback::MarkUnwatched { kind, id });
            v.push(MyCallback::RequestRating { kind, id });
            v.push(MyCallback::DeleteFromWatchlist { kind, id });
        }
        for direction in [Direction::Next, Direction::Prev] {
            for (query, page) in [("", 0u8), ("dune", 1), ("a:b", 1), ("::", 255), ("Дюна 2", 17)] {
                v.push(MyCallback::SearchPage { kind, direction, query: query.to_string(), page });
            }
        }
    }
    v
}

#[test]
fn round_trip_every_variant() {
    for a in all_presses() {
        let payload = a.encode();
        assert_eq!(MyCallback::decode(&payload), Ok(a.clone()), "payload {payload}");
    }
}

#[test]
fn encoding_is_injective_on_samples() {
    let all = all_presses();
    for (i, a) in all.iter().enumerate() {
        for b in all.iter().skip(i + 1) {
            if a != b {
                assert_ne!(a.encode(), b.encode());
            }
        }
    }
}

#[test]
fn exact_payloads() {
    assert_eq!(MyCallback::Cancel.encode(), "cancel");
    assert_eq!(MyCallback::ShowDetails { kind: Kind::Film, id: 42 }.encode(), "fi:42");
    assert_eq!(MyCallback::DeleteFromWatchlist { kind: Kind::Series, id: -3 }.encode(), "sd:-3");
    assert_eq!(MyCallback::MarkWatched { kind: Kind::Film, id: i64::MIN }.encode(), "fw:-9223372036854775808");
    let page = MyCallback::SearchPage {
        kind: Kind::Series,
        direction: Direction::Prev,
        query: "a:b".to_string(),
        page: 12,
    };
    assert_eq!(page.encode(), "sp:12:a:b");
}

#[test]
fn query_with_separator_survives() {
    let a = MyCallback::SearchPage {
        kind: Kind::Film,
        direction: Direction::Next,
        query: "a:b".to_string(),
        page: 1,
    };
    match MyCallback::decode(&a.encode()) {
        Ok(MyCallback::SearchPage { query, page, .. }) => {
            assert_eq!(query, "a:b");
            assert_eq!(page, 1);
        }
        other => panic!("unexpected {other:?}"),
    }
}

#[test]
fn malformed_payloads_are_refused() {
    let unknown = [
        "", "cancel:", "Cancel", "xx:1", "fz:1", "fi", "fi1", "f:1", ":fi:1", "fn:5", "fn",
        "search_films:a:1", "fi;1", "fi:1:2", "sd:-3:x", "fa::",
    ];
    for s in unknown {
        assert_eq!(MyCallback::decode(s), Err(DecodeError::UnknownAction), "payload {s:?}");
    }
    let malformed = [
        "fi:", "fi:abc", "fi:1x", "fi:007", "fi:-0", "fi:+5", "fi:9223372036854775808",
        "fi:-9223372036854775809", "fn::q", "fn:x:q", "fn:256:q", "fn:01:q", "sp:-1:q",
    ];
    for s in malformed {
        assert_eq!(MyCallback::decode(s), Err(DecodeError::MalformedField), "payload {s:?}");
    }
}

#[test]
fn extreme_ids_decode() {
    assert_eq!(
        MyCallback::decode("sr:9223372036854775807"),
        Ok(MyCallback::RequestRating { kind: Kind::Series, id: i64::MAX })
    );
    assert_eq!(
        MyCallback::decode("fa:-9223372036854775808"),
        Ok(MyCallback::AddToWatchlist { kind: Kind::Film, id: i64::MIN })
    );
    assert_eq!(MyCallback::decode("fc:0"), Ok(MyCallback::ShowCredits { kind: Kind::Film, id: 0 }));
    assert_eq!(MyCallback::decode("su:5"), Ok(MyCallback::MarkUnwatched { kind: Kind::Series, id: 5 }));
}

#[test]
fn page_payload_with_empty_query() {
    assert_eq!(
        MyCallback::decode("sn:3:"),
        Ok(MyCallback::SearchPage {
            kind: Kind::Series,
            direction: Direction::Next,
            query: String::new(),
            page: 3
        })
    );
}

#[test]
fn button_captions() {
    assert_eq!(MyCallback::Cancel.caption(), "🔙 Вернуться в меню");
    let next = MyCallback::SearchPage { kind: Kind::Film, direction: Direction::Next, query: String::new(), page: 2 };
    let prev = MyCallback::SearchPage { kind: Kind::Film, direction: Direction::Prev, query: String::new(), page: 1 };
    assert_eq!(next.caption(), "⏭️ Дальше");
    assert_eq!(prev.caption(), "⏮️ Назад");
    assert_eq!(MyCallback::ShowDetails { kind: Kind::Series, id: 1 }.caption(), "🕵️ Подробнее");
    assert_eq!(MyCallback::DeleteFromWatchlist { kind: Kind::Film, id: 1 }.caption(), "🗑️ Удалить из списка");
}

#[test]
fn payload_limit() {
    assert!(payload_fits(&"a".repeat(64)));
    assert!(!payload_fits(&"a".repeat(65)));
    assert!(payload_fits(&"я".repeat(32)));
    assert!(!payload_fits(&format!("{}a", "я".repeat(32))));
    assert!(payload_fits(""));
}
