use watchlist_bot::action::{ItemVerb, Kind, MyCallback};
use watchlist_bot::dispatch::{finish, handle, plan, route, Event, Route, Task};
use watchlist_bot::menu::{Command, TextCommand};
use watchlist_bot::rating::{parse_rating, Rating};
use watchlist_bot::state::{ConversationStore, State};

const BOT: &str = "watch_bot";

fn text(t: &str) -> Event {
    Event::Message { text: Some(t.to_string()) }
}

fn press(d: &str) -> Event {
    Event::Button { data: Some(d.to_string()) }
}

fn all_states() -> Vec<State> {
    vec![
        State::Idle,
        State::AwaitingTitle { kind: Kind::Film },
        State::AwaitingTitle { kind: Kind::Series },
        State::AwaitingRating { kind: Kind::Film, item_id: 42 },
        State::AwaitingRating { kind: Kind::Series, item_id: -1 },
    ]
}

#[test]
fn rating_with_decimal_comma_is_saved() {
    let before = State::AwaitingRating { kind: Kind::Film, item_id: 42 };
    let mut store = ConversationStore::new();
    store.set(7, before);
    let step = handle(&mut store, 7, &text("7,5"), BOT);
    match step.task {
        Task::SaveRating { kind, item_id, ref rating } => {
            assert_eq!(kind, Kind::Film);
            assert_eq!(item_id, 42);
            assert_eq!(rating.text(), "7.5");
            assert_eq!(rating.text().parse::<f64>().unwrap(), 7.5);
        }
        _ => panic!("rating was not saved"),
    }
    assert_eq!(store.get(7), before);
    finish(&mut store, 7, &step, true);
    assert_eq!(store.get(7), State::Idle);
}

#[test]
fn unreadable_rating_is_reported_and_state_kept() {
    let before = State::AwaitingRating { kind: Kind::Film, item_id: 42 };
    let mut store = ConversationStore::new();
    store.set(7, before);
    let step = handle(&mut store, 7, &text("abc"), BOT);
    assert!(matches!(step.task, Task::ReportBadRating));
    assert_eq!(step.done, before);
    finish(&mut store, 7, &step, true);
    assert_eq!(store.get(7), before);
}

#[test]
fn failed_save_keeps_waiting_for_rating() {
    let before = State::AwaitingRating { kind: Kind::Series, item_id: 9 };
    let mut store = ConversationStore::new();
    store.set(1, before);
    let step = handle(&mut store, 1, &text("8"), BOT);
    assert!(matches!(step.task, Task::SaveRating { .. }));
    finish(&mut store, 1, &step, false);
    assert_eq!(store.get(1), before);
}

#[test]
fn cancel_command_idles_every_state() {
    for s in all_states() {
        let mut store = ConversationStore::new();
        store.set(3, s);
        let step = handle(&mut store, 3, &text("/cancel"), BOT);
        assert!(matches!(step.task, Task::ConfirmCancel));
        assert_eq!(store.get(3), State::Idle);
        assert_eq!(step.done, State::Idle);
        finish(&mut store, 3, &step, false);
        assert_eq!(store.get(3), State::Idle);
    }
}

#[test]
fn start_command_idles_and_shows_menu() {
    for s in all_states() {
        let mut store = ConversationStore::new();
        store.set(3, s);
        let step = handle(&mut store, 3, &text("/start"), BOT);
        assert!(matches!(step.task, Task::ShowMenu));
        assert_eq!(store.get(3), State::Idle);
    }
}

#[test]
fn help_keeps_state() {
    let s = State::AwaitingTitle { kind: Kind::Series };
    let mut store = ConversationStore::new();
    store.set(3, s);
    let step = handle(&mut store, 3, &text("/help"), BOT);
    assert!(matches!(step.task, Task::ShowHelp));
    finish(&mut store, 3, &step, true);
    assert_eq!(store.get(3), s);
}

#[test]
fn conversations_are_isolated() {
    let mut store = ConversationStore::new();
    store.set(1, State::AwaitingTitle { kind: Kind::Film });
    store.set(2, State::AwaitingRating { kind: Kind::Series, item_id: 5 });
    let s1 = handle(&mut store, 1, &text("/cancel"), BOT);
    let s2 = handle(&mut store, 2, &text("9"), BOT);
    finish(&mut store, 1, &s1, true);
    assert_eq!(store.get(2), State::AwaitingRating { kind: Kind::Series, item_id: 5 });
    finish(&mut store, 2, &s2, true);
    assert_eq!(store.get(1), State::Idle);
    assert_eq!(store.get(2), State::Idle);
    assert_eq!(store.get(99), State::Idle);
}

#[test]
fn clear_returns_to_idle() {
    let mut store = ConversationStore::new();
    store.set(4, State::AwaitingTitle { kind: Kind::Film });
    store.clear(4);
    assert_eq!(store.get(4), State::Idle);
    store.set(4, State::Idle);
    store.set(4, State::AwaitingTitle { kind: Kind::Series });
    assert_eq!(store.get(4), State::AwaitingTitle { kind: Kind::Series });
}

#[test]
fn menu_caption_when_idle_is_a_menu_choice() {
    match route(&text("🔎 Найти фильм"), State::Idle, BOT) {
        Route::Menu(m) => assert_eq!(m, TextCommand::SearchFilm),
        _ => panic!("not routed to the menu"),
    }
}

#[test]
fn menu_caption_while_waiting_is_the_reply() {
    match route(&text("🔎 Найти фильм"), State::AwaitingTitle { kind: Kind::Series }, BOT) {
        Route::TitleReply { kind, text } => {
            assert_eq!(kind, Kind::Series);
            assert_eq!(text, "🔎 Найти фильм");
        }
        _ => panic!("not routed as a reply"),
    }
}

#[test]
fn command_wins_over_waiting_state() {
    let r = route(&text("/help"), State::AwaitingRating { kind: Kind::Film, item_id: 1 }, BOT);
    assert!(matches!(r, Route::Command(Command::Help)));
}

#[test]
fn idle_free_text_is_dropped() {
    assert!(matches!(route(&text("hello"), State::Idle, BOT), Route::Drop));
    assert!(matches!(route(&Event::Message { text: None }, State::Idle, BOT), Route::Drop));
}

#[test]
fn undecodable_press_is_dropped() {
    assert!(matches!(route(&press("zz:1"), State::Idle, BOT), Route::Drop));
    assert!(matches!(route(&Event::Button { data: None }, State::Idle, BOT), Route::Drop));
}

#[test]
fn press_is_routed_with_its_action() {
    match route(&press("sw:11"), State::AwaitingTitle { kind: Kind::Film }, BOT) {
        Route::Button(a) => assert_eq!(a, MyCallback::MarkWatched { kind: Kind::Series, id: 11 }),
        _ => panic!("press not routed"),
    }
}

#[test]
fn marking_watched_asks_for_rating() {
    let step = plan(Route::Button(MyCallback::MarkWatched { kind: Kind::Film, id: 3 }), State::Idle);
    assert!(matches!(step.task, Task::Item { verb: ItemVerb::Watched, kind: Kind::Film, id: 3 }));
    assert_eq!(step.done, State::AwaitingRating { kind: Kind::Film, item_id: 3 });
}

#[test]
fn search_menu_then_title_reply() {
    let mut store = ConversationStore::new();
    let step = handle(&mut store, 5, &text("🔎 Найти сериал"), BOT);
    assert!(matches!(step.task, Task::AskTitle { kind: Kind::Series }));
    finish(&mut store, 5, &step, true);
    assert_eq!(store.get(5), State::AwaitingTitle { kind: Kind::Series });
    let step = handle(&mut store, 5, &text("Дюна"), BOT);
    match &step.task {
        Task::Search { kind, query, page } => {
            assert_eq!(*kind, Kind::Series);
            assert_eq!(query, "Дюна");
            assert_eq!(*page, 1);
        }
        _ => panic!("no search"),
    }
    finish(&mut store, 5, &step, true);
    assert_eq!(store.get(5), State::Idle);
}

#[test]
fn cancel_button_returns_to_menu() {
    let mut store = ConversationStore::new();
    store.set(8, State::AwaitingTitle { kind: Kind::Film });
    let step = handle(&mut store, 8, &press("cancel"), BOT);
    assert!(matches!(step.task, Task::BackToMenu));
    assert_eq!(store.get(8), State::Idle);
}

fn rating_text(t: &str) -> Option<String> {
    parse_rating(t).map(|r| r.text())
}

#[test]
fn ratings_are_read_as_numbers() {
    assert_eq!(rating_text("7,5"), Some("7.5".to_string()));
    assert_eq!(rating_text("  8.25\n"), Some("8.25".to_string()));
    assert_eq!(rating_text("10"), Some("10.".to_string()));
    assert_eq!(rating_text(".5"), Some(".5".to_string()));
    assert_eq!(rating_text("7."), Some("7.".to_string()));
    assert_eq!(rating_text("+8"), Some("8.".to_string()));
    assert_eq!(rating_text("-2"), Some("-2.".to_string()));
    assert_eq!(rating_text("1e1"), Some("1.e1".to_string()));
    assert_eq!(rating_text("8E0"), Some("8.e0".to_string()));
    assert_eq!(rating_text("2,5e-1"), Some("2.5e-1".to_string()));
    assert_eq!(rating_text("3e+2"), Some("3.e2".to_string()));
    assert_eq!(rating_text("99999999999999999999"), Some("99999999999999999999.".to_string()));
    assert_eq!(rating_text("7,5\u{a0}"), Some("7.5".to_string()));
    assert_eq!(rating_text("\u{3000}8\u{2009}"), Some("8.".to_string()));
    for bad in ["abc", "", "   ", ".", "1.2.3", "1,2,3", "7 5", "e5", "1e", "1e+", "++1", "+-1", "1e5.0", "inf", "NaN", "-"] {
        assert_eq!(parse_rating(bad), None, "text {bad:?}");
    }
    for (t, v) in [("+8", 8.0), ("-2", -2.0), ("1e1", 10.0), ("2,5e-1", 0.25), (".5", 0.5), ("7.", 7.0)] {
        assert_eq!(parse_rating(t).unwrap().text().parse::<f64>().unwrap(), v, "text {t:?}");
    }
    let r = parse_rating("-1,5E-3").unwrap();
    assert_eq!(
        r,
        Rating {
            negative: true,
            whole: vec!['1'],
            fraction: vec!['5'],
            exponent_negative: true,
            exponent: vec!['3'],
        }
    );
}

#[test]
fn reply_for_another_state_does_nothing() {
    let r = Route::RatingReply { kind: Kind::Film, item_id: 42, text: "7".to_string() };
    let other = State::AwaitingRating { kind: Kind::Film, item_id: 43 };
    let step = plan(r, other);
    assert!(matches!(step.task, Task::Nothing));
    assert_eq!(step.now, other);
    assert_eq!(step.done, other);
    let t = Route::TitleReply { kind: Kind::Series, text: "x".to_string() };
    let step = plan(t, State::Idle);
    assert!(matches!(step.task, Task::Nothing));
    assert_eq!(step.done, State::Idle);
}
