use watchlist_bot::menu::{Command, TextCommand};

const ALL: [TextCommand; 6] = [
    TextCommand::ToWatchFilms,
    TextCommand::ToWatchSeries,
    TextCommand::SearchFilm,
    TextCommand::SearchSeries,
    TextCommand::WatchedFilms,
    TextCommand::WatchedSeries,
];

#[test]
fn every_caption_reads_back() {
    for c in ALL {
        assert_eq!(TextCommand::from_label(c.label()), Some(c));
    }
}

#[test]
fn captions_match_exactly() {
    assert_eq!(TextCommand::from_label("🔎 Найти фильм"), Some(TextCommand::SearchFilm));
    assert_eq!(TextCommand::from_label("🔎 найти фильм"), None);
    assert_eq!(TextCommand::from_label("🔎 Найти фильм "), None);
    assert_eq!(TextCommand::from_label(""), None);
    assert_eq!(TextCommand::from_label("🤔 Что посмотреть?"), Some(TextCommand::ToWatchFilms));
}

#[test]
fn keyboard_layout() {
    let rows = TextCommand::keyboard();
    assert_eq!(
        rows,
        vec![
            vec![TextCommand::ToWatchFilms],
            vec![TextCommand::SearchFilm, TextCommand::SearchSeries],
            vec![TextCommand::WatchedFilms, TextCommand::WatchedSeries],
        ]
    );
}

#[test]
fn commands_are_parsed() {
    assert_eq!(Command::parse("/start", "bot"), Some(Command::Start));
    assert_eq!(Command::parse("/help", "bot"), Some(Command::Help));
    assert_eq!(Command::parse("/cancel", "bot"), Some(Command::Cancel));
    assert_eq!(Command::parse("/cancel now please", "bot"), Some(Command::Cancel));
    assert_eq!(Command::parse("/help@Watch_Bot", "watch_bot"), Some(Command::Help));
    assert_eq!(Command::parse("/help@other_bot", "watch_bot"), None);
    assert_eq!(Command::parse("/Help", "bot"), None);
    assert_eq!(Command::parse("help", "bot"), None);
    assert_eq!(Command::parse("/starts", "bot"), None);
    assert_eq!(Command::parse("", "bot"), None);
    assert_eq!(Command::parse(" /start", "bot"), None);
}
