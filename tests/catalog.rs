use watchlist_bot::catalog::{escape_html, Network};
use watchlist_bot::decimal::{parse_digits, parse_i64, parse_u64, parse_u8, push_i64, push_u64};

#[test]
fn escape_html_replaces_markup() {
    assert_eq!(escape_html("a & b < c > d \"e\" 'f'"), "a &amp; b &lt; c &gt; d &quot;e&quot; &#x27;f&#x27;");
    assert_eq!(escape_html("&amp;"), "&amp;amp;");
    assert_eq!(escape_html(""), "");
    assert_eq!(escape_html("Дюна"), "Дюна");
}

#[test]
fn network_caption() {
    let n = Network { id: 1, logo_path: None, name: "HBO".to_string(), origin_country: Some("US".to_string()) };
    assert_eq!(n.caption(), "HBO (US)");
    let m = Network { origin_country: None, ..n };
    assert_eq!(m.caption(), "HBO ()");
}

fn chars(s: &str) -> Vec<char> {
    s.chars().collect()
}

#[test]
fn decimal_text() {
    let mut out = Vec::new();
    push_u64(&mut out, 0);
    push_u64(&mut out, u64::MAX);
    push_i64(&mut out, -120);
    assert_eq!(out.iter().collect::<String>(), "018446744073709551615-120");
}

#[test]
fn decimal_parsing() {
    let t = chars("18446744073709551615");
    assert_eq!(parse_u64(&t, 0, t.len()), Some(u64::MAX));
    let t = chars("18446744073709551616");
    assert_eq!(parse_u64(&t, 0, t.len()), None);
    assert_eq!(parse_digits(&chars("0042"), 0, 4), Some(42));
    assert_eq!(parse_u64(&chars("0042"), 0, 4), None);
    assert_eq!(parse_u8(&chars("255"), 0, 3), Some(255));
    assert_eq!(parse_u8(&chars("256"), 0, 3), None);
    assert_eq!(parse_i64(&chars("x-12y"), 1, 4), Some(-12));
    assert_eq!(parse_i64(&chars("-"), 0, 1), None);
}

use watchlist_bot::catalog::duration_text;
use watchlist_bot::credits::{Cast, Crew, FilmCredits};

#[test]
fn durations_in_words() {
    assert_eq!(duration_text(0), "0 минут");
    assert_eq!(duration_text(1), "1 минута");
    assert_eq!(duration_text(3), "3 минуты");
    assert_eq!(duration_text(45), "45 минут");
    assert_eq!(duration_text(60), "1 час");
    assert_eq!(duration_text(125), "2 часа 5 минут");
    assert_eq!(duration_text(301), "5 часов 1 минута");
    assert_eq!(duration_text(1320), "22 часов");
}

fn cast(name: &str, character: &str, order: i64) -> Cast {
    Cast { name: name.to_string(), character: character.to_string(), order }
}

fn crew(name: &str, department: &str, job: &str) -> Crew {
    Crew { name: name.to_string(), department: department.to_string(), job: job.to_string() }
}

#[test]
fn credits_caption_in_full() {
    let c = FilmCredits {
        id: 1,
        cast: vec![
            cast("A", "Hero", 0),
            cast("B", "Villain", 12),
            cast("C & D", "<Twins>", 1),
            cast("E", "x", 2),
            cast("F", "y", 3),
            cast("G", "z", 4),
            cast("H", "w", 5),
        ],
        crew: vec![
            crew("W1", "Writing", "Novel"),
            crew("Dir", "Directing", "Director"),
            crew("P1", "Production", "Producer"),
            crew("P2", "Other", "Executive Producer"),
            crew("P3", "Production", "Casting"),
            crew("W2", "Other", "Writer"),
            crew("Dir2", "Directing", "Director"),
        ],
    };
    let expected = "<b>Актерский состав и съемочная группа</b>\n\
👥 <b>Актеров:</b> 7\n\
🎥 <b>Съемочной группы:</b> 7\n\
\n\
<b>🎭 Главные роли:</b>\n\
• <b>A</b> - Hero\n\
• <b>C &amp; D</b> - &lt;Twins&gt;\n\
• <b>E</b> - x\n\
• <b>F</b> - y\n\
• <b>G</b> - z\n\
<i>... и еще 2 актеров</i>\n\
\n\
<b>🎬 Режиссер:</b>\n\
• Dir\n\
\n\
<b>📝 Сценаристы:</b>\n\
• W1\n\
• W2\n\
\n\
<b>💰 Продюсеры:</b>\n\
• P1\n\
• P2\n\
<i>... и еще 1 продюсеров</i>\n";
    assert_eq!(c.caption(), expected);
}

#[test]
fn credits_caption_when_empty() {
    let c = FilmCredits { id: 2, cast: Vec::new(), crew: Vec::new() };
    assert_eq!(
        c.caption(),
        "<b>Актерский состав и съемочная группа</b>\n👥 <b>Актеров:</b> 0\n🎥 <b>Съемочной группы:</b> 0\n\n"
    );
}
