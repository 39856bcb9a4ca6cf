use watchlist_bot::catalog::{CreatedBy, Genre, Network};
use watchlist_bot::credits::Crew;
use watchlist_bot::films::{FilmDetails, FilmOverview};
use watchlist_bot::series::{Episode, TVShowDetails, TVShowOverview};

fn s(t: &str) -> String {
    t.to_string()
}

fn genre(name: &str) -> Genre {
    Genre { id: 1, name: s(name) }
}

fn episode(name: &str) -> Episode {
    Episode { name: s(name), air_date: s("2024-05-01"), season_number: 2, episode_number: 8 }
}

fn show() -> TVShowDetails {
    TVShowDetails {
        id: 7,
        name: s("Тьма"),
        original_name: s("Dark"),
        tagline: s("Time & <space>"),
        first_air_date: s("2017-12-01"),
        last_air_date: s(""),
        rating: s("8.4"),
        vote_count: 6000,
        number_of_seasons: 3,
        number_of_episodes: 26,
        genres: vec![genre("Драма"), genre("Sci-Fi & Fantasy")],
        status: s("Ended"),
        in_production: false,
        origin_country: vec![s("DE")],
        languages: vec![s("de"), s("en")],
        created_by: vec![CreatedBy {
            id: 1,
            credit_id: s("c"),
            name: s("Baran bo Odar"),
            original_name: s("Baran bo Odar"),
            gender: 2,
            profile_path: s("/p.jpg"),
        }],
        networks: vec![Network { id: 2, logo_path: None, name: s("Netflix"), origin_country: None }],
        episode_run_time: vec![60, -1],
        last_episode_to_air: episode("Рай"),
        next_episode_to_air: None,
        overview: s(""),
        adult: true,
    }
}

#[test]
fn series_details_caption() {
    let expected = "<b>🎬 Тьма</b>\n<code>(Dark)</code>\n<em>Time &amp; &lt;space&gt;</em>\
\n\n📅 <b>Премьера:</b> 2017-12-01\
\n⭐ <b>Рейтинг:</b> 8.4 (6000 голосов)\
\n📊 <b>Сезонов:</b> 3\
\n🎞️ <b>Эпизодов:</b> 26\
\n🎭 <b>Жанры:</b> Драма, Sci-Fi &amp; Fantasy\
\n🔄 <b>Статус:</b> Ended\
\n🇺🇳 <b>Страны:</b> DE\
\n🌐 <b>Языки:</b> de, en\
\n👨‍💼 <b>Создатели:</b> Baran bo Odar\
\n📺 <b>Телеканалы:</b> Netflix\
\n⏱️ <b>Длительность:</b> 60 мин, -1 мин\
\n\n📺 <b>Последний эпизод:</b>\
\n   • <b>Название:</b> Рай\
\n   • <b>Дата:</b> 2024-05-01\
\n   • <b>Сезон:</b> 2\
\n   • <b>Эпизод:</b> 8\
\n\n🔞 <b>18+</b>";
    assert_eq!(show().caption(), expected);
}

#[test]
fn series_details_caption_optional_parts() {
    let mut d = show();
    d.original_name = d.name.clone();
    d.tagline = s("");
    d.last_air_date = s("2020-06-27");
    d.genres.clear();
    d.origin_country.clear();
    d.languages.clear();
    d.created_by.clear();
    d.networks.clear();
    d.episode_run_time.clear();
    d.in_production = true;
    d.next_episode_to_air = Some(episode("Next"));
    d.overview = "о".repeat(600);
    d.adult = false;
    let expected = format!(
        "<b>🎬 Тьма</b>\
\n\n📅 <b>Премьера:</b> 2017-12-01\
\n📅 <b>Последний эфир:</b> 2020-06-27\
\n⭐ <b>Рейтинг:</b> 8.4 (6000 голосов)\
\n📊 <b>Сезонов:</b> 3\
\n🎞️ <b>Эпизодов:</b> 26\
\n🔄 <b>Статус:</b> Ended 🎬\
\n\n📺 <b>Последний эпизод:</b>\
\n   • <b>Название:</b> Рай\
\n   • <b>Дата:</b> 2024-05-01\
\n   • <b>Сезон:</b> 2\
\n   • <b>Эпизод:</b> 8\
\n\n📺 <b>Следующий эпизод:</b>\
\n   • <b>Название:</b> Next\
\n   • <b>Дата:</b> 2024-05-01\
\n   • <b>Сезон:</b> 2\
\n   • <b>Эпизод:</b> 8\
\n\n📖 <b>Описание:</b>\n{}...",
        "о".repeat(512)
    );
    assert_eq!(d.caption(), expected);
}

#[test]
fn series_overview_caption() {
    let o = TVShowOverview {
        id: 1,
        name: s("A"),
        original_name: s("B"),
        first_air_date: s(""),
        rating: s("7.0"),
        vote_count: 3,
        original_language: s("en"),
        original_country: Some(vec![s("US"), s("GB")]),
        overview: s("x < y"),
        adult: false,
    };
    assert_eq!(
        o.caption(),
        "<b>🎬 A</b>\n<code>(B)</code>\n\n📅 <b>Премьера:</b> Неизвестно\n⭐ <b>Рейтинг:</b> 7.0 (3 голосов)\n🌐 <b>Язык:</b> en\n🇺🇳 <b>Страна:</b> US, GB\n\n📖 <b>Описание:</b>\nx &lt; y"
    );
    let empty = TVShowOverview { original_country: Some(Vec::new()), overview: s(""), name: s("B"), ..o };
    assert_eq!(
        empty.caption(),
        "<b>🎬 B</b>\n\n📅 <b>Премьера:</b> Неизвестно\n⭐ <b>Рейтинг:</b> 7.0 (3 голосов)\n🌐 <b>Язык:</b> en"
    );
}

#[test]
fn film_captions() {
    let o = FilmOverview { id: 1, title: s("Дюна"), original_title: s("Dune"), release_date: s("2021-09-15") };
    assert_eq!(
        o.caption(),
        "Название: <b>Дюна</b>\nОригинальное название: <i>Dune</i>\nДата выхода: <i>2021-09-15</i>"
    );
    let d = FilmDetails {
        id: 1,
        title: s("Дюна"),
        release_date: s("2021-09-15"),
        genres: vec![genre("фантастика"), genre("драма")],
        runtime: 155,
        overview: s("Пустыня"),
    };
    assert_eq!(
        d.caption(),
        "<b>Дюна</b> (2021)\n2021-09-15 🗓️ фантастика | драма ⏱️ 2 часа 35 минут\n<b>Обзор</b>\nПустыня\n"
    );
    let long = FilmDetails { overview: "x".repeat(512), runtime: -5, genres: Vec::new(), ..d.clone() };
    assert_eq!(
        long.caption(),
        format!("<b>Дюна</b> (2021)\n2021-09-15 🗓️  ⏱️ 0 минут\n<b>Обзор</b>\n{}...\n", "x".repeat(512))
    );
    let short = FilmDetails { overview: "x".repeat(511), release_date: s(""), ..d };
    assert_eq!(
        short.caption(),
        format!("<b>Дюна</b> ()\n 🗓️ фантастика | драма ⏱️ 2 часа 35 минут\n<b>Обзор</b>\n{}\n", "x".repeat(511))
    );
}

#[test]
fn crew_lines() {
    let c = Crew { name: s("A&B"), department: s("Sound"), job: s("") };
    assert_eq!(c.caption(), "<b>A&amp;B</b> (Sound)");
    let c = Crew { job: s("Mixer"), ..c };
    assert_eq!(c.caption(), "<b>A&amp;B</b> (Mixer)");
    let c = Crew { job: s(""), department: s(""), ..c };
    assert_eq!(c.caption(), "<b>A&amp;B</b>");
}
