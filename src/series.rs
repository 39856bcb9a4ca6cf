//! Series as search results and in detail, and their HTML captions.

use vstd::prelude::*;
use vstd::string::StringExecFns;

use crate::catalog::{escape_html, escaped, CreatedBy, Genre, Network};
use crate::decimal::int_text;
use crate::text::{
    chars_of, escaped_all, joined, push_chars, push_int, push_joined, same_text, texts,
};

verus! {

/// An episode of a series, as far as the caption reads it.
#[derive(Clone, Debug, PartialEq, Eq)]
pub struct Episode {
    pub name: String,
    pub air_date: String,
    pub season_number: i64,
    pub episode_number: i64,
}

/// The details of a series, as far as the caption reads them.
#[derive(Clone, Debug, PartialEq, Eq)]
pub struct TVShowDetails {
    pub id: i64,
    pub name: String,
    pub original_name: String,
    pub tagline: String,
    pub first_air_date: String,
    pub last_air_date: String,
    /// The average vote, written with one decimal.
    pub rating: String,
    pub vote_count: i64,
    pub number_of_seasons: i64,
    pub number_of_episodes: i64,
    pub genres: Vec<Genre>,
    pub status: String,
    pub in_production: bool,
    pub origin_country: Vec<String>,
    pub languages: Vec<String>,
    pub created_by: Vec<CreatedBy>,
    pub networks: Vec<Network>,
    pub episode_run_time: Vec<i64>,
    pub last_episode_to_air: Episode,
    pub next_episode_to_air: Option<Episode>,
    pub overview: String,
    pub adult: bool,
}

/// The longest overview shown, in characters; a longer one is cut there.
pub const OVERVIEW_CHARS: usize = 512;

pub open spec fn genre_names(v: Seq<Genre>) -> Seq<Seq<char>> {
    v.map_values(|g: Genre| g.name@)
}

pub open spec fn creator_names(v: Seq<CreatedBy>) -> Seq<Seq<char>> {
    v.map_values(|c: CreatedBy| c.name@)
}

pub open spec fn network_names(v: Seq<Network>) -> Seq<Seq<char>> {
    v.map_values(|n: Network| n.name@)
}

pub open spec fn run_times(v: Seq<i64>) -> Seq<Seq<char>> {
    v.map_values(|t: i64| int_text(t as int) + " мин"@)
}

/// A line listing `parts` after `label`; nothing when there are none.
pub open spec fn list_line(label: Seq<char>, parts: Seq<Seq<char>>) -> Seq<char> {
    if parts.len() == 0 {
        Seq::empty()
    } else {
        label + joined(parts, ", "@)
    }
}

/// `o`, cut after its first `OVERVIEW_CHARS` characters and marked so.
pub open spec fn shortened(o: Seq<char>) -> Seq<char> {
    if o.len() > OVERVIEW_CHARS {
        o.subrange(0, OVERVIEW_CHARS as int) + "..."@
    } else {
        o
    }
}

pub open spec fn episode_text(e: Episode) -> Seq<char> {
    "\n   • <b>Название:</b> "@ + escaped(e.name@) + "\n   • <b>Дата:</b> "@ + e.air_date@
        + "\n   • <b>Сезон:</b> "@ + int_text(e.season_number as int) + "\n   • <b>Эпизод:</b> "@
        + int_text(e.episode_number as int)
}

/// The name, the original name where it differs, and the tagline.
pub open spec fn title_text(s: TVShowDetails) -> Seq<char> {
    "<b>🎬 "@ + escaped(s.name@) + "</b>"@ + (if s.original_name@ != s.name@ {
        "\n<code>("@ + escaped(s.original_name@) + ")</code>"@
    } else {
        Seq::empty()
    }) + (if escaped(s.tagline@).len() > 0 {
        "\n<em>"@ + escaped(s.tagline@) + "</em>"@
    } else {
        Seq::empty()
    })
}

/// The first air date, the last one when known, the rating and the counts.
pub open spec fn numbers_text(s: TVShowDetails) -> Seq<char> {
    "\n\n📅 <b>Премьера:</b> "@ + s.first_air_date@ + (if s.last_air_date@.len() > 0 {
        "\n📅 <b>Последний эфир:</b> "@ + s.last_air_date@
    } else {
        Seq::empty()
    }) + "\n⭐ <b>Рейтинг:</b> "@ + s.rating@ + " ("@ + int_text(s.vote_count as int) + " голосов)"@
        + "\n📊 <b>Сезонов:</b> "@ + int_text(s.number_of_seasons as int)
        + "\n🎞️ <b>Эпизодов:</b> "@ + int_text(s.number_of_episodes as int)
}

/// Genres, status, countries, languages, creators, networks and run times.
pub open spec fn facts_text(s: TVShowDetails) -> Seq<char> {
    list_line("\n🎭 <b>Жанры:</b> "@, escaped_all(genre_names(s.genres@))) + "\n🔄 <b>Статус:</b> "@
        + escaped(s.status@) + (if s.in_production {
        " 🎬"@
    } else {
        Seq::empty()
    }) + list_line("\n🇺🇳 <b>Страны:</b> "@, texts(s.origin_country@)) + list_line(
        "\n🌐 <b>Языки:</b> "@,
        texts(s.languages@),
    ) + list_line("\n👨‍💼 <b>Создатели:</b> "@, escaped_all(creator_names(s.created_by@)))
        + list_line("\n📺 <b>Телеканалы:</b> "@, escaped_all(network_names(s.networks@)))
        + list_line("\n⏱️ <b>Длительность:</b> "@, run_times(s.episode_run_time@))
}

/// The last episode, the next one if announced, the overview and the age mark.
pub open spec fn closing_text(s: TVShowDetails) -> Seq<char> {
    "\n\n📺 <b>Последний эпизод:</b>"@ + episode_text(s.last_episode_to_air) + (match s.next_episode_to_air {
        Some(e) => "\n\n📺 <b>Следующий эпизод:</b>"@ + episode_text(e),
        None => Seq::empty(),
    }) + (if escaped(s.overview@).len() > 0 {
        "\n\n📖 <b>Описание:</b>\n"@ + shortened(escaped(s.overview@))
    } else {
        Seq::empty()
    }) + (if s.adult {
        "\n\n🔞 <b>18+</b>"@
    } else {
        Seq::empty()
    })
}

pub open spec fn show_text(s: TVShowDetails) -> Seq<char> {
    title_text(s) + numbers_text(s) + facts_text(s) + closing_text(s)
}

/// The names of `v`, in order.
pub(crate) fn genre_name_list(v: &Vec<Genre>) -> (r: Vec<String>)
    ensures
        texts(r@) == genre_names(v@),
{
    let mut r: Vec<String> = Vec::new();
    let mut i: usize = 0;
    while i < v.len()
        invariant
            i <= v@.len(),
            r@.len() == i,
            forall|k: int| 0 <= k < i ==> #[trigger] r@[k]@ == v@[k].name@,
        decreases v@.len() - i,
    {
        r.push(v[i].name.clone());
        i += 1;
    }
    assert(texts(r@) =~= genre_names(v@));
    r
}

fn creator_name_list(v: &Vec<CreatedBy>) -> (r: Vec<String>)
    ensures
        texts(r@) == creator_names(v@),
{
    let mut r: Vec<String> = Vec::new();
    let mut i: usize = 0;
    while i < v.len()
        invariant
            i <= v@.len(),
            r@.len() == i,
            forall|k: int| 0 <= k < i ==> #[trigger] r@[k]@ == v@[k].name@,
        decreases v@.len() - i,
    {
        r.push(v[i].name.clone());
        i += 1;
    }
    assert(texts(r@) =~= creator_names(v@));
    r
}

fn network_name_list(v: &Vec<Network>) -> (r: Vec<String>)
    ensures
        texts(r@) == network_names(v@),
{
    let mut r: Vec<String> = Vec::new();
    let mut i: usize = 0;
    while i < v.len()
        invariant
            i <= v@.len(),
            r@.len() == i,
            forall|k: int| 0 <= k < i ==> #[trigger] r@[k]@ == v@[k].name@,
        decreases v@.len() - i,
    {
        r.push(v[i].name.clone());
        i += 1;
    }
    assert(texts(r@) =~= network_names(v@));
    r
}

fn run_time_list(v: &Vec<i64>) -> (r: Vec<String>)
    ensures
        texts(r@) == run_times(v@),
{
    let mut r: Vec<String> = Vec::new();
    let mut i: usize = 0;
    while i < v.len()
        invariant
            i <= v@.len(),
            r@.len() == i,
            forall|k: int| 0 <= k < i ==> #[trigger] r@[k]@ == int_text(v@[k] as int) + " мин"@,
        decreases v@.len() - i,
    {
        let mut t = String::new();
        push_int(&mut t, v[i]);
        t.append(" мин");
        r.push(t);
        i += 1;
    }
    assert(texts(r@) =~= run_times(v@));
    r
}

fn push_list(out: &mut String, label: &str, items: &Vec<String>, escape: bool)
    ensures
        escape ==> final(out)@ == old(out)@ + list_line(label@, escaped_all(texts(items@))),
        !escape ==> final(out)@ == old(out)@ + list_line(label@, texts(items@)),
{
    if items.len() > 0 {
        out.append(label);
        push_joined(out, items, ", ", escape);
    }
    assert(escaped_all(texts(items@)).len() == items@.len());
    assert(final(out)@ =~= old(out)@ + list_line(label@, if escape {
        escaped_all(texts(items@))
    } else {
        texts(items@)
    }));
}

fn push_escaped(out: &mut String, text: &str)
    ensures
        final(out)@ == old(out)@ + escaped(text@),
{
    out.append(escape_html(text).as_str());
}

fn push_title(out: &mut String, s: &TVShowDetails)
    ensures
        final(out)@ == old(out)@ + title_text(*s),
{
    out.append("<b>🎬 ");
    push_escaped(out, s.name.as_str());
    out.append("</b>");
    if !same_text(s.original_name.as_str(), s.name.as_str()) {
        out.append("\n<code>(");
        push_escaped(out, s.original_name.as_str());
        out.append(")</code>");
    }
    let tagline = escape_html(s.tagline.as_str());
    if tagline.unicode_len() > 0 {
        out.append("\n<em>");
        out.append(tagline.as_str());
        out.append("</em>");
    }
    assert(final(out)@ =~= old(out)@ + title_text(*s));
}

fn push_numbers(out: &mut String, s: &TVShowDetails)
    ensures
        final(out)@ == old(out)@ + numbers_text(*s),
{
    out.append("\n\n📅 <b>Премьера:</b> ");
    out.append(s.first_air_date.as_str());
    if s.last_air_date.as_str().unicode_len() > 0 {
        out.append("\n📅 <b>Последний эфир:</b> ");
        out.append(s.last_air_date.as_str());
    }
    out.append("\n⭐ <b>Рейтинг:</b> ");
    out.append(s.rating.as_str());
    out.append(" (");
    push_int(out, s.vote_count);
    out.append(" голосов)");
    out.append("\n📊 <b>Сезонов:</b> ");
    push_int(out, s.number_of_seasons);
    out.append("\n🎞️ <b>Эпизодов:</b> ");
    push_int(out, s.number_of_episodes);
    assert(final(out)@ =~= old(out)@ + numbers_text(*s));
}

fn push_facts(out: &mut String, s: &TVShowDetails)
    ensures
        final(out)@ == old(out)@ + facts_text(*s),
{
    push_list(out, "\n🎭 <b>Жанры:</b> ", &genre_name_list(&s.genres), true);
    out.append("\n🔄 <b>Статус:</b> ");
    push_escaped(out, s.status.as_str());
    if s.in_production {
        out.append(" 🎬");
    }
    push_list(out, "\n🇺🇳 <b>Страны:</b> ", &s.origin_country, false);
    push_list(out, "\n🌐 <b>Языки:</b> ", &s.languages, false);
    push_list(out, "\n👨‍💼 <b>Создатели:</b> ", &creator_name_list(&s.created_by), true);
    push_list(out, "\n📺 <b>Телеканалы:</b> ", &network_name_list(&s.networks), true);
    push_list(out, "\n⏱️ <b>Длительность:</b> ", &run_time_list(&s.episode_run_time), false);
    assert(final(out)@ =~= old(out)@ + facts_text(*s));
}

fn push_episode(out: &mut String, e: &Episode)
    ensures
        final(out)@ == old(out)@ + episode_text(*e),
{
    out.append("\n   • <b>Название:</b> ");
    push_escaped(out, e.name.as_str());
    out.append("\n   • <b>Дата:</b> ");
    out.append(e.air_date.as_str());
    out.append("\n   • <b>Сезон:</b> ");
    push_int(out, e.season_number);
    out.append("\n   • <b>Эпизод:</b> ");
    push_int(out, e.episode_number);
    assert(final(out)@ =~= old(out)@ + episode_text(*e));
}

/// Appends the overview cut to its first `OVERVIEW_CHARS` characters.
fn push_shortened(out: &mut String, text: &str)
    ensures
        final(out)@ == old(out)@ + shortened(text@),
{
    let t = chars_of(text);
    if t.len() > OVERVIEW_CHARS {
        push_chars(out, &t.as_slice()[0..OVERVIEW_CHARS]);
        out.append("...");
    } else {
        out.append(text);
    }
    assert(final(out)@ =~= old(out)@ + shortened(text@));
}

fn push_closing(out: &mut String, s: &TVShowDetails)
    ensures
        final(out)@ == old(out)@ + closing_text(*s),
{
    out.append("\n\n📺 <b>Последний эпизод:</b>");
    push_episode(out, &s.last_episode_to_air);
    match &s.next_episode_to_air {
        Some(e) => {
            out.append("\n\n📺 <b>Следующий эпизод:</b>");
            push_episode(out, e);
        },
        None => {},
    }
    let overview = escape_html(s.overview.as_str());
    if overview.as_str().unicode_len() > 0 {
        out.append("\n\n📖 <b>Описание:</b>\n");
        push_shortened(out, overview.as_str());
    }
    if s.adult {
        out.append("\n\n🔞 <b>18+</b>");
    }
    assert(final(out)@ =~= old(out)@ + closing_text(*s));
}

impl TVShowDetails {
    /// The details as an HTML caption.
    pub fn caption(&self) -> (r: String)
        ensures
            r@ == show_text(*self),
    {
        let mut out = String::new();
        push_title(&mut out, self);
        push_numbers(&mut out, self);
        push_facts(&mut out, self);
        push_closing(&mut out, self);
        assert(out@ =~= show_text(*self));
        out
    }
}

/// A series found by a search, as far as its caption reads it.
#[derive(Clone, Debug, PartialEq, Eq)]
pub struct TVShowOverview {
    pub id: i64,
    pub name: String,
    pub original_name: String,
    pub first_air_date: String,
    /// The average vote, written with one decimal.
    pub rating: String,
    pub vote_count: i64,
    pub original_language: String,
    pub original_country: Option<Vec<String>>,
    pub overview: String,
    pub adult: bool,
}

/// The caption of a found series: its names, first air date (or that it is
/// unknown), rating, language, countries, overview and age mark.
pub open spec fn overview_text(s: TVShowOverview) -> Seq<char> {
    "<b>🎬 "@ + escaped(s.name@) + "</b>"@ + (if s.original_name@ != s.name@ {
        "\n<code>("@ + escaped(s.original_name@) + ")</code>"@
    } else {
        Seq::empty()
    }) + "\n\n📅 <b>Премьера:</b> "@ + (if s.first_air_date@.len() == 0 {
        "Неизвестно"@
    } else {
        s.first_air_date@
    }) + "\n⭐ <b>Рейтинг:</b> "@ + s.rating@ + " ("@ + int_text(s.vote_count as int) + " голосов)"@
        + "\n🌐 <b>Язык:</b> "@ + s.original_language@ + (match s.original_country {
        Some(c) => list_line("\n🇺🇳 <b>Страна:</b> "@, texts(c@)),
        None => Seq::empty(),
    }) + (if escaped(s.overview@).len() > 0 {
        "\n\n📖 <b>Описание:</b>\n"@ + shortened(escaped(s.overview@))
    } else {
        Seq::empty()
    }) + (if s.adult {
        "\n\n🔞 <b>18+</b>"@
    } else {
        Seq::empty()
    })
}

fn push_overview_head(out: &mut String, s: &TVShowOverview)
    ensures
        final(out)@ == old(out)@ + "<b>🎬 "@ + escaped(s.name@) + "</b>"@ + (if s.original_name@
            != s.name@ {
            "\n<code>("@ + escaped(s.original_name@) + ")</code>"@
        } else {
            Seq::empty()
        }) + "\n\n📅 <b>Премьера:</b> "@ + (if s.first_air_date@.len() == 0 {
            "Неизвестно"@
        } else {
            s.first_air_date@
        }) + "\n⭐ <b>Рейтинг:</b> "@ + s.rating@ + " ("@ + int_text(s.vote_count as int)
            + " голосов)"@ + "\n🌐 <b>Язык:</b> "@ + s.original_language@,
{
    out.append("<b>🎬 ");
    push_escaped(out, s.name.as_str());
    out.append("</b>");
    if !same_text(s.original_name.as_str(), s.name.as_str()) {
        out.append("\n<code>(");
        push_escaped(out, s.original_name.as_str());
        out.append(")</code>");
    }
    out.append("\n\n📅 <b>Премьера:</b> ");
    if s.first_air_date.as_str().unicode_len() == 0 {
        out.append("Неизвестно");
    } else {
        out.append(s.first_air_date.as_str());
    }
    out.append("\n⭐ <b>Рейтинг:</b> ");
    out.append(s.rating.as_str());
    out.append(" (");
    push_int(out, s.vote_count);
    out.append(" голосов)");
    out.append("\n🌐 <b>Язык:</b> ");
    out.append(s.original_language.as_str());
    assert(final(out)@ =~= old(out)@ + "<b>🎬 "@ + escaped(s.name@) + "</b>"@ + (if s.original_name@
        != s.name@ {
        "\n<code>("@ + escaped(s.original_name@) + ")</code>"@
    } else {
        Seq::empty()
    }) + "\n\n📅 <b>Премьера:</b> "@ + (if s.first_air_date@.len() == 0 {
        "Неизвестно"@
    } else {
        s.first_air_date@
    }) + "\n⭐ <b>Рейтинг:</b> "@ + s.rating@ + " ("@ + int_text(s.vote_count as int)
        + " голосов)"@ + "\n🌐 <b>Язык:</b> "@ + s.original_language@);
}

impl TVShowOverview {
    /// The found series as an HTML caption.
    pub fn caption(&self) -> (r: String)
        ensures
            r@ == overview_text(*self),
    {
        let mut out = String::new();
        push_overview_head(&mut out, self);
        match &self.original_country {
            Some(c) => push_list(&mut out, "\n🇺🇳 <b>Страна:</b> ", c, false),
            None => {},
        }
        let overview = escape_html(self.overview.as_str());
        if overview.as_str().unicode_len() > 0 {
            out.append("\n\n📖 <b>Описание:</b>\n");
            push_shortened(&mut out, overview.as_str());
        }
        if self.adult {
            out.append("\n\n🔞 <b>18+</b>");
        }
        assert(out@ =~= overview_text(*self));
        out
    }
}

} // verus!
