//! Films as search results and in detail, and their HTML captions.

use vstd::prelude::*;
use vstd::string::StringExecFns;

use crate::catalog::{duration, duration_text, Genre};
use crate::series::{genre_name_list, genre_names, OVERVIEW_CHARS};
use crate::text::{before, chars_of, find_char, joined, push_chars, push_joined};

verus! {

/// A film found by a search, as far as its caption reads it.
#[derive(Clone, Debug, PartialEq, Eq)]
pub struct FilmOverview {
    pub id: i64,
    pub title: String,
    pub original_title: String,
    pub release_date: String,
}

/// The details of a film, as far as the caption reads them.
#[derive(Clone, Debug, PartialEq, Eq)]
pub struct FilmDetails {
    pub id: i64,
    pub title: String,
    pub release_date: String,
    pub genres: Vec<Genre>,
    /// The runtime in minutes.
    pub runtime: i64,
    pub overview: String,
}

/// The caption of a found film: its title, original title and release date.
pub open spec fn film_overview_text(f: FilmOverview) -> Seq<char> {
    "Название: <b>"@ + f.title@ + "</b>\nОригинальное название: <i>"@ + f.original_title@
        + "</i>\nДата выхода: <i>"@ + f.release_date@ + "</i>"@
}

/// An overview shown whole when it is shorter than `OVERVIEW_CHARS`
/// characters, else its first `OVERVIEW_CHARS` and a mark that it was cut.
pub open spec fn film_overview_cut(o: Seq<char>) -> Seq<char> {
    if o.len() < OVERVIEW_CHARS {
        o
    } else {
        o.subrange(0, OVERVIEW_CHARS as int) + "..."@
    }
}

/// The caption of a film's details: title and year (what comes before the
/// first `-` of the release date), the release date, the genres, the runtime
/// (a negative one as none), and the overview when there is one.
pub open spec fn film_details_text(f: FilmDetails) -> Seq<char> {
    "<b>"@ + f.title@ + "</b> ("@ + before(f.release_date@, '-') + ")\n"@ + f.release_date@
        + " 🗓️ "@ + joined(genre_names(f.genres@), " | "@) + " ⏱️ "@ + duration(
        if f.runtime < 0 {
            0
        } else {
            f.runtime as nat
        },
    ) + "\n"@ + (if f.overview@.len() > 0 {
        "<b>Обзор</b>\n"@ + film_overview_cut(f.overview@) + "\n"@
    } else {
        Seq::empty()
    })
}

impl FilmOverview {
    /// The found film as an HTML caption.
    pub fn caption(&self) -> (r: String)
        ensures
            r@ == film_overview_text(*self),
    {
        let mut out = String::new();
        out.append("Название: <b>");
        out.append(self.title.as_str());
        out.append("</b>\nОригинальное название: <i>");
        out.append(self.original_title.as_str());
        out.append("</i>\nДата выхода: <i>");
        out.append(self.release_date.as_str());
        out.append("</i>");
        assert(out@ =~= film_overview_text(*self));
        out
    }
}

fn push_cut_overview(out: &mut String, text: &str)
    ensures
        final(out)@ == old(out)@ + film_overview_cut(text@),
{
    let t = chars_of(text);
    if t.len() < OVERVIEW_CHARS {
        out.append(text);
    } else {
        push_chars(out, &t.as_slice()[0..OVERVIEW_CHARS]);
        out.append("...");
    }
    assert(final(out)@ =~= old(out)@ + film_overview_cut(text@));
}

impl FilmDetails {
    /// The film's details as an HTML caption.
    pub fn caption(&self) -> (r: String)
        ensures
            r@ == film_details_text(*self),
    {
        let mut out = String::new();
        out.append("<b>");
        out.append(self.title.as_str());
        out.append("</b> (");
        let date = chars_of(self.release_date.as_str());
        let year_end = find_char(&date, 0, date.len(), '-');
        assert(date@.subrange(0, date@.len() as int) =~= date@);
        push_chars(&mut out, &date.as_slice()[0..year_end]);
        out.append(")\n");
        out.append(self.release_date.as_str());
        out.append(" 🗓️ ");
        push_joined(&mut out, &genre_name_list(&self.genres), " | ", false);
        out.append(" ⏱️ ");
        let minutes: u64 = if self.runtime < 0 {
            0
        } else {
            self.runtime as u64
        };
        out.append(duration_text(minutes).as_str());
        out.append("\n");
        if self.overview.as_str().unicode_len() > 0 {
            out.append("<b>Обзор</b>\n");
            push_cut_overview(&mut out, self.overview.as_str());
            out.append("\n");
        }
        assert(out@ =~= film_details_text(*self));
        out
    }
}

} // verus!
