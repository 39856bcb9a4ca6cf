//! Records of the movie database that the captions read, HTML escaping, and
//! runtimes in words.

use vstd::prelude::*;

use crate::decimal::nat_text;
use crate::text::{chars_of, push_chars, push_number};
use vstd::string::StringExecFns;

verus! {

/// A genre of a film or series.
#[derive(Clone, Debug, PartialEq, Eq)]
pub struct Genre {
    pub id: i64,
    pub name: String,
}

/// A company that produced a film or series.
#[derive(Clone, Debug, PartialEq, Eq)]
pub struct ProductionCompany {
    pub id: i64,
    pub logo_path: Option<String>,
    pub name: String,
    pub origin_country: Option<String>,
}

/// A country where a film or series was produced.
#[derive(Clone, Debug, PartialEq, Eq)]
pub struct ProductionCountry {
    pub iso_3166_1: String,
    pub name: String,
}

/// A language spoken in a film or series.
#[derive(Clone, Debug, PartialEq, Eq)]
pub struct SpokenLanguage {
    pub english_name: String,
    pub iso_639_1: String,
    pub name: String,
}

/// The collection a film belongs to.
#[derive(Clone, Debug, PartialEq, Eq)]
pub struct BelongsToCollection {
    pub id: i64,
    pub name: String,
    pub poster_path: String,
    pub backdrop_path: String,
}

/// A creator of a series.
#[derive(Clone, Debug, PartialEq, Eq)]
pub struct CreatedBy {
    pub id: i64,
    pub credit_id: String,
    pub name: String,
    pub original_name: String,
    pub gender: i64,
    pub profile_path: String,
}

/// A network that airs a series.
#[derive(Clone, Debug, PartialEq, Eq)]
pub struct Network {
    pub id: i64,
    pub logo_path: Option<String>,
    pub name: String,
    pub origin_country: Option<String>,
}

/// How one character is written in HTML text: the five markup characters as
/// entities, any other as itself.
pub open spec fn escape_char(c: char) -> Seq<char> {
    if c == '&' {
        seq!['&', 'a', 'm', 'p', ';']
    } else if c == '<' {
        seq!['&', 'l', 't', ';']
    } else if c == '>' {
        seq!['&', 'g', 't', ';']
    } else if c == '"' {
        seq!['&', 'q', 'u', 'o', 't', ';']
    } else if c == '\'' {
        seq!['&', '#', 'x', '2', '7', ';']
    } else {
        seq![c]
    }
}

/// `s` written as HTML text, character by character.
pub open spec fn escaped(s: Seq<char>) -> Seq<char>
    decreases s.len(),
{
    if s.len() == 0 {
        Seq::empty()
    } else {
        escaped(s.drop_last()) + escape_char(s.last())
    }
}

/// `text` with `&`, `<`, `>`, `"` and `'` written as HTML entities, so that it
/// can stand in a message with HTML markup.
pub fn escape_html(text: &str) -> (r: String)
    ensures
        r@ == escaped(text@),
{
    let t = chars_of(text);
    let mut out = String::new();
    let mut i: usize = 0;
    while i < t.len()
        invariant
            i <= t@.len(),
            out@ == escaped(t@.subrange(0, i as int)),
        decreases t@.len() - i,
    {
        let c = t[i];
        if c == '&' {
            push_chars(&mut out, &['&', 'a', 'm', 'p', ';']);
        } else if c == '<' {
            push_chars(&mut out, &['&', 'l', 't', ';']);
        } else if c == '>' {
            push_chars(&mut out, &['&', 'g', 't', ';']);
        } else if c == '"' {
            push_chars(&mut out, &['&', 'q', 'u', 'o', 't', ';']);
        } else if c == '\'' {
            push_chars(&mut out, &['&', '#', 'x', '2', '7', ';']);
        } else {
            out.push(c);
        }
        assert(t@.subrange(0, i + 1).drop_last() =~= t@.subrange(0, i as int));
        i += 1;
        assert(out@ =~= escaped(t@.subrange(0, i as int)));
    }
    assert(t@.subrange(0, i as int) =~= t@);
    out
}

impl Network {
    /// The network's name, then its country in parentheses (empty when unknown).
    pub fn caption(&self) -> (r: String)
        ensures
            r@ == self.name@ + seq![' ', '('] + match self.origin_country {
                Some(c) => c@,
                None => Seq::<char>::empty(),
            } + seq![')'],
    {
        let mut out = self.name.clone();
        out.push(' ');
        out.push('(');
        match &self.origin_country {
            Some(c) => push_chars(&mut out, chars_of(c.as_str()).as_slice()),
            None => {},
        }
        out.push(')');
        assert(out@ =~= self.name@ + seq![' ', '('] + match self.origin_country {
            Some(c) => c@,
            None => Seq::<char>::empty(),
        } + seq![')']);
        out
    }
}


/// The word for `h` hours, by the rule used for runtimes: one, two to four,
/// or any other count.
pub open spec fn hours_word(h: nat) -> Seq<char> {
    if h == 1 {
        "час"@
    } else if 2 <= h <= 4 {
        "часа"@
    } else {
        "часов"@
    }
}

/// The word for `m` minutes, by the same rule.
pub open spec fn minutes_word(m: nat) -> Seq<char> {
    if m == 1 {
        "минута"@
    } else if 2 <= m <= 4 {
        "минуты"@
    } else {
        "минут"@
    }
}

/// A runtime of `total` minutes in hours and minutes, leaving out a part
/// that is zero; `"0 минут"` when both are.
pub open spec fn duration(total: nat) -> Seq<char> {
    let h = total / 60;
    let m = total % 60;
    if h == 0 && m == 0 {
        "0 минут"@
    } else if h == 0 {
        nat_text(m) + seq![' '] + minutes_word(m)
    } else if m == 0 {
        nat_text(h) + seq![' '] + hours_word(h)
    } else {
        nat_text(h) + seq![' '] + hours_word(h) + seq![' '] + nat_text(m) + seq![' '] + minutes_word(m)
    }
}

fn hours_label(h: u64) -> (r: &'static str)
    ensures
        r@ == hours_word(h as nat),
{
    if h == 1 {
        "час"
    } else if 2 <= h && h <= 4 {
        "часа"
    } else {
        "часов"
    }
}

fn minutes_label(m: u64) -> (r: &'static str)
    ensures
        r@ == minutes_word(m as nat),
{
    if m == 1 {
        "минута"
    } else if 2 <= m && m <= 4 {
        "минуты"
    } else {
        "минут"
    }
}

/// A runtime of `minutes` minutes as text, such as `"2 часа 5 минут"`.
pub fn duration_text(minutes: u64) -> (r: String)
    ensures
        r@ == duration(minutes as nat),
{
    let h = minutes / 60;
    let m = minutes % 60;
    let mut out = String::new();
    if h == 0 && m == 0 {
        out.append("0 минут");
    } else if h == 0 {
        push_number(&mut out, m);
        out.push(' ');
        out.append(minutes_label(m));
    } else if m == 0 {
        push_number(&mut out, h);
        out.push(' ');
        out.append(hours_label(h));
    } else {
        push_number(&mut out, h);
        out.push(' ');
        out.append(hours_label(h));
        out.push(' ');
        push_number(&mut out, m);
        out.push(' ');
        out.append(minutes_label(m));
    }
    assert(out@ =~= duration(minutes as nat));
    out
}

} // verus!
