//! The credits of a film or series and their HTML caption.

use vstd::prelude::*;
use vstd::string::StringExecFns;

use crate::catalog::{escape_html, escaped};
use crate::decimal::nat_text;
use crate::text::{contains_text, occurs_in, push_number, same_text};

verus! {

/// A member of the cast, as far as the credits caption reads it.
#[derive(Clone, Debug, PartialEq, Eq)]
pub struct Cast {
    pub name: String,
    pub character: String,
    /// The position in the billing, from 0.
    pub order: i64,
}

/// A member of the crew, as far as the credits caption reads it.
#[derive(Clone, Debug, PartialEq, Eq)]
pub struct Crew {
    pub name: String,
    pub department: String,
    pub job: String,
}

/// The people who made a film or series.
#[derive(Clone, Debug, PartialEq, Eq)]
pub struct FilmCredits {
    pub id: i64,
    pub cast: Vec<Cast>,
    pub crew: Vec<Crew>,
}

/// The part of the crew a section of the caption lists.
#[derive(Clone, Copy, Debug, PartialEq, Eq, Structural)]
pub enum CrewRole {
    Director,
    Writer,
    Producer,
}

/// The cast members billed among the first ten.
pub open spec fn lead(c: Cast) -> bool {
    c.order < 10
}

pub open spec fn has_role(c: Crew, r: CrewRole) -> bool {
    match r {
        CrewRole::Director => c.job@ == "Director"@,
        CrewRole::Writer => c.job@ == "Writer"@ || c.department@ == "Writing"@,
        CrewRole::Producer => occurs_in("Producer"@, c.job@) || c.department@ == "Production"@,
    }
}

pub open spec fn leads(cast: Seq<Cast>) -> Seq<Cast> {
    cast.filter(|c: Cast| lead(c))
}

pub open spec fn with_role(crew: Seq<Crew>, r: CrewRole) -> Seq<Crew> {
    crew.filter(|c: Crew| has_role(c, r))
}

/// At most the first `n` items of `s`.
pub open spec fn first_n<A>(s: Seq<A>, n: nat) -> Seq<A> {
    if s.len() <= n {
        s
    } else {
        s.subrange(0, n as int)
    }
}

pub open spec fn role_line(c: Cast) -> Seq<char> {
    "• <b>"@ + escaped(c.name@) + "</b> - "@ + escaped(c.character@) + "\n"@
}

pub open spec fn role_lines(cs: Seq<Cast>) -> Seq<char>
    decreases cs.len(),
{
    if cs.len() == 0 {
        Seq::empty()
    } else {
        role_lines(cs.drop_last()) + role_line(cs.last())
    }
}

pub open spec fn bullet(c: Crew) -> Seq<char> {
    "• "@ + escaped(c.name@) + "\n"@
}

pub open spec fn bullets(cs: Seq<Crew>) -> Seq<char>
    decreases cs.len(),
{
    if cs.len() == 0 {
        Seq::empty()
    } else {
        bullets(cs.drop_last()) + bullet(cs.last())
    }
}

/// The head of the caption: its title and the sizes of cast and crew.
pub open spec fn head_text(c: FilmCredits) -> Seq<char> {
    "<b>Актерский состав и съемочная группа</b>\n"@ + "👥 <b>Актеров:</b> "@ + nat_text(
        c.cast@.len(),
    ) + "\n"@ + "🎥 <b>Съемочной группы:</b> "@ + nat_text(c.crew@.len()) + "\n"@ + "\n"@
}

/// The leading roles: up to five of the cast billed among the first ten,
/// and how many more actors there are past the first five.
pub open spec fn cast_text(cast: Seq<Cast>) -> Seq<char> {
    if cast.len() == 0 {
        Seq::empty()
    } else if cast.len() > 5 {
        "<b>🎭 Главные роли:</b>\n"@ + role_lines(first_n(leads(cast), 5)) + "<i>... и еще "@
            + nat_text((cast.len() - 5) as nat) + " актеров</i>\n"@ + "\n"@
    } else {
        "<b>🎭 Главные роли:</b>\n"@ + role_lines(first_n(leads(cast), 5)) + "\n"@
    }
}

/// The director: the first of the crew whose job is that.
pub open spec fn director_text(crew: Seq<Crew>) -> Seq<char> {
    let d = with_role(crew, CrewRole::Director);
    if d.len() == 0 {
        Seq::empty()
    } else {
        "<b>🎬 Режиссер:</b>\n"@ + bullets(first_n(d, 1)) + "\n"@
    }
}

/// Up to three writers.
pub open spec fn writers_text(crew: Seq<Crew>) -> Seq<char> {
    let w = with_role(crew, CrewRole::Writer);
    if w.len() == 0 {
        Seq::empty()
    } else {
        "<b>📝 Сценаристы:</b>\n"@ + bullets(first_n(w, 3)) + "\n"@
    }
}

/// Up to two producers, and how many more there are.
pub open spec fn producers_text(crew: Seq<Crew>) -> Seq<char> {
    let p = with_role(crew, CrewRole::Producer);
    if p.len() == 0 {
        Seq::empty()
    } else if p.len() > 2 {
        "<b>💰 Продюсеры:</b>\n"@ + bullets(first_n(p, 2)) + "<i>... и еще "@ + nat_text(
            (p.len() - 2) as nat,
        ) + " продюсеров</i>\n"@
    } else {
        "<b>💰 Продюсеры:</b>\n"@ + bullets(first_n(p, 2))
    }
}

pub open spec fn credits_text(c: FilmCredits) -> Seq<char> {
    head_text(c) + cast_text(c.cast@) + director_text(c.crew@) + writers_text(c.crew@)
        + producers_text(c.crew@)
}

proof fn lemma_first_n_push<A>(s: Seq<A>, x: A, n: nat)
    ensures
        first_n(s.push(x), n) == (if s.len() < n {
            first_n(s, n).push(x)
        } else {
            first_n(s, n)
        }),
{
    if s.len() < n {
        assert(first_n(s.push(x), n) =~= first_n(s, n).push(x));
    } else {
        assert(first_n(s.push(x), n) =~= first_n(s, n));
    }
}

proof fn lemma_leads_push(s: Seq<Cast>, x: Cast)
    ensures
        leads(s.push(x)) == (if lead(x) {
            leads(s).push(x)
        } else {
            leads(s)
        }),
{
    reveal(Seq::filter);
    assert(s.push(x).drop_last() =~= s);
}

proof fn lemma_with_role_push(s: Seq<Crew>, x: Crew, r: CrewRole)
    ensures
        with_role(s.push(x), r) == (if has_role(x, r) {
            with_role(s, r).push(x)
        } else {
            with_role(s, r)
        }),
{
    reveal(Seq::filter);
    assert(s.push(x).drop_last() =~= s);
}

proof fn lemma_empty_filters(cast: Seq<Cast>, crew: Seq<Crew>, r: CrewRole)
    requires
        cast.len() == 0,
        crew.len() == 0,
    ensures
        leads(cast) == Seq::<Cast>::empty(),
        with_role(crew, r) == Seq::<Crew>::empty(),
{
    reveal(Seq::filter);
}

fn plays_lead(c: &Cast) -> (r: bool)
    ensures
        r == lead(*c),
{
    c.order < 10
}

fn crew_has_role(c: &Crew, r: CrewRole) -> (b: bool)
    ensures
        b == has_role(*c, r),
{
    match r {
        CrewRole::Director => same_text(c.job.as_str(), "Director"),
        CrewRole::Writer => same_text(c.job.as_str(), "Writer") || same_text(
            c.department.as_str(),
            "Writing",
        ),
        CrewRole::Producer => contains_text(c.job.as_str(), "Producer") || same_text(
            c.department.as_str(),
            "Production",
        ),
    }
}

/// The lines of the first five leading roles.
fn lead_lines(cast: &Vec<Cast>) -> (r: String)
    ensures
        r@ == role_lines(first_n(leads(cast@), 5)),
{
    let mut out = String::new();
    let mut taken: usize = 0;
    let mut i: usize = 0;
    proof {
        lemma_empty_filters(cast@.subrange(0, 0), Seq::<Crew>::empty(), CrewRole::Director);
    }
    while i < cast.len()
        invariant
            i <= cast@.len(),
            taken <= 5,
            taken == first_n(leads(cast@.subrange(0, i as int)), 5).len(),
            out@ == role_lines(first_n(leads(cast@.subrange(0, i as int)), 5)),
        decreases cast@.len() - i,
    {
        let ghost before = cast@.subrange(0, i as int);
        let c = &cast[i];
        assert(cast@.subrange(0, i + 1) =~= before.push(*c));
        proof {
            lemma_leads_push(before, *c);
            lemma_first_n_push(leads(before), *c, 5);
        }
        if plays_lead(c) && taken < 5 {
            let ghost prev = first_n(leads(before), 5);
            out.append("• <b>");
            out.append(escape_html(c.name.as_str()).as_str());
            out.append("</b> - ");
            out.append(escape_html(c.character.as_str()).as_str());
            out.append("\n");
            assert(prev.push(*c).drop_last() =~= prev);
            assert(out@ =~= role_lines(prev.push(*c)));
            taken += 1;
        }
        i += 1;
    }
    assert(cast@.subrange(0, i as int) =~= cast@);
    out
}

/// The bullets of the first `n` of the crew in role `r`, and how many of the
/// crew have that role.
fn role_bullets(crew: &Vec<Crew>, r: CrewRole, n: usize) -> (res: (String, usize))
    ensures
        res.0@ == bullets(first_n(with_role(crew@, r), n as nat)),
        res.1 == with_role(crew@, r).len(),
{
    let mut out = String::new();
    let mut count: usize = 0;
    let mut i: usize = 0;
    proof {
        lemma_empty_filters(Seq::<Cast>::empty(), crew@.subrange(0, 0), r);
    }
    while i < crew.len()
        invariant
            i <= crew@.len(),
            count == with_role(crew@.subrange(0, i as int), r).len(),
            count <= i,
            out@ == bullets(first_n(with_role(crew@.subrange(0, i as int), r), n as nat)),
        decreases crew@.len() - i,
    {
        let ghost before = crew@.subrange(0, i as int);
        let c = &crew[i];
        assert(crew@.subrange(0, i + 1) =~= before.push(*c));
        proof {
            lemma_with_role_push(before, *c, r);
            lemma_first_n_push(with_role(before, r), *c, n as nat);
        }
        if crew_has_role(c, r) {
            if count < n {
                let ghost prev = first_n(with_role(before, r), n as nat);
                out.append("• ");
                out.append(escape_html(c.name.as_str()).as_str());
                out.append("\n");
                assert(prev.push(*c).drop_last() =~= prev);
                assert(out@ =~= bullets(prev.push(*c)));
            }
            count += 1;
        }
        i += 1;
    }
    assert(crew@.subrange(0, i as int) =~= crew@);
    (out, count)
}

fn push_head(out: &mut String, c: &FilmCredits)
    ensures
        final(out)@ == old(out)@ + head_text(*c),
{
    out.append("<b>Актерский состав и съемочная группа</b>\n");
    out.append("👥 <b>Актеров:</b> ");
    push_number(out, c.cast.len() as u64);
    out.append("\n");
    out.append("🎥 <b>Съемочной группы:</b> ");
    push_number(out, c.crew.len() as u64);
    out.append("\n");
    out.append("\n");
    assert(final(out)@ =~= old(out)@ + head_text(*c));
}

fn push_cast(out: &mut String, cast: &Vec<Cast>)
    ensures
        final(out)@ == old(out)@ + cast_text(cast@),
{
    if cast.len() > 0 {
        out.append("<b>🎭 Главные роли:</b>\n");
        out.append(lead_lines(cast).as_str());
        if cast.len() > 5 {
            out.append("<i>... и еще ");
            push_number(out, (cast.len() - 5) as u64);
            out.append(" актеров</i>\n");
        }
        out.append("\n");
    }
    assert(final(out)@ =~= old(out)@ + cast_text(cast@));
}

fn push_director(out: &mut String, crew: &Vec<Crew>)
    ensures
        final(out)@ == old(out)@ + director_text(crew@),
{
    let (director, n) = role_bullets(crew, CrewRole::Director, 1);
    if n > 0 {
        out.append("<b>🎬 Режиссер:</b>\n");
        out.append(director.as_str());
        out.append("\n");
    }
    assert(final(out)@ =~= old(out)@ + director_text(crew@));
}

fn push_writers(out: &mut String, crew: &Vec<Crew>)
    ensures
        final(out)@ == old(out)@ + writers_text(crew@),
{
    let (writers, n) = role_bullets(crew, CrewRole::Writer, 3);
    if n > 0 {
        out.append("<b>📝 Сценаристы:</b>\n");
        out.append(writers.as_str());
        out.append("\n");
    }
    assert(final(out)@ =~= old(out)@ + writers_text(crew@));
}

fn push_producers(out: &mut String, crew: &Vec<Crew>)
    ensures
        final(out)@ == old(out)@ + producers_text(crew@),
{
    let (producers, n) = role_bullets(crew, CrewRole::Producer, 2);
    if n > 0 {
        out.append("<b>💰 Продюсеры:</b>\n");
        out.append(producers.as_str());
        if n > 2 {
            out.append("<i>... и еще ");
            push_number(out, (n - 2) as u64);
            out.append(" продюсеров</i>\n");
        }
    }
    assert(final(out)@ =~= old(out)@ + producers_text(crew@));
}

impl FilmCredits {
    /// The credits as an HTML caption: the sizes of cast and crew, the
    /// leading roles, the director, the writers and the producers.
    pub fn caption(&self) -> (r: String)
        ensures
            r@ == credits_text(*self),
    {
        let mut out = String::new();
        push_head(&mut out, self);
        push_cast(&mut out, &self.cast);
        push_director(&mut out, &self.crew);
        push_writers(&mut out, &self.crew);
        push_producers(&mut out, &self.crew);
        assert(out@ =~= credits_text(*self));
        out
    }
}

/// A crew member as an HTML line: the name, then the job in parentheses, or
/// the department when the job is unknown.
pub open spec fn crew_text(c: Crew) -> Seq<char> {
    "<b>"@ + escaped(c.name@) + "</b>"@ + (if c.job@.len() > 0 {
        " ("@ + escaped(c.job@) + ")"@
    } else if c.department@.len() > 0 {
        " ("@ + escaped(c.department@) + ")"@
    } else {
        Seq::empty()
    })
}

impl Crew {
    /// This crew member as an HTML line.
    pub fn caption(&self) -> (r: String)
        ensures
            r@ == crew_text(*self),
    {
        let mut out = String::new();
        out.append("<b>");
        out.append(escape_html(self.name.as_str()).as_str());
        out.append("</b>");
        if self.job.as_str().unicode_len() > 0 {
            out.append(" (");
            out.append(escape_html(self.job.as_str()).as_str());
            out.append(")");
        } else if self.department.as_str().unicode_len() > 0 {
            out.append(" (");
            out.append(escape_html(self.department.as_str()).as_str());
            out.append(")");
        }
        assert(out@ =~= crew_text(*self));
        out
    }
}

} // verus!
