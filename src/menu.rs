//! The captions of the reply keyboard and the slash-commands.

use vstd::prelude::*;

use crate::action::Kind;
use crate::text::{before, chars_of, find_char, first_index};

verus! {

/// The fixed captions of the reply keyboard.
#[derive(Clone, Copy, Debug, PartialEq, Eq, Structural)]
pub enum TextCommand {
    ToWatchFilms,
    ToWatchSeries,
    SearchFilm,
    SearchSeries,
    WatchedFilms,
    WatchedSeries,
}

/// The slash-commands of the bot.
#[derive(Clone, Copy, Debug, PartialEq, Eq, Structural)]
pub enum Command {
    /// Lists the commands.
    Help,
    /// Resets the conversation and shows the main menu.
    Start,
    /// Aborts the current conversation.
    Cancel,
}

pub open spec fn label_text(c: TextCommand) -> Seq<char> {
    match c {
        TextCommand::ToWatchFilms => "🤔 Что посмотреть?"@,
        TextCommand::ToWatchSeries => "🤔 Какой сериал посмотреть?"@,
        TextCommand::SearchFilm => "🔎 Найти фильм"@,
        TextCommand::SearchSeries => "🔎 Найти сериал"@,
        TextCommand::WatchedFilms => "💼 Просмотренные фильмы"@,
        TextCommand::WatchedSeries => "💼 Просмотренные сериалы"@,
    }
}

/// The content category a caption is about.
pub open spec fn command_kind(c: TextCommand) -> Kind {
    match c {
        TextCommand::ToWatchFilms | TextCommand::SearchFilm | TextCommand::WatchedFilms => Kind::Film,
        _ => Kind::Series,
    }
}

/// Two captions are never the same text.
pub proof fn lemma_labels_distinct(a: TextCommand, b: TextCommand)
    requires
        label_text(a) == label_text(b),
    ensures
        a == b,
{
    reveal_strlit("🤔 Что посмотреть?");
    reveal_strlit("🤔 Какой сериал посмотреть?");
    reveal_strlit("🔎 Найти фильм");
    reveal_strlit("🔎 Найти сериал");
    reveal_strlit("💼 Просмотренные фильмы");
    reveal_strlit("💼 Просмотренные сериалы");
    assert(label_text(TextCommand::ToWatchFilms).len() == 17);
    assert(label_text(TextCommand::ToWatchSeries).len() == 26);
    assert(label_text(TextCommand::SearchFilm).len() == 13);
    assert(label_text(TextCommand::SearchSeries).len() == 14);
    assert(label_text(TextCommand::WatchedFilms).len() == 22);
    assert(label_text(TextCommand::WatchedSeries).len() == 23);
}

impl TextCommand {
    /// The caption of this entry.
    pub fn label(&self) -> (r: &'static str)
        ensures
            r@ == label_text(*self),
    {
        match self {
            TextCommand::ToWatchFilms => "🤔 Что посмотреть?",
            TextCommand::ToWatchSeries => "🤔 Какой сериал посмотреть?",
            TextCommand::SearchFilm => "🔎 Найти фильм",
            TextCommand::SearchSeries => "🔎 Найти сериал",
            TextCommand::WatchedFilms => "💼 Просмотренные фильмы",
            TextCommand::WatchedSeries => "💼 Просмотренные сериалы",
        }
    }

    /// The entry whose caption is exactly `text`, if any.
    pub fn from_label(text: &str) -> (r: Option<TextCommand>)
        ensures
            r matches Some(c) ==> label_text(c) == text@,
            r is None ==> forall|c: TextCommand| label_text(c) != text@,
    {
        let t = text.to_owned();
        let all = [
            TextCommand::ToWatchFilms,
            TextCommand::ToWatchSeries,
            TextCommand::SearchFilm,
            TextCommand::SearchSeries,
            TextCommand::WatchedFilms,
            TextCommand::WatchedSeries,
        ];
        let mut i: usize = 0;
        while i < 6
            invariant
                all@ == seq![
                    TextCommand::ToWatchFilms,
                    TextCommand::ToWatchSeries,
                    TextCommand::SearchFilm,
                    TextCommand::SearchSeries,
                    TextCommand::WatchedFilms,
                    TextCommand::WatchedSeries,
                ],
                t@ == text@,
                0 <= i <= 6,
                forall|j: int| 0 <= j < i ==> label_text(#[trigger] all@[j]) != text@,
            decreases 6 - i,
        {
            let c = all[i];
            if t == c.label().to_owned() {
                return Some(c);
            }
            i += 1;
        }
        assert forall|c: TextCommand| label_text(c) != text@ by {
            match c {
                TextCommand::ToWatchFilms => assert(label_text(all@[0]) != text@),
                TextCommand::ToWatchSeries => assert(label_text(all@[1]) != text@),
                TextCommand::SearchFilm => assert(label_text(all@[2]) != text@),
                TextCommand::SearchSeries => assert(label_text(all@[3]) != text@),
                TextCommand::WatchedFilms => assert(label_text(all@[4]) != text@),
                TextCommand::WatchedSeries => assert(label_text(all@[5]) != text@),
            }
        }
        None
    }

    /// The rows of the reply keyboard: one full-width entry, "what to
    /// watch", which is the `ToWatchFilms` selection; then the two searches;
    /// then the two lists of watched items. `ToWatchSeries` has no key of its
    /// own: its caption is matched when typed.
    pub fn keyboard() -> (r: Vec<Vec<TextCommand>>)
        ensures
            r@.len() == 3,
            r@[0]@ == seq![TextCommand::ToWatchFilms],
            r@[1]@ == seq![TextCommand::SearchFilm, TextCommand::SearchSeries],
            r@[2]@ == seq![TextCommand::WatchedFilms, TextCommand::WatchedSeries],
    {
        let mut rows: Vec<Vec<TextCommand>> = Vec::new();
        rows.push(vec![TextCommand::ToWatchFilms]);
        rows.push(vec![TextCommand::SearchFilm, TextCommand::SearchSeries]);
        rows.push(vec![TextCommand::WatchedFilms, TextCommand::WatchedSeries]);
        rows
    }
}

/// Letters equal up to ASCII case.
pub open spec fn same_letter(a: char, b: char) -> bool {
    ||| a == b
    ||| ('A' <= a <= 'Z' && (a as u32) + 32 == (b as u32))
    ||| ('A' <= b <= 'Z' && (b as u32) + 32 == (a as u32))
}

/// Texts equal up to ASCII case.
pub open spec fn same_ignoring_case(s: Seq<char>, t: Seq<char>) -> bool {
    &&& s.len() == t.len()
    &&& forall|i: int| 0 <= i < s.len() ==> same_letter(#[trigger] s[i], t[i])
}

/// The command named by the word `name`, prefix included.
pub open spec fn command_named(name: Seq<char>) -> Option<Command> {
    if name == seq!['/', 'h', 'e', 'l', 'p'] {
        Some(Command::Help)
    } else if name == seq!['/', 's', 't', 'a', 'r', 't'] {
        Some(Command::Start)
    } else if name == seq!['/', 'c', 'a', 'n', 'c', 'e', 'l'] {
        Some(Command::Cancel)
    } else {
        None
    }
}

/// A command word may name the bot after an `@`; it is then for this bot only
/// when that name is the bot's own, up to ASCII case.
pub open spec fn addressed_to(word: Seq<char>, bot: Seq<char>) -> bool {
    let i = first_index(word, '@');
    i == word.len() || same_ignoring_case(before(word.subrange(i + 1, word.len() as int), '@'), bot)
}

/// The command that a message holds: its first word, up to a space, is a
/// command name, possibly followed by `@` and the bot's name. What follows the
/// first word is ignored.
pub open spec fn command_of(text: Seq<char>, bot: Seq<char>) -> Option<Command> {
    let word = before(text, ' ');
    if addressed_to(word, bot) {
        command_named(before(word, '@'))
    } else {
        None
    }
}

fn letters_match(a: char, b: char) -> (r: bool)
    ensures
        r == same_letter(a, b),
{
    let x = a as u32 as u64;
    let y = b as u32 as u64;
    a == b || ('A' <= a && a <= 'Z' && x + 32 == y) || ('A' <= b && b <= 'Z' && y + 32 == x)
}

/// Whether `t[lo..hi]` is `b` up to ASCII case.
fn matches_ignoring_case(t: &Vec<char>, lo: usize, hi: usize, b: &Vec<char>) -> (r: bool)
    requires
        lo <= hi <= t@.len(),
    ensures
        r == same_ignoring_case(t@.subrange(lo as int, hi as int), b@),
{
    let ghost s = t@.subrange(lo as int, hi as int);
    if hi - lo != b.len() {
        return false;
    }
    let mut i: usize = 0;
    while i < b.len()
        invariant
            lo <= hi <= t@.len(),
            hi - lo == b@.len(),
            s == t@.subrange(lo as int, hi as int),
            i <= b@.len(),
            forall|j: int| 0 <= j < i ==> same_letter(#[trigger] s[j], b@[j]),
        decreases b@.len() - i,
    {
        assert(s[i as int] == t@[lo + i]);
        if !letters_match(t[lo + i], b[i]) {
            return false;
        }
        i += 1;
    }
    true
}

/// Whether `t[0..hi]` is `word`.
fn is_word(t: &Vec<char>, hi: usize, word: &[char]) -> (r: bool)
    requires
        hi <= t@.len(),
    ensures
        r == (t@.subrange(0, hi as int) == word@),
{
    if hi != word.len() {
        return false;
    }
    let mut i: usize = 0;
    while i < hi
        invariant
            hi == word@.len() <= t@.len(),
            i <= hi,
            forall|k: int| 0 <= k < i ==> t@[k] == word@[k],
        decreases hi - i,
    {
        if t[i] != word[i] {
            assert(t@.subrange(0, hi as int)[i as int] != word@[i as int]);
            return false;
        }
        i += 1;
    }
    assert(t@.subrange(0, hi as int) =~= word@);
    true
}

/// The command named by `t[0..hi]`.
fn command_from(t: &Vec<char>, hi: usize) -> (r: Option<Command>)
    requires
        hi <= t@.len(),
    ensures
        r == command_named(t@.subrange(0, hi as int)),
{
    let help = ['/', 'h', 'e', 'l', 'p'];
    let start = ['/', 's', 't', 'a', 'r', 't'];
    let cancel = ['/', 'c', 'a', 'n', 'c', 'e', 'l'];
    assert(help@ =~= seq!['/', 'h', 'e', 'l', 'p']);
    assert(start@ =~= seq!['/', 's', 't', 'a', 'r', 't']);
    assert(cancel@ =~= seq!['/', 'c', 'a', 'n', 'c', 'e', 'l']);
    if is_word(t, hi, &help) {
        Some(Command::Help)
    } else if is_word(t, hi, &start) {
        Some(Command::Start)
    } else if is_word(t, hi, &cancel) {
        Some(Command::Cancel)
    } else {
        None
    }
}

impl Command {
    /// The command that `text` holds, for the bot named `bot_name`.
    pub fn parse(text: &str, bot_name: &str) -> (r: Option<Command>)
        ensures
            r == command_of(text@, bot_name@),
    {
        let t = chars_of(text);
        let b = chars_of(bot_name);
        let n = t.len();
        let wl = find_char(&t, 0, n, ' ');
        let ghost word = t@.subrange(0, wl as int);
        assert(t@.subrange(0, n as int) =~= t@);
        assert(before(text@, ' ') == word);
        let at = find_char(&t, 0, wl, '@');
        assert(before(word, '@') =~= t@.subrange(0, at as int));
        if at < wl {
            let ul = find_char(&t, at + 1, wl, '@');
            assert(word.subrange(at + 1, word.len() as int) =~= t@.subrange(at + 1, wl as int));
            assert(before(t@.subrange(at + 1, wl as int), '@') =~= t@.subrange(
                at + 1,
                at + 1 + ul,
            ));
            if !matches_ignoring_case(&t, at + 1, at + 1 + ul, &b) {
                return None;
            }
        }
        command_from(&t, at)
    }
}

} // verus!
