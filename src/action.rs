//! Button presses and the payloads that buttons carry: a lossless,
//! unambiguous text encoding of every press, and its decoding.

use vstd::prelude::*;

use crate::decimal::{
    i64_of, int_text, lemma_int_canonical, lemma_int_round_trip, lemma_nat_text,
    lemma_canonical_text, nat_text, parse_i64, parse_u8, push_i64, push_u64, u8_of,
};
use crate::text::{
    chars_of, find_char, first_index, lemma_first_index, lemma_first_index_found, string_of,
};

verus! {

/// The two content categories that the bot tracks.
#[derive(Clone, Copy, Debug, PartialEq, Eq, Structural)]
pub enum Kind {
    Film,
    Series,
}

/// Which neighbour of the current page a navigation button leads to.
#[derive(Clone, Copy, Debug, PartialEq, Eq, Structural)]
pub enum Direction {
    Next,
    Prev,
}

/// What a button about one film or series asks for.
#[derive(Clone, Copy, Debug, PartialEq, Eq, Structural)]
pub enum ItemVerb {
    Details,
    Credits,
    Add,
    Watched,
    Unwatched,
    Rate,
    Delete,
}

/// Why a button payload could not be read back.
#[derive(Clone, Copy, Debug, PartialEq, Eq, Structural)]
pub enum DecodeError {
    /// The tag is not one of ours, or a separator is missing.
    UnknownAction,
    /// A numeric field is not a canonical number of its type.
    MalformedField,
}

/// Every button press the bot understands.
#[derive(Clone, Debug, PartialEq, Eq)]
pub enum MyCallback {
    Cancel,
    ShowDetails { kind: Kind, id: i64 },
    ShowCredits { kind: Kind, id: i64 },
    AddToWatchlist { kind: Kind, id: i64 },
    MarkWatched { kind: Kind, id: i64 },
    MarkUnwatched { kind: Kind, id: i64 },
    RequestRating { kind: Kind, id: i64 },
    DeleteFromWatchlist { kind: Kind, id: i64 },
    SearchPage { kind: Kind, direction: Direction, query: String, page: u8 },
}

/// The mathematical content of a button press.
pub enum CallbackView {
    Cancel,
    Item { verb: ItemVerb, kind: Kind, id: i64 },
    Search { kind: Kind, direction: Direction, query: Seq<char>, page: u8 },
}

impl View for MyCallback {
    type V = CallbackView;

    open spec fn view(&self) -> CallbackView {
        match self {
            MyCallback::Cancel => CallbackView::Cancel,
            MyCallback::ShowDetails { kind, id } => CallbackView::Item {
                verb: ItemVerb::Details,
                kind: *kind,
                id: *id,
            },
            MyCallback::ShowCredits { kind, id } => CallbackView::Item {
                verb: ItemVerb::Credits,
                kind: *kind,
                id: *id,
            },
            MyCallback::AddToWatchlist { kind, id } => CallbackView::Item {
                verb: ItemVerb::Add,
                kind: *kind,
                id: *id,
            },
            MyCallback::MarkWatched { kind, id } => CallbackView::Item {
                verb: ItemVerb::Watched,
                kind: *kind,
                id: *id,
            },
            MyCallback::MarkUnwatched { kind, id } => CallbackView::Item {
                verb: ItemVerb::Unwatched,
                kind: *kind,
                id: *id,
            },
            MyCallback::RequestRating { kind, id } => CallbackView::Item {
                verb: ItemVerb::Rate,
                kind: *kind,
                id: *id,
            },
            MyCallback::DeleteFromWatchlist { kind, id } => CallbackView::Item {
                verb: ItemVerb::Delete,
                kind: *kind,
                id: *id,
            },
            MyCallback::SearchPage { kind, direction, query, page } => CallbackView::Search {
                kind: *kind,
                direction: *direction,
                query: query@,
                page: *page,
            },
        }
    }
}

/// The separator between the fields of a payload.
pub const SEPARATOR: char = ':';

/// The payload of the cancel button, which has no fields.
pub open spec fn cancel_text() -> Seq<char> {
    seq!['c', 'a', 'n', 'c', 'e', 'l']
}

pub open spec fn kind_code(k: Kind) -> char {
    match k {
        Kind::Film => 'f',
        Kind::Series => 's',
    }
}

pub open spec fn verb_code(v: ItemVerb) -> char {
    match v {
        ItemVerb::Details => 'i',
        ItemVerb::Credits => 'c',
        ItemVerb::Add => 'a',
        ItemVerb::Watched => 'w',
        ItemVerb::Unwatched => 'u',
        ItemVerb::Rate => 'r',
        ItemVerb::Delete => 'd',
    }
}

pub open spec fn direction_code(d: Direction) -> char {
    match d {
        Direction::Next => 'n',
        Direction::Prev => 'p',
    }
}

pub open spec fn kind_of_code(c: char) -> Option<Kind> {
    if c == 'f' {
        Some(Kind::Film)
    } else if c == 's' {
        Some(Kind::Series)
    } else {
        None
    }
}

pub open spec fn verb_of_code(c: char) -> Option<ItemVerb> {
    if c == 'i' {
        Some(ItemVerb::Details)
    } else if c == 'c' {
        Some(ItemVerb::Credits)
    } else if c == 'a' {
        Some(ItemVerb::Add)
    } else if c == 'w' {
        Some(ItemVerb::Watched)
    } else if c == 'u' {
        Some(ItemVerb::Unwatched)
    } else if c == 'r' {
        Some(ItemVerb::Rate)
    } else if c == 'd' {
        Some(ItemVerb::Delete)
    } else {
        None
    }
}

pub open spec fn direction_of_code(c: char) -> Option<Direction> {
    if c == 'n' {
        Some(Direction::Next)
    } else if c == 'p' {
        Some(Direction::Prev)
    } else {
        None
    }
}

/// The payload of a button: a two-letter tag (kind, then what is asked), the
/// separator, then the fields. A page request puts its page number first, so
/// that its query, which is the rest of the payload, may hold separators.
pub open spec fn encoding(a: CallbackView) -> Seq<char> {
    match a {
        CallbackView::Cancel => cancel_text(),
        CallbackView::Item { verb, kind, id } => seq![kind_code(kind), verb_code(verb), ':']
            + int_text(id as int),
        CallbackView::Search { kind, direction, query, page } => seq![
            kind_code(kind),
            direction_code(direction),
            ':',
        ] + nat_text(page as nat) + seq![':'] + query,
    }
}

/// What a payload decodes to: the cancel literal; or a tag of two letters and
/// a separator, then for an item its id, and for a page request the page
/// number, a separator and the query, which runs to the end. An unknown tag
/// or a wrong number of fields is an unknown action; a field that is not a
/// canonical number of its type is a malformed one.
pub open spec fn decoded(s: Seq<char>) -> Result<CallbackView, DecodeError> {
    if s == cancel_text() {
        Ok(CallbackView::Cancel)
    } else if s.len() < 3 || s[2] != ':' {
        Err(DecodeError::UnknownAction)
    } else {
        let rest = s.subrange(3, s.len() as int);
        match kind_of_code(s[0]) {
            None => Err(DecodeError::UnknownAction),
            Some(kind) => match verb_of_code(s[1]) {
                Some(verb) => if first_index(rest, ':') < rest.len() {
                    Err(DecodeError::UnknownAction)
                } else {
                    match i64_of(rest) {
                        Some(id) => Ok(CallbackView::Item { verb, kind, id }),
                        None => Err(DecodeError::MalformedField),
                    }
                },
                None => match direction_of_code(s[1]) {
                    None => Err(DecodeError::UnknownAction),
                    Some(direction) => {
                        let j = first_index(rest, ':');
                        if j == rest.len() {
                            Err(DecodeError::UnknownAction)
                        } else {
                            match u8_of(rest.subrange(0, j)) {
                                Some(page) => Ok(
                                    CallbackView::Search {
                                        kind,
                                        direction,
                                        query: rest.subrange(j + 1, rest.len() as int),
                                        page,
                                    },
                                ),
                                None => Err(DecodeError::MalformedField),
                            }
                        }
                    },
                },
            },
        }
    }
}

fn kind_char(k: Kind) -> (c: char)
    ensures
        c == kind_code(k),
{
    match k {
        Kind::Film => 'f',
        Kind::Series => 's',
    }
}

fn verb_char(v: ItemVerb) -> (c: char)
    ensures
        c == verb_code(v),
{
    match v {
        ItemVerb::Details => 'i',
        ItemVerb::Credits => 'c',
        ItemVerb::Add => 'a',
        ItemVerb::Watched => 'w',
        ItemVerb::Unwatched => 'u',
        ItemVerb::Rate => 'r',
        ItemVerb::Delete => 'd',
    }
}

fn direction_char(d: Direction) -> (c: char)
    ensures
        c == direction_code(d),
{
    match d {
        Direction::Next => 'n',
        Direction::Prev => 'p',
    }
}

fn kind_from_char(c: char) -> (r: Option<Kind>)
    ensures
        r == kind_of_code(c),
{
    if c == 'f' {
        Some(Kind::Film)
    } else if c == 's' {
        Some(Kind::Series)
    } else {
        None
    }
}

fn verb_from_char(c: char) -> (r: Option<ItemVerb>)
    ensures
        r == verb_of_code(c),
{
    if c == 'i' {
        Some(ItemVerb::Details)
    } else if c == 'c' {
        Some(ItemVerb::Credits)
    } else if c == 'a' {
        Some(ItemVerb::Add)
    } else if c == 'w' {
        Some(ItemVerb::Watched)
    } else if c == 'u' {
        Some(ItemVerb::Unwatched)
    } else if c == 'r' {
        Some(ItemVerb::Rate)
    } else if c == 'd' {
        Some(ItemVerb::Delete)
    } else {
        None
    }
}

fn direction_from_char(c: char) -> (r: Option<Direction>)
    ensures
        r == direction_of_code(c),
{
    if c == 'n' {
        Some(Direction::Next)
    } else if c == 'p' {
        Some(Direction::Prev)
    } else {
        None
    }
}

/// The button for item action `verb` on item `id` of kind `kind`.
pub fn item_callback(verb: ItemVerb, kind: Kind, id: i64) -> (r: MyCallback)
    ensures
        r@ == (CallbackView::Item { verb, kind, id }),
{
    match verb {
        ItemVerb::Details => MyCallback::ShowDetails { kind, id },
        ItemVerb::Credits => MyCallback::ShowCredits { kind, id },
        ItemVerb::Add => MyCallback::AddToWatchlist { kind, id },
        ItemVerb::Watched => MyCallback::MarkWatched { kind, id },
        ItemVerb::Unwatched => MyCallback::MarkUnwatched { kind, id },
        ItemVerb::Rate => MyCallback::RequestRating { kind, id },
        ItemVerb::Delete => MyCallback::DeleteFromWatchlist { kind, id },
    }
}

fn push_item(out: &mut Vec<char>, verb: ItemVerb, kind: Kind, id: i64)
    ensures
        final(out)@ == old(out)@ + encoding(CallbackView::Item { verb, kind, id }),
{
    out.push(kind_char(kind));
    out.push(verb_char(verb));
    out.push(SEPARATOR);
    push_i64(out, id);
    assert(final(out)@ =~= old(out)@ + encoding(CallbackView::Item { verb, kind, id }));
}

impl MyCallback {
    /// The payload that a button carries for this press.
    pub fn encode(&self) -> (r: String)
        ensures
            r@ == encoding(self@),
    {
        let mut out: Vec<char> = Vec::new();
        match self {
            MyCallback::Cancel => {
                out.push('c');
                out.push('a');
                out.push('n');
                out.push('c');
                out.push('e');
                out.push('l');
                assert(out@ =~= cancel_text());
            },
            MyCallback::ShowDetails { kind, id } => push_item(&mut out, ItemVerb::Details, *kind, *id),
            MyCallback::ShowCredits { kind, id } => push_item(&mut out, ItemVerb::Credits, *kind, *id),
            MyCallback::AddToWatchlist { kind, id } => push_item(&mut out, ItemVerb::Add, *kind, *id),
            MyCallback::MarkWatched { kind, id } => push_item(&mut out, ItemVerb::Watched, *kind, *id),
            MyCallback::MarkUnwatched { kind, id } => push_item(&mut out, ItemVerb::Unwatched, *kind, *id),
            MyCallback::RequestRating { kind, id } => push_item(&mut out, ItemVerb::Rate, *kind, *id),
            MyCallback::DeleteFromWatchlist { kind, id } => push_item(&mut out, ItemVerb::Delete, *kind, *id),
            MyCallback::SearchPage { kind, direction, query, page } => {
                out.push(kind_char(*kind));
                out.push(direction_char(*direction));
                out.push(SEPARATOR);
                push_u64(&mut out, *page as u64);
                out.push(SEPARATOR);
                let q = chars_of(query.as_str());
                let ghost before = out@;
                let mut i: usize = 0;
                while i < q.len()
                    invariant
                        i <= q@.len(),
                        out@ == before + q@.subrange(0, i as int),
                    decreases q@.len() - i,
                {
                    out.push(q[i]);
                    i += 1;
                    assert(out@ =~= before + q@.subrange(0, i as int));
                }
                assert(q@.subrange(0, i as int) =~= q@);
                assert(out@ =~= encoding(self@));
            },
        }
        string_of(out.as_slice())
    }

    /// Reads a payload back into the press it was made for.
    pub fn decode(s: &str) -> (r: Result<MyCallback, DecodeError>)
        ensures
            r matches Ok(a) ==> decoded(s@) == Ok::<CallbackView, DecodeError>(a@),
            r matches Err(e) ==> decoded(s@) == Err::<CallbackView, DecodeError>(e),
    {
        let t = chars_of(s);
        let n = t.len();
        if n == 6 && t[0] == 'c' && t[1] == 'a' && t[2] == 'n' && t[3] == 'c' && t[4] == 'e' && t[5]
            == 'l' {
            assert(t@ =~= cancel_text());
            return Ok(MyCallback::Cancel);
        }
        assert(t@ != cancel_text() || n != 6);
        if n < 3 || t[2] != SEPARATOR {
            return Err(DecodeError::UnknownAction);
        }
        assert(s@ != cancel_text()) by {
            if s@ == cancel_text() {
                assert(s@[2] == 'n');
            }
        }
        let ghost rest = t@.subrange(3, n as int);
        let kind = match kind_from_char(t[0]) {
            Some(k) => k,
            None => return Err(DecodeError::UnknownAction),
        };
        match verb_from_char(t[1]) {
            Some(verb) => {
                if find_char(&t, 3, n, SEPARATOR) < n - 3 {
                    return Err(DecodeError::UnknownAction);
                }
                return match parse_i64(&t, 3, n) {
                    Some(id) => Ok(item_callback(verb, kind, id)),
                    None => Err(DecodeError::MalformedField),
                };
            },
            None => {},
        }
        let direction = match direction_from_char(t[1]) {
            Some(d) => d,
            None => return Err(DecodeError::UnknownAction),
        };
        let j = find_char(&t, 3, n, SEPARATOR);
        if j == n - 3 {
            return Err(DecodeError::UnknownAction);
        }
        assert(rest.subrange(0, j as int) =~= t@.subrange(3, 3 + j));
        let page = match parse_u8(&t, 3, 3 + j) {
            Some(p) => p,
            None => return Err(DecodeError::MalformedField),
        };
        let query = string_of(&t.as_slice()[3 + j + 1..n]);
        assert(query@ =~= rest.subrange(j + 1, rest.len() as int));
        Ok(MyCallback::SearchPage { kind, direction, query, page })
    }
}

/// The text shown on the button of a press.
pub open spec fn button_text(a: CallbackView) -> Seq<char> {
    match a {
        CallbackView::Cancel => "🔙 Вернуться в меню"@,
        CallbackView::Search { direction: Direction::Next, .. } => "⏭️ Дальше"@,
        CallbackView::Search { direction: Direction::Prev, .. } => "⏮️ Назад"@,
        CallbackView::Item { verb, .. } => match verb {
            ItemVerb::Details => "🕵️ Подробнее"@,
            ItemVerb::Add => "🤔 Буду смотреть"@,
            ItemVerb::Credits => "⚙️ Титры"@,
            ItemVerb::Watched => "✅ Отметить просмотренным"@,
            ItemVerb::Rate => "🧮 Поставить оценку"@,
            ItemVerb::Unwatched => "👁️  Отметить непросмотренным"@,
            ItemVerb::Delete => "🗑️ Удалить из списка"@,
        },
    }
}

impl MyCallback {
    /// The text shown on this press's button.
    pub fn caption(&self) -> (r: &'static str)
        ensures
            r@ == button_text(self@),
    {
        match self {
            MyCallback::Cancel => "🔙 Вернуться в меню",
            MyCallback::SearchPage { direction: Direction::Next, .. } => "⏭️ Дальше",
            MyCallback::SearchPage { .. } => "⏮️ Назад",
            MyCallback::ShowDetails { .. } => "🕵️ Подробнее",
            MyCallback::AddToWatchlist { .. } => "🤔 Буду смотреть",
            MyCallback::ShowCredits { .. } => "⚙️ Титры",
            MyCallback::MarkWatched { .. } => "✅ Отметить просмотренным",
            MyCallback::RequestRating { .. } => "🧮 Поставить оценку",
            MyCallback::MarkUnwatched { .. } => "👁️  Отметить непросмотренным",
            MyCallback::DeleteFromWatchlist { .. } => "🗑️ Удалить из списка",
        }
    }
}

/// The largest payload, in bytes, that the platform keeps on a button.
pub const MAX_PAYLOAD_BYTES: u64 = 64;

/// The number of bytes `c` takes in UTF-8.
pub open spec fn char_bytes(c: char) -> nat {
    let u = c as u32;
    if u < 0x80 {
        1
    } else if u < 0x800 {
        2
    } else if u < 0x10000 {
        3
    } else {
        4
    }
}

/// The number of bytes `s` takes in UTF-8.
pub open spec fn utf8_len(s: Seq<char>) -> nat
    decreases s.len(),
{
    if s.len() == 0 {
        0
    } else {
        utf8_len(s.drop_last()) + char_bytes(s.last())
    }
}

proof fn lemma_utf8_len_prefix(s: Seq<char>, k: int)
    requires
        0 <= k <= s.len(),
    ensures
        utf8_len(s.subrange(0, k)) <= utf8_len(s),
    decreases s.len() - k,
{
    if k < s.len() {
        lemma_utf8_len_prefix(s, k + 1);
        assert(s.subrange(0, k + 1).drop_last() =~= s.subrange(0, k));
    } else {
        assert(s.subrange(0, k) =~= s);
    }
}

/// Whether a payload is short enough for a button.
pub fn payload_fits(payload: &str) -> (r: bool)
    ensures
        r == (utf8_len(payload@) <= MAX_PAYLOAD_BYTES),
{
    let t = chars_of(payload);
    let mut total: u64 = 0;
    let mut i: usize = 0;
    while i < t.len()
        invariant
            i <= t@.len(),
            t@ == payload@,
            total == utf8_len(t@.subrange(0, i as int)),
            total <= MAX_PAYLOAD_BYTES,
        decreases t@.len() - i,
    {
        let u = t[i] as u32;
        assert(u == t@[i as int] as u32);
        let w: u64 = if u < 0x80 {
            1
        } else if u < 0x800 {
            2
        } else if u < 0x10000 {
            3
        } else {
            4
        };
        let ghost c = t@[i as int];
        assert(t@.subrange(0, i + 1).drop_last() =~= t@.subrange(0, i as int));
        assert(t@.subrange(0, i + 1).last() == c);
        assert(w == char_bytes(c));
        total = total + w;
        i += 1;
        if total > MAX_PAYLOAD_BYTES {
            proof {
                assert(total == utf8_len(t@.subrange(0, i as int)));
                lemma_utf8_len_prefix(t@, i as int);
            }
            return false;
        }
    }
    assert(t@.subrange(0, i as int) =~= t@);
    true
}

/// Every press reads back from its payload as itself.
pub proof fn lemma_round_trip(a: CallbackView)
    ensures
        decoded(encoding(a)) == Ok::<CallbackView, DecodeError>(a),
{
    let s = encoding(a);
    match a {
        CallbackView::Cancel => {},
        CallbackView::Item { verb, kind, id } => {
            assert(s[2] == ':');
            assert(s != cancel_text()) by {
                if s == cancel_text() {
                    assert(cancel_text()[2] == 'n');
                }
            }
            let rest = s.subrange(3, s.len() as int);
            assert(rest =~= int_text(id as int));
            lemma_int_round_trip(id as int);
            let digits = nat_text(if id < 0 { (-id) as nat } else { id as nat });
            lemma_nat_text(if id < 0 { (-id) as nat } else { id as nat });
            assert forall|k: int| 0 <= k < rest.len() implies rest[k] != ':' by {
                if id < 0 {
                    if k > 0 {
                        assert(rest[k] == digits[k - 1]);
                    }
                } else {
                    assert(rest[k] == digits[k]);
                }
            }
            lemma_first_index(rest, ':', rest.len() as int);
        },
        CallbackView::Search { kind, direction, query, page } => {
            assert(s[2] == ':');
            assert(s != cancel_text()) by {
                if s == cancel_text() {
                    assert(cancel_text()[2] == 'n');
                }
            }
            let digits = nat_text(page as nat);
            lemma_nat_text(page as nat);
            let rest = s.subrange(3, s.len() as int);
            assert(rest =~= digits + seq![':'] + query);
            let jj = digits.len() as int;
            assert forall|k: int| 0 <= k < jj implies rest[k] != ':' by {
                assert(rest[k] == digits[k]);
            }
            lemma_first_index(rest, ':', jj);
            assert(rest.subrange(0, jj) =~= digits);
            assert(rest.subrange(jj + 1, rest.len() as int) =~= query);
        },
    }
}

/// A payload that decodes at all is exactly the payload of what it decodes to.
pub proof fn lemma_decoded_is_encoding(s: Seq<char>)
    requires
        decoded(s) is Ok,
    ensures
        encoding(decoded(s)->Ok_0) == s,
{
    let a = decoded(s)->Ok_0;
    if s == cancel_text() {
    } else {
        let rest = s.subrange(3, s.len() as int);
        match a {
            CallbackView::Cancel => {},
            CallbackView::Item { verb, kind, id } => {
                lemma_int_canonical(rest);
                assert(encoding(a) =~= s);
            },
            CallbackView::Search { kind, direction, query, page } => {
                let j = first_index(rest, ':');
                lemma_first_index_found(rest, ':');
                lemma_canonical_text(rest.subrange(0, j));
                assert(rest =~= rest.subrange(0, j) + seq![':'] + query);
                assert(encoding(a) =~= s);
            },
        }
    }
}

/// No two presses share a payload.
pub proof fn lemma_encoding_injective(a: CallbackView, b: CallbackView)
    requires
        encoding(a) == encoding(b),
    ensures
        a == b,
{
    lemma_round_trip(a);
    lemma_round_trip(b);
}

/// A text that is no press's payload is refused.
pub proof fn lemma_malformed_refused(s: Seq<char>)
    requires
        forall|a: CallbackView| encoding(a) != s,
    ensures
        decoded(s) is Err,
{
    if decoded(s) is Ok {
        lemma_decoded_is_encoding(s);
        assert(encoding(decoded(s)->Ok_0) == s);
    }
}

} // verus!
