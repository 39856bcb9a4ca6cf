//! Ratings as users type them: decimal numbers with a point or a comma.

use vstd::prelude::*;

use crate::decimal::{all_digits, is_digit, value_of_digit};
use crate::text::{chars_of, find_char, first_index, push_chars};

verus! {

/// A rating as the user wrote it: a sign, the digits before and after the
/// decimal point, and an exponent of ten with its own sign (no digits: none).
#[derive(Clone, Debug, PartialEq, Eq)]
pub struct Rating {
    pub negative: bool,
    pub whole: Vec<char>,
    pub fraction: Vec<char>,
    pub exponent_negative: bool,
    pub exponent: Vec<char>,
}

/// The content of a `Rating`.
pub struct RatingView {
    pub negative: bool,
    pub whole: Seq<char>,
    pub fraction: Seq<char>,
    pub exponent_negative: bool,
    pub exponent: Seq<char>,
}

impl View for Rating {
    type V = RatingView;

    open spec fn view(&self) -> RatingView {
        RatingView {
            negative: self.negative,
            whole: self.whole@,
            fraction: self.fraction@,
            exponent_negative: self.exponent_negative,
            exponent: self.exponent@,
        }
    }
}

/// White space as Unicode defines it, the characters that
/// `char::is_whitespace` accepts.
#[verifier::opaque]
pub open spec fn is_space(c: char) -> bool {
    let u = c as u32;
    ||| 0x09 <= u <= 0x0d
    ||| u == 0x20
    ||| u == 0x85
    ||| u == 0xa0
    ||| u == 0x1680
    ||| 0x2000 <= u <= 0x200a
    ||| u == 0x2028
    ||| u == 0x2029
    ||| u == 0x202f
    ||| u == 0x205f
    ||| u == 0x3000
}

pub open spec fn trim_start(s: Seq<char>) -> Seq<char>
    decreases s.len(),
{
    if s.len() > 0 && is_space(s[0]) {
        trim_start(s.drop_first())
    } else {
        s
    }
}

pub open spec fn trim_end(s: Seq<char>) -> Seq<char>
    decreases s.len(),
{
    if s.len() > 0 && is_space(s.last()) {
        trim_end(s.drop_last())
    } else {
        s
    }
}

/// `s` with every decimal comma written as a point.
pub open spec fn comma_to_point(s: Seq<char>) -> Seq<char> {
    s.map_values(|c: char| if c == ',' { '.' } else { c })
}

/// The text of a reply as it is read for a number: decimal commas as points,
/// without the spaces around it.
pub open spec fn rating_text(s: Seq<char>) -> Seq<char> {
    trim_end(trim_start(comma_to_point(s)))
}

/// An optional leading sign, and what follows it.
pub open spec fn signed(s: Seq<char>) -> (bool, Seq<char>) {
    if s.len() > 0 && (s[0] == '+' || s[0] == '-') {
        (s[0] == '-', s.drop_first())
    } else {
        (false, s)
    }
}

pub open spec fn is_exponent_mark(c: char) -> bool {
    c == 'e' || c == 'E'
}

/// `i` is the position of the first exponent mark in `s`.
pub open spec fn mark_at(s: Seq<char>, i: int) -> bool {
    &&& 0 <= i < s.len()
    &&& is_exponent_mark(s[i])
    &&& forall|j: int| 0 <= j < i ==> !is_exponent_mark(s[j])
}

/// The position of the first exponent mark in `s`, or its length.
pub open spec fn mark_index(s: Seq<char>) -> int {
    if exists|i: int| mark_at(s, i) {
        choose|i: int| mark_at(s, i)
    } else {
        s.len() as int
    }
}

/// A decimal number as a float parse reads one: an optional sign; digits with
/// at most one point among them, at least one digit in all; and optionally
/// `e` or `E`, an optional sign and at least one digit. The words for
/// infinity and for "not a number" name no number and are refused.
pub open spec fn number_of(t: Seq<char>) -> Option<RatingView> {
    let negative = signed(t).0;
    let body = signed(t).1;
    let e = mark_index(body);
    let mantissa = body.subrange(0, e);
    let p = first_index(mantissa, '.');
    let whole = mantissa.subrange(0, p);
    let fraction = if p < mantissa.len() {
        mantissa.subrange(p + 1, mantissa.len() as int)
    } else {
        Seq::<char>::empty()
    };
    let has_exponent = e < body.len();
    let exponent_part = if has_exponent {
        signed(body.subrange(e + 1, body.len() as int))
    } else {
        (false, Seq::<char>::empty())
    };
    if all_digits(whole) && all_digits(fraction) && whole.len() + fraction.len() >= 1 && all_digits(
        exponent_part.1,
    ) && (has_exponent ==> exponent_part.1.len() >= 1) {
        Some(
            RatingView {
                negative,
                whole,
                fraction,
                exponent_negative: exponent_part.0,
                exponent: exponent_part.1,
            },
        )
    } else {
        None
    }
}

/// The rating that a reply holds, if it holds one.
pub open spec fn rating_of(s: Seq<char>) -> Option<RatingView> {
    number_of(rating_text(s))
}

/// A rating written back as a number: sign, digits, point, digits, and the
/// exponent when there is one.
pub open spec fn number_text(r: RatingView) -> Seq<char> {
    (if r.negative {
        seq!['-']
    } else {
        Seq::<char>::empty()
    }) + r.whole + seq!['.'] + r.fraction + (if r.exponent.len() > 0 {
        seq!['e'] + (if r.exponent_negative {
            seq!['-']
        } else {
            Seq::<char>::empty()
        }) + r.exponent
    } else {
        Seq::<char>::empty()
    })
}

proof fn lemma_trim_start(s: Seq<char>, i: int)
    requires
        0 <= i <= s.len(),
        forall|j: int| 0 <= j < i ==> is_space(#[trigger] s[j]),
        i == s.len() || !is_space(s[i]),
    ensures
        trim_start(s) == s.subrange(i, s.len() as int),
    decreases i,
{
    if i == 0 {
        assert(s.subrange(0, s.len() as int) =~= s);
    } else {
        let t = s.drop_first();
        assert(is_space(s[0]));
        assert forall|j: int| 0 <= j < i - 1 implies is_space(#[trigger] t[j]) by {
            assert(t[j] == s[j + 1]);
        }
        if i < s.len() {
            assert(t[i - 1] == s[i]);
        }
        lemma_trim_start(t, i - 1);
        assert(t.subrange(i - 1, t.len() as int) =~= s.subrange(i, s.len() as int));
    }
}

proof fn lemma_trim_end(s: Seq<char>, k: int)
    requires
        0 <= k <= s.len(),
        forall|j: int| k <= j < s.len() ==> is_space(#[trigger] s[j]),
        k == 0 || !is_space(s[k - 1]),
    ensures
        trim_end(s) == s.subrange(0, k),
    decreases s.len() - k,
{
    if k == s.len() {
        assert(s.subrange(0, k) =~= s);
    } else {
        let t = s.drop_last();
        assert(is_space(s.last()));
        assert forall|j: int| k <= j < t.len() implies is_space(#[trigger] t[j]) by {
            assert(t[j] == s[j]);
        }
        if k > 0 {
            assert(t[k - 1] == s[k - 1]);
        }
        lemma_trim_end(t, k);
        assert(t.subrange(0, k) =~= s.subrange(0, k));
    }
}

fn space(c: char) -> (r: bool)
    ensures
        r == is_space(c),
{
    reveal(is_space);
    let u = c as u32;
    (0x09 <= u && u <= 0x0d) || u == 0x20 || u == 0x85 || u == 0xa0 || u == 0x1680 || (0x2000 <= u
        && u <= 0x200a) || u == 0x2028 || u == 0x2029 || u == 0x202f || u == 0x205f || u == 0x3000
}

/// The text of a reply as it is read for a number.
fn normalized(text: &str) -> (r: Vec<char>)
    ensures
        r@ == rating_text(text@),
{
    let t = chars_of(text);
    let mut n: Vec<char> = Vec::new();
    let mut i: usize = 0;
    while i < t.len()
        invariant
            i <= t@.len(),
            n@ == comma_to_point(t@).subrange(0, i as int),
        decreases t@.len() - i,
    {
        let c = t[i];
        n.push(if c == ',' { '.' } else { c });
        i += 1;
        assert(n@ =~= comma_to_point(t@).subrange(0, i as int));
    }
    assert(n@ =~= comma_to_point(text@));
    let len = n.len();
    let mut lo: usize = 0;
    while lo < len && space(n[lo])
        invariant
            lo <= len == n@.len(),
            forall|j: int| 0 <= j < lo ==> is_space(#[trigger] n@[j]),
        decreases len - lo,
    {
        lo += 1;
    }
    proof {
        lemma_trim_start(n@, lo as int);
    }
    let ghost started = n@.subrange(lo as int, len as int);
    let mut hi: usize = len;
    while hi > lo && space(n[hi - 1])
        invariant
            lo <= hi <= len == n@.len(),
            started == n@.subrange(lo as int, len as int),
            forall|j: int| hi - lo <= j < started.len() ==> is_space(#[trigger] started[j]),
        decreases hi - lo,
    {
        assert(started[hi - 1 - lo] == n@[hi - 1]);
        hi -= 1;
    }
    proof {
        if hi > lo {
            assert(started[hi - 1 - lo] == n@[hi - 1]);
        }
        lemma_trim_end(started, hi - lo);
        assert(started.subrange(0, hi - lo) =~= n@.subrange(lo as int, hi as int));
    }
    copy_range(&n, lo, hi)
}

/// `v[lo..hi]` as a vector of its own.
fn copy_range(v: &Vec<char>, lo: usize, hi: usize) -> (r: Vec<char>)
    requires
        lo <= hi <= v@.len(),
    ensures
        r@ == v@.subrange(lo as int, hi as int),
{
    let mut r: Vec<char> = Vec::new();
    let mut k: usize = lo;
    while k < hi
        invariant
            lo <= k <= hi <= v@.len(),
            r@ == v@.subrange(lo as int, k as int),
        decreases hi - k,
    {
        r.push(v[k]);
        k += 1;
        assert(r@ =~= v@.subrange(lo as int, k as int));
    }
    r
}

fn digits_only(v: &Vec<char>) -> (r: bool)
    ensures
        r == all_digits(v@),
{
    let mut k: usize = 0;
    while k < v.len()
        invariant
            k <= v@.len(),
            forall|j: int| 0 <= j < k ==> is_digit(#[trigger] v@[j]),
        decreases v@.len() - k,
    {
        if value_of_digit(v[k]).is_none() {
            return false;
        }
        k += 1;
    }
    true
}

fn split_sign(v: &Vec<char>) -> (r: (bool, Vec<char>))
    ensures
        r.0 == signed(v@).0,
        r.1@ == signed(v@).1,
{
    if v.len() > 0 && (v[0] == '+' || v[0] == '-') {
        let rest = copy_range(v, 1, v.len());
        assert(rest@ =~= v@.drop_first());
        (v[0] == '-', rest)
    } else {
        assert(v@.subrange(0, v@.len() as int) =~= v@);
        (false, copy_range(v, 0, v.len()))
    }
}

fn find_mark(v: &Vec<char>) -> (r: usize)
    ensures
        r == mark_index(v@),
        r <= v@.len(),
{
    let mut i: usize = 0;
    while i < v.len() && v[i] != 'e' && v[i] != 'E'
        invariant
            i <= v@.len(),
            forall|j: int| 0 <= j < i ==> !is_exponent_mark(#[trigger] v@[j]),
        decreases v@.len() - i,
    {
        i += 1;
    }
    proof {
        if i < v@.len() {
            assert(mark_at(v@, i as int));
            let k = choose|k: int| mark_at(v@, k);
            if k < i {
                assert(!is_exponent_mark(v@[k]));
            } else if k > i {
                assert(!is_exponent_mark(v@[i as int]));
            }
        } else {
            assert forall|k: int| !mark_at(v@, k) by {
                if 0 <= k < v@.len() {
                    assert(!is_exponent_mark(v@[k]));
                }
            }
        }
    }
    i
}

/// Reads a rating from a reply: a decimal comma counts as a point, and the
/// white space around the number is ignored.
pub fn parse_rating(text: &str) -> (r: Option<Rating>)
    ensures
        r matches Some(x) ==> rating_of(text@) == Some(x@),
        r is None ==> rating_of(text@) is None,
{
    let t = normalized(text);
    let (negative, body) = split_sign(&t);
    let e = find_mark(&body);
    let mantissa = copy_range(&body, 0, e);
    let p = find_char(&mantissa, 0, mantissa.len(), '.');
    assert(mantissa@.subrange(0, mantissa@.len() as int) =~= mantissa@);
    let whole = copy_range(&mantissa, 0, p);
    let fraction = if p < mantissa.len() {
        copy_range(&mantissa, p + 1, mantissa.len())
    } else {
        Vec::new()
    };
    let has_exponent = e < body.len();
    let (exponent_negative, exponent) = if has_exponent {
        let rest = copy_range(&body, e + 1, body.len());
        split_sign(&rest)
    } else {
        (false, Vec::new())
    };
    if digits_only(&whole) && digits_only(&fraction) && whole.len() + fraction.len() >= 1
        && digits_only(&exponent) && (!has_exponent || exponent.len() >= 1) {
        Some(Rating { negative, whole, fraction, exponent_negative, exponent })
    } else {
        None
    }
}

impl Rating {
    /// The rating written as a number, for a float parse to read.
    pub fn text(&self) -> (r: String)
        ensures
            r@ == number_text(self@),
    {
        let mut out = String::new();
        if self.negative {
            out.push('-');
        }
        push_chars(&mut out, self.whole.as_slice());
        out.push('.');
        push_chars(&mut out, self.fraction.as_slice());
        if self.exponent.len() > 0 {
            out.push('e');
            if self.exponent_negative {
                out.push('-');
            }
            push_chars(&mut out, self.exponent.as_slice());
        }
        assert(out@ =~= number_text(self@));
        out
    }
}

} // verus!
