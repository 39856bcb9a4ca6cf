//! Helpers on strings as sequences of characters.

use vstd::prelude::*;

use crate::catalog::{escape_html, escaped};
use crate::decimal::{int_text, nat_text, push_i64, push_u64};
use vstd::string::StringExecFns;

verus! {

/// Relies on `String::push`: the character is appended at the end.
pub assume_specification[ String::push ](s: &mut String, ch: char)
    ensures
        final(s)@ == old(s)@.push(ch),
;

/// The characters of `s`, in order.
pub fn chars_of(s: &str) -> (r: Vec<char>)
    ensures
        r@ == s@,
{
    let mut out: Vec<char> = Vec::new();
    for c in it: s.chars()
        invariant
            out@ == it.history(),
    {
        out.push(c);
    }
    out
}

/// A string holding the characters of `v`, in order.
pub fn string_of(v: &[char]) -> (r: String)
    ensures
        r@ == v@,
{
    let mut out = String::new();
    let mut i: usize = 0;
    while i < v.len()
        invariant
            i <= v@.len(),
            out@ == v@.subrange(0, i as int),
        decreases v@.len() - i,
    {
        out.push(v[i]);
        i += 1;
        assert(out@ =~= v@.subrange(0, i as int));
    }
    assert(out@ =~= v@);
    out
}

/// `i` is the position of the first `c` in `s`.
pub open spec fn first_at(s: Seq<char>, c: char, i: int) -> bool {
    &&& 0 <= i < s.len()
    &&& s[i] == c
    &&& forall|j: int| 0 <= j < i ==> s[j] != c
}

/// The position of the first `c` in `s`, or the length of `s` if it holds none.
pub open spec fn first_index(s: Seq<char>, c: char) -> int {
    if exists|i: int| first_at(s, c, i) {
        choose|i: int| first_at(s, c, i)
    } else {
        s.len() as int
    }
}

/// What comes before the first `c` in `s`; all of `s` if it holds none.
pub open spec fn before(s: Seq<char>, c: char) -> Seq<char> {
    s.subrange(0, first_index(s, c))
}

pub proof fn lemma_first_index(s: Seq<char>, c: char, i: int)
    requires
        0 <= i <= s.len(),
        forall|j: int| 0 <= j < i ==> s[j] != c,
        i == s.len() || s[i] == c,
    ensures
        first_index(s, c) == i,
{
    if i < s.len() {
        assert(first_at(s, c, i));
        let k = choose|k: int| first_at(s, c, k);
        if k < i {
            assert(s[k] != c);
        } else if k > i {
            assert(s[i] != c);
        }
    } else {
        assert forall|k: int| !first_at(s, c, k) by {
            if 0 <= k < s.len() {
                assert(s[k] != c);
            }
        }
    }
}

/// Where the first `c` of `s` is, if `s` holds one.
pub proof fn lemma_first_index_found(s: Seq<char>, c: char)
    ensures
        0 <= first_index(s, c) <= s.len(),
        first_index(s, c) < s.len() ==> first_at(s, c, first_index(s, c)),
{
}

/// The position of the first `c` in `v[lo..hi]`, counted from `lo`; `hi - lo`
/// if there is none.
pub fn find_char(v: &Vec<char>, lo: usize, hi: usize, c: char) -> (r: usize)
    requires
        lo <= hi <= v@.len(),
    ensures
        r <= hi - lo,
        r == first_index(v@.subrange(lo as int, hi as int), c),
{
    let ghost s = v@.subrange(lo as int, hi as int);
    let mut i: usize = lo;
    while i < hi && v[i] != c
        invariant
            lo <= i <= hi <= v@.len(),
            s == v@.subrange(lo as int, hi as int),
            forall|j: int| 0 <= j < i - lo ==> s[j] != c,
        decreases hi - i,
    {
        assert(s[i - lo] == v@[i as int]);
        i += 1;
    }
    if i < hi {
        assert(s[i - lo] == v@[i as int]);
    }
    proof {
        lemma_first_index(s, c, i - lo);
    }
    i - lo
}

/// `needle` occurs in `s`, starting at some position.
pub open spec fn occurs_in(needle: Seq<char>, s: Seq<char>) -> bool {
    exists|i: int| 0 <= i <= s.len() - needle.len() && #[trigger] s.subrange(i, i + needle.len()) == needle
}

/// Whether `needle` occurs in `s`.
pub fn contains_text(s: &str, needle: &str) -> (r: bool)
    ensures
        r == occurs_in(needle@, s@),
{
    let t = chars_of(s);
    let n = chars_of(needle);
    if n.len() > t.len() {
        return false;
    }
    let last = t.len() - n.len();
    assert(t@.len() <= usize::MAX);
    let mut i: usize = 0;
    loop
        invariant
            t@ == s@,
            n@ == needle@,
            n@.len() <= t@.len(),
            t@.len() <= usize::MAX,
            last == t@.len() - n@.len(),
            i <= last,
            forall|k: int| 0 <= k < i ==> #[trigger] t@.subrange(k, k + n@.len()) != n@,
        decreases last - i,
    {
        let mut j: usize = 0;
        while j < n.len() && t[i + j] == n[j]
            invariant
                n@.len() <= t@.len(),
                t@.len() <= usize::MAX,
                i + n@.len() <= t@.len(),
                i <= last,
                last == t@.len() - n@.len(),
                j <= n@.len(),
                forall|m: int| 0 <= m < j ==> t@[i + m] == n@[m],
            decreases n@.len() - j,
        {
            j += 1;
        }
        if j == n.len() {
            assert(t@.subrange(i as int, i + n@.len()) =~= n@);
            return true;
        }
        assert(t@.subrange(i as int, i + n@.len())[j as int] != n@[j as int]);
        if i == last {
            assert forall|k: int| 0 <= k <= t@.len() - n@.len() implies #[trigger] t@.subrange(
                k,
                k + n@.len(),
            ) != n@ by {
                if k < i {
                }
            }
            return false;
        }
        i += 1;
    }
}

/// Whether `s` is exactly `lit`.
pub fn same_text(s: &str, lit: &str) -> (r: bool)
    ensures
        r == (s@ == lit@),
{
    s.to_owned() == lit.to_owned()
}

/// Appends the characters of `part` to `out`.
pub fn push_chars(out: &mut String, part: &[char])
    ensures
        final(out)@ == old(out)@ + part@,
{
    let mut i: usize = 0;
    while i < part.len()
        invariant
            i <= part@.len(),
            out@ == old(out)@ + part@.subrange(0, i as int),
        decreases part@.len() - i,
    {
        out.push(part[i]);
        i += 1;
        assert(out@ =~= old(out)@ + part@.subrange(0, i as int));
    }
    assert(part@.subrange(0, i as int) =~= part@);
}

/// Appends the decimal text of `n` to `out`.
pub fn push_number(out: &mut String, n: u64)
    ensures
        final(out)@ == old(out)@ + nat_text(n as nat),
{
    let mut digits: Vec<char> = Vec::new();
    push_u64(&mut digits, n);
    assert(digits@ =~= nat_text(n as nat));
    push_chars(out, digits.as_slice());
}

/// Appends the decimal text of `v` to `out`.
pub fn push_int(out: &mut String, v: i64)
    ensures
        final(out)@ == old(out)@ + int_text(v as int),
{
    let mut digits: Vec<char> = Vec::new();
    push_i64(&mut digits, v);
    assert(digits@ =~= int_text(v as int));
    push_chars(out, digits.as_slice());
}

/// The texts of `v`, in order.
pub open spec fn texts(v: Seq<String>) -> Seq<Seq<char>> {
    v.map_values(|s: String| s@)
}

/// `parts` with `sep` between each two of them.
pub open spec fn joined(parts: Seq<Seq<char>>, sep: Seq<char>) -> Seq<char>
    decreases parts.len(),
{
    if parts.len() == 0 {
        Seq::empty()
    } else if parts.len() == 1 {
        parts[0]
    } else {
        joined(parts.drop_last(), sep) + sep + parts.last()
    }
}

/// `parts`, each written as HTML text.
pub open spec fn escaped_all(parts: Seq<Seq<char>>) -> Seq<Seq<char>> {
    parts.map_values(|p: Seq<char>| escaped(p))
}

/// Appends the strings of `items`, each escaped for HTML when `escape` holds,
/// with `sep` between each two of them.
pub fn push_joined(out: &mut String, items: &Vec<String>, sep: &str, escape: bool)
    ensures
        escape ==> final(out)@ == old(out)@ + joined(escaped_all(texts(items@)), sep@),
        !escape ==> final(out)@ == old(out)@ + joined(texts(items@), sep@),
{
    let ghost parts = if escape {
        escaped_all(texts(items@))
    } else {
        texts(items@)
    };
    let mut i: usize = 0;
    while i < items.len()
        invariant
            i <= items@.len(),
            parts == (if escape {
                escaped_all(texts(items@))
            } else {
                texts(items@)
            }),
            parts.len() == items@.len(),
            out@ == old(out)@ + joined(parts.subrange(0, i as int), sep@),
        decreases items@.len() - i,
    {
        let ghost before = out@;
        assert(parts.subrange(0, i + 1).drop_last() =~= parts.subrange(0, i as int));
        if i > 0 {
            out.append(sep);
        }
        if escape {
            out.append(escape_html(items[i].as_str()).as_str());
        } else {
            out.append(items[i].as_str());
        }
        assert(parts[i as int] == (if escape {
            escaped(items@[i as int]@)
        } else {
            items@[i as int]@
        }));
        i += 1;
        assert(out@ =~= old(out)@ + joined(parts.subrange(0, i as int), sep@));
    }
    assert(parts.subrange(0, i as int) =~= parts);
}

} // verus!
