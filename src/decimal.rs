//! Decimal text of integers: the canonical text of a number, and reading it
//! back.

use vstd::prelude::*;

verus! {

/// A decimal digit, `'0'` through `'9'`.
pub open spec fn is_digit(c: char) -> bool {
    c == '0' || c == '1' || c == '2' || c == '3' || c == '4' || c == '5' || c == '6' || c == '7'
        || c == '8' || c == '9'
}

/// The value of a decimal digit.
pub open spec fn digit_value(c: char) -> nat {
    if c == '1' {
        1
    } else if c == '2' {
        2
    } else if c == '3' {
        3
    } else if c == '4' {
        4
    } else if c == '5' {
        5
    } else if c == '6' {
        6
    } else if c == '7' {
        7
    } else if c == '8' {
        8
    } else if c == '9' {
        9
    } else {
        0
    }
}

/// The digit that stands for `d`, for `d` below ten.
pub open spec fn digit_char(d: nat) -> char {
    if d == 1 {
        '1'
    } else if d == 2 {
        '2'
    } else if d == 3 {
        '3'
    } else if d == 4 {
        '4'
    } else if d == 5 {
        '5'
    } else if d == 6 {
        '6'
    } else if d == 7 {
        '7'
    } else if d == 8 {
        '8'
    } else if d == 9 {
        '9'
    } else {
        '0'
    }
}

/// The shortest decimal text of `n`: no sign, no leading zeros.
pub open spec fn nat_text(n: nat) -> Seq<char>
    decreases n,
{
    if n < 10 {
        seq![digit_char(n)]
    } else {
        nat_text(n / 10).push(digit_char(n % 10))
    }
}

/// The value of a string of digits, read most significant first.
pub open spec fn digits_value(t: Seq<char>) -> nat
    decreases t.len(),
{
    if t.len() == 0 {
        0
    } else {
        digits_value(t.drop_last()) * 10 + digit_value(t.last())
    }
}

pub open spec fn all_digits(t: Seq<char>) -> bool {
    forall|i: int| 0 <= i < t.len() ==> is_digit(#[trigger] t[i])
}

/// One or more digits, without a leading zero unless the text is `"0"` itself.
pub open spec fn canonical(t: Seq<char>) -> bool {
    &&& t.len() >= 1
    &&& all_digits(t)
    &&& (t[0] == '0' ==> t.len() == 1)
}

/// The decimal text of an integer: `'-'` before the digits of a negative one.
pub open spec fn int_text(v: int) -> Seq<char> {
    if v < 0 {
        seq!['-'] + nat_text((-v) as nat)
    } else {
        nat_text(v as nat)
    }
}

/// The integer that a canonical decimal text denotes; `None` for any other text
/// (empty, a stray character, a leading zero, `"-0"`).
pub open spec fn int_of(t: Seq<char>) -> Option<int> {
    if t.len() > 0 && t[0] == '-' {
        let u = t.drop_first();
        if canonical(u) && digits_value(u) > 0 {
            Some(-(digits_value(u) as int))
        } else {
            None
        }
    } else if canonical(t) {
        Some(digits_value(t) as int)
    } else {
        None
    }
}

pub open spec fn u64_of(t: Seq<char>) -> Option<u64> {
    if canonical(t) && digits_value(t) <= u64::MAX {
        Some(digits_value(t) as u64)
    } else {
        None
    }
}

pub open spec fn u8_of(t: Seq<char>) -> Option<u8> {
    if canonical(t) && digits_value(t) <= u8::MAX {
        Some(digits_value(t) as u8)
    } else {
        None
    }
}

pub open spec fn i64_of(t: Seq<char>) -> Option<i64> {
    match int_of(t) {
        Some(v) => if i64::MIN <= v <= i64::MAX {
            Some(v as i64)
        } else {
            None
        },
        None => None,
    }
}

pub proof fn lemma_digit(d: nat)
    requires
        d < 10,
    ensures
        is_digit(digit_char(d)),
        digit_value(digit_char(d)) == d,
        digit_char(d) == '0' <==> d == 0,
{
}

pub proof fn lemma_digit_char(c: char)
    requires
        is_digit(c),
    ensures
        digit_value(c) < 10,
        digit_char(digit_value(c)) == c,
{
}

/// The text of a number is canonical and reads back as that number.
pub proof fn lemma_nat_text(n: nat)
    ensures
        canonical(nat_text(n)),
        digits_value(nat_text(n)) == n,
    decreases n,
{
    if n < 10 {
        lemma_digit(n);
        let t = nat_text(n);
        assert(t.drop_last() =~= Seq::<char>::empty());
        assert(t.last() == digit_char(n));
        assert(digits_value(t) == digits_value(t.drop_last()) * 10 + digit_value(t.last()));
    } else {
        let p = nat_text(n / 10);
        lemma_nat_text(n / 10);
        lemma_digit(n % 10);
        let t = nat_text(n);
        assert(t == p.push(digit_char(n % 10)));
        assert(t.drop_last() =~= p);
        assert(digits_value(t) == digits_value(p) * 10 + n % 10);
        assert((n / 10) * 10 + n % 10 == n) by (nonlinear_arith);
        assert(all_digits(t)) by {
            assert forall|i: int| 0 <= i < t.len() implies is_digit(#[trigger] t[i]) by {
                if i < p.len() {
                    assert(t[i] == p[i]);
                }
            }
        }
        if p[0] == '0' {
            assert(p =~= seq!['0']);
            assert(p.drop_last() =~= Seq::<char>::empty());
            assert(digits_value(p) == digits_value(p.drop_last()) * 10 + digit_value(p.last()));
            assert(n / 10 >= 1);
        }
        assert(t[0] == p[0]);
    }
}

/// A canonical text is the text of the number it denotes.
pub proof fn lemma_canonical_text(t: Seq<char>)
    requires
        canonical(t),
    ensures
        nat_text(digits_value(t)) == t,
    decreases t.len(),
{
    let c = t.last();
    lemma_digit_char(c);
    if t.len() == 1 {
        assert(t.drop_last() =~= Seq::<char>::empty());
        assert(nat_text(digits_value(t)) =~= t);
    } else {
        let p = t.drop_last();
        assert(all_digits(p)) by {
            assert forall|i: int| 0 <= i < p.len() implies is_digit(#[trigger] p[i]) by {
                assert(p[i] == t[i]);
            }
        }
        assert(p[0] == t[0]);
        lemma_canonical_text(p);
        let a = digits_value(p);
        let d = digit_value(c);
        if a == 0 {
            assert(nat_text(0) =~= seq!['0']);
        }
        assert(a >= 1);
        let n = digits_value(t);
        assert(n == a * 10 + d);
        assert(n / 10 == a && n % 10 == d) by (nonlinear_arith)
            requires
                n == a * 10 + d,
                d < 10,
        ;
        assert(nat_text(n) =~= t);
    }
}

/// Reading the text of an integer gives that integer back.
pub proof fn lemma_int_round_trip(v: int)
    ensures
        int_of(int_text(v)) == Some(v),
{
    if v < 0 {
        let u = nat_text((-v) as nat);
        lemma_nat_text((-v) as nat);
        assert(int_text(v).drop_first() =~= u);
    } else {
        lemma_nat_text(v as nat);
        assert(is_digit(nat_text(v as nat)[0]));
    }
}

/// A text that reads as an integer is the text of that integer.
pub proof fn lemma_int_canonical(t: Seq<char>)
    requires
        int_of(t) is Some,
    ensures
        int_text(int_of(t)->0) == t,
{
    if t.len() > 0 && t[0] == '-' {
        let u = t.drop_first();
        lemma_canonical_text(u);
        assert(int_text(int_of(t)->0) =~= t);
    } else {
        lemma_canonical_text(t);
    }
}

/// A prefix of a string of digits never reads as more than the whole.
proof fn lemma_prefix_value(t: Seq<char>, k: int)
    requires
        0 <= k <= t.len(),
    ensures
        digits_value(t.subrange(0, k)) <= digits_value(t),
    decreases t.len() - k,
{
    if k < t.len() {
        lemma_prefix_value(t, k + 1);
        assert(t.subrange(0, k + 1).drop_last() =~= t.subrange(0, k));
    } else {
        assert(t.subrange(0, k) =~= t);
    }
}

/// The digit for `d`, which is below ten.
pub fn digit_of(d: u64) -> (c: char)
    requires
        d < 10,
    ensures
        c == digit_char(d as nat),
{
    match d {
        0 => '0',
        1 => '1',
        2 => '2',
        3 => '3',
        4 => '4',
        5 => '5',
        6 => '6',
        7 => '7',
        8 => '8',
        _ => '9',
    }
}

/// The value of `c` if it is a decimal digit.
pub fn value_of_digit(c: char) -> (r: Option<u64>)
    ensures
        r is Some <==> is_digit(c),
        r matches Some(d) ==> d as nat == digit_value(c),
{
    match c {
        '0' => Some(0),
        '1' => Some(1),
        '2' => Some(2),
        '3' => Some(3),
        '4' => Some(4),
        '5' => Some(5),
        '6' => Some(6),
        '7' => Some(7),
        '8' => Some(8),
        '9' => Some(9),
        _ => None,
    }
}

/// Appends the decimal text of `n` to `out`.
pub fn push_u64(out: &mut Vec<char>, n: u64)
    ensures
        final(out)@ == old(out)@ + nat_text(n as nat),
    decreases n,
{
    if n < 10 {
        out.push(digit_of(n));
        assert(nat_text(n as nat) =~= seq![digit_char(n as nat)]);
    } else {
        push_u64(out, n / 10);
        out.push(digit_of(n % 10));
    }
    assert(final(out)@ =~= old(out)@ + nat_text(n as nat));
}

/// Appends the decimal text of `v` to `out`.
pub fn push_i64(out: &mut Vec<char>, v: i64)
    ensures
        final(out)@ == old(out)@ + int_text(v as int),
{
    if v < 0 {
        let m: u64 = if v == i64::MIN {
            9223372036854775808u64
        } else {
            (-v) as u64
        };
        out.push('-');
        push_u64(out, m);
        assert(final(out)@ =~= old(out)@ + int_text(v as int));
    } else {
        push_u64(out, v as u64);
    }
}

/// Reads `t[lo..hi]` as a string of digits, leading zeros allowed, whose
/// value fits in a `u64`.
pub fn parse_digits(t: &Vec<char>, lo: usize, hi: usize) -> (r: Option<u64>)
    requires
        lo <= hi <= t@.len(),
    ensures
        r == (if all_digits(t@.subrange(lo as int, hi as int)) && digits_value(
            t@.subrange(lo as int, hi as int),
        ) <= u64::MAX {
            Some(digits_value(t@.subrange(lo as int, hi as int)) as u64)
        } else {
            None::<u64>
        }),
{
    let ghost s = t@.subrange(lo as int, hi as int);
    let mut acc: u64 = 0;
    let mut i: usize = lo;
    assert(t@.subrange(lo as int, lo as int) =~= Seq::<char>::empty());
    while i < hi
        invariant
            lo <= i <= hi <= t@.len(),
            s == t@.subrange(lo as int, hi as int),
            all_digits(t@.subrange(lo as int, i as int)),
            acc as nat == digits_value(t@.subrange(lo as int, i as int)),
        decreases hi - i,
    {
        let d = match value_of_digit(t[i]) {
            Some(d) => d,
            None => {
                assert(s[i - lo] == t@[i as int]);
                return None;
            },
        };
        let ghost before = t@.subrange(lo as int, i as int);
        let ghost after = t@.subrange(lo as int, i + 1);
        assert(after.drop_last() =~= before);
        assert(all_digits(after)) by {
            assert forall|j: int| 0 <= j < after.len() implies is_digit(#[trigger] after[j]) by {
                if j < before.len() {
                    assert(after[j] == before[j]);
                }
            }
        }
        if acc > (u64::MAX - d) / 10 {
            proof {
                assert(acc * 10 + d > u64::MAX) by (nonlinear_arith)
                    requires
                        acc > (u64::MAX - d) / 10,
                        d < 10,
                ;
                if all_digits(s) {
                    assert(s.subrange(0, i + 1 - lo) =~= after);
                    lemma_prefix_value(s, i + 1 - lo);
                }
            }
            return None;
        }
        acc = acc * 10 + d;
        i += 1;
    }
    assert(t@.subrange(lo as int, i as int) =~= s);
    Some(acc)
}

/// Reads `t[lo..hi]` as a canonical decimal number that fits in a `u64`.
pub fn parse_u64(t: &Vec<char>, lo: usize, hi: usize) -> (r: Option<u64>)
    requires
        lo <= hi <= t@.len(),
    ensures
        r == u64_of(t@.subrange(lo as int, hi as int)),
{
    let ghost s = t@.subrange(lo as int, hi as int);
    if lo == hi {
        return None;
    }
    if t[lo] == '0' && hi - lo > 1 {
        assert(s[0] == '0');
        return None;
    }
    parse_digits(t, lo, hi)
}

/// Reads `t[lo..hi]` as a canonical decimal number that fits in a `u8`.
pub fn parse_u8(t: &Vec<char>, lo: usize, hi: usize) -> (r: Option<u8>)
    requires
        lo <= hi <= t@.len(),
    ensures
        r == u8_of(t@.subrange(lo as int, hi as int)),
{
    match parse_u64(t, lo, hi) {
        Some(n) => if n <= 255 {
            Some(n as u8)
        } else {
            None
        },
        None => None,
    }
}

/// Reads `t[lo..hi]` as a canonical decimal integer, with an optional
/// leading `'-'`, that fits in an `i64`.
pub fn parse_i64(t: &Vec<char>, lo: usize, hi: usize) -> (r: Option<i64>)
    requires
        lo <= hi <= t@.len(),
    ensures
        r == i64_of(t@.subrange(lo as int, hi as int)),
{
    let ghost s = t@.subrange(lo as int, hi as int);
    if lo < hi && t[lo] == '-' {
        assert(s.drop_first() =~= t@.subrange(lo + 1, hi as int));
        match parse_u64(t, lo + 1, hi) {
            Some(m) => {
                if m == 0 || m > 9223372036854775808u64 {
                    None
                } else if m == 9223372036854775808u64 {
                    Some(i64::MIN)
                } else {
                    Some(-(m as i64))
                }
            },
            None => None,
        }
    } else {
        match parse_u64(t, lo, hi) {
            Some(m) => if m <= 9223372036854775807u64 {
                Some(m as i64)
            } else {
                None
            },
            None => None,
        }
    }
}

} // verus!
