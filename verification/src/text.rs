//! Character-level text helpers with their meaning stated over sequences of
//! characters: Unicode whitespace, trimming, splitting on a separator and
//! into whitespace-separated words.
use vstd::prelude::*;

use crate::keyboard::push_char;

verus! {

/// `char::is_whitespace`: the Unicode `White_Space` property.
pub open spec fn is_ws(c: char) -> bool {
    let v = c as u32;
    (0x9 <= v && v <= 0xd) || v == 0x20 || v == 0x85 || v == 0xa0 || v == 0x1680 || (0x2000 <= v
        && v <= 0x200a) || v == 0x2028 || v == 0x2029 || v == 0x202f || v == 0x205f || v == 0x3000
}

pub fn is_whitespace(c: char) -> (r: bool)
    ensures
        r == is_ws(c),
{
    let v = c as u32;
    (0x9 <= v && v <= 0xd) || v == 0x20 || v == 0x85 || v == 0xa0 || v == 0x1680 || (0x2000 <= v
        && v <= 0x200a) || v == 0x2028 || v == 0x2029 || v == 0x202f || v == 0x205f || v == 0x3000
}

/// `s` without leading whitespace.
pub open spec fn trim_start(s: Seq<char>) -> Seq<char>
    decreases s.len(),
{
    if s.len() > 0 && is_ws(s[0]) {
        trim_start(s.drop_first())
    } else {
        s
    }
}

/// `s` without trailing whitespace.
pub open spec fn trim_end(s: Seq<char>) -> Seq<char>
    decreases s.len(),
{
    if s.len() > 0 && is_ws(s.last()) {
        trim_end(s.drop_last())
    } else {
        s
    }
}

/// `str::trim`.
pub open spec fn trim(s: Seq<char>) -> Seq<char> {
    trim_end(trim_start(s))
}

/// `str::split(sep)`: the pieces between occurrences of `sep`; there is
/// always at least one piece.
pub open spec fn split_on(s: Seq<char>, sep: char) -> Seq<Seq<char>>
    decreases s.len(),
{
    if s.len() == 0 {
        seq![Seq::<char>::empty()]
    } else {
        let rest = split_on(s.drop_last(), sep);
        if s.last() == sep {
            rest.push(Seq::empty())
        } else {
            rest.update(rest.len() - 1, rest.last().push(s.last()))
        }
    }
}

/// `str::split_whitespace`: the maximal runs of non-whitespace characters.
pub open spec fn words(s: Seq<char>) -> Seq<Seq<char>>
    decreases s.len(),
{
    if s.len() == 0 {
        Seq::empty()
    } else {
        let w = words(s.drop_last());
        if is_ws(s.last()) {
            w
        } else if s.len() > 1 && !is_ws(s[s.len() - 2]) {
            w.update(w.len() - 1, w.last().push(s.last()))
        } else {
            w.push(seq![s.last()])
        }
    }
}

/// Whether `s` begins with `p`.
pub open spec fn starts_with(s: Seq<char>, p: Seq<char>) -> bool {
    p.len() <= s.len() && s.take(p.len() as int) == p
}

/// Every piece of `split_on` is nonempty... unless it lies between two
/// adjacent separators; in any case, the split of a nonempty text has a
/// last piece ending where the text ends.
pub proof fn lemma_split_on_len(s: Seq<char>, sep: char)
    ensures
        split_on(s, sep).len() >= 1,
    decreases s.len(),
{
    if s.len() > 0 {
        lemma_split_on_len(s.drop_last(), sep);
    }
}

pub proof fn lemma_words_nonempty(s: Seq<char>)
    ensures
        s.len() > 0 && !is_ws(s.last()) ==> words(s).len() >= 1,
        forall|i: int| 0 <= i < words(s).len() ==> #[trigger] words(s)[i].len() >= 1,
    decreases s.len(),
{
    if s.len() > 0 {
        lemma_words_nonempty(s.drop_last());
        let w = words(s.drop_last());
        if !is_ws(s.last()) && s.len() > 1 && !is_ws(s[s.len() - 2]) {
            assert(s.drop_last().last() == s[s.len() - 2]);
        }
    }
}

/// A nonempty text that had its trailing whitespace trimmed ends in a
/// non-whitespace character.
pub proof fn lemma_trim_end_last(s: Seq<char>)
    ensures
        trim_end(s).len() > 0 ==> !is_ws(trim_end(s).last()),
    decreases s.len(),
{
    if s.len() > 0 && is_ws(s.last()) {
        lemma_trim_end_last(s.drop_last());
    }
}

/// Every character of `s` is whitespace.
pub open spec fn all_ws(s: Seq<char>) -> bool {
    forall|i: int| 0 <= i < s.len() ==> is_ws(#[trigger] s[i])
}

/// Leading whitespace in front of a text is trimmed away.
pub proof fn lemma_trim_start_skips_ws(a: Seq<char>, x: Seq<char>)
    requires
        all_ws(a),
    ensures
        trim_start(a + x) == trim_start(x),
    decreases a.len(),
{
    if a.len() == 0 {
        assert(a + x =~= x);
    } else {
        assert((a + x)[0] == a[0]);
        assert((a + x).drop_first() =~= a.drop_first() + x);
        lemma_trim_start_skips_ws(a.drop_first(), x);
    }
}

/// Trailing whitespace after a text is trimmed away.
pub proof fn lemma_trim_end_skips_ws(x: Seq<char>, b: Seq<char>)
    requires
        all_ws(b),
    ensures
        trim_end(x + b) == trim_end(x),
    decreases b.len(),
{
    if b.len() == 0 {
        assert(x + b =~= x);
    } else {
        assert((x + b).last() == b.last());
        assert((x + b).drop_last() =~= x + b.drop_last());
        lemma_trim_end_skips_ws(x, b.drop_last());
    }
}

/// Trimming the start of a text followed by more text.
proof fn lemma_trim_start_append(s: Seq<char>, b: Seq<char>)
    ensures
        trim_start(s + b) == if trim_start(s).len() > 0 {
            trim_start(s) + b
        } else {
            trim_start(b)
        },
    decreases s.len(),
{
    if s.len() == 0 {
        assert(s + b =~= b);
    } else if is_ws(s[0]) {
        assert((s + b)[0] == s[0]);
        assert((s + b).drop_first() =~= s.drop_first() + b);
        lemma_trim_start_append(s.drop_first(), b);
    } else {
        assert((s + b)[0] == s[0]);
    }
}

/// Whitespace around a text does not change what `trim` leaves.
pub proof fn lemma_trim_ignores_surrounding_ws(a: Seq<char>, s: Seq<char>, b: Seq<char>)
    requires
        all_ws(a),
        all_ws(b),
    ensures
        trim(a + s + b) == trim(s),
{
    assert(a + s + b =~= a + (s + b));
    lemma_trim_start_skips_ws(a, s + b);
    lemma_trim_start_append(s, b);
    if trim_start(s).len() > 0 {
        lemma_trim_end_skips_ws(trim_start(s), b);
    } else {
        lemma_trim_start_skips_ws(b, Seq::<char>::empty());
        assert(b + Seq::<char>::empty() =~= b);
    }
}

pub open spec fn is_digit(c: char) -> bool {
    '0' <= c && c <= '9'
}

pub open spec fn all_digits(s: Seq<char>) -> bool {
    forall|i: int| 0 <= i < s.len() ==> is_digit(#[trigger] s[i])
}

/// The first index of `s` holding one of `a` or `b`.
pub open spec fn index_of2(s: Seq<char>, a: char, b: char) -> Option<int>
    decreases s.len(),
{
    if s.len() == 0 {
        None
    } else if s[0] == a || s[0] == b {
        Some(0)
    } else {
        match index_of2(s.drop_first(), a, b) {
            Some(i) => Some(i + 1),
            None => None,
        }
    }
}

/// Digits, with at most one `.` somewhere, and at least one digit.
pub open spec fn valid_mantissa(m: Seq<char>) -> bool {
    match index_of2(m, '.', '.') {
        None => m.len() > 0 && all_digits(m),
        Some(d) => all_digits(m.take(d)) && all_digits(m.skip(d + 1)) && m.len() >= 2,
    }
}

/// An optional sign, then at least one digit.
pub open spec fn valid_exponent(x: Seq<char>) -> bool {
    (x.len() > 0 && all_digits(x)) || (x.len() > 1 && (x[0] == '+' || x[0] == '-') && all_digits(
        x.drop_first(),
    ))
}

pub open spec fn ascii_lower(c: char) -> char {
    if 'A' <= c && c <= 'Z' {
        ((c as u32) + 32) as char
    } else {
        c
    }
}

/// `str::eq_ignore_ascii_case`.
pub open spec fn eq_ignore_ascii_case(a: Seq<char>, b: Seq<char>) -> bool {
    a.len() == b.len() && forall|i: int| 0 <= i < a.len() ==> ascii_lower(#[trigger] a[i]) == ascii_lower(b[i])
}

/// The texts `f32::from_str` accepts: an optional sign, then `inf`,
/// `infinity` or `nan` in any ASCII case, or a decimal number with an
/// optional exponent.
pub open spec fn is_float_literal(s: Seq<char>) -> bool {
    let b = if s.len() > 0 && (s[0] == '+' || s[0] == '-') {
        s.drop_first()
    } else {
        s
    };
    ||| eq_ignore_ascii_case(b, "inf"@)
    ||| eq_ignore_ascii_case(b, "infinity"@)
    ||| eq_ignore_ascii_case(b, "nan"@)
    ||| match index_of2(b, 'e', 'E') {
        None => valid_mantissa(b),
        Some(e) => valid_mantissa(b.take(e)) && valid_exponent(b.skip(e + 1)),
    }
}

pub fn to_ascii_lower(c: char) -> (r: char)
    ensures
        r == ascii_lower(c),
{
    if 'A' <= c && c <= 'Z' {
        let b = c as u8;
        (b + 32) as char
    } else {
        c
    }
}

/// Whether `v[lo..hi]` equals `p` up to ASCII case.
pub fn range_eq_ignore_ascii_case(v: &Vec<char>, lo: usize, hi: usize, p: &str) -> (r: bool)
    requires
        lo <= hi <= v@.len(),
    ensures
        r == eq_ignore_ascii_case(v@.subrange(lo as int, hi as int), p@),
{
    let n = p.unicode_len();
    if n != hi - lo {
        return false;
    }
    let mut i: usize = 0;
    while i < n
        invariant
            n == p@.len(),
            n == hi - lo,
            lo <= hi <= v@.len(),
            i <= n,
            forall|j: int| 0 <= j < i ==> ascii_lower(v@[lo + j]) == ascii_lower(p@[j]),
        decreases n - i,
    {
        if to_ascii_lower(v[lo + i]) != to_ascii_lower(p.get_char(i)) {
            assert(ascii_lower(v@.subrange(lo as int, hi as int)[i as int]) != ascii_lower(p@[i as int]));
            return false;
        }
        i = i + 1;
    }
    assert forall|j: int| 0 <= j < n implies ascii_lower(#[trigger] v@.subrange(lo as int, hi as int)[j]) == ascii_lower(p@[j]) by {
        assert(v@.subrange(lo as int, hi as int)[j] == v@[lo + j]);
    }
    true
}

/// The first index in `v[lo..hi]` (counted from `lo`) holding `a` or `b`.
pub fn find2(v: &Vec<char>, lo: usize, hi: usize, a: char, b: char) -> (r: Option<usize>)
    requires
        lo <= hi <= v@.len(),
    ensures
        match r {
            Some(i) => index_of2(v@.subrange(lo as int, hi as int), a, b) == Some(i as int) && i < hi - lo,
            None => index_of2(v@.subrange(lo as int, hi as int), a, b) is None,
        },
{
    let mut i = lo;
    while i < hi
        invariant
            lo <= i <= hi <= v@.len(),
            index_of2(v@.subrange(lo as int, hi as int), a, b) == match index_of2(v@.subrange(i as int, hi as int), a, b) {
                Some(k) => Some(k + (i - lo)),
                None => None,
            },
        decreases hi - i,
    {
        assert(v@.subrange(i as int, hi as int).drop_first() == v@.subrange(i + 1, hi as int));
        if v[i] == a || v[i] == b {
            return Some(i - lo);
        }
        i = i + 1;
    }
    None
}

/// Whether every character of `v[lo..hi]` is a digit.
pub fn range_all_digits(v: &Vec<char>, lo: usize, hi: usize) -> (r: bool)
    requires
        lo <= hi <= v@.len(),
    ensures
        r == all_digits(v@.subrange(lo as int, hi as int)),
{
    let mut i = lo;
    while i < hi
        invariant
            lo <= i <= hi <= v@.len(),
            forall|j: int| lo <= j < i ==> is_digit(#[trigger] v@[j]),
        decreases hi - i,
    {
        if !('0' <= v[i] && v[i] <= '9') {
            assert(!is_digit(v@.subrange(lo as int, hi as int)[i - lo]));
            return false;
        }
        i = i + 1;
    }
    assert forall|j: int| 0 <= j < hi - lo implies is_digit(#[trigger] v@.subrange(lo as int, hi as int)[j]) by {
        assert(v@.subrange(lo as int, hi as int)[j] == v@[lo + j]);
    }
    true
}

fn range_valid_mantissa(v: &Vec<char>, lo: usize, hi: usize) -> (r: bool)
    requires
        lo <= hi <= v@.len(),
    ensures
        r == valid_mantissa(v@.subrange(lo as int, hi as int)),
{
    let ghost m = v@.subrange(lo as int, hi as int);
    match find2(v, lo, hi, '.', '.') {
        None => hi > lo && range_all_digits(v, lo, hi),
        Some(d) => {
            assert(m.take(d as int) == v@.subrange(lo as int, lo + d));
            assert(m.skip(d + 1) == v@.subrange(lo + d + 1, hi as int));
            range_all_digits(v, lo, lo + d) && range_all_digits(v, lo + d + 1, hi) && hi - lo >= 2
        },
    }
}

fn range_valid_exponent(v: &Vec<char>, lo: usize, hi: usize) -> (r: bool)
    requires
        lo <= hi <= v@.len(),
    ensures
        r == valid_exponent(v@.subrange(lo as int, hi as int)),
{
    let ghost x = v@.subrange(lo as int, hi as int);
    if hi > lo && range_all_digits(v, lo, hi) {
        return true;
    }
    if hi - lo > 1 && (v[lo] == '+' || v[lo] == '-') {
        assert(x.drop_first() == v@.subrange(lo + 1, hi as int));
        return range_all_digits(v, lo + 1, hi);
    }
    false
}

/// Whether `v[lo..hi]` is text that `f32::from_str` accepts.
pub fn range_is_float_literal(v: &Vec<char>, lo: usize, hi: usize) -> (r: bool)
    requires
        lo <= hi <= v@.len(),
    ensures
        r == is_float_literal(v@.subrange(lo as int, hi as int)),
{
    let ghost s = v@.subrange(lo as int, hi as int);
    let start = if hi > lo && (v[lo] == '+' || v[lo] == '-') {
        lo + 1
    } else {
        lo
    };
    assert(v@.subrange(start as int, hi as int) == if s.len() > 0 && (s[0] == '+' || s[0] == '-') {
        s.drop_first()
    } else {
        s
    });
    if range_eq_ignore_ascii_case(v, start, hi, "inf") || range_eq_ignore_ascii_case(v, start, hi, "infinity")
        || range_eq_ignore_ascii_case(v, start, hi, "nan") {
        return true;
    }
    let ghost b = v@.subrange(start as int, hi as int);
    match find2(v, start, hi, 'e', 'E') {
        None => range_valid_mantissa(v, start, hi),
        Some(e) => {
            assert(b.take(e as int) == v@.subrange(start as int, start + e));
            assert(b.skip(e + 1) == v@.subrange(start + e + 1, hi as int));
            range_valid_mantissa(v, start, start + e) && range_valid_exponent(v, start + e + 1, hi)
        },
    }
}

/// Whether `s` is text that `f32::from_str` accepts.
pub fn float_literal(s: &str) -> (r: bool)
    ensures
        r == is_float_literal(s@),
{
    let v = chars_of(s);
    assert(v@.subrange(0, v@.len() as int) == v@);
    range_is_float_literal(&v, 0, v.len())
}

/// The characters of `s`.
pub fn chars_of(s: &str) -> (r: Vec<char>)
    ensures
        r@ == s@,
{
    let n = s.unicode_len();
    let mut v: Vec<char> = Vec::new();
    let mut i: usize = 0;
    while i < n
        invariant
            n == s@.len(),
            i <= n,
            v@ == s@.take(i as int),
        decreases n - i,
    {
        v.push(s.get_char(i));
        i = i + 1;
        assert(v@ == s@.take(i as int));
    }
    assert(s@.take(n as int) == s@);
    v
}

/// The characters `v[lo..hi]` as a string.
pub fn string_of(v: &Vec<char>, lo: usize, hi: usize) -> (r: String)
    requires
        lo <= hi <= v@.len(),
    ensures
        r@ == v@.subrange(lo as int, hi as int),
{
    let mut out = String::new();
    let mut i = lo;
    while i < hi
        invariant
            lo <= i <= hi <= v@.len(),
            out@ == v@.subrange(lo as int, i as int),
        decreases hi - i,
    {
        push_char(&mut out, v[i]);
        i = i + 1;
        assert(out@ == v@.subrange(lo as int, i as int));
    }
    out
}

/// The range of `v[lo..hi]` left after trimming whitespace at both ends.
pub fn trim_range(v: &Vec<char>, lo: usize, hi: usize) -> (r: (usize, usize))
    requires
        lo <= hi <= v@.len(),
    ensures
        lo <= r.0 <= r.1 <= hi,
        v@.subrange(r.0 as int, r.1 as int) == trim(v@.subrange(lo as int, hi as int)),
{
    let mut a = lo;
    while a < hi && is_whitespace(v[a])
        invariant
            lo <= a <= hi <= v@.len(),
            trim_start(v@.subrange(lo as int, hi as int)) == trim_start(
                v@.subrange(a as int, hi as int),
            ),
        decreases hi - a,
    {
        assert(v@.subrange(a as int, hi as int).drop_first() == v@.subrange(a + 1, hi as int));
        a = a + 1;
    }
    let mut b = hi;
    while b > a && is_whitespace(v[b - 1])
        invariant
            lo <= a <= b <= hi <= v@.len(),
            trim_end(v@.subrange(a as int, hi as int)) == trim_end(v@.subrange(a as int, b as int)),
        decreases b - a,
    {
        assert(v@.subrange(a as int, b as int).drop_last() == v@.subrange(a as int, b - 1));
        b = b - 1;
    }
    (a, b)
}

/// The start of `v[lo..hi]` once leading whitespace is skipped.
pub fn trim_start_range(v: &Vec<char>, lo: usize, hi: usize) -> (r: usize)
    requires
        lo <= hi <= v@.len(),
    ensures
        lo <= r <= hi,
        v@.subrange(r as int, hi as int) == trim_start(v@.subrange(lo as int, hi as int)),
{
    let mut a = lo;
    while a < hi && is_whitespace(v[a])
        invariant
            lo <= a <= hi <= v@.len(),
            trim_start(v@.subrange(lo as int, hi as int)) == trim_start(
                v@.subrange(a as int, hi as int),
            ),
        decreases hi - a,
    {
        assert(v@.subrange(a as int, hi as int).drop_first() == v@.subrange(a + 1, hi as int));
        a = a + 1;
    }
    a
}

/// Whether `v[lo..hi]` begins with the characters of `p`.
pub fn range_starts_with(v: &Vec<char>, lo: usize, hi: usize, p: &str) -> (r: bool)
    requires
        lo <= hi <= v@.len(),
    ensures
        r == starts_with(v@.subrange(lo as int, hi as int), p@),
{
    let n = p.unicode_len();
    if n > hi - lo {
        return false;
    }
    let mut i: usize = 0;
    while i < n
        invariant
            n == p@.len(),
            n <= hi - lo,
            lo <= hi <= v@.len(),
            i <= n,
            forall|j: int| 0 <= j < i ==> v@[lo + j] == p@[j],
        decreases n - i,
    {
        if v[lo + i] != p.get_char(i) {
            assert(v@.subrange(lo as int, hi as int).take(n as int)[i as int] != p@[i as int]);
            return false;
        }
        i = i + 1;
    }
    assert(v@.subrange(lo as int, hi as int).take(n as int) == p@);
    true
}

/// Whether `v[lo..hi]` is exactly the characters of `p`.
pub fn range_equals(v: &Vec<char>, lo: usize, hi: usize, p: &str) -> (r: bool)
    requires
        lo <= hi <= v@.len(),
    ensures
        r == (v@.subrange(lo as int, hi as int) == p@),
{
    let n = p.unicode_len();
    if n != hi - lo {
        return false;
    }
    let b = range_starts_with(v, lo, hi, p);
    assert(v@.subrange(lo as int, hi as int) == v@.subrange(lo as int, hi as int).take(n as int));
    b
}

/// The pieces of `v[lo..hi]` between occurrences of `sep`, as ranges.
pub fn split_ranges(v: &Vec<char>, lo: usize, hi: usize, sep: char) -> (r: Vec<(usize, usize)>)
    requires
        lo <= hi <= v@.len(),
    ensures
        r@.len() == split_on(v@.subrange(lo as int, hi as int), sep).len(),
        forall|k: int|
            0 <= k < r@.len() ==> lo <= (#[trigger] r@[k]).0 <= r@[k].1 <= hi && v@.subrange(
                r@[k].0 as int,
                r@[k].1 as int,
            ) == split_on(v@.subrange(lo as int, hi as int), sep)[k],
{
    let mut done: Vec<(usize, usize)> = Vec::new();
    let mut cur = lo;
    let mut i = lo;
    while i < hi
        invariant
            lo <= cur <= i <= hi <= v@.len(),
            split_on(v@.subrange(lo as int, i as int), sep).len() == done@.len() + 1,
            split_on(v@.subrange(lo as int, i as int), sep).last() == v@.subrange(
                cur as int,
                i as int,
            ),
            forall|k: int|
                0 <= k < done@.len() ==> lo <= (#[trigger] done@[k]).0 <= done@[k].1 <= hi
                    && v@.subrange(done@[k].0 as int, done@[k].1 as int) == split_on(
                    v@.subrange(lo as int, i as int),
                    sep,
                )[k],
        decreases hi - i,
    {
        let ghost prev = split_on(v@.subrange(lo as int, i as int), sep);
        assert(v@.subrange(lo as int, i + 1).drop_last() == v@.subrange(lo as int, i as int));
        if v[i] == sep {
            done.push((cur, i));
            cur = i + 1;
        }
        i = i + 1;
        assert(v@.subrange(cur as int, i as int) == split_on(
            v@.subrange(lo as int, i as int),
            sep,
        ).last());
    }
    done.push((cur, hi));
    done
}

/// The whitespace-separated words of `v[lo..hi]`, as ranges.
pub fn word_ranges(v: &Vec<char>, lo: usize, hi: usize) -> (r: Vec<(usize, usize)>)
    requires
        lo <= hi <= v@.len(),
    ensures
        r@.len() == words(v@.subrange(lo as int, hi as int)).len(),
        forall|k: int|
            0 <= k < r@.len() ==> lo <= (#[trigger] r@[k]).0 <= r@[k].1 <= hi && v@.subrange(
                r@[k].0 as int,
                r@[k].1 as int,
            ) == words(v@.subrange(lo as int, hi as int))[k],
{
    let mut done: Vec<(usize, usize)> = Vec::new();
    let mut in_word = false;
    let mut cur = lo;
    let mut i = lo;
    while i < hi
        invariant
            lo <= cur <= i <= hi <= v@.len(),
            in_word ==> cur < i && i > lo && !is_ws(v@[i - 1]),
            !in_word ==> (i == lo || is_ws(v@[i - 1])),
            in_word ==> words(v@.subrange(lo as int, i as int)).len() == done@.len() + 1
                && words(v@.subrange(lo as int, i as int)).last() == v@.subrange(
                cur as int,
                i as int,
            ),
            !in_word ==> words(v@.subrange(lo as int, i as int)).len() == done@.len(),
            forall|k: int|
                0 <= k < done@.len() ==> lo <= (#[trigger] done@[k]).0 <= done@[k].1 <= hi
                    && v@.subrange(done@[k].0 as int, done@[k].1 as int) == words(
                    v@.subrange(lo as int, i as int),
                )[k],
        decreases hi - i,
    {
        let ghost s = v@.subrange(lo as int, i + 1);
        assert(s.drop_last() == v@.subrange(lo as int, i as int));
        assert(s.last() == v@[i as int]);
        if i > lo {
            assert(s[s.len() - 2] == v@[i - 1]);
        }
        if is_whitespace(v[i]) {
            if in_word {
                done.push((cur, i));
            }
            in_word = false;
        } else if !in_word {
            in_word = true;
            cur = i;
        }
        i = i + 1;
        if in_word {
            assert(v@.subrange(cur as int, i as int) == words(
                v@.subrange(lo as int, i as int),
            ).last());
        }
    }
    if in_word {
        done.push((cur, hi));
    }
    done
}

} // verus!
