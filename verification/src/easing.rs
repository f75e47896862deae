//! The syntax of CSS easing functions: the keywords, `linear(...)` with its
//! stops, and `cubic-bezier(x1, y1, x2, y2)`. Parsing checks the structure
//! and that every number is a valid number literal, reporting the first
//! problem in reading order; the numbers are kept as text, and turning them
//! into curves is the renderer's job.
use vstd::prelude::*;

use crate::text::{
    is_float_literal, float_literal, range_is_float_literal,
    is_ws, lemma_trim_end_last, lemma_words_nonempty,
    chars_of, range_equals, range_starts_with, split_on, split_ranges, string_of, trim,
    trim_range, trim_start, trim_start_range, word_ranges, words, starts_with, all_ws,
    lemma_trim_ignores_surrounding_ws,
};
use crate::widgets::scan::{find_backward, find_forward, lemma_scan_backward, lemma_scan_forward, scan_backward, scan_forward};
use crate::widgets::segmented::opt_str_view;

verus! {

/// The `Debug` rendering of a string: quoted, with escapes.
pub uninterp spec fn debug_quoted(s: Seq<char>) -> Seq<char>;

/// `format!("{s:?}")`: quotes and escapes `s`. Named, not spelled out: the
/// contract only says the result depends on the text alone.
#[verifier::external_body]
fn debug_quote(s: &str) -> (r: String)
    ensures
        r@ == debug_quoted(s@),
{
    format!("{s:?}")
}

#[derive(Debug, Clone, Copy, PartialEq, Eq, Structural)]
pub enum EasingKeyword {
    Linear,
    Ease,
    EaseIn,
    EaseOut,
    EaseInOut,
}

/// Where a `linear()` stop sits on the input axis.
#[derive(Debug, Clone, PartialEq)]
pub enum StopPosition {
    /// An explicit percentage, as the number before its `%`.
    Given(String),
    /// An unpositioned first stop sits at 0%.
    Start,
    /// An unpositioned last stop sits at 100%.
    End,
    /// An unpositioned middle stop: spread evenly between the positioned
    /// stops `start` and `end` around it.
    Between { start: usize, end: usize },
}

#[derive(Debug, Clone, PartialEq)]
pub struct LinearStop {
    pub value: String,
    pub position: StopPosition,
}

/// A parsed easing function.
#[derive(Debug, Clone, PartialEq)]
pub enum CssEasing {
    Keyword(EasingKeyword),
    /// `linear(...)`, one entry per stop (a stop with two positions yields
    /// two entries).
    Stops(Vec<LinearStop>),
    /// `cubic-bezier(...)`: exactly four number literals.
    CubicBezier(Vec<String>),
}

#[derive(Debug, Clone, PartialEq)]
pub enum ParseError {
    UnknownFunction(String),
    WrongArgCount { expected: usize, found: usize },
    InvalidNumber(String),
    Syntax(String),
}

pub ghost enum PositionView {
    Given(Seq<char>),
    Start,
    End,
    Between(int, int),
}

pub ghost enum EasingView {
    Keyword(EasingKeyword),
    Stops(Seq<(Seq<char>, PositionView)>),
    CubicBezier(Seq<Seq<char>>),
}

pub ghost enum ErrorView {
    UnknownFunction(Seq<char>),
    WrongArgCount(nat, nat),
    InvalidNumber(Seq<char>),
    Syntax(Seq<char>),
}

impl View for StopPosition {
    type V = PositionView;

    open spec fn view(&self) -> PositionView {
        match self {
            StopPosition::Given(s) => PositionView::Given(s@),
            StopPosition::Start => PositionView::Start,
            StopPosition::End => PositionView::End,
            StopPosition::Between { start, end } => PositionView::Between(*start as int, *end as int),
        }
    }
}

pub open spec fn stops_view(v: Seq<LinearStop>) -> Seq<(Seq<char>, PositionView)> {
    v.map_values(|s: LinearStop| (s.value@, s.position@))
}

pub open spec fn strs_view(v: Seq<String>) -> Seq<Seq<char>> {
    v.map_values(|s: String| s@)
}

impl View for CssEasing {
    type V = EasingView;

    open spec fn view(&self) -> EasingView {
        match self {
            CssEasing::Keyword(k) => EasingView::Keyword(*k),
            CssEasing::Stops(v) => EasingView::Stops(stops_view(v@)),
            CssEasing::CubicBezier(v) => EasingView::CubicBezier(strs_view(v@)),
        }
    }
}

impl View for ParseError {
    type V = ErrorView;

    open spec fn view(&self) -> ErrorView {
        match self {
            ParseError::UnknownFunction(s) => ErrorView::UnknownFunction(s@),
            ParseError::WrongArgCount { expected, found } => ErrorView::WrongArgCount(
                *expected as nat,
                *found as nat,
            ),
            ParseError::InvalidNumber(s) => ErrorView::InvalidNumber(s@),
            ParseError::Syntax(s) => ErrorView::Syntax(s@),
        }
    }
}

/// `s` up to its first `(` or space (the function name of a call).
pub open spec fn first_piece(s: Seq<char>) -> Seq<char>
    decreases s.len(),
{
    if s.len() == 0 || s[0] == '(' || s[0] == ' ' {
        Seq::empty()
    } else {
        seq![s[0]] + first_piece(s.drop_first())
    }
}

/// The body of `( ... )` that `rest` is, if it is one.
pub open spec fn parenthesized(rest: Seq<char>) -> Option<Seq<char>> {
    if rest.len() >= 2 && rest[0] == '(' && rest.last() == ')' {
        Some(rest.subrange(1, rest.len() - 1))
    } else {
        None
    }
}

/// The problem with a stop position, if any: it must be a number
/// followed by `%`.
pub open spec fn percentage_error(s: Seq<char>) -> Option<ErrorView> {
    if s.len() == 0 || s.last() != '%' {
        Some(ErrorView::Syntax("expected percentage, found "@ + debug_quoted(s)))
    } else if !is_float_literal(s.drop_last()) {
        Some(ErrorView::InvalidNumber(s))
    } else {
        None
    }
}

/// The problem with one (trimmed) `linear()` stop, if any: a value,
/// then up to two percentages.
pub open spec fn stop_error(tok: Seq<char>) -> Option<ErrorView> {
    let w = words(tok);
    if tok.len() == 0 {
        Some(ErrorView::Syntax("empty stop in linear()"@))
    } else if !is_float_literal(w[0]) {
        Some(ErrorView::InvalidNumber(w[0]))
    } else if w.len() >= 2 && percentage_error(w[1]) is Some {
        percentage_error(w[1])
    } else if w.len() >= 3 && percentage_error(w[2]) is Some {
        percentage_error(w[2])
    } else if w.len() >= 4 {
        Some(ErrorView::Syntax("too many values in stop: "@ + debug_quoted(tok)))
    } else {
        None
    }
}

/// The entries a valid stop contributes: its value at its first position
/// (if any), and again at its second position if it has one.
pub open spec fn stop_entries(tok: Seq<char>) -> Seq<(Seq<char>, Option<Seq<char>>)> {
    let w = words(tok);
    let first = (w[0], if w.len() >= 2 {
        Some(w[1].drop_last())
    } else {
        None
    });
    if w.len() >= 3 {
        seq![first, (w[0], Some(w[2].drop_last()))]
    } else {
        seq![first]
    }
}

/// The stops of `linear()`, or the first problem among them.
pub open spec fn raw_stops(toks: Seq<Seq<char>>) -> Result<Seq<(Seq<char>, Option<Seq<char>>)>, ErrorView>
    decreases toks.len(),
{
    if toks.len() == 0 {
        Ok(Seq::empty())
    } else {
        match stop_error(toks[0]) {
            Some(e) => Err(e),
            None => match raw_stops(toks.drop_first()) {
                Err(e) => Err(e),
                Ok(r) => Ok(stop_entries(toks[0]) + r),
            },
        }
    }
}

/// Whether stop `i` of `n` has a position once the ends default to 0% and
/// 100%.
pub open spec fn anchored(raw: Seq<(Seq<char>, Option<Seq<char>>)>) -> Seq<bool> {
    Seq::new(raw.len(), |i: int| raw[i].1 is Some || i == 0 || i == raw.len() - 1)
}

/// The position of stop `k`.
pub open spec fn position_of(raw: Seq<(Seq<char>, Option<Seq<char>>)>, k: int) -> PositionView {
    match raw[k].1 {
        Some(p) => PositionView::Given(p),
        None => if k == 0 {
            PositionView::Start
        } else if k == raw.len() - 1 {
            PositionView::End
        } else {
            PositionView::Between(
                scan_backward(anchored(raw), k - 1)->0,
                scan_forward(anchored(raw), k + 1)->0,
            )
        },
    }
}

pub open spec fn resolve(raw: Seq<(Seq<char>, Option<Seq<char>>)>) -> Seq<(Seq<char>, PositionView)> {
    Seq::new(raw.len(), |k: int| (raw[k].0, position_of(raw, k)))
}

/// The arguments of `cubic-bezier()`, or the first one that is no number.
pub open spec fn number_args(toks: Seq<Seq<char>>) -> Result<Seq<Seq<char>>, ErrorView>
    decreases toks.len(),
{
    if toks.len() == 0 {
        Ok(Seq::empty())
    } else if !is_float_literal(toks[0]) {
        Err(ErrorView::InvalidNumber(toks[0]))
    } else {
        match number_args(toks.drop_first()) {
            Err(e) => Err(e),
            Ok(r) => Ok(seq![toks[0]] + r),
        }
    }
}

pub open spec fn trimmed_pieces(s: Seq<char>) -> Seq<Seq<char>> {
    split_on(s, ',').map_values(|p: Seq<char>| trim(p))
}

pub open spec fn missing_parens(css: Seq<char>) -> ErrorView {
    ErrorView::Syntax("missing parentheses in "@ + debug_quoted(css))
}

/// The meaning of an easing definition.
pub open spec fn css_easing(text: Seq<char>) -> Result<EasingView, ErrorView> {
    let css = trim(text);
    let after_linear = trim_start(css.skip(6));
    let after_bezier = trim_start(css.skip(12));
    if css == "linear"@ {
        Ok(EasingView::Keyword(EasingKeyword::Linear))
    } else if css == "ease"@ {
        Ok(EasingView::Keyword(EasingKeyword::Ease))
    } else if css == "ease-in"@ {
        Ok(EasingView::Keyword(EasingKeyword::EaseIn))
    } else if css == "ease-out"@ {
        Ok(EasingView::Keyword(EasingKeyword::EaseOut))
    } else if css == "ease-in-out"@ {
        Ok(EasingView::Keyword(EasingKeyword::EaseInOut))
    } else if starts_with(css, "linear"@) && after_linear.len() > 0 && after_linear[0] == '(' {
        match parenthesized(after_linear) {
            None => Err(missing_parens(css)),
            Some(inner) => match raw_stops(trimmed_pieces(inner)) {
                Err(e) => Err(e),
                Ok(raw) => Ok(EasingView::Stops(resolve(raw))),
            },
        }
    } else if !(starts_with(css, "cubic-bezier"@) && parenthesized(after_bezier) is Some) {
        if first_piece(css) == "cubic-bezier"@ {
            Err(missing_parens(css))
        } else {
            Err(ErrorView::UnknownFunction(first_piece(css)))
        }
    } else {
        match number_args(trimmed_pieces(parenthesized(after_bezier)->0)) {
            Err(e) => Err(e),
            Ok(args) => if args.len() != 4 {
                Err(ErrorView::WrongArgCount(4, args.len()))
            } else {
                Ok(EasingView::CubicBezier(args))
            },
        }
    }
}

/// A syntax error whose message is `prefix` followed by the rendering of
/// the offending text.
pub fn syntax_message(prefix: &str, rendered: &str) -> (r: ParseError)
    ensures
        r@ == ErrorView::Syntax(prefix@ + rendered@),
{
    let mut m = String::from_str(prefix);
    m.append(rendered);
    ParseError::Syntax(m)
}

/// A syntax error quoting `quoted` as `Debug` renders it.
fn syntax_error(prefix: &str, quoted: &str) -> (r: ParseError)
    ensures
        r@ == ErrorView::Syntax(prefix@ + debug_quoted(quoted@)),
{
    let q = debug_quote(quoted);
    syntax_message(prefix, q.as_str())
}

/// The problem with the percentage `v[lo..hi]`, or its number text.
fn percentage(v: &Vec<char>, lo: usize, hi: usize) -> (r: Result<String, ParseError>)
    requires
        lo <= hi <= v@.len(),
    ensures
        ({
            let s = v@.subrange(lo as int, hi as int);
            match r {
                Ok(d) => percentage_error(s) is None && d@ == s.drop_last(),
                Err(e) => percentage_error(s) == Some(e@),
            }
        }),
{
    let ghost s = v@.subrange(lo as int, hi as int);
    if lo == hi || v[hi - 1] != '%' {
        let t = string_of(v, lo, hi);
        return Err(syntax_error("expected percentage, found ", t.as_str()));
    }
    let d = string_of(v, lo, hi - 1);
    assert(d@ == s.drop_last());
    if !float_literal(d.as_str()) {
        return Err(ParseError::InvalidNumber(string_of(v, lo, hi)));
    }
    Ok(d)
}

pub open spec fn raw_view(v: Seq<(String, Option<String>)>) -> Seq<(Seq<char>, Option<Seq<char>>)> {
    v.map_values(|e: (String, Option<String>)| (e.0@, opt_str_view(e.1)))
}

/// Checks one trimmed stop `v[lo..hi]` and appends its entries to `raw`.
fn parse_stop(v: &Vec<char>, lo: usize, hi: usize, raw: &mut Vec<(String, Option<String>)>) -> (r: Option<ParseError>)
    requires
        lo <= hi <= v@.len(),
        lo < hi ==> !is_ws(v@[hi - 1]),
    ensures
        ({
            let tok = v@.subrange(lo as int, hi as int);
            match r {
                Some(e) => stop_error(tok) == Some(e@),
                None => stop_error(tok) is None && raw_view(final(raw)@) == raw_view(old(raw)@)
                    + stop_entries(tok),
            }
        }),
{
    let ghost tok = v@.subrange(lo as int, hi as int);
    if lo == hi {
        return Some(ParseError::Syntax(String::from_str("empty stop in linear()")));
    }
    let w = word_ranges(v, lo, hi);
    proof {
        lemma_words_nonempty(tok);
        assert(tok.last() == v@[hi - 1]);
    }
    let (a0, b0) = w[0];
    let val = string_of(v, a0, b0);
    if !float_literal(val.as_str()) {
        return Some(ParseError::InvalidNumber(val));
    }
    let mut pos1: Option<String> = None;
    if w.len() >= 2 {
        let (a1, b1) = w[1];
        match percentage(v, a1, b1) {
            Err(e) => return Some(e),
            Ok(d) => {
                pos1 = Some(d);
            },
        }
    }
    let mut pos2: Option<String> = None;
    if w.len() >= 3 {
        let (a2, b2) = w[2];
        match percentage(v, a2, b2) {
            Err(e) => return Some(e),
            Ok(d) => {
                pos2 = Some(d);
            },
        }
    }
    if w.len() >= 4 {
        let t = string_of(v, lo, hi);
        return Some(syntax_error("too many values in stop: ", t.as_str()));
    }
    let ghost before = raw@;
    let val2 = val.clone();
    raw.push((val, pos1));
    proof {
        assert(raw_view(raw@) =~= raw_view(before).push((val@, opt_str_view(pos1))));
    }
    match pos2 {
        Some(p) => {
            let ghost mid = raw@;
            raw.push((val2, Some(p)));
            proof {
                assert(raw_view(raw@) =~= raw_view(mid).push((val2@, Some(p@))));
                assert(raw_view(raw@) =~= raw_view(before) + stop_entries(tok));
            }
        },
        None => {
            proof {
                assert(raw_view(raw@) =~= raw_view(before) + stop_entries(tok));
            }
        },
    }
    None
}

/// The stops of `linear(v[lo..hi])`, or the first problem among them.
fn linear_stops(v: &Vec<char>, lo: usize, hi: usize) -> (r: Result<Vec<(String, Option<String>)>, ParseError>)
    requires
        lo <= hi <= v@.len(),
    ensures
        match r {
            Ok(raw) => raw_stops(trimmed_pieces(v@.subrange(lo as int, hi as int))) == Ok::<_, ErrorView>(raw_view(raw@)),
            Err(e) => raw_stops(trimmed_pieces(v@.subrange(lo as int, hi as int))) == Err::<Seq<(Seq<char>, Option<Seq<char>>)>, _>(e@),
        },
{
    let pieces = split_ranges(v, lo, hi, ',');
    let ghost toks = trimmed_pieces(v@.subrange(lo as int, hi as int));
    let mut raw: Vec<(String, Option<String>)> = Vec::new();
    let mut i: usize = 0;
    proof {
        assert(raw_view(raw@) =~= Seq::empty());
        assert(toks.skip(0) == toks);
    }
    while i < pieces.len()
        invariant
            pieces@.len() == toks.len(),
            forall|k: int| 0 <= k < pieces@.len() ==> lo <= (#[trigger] pieces@[k]).0 <= pieces@[k].1 <= hi && v@.subrange(pieces@[k].0 as int, pieces@[k].1 as int) == split_on(v@.subrange(lo as int, hi as int), ',')[k],
            toks == trimmed_pieces(v@.subrange(lo as int, hi as int)),
            lo <= hi <= v@.len(),
            i <= pieces@.len(),
            raw_stops(toks) == match raw_stops(toks.skip(i as int)) {
                Err(e) => Err(e),
                Ok(rest) => Ok(raw_view(raw@) + rest),
            },
        decreases pieces@.len() - i,
    {
        let (a, b) = pieces[i];
        let (ta, tb) = trim_range(v, a, b);
        proof {
            assert(v@.subrange(ta as int, tb as int) == toks[i as int]);
            lemma_trim_end_last(trim_start(v@.subrange(a as int, b as int)));
            if ta < tb {
                assert(v@.subrange(ta as int, tb as int).last() == v@[tb - 1]);
            }
            assert(toks.skip(i as int).drop_first() == toks.skip(i + 1));
            assert(toks.skip(i as int)[0] == toks[i as int]);
        }
        let ghost before = raw@;
        match parse_stop(v, ta, tb, &mut raw) {
            Some(e) => {
                return Err(e);
            },
            None => {},
        }
        proof {
            let rest = raw_stops(toks.skip(i + 1));
            match rest {
                Ok(r) => {
                    assert(raw_view(before) + (stop_entries(toks[i as int]) + r) =~= raw_view(raw@) + r);
                },
                Err(_) => {},
            }
        }
        i = i + 1;
    }
    proof {
        assert(toks.skip(i as int) =~= Seq::<Seq<char>>::empty());
        assert(raw_view(raw@) + Seq::<(Seq<char>, Option<Seq<char>>)>::empty() =~= raw_view(raw@));
    }
    Ok(raw)
}

/// Gives every stop its position: explicit ones keep theirs, an
/// unpositioned first and last stop sit at 0% and 100%, and each run of
/// unpositioned stops in between is spread evenly between the positioned
/// stops around it.
pub fn resolve_positions(raw: Vec<(String, Option<String>)>) -> (r: Vec<LinearStop>)
    requires
        raw@.len() > 0,
    ensures
        stops_view(r@) == resolve(raw_view(raw@)),
{
    let n = raw.len();
    let ghost rv = raw_view(raw@);
    let mut flags: Vec<bool> = Vec::new();
    let mut i: usize = 0;
    while i < n
        invariant
            n == raw@.len(),
            rv == raw_view(raw@),
            i <= n,
            flags@.len() == i,
            forall|k: int| 0 <= k < i ==> #[trigger] flags@[k] == anchored(rv)[k],
        decreases n - i,
    {
        flags.push(raw[i].1.is_some() || i == 0 || i == n - 1);
        i = i + 1;
    }
    proof {
        assert(flags@ =~= anchored(rv));
    }
    let mut out: Vec<LinearStop> = Vec::new();
    let mut k: usize = 0;
    while k < n
        invariant
            n == raw@.len(),
            rv == raw_view(raw@),
            flags@ == anchored(rv),
            k <= n,
            out@.len() == k,
            forall|j: int| 0 <= j < k ==> (#[trigger] stops_view(out@)[j]) == resolve(rv)[j],
        decreases n - k,
    {
        let value = raw[k].0.clone();
        let position = match &raw[k].1 {
            Some(p) => StopPosition::Given(p.clone()),
            None => {
                if k == 0 {
                    StopPosition::Start
                } else if k == n - 1 {
                    StopPosition::End
                } else {
                    proof {
                        lemma_scan_backward(flags@, k - 1);
                        lemma_scan_forward(flags@, k + 1);
                        assert(flags@[0]);
                        assert(flags@[n - 1]);
                    }
                    let start = find_backward(&flags, k);
                    let end = find_forward(&flags, k + 1);
                    StopPosition::Between { start: start.unwrap(), end: end.unwrap() }
                }
            },
        };
        let ghost before = out@;
        out.push(LinearStop { value, position });
        proof {
            assert(stops_view(out@) =~= stops_view(before).push((value@, position@)));
        }
        k = k + 1;
    }
    proof {
        assert(stops_view(out@) =~= resolve(rv));
    }
    out
}

/// The arguments of `cubic-bezier(v[lo..hi])`, or the first that is no number.
fn bezier_args(v: &Vec<char>, lo: usize, hi: usize) -> (r: Result<Vec<String>, ParseError>)
    requires
        lo <= hi <= v@.len(),
    ensures
        match r {
            Ok(args) => number_args(trimmed_pieces(v@.subrange(lo as int, hi as int))) == Ok::<_, ErrorView>(strs_view(args@)),
            Err(e) => number_args(trimmed_pieces(v@.subrange(lo as int, hi as int))) == Err::<Seq<Seq<char>>, _>(e@),
        },
{
    let pieces = split_ranges(v, lo, hi, ',');
    let ghost toks = trimmed_pieces(v@.subrange(lo as int, hi as int));
    let mut args: Vec<String> = Vec::new();
    let mut i: usize = 0;
    proof {
        assert(strs_view(args@) =~= Seq::empty());
        assert(toks.skip(0) == toks);
    }
    while i < pieces.len()
        invariant
            pieces@.len() == toks.len(),
            forall|k: int| 0 <= k < pieces@.len() ==> lo <= (#[trigger] pieces@[k]).0 <= pieces@[k].1 <= hi && v@.subrange(pieces@[k].0 as int, pieces@[k].1 as int) == split_on(v@.subrange(lo as int, hi as int), ',')[k],
            toks == trimmed_pieces(v@.subrange(lo as int, hi as int)),
            lo <= hi <= v@.len(),
            i <= pieces@.len(),
            number_args(toks) == match number_args(toks.skip(i as int)) {
                Err(e) => Err(e),
                Ok(rest) => Ok(strs_view(args@) + rest),
            },
        decreases pieces@.len() - i,
    {
        let (a, b) = pieces[i];
        let (ta, tb) = trim_range(v, a, b);
        let t = string_of(v, ta, tb);
        proof {
            assert(t@ == toks[i as int]);
            assert(toks.skip(i as int).drop_first() == toks.skip(i + 1));
            assert(toks.skip(i as int)[0] == toks[i as int]);
        }
        if !range_is_float_literal(v, ta, tb) {
            return Err(ParseError::InvalidNumber(t));
        }
        let ghost before = args@;
        args.push(t);
        proof {
            assert(strs_view(args@) =~= strs_view(before).push(t@));
            match number_args(toks.skip(i + 1)) {
                Ok(r) => {
                    assert(strs_view(before) + (seq![t@] + r) =~= strs_view(args@) + r);
                },
                Err(_) => {},
            }
        }
        i = i + 1;
    }
    proof {
        assert(toks.skip(i as int) =~= Seq::<Seq<char>>::empty());
        assert(strs_view(args@) + Seq::<Seq<char>>::empty() =~= strs_view(args@));
    }
    Ok(args)
}

/// The length of the function name at the start of `v[lo..hi]`: the
/// characters before the first `(` or space.
fn first_piece_len(v: &Vec<char>, lo: usize, hi: usize) -> (r: usize)
    requires
        lo <= hi <= v@.len(),
    ensures
        lo + r <= hi,
        v@.subrange(lo as int, lo + r) == first_piece(v@.subrange(lo as int, hi as int)),
{
    let mut i = lo;
    while i < hi && v[i] != '(' && v[i] != ' '
        invariant
            lo <= i <= hi <= v@.len(),
            first_piece(v@.subrange(lo as int, hi as int)) == v@.subrange(lo as int, i as int) + first_piece(v@.subrange(i as int, hi as int)),
        decreases hi - i,
    {
        assert(v@.subrange(i as int, hi as int).drop_first() == v@.subrange(i + 1, hi as int));
        assert(v@.subrange(lo as int, i + 1) == v@.subrange(lo as int, i as int) + seq![v@[i as int]]);
        i = i + 1;
    }
    assert(first_piece(v@.subrange(i as int, hi as int)) == Seq::<char>::empty());
    assert(v@.subrange(lo as int, i as int) + Seq::<char>::empty() == v@.subrange(lo as int, i as int));
    i - lo
}

/// Parses a CSS easing function: `linear`, `ease`, `ease-in`, `ease-out`,
/// `ease-in-out`, `linear(<stops>)` or `cubic-bezier(x1, y1, x2, y2)`,
/// with surrounding whitespace tolerated.
pub fn parse_css_easing(text: &str) -> (r: Result<CssEasing, ParseError>)
    ensures
        match r {
            Ok(e) => css_easing(text@) == Ok::<_, ErrorView>(e@),
            Err(e) => css_easing(text@) == Err::<EasingView, _>(e@),
        },
{
    let v = chars_of(text);
    assert(v@.subrange(0, v@.len() as int) == v@);
    let (a, b) = trim_range(&v, 0, v.len());
    let ghost css = v@.subrange(a as int, b as int);
    if range_equals(&v, a, b, "linear") {
        return Ok(CssEasing::Keyword(EasingKeyword::Linear));
    }
    if range_equals(&v, a, b, "ease") {
        return Ok(CssEasing::Keyword(EasingKeyword::Ease));
    }
    if range_equals(&v, a, b, "ease-in") {
        return Ok(CssEasing::Keyword(EasingKeyword::EaseIn));
    }
    if range_equals(&v, a, b, "ease-out") {
        return Ok(CssEasing::Keyword(EasingKeyword::EaseOut));
    }
    if range_equals(&v, a, b, "ease-in-out") {
        return Ok(CssEasing::Keyword(EasingKeyword::EaseInOut));
    }
    let is_linear = range_starts_with(&v, a, b, "linear");
    proof {
        reveal_strlit("linear");
        reveal_strlit("cubic-bezier");
    }
    if is_linear {
        let c = trim_start_range(&v, a + 6, b);
        proof {
            assert(css.skip(6) == v@.subrange(a + 6, b as int));
        }
        if c < b && v[c] == '(' {
            let ghost rest = v@.subrange(c as int, b as int);
            if b - c >= 2 && v[b - 1] == ')' {
                proof {
                    assert(rest.subrange(1, rest.len() - 1) == v@.subrange(c + 1, b - 1));
                }
                return match linear_stops(&v, c + 1, b - 1) {
                    Err(e) => Err(e),
                    Ok(raw) => {
                        proof {
                            crate::text::lemma_split_on_len(v@.subrange(c + 1, b - 1), ',');
                            lemma_raw_stops_nonempty(trimmed_pieces(v@.subrange(c + 1, b - 1)));
                        }
                        Ok(CssEasing::Stops(resolve_positions(raw)))
                    },
                };
            }
            let t = string_of(&v, a, b);
            return Err(syntax_error("missing parentheses in ", t.as_str()));
        }
    }
    let is_bezier = range_starts_with(&v, a, b, "cubic-bezier");
    let mut inner: Option<(usize, usize)> = None;
    if is_bezier {
        let c = trim_start_range(&v, a + 12, b);
        proof {
            assert(css.skip(12) == v@.subrange(a + 12, b as int));
        }
        let ghost rest = v@.subrange(c as int, b as int);
        if c < b && v[c] == '(' && b - c >= 2 && v[b - 1] == ')' {
            proof {
                assert(rest.subrange(1, rest.len() - 1) == v@.subrange(c + 1, b - 1));
            }
            inner = Some((c + 1, b - 1));
        }
    }
    match inner {
        None => {
            let f = first_piece_len(&v, a, b);
            if range_equals(&v, a, a + f, "cubic-bezier") {
                let t = string_of(&v, a, b);
                Err(syntax_error("missing parentheses in ", t.as_str()))
            } else {
                Err(ParseError::UnknownFunction(string_of(&v, a, a + f)))
            }
        },
        Some((lo, hi)) => {
            match bezier_args(&v, lo, hi) {
                Err(e) => Err(e),
                Ok(args) => {
                    if args.len() != 4 {
                        Err(ParseError::WrongArgCount { expected: 4, found: args.len() })
                    } else {
                        Ok(CssEasing::CubicBezier(args))
                    }
                },
            }
        },
    }
}

/// A list of stop texts that checks out yields at least one stop.
proof fn lemma_raw_stops_nonempty(toks: Seq<Seq<char>>)
    requires
        toks.len() >= 1,
    ensures
        raw_stops(toks) matches Ok(r) ==> r.len() >= 1,
{
}

/// Whitespace around an easing function is tolerated: it parses, or fails,
/// exactly as the function alone does.
pub proof fn law_surrounding_whitespace_ignored(a: Seq<char>, s: Seq<char>, b: Seq<char>)
    requires
        all_ws(a),
        all_ws(b),
    ensures
        css_easing(a + s + b) == css_easing(s),
{
    lemma_trim_ignores_surrounding_ws(a, s, b);
}

/// Where `linear()` stops sit: an explicitly positioned stop keeps its
/// percentage; an unpositioned first stop sits at 0% and an unpositioned last
/// one at 100%; an unpositioned stop in between is spread between the nearest
/// stops before and after it that have a position (explicit, or being the
/// first or last stop), with only unpositioned middle stops between them.
pub proof fn law_stop_positions(raw: Seq<(Seq<char>, Option<Seq<char>>)>, k: int)
    requires
        0 <= k < raw.len(),
    ensures
        resolve(raw).len() == raw.len(),
        resolve(raw)[k].0 == raw[k].0,
        raw[k].1 matches Some(p) ==> resolve(raw)[k].1 == PositionView::Given(p),
        raw[k].1 is None && k == 0 ==> resolve(raw)[k].1 == PositionView::Start,
        raw[k].1 is None && k != 0 && k == raw.len() - 1 ==> resolve(raw)[k].1 == PositionView::End,
        raw[k].1 is None && 0 < k < raw.len() - 1 ==> (resolve(raw)[k].1 matches PositionView::Between(s, e) && {
            &&& 0 <= s < k < e < raw.len()
            &&& (raw[s].1 is Some || s == 0)
            &&& (raw[e].1 is Some || e == raw.len() - 1)
            &&& forall|j: int| s < j < e ==> raw[j].1 is None && j != 0 && j != raw.len() - 1
        }),
{
    if raw[k].1 is None && 0 < k < raw.len() - 1 {
        let a = anchored(raw);
        lemma_scan_backward(a, k - 1);
        lemma_scan_forward(a, k + 1);
        assert(a[0]);
        assert(a[raw.len() - 1]);
        let s = scan_backward(a, k - 1)->0;
        let e = scan_forward(a, k + 1)->0;
        assert(a[s]);
        assert(a[e]);
        assert forall|j: int| s < j < e implies raw[j].1 is None && j != 0 && j != raw.len() - 1 by {
            if j != k {
                assert(!a[j]);
            }
        }
    }
}

} // verus!
