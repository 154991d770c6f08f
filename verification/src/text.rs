//! Character-level text helpers shared by the label, caption and EXIF code:
//! Unicode whitespace, trimming, decimal rendering and decimal parsing.

use vstd::prelude::*;
use vstd::string::*;

verus! {

/// Unicode `White_Space` property — the set `char::is_whitespace` tests.
pub open spec fn is_ws(c: char) -> bool {
    ||| ('\u{9}' <= c && c <= '\u{d}')
    ||| c == ' '
    ||| c == '\u{85}'
    ||| c == '\u{a0}'
    ||| c == '\u{1680}'
    ||| ('\u{2000}' <= c && c <= '\u{200a}')
    ||| c == '\u{2028}'
    ||| c == '\u{2029}'
    ||| c == '\u{202f}'
    ||| c == '\u{205f}'
    ||| c == '\u{3000}'
}

/// Executable whitespace test.
pub fn is_whitespace(c: char) -> (b: bool)
    ensures
        b == is_ws(c),
{
    ('\u{9}' <= c && c <= '\u{d}') || c == ' ' || c == '\u{85}' || c == '\u{a0}' || c
        == '\u{1680}' || ('\u{2000}' <= c && c <= '\u{200a}') || c == '\u{2028}' || c
        == '\u{2029}' || c == '\u{202f}' || c == '\u{205f}' || c == '\u{3000}'
}

/// Every character of `s` is whitespace (vacuously true when empty).
pub open spec fn all_ws(s: Seq<char>) -> bool {
    forall|i: int| 0 <= i < s.len() ==> is_ws(#[trigger] s[i])
}

/// Length of `s` once trailing whitespace is removed.
pub open spec fn trim_end_len(s: Seq<char>) -> nat
    decreases s.len(),
{
    if s.len() == 0 {
        0
    } else if is_ws(s.last()) {
        trim_end_len(s.drop_last())
    } else {
        s.len()
    }
}

/// `s` without its trailing whitespace (`str::trim_end`).
pub open spec fn trim_end(s: Seq<char>) -> Seq<char> {
    s.take(trim_end_len(s) as int)
}

/// Number of leading whitespace characters of `s`.
pub open spec fn lead_ws(s: Seq<char>) -> nat
    decreases s.len(),
{
    if s.len() == 0 {
        0
    } else if is_ws(s[0]) {
        1 + lead_ws(s.drop_first())
    } else {
        0
    }
}

/// `s` without its leading whitespace (`str::trim_start`).
pub open spec fn trim_start(s: Seq<char>) -> Seq<char> {
    s.skip(lead_ws(s) as int)
}

/// `s` without leading and trailing whitespace (`str::trim`).
pub open spec fn trim(s: Seq<char>) -> Seq<char> {
    trim_end(trim_start(s))
}

pub proof fn lemma_trim_end_len(s: Seq<char>)
    ensures
        trim_end_len(s) <= s.len(),
        forall|i: int| trim_end_len(s) <= i < s.len() ==> is_ws(#[trigger] s[i]),
        trim_end_len(s) > 0 ==> !is_ws(s[trim_end_len(s) - 1]),
    decreases s.len(),
{
    if s.len() > 0 && is_ws(s.last()) {
        lemma_trim_end_len(s.drop_last());
        assert forall|i: int| trim_end_len(s) <= i < s.len() implies is_ws(#[trigger] s[i]) by {
            if i < s.len() - 1 {
                assert(s[i] == s.drop_last()[i]);
            }
        }
    }
}

pub proof fn lemma_lead_ws(s: Seq<char>)
    ensures
        lead_ws(s) <= s.len(),
        forall|i: int| 0 <= i < lead_ws(s) ==> is_ws(#[trigger] s[i]),
        lead_ws(s) < s.len() ==> !is_ws(s[lead_ws(s) as int]),
    decreases s.len(),
{
    if s.len() > 0 && is_ws(s[0]) {
        lemma_lead_ws(s.drop_first());
        assert forall|i: int| 0 <= i < lead_ws(s) implies is_ws(#[trigger] s[i]) by {
            if i > 0 {
                assert(s[i] == s.drop_first()[i - 1]);
            }
        }
    }
}

/// The trimmed string is empty exactly when every character is whitespace.
pub proof fn lemma_trim_empty_iff_all_ws(s: Seq<char>)
    ensures
        trim(s).len() == 0 <==> all_ws(s),
{
    lemma_lead_ws(s);
    let t = trim_start(s);
    lemma_trim_end_len(t);
    if trim(s).len() == 0 {
        assert forall|i: int| 0 <= i < s.len() implies is_ws(#[trigger] s[i]) by {
            if i >= lead_ws(s) {
                assert(t[i - lead_ws(s)] == s[i]);
            }
        }
    } else {
        let k = lead_ws(s) as int;
        assert(!is_ws(s[k]));
    }
}

/// Collect the characters of `s`.
pub fn chars_of(s: &str) -> (v: Vec<char>)
    ensures
        v@ == s@,
{
    let n = s.unicode_len();
    let mut v: Vec<char> = Vec::new();
    let mut i: usize = 0;
    while i < n
        invariant
            n == s@.len(),
            i <= n,
            v@ == s@.take(i as int),
        decreases n - i,
    {
        let c = s.get_char(i);
        v.push(c);
        i = i + 1;
        assert(v@ =~= s@.take(i as int));
    }
    assert(v@ =~= s@);
    v
}

/// Append one character to a `String` (`String::push`).
#[verifier::external_body]
pub(crate) fn push_char(s: &mut String, c: char)
    ensures
        final(s)@ == old(s)@.push(c),
{
    s.push(c);
}

/// Build a `String` holding `cs[from..to]`.
pub fn string_from_chars(cs: &[char], from: usize, to: usize) -> (s: String)
    requires
        from <= to <= cs@.len(),
    ensures
        s@ == cs@.subrange(from as int, to as int),
{
    let mut s = String::new();
    let mut i = from;
    while i < to
        invariant
            from <= i <= to,
            to <= cs@.len(),
            s@ == cs@.subrange(from as int, i as int),
        decreases to - i,
    {
        push_char(&mut s, cs[i]);
        i = i + 1;
        assert(s@ =~= cs@.subrange(from as int, i as int));
    }
    s
}

/// Append a string slice to a `String`.
pub fn push_str(s: &mut String, t: &str)
    ensures
        final(s)@ == old(s)@ + t@,
{
    s.append(t);
}

/// Length of `s` once trailing NUL characters are removed
/// (`str::trim_end_matches('\0')`).
pub open spec fn nul_end_len(s: Seq<char>) -> nat
    decreases s.len(),
{
    if s.len() == 0 {
        0
    } else if s.last() == '\0' {
        nul_end_len(s.drop_last())
    } else {
        s.len()
    }
}

/// `s` without trailing NUL characters.
pub open spec fn trim_end_nul(s: Seq<char>) -> Seq<char> {
    s.take(nul_end_len(s) as int)
}

/// Number of leading whitespace characters of `cs[from..to]`.
pub fn count_lead_ws(cs: &[char], from: usize, to: usize) -> (n: usize)
    requires
        from <= to <= cs@.len(),
    ensures
        n == lead_ws(cs@.subrange(from as int, to as int)),
        n <= to - from,
{
    let mut i = from;
    while i < to && is_whitespace(cs[i])
        invariant
            from <= i <= to <= cs@.len(),
            lead_ws(cs@.subrange(from as int, to as int)) == (i - from) + lead_ws(
                cs@.subrange(i as int, to as int),
            ),
        decreases to - i,
    {
        assert(cs@.subrange(i as int, to as int).drop_first() =~= cs@.subrange(
            i as int + 1,
            to as int,
        ));
        i = i + 1;
    }
    i - from
}

/// End index of `cs[from..to]` once trailing whitespace is removed.
pub fn trim_end_index(cs: &[char], from: usize, to: usize) -> (e: usize)
    requires
        from <= to <= cs@.len(),
    ensures
        from <= e <= to,
        e - from == trim_end_len(cs@.subrange(from as int, to as int)),
{
    let mut j = to;
    while j > from && is_whitespace(cs[j - 1])
        invariant
            from <= j <= to <= cs@.len(),
            trim_end_len(cs@.subrange(from as int, to as int)) == trim_end_len(
                cs@.subrange(from as int, j as int),
            ),
        decreases j - from,
    {
        assert(cs@.subrange(from as int, j as int).drop_last() =~= cs@.subrange(
            from as int,
            j as int - 1,
        ));
        j = j - 1;
    }
    j
}

/// End index of `cs[from..to]` once trailing NUL characters are removed.
pub fn trim_end_nul_index(cs: &[char], from: usize, to: usize) -> (e: usize)
    requires
        from <= to <= cs@.len(),
    ensures
        from <= e <= to,
        e - from == nul_end_len(cs@.subrange(from as int, to as int)),
{
    let mut j = to;
    while j > from && cs[j - 1] == '\0'
        invariant
            from <= j <= to <= cs@.len(),
            nul_end_len(cs@.subrange(from as int, to as int)) == nul_end_len(
                cs@.subrange(from as int, j as int),
            ),
        decreases j - from,
    {
        assert(cs@.subrange(from as int, j as int).drop_last() =~= cs@.subrange(
            from as int,
            j as int - 1,
        ));
        j = j - 1;
    }
    j
}

/// Bounds `[a, b)` of `trim(cs[from..to])` inside `cs`.
pub fn trim_bounds(cs: &[char], from: usize, to: usize) -> (r: (usize, usize))
    requires
        from <= to <= cs@.len(),
    ensures
        from <= r.0 <= r.1 <= to,
        cs@.subrange(r.0 as int, r.1 as int) == trim(cs@.subrange(from as int, to as int)),
{
    let a = from + count_lead_ws(cs, from, to);
    let b = trim_end_index(cs, a, to);
    assert(trim_start(cs@.subrange(from as int, to as int)) =~= cs@.subrange(a as int, to as int));
    assert(cs@.subrange(a as int, b as int) =~= cs@.subrange(a as int, to as int).take(
        (b - a) as int,
    ));
    (a, b)
}

/// An ASCII decimal digit.
pub open spec fn is_digit(c: char) -> bool {
    '0' <= c && c <= '9'
}

/// Every character of `s` is a decimal digit.
pub open spec fn all_digits(s: Seq<char>) -> bool {
    forall|i: int| 0 <= i < s.len() ==> is_digit(#[trigger] s[i])
}

/// The number a string of decimal digits denotes.
pub open spec fn digits_value(s: Seq<char>) -> int
    decreases s.len(),
{
    if s.len() == 0 {
        0
    } else {
        10 * digits_value(s.drop_last()) + (s.last() as int - '0' as int)
    }
}

/// What `str::parse` yields for an unsigned integer type whose largest
/// value is `max`: an optional `+`, then at least one digit, in range.
pub open spec fn parse_unsigned(s: Seq<char>, max: int) -> Option<int> {
    let body = if s.len() > 0 && s[0] == '+' { s.drop_first() } else { s };
    if body.len() > 0 && all_digits(body) && digits_value(body) <= max {
        Some(digits_value(body))
    } else {
        None
    }
}

/// Parse `cs[from..to]` as an unsigned integer no larger than `max`.
pub fn parse_unsigned_in(cs: &[char], from: usize, to: usize, max: u32) -> (r: Option<u32>)
    requires
        from <= to <= cs@.len(),
    ensures
        match r {
            Some(v) => parse_unsigned(cs@.subrange(from as int, to as int), max as int) == Some(
                v as int,
            ),
            None => parse_unsigned(cs@.subrange(from as int, to as int), max as int) is None,
        },
{
    let ghost s = cs@.subrange(from as int, to as int);
    let mut i = from;
    if i < to && cs[i] == '+' {
        i = i + 1;
    }
    let start = i;
    assert(cs@.subrange(start as int, to as int) =~= (if s.len() > 0 && s[0] == '+' {
        s.drop_first()
    } else {
        s
    }));
    if start == to {
        return None;
    }
    let mut v: u64 = 0;
    let mut over = false;
    while i < to
        invariant
            from <= start <= i <= to <= cs@.len(),
            s == cs@.subrange(from as int, to as int),
            cs@.subrange(start as int, to as int) == (if s.len() > 0 && s[0] == '+' {
                s.drop_first()
            } else {
                s
            }),
            start < to,
            all_digits(cs@.subrange(start as int, i as int)),
            digits_value(cs@.subrange(start as int, i as int)) >= 0,
            !over ==> v == digits_value(cs@.subrange(start as int, i as int)) && v <= max,
            over ==> digits_value(cs@.subrange(start as int, i as int)) > max,
        decreases to - i,
    {
        let c = cs[i];
        if !('0' <= c && c <= '9') {
            assert(!all_digits(cs@.subrange(start as int, to as int))) by {
                assert(cs@.subrange(start as int, to as int)[i - start] == c);
            }
            return None;
        }
        let d = (c as u32 - '0' as u32) as u64;
        assert(cs@.subrange(start as int, i as int + 1).drop_last() =~= cs@.subrange(
            start as int,
            i as int,
        ));
        if !over {
            v = v * 10 + d;
            if v > max as u64 {
                over = true;
            }
        }
        i = i + 1;
    }
    if over {
        None
    } else {
        Some(v as u32)
    }
}

/// Position of the first `c` in `s`, or `s.len()` when there is none.
pub open spec fn char_pos(s: Seq<char>, c: char) -> int
    decreases s.len(),
{
    if s.len() == 0 {
        0
    } else if s[0] == c {
        0
    } else {
        1 + char_pos(s.drop_first(), c)
    }
}

/// `str::split_once(c)`: the pieces before and after the first `c`.
pub open spec fn split_once(s: Seq<char>, c: char) -> Option<(Seq<char>, Seq<char>)> {
    let p = char_pos(s, c);
    if p < s.len() {
        Some((s.take(p), s.skip(p + 1)))
    } else {
        None
    }
}

/// The pieces `str::splitn(3, c)` yields, in order.
pub open spec fn splitn3(s: Seq<char>, c: char) -> Seq<Seq<char>> {
    match split_once(s, c) {
        None => seq![s],
        Some((a, rest)) => match split_once(rest, c) {
            None => seq![a, rest],
            Some((b, tail)) => seq![a, b, tail],
        },
    }
}

/// Index of the first `c` in `cs[from..to]`, or `to` when there is none.
pub fn find_char(cs: &[char], from: usize, to: usize, c: char) -> (p: usize)
    requires
        from <= to <= cs@.len(),
    ensures
        from <= p <= to,
        p - from == char_pos(cs@.subrange(from as int, to as int), c),
{
    let mut i = from;
    while i < to && cs[i] != c
        invariant
            from <= i <= to <= cs@.len(),
            char_pos(cs@.subrange(from as int, to as int), c) == (i - from) + char_pos(
                cs@.subrange(i as int, to as int),
                c,
            ),
        decreases to - i,
    {
        assert(cs@.subrange(i as int, to as int).drop_first() =~= cs@.subrange(
            i as int + 1,
            to as int,
        ));
        i = i + 1;
    }
    i
}

/// Lemma: `char_pos` never exceeds the length.
pub proof fn lemma_char_pos_bound(s: Seq<char>, c: char)
    ensures
        0 <= char_pos(s, c) <= s.len(),
        char_pos(s, c) < s.len() ==> s[char_pos(s, c)] == c,
    decreases s.len(),
{
    if s.len() > 0 && s[0] != c {
        lemma_char_pos_bound(s.drop_first(), c);
    }
}

/// A trimmed, non-empty string stays non-empty when trimmed again.
pub proof fn lemma_trim_trimmed(x: Seq<char>)
    requires
        trim(x).len() > 0,
    ensures
        trim(trim(x)).len() > 0,
{
    let c = trim(x);
    lemma_lead_ws(x);
    lemma_trim_end_len(trim_start(x));
    assert(c[0] == x[lead_ws(x) as int]);
    lemma_trim_empty_iff_all_ws(c);
}

/// The decimal digit character for `d` (`0 ≤ d ≤ 9`).
pub open spec fn digit_char(d: int) -> char {
    if d <= 0 {
        '0'
    } else if d == 1 {
        '1'
    } else if d == 2 {
        '2'
    } else if d == 3 {
        '3'
    } else if d == 4 {
        '4'
    } else if d == 5 {
        '5'
    } else if d == 6 {
        '6'
    } else if d == 7 {
        '7'
    } else if d == 8 {
        '8'
    } else {
        '9'
    }
}

/// The decimal rendering of `v`, without leading zeros (`format!("{v}")`).
pub open spec fn decimal(v: nat) -> Seq<char>
    decreases v,
{
    if v < 10 {
        seq![digit_char(v as int)]
    } else {
        decimal(v / 10).push(digit_char((v % 10) as int))
    }
}

/// `decimal(v)` left-padded with zeros to at least `width` characters
/// (`format!("{v:0width$}")`).
pub open spec fn zero_padded(v: nat, width: nat) -> Seq<char> {
    let d = decimal(v);
    if d.len() >= width {
        d
    } else {
        Seq::new((width - d.len()) as nat, |i: int| '0') + d
    }
}

fn digit(d: u32) -> (c: char)
    requires
        d < 10,
    ensures
        c == digit_char(d as int),
{
    if d == 0 {
        '0'
    } else if d == 1 {
        '1'
    } else if d == 2 {
        '2'
    } else if d == 3 {
        '3'
    } else if d == 4 {
        '4'
    } else if d == 5 {
        '5'
    } else if d == 6 {
        '6'
    } else if d == 7 {
        '7'
    } else if d == 8 {
        '8'
    } else {
        '9'
    }
}

/// Append the decimal rendering of `v`.
pub fn push_decimal(s: &mut String, v: u32)
    ensures
        final(s)@ == old(s)@ + decimal(v as nat),
    decreases v,
{
    if v >= 10 {
        push_decimal(s, v / 10);
    }
    push_char(s, digit(v % 10));
    assert(decimal(v as nat) == (if v < 10 {
        seq![digit_char(v as int)]
    } else {
        decimal((v / 10) as nat).push(digit_char((v % 10) as int))
    }));
}

/// Append `decimal(v)` left-padded with zeros to `width` characters.
pub fn push_zero_padded(s: &mut String, v: u32, width: usize)
    ensures
        final(s)@ == old(s)@ + zero_padded(v as nat, width as nat),
{
    let mut t = String::new();
    push_decimal(&mut t, v);
    assert(t@ =~= decimal(v as nat));
    let len = t.as_str().unicode_len();
    let ghost s0 = s@;
    let mut k = len;
    while k < width
        invariant
            len <= k,
            k <= width || k == len,
            s@ == s0 + Seq::new((k - len) as nat, |i: int| '0'),
        decreases width - k,
    {
        push_char(s, '0');
        k = k + 1;
        assert(s@ =~= s0 + Seq::new((k - len) as nat, |i: int| '0'));
    }
    push_str(s, t.as_str());
    assert(s@ =~= s0 + zero_padded(v as nat, width as nat));
}

/// Position of the first whitespace character of `s`, or `s.len()`.
pub open spec fn ws_pos(s: Seq<char>) -> int
    decreases s.len(),
{
    if s.len() == 0 {
        0
    } else if is_ws(s[0]) {
        0
    } else {
        1 + ws_pos(s.drop_first())
    }
}

/// `str::split_whitespace().next()`: the first run of non-whitespace.
pub open spec fn first_word(s: Seq<char>) -> Option<Seq<char>> {
    let t = trim_start(s);
    if t.len() == 0 {
        None
    } else {
        Some(t.take(ws_pos(t)))
    }
}

/// Index of the first whitespace character in `cs[from..to]`, or `to`.
pub fn find_ws(cs: &[char], from: usize, to: usize) -> (p: usize)
    requires
        from <= to <= cs@.len(),
    ensures
        from <= p <= to,
        p - from == ws_pos(cs@.subrange(from as int, to as int)),
{
    let mut i = from;
    while i < to && !is_whitespace(cs[i])
        invariant
            from <= i <= to <= cs@.len(),
            ws_pos(cs@.subrange(from as int, to as int)) == (i - from) + ws_pos(
                cs@.subrange(i as int, to as int),
            ),
        decreases to - i,
    {
        assert(cs@.subrange(i as int, to as int).drop_first() =~= cs@.subrange(
            i as int + 1,
            to as int,
        ));
        i = i + 1;
    }
    i
}

/// `a == b` on string slices.
pub fn str_eq(a: &str, b: &str) -> (r: bool)
    ensures
        r == (a@ == b@),
{
    let x = chars_of(a);
    let y = chars_of(b);
    if x.len() != y.len() {
        return false;
    }
    let mut i: usize = 0;
    while i < x.len()
        invariant
            x@ == a@,
            y@ == b@,
            x@.len() == y@.len(),
            i <= x@.len(),
            forall|j: int| 0 <= j < i ==> x@[j] == y@[j],
        decreases x.len() - i,
    {
        if x[i] != y[i] {
            return false;
        }
        i = i + 1;
    }
    assert(x@ =~= y@);
    true
}

} // verus!
