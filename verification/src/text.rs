//! Decimal text of integers and of fixed-point numbers.

use crate::fixed::Fixed;
use vstd::prelude::*;

verus! {

/// The character of the decimal digit `d`.
pub open spec fn digit(d: int) -> char
    recommends
        0 <= d <= 9,
{
    if d == 0 {
        '0'
    } else if d == 1 {
        '1'
    } else if d == 2 {
        '2'
    } else if d == 3 {
        '3'
    } else if d == 4 {
        '4'
    } else if d == 5 {
        '5'
    } else if d == 6 {
        '6'
    } else if d == 7 {
        '7'
    } else if d == 8 {
        '8'
    } else {
        '9'
    }
}

/// The decimal digits of `n`, most significant first, without leading zeros.
pub open spec fn decimal(n: nat) -> Seq<char>
    decreases n,
{
    if n < 10 {
        seq![digit(n as int)]
    } else {
        decimal(n / 10).push(digit((n % 10) as int))
    }
}

/// The last `width` decimal digits of `n`, with leading zeros.
pub open spec fn padded(n: nat, width: nat) -> Seq<char>
    decreases width,
{
    if width == 0 {
        Seq::empty()
    } else {
        padded(n / 10, (width - 1) as nat).push(digit((n % 10) as int))
    }
}

/// Ten to the power `e`.
pub open spec fn pow10(e: nat) -> int
    decreases e,
{
    if e == 0 {
        1
    } else {
        10 * pow10((e - 1) as nat)
    }
}

/// `mag / unit` rounded to the nearest integer, a tie going to the even one.
pub open spec fn rounded(mag: int, unit: int) -> int
    recommends
        mag >= 0,
        unit > 0,
{
    let q = mag / unit;
    let r = mag % unit;
    if 2 * r > unit || (2 * r == unit && q % 2 == 1) {
        q + 1
    } else {
        q
    }
}

/// The text of the number of `micros` millionths with `places` digits after
/// the decimal point: a minus sign for a negative number, the whole part,
/// and, where `places` is not zero, a point and the fraction. The last digit
/// is rounded, a tie going to the even digit.
pub open spec fn fixed_text(micros: int, places: nat) -> Seq<char>
    recommends
        places <= 6,
{
    let mag = if micros < 0 {
        -micros
    } else {
        micros
    };
    let r = rounded(mag, pow10((6 - places) as nat));
    let sign = if micros < 0 {
        seq!['-']
    } else {
        Seq::<char>::empty()
    };
    let whole = decimal((r / pow10(places)) as nat);
    if places == 0 {
        sign + whole
    } else {
        sign + whole + seq!['.'] + padded((r % pow10(places)) as nat, places)
    }
}

/// The one-character text of the digit `d`.
pub fn digit_str(d: u8) -> (s: &'static str)
    requires
        d <= 9,
    ensures
        s@ == seq![digit(d as int)],
{
    proof {
        reveal_strlit("0");
        reveal_strlit("1");
        reveal_strlit("2");
        reveal_strlit("3");
        reveal_strlit("4");
        reveal_strlit("5");
        reveal_strlit("6");
        reveal_strlit("7");
        reveal_strlit("8");
        reveal_strlit("9");
    }
    let s = if d == 0 {
        "0"
    } else if d == 1 {
        "1"
    } else if d == 2 {
        "2"
    } else if d == 3 {
        "3"
    } else if d == 4 {
        "4"
    } else if d == 5 {
        "5"
    } else if d == 6 {
        "6"
    } else if d == 7 {
        "7"
    } else if d == 8 {
        "8"
    } else {
        "9"
    };
    assert(s@ =~= seq![digit(d as int)]);
    s
}

/// The decimal text of `n`.
pub fn u64_text(n: u64) -> (s: String)
    ensures
        s@ == decimal(n as nat),
    decreases n,
{
    if n < 10 {
        String::from_str(digit_str(n as u8))
    } else {
        let mut s = u64_text(n / 10);
        s.append(digit_str((n % 10) as u8));
        s
    }
}

/// The last `width` decimal digits of `n`, with leading zeros.
pub fn padded_text(n: u64, width: u8) -> (s: String)
    ensures
        s@ == padded(n as nat, width as nat),
    decreases width,
{
    if width == 0 {
        String::new()
    } else {
        let mut s = padded_text(n / 10, width - 1);
        s.append(digit_str((n % 10) as u8));
        s
    }
}

/// Ten to the power `e`.
pub fn pow10_u64(e: u8) -> (r: u64)
    requires
        e <= 6,
    ensures
        r == pow10(e as nat),
        1 <= r <= 1_000_000,
{
    reveal_with_fuel(pow10, 8);
    if e == 0 {
        1
    } else if e == 1 {
        10
    } else if e == 2 {
        100
    } else if e == 3 {
        1_000
    } else if e == 4 {
        10_000
    } else if e == 5 {
        100_000
    } else {
        1_000_000
    }
}

/// The text of `x` with `places` digits after the decimal point.
pub fn format_fixed(x: Fixed, places: u8) -> (s: String)
    requires
        places <= 6,
    ensures
        s@ == fixed_text(x@, places as nat),
{
    let negative = x.micros < 0;
    let mag: u64 = if negative {
        (-(x.micros as i128)) as u64
    } else {
        x.micros as u64
    };
    let unit: u64 = pow10_u64(6 - places);
    let scale: u64 = pow10_u64(places);
    let q: u64 = mag / unit;
    let rem: u64 = mag % unit;
    let up = rem > unit - rem || (rem == unit - rem && q % 2 == 1);
    let r: u64 = if up {
        q + 1
    } else {
        q
    };
    assert(r == rounded(mag as int, unit as int));
    let mut s = if negative {
        String::from_str("-")
    } else {
        String::new()
    };
    proof {
        reveal_strlit("-");
        reveal_strlit(".");
        assert("-"@ =~= seq!['-']);
        assert("."@ =~= seq!['.']);
    }
    let whole = u64_text(r / scale);
    s.append(whole.as_str());
    if places > 0 {
        s.append(".");
        let frac = padded_text(r % scale, places);
        s.append(frac.as_str());
    }
    assert(s@ =~= fixed_text(x@, places as nat));
    s
}

/// The lower-case form of a text, as Unicode defines it.
pub uninterp spec fn lowercase_of(s: Seq<char>) -> Seq<char>;

/// The upper-case form of a text, as Unicode defines it.
pub uninterp spec fn uppercase_of(s: Seq<char>) -> Seq<char>;

/// The lower-case form of `s`. Calls `str::to_lowercase` of the standard
/// library, whose result depends on `s` alone and is named, not spelled out.
#[verifier::external_body]
pub(crate) fn to_lowercase(s: &str) -> (r: String)
    ensures
        r@ == lowercase_of(s@),
{
    s.to_lowercase()
}

/// The upper-case form of `s`. Calls `str::to_uppercase` of the standard
/// library, whose result depends on `s` alone and is named, not spelled out.
#[verifier::external_body]
pub(crate) fn to_uppercase(s: &str) -> (r: String)
    ensures
        r@ == uppercase_of(s@),
{
    s.to_uppercase()
}

/// Whether `s` reads `text`.
pub fn text_is(s: &String, text: &str) -> (r: bool)
    ensures
        r == (s@ == text@),
{
    let other = String::from_str(text);
    *s == other
}

/// Adds `text` at the end of `list`.
pub fn push_text(list: &mut Vec<String>, text: &str)
    ensures
        final(list).deep_view() == old(list).deep_view().push(text@),
{
    list.push(String::from_str(text));
    assert(list.deep_view() =~= old(list).deep_view().push(text@));
}

/// Adds `text` at the end of `list`.
pub fn push_string(list: &mut Vec<String>, text: String)
    ensures
        final(list).deep_view() == old(list).deep_view().push(text@),
{
    let ghost added = text@;
    list.push(text);
    assert(list.deep_view() =~= old(list).deep_view().push(added));
}

/// The text that follows `prefix` in `s`, where `s` begins with `prefix`.
pub open spec fn stripped(s: Seq<char>, prefix: Seq<char>) -> Option<Seq<char>> {
    if prefix.is_prefix_of(s) {
        Some(s.skip(prefix.len() as int))
    } else {
        None
    }
}

/// The text that follows `prefix` in `s`; nothing where `s` does not begin
/// with `prefix`.
pub fn strip_prefix<'a>(s: &'a str, prefix: &str) -> (r: Option<&'a str>)
    ensures
        match r {
            Some(rest) => stripped(s@, prefix@) == Some(rest@),
            None => stripped(s@, prefix@) is None,
        },
{
    let n: usize = s.unicode_len();
    let m: usize = prefix.unicode_len();
    if m > n {
        return None;
    }
    let mut i: usize = 0;
    while i < m
        invariant
            n == s@.len(),
            m == prefix@.len(),
            m <= n,
            0 <= i <= m,
            forall|k: int| 0 <= k < i ==> s@[k] == prefix@[k],
        decreases m - i,
    {
        if s.get_char(i) != prefix.get_char(i) {
            assert(!prefix@.is_prefix_of(s@)) by {
                if prefix@.is_prefix_of(s@) {
                    assert(s@.subrange(0, prefix@.len() as int)[i as int] == prefix@[i as int]);
                }
            }
            return None;
        }
        i = i + 1;
    }
    assert(s@.subrange(0, m as int) =~= prefix@);
    let rest = s.substring_char(m, n);
    assert(s@.subrange(m as int, n as int) =~= s@.skip(m as int));
    Some(rest)
}

/// The value of the decimal digit `c`; nothing where `c` is no digit.
pub open spec fn digit_value(c: char) -> Option<int> {
    if c == '0' {
        Some(0)
    } else if c == '1' {
        Some(1)
    } else if c == '2' {
        Some(2)
    } else if c == '3' {
        Some(3)
    } else if c == '4' {
        Some(4)
    } else if c == '5' {
        Some(5)
    } else if c == '6' {
        Some(6)
    } else if c == '7' {
        Some(7)
    } else if c == '8' {
        Some(8)
    } else if c == '9' {
        Some(9)
    } else {
        None
    }
}

/// The number that the decimal digits `s` write; nothing where `s` holds a
/// character that is no digit. The empty text writes zero.
pub open spec fn digits_value(s: Seq<char>) -> Option<int>
    decreases s.len(),
{
    if s.len() == 0 {
        Some(0)
    } else {
        match (digits_value(s.drop_last()), digit_value(s.last())) {
            (Some(head), Some(d)) => Some(head * 10 + d),
            _ => None,
        }
    }
}

/// The number that `s` writes in decimal: one or more digits, a plus sign
/// before them or none, and nothing else; nothing where `s` is not of that
/// form or the number is above `max`.
pub open spec fn parsed(s: Seq<char>, max: int) -> Option<int> {
    let body = if s.len() > 0 && s[0] == '+' {
        s.skip(1)
    } else {
        s
    };
    if body.len() == 0 {
        None
    } else {
        match digits_value(body) {
            Some(v) => if v <= max {
                Some(v)
            } else {
                None
            },
            None => None,
        }
    }
}

/// The value of the decimal digit `c`.
fn digit_of(c: char) -> (r: Option<u64>)
    ensures
        match r {
            Some(d) => digit_value(c) == Some(d as int) && d <= 9,
            None => digit_value(c) is None,
        },
{
    if c == '0' {
        Some(0)
    } else if c == '1' {
        Some(1)
    } else if c == '2' {
        Some(2)
    } else if c == '3' {
        Some(3)
    } else if c == '4' {
        Some(4)
    } else if c == '5' {
        Some(5)
    } else if c == '6' {
        Some(6)
    } else if c == '7' {
        Some(7)
    } else if c == '8' {
        Some(8)
    } else if c == '9' {
        Some(9)
    } else {
        None
    }
}

/// A text with a character that is no digit writes no number, whatever
/// follows the character.
proof fn lemma_digits_value_none(s: Seq<char>, i: int)
    requires
        0 <= i < s.len(),
        digits_value(s.take(i + 1)) is None,
    ensures
        digits_value(s) is None,
    decreases s.len() - i,
{
    if i + 1 < s.len() {
        assert(s.take(i + 2).drop_last() =~= s.take(i + 1));
        lemma_digits_value_none(s, i + 1);
    } else {
        assert(s.take(i + 1) =~= s);
    }
}

/// The number that a text of digits writes grows with each digit that
/// follows.
proof fn lemma_digits_value_grows(s: Seq<char>, i: int)
    requires
        0 <= i <= s.len(),
        digits_value(s) is Some,
    ensures
        digits_value(s.take(i)) is Some,
        0 <= digits_value(s.take(i))->Some_0 <= digits_value(s)->Some_0,
    decreases s.len() - i,
{
    if i < s.len() {
        lemma_digits_value_grows(s, i + 1);
        assert(s.take(i + 1).drop_last() =~= s.take(i));
        lemma_digits_value_nonnegative(s.take(i));
    } else {
        assert(s.take(i) =~= s);
        lemma_digits_value_nonnegative(s);
    }
}

/// A text of digits writes no negative number.
proof fn lemma_digits_value_nonnegative(s: Seq<char>)
    ensures
        digits_value(s) is Some ==> digits_value(s)->Some_0 >= 0,
    decreases s.len(),
{
    if s.len() > 0 {
        lemma_digits_value_nonnegative(s.drop_last());
    }
}

/// The number that `s` writes in decimal, where it is at most `max`.
pub fn parse_number(s: &str, max: u64) -> (r: Option<u64>)
    ensures
        match r {
            Some(v) => parsed(s@, max as int) == Some(v as int),
            None => parsed(s@, max as int) is None,
        },
{
    let n: usize = s.unicode_len();
    let start: usize = if n > 0 && s.get_char(0) == '+' {
        1
    } else {
        0
    };
    if start == n {
        return None;
    }
    let ghost body = s@.skip(start as int);
    proof {
        if start == 0 {
            assert(body =~= s@);
        }
    }
    let mut value: u64 = 0;
    let mut i: usize = start;
    assert(body.take(0) =~= Seq::<char>::empty());
    while i < n
        invariant
            n == s@.len(),
            start <= i <= n,
            body == s@.skip(start as int),
            start == 0 ==> body == s@,
            start == (if s@.len() > 0 && s@[0] == '+' {
                1usize
            } else {
                0usize
            }),
            start < n,
            digits_value(body.take(i - start)) == Some(value as int),
            value <= max,
        decreases n - i,
    {
        let ghost next = body.take(i - start + 1);
        proof {
            assert(next.drop_last() =~= body.take(i - start));
            assert(next.last() == s@[i as int]);
        }
        match digit_of(s.get_char(i)) {
            None => {
                proof {
                    assert(digits_value(next) is None);
                    lemma_digits_value_none(body, i - start);
                }
                return None;
            },
            Some(d) => {
                if d > max || value > (max - d) / 10 {
                    proof {
                        let v: int = value as int * 10 + d;
                        assert(digits_value(next) == Some(v));
                        if d <= max {
                            assert(v > max) by (nonlinear_arith)
                                requires
                                    value > (max - d) / 10,
                                    v == value * 10 + d,
                                    0 <= d <= max,
                            ;
                        }
                        if digits_value(body) is Some {
                            lemma_digits_value_grows(body, i - start + 1);
                        }
                    }
                    return None;
                }
                assert(value * 10 + d <= max) by (nonlinear_arith)
                    requires
                        value <= (max - d) / 10,
                        0 <= d <= max,
                ;
                value = value * 10 + d;
                assert(digits_value(next) == Some(value as int));
            },
        }
        i = i + 1;
    }
    assert(body.take(n - start) =~= body);
    Some(value)
}

/// Whether `c` is white space, as Unicode defines it.
pub open spec fn is_space(c: char) -> bool {
    let n = c as u32;
    (0x09 <= n <= 0x0d) || n == 0x20 || n == 0x85 || n == 0xa0 || n == 0x1680 || (0x2000 <= n
        <= 0x200a) || n == 0x2028 || n == 0x2029 || n == 0x202f || n == 0x205f || n == 0x3000
}

/// How many characters of white space `s` begins with.
pub open spec fn leading(s: Seq<char>) -> nat
    decreases s.len(),
{
    if s.len() > 0 && is_space(s[0]) {
        1 + leading(s.drop_first())
    } else {
        0
    }
}

/// How many characters of white space `s` ends with.
pub open spec fn trailing(s: Seq<char>) -> nat
    decreases s.len(),
{
    if s.len() > 0 && is_space(s.last()) {
        1 + trailing(s.drop_last())
    } else {
        0
    }
}

/// `s` without the white space at its two ends.
pub open spec fn trimmed(s: Seq<char>) -> Seq<char> {
    if leading(s) >= s.len() {
        Seq::<char>::empty()
    } else {
        s.subrange(leading(s) as int, s.len() - trailing(s))
    }
}

/// Where the line that begins at `from` ends: at the next line feed, or at
/// the end of `s`.
pub open spec fn line_end(s: Seq<char>, from: int) -> int
    decreases s.len() - from,
{
    if from < 0 || from >= s.len() {
        s.len() as int
    } else if s[from] == '\n' {
        from
    } else {
        line_end(s, from + 1)
    }
}

/// A line ends no earlier than it begins, and within the text.
pub proof fn lemma_line_end_bounds(s: Seq<char>, from: int)
    requires
        0 <= from <= s.len(),
    ensures
        from <= line_end(s, from) <= s.len(),
    decreases s.len() - from,
{
    if from < s.len() && s[from] != '\n' {
        lemma_line_end_bounds(s, from + 1);
    }
}

/// The lines of `s` from `from` on that hold more than white space, each
/// without the white space at its two ends, in order.
pub open spec fn trimmed_lines(s: Seq<char>, from: int) -> Seq<Seq<char>>
    decreases s.len() - from + 1,
{
    if from < 0 || from >= s.len() {
        Seq::<Seq<char>>::empty()
    } else {
        proof {
            lemma_line_end_bounds(s, from);
        }
        let line = trimmed(s.subrange(from, line_end(s, from)));
        let rest = trimmed_lines(s, line_end(s, from) + 1);
        if line.len() > 0 {
            seq![line] + rest
        } else {
            rest
        }
    }
}

/// A line ends at the first line feed that follows its beginning.
proof fn lemma_line_end(s: Seq<char>, from: int, end: int)
    requires
        0 <= from <= end <= s.len(),
        forall|k: int| from <= k < end ==> s[k] != '\n',
        end == s.len() || s[end] == '\n',
    ensures
        line_end(s, from) == end,
    decreases end - from,
{
    if from < end {
        lemma_line_end(s, from + 1, end);
    }
}

/// A text begins with as much white space as stands before its first
/// character that is none.
proof fn lemma_leading(s: Seq<char>, count: int)
    requires
        0 <= count <= s.len(),
        forall|k: int| 0 <= k < count ==> is_space(s[k]),
        count == s.len() || !is_space(s[count]),
    ensures
        leading(s) == count,
    decreases count,
{
    if count > 0 {
        let rest = s.drop_first();
        assert forall|k: int| 0 <= k < count - 1 implies is_space(rest[k]) by {
            assert(rest[k] == s[k + 1]);
        }
        lemma_leading(rest, count - 1);
    }
}

/// A text ends with as much white space as stands behind its last character
/// that is none.
proof fn lemma_trailing(s: Seq<char>, count: int)
    requires
        0 <= count <= s.len(),
        forall|k: int| s.len() - count <= k < s.len() ==> is_space(s[k]),
        count == s.len() || !is_space(s[s.len() - count - 1]),
    ensures
        trailing(s) == count,
    decreases count,
{
    if count > 0 {
        let rest = s.drop_last();
        assert forall|k: int| rest.len() - (count - 1) <= k < rest.len() implies is_space(
            rest[k],
        ) by {
            assert(rest[k] == s[k]);
        }
        lemma_trailing(rest, count - 1);
    }
}

/// Whether `c` is white space.
pub fn is_whitespace(c: char) -> (r: bool)
    ensures
        r == is_space(c),
{
    let n: u32 = c as u32;
    (0x09 <= n && n <= 0x0d) || n == 0x20 || n == 0x85 || n == 0xa0 || n == 0x1680 || (0x2000
        <= n && n <= 0x200a) || n == 0x2028 || n == 0x2029 || n == 0x202f || n == 0x205f || n
        == 0x3000
}

/// The lines of `s` that hold more than white space, each without the white
/// space at its two ends, in order.
pub fn lines_trimmed(s: &str) -> (lines: Vec<String>)
    ensures
        lines.deep_view() == trimmed_lines(s@, 0),
{
    let n: usize = s.unicode_len();
    let mut lines: Vec<String> = Vec::new();
    let mut start: usize = 0;
    assert(lines.deep_view() =~= Seq::<Seq<char>>::empty());
    while start < n
        invariant
            n == s@.len(),
            0 <= start <= n,
            lines.deep_view() + trimmed_lines(s@, start as int) == trimmed_lines(s@, 0),
        decreases n - start,
    {
        let mut end: usize = start;
        while end < n && s.get_char(end) != '\n'
            invariant
                n == s@.len(),
                start <= end <= n,
                forall|k: int| start <= k < end ==> s@[k] != '\n',
            decreases n - end,
        {
            end = end + 1;
        }
        let mut first: usize = start;
        while first < end && is_whitespace(s.get_char(first))
            invariant
                n == s@.len(),
                start <= first <= end <= n,
                forall|k: int| start <= k < first ==> is_space(s@[k]),
            decreases end - first,
        {
            first = first + 1;
        }
        let mut last: usize = end;
        while last > first && is_whitespace(s.get_char(last - 1))
            invariant
                n == s@.len(),
                first <= last <= end <= n,
                forall|k: int| last <= k < end ==> is_space(s@[k]),
            decreases last,
        {
            last = last - 1;
        }
        let ghost before = lines.deep_view();
        let ghost line = s@.subrange(start as int, end as int);
        proof {
            lemma_line_end(s@, start as int, end as int);
            assert forall|k: int| 0 <= k < first - start implies is_space(line[k]) by {
                assert(line[k] == s@[start + k]);
            }
            lemma_leading(line, first - start);
            if first < end {
                assert(!is_space(line[first - start]));
                assert forall|k: int| line.len() - (end - last) <= k < line.len() implies is_space(
                    line[k],
                ) by {
                    assert(line[k] == s@[start + k]);
                }
                assert(last > first);
                assert(line[line.len() - (end - last) - 1] == s@[last - 1]);
                lemma_trailing(line, end - last);
                assert(trimmed(line) =~= s@.subrange(first as int, last as int));
            }
        }
        if first < last {
            let piece = s.substring_char(first, last);
            push_text(&mut lines, piece);
            assert(lines.deep_view() =~= before + seq![trimmed(line)]);
        }
        proof {
            let rest = trimmed_lines(s@, end + 1);
            if trimmed(line).len() > 0 {
                assert(trimmed_lines(s@, start as int) == seq![trimmed(line)] + rest);
                assert(lines.deep_view() + rest =~= before + (seq![trimmed(line)] + rest));
            } else {
                assert(trimmed_lines(s@, start as int) == rest);
            }
        }
        start = if end < n {
            end + 1
        } else {
            n
        };
        proof {
            if end == n {
                assert(trimmed_lines(s@, end + 1) =~= trimmed_lines(s@, n as int));
            }
        }
    }
    assert(lines.deep_view() + trimmed_lines(s@, n as int) =~= lines.deep_view());
    lines
}

} // verus!
