//! Character-level text handling: what the standard library's `lines`, `trim`,
//! `strip_prefix`, `strip_suffix` and `u64` parsing do, over character
//! sequences.

use vstd::prelude::*;
use vstd::slice::slice_subrange;

verus! {

/// The characters of a text that may be missing.
pub open spec fn str_view(text: Option<&str>) -> Option<Seq<char>> {
    match text {
        Some(text) => Some(text@),
        None => None,
    }
}

/// The characters of a text that may be missing.
pub open spec fn string_view(text: Option<String>) -> Option<Seq<char>> {
    match text {
        Some(text) => Some(text@),
        None => None,
    }
}

/// A code point with the Unicode property White_Space.
pub open spec fn is_white_space(c: char) -> bool {
    let u = c as u32;
    ||| 0x09 <= u <= 0x0D
    ||| u == 0x20
    ||| u == 0x85
    ||| u == 0xA0
    ||| u == 0x1680
    ||| 0x2000 <= u <= 0x200A
    ||| u == 0x2028
    ||| u == 0x2029
    ||| u == 0x202F
    ||| u == 0x205F
    ||| u == 0x3000
}

/// `s` without white space at either end.
pub open spec fn trimmed(s: Seq<char>) -> Seq<char>
    decreases s.len(),
{
    if s.len() > 0 && is_white_space(s.first()) {
        trimmed(s.drop_first())
    } else if s.len() > 0 && is_white_space(s.last()) {
        trimmed(s.drop_last())
    } else {
        s
    }
}

/// The value of `c` as a decimal digit, meaningful for `'0'` to `'9'` only.
pub open spec fn digit_value(c: char) -> nat {
    (c as u32 - '0' as u32) as nat
}

pub open spec fn is_digit(c: char) -> bool {
    '0' <= c <= '9'
}

pub open spec fn all_digits(s: Seq<char>) -> bool {
    forall|i: int| 0 <= i < s.len() ==> is_digit(#[trigger] s[i])
}

/// The number that a sequence of decimal digits denotes.
pub open spec fn decimal_value(s: Seq<char>) -> nat
    decreases s.len(),
{
    if s.len() == 0 {
        0
    } else {
        decimal_value(s.drop_last()) * 10 + digit_value(s.last())
    }
}

/// The digits of an unsigned number: the text after an optional plus sign.
pub open spec fn unsigned_part(s: Seq<char>) -> Seq<char> {
    if s.len() > 0 && s.first() == '+' {
        s.drop_first()
    } else {
        s
    }
}

/// The `u64` that `s` spells: an optional plus sign, then one or more decimal
/// digits, and nothing else. `None` for any other text, and for a number that
/// does not fit.
pub open spec fn parsed_u64(s: Seq<char>) -> Option<u64> {
    let digits = unsigned_part(s);
    if digits.len() > 0 && all_digits(digits) && decimal_value(digits) <= u64::MAX {
        Some(decimal_value(digits) as u64)
    } else {
        None
    }
}

/// `s` without `prefix`, where `s` begins with it.
pub open spec fn without_prefix(s: Seq<char>, prefix: Seq<char>) -> Option<Seq<char>> {
    if prefix.is_prefix_of(s) {
        Some(s.skip(prefix.len() as int))
    } else {
        None
    }
}

/// `s` without `suffix`, where `s` ends with it.
pub open spec fn without_suffix(s: Seq<char>, suffix: Seq<char>) -> Option<Seq<char>> {
    if suffix.is_suffix_of(s) {
        Some(s.take(s.len() - suffix.len()))
    } else {
        None
    }
}

/// The position of the first line feed in `s`, or the length of `s` where
/// there is none.
pub open spec fn line_feed(s: Seq<char>) -> int
    decreases s.len(),
{
    if s.len() == 0 || s.first() == '\n' {
        0
    } else {
        1 + line_feed(s.drop_first())
    }
}

/// The first line of `s`, without its line ending: a line feed, or a carriage
/// return followed by a line feed. The ending of the last line is optional.
pub open spec fn first_line(s: Seq<char>) -> Seq<char> {
    let end = line_feed(s);
    let line = s.take(end);
    if end < s.len() && line.len() > 0 && line.last() == '\r' {
        line.drop_last()
    } else {
        line
    }
}

/// What follows the first line of `s` and its line ending.
pub open spec fn after_first_line(s: Seq<char>) -> Seq<char> {
    let end = line_feed(s);
    if end < s.len() {
        s.skip(end + 1)
    } else {
        Seq::empty()
    }
}

/// Where the first line feed is: no character before it is one.
pub proof fn lemma_line_feed(s: Seq<char>)
    ensures
        0 <= line_feed(s) <= s.len(),
        line_feed(s) < s.len() ==> s[line_feed(s)] == '\n',
        forall|i: int| 0 <= i < line_feed(s) ==> s[i] != '\n',
    decreases s.len(),
{
    if s.len() > 0 && s.first() != '\n' {
        lemma_line_feed(s.drop_first());
        assert forall|i: int| 0 <= i < line_feed(s) implies s[i] != '\n' by {
            if i > 0 {
                assert(s[i] == s.drop_first()[i - 1]);
            }
        }
    }
}

/// The first line feed is the only position that `lemma_line_feed` fits.
pub proof fn lemma_line_feed_unique(s: Seq<char>, end: int)
    requires
        0 <= end <= s.len(),
        end < s.len() ==> s[end] == '\n',
        forall|i: int| 0 <= i < end ==> s[i] != '\n',
    ensures
        line_feed(s) == end,
{
    lemma_line_feed(s);
    if line_feed(s) < end {
        assert(s[line_feed(s)] != '\n');
    }
    if end < line_feed(s) {
        assert(s[end] != '\n');
    }
}

/// Less text is left after a line is taken off.
pub proof fn lemma_after_first_line_shorter(s: Seq<char>)
    requires
        s.len() > 0,
    ensures
        after_first_line(s).len() < s.len(),
{
    lemma_line_feed(s);
}

/// More digits never denote a smaller number.
proof fn lemma_decimal_prefix(s: Seq<char>, n: int)
    requires
        0 <= n <= s.len(),
    ensures
        decimal_value(s.take(n)) <= decimal_value(s),
    decreases s.len() - n,
{
    if n == s.len() {
        assert(s.take(n) == s);
    } else {
        lemma_decimal_prefix(s, n + 1);
        assert(s.take(n + 1).drop_last() == s.take(n));
    }
}

/// The characters of `text`.
pub fn chars_of(text: &str) -> (r: Vec<char>)
    ensures
        r@ == text@,
{
    let mut chars: Vec<char> = Vec::new();
    for c in it: text.chars()
        invariant
            it.seq() == text@,
            chars@ == text@.take(it.index()),
    {
        chars.push(c);
        assert(text@.take(it.index() + 1) == text@.take(it.index()).push(c));
    }
    assert(text@.take(text@.len() as int) == text@);
    chars
}

/// Whether `c` has the Unicode property White_Space.
pub fn white_space(c: char) -> (r: bool)
    ensures
        r == is_white_space(c),
{
    let u: u32 = c as u32;
    (0x09 <= u && u <= 0x0D) || u == 0x20 || u == 0x85 || u == 0xA0 || u == 0x1680 || (0x2000 <= u
        && u <= 0x200A) || u == 0x2028 || u == 0x2029 || u == 0x202F || u == 0x205F || u == 0x3000
}

/// `s` without white space at either end.
pub fn trim(s: &[char]) -> (r: &[char])
    ensures
        r@ == trimmed(s@),
{
    let mut start: usize = 0;
    let mut end: usize = s.len();
    assert(s@.subrange(0, s@.len() as int) == s@);
    while start < end && white_space(s[start])
        invariant
            start <= end == s@.len(),
            trimmed(s@) == trimmed(s@.subrange(start as int, end as int)),
        decreases end - start,
    {
        assert(s@.subrange(start as int, end as int).drop_first() == s@.subrange(
            start + 1,
            end as int,
        ));
        start = start + 1;
    }
    while start < end && white_space(s[end - 1])
        invariant
            start <= end <= s@.len(),
            start < end ==> !is_white_space(s@[start as int]),
            trimmed(s@) == trimmed(s@.subrange(start as int, end as int)),
        decreases end - start,
    {
        assert(s@.subrange(start as int, end as int).drop_last() == s@.subrange(
            start as int,
            end - 1,
        ));
        end = end - 1;
    }
    slice_subrange(s, start, end)
}

/// `s` without `prefix`, where `s` begins with it.
pub fn strip_prefix<'a>(s: &'a [char], prefix: &str) -> (r: Option<&'a [char]>)
    ensures
        match r {
            Some(rest) => without_prefix(s@, prefix@) == Some(rest@),
            None => without_prefix(s@, prefix@) is None,
        },
{
    let wanted = chars_of(prefix);
    if s.len() < wanted.len() {
        return None;
    }
    let mut i: usize = 0;
    while i < wanted.len()
        invariant
            i <= wanted@.len() <= s@.len(),
            wanted@ == prefix@,
            forall|j: int| 0 <= j < i ==> s@[j] == wanted@[j],
        decreases wanted@.len() - i,
    {
        if s[i] != wanted[i] {
            assert(!prefix@.is_prefix_of(s@)) by {
                assert(s@.subrange(0, prefix@.len() as int)[i as int] == s@[i as int]);
            }
            return None;
        }
        i = i + 1;
    }
    assert(prefix@ == s@.subrange(0, prefix@.len() as int));
    Some(slice_subrange(s, wanted.len(), s.len()))
}

/// `s` without `suffix`, where `s` ends with it.
pub fn strip_suffix<'a>(s: &'a [char], suffix: &str) -> (r: Option<&'a [char]>)
    ensures
        match r {
            Some(rest) => without_suffix(s@, suffix@) == Some(rest@),
            None => without_suffix(s@, suffix@) is None,
        },
{
    let wanted = chars_of(suffix);
    if s.len() < wanted.len() {
        return None;
    }
    let len: usize = s.len();
    let start: usize = len - wanted.len();
    let mut i: usize = 0;
    while i < wanted.len()
        invariant
            i <= wanted@.len(),
            len == s@.len() == start + wanted@.len(),
            wanted@ == suffix@,
            forall|j: int| 0 <= j < i ==> s@[start + j] == wanted@[j],
        decreases wanted@.len() - i,
    {
        if s[start + i] != wanted[i] {
            assert(!suffix@.is_suffix_of(s@)) by {
                assert(s@.subrange(start as int, s@.len() as int)[i as int] == s@[start + i]);
            }
            return None;
        }
        i = i + 1;
    }
    assert(suffix@ == s@.subrange(start as int, s@.len() as int));
    Some(slice_subrange(s, 0, start))
}

/// The `u64` that `s` spells.
pub fn parse_u64(s: &[char]) -> (r: Option<u64>)
    ensures
        r == parsed_u64(s@),
{
    let ghost digits = unsigned_part(s@);
    let start: usize = if s.len() > 0 && s[0] == '+' {
        1
    } else {
        0
    };
    assert(digits == s@.skip(start as int));
    if start == s.len() {
        return None;
    }
    let mut value: u64 = 0;
    let mut i: usize = start;
    while i < s.len()
        invariant
            start <= i <= s@.len(),
            start < s@.len(),
            digits == s@.skip(start as int),
            digits == unsigned_part(s@),
            all_digits(digits.take(i - start)),
            value == decimal_value(digits.take(i - start)),
        decreases s@.len() - i,
    {
        let c: char = s[i];
        assert(digits[i - start] == c);
        if !('0' <= c && c <= '9') {
            return None;
        }
        let digit: u64 = (c as u32 - '0' as u32) as u64;
        proof {
            assert(digits.take(i - start + 1).drop_last() == digits.take(i - start));
            lemma_decimal_prefix(digits, i - start + 1);
        }
        match value.checked_mul(10) {
            None => {
                return None;
            },
            Some(tens) => match tens.checked_add(digit) {
                None => {
                    return None;
                },
                Some(next) => {
                    value = next;
                },
            },
        }
        i = i + 1;
    }
    assert(digits.take(i - start) == digits);
    Some(value)
}

/// The position of the first line feed at or after `from`, or the length of
/// `s` where there is none.
pub fn find_line_feed(s: &[char], from: usize) -> (r: usize)
    requires
        from <= s@.len(),
    ensures
        from <= r <= s@.len(),
        r == from + line_feed(s@.skip(from as int)),
{
    let mut i: usize = from;
    while i < s.len() && s[i] != '\n'
        invariant
            from <= i <= s@.len(),
            forall|j: int| from <= j < i ==> s@[j] != '\n',
        decreases s@.len() - i,
    {
        i = i + 1;
    }
    proof {
        lemma_line_feed_unique(s@.skip(from as int), i - from);
    }
    i
}

/// The white space characters of Unicode.
pub proof fn law_white_space(c: char)
    ensures
        is_white_space(c) <==> {
            ||| c == '\t' || c == '\n' || c == '\u{B}' || c == '\u{C}' || c == '\r' || c == ' '
            ||| c == '\u{85}' || c == '\u{A0}' || c == '\u{1680}'
            ||| c == '\u{2000}' || c == '\u{2001}' || c == '\u{2002}' || c == '\u{2003}'
            ||| c == '\u{2004}' || c == '\u{2005}' || c == '\u{2006}' || c == '\u{2007}'
            ||| c == '\u{2008}' || c == '\u{2009}' || c == '\u{200A}'
            ||| c == '\u{2028}' || c == '\u{2029}' || c == '\u{202F}' || c == '\u{205F}'
            ||| c == '\u{3000}'
        },
{
}

/// Trimming takes white space off both ends and nothing else: of text between
/// white space, which neither begins nor ends with any, it leaves all.
pub proof fn law_trim_leaves_the_middle(left: Seq<char>, middle: Seq<char>, right: Seq<char>)
    requires
        forall|i: int| 0 <= i < left.len() ==> is_white_space(#[trigger] left[i]),
        forall|i: int| 0 <= i < right.len() ==> is_white_space(#[trigger] right[i]),
        middle.len() > 0 ==> !is_white_space(middle.first()) && !is_white_space(middle.last()),
    ensures
        trimmed(left + middle + right) == middle,
    decreases left.len() + right.len(),
{
    let s = left + middle + right;
    if left.len() > 0 {
        assert(s.first() == left[0]);
        assert(s.drop_first() == left.drop_first() + middle + right);
        law_trim_leaves_the_middle(left.drop_first(), middle, right);
    } else if right.len() > 0 {
        if middle.len() > 0 {
            assert(s.first() == middle.first());
            assert(s.last() == right.last());
            assert(s.drop_last() == left + middle + right.drop_last());
            law_trim_leaves_the_middle(left, middle, right.drop_last());
        } else {
            assert(s.first() == right[0]);
            assert(s.drop_first() == left + middle + right.drop_first());
            law_trim_leaves_the_middle(left, middle, right.drop_first());
        }
    } else {
        assert(s == middle);
    }
}

/// What a prefix is taken off is what follows it, and there is something to
/// take it off exactly where the text begins with it.
pub proof fn law_prefix_is_taken_off(prefix: Seq<char>, rest: Seq<char>, s: Seq<char>)
    ensures
        without_prefix(prefix + rest, prefix) == Some(rest),
        without_prefix(s, prefix) matches Some(left) ==> s == prefix + left,
{
    let whole = prefix + rest;
    assert(whole.subrange(0, prefix.len() as int) == prefix);
    assert(whole.skip(prefix.len() as int) == rest);
    if without_prefix(s, prefix) is Some {
        assert(s == s.subrange(0, prefix.len() as int) + s.skip(prefix.len() as int));
    }
}

/// What a suffix is taken off is what stands before it, and there is something
/// to take it off exactly where the text ends with it.
pub proof fn law_suffix_is_taken_off(rest: Seq<char>, suffix: Seq<char>, s: Seq<char>)
    ensures
        without_suffix(rest + suffix, suffix) == Some(rest),
        without_suffix(s, suffix) matches Some(left) ==> s == left + suffix,
{
    let whole = rest + suffix;
    assert(whole.subrange(whole.len() - suffix.len(), whole.len() as int) == suffix);
    assert(whole.take(whole.len() - suffix.len()) == rest);
    if without_suffix(s, suffix) is Some {
        let at = s.len() - suffix.len();
        assert(s == s.take(at) + s.subrange(at, s.len() as int));
    }
}

/// A line ends before its line feed, or before a carriage return and a line
/// feed, and the rest of the text follows. Text without a line feed is one
/// line.
pub proof fn law_lines_end_at_line_feeds(line: Seq<char>, rest: Seq<char>)
    requires
        !line.contains('\n'),
    ensures
        line.len() == 0 || line.last() != '\r' ==> first_line(line + seq!['\n'] + rest) == line,
        after_first_line(line + seq!['\n'] + rest) == rest,
        first_line(line + seq!['\r', '\n'] + rest) == line,
        after_first_line(line + seq!['\r', '\n'] + rest) == rest,
        first_line(line) == line,
        after_first_line(line) == Seq::<char>::empty(),
{
    let n = line.len() as int;
    let plain = line + seq!['\n'] + rest;
    assert forall|i: int| 0 <= i < line.len() implies line[i] != '\n' by {
        assert(line.contains(line[i]));
    }
    lemma_line_feed_unique(plain, n);
    assert(plain.take(n) == line);
    assert(plain.skip(n + 1) == rest);
    let returned = line + seq!['\r', '\n'] + rest;
    assert(returned[n] == '\r');
    lemma_line_feed_unique(returned, n + 1);
    assert(returned.take(n + 1) == line.push('\r'));
    assert(line.push('\r').drop_last() == line);
    assert(returned.skip(n + 2) == rest);
    lemma_line_feed_unique(line, n);
    assert(line.take(n) == line);
}

/// One digit spells its value.
pub proof fn law_one_digit(c: char)
    requires
        '0' <= c <= '9',
    ensures
        parsed_u64(seq![c]) == Some((c as u32 - '0' as u32) as u64),
{
    reveal_with_fuel(decimal_value, 2);
    assert(unsigned_part(seq![c]) == seq![c]);
    assert(seq![c].drop_last() == Seq::<char>::empty());
    assert(decimal_value(seq![c]) == digit_value(c));
}

/// One more digit makes ten times the number and the digit's value, as long as
/// that fits; a number that does not fit never does with more digits.
pub proof fn law_next_digit(s: Seq<char>, c: char)
    requires
        s.len() > 0 && '0' <= s.last() <= '9',
        '0' <= c <= '9',
    ensures
        match parsed_u64(s) {
            Some(n) => {
                let next = n * 10 + (c as u32 - '0' as u32);
                if next <= u64::MAX {
                    parsed_u64(s.push(c)) == Some(next as u64)
                } else {
                    parsed_u64(s.push(c)) is None
                }
            },
            None => parsed_u64(s.push(c)) is None,
        },
{
    let digits = unsigned_part(s);
    assert(unsigned_part(s.push(c)) == digits.push(c));
    assert(digits.push(c).drop_last() == digits);
    assert(digits.len() > 0);
    assert(decimal_value(digits.push(c)) == decimal_value(digits) * 10 + digit_value(c));
    if all_digits(digits.push(c)) {
        assert forall|i: int| 0 <= i < digits.len() implies is_digit(#[trigger] digits[i]) by {
            assert(digits.push(c)[i] == digits[i]);
        }
    }
    if all_digits(digits) {
        assert(all_digits(digits.push(c)));
    }
}

/// A plus sign before a number makes no difference; a second one spells none.
pub proof fn law_plus_sign(s: Seq<char>)
    ensures
        s.len() == 0 || s[0] != '+' ==> parsed_u64(seq!['+'] + s) == parsed_u64(s),
        s.len() > 0 && s[0] == '+' ==> parsed_u64(seq!['+'] + s) is None,
{
    assert((seq!['+'] + s).drop_first() == s);
    assert(unsigned_part(seq!['+'] + s) == s);
    if s.len() > 0 && s[0] == '+' {
        assert(!is_digit(s[0]));
    }
}

/// Text spells no number where it is empty, or where anything but a digit
/// stands in it, other than a plus sign at its beginning.
pub proof fn law_not_a_number(s: Seq<char>, at: int)
    requires
        s.len() == 0 || 0 <= at < s.len() && !('0' <= s[at] <= '9') && (at > 0 || s[at] != '+'),
    ensures
        parsed_u64(s) is None,
{
    if s.len() > 0 {
        let digits = unsigned_part(s);
        if s[0] == '+' {
            assert(digits[at - 1] == s[at]);
        } else {
            assert(digits[at] == s[at]);
        }
    }
}

/// Text that is there has its characters, and text that is missing has none.
pub proof fn law_views(text: &str, string: String)
    ensures
        str_view(Some(text)) == Some(text@),
        str_view(None) is None,
        string_view(Some(string)) == Some(string@),
        string_view(None) is None,
{
}

} // verus!
