//! Wide (UTF-16) strings, as Windows and the Dokan driver use them, and the
//! paths that are read from them.

use crate::text;
use vstd::prelude::*;
use vstd::string::StrSliceExecFns;

verus! {

/// A unit that opens a surrogate pair.
pub open spec fn is_high_surrogate(unit: u16) -> bool {
    0xD800 <= unit <= 0xDBFF
}

/// A unit that closes a surrogate pair.
pub open spec fn is_low_surrogate(unit: u16) -> bool {
    0xDC00 <= unit <= 0xDFFF
}

/// The character that a surrogate pair stands for.
pub open spec fn surrogate_pair(high: u16, low: u16) -> char {
    (0x10000 + (high - 0xD800) * 0x400 + (low - 0xDC00)) as char
}

/// The text that UTF-16 `units` encode. Each surrogate outside a pair becomes
/// U+FFFD.
pub open spec fn utf16_text(units: Seq<u16>) -> Seq<char>
    decreases units.len(),
{
    if units.len() == 0 {
        Seq::empty()
    } else if !is_high_surrogate(units[0]) && !is_low_surrogate(units[0]) {
        seq![units[0] as char] + utf16_text(units.skip(1))
    } else if is_high_surrogate(units[0]) && units.len() >= 2 && is_low_surrogate(units[1]) {
        seq![surrogate_pair(units[0], units[1])] + utf16_text(units.skip(2))
    } else {
        seq!['\u{FFFD}'] + utf16_text(units.skip(1))
    }
}

/// The UTF-16 units of one character.
pub open spec fn char_units(c: char) -> Seq<u16> {
    let code = c as int;
    if code < 0x10000 {
        seq![code as u16]
    } else {
        seq![
            (0xD800 + (code - 0x10000) / 0x400) as u16,
            (0xDC00 + (code - 0x10000) % 0x400) as u16,
        ]
    }
}

/// The UTF-16 units of `text`.
pub open spec fn utf16_units(text: Seq<char>) -> Seq<u16>
    decreases text.len(),
{
    if text.len() == 0 {
        Seq::empty()
    } else {
        char_units(text[0]) + utf16_units(text.skip(1))
    }
}

/// The position of the first nul in `units`, or their number where there is
/// none.
pub open spec fn first_nul(units: Seq<u16>) -> nat
    decreases units.len(),
{
    if units.len() == 0 || units[0] == 0 {
        0
    } else {
        1 + first_nul(units.skip(1))
    }
}

/// `n` in decimal.
pub open spec fn decimal_text(n: nat) -> Seq<char>
    decreases n,
{
    let last = ('0' as u32 + n % 10) as char;
    if n < 10 {
        seq![last]
    } else {
        decimal_text(n / 10).push(last)
    }
}

/// What is said of text that cannot be made a nul-terminated wide string.
pub open spec fn nul_message(units: Seq<u16>) -> Seq<char> {
    "nul value found at position "@ + decimal_text(first_nul(units))
}

/// A character that parts the components of a path.
pub open spec fn is_separator(c: char) -> bool {
    c == '\\' || c == '/'
}

/// `path` without the separators it begins with.
pub open spec fn without_root(path: Seq<char>) -> Seq<char>
    decreases path.len(),
{
    if path.len() > 0 && is_separator(path[0]) {
        without_root(path.skip(1))
    } else {
        path
    }
}

/// The path that a driver's wide file name gives, relative to the root of the
/// volume.
pub open spec fn relative_path(file_name: Seq<u16>) -> Seq<char> {
    without_root(utf16_text(file_name))
}

/// Calls `widestring::U16Str::to_string_lossy`, which decodes UTF-16 and puts
/// U+FFFD in the place of each surrogate outside a pair.
#[verifier::external_body]
fn decode_lossy(units: &[u16]) -> (r: String)
    ensures
        r@ == utf16_text(units@),
{
    widestring::U16Str::from_slice(units).to_string_lossy()
}

/// Calls `widestring::U16CString::from_str`, which encodes text as UTF-16 and
/// refuses it where a unit is nul. The error's text, which
/// `widestring::NulError` writes, gives the position of the first nul.
#[verifier::external_body]
fn encode_nul_free(text: &str) -> (r: Result<Vec<u16>, String>)
    ensures
        match r {
            Ok(units) => units@ == utf16_units(text@) && !units@.contains(0),
            Err(message) => utf16_units(text@).contains(0) && message@ == nul_message(
                utf16_units(text@),
            ),
        },
{
    match widestring::U16CString::from_str(text) {
        Ok(wide) => Ok(wide.into_vec()),
        Err(error) => Err(error.to_string()),
    }
}

/// Calls `widestring::U16CString::new`, which takes units over unchanged and
/// refuses them where one is nul.
#[verifier::external_body]
fn keep_nul_free(units: Vec<u16>) -> (r: Option<Vec<u16>>)
    ensures
        match r {
            Some(kept) => kept@ == units@ && !units@.contains(0),
            None => units@.contains(0),
        },
{
    match widestring::U16CString::new(units) {
        Ok(wide) => Some(wide.into_vec()),
        Err(_) => None,
    }
}

/// `text` as a wide string without nuls; otherwise what is wrong with it.
pub fn wide_text(text: &str) -> (r: Result<Vec<u16>, String>)
    ensures
        match r {
            Ok(units) => units@ == utf16_units(text@) && !text@.contains('\0'),
            Err(message) => text@.contains('\0') && message@ == nul_message(utf16_units(text@)),
        },
{
    proof {
        lemma_nul_units(text@);
    }
    encode_nul_free(text)
}

/// `units` where none is nul.
pub fn wide_name(units: Vec<u16>) -> (r: Option<Vec<u16>>)
    ensures
        match r {
            Some(kept) => kept@ == units@ && !units@.contains(0),
            None => units@.contains(0),
        },
{
    keep_nul_free(units)
}

/// The path that a driver's wide file name gives, relative to the root of the
/// volume. A surrogate outside a pair is read as U+FFFD.
pub fn to_relative_path(file_name: &[u16]) -> (r: String)
    ensures
        r@ == relative_path(file_name@),
{
    let text = decode_lossy(file_name);
    let path: &str = text.as_str();
    let len: usize = path.unicode_len();
    let mut start: usize = 0;
    assert(path@.skip(0) == path@);
    while start < len && (path.get_char(start) == '\\' || path.get_char(start) == '/')
        invariant
            start <= len == path@.len(),
            without_root(path@) == without_root(path@.skip(start as int)),
        decreases len - start,
    {
        assert(path@.skip(start as int).skip(1) == path@.skip(start + 1));
        start = start + 1;
    }
    assert(path@.subrange(start as int, len as int) == path@.skip(start as int));
    path.substring_char(start, len).to_owned()
}

/// What the units of one character are: itself, not a surrogate, or a
/// surrogate pair. Only the nul character has a nul unit.
proof fn lemma_char_units(c: char)
    ensures
        char_units(c).len() == 1 ==> {
            &&& !is_high_surrogate(char_units(c)[0]) && !is_low_surrogate(char_units(c)[0])
            &&& char_units(c)[0] as char == c
        },
        char_units(c).len() == 2 ==> {
            &&& is_high_surrogate(char_units(c)[0]) && is_low_surrogate(char_units(c)[1])
            &&& surrogate_pair(char_units(c)[0], char_units(c)[1]) == c
        },
        char_units(c).len() == 1 || char_units(c).len() == 2,
        char_units(c).contains(0) ==> c == '\0',
{
    let code = c as int;
    vstd::utf8::char_is_scalar(c);
    assert(c as u32 == code);
    if code < 0x10000 {
        assert(code as u16 == code);
    }
}

/// Text has a nul unit exactly where it has a nul character.
proof fn lemma_nul_units(text: Seq<char>)
    ensures
        utf16_units(text).contains(0) <==> text.contains('\0'),
    decreases text.len(),
{
    if text.len() > 0 {
        let first = char_units(text[0]);
        let rest = utf16_units(text.skip(1));
        lemma_nul_units(text.skip(1));
        lemma_char_units(text[0]);
        if text[0] == '\0' {
            assert(first[0] == 0);
        }
        if first.contains(0) {
            let i = choose|i: int| 0 <= i < first.len() && first[i] == 0;
            assert((first + rest)[i] == 0);
            assert(text[0] == '\0');
        }
        if rest.contains(0) {
            let i = choose|i: int| 0 <= i < rest.len() && rest[i] == 0;
            assert((first + rest)[first.len() + i] == 0);
            let j = choose|j: int| 0 <= j < text.skip(1).len() && text.skip(1)[j] == '\0';
            assert(text[j + 1] == '\0');
        }
        if text.contains('\0') && text[0] != '\0' {
            let j = choose|j: int| 0 <= j < text.len() && text[j] == '\0';
            assert(text.skip(1)[j - 1] == '\0');
        }
        if utf16_units(text).contains(0) && !first.contains(0) {
            let i = choose|i: int| 0 <= i < (first + rest).len() && (first + rest)[i] == 0;
            if i < first.len() {
                assert(first[i] == 0);
            } else {
                assert(rest[i - first.len()] == 0);
            }
        }
    }
}

/// Decoding gives back what was encoded.
pub proof fn law_decode_undoes_encode(text: Seq<char>)
    ensures
        utf16_text(utf16_units(text)) == text,
    decreases text.len(),
{
    if text.len() > 0 {
        let c = text[0];
        let units = utf16_units(text);
        let rest = utf16_units(text.skip(1));
        law_decode_undoes_encode(text.skip(1));
        lemma_char_units(c);
        assert(units.skip(char_units(c).len() as int) == rest);
        assert(units[0] == char_units(c)[0]);
        if char_units(c).len() == 2 {
            assert(units[1] == char_units(c)[1]);
        }
        assert(seq![c] + text.skip(1) == text);
    }
}

/// A relative path does not begin with a separator, and taking the separators
/// off once is enough.
pub proof fn law_relative_path_has_no_root(path: Seq<char>)
    ensures
        without_root(path).len() > 0 ==> !is_separator(without_root(path)[0]),
        without_root(without_root(path)) == without_root(path),
    decreases path.len(),
{
    if path.len() > 0 && is_separator(path[0]) {
        law_relative_path_has_no_root(path.skip(1));
    }
}

/// Separators before a path make no difference: a file is found under the same
/// relative path with and without them.
pub proof fn law_leading_separators_are_ignored(root: Seq<char>, path: Seq<char>)
    requires
        forall|i: int| 0 <= i < root.len() ==> is_separator(#[trigger] root[i]),
    ensures
        without_root(root + path) == without_root(path),
    decreases root.len(),
{
    if root.len() > 0 {
        assert((root + path)[0] == root[0]);
        assert((root + path).skip(1) == root.skip(1) + path);
        assert forall|i: int| 0 <= i < root.skip(1).len() implies is_separator(
            #[trigger] root.skip(1)[i],
        ) by {
            assert(root.skip(1)[i] == root[i + 1]);
        }
        law_leading_separators_are_ignored(root.skip(1), path);
    } else {
        assert(root + path == path);
    }
}

/// Text is encoded character by character.
pub proof fn law_encoding_joins(first: Seq<char>, second: Seq<char>)
    ensures
        utf16_units(first + second) == utf16_units(first) + utf16_units(second),
    decreases first.len(),
{
    let whole = first + second;
    if first.len() == 0 {
        assert(whole == second);
        assert(utf16_units(first) == Seq::<u16>::empty());
    } else {
        assert(whole.skip(1) == first.skip(1) + second);
        law_encoding_joins(first.skip(1), second);
        assert(whole[0] == first[0]);
    }
}

/// A character below U+10000 is encoded as the unit of the same number. Any
/// other is encoded as a pair of surrogates that hold ten bits each of what
/// its number exceeds 0x10000 by.
pub proof fn law_units_of_a_character(c: char)
    ensures
        (c as u32) < 0x10000 ==> utf16_units(seq![c]).len() == 1 && utf16_units(seq![c])[0] as int
            == c as int,
        (c as u32) >= 0x10000 ==> {
            let units = utf16_units(seq![c]);
            &&& units.len() == 2
            &&& 0xD800 <= units[0] <= 0xDBFF
            &&& 0xDC00 <= units[1] <= 0xDFFF
            &&& 0x10000 + (units[0] - 0xD800) * 0x400 + (units[1] - 0xDC00) == c as int
        },
{
    reveal_with_fuel(utf16_units, 2);
    lemma_char_units(c);
    vstd::utf8::char_is_scalar(c);
    assert(seq![c].skip(1) == Seq::<char>::empty());
    assert(utf16_units(seq![c]) == char_units(c));
}

/// Decoding takes off the units of one character at a time.
pub proof fn law_decoding_takes_off_a_character(c: char, rest: Seq<u16>)
    ensures
        utf16_text(utf16_units(seq![c]) + rest) == seq![c] + utf16_text(rest),
{
    reveal_with_fuel(utf16_units, 2);
    lemma_char_units(c);
    assert(seq![c].skip(1) == Seq::<char>::empty());
    assert(utf16_units(seq![c]) == char_units(c));
    let units = char_units(c) + rest;
    assert(units.skip(char_units(c).len() as int) == rest);
    assert(units[0] == char_units(c)[0]);
    if char_units(c).len() == 2 {
        assert(units[1] == char_units(c)[1]);
    }
}

/// A surrogate outside a pair is decoded as U+FFFD, and what follows it is
/// decoded as if it stood alone.
pub proof fn law_lone_surrogates_are_replaced(unit: u16, rest: Seq<u16>)
    requires
        0xD800 <= unit <= 0xDFFF,
        unit <= 0xDBFF ==> rest.len() == 0 || !(0xDC00 <= rest[0] <= 0xDFFF),
    ensures
        utf16_text(seq![unit] + rest) == seq!['\u{FFFD}'] + utf16_text(rest),
{
    let units = seq![unit] + rest;
    assert(units.skip(1) == rest);
    assert(units[0] == unit);
    if rest.len() > 0 {
        assert(units[1] == rest[0]);
    }
}

/// The message on a nul gives the place of the first one.
pub proof fn law_message_names_the_first_nul(units: Seq<u16>, at: nat)
    requires
        at < units.len(),
        units[at as int] == 0,
        forall|i: int| 0 <= i < at ==> units[i] != 0,
    ensures
        nul_message(units) == "nul value found at position "@ + decimal_text(at),
{
    lemma_first_nul(units, at);
}

/// The first nul is where the units before are none.
proof fn lemma_first_nul(units: Seq<u16>, at: nat)
    requires
        at < units.len(),
        units[at as int] == 0,
        forall|i: int| 0 <= i < at ==> units[i] != 0,
    ensures
        first_nul(units) == at,
    decreases at,
{
    if at > 0 {
        let rest = units.skip(1);
        assert forall|i: int| 0 <= i < at - 1 implies rest[i] != 0 by {
            assert(rest[i] == units[i + 1]);
        }
        lemma_first_nul(rest, (at - 1) as nat);
    }
}

/// A number in decimal reads as that number, and has no zero before it.
pub proof fn law_decimal_text(n: u64)
    ensures
        text::parsed_u64(decimal_text(n as nat)) == Some(n),
        decimal_text(n as nat)[0] == '0' ==> n == 0,
        forall|i: int|
            0 <= i < decimal_text(n as nat).len() ==> '0' <= #[trigger] decimal_text(n as nat)[i]
                <= '9',
    decreases n,
{
    let digit = (n % 10) as nat;
    let last = ('0' as u32 + digit) as char;
    assert(last as u32 == '0' as u32 + digit);
    if n < 10 {
        text::law_one_digit(last);
        assert(decimal_text(n as nat) == seq![last]);
    } else {
        let before = decimal_text((n / 10) as nat);
        law_decimal_text(n / 10);
        assert(decimal_text(n as nat) == before.push(last));
        lemma_decimal_text_not_empty((n / 10) as nat);
        assert('0' <= before[before.len() - 1] <= '9');
        text::law_next_digit(before, last);
    }
}

/// Every number has a digit.
proof fn lemma_decimal_text_not_empty(n: nat)
    ensures
        decimal_text(n).len() > 0,
{
}

/// A driver's file name gives the path behind its leading backslashes and
/// slashes, and all of that path.
pub proof fn law_relative_path_is_behind_the_root(
    file_name: Seq<u16>,
    root: Seq<char>,
    path: Seq<char>,
)
    requires
        forall|i: int| 0 <= i < root.len() ==> #[trigger] root[i] == '\\' || root[i] == '/',
        path.len() == 0 || path[0] != '\\' && path[0] != '/',
    ensures
        relative_path(utf16_units(root + path)) == path,
        utf16_text(file_name) == root + path ==> relative_path(file_name) == path,
{
    law_decode_undoes_encode(root + path);
    law_leading_separators_are_ignored(root, path);
}

} // verus!
