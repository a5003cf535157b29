//! Small text tools: digits, case folding and substring search.

use vstd::prelude::*;

verus! {

/// `String::push` appends one character.
pub assume_specification[ String::push ](s: &mut String, ch: char)
    ensures
        final(s)@ == old(s)@.push(ch),
;

/// The lower-case form of a text, as `str::to_lowercase` computes it from
/// the Unicode character tables.
pub uninterp spec fn spec_lowercase(text: Seq<char>) -> Seq<char>;

/// `str::to_lowercase`.
#[verifier::external_body]
pub(crate) fn lowercase_of(text: &str) -> (lowered: String)
    ensures
        lowered@ == spec_lowercase(text@),
{
    text.to_lowercase()
}

/// Whether `needle` occurs in `haystack` as a run of consecutive
/// characters.
pub open spec fn spec_contains(haystack: Seq<char>, needle: Seq<char>) -> bool {
    exists|i: int|
        0 <= i && i + needle.len() <= haystack.len() && #[trigger] haystack.subrange(
            i,
            i + needle.len(),
        ) == needle
}

/// `str::contains` with a string pattern: whether the pattern matches a
/// sub-slice of the text.
#[verifier::external_body]
pub(crate) fn contains_text(haystack: &str, needle: &str) -> (found: bool)
    ensures
        found == spec_contains(haystack@, needle@),
{
    haystack.contains(needle)
}

/// Whether two texts are the same.
pub fn str_eq(a: &str, b: &str) -> (same: bool)
    ensures
        same == (a@ == b@),
{
    a.to_owned() == b.to_owned()
}

/// The character for one hexadecimal digit, lower case.
pub open spec fn spec_hex_digit(digit: nat) -> char
    recommends
        digit < 16,
{
    if digit < 10 {
        (48 + digit) as char
    } else {
        (87 + digit) as char
    }
}

/// A number in hexadecimal, lower case, without leading zeros.
pub open spec fn spec_hex(value: nat) -> Seq<char>
    decreases value,
{
    if value < 16 {
        seq![spec_hex_digit(value)]
    } else {
        spec_hex(value / 16).push(spec_hex_digit(value % 16))
    }
}

/// A number in hexadecimal, lower case, filled with zeros to four digits.
pub open spec fn spec_hex4(value: nat) -> Seq<char> {
    if value < 0x10 {
        seq!['0', '0', '0'] + spec_hex(value)
    } else if value < 0x100 {
        seq!['0', '0'] + spec_hex(value)
    } else if value < 0x1000 {
        seq!['0'] + spec_hex(value)
    } else {
        spec_hex(value)
    }
}

/// The character for one decimal digit.
pub open spec fn spec_decimal_digit(digit: nat) -> char
    recommends
        digit < 10,
{
    (48 + digit) as char
}

/// A number in decimal, without leading zeros.
pub open spec fn spec_decimal(value: nat) -> Seq<char>
    decreases value,
{
    if value < 10 {
        seq![spec_decimal_digit(value)]
    } else {
        spec_decimal(value / 10).push(spec_decimal_digit(value % 10))
    }
}

pub fn hex_digit(digit: u8) -> (c: char)
    requires
        digit < 16,
    ensures
        c == spec_hex_digit(digit as nat),
{
    if digit < 10 {
        (48 + digit) as char
    } else {
        (87 + digit) as char
    }
}

/// Appends a number in hexadecimal.
pub fn push_hex(out: &mut String, value: u64)
    ensures
        final(out)@ == old(out)@ + spec_hex(value as nat),
    decreases value,
{
    if value >= 16 {
        push_hex(out, value / 16);
    }
    out.push(hex_digit((value % 16) as u8));
    assert(out@ =~= old(out)@ + spec_hex(value as nat));
}

/// Appends a number in hexadecimal, filled with zeros to four digits.
pub fn push_hex4(out: &mut String, value: u32)
    ensures
        final(out)@ == old(out)@ + spec_hex4(value as nat),
{
    if value < 0x1000 {
        out.push('0');
    }
    if value < 0x100 {
        out.push('0');
    }
    if value < 0x10 {
        out.push('0');
    }
    push_hex(out, value as u64);
    assert(out@ =~= old(out)@ + spec_hex4(value as nat));
}

/// Appends a number in decimal.
pub fn push_decimal(out: &mut String, value: u64)
    ensures
        final(out)@ == old(out)@ + spec_decimal(value as nat),
    decreases value,
{
    if value >= 10 {
        push_decimal(out, value / 10);
    }
    out.push((48 + (value % 10) as u8) as char);
    assert(out@ =~= old(out)@ + spec_decimal(value as nat));
}

/// The position of the first `c` in a text, or the text's length where it
/// has none.
pub open spec fn spec_first_index(text: Seq<char>, c: char) -> int
    decreases text.len(),
{
    if text.len() == 0 {
        0
    } else if text[0] == c {
        0
    } else {
        1 + spec_first_index(text.drop_first(), c)
    }
}

/// The position of the last `c` in a text, or -1 where it has none.
pub open spec fn spec_last_index(text: Seq<char>, c: char) -> int
    decreases text.len(),
{
    if text.len() == 0 {
        -1
    } else if text.last() == c {
        text.len() - 1
    } else {
        spec_last_index(text.drop_last(), c)
    }
}

/// The part of a text before its first `c`; the whole text where it has
/// none.
pub open spec fn spec_before_first(text: Seq<char>, c: char) -> Seq<char> {
    text.take(spec_first_index(text, c))
}

/// The part of a text after its first `c`; nothing where it has none.
pub open spec fn spec_after_first(text: Seq<char>, c: char) -> Seq<char> {
    if spec_first_index(text, c) < text.len() {
        text.skip(spec_first_index(text, c) + 1)
    } else {
        Seq::empty()
    }
}

/// The first index is a position of `c` with no `c` before it, or the
/// length of a text without `c`.
pub proof fn lemma_first_index(text: Seq<char>, c: char)
    ensures
        0 <= spec_first_index(text, c) <= text.len(),
        spec_first_index(text, c) < text.len() ==> text[spec_first_index(text, c)] == c,
        forall|j: int| 0 <= j < spec_first_index(text, c) ==> text[j] != c,
    decreases text.len(),
{
    if text.len() > 0 && text[0] != c {
        lemma_first_index(text.drop_first(), c);
        let rest = spec_first_index(text.drop_first(), c);
        assert forall|j: int| 0 <= j < 1 + rest implies text[j] != c by {
            if j > 0 {
                assert(text.drop_first()[j - 1] == text[j]);
            }
        }
    }
}

/// A position of `c` with no `c` before it is the first index.
pub proof fn lemma_first_index_is(text: Seq<char>, c: char, index: int)
    requires
        0 <= index <= text.len(),
        index < text.len() ==> text[index] == c,
        forall|j: int| 0 <= j < index ==> text[j] != c,
    ensures
        spec_first_index(text, c) == index,
{
    lemma_first_index(text, c);
}

/// The last index is a position of `c` with no `c` after it, or -1 for a
/// text without `c`.
pub proof fn lemma_last_index(text: Seq<char>, c: char)
    ensures
        -1 <= spec_last_index(text, c) < text.len(),
        spec_last_index(text, c) >= 0 ==> text[spec_last_index(text, c)] == c,
        forall|j: int| spec_last_index(text, c) < j < text.len() ==> text[j] != c,
    decreases text.len(),
{
    if text.len() > 0 && text.last() != c {
        lemma_last_index(text.drop_last(), c);
        let found = spec_last_index(text.drop_last(), c);
        assert forall|j: int| found < j < text.len() implies text[j] != c by {
            if j < text.len() - 1 {
                assert(text.drop_last()[j] == text[j]);
            }
        }
        assert(found >= 0 ==> text.drop_last()[found] == text[found]);
    }
}

/// Finds the first `c` in a text.
pub fn find_first(text: &str, c: char) -> (index: usize)
    ensures
        index == spec_first_index(text@, c),
        index <= text@.len(),
{
    let len = text.unicode_len();
    let mut i: usize = 0;
    while i < len
        invariant
            0 <= i <= len == text@.len(),
            forall|j: int| 0 <= j < i ==> text@[j] != c,
        decreases len - i,
    {
        if text.get_char(i) == c {
            proof {
                lemma_first_index_is(text@, c, i as int);
            }
            return i;
        }
        i = i + 1;
    }
    proof {
        lemma_first_index_is(text@, c, len as int);
    }
    len
}

/// Finds the last `c` in a text.
pub fn find_last(text: &str, c: char) -> (index: Option<usize>)
    ensures
        match index {
            Some(i) => i == spec_last_index(text@, c) && i < text@.len(),
            None => spec_last_index(text@, c) == -1,
        },
{
    let len = text.unicode_len();
    let mut i: usize = len;
    proof {
        lemma_last_index(text@, c);
    }
    while i > 0
        invariant
            0 <= i <= len == text@.len(),
            forall|j: int| i <= j < len ==> text@[j] != c,
            -1 <= spec_last_index(text@, c) < text@.len(),
            spec_last_index(text@, c) >= 0 ==> text@[spec_last_index(text@, c)] == c,
            forall|j: int| spec_last_index(text@, c) < j < text@.len() ==> text@[j] != c,
        decreases i,
    {
        if text.get_char(i - 1) == c {
            return Some(i - 1);
        }
        i = i - 1;
    }
    None
}

/// The part of a text before its first `c`.
pub fn before_first(text: &str, c: char) -> (part: String)
    ensures
        part@ == spec_before_first(text@, c),
{
    let index = find_first(text, c);
    proof {
        lemma_first_index(text@, c);
        assert(text@.take(index as int) =~= text@.subrange(0, index as int));
    }
    text.substring_char(0, index).to_owned()
}

/// The part of a text after its first `c`.
pub fn after_first(text: &str, c: char) -> (part: String)
    ensures
        part@ == spec_after_first(text@, c),
{
    let len = text.unicode_len();
    let index = find_first(text, c);
    if index < len {
        proof {
            assert(text@.skip(index + 1) =~= text@.subrange(index + 1, len as int));
        }
        text.substring_char(index + 1, len).to_owned()
    } else {
        String::new()
    }
}

} // verus!
