//! Reading back what was stored as the default instance and the default
//! cluster: the text of a small file, with white space around it.

use vstd::prelude::*;
use crate::text::{
    decimal_digits, decimal_value, digit_value, is_digit, lemma_decimal_digits_are_digits,
    lemma_decimal_round_trip,
};

verus! {

/// The characters that count as white space: those that Unicode marks as
/// `White_Space`.
pub open spec fn is_white_space(c: char) -> bool {
    ('\u{9}' <= c && c <= '\u{d}') || c == ' ' || c == '\u{85}' || c == '\u{a0}' || c
        == '\u{1680}' || ('\u{2000}' <= c && c <= '\u{200a}') || c == '\u{2028}' || c
        == '\u{2029}' || c == '\u{202f}' || c == '\u{205f}' || c == '\u{3000}'
}

/// The first place at or behind `from` that holds no white space, or the
/// length of the text if there is none.
pub open spec fn skip_white_space(text: Seq<char>, from: int) -> int
    decreases text.len() - from,
{
    if 0 <= from < text.len() && is_white_space(text[from]) {
        skip_white_space(text, from + 1)
    } else {
        from
    }
}

/// The place behind the last character before `to` that is no white space,
/// but not less than `from`.
pub open spec fn skip_white_space_back(text: Seq<char>, from: int, to: int) -> int
    decreases to,
{
    if from < to <= text.len() && 0 < to && is_white_space(text[to - 1]) {
        skip_white_space_back(text, from, to - 1)
    } else {
        to
    }
}

/// The text without the white space at its two ends.
pub open spec fn trimmed(text: Seq<char>) -> Seq<char> {
    let start = skip_white_space(text, 0);
    let end = skip_white_space_back(text, start, text.len() as int);
    text.subrange(start, end)
}

/// The digits of a number that may be written with a plus sign before it.
pub open spec fn unsigned_digits(text: Seq<char>) -> Seq<char> {
    if text.len() > 0 && text[0] == '+' {
        text.drop_first()
    } else {
        text
    }
}

/// Whether the text holds decimal digits only.
pub open spec fn all_digits(text: Seq<char>) -> bool {
    forall|i: int| 0 <= i < text.len() ==> is_digit(#[trigger] text[i])
}

/// The number that a text denotes: an optional plus sign, then one or more
/// decimal digits whose value fits 32 bits. Any other text denotes nothing.
pub open spec fn parsed_index(text: Seq<char>) -> Option<u32> {
    let digits = unsigned_digits(text);
    if digits.len() >= 1 && all_digits(digits) && decimal_value(digits) <= u32::MAX {
        Some(decimal_value(digits) as u32)
    } else {
        None
    }
}

/// Where white space is skipped from the start, nothing but white space is left out.
pub proof fn lemma_skip_white_space(text: Seq<char>, from: int)
    requires
        0 <= from <= text.len(),
    ensures
        from <= skip_white_space(text, from) <= text.len(),
        forall|i: int| from <= i < skip_white_space(text, from) ==> is_white_space(text[i]),
        skip_white_space(text, from) < text.len() ==> !is_white_space(
            text[skip_white_space(text, from)],
        ),
    decreases text.len() - from,
{
    if from < text.len() && is_white_space(text[from]) {
        lemma_skip_white_space(text, from + 1);
    }
}

/// Where white space is skipped from the end, nothing but white space is left out.
pub proof fn lemma_skip_white_space_back(text: Seq<char>, from: int, to: int)
    requires
        0 <= from <= to <= text.len(),
    ensures
        from <= skip_white_space_back(text, from, to) <= to,
        forall|i: int|
            skip_white_space_back(text, from, to) <= i < to ==> is_white_space(text[i]),
        from < skip_white_space_back(text, from, to) ==> !is_white_space(
            text[skip_white_space_back(text, from, to) - 1],
        ),
    decreases to,
{
    if from < to && is_white_space(text[to - 1]) {
        lemma_skip_white_space_back(text, from, to - 1);
    }
}

/// Trimming takes white space away and nothing else: the text is white
/// space, then what is left, then white space; and what is left neither
/// begins nor ends with white space.
pub proof fn lemma_trimmed_is_tight(text: Seq<char>)
    ensures
        trimmed(text).len() > 0 ==> !is_white_space(trimmed(text).first()) && !is_white_space(
            trimmed(text).last(),
        ),
        exists|before: Seq<char>, behind: Seq<char>|
            text == before + trimmed(text) + behind && (forall|i: int|
                0 <= i < before.len() ==> is_white_space(before[i])) && (forall|i: int|
                0 <= i < behind.len() ==> is_white_space(behind[i])),
{
    let start = skip_white_space(text, 0);
    lemma_skip_white_space(text, 0);
    let end = skip_white_space_back(text, start, text.len() as int);
    lemma_skip_white_space_back(text, start, text.len() as int);
    let before = text.subrange(0, start);
    let behind = text.subrange(end, text.len() as int);
    assert(text =~= before + trimmed(text) + behind);
}

/// A text without white space at its ends is left as it is.
pub proof fn lemma_trimmed_of_tight(text: Seq<char>)
    requires
        text.len() > 0 ==> !is_white_space(text.first()) && !is_white_space(text.last()),
    ensures
        trimmed(text) == text,
{
    assert(trimmed(text) =~= text);
}

/// The value of the first digits of a numeral is not more than the value of all of them.
pub proof fn lemma_decimal_value_grows(digits: Seq<char>, count: int)
    requires
        0 <= count <= digits.len(),
    ensures
        decimal_value(digits.take(count)) <= decimal_value(digits),
    decreases digits.len() - count,
{
    if count < digits.len() {
        lemma_decimal_value_grows(digits, count + 1);
        assert(digits.take(count + 1).drop_last() =~= digits.take(count));
    } else {
        assert(digits.take(count) =~= digits);
    }
}

/// The default cluster that was stored is the one that is read back.
pub proof fn lemma_stored_index_is_read_back(index: u32)
    ensures
        parsed_index(trimmed(decimal_digits(index as nat))) == Some(index),
{
    let numeral = decimal_digits(index as nat);
    lemma_decimal_digits_are_digits(index as nat);
    lemma_decimal_round_trip(index as nat);
    lemma_trimmed_of_tight(numeral);
    assert(numeral[0] != '+');
}

/// Tells whether a character is white space.
pub fn is_white_space_char(c: char) -> (white: bool)
    ensures
        white == is_white_space(c),
{
    ('\u{9}' <= c && c <= '\u{d}') || c == ' ' || c == '\u{85}' || c == '\u{a0}' || c
        == '\u{1680}' || ('\u{2000}' <= c && c <= '\u{200a}') || c == '\u{2028}' || c
        == '\u{2029}' || c == '\u{202f}' || c == '\u{205f}' || c == '\u{3000}'
}

/// Takes the white space off the two ends of a text.
pub fn trim(text: &str) -> (inner: &str)
    ensures
        inner@ == trimmed(text@),
{
    let length: usize = text.unicode_len();
    let mut start: usize = 0;
    while start < length && is_white_space_char(text.get_char(start))
        invariant
            start <= length,
            length == text@.len(),
            skip_white_space(text@, 0) == skip_white_space(text@, start as int),
        decreases length - start,
    {
        start = start + 1;
    }
    let mut end: usize = length;
    while start < end && is_white_space_char(text.get_char(end - 1))
        invariant
            start <= end <= length,
            length == text@.len(),
            skip_white_space_back(text@, start as int, length as int) == skip_white_space_back(
                text@,
                start as int,
                end as int,
            ),
        decreases end,
    {
        end = end - 1;
    }
    text.substring_char(start, end)
}

fn digit_of(c: char) -> (digit: Option<u64>)
    ensures
        digit is Some <==> is_digit(c),
        digit matches Some(d) ==> d == digit_value(c) && d <= 9,
{
    if c == '0' {
        Some(0)
    } else if c == '1' {
        Some(1)
    } else if c == '2' {
        Some(2)
    } else if c == '3' {
        Some(3)
    } else if c == '4' {
        Some(4)
    } else if c == '5' {
        Some(5)
    } else if c == '6' {
        Some(6)
    } else if c == '7' {
        Some(7)
    } else if c == '8' {
        Some(8)
    } else if c == '9' {
        Some(9)
    } else {
        None
    }
}

/// Reads the index of a cluster from the text that was stored for it.
pub fn parse_cluster_index(content: &str) -> (index: Option<u32>)
    ensures
        index == parsed_index(trimmed(content@)),
{
    let text: &str = trim(content);
    let length: usize = text.unicode_len();
    let first: usize = if length > 0 && text.get_char(0) == '+' {
        1
    } else {
        0
    };
    if first == length {
        return None;
    }
    let ghost digits: Seq<char> = unsigned_digits(text@);
    let mut value: u64 = 0;
    let mut i: usize = first;
    assert(digits.take(0) =~= Seq::<char>::empty());
    while i < length
        invariant
            first <= i <= length,
            length == text@.len(),
            text@ == trimmed(content@),
            digits == unsigned_digits(text@),
            digits.len() == length - first,
            forall|k: int| 0 <= k < digits.len() ==> digits[k] == text@[k + first],
            all_digits(digits.take(i - first)),
            value == decimal_value(digits.take(i - first)),
            value <= u32::MAX,
        decreases length - i,
    {
        let c: char = text.get_char(i);
        proof {
            lemma_decimal_value_grows(digits, i - first + 1);
            assert(digits.take(i - first + 1).drop_last() =~= digits.take(i - first));
            assert(digits.take(i - first + 1).last() == c);
        }
        match digit_of(c) {
            None => {
                assert(!is_digit(digits[i - first]));
                return None;
            },
            Some(d) => {
                value = value * 10 + d;
                if value > 0xffff_ffff {
                    return None;
                }
            },
        }
        i = i + 1;
    }
    assert(digits.take(length - first) =~= digits);
    Some(value as u32)
}

/// Reads the name of an instance from the text that was stored for it.
pub fn read_instance_name(content: &str) -> (name: String)
    ensures
        name@ == trimmed(content@),
{
    String::from_str(trim(content))
}

} // verus!
