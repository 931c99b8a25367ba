//! Decimal numerals and small helpers for assembling text.

use vstd::prelude::*;

verus! {

/// The character that stands for the digit `d`.
pub open spec fn digit_char(d: nat) -> char {
    if d == 0 {
        '0'
    } else if d == 1 {
        '1'
    } else if d == 2 {
        '2'
    } else if d == 3 {
        '3'
    } else if d == 4 {
        '4'
    } else if d == 5 {
        '5'
    } else if d == 6 {
        '6'
    } else if d == 7 {
        '7'
    } else if d == 8 {
        '8'
    } else {
        '9'
    }
}

/// The digit that a character stands for; characters that are no digit count as zero.
pub open spec fn digit_value(c: char) -> nat {
    if c == '1' {
        1
    } else if c == '2' {
        2
    } else if c == '3' {
        3
    } else if c == '4' {
        4
    } else if c == '5' {
        5
    } else if c == '6' {
        6
    } else if c == '7' {
        7
    } else if c == '8' {
        8
    } else if c == '9' {
        9
    } else {
        0
    }
}

/// Whether `c` is one of the ten decimal digits.
pub open spec fn is_digit(c: char) -> bool {
    c == '0' || c == '1' || c == '2' || c == '3' || c == '4' || c == '5' || c == '6' || c == '7'
        || c == '8' || c == '9'
}

/// The shortest decimal numeral of `n`: no leading zero, and `"0"` for zero.
pub open spec fn decimal_digits(n: nat) -> Seq<char>
    decreases n,
{
    if n < 10 {
        seq![digit_char(n)]
    } else {
        decimal_digits(n / 10).push(digit_char(n % 10))
    }
}

/// The number that a string of digits denotes, leading zeros allowed.
pub open spec fn decimal_value(s: Seq<char>) -> nat
    decreases s.len(),
{
    if s.len() == 0 {
        0
    } else {
        decimal_value(s.drop_last()) * 10 + digit_value(s.last())
    }
}

/// A numeral is never empty and holds digits only.
pub proof fn lemma_decimal_digits_are_digits(n: nat)
    ensures
        decimal_digits(n).len() >= 1,
        forall|i: int| 0 <= i < decimal_digits(n).len() ==> is_digit(#[trigger] decimal_digits(n)[i]),
    decreases n,
{
    if n >= 10 {
        lemma_decimal_digits_are_digits(n / 10);
    }
}

/// Reading a numeral gives back the number it was written for.
pub proof fn lemma_decimal_round_trip(n: nat)
    ensures
        decimal_value(decimal_digits(n)) == n,
    decreases n,
{
    let s = decimal_digits(n);
    if n < 10 {
        assert(s.drop_last() =~= Seq::<char>::empty());
        assert(decimal_value(s.drop_last()) == 0);
        assert(s.last() == digit_char(n));
    } else {
        lemma_decimal_round_trip(n / 10);
        assert(s.drop_last() =~= decimal_digits(n / 10));
        assert(s.last() == digit_char(n % 10));
    }
}

/// Reading a numeral with one more digit behind it: the value shifts by one place.
pub proof fn lemma_decimal_value_push(s: Seq<char>, c: char)
    ensures
        decimal_value(s.push(c)) == decimal_value(s) * 10 + digit_value(c),
{
    assert(s.push(c).drop_last() =~= s);
    assert(s.push(c).last() == c);
}

/// Two different numbers never share a numeral.
pub proof fn lemma_decimal_digits_injective(a: nat, b: nat)
    requires
        decimal_digits(a) == decimal_digits(b),
    ensures
        a == b,
{
    lemma_decimal_round_trip(a);
    lemma_decimal_round_trip(b);
}

fn digit_str(d: u64) -> (s: &'static str)
    requires
        d < 10,
    ensures
        s@ == seq![digit_char(d as nat)],
{
    proof {
        reveal_strlit("0");
        reveal_strlit("1");
        reveal_strlit("2");
        reveal_strlit("3");
        reveal_strlit("4");
        reveal_strlit("5");
        reveal_strlit("6");
        reveal_strlit("7");
        reveal_strlit("8");
        reveal_strlit("9");
    }
    let s: &'static str = if d == 0 {
        "0"
    } else if d == 1 {
        "1"
    } else if d == 2 {
        "2"
    } else if d == 3 {
        "3"
    } else if d == 4 {
        "4"
    } else if d == 5 {
        "5"
    } else if d == 6 {
        "6"
    } else if d == 7 {
        "7"
    } else if d == 8 {
        "8"
    } else {
        "9"
    };
    assert(s@ =~= seq![digit_char(d as nat)]);
    s
}

/// Writes `n` as a decimal numeral.
pub fn decimal_string(n: u64) -> (s: String)
    ensures
        s@ == decimal_digits(n as nat),
    decreases n,
{
    if n < 10 {
        String::from_str(digit_str(n))
    } else {
        let mut s: String = decimal_string(n / 10);
        let ghost head: Seq<char> = s@;
        s.append(digit_str(n % 10));
        assert(s@ =~= head.push(digit_char((n % 10) as nat)));
        s
    }
}

/// The texts that a sequence of strings holds.
pub open spec fn string_views(strings: Seq<String>) -> Seq<Seq<char>> {
    Seq::new(strings.len(), |i: int| strings[i]@)
}

/// All pieces written one behind the other.
pub open spec fn concat_all(pieces: Seq<Seq<char>>) -> Seq<char>
    decreases pieces.len(),
{
    if pieces.len() == 0 {
        Seq::empty()
    } else {
        concat_all(pieces.drop_last()) + pieces.last()
    }
}

/// All pieces written one behind the other with `separator` between each two.
pub open spec fn joined(pieces: Seq<Seq<char>>, separator: Seq<char>) -> Seq<char>
    decreases pieces.len(),
{
    if pieces.len() == 0 {
        Seq::empty()
    } else if pieces.len() == 1 {
        pieces[0]
    } else {
        joined(pieces.drop_last(), separator) + separator + pieces.last()
    }
}

/// One more piece behind the others.
pub proof fn lemma_concat_all_push(pieces: Seq<Seq<char>>, piece: Seq<char>)
    ensures
        concat_all(pieces.push(piece)) == concat_all(pieces) + piece,
{
    assert(pieces.push(piece).drop_last() =~= pieces);
}

/// One more piece behind the others: a separator comes before it unless it is the first.
pub proof fn lemma_joined_push(pieces: Seq<Seq<char>>, separator: Seq<char>, piece: Seq<char>)
    ensures
        joined(pieces.push(piece), separator) == if pieces.len() == 0 {
            piece
        } else {
            joined(pieces, separator) + separator + piece
        },
{
    assert(pieces.push(piece).drop_last() =~= pieces);
}

/// Writing two lists of pieces one behind the other is writing the first
/// list and then the second.
pub proof fn lemma_concat_all_append(first: Seq<Seq<char>>, second: Seq<Seq<char>>)
    ensures
        concat_all(first + second) == concat_all(first) + concat_all(second),
    decreases second.len(),
{
    if second.len() == 0 {
        assert(first + second =~= first);
        assert(concat_all(first) + concat_all(second) =~= concat_all(first));
    } else {
        lemma_concat_all_append(first, second.drop_last());
        assert((first + second).drop_last() =~= first + second.drop_last());
        assert((first + second).last() == second.last());
        assert((concat_all(first) + concat_all(second.drop_last())) + second.last() =~= concat_all(
            first,
        ) + (concat_all(second.drop_last()) + second.last()));
    }
}

/// How many lines a text holds: the number of its line feeds.
pub open spec fn line_count(text: Seq<char>) -> nat
    decreases text.len(),
{
    if text.len() == 0 {
        0
    } else {
        line_count(text.drop_last()) + if text.last() == '\n' {
            1nat
        } else {
            0nat
        }
    }
}

/// The lines of two texts written one behind the other add up.
pub proof fn lemma_line_count_concat(first: Seq<char>, second: Seq<char>)
    ensures
        line_count(first + second) == line_count(first) + line_count(second),
    decreases second.len(),
{
    if second.len() == 0 {
        assert(first + second =~= first);
    } else {
        lemma_line_count_concat(first, second.drop_last());
        assert((first + second).drop_last() =~= first + second.drop_last());
        assert((first + second).last() == second.last());
    }
}

/// A text without a line feed holds no line.
pub proof fn lemma_line_count_zero(text: Seq<char>)
    requires
        forall|i: int| 0 <= i < text.len() ==> text[i] != '\n',
    ensures
        line_count(text) == 0,
    decreases text.len(),
{
    if text.len() > 0 {
        lemma_line_count_zero(text.drop_last());
    }
}

/// A numeral holds no line feed.
pub proof fn lemma_decimal_digits_one_line(n: nat)
    ensures
        line_count(decimal_digits(n)) == 0,
{
    lemma_decimal_digits_are_digits(n);
    lemma_line_count_zero(decimal_digits(n));
}

/// The lines of pieces written one behind the other add up: if every piece
/// is one line, there are as many lines as pieces.
pub proof fn lemma_line_count_of_lines(pieces: Seq<Seq<char>>)
    requires
        forall|i: int| 0 <= i < pieces.len() ==> line_count(#[trigger] pieces[i]) == 1,
    ensures
        line_count(concat_all(pieces)) == pieces.len(),
    decreases pieces.len(),
{
    if pieces.len() > 0 {
        lemma_line_count_of_lines(pieces.drop_last());
        lemma_line_count_concat(concat_all(pieces.drop_last()), pieces.last());
    }
}

/// What stands behind a common beginning is the same if the whole is the same.
pub proof fn lemma_concat_cancel(head: Seq<char>, a: Seq<char>, b: Seq<char>)
    requires
        head + a == head + b,
    ensures
        a == b,
{
    assert(a =~= (head + a).subrange(head.len() as int, (head + a).len() as int));
    assert(b =~= (head + b).subrange(head.len() as int, (head + b).len() as int));
}

/// Two numerals with a dash between them can be read in one way only.
pub proof fn lemma_dashed_numerals_injective(a: nat, b: nat, c: nat, d: nat)
    requires
        decimal_digits(a) + seq!['-'] + decimal_digits(b) == decimal_digits(c) + seq!['-']
            + decimal_digits(d),
    ensures
        a == c,
        b == d,
{
    let left = decimal_digits(a) + seq!['-'] + decimal_digits(b);
    let right = decimal_digits(c) + seq!['-'] + decimal_digits(d);
    lemma_decimal_digits_are_digits(a);
    lemma_decimal_digits_are_digits(b);
    lemma_decimal_digits_are_digits(c);
    lemma_decimal_digits_are_digits(d);
    let m = decimal_digits(a).len() as int;
    let n = decimal_digits(c).len() as int;
    if m < n {
        assert(left[m] == '-');
        assert(right[m] == decimal_digits(c)[m]);
        assert(false);
    }
    if n < m {
        assert(right[n] == '-');
        assert(left[n] == decimal_digits(a)[n]);
        assert(false);
    }
    assert(decimal_digits(a) =~= left.subrange(0, m));
    assert(decimal_digits(c) =~= right.subrange(0, m));
    lemma_decimal_digits_injective(a, c);
    assert(decimal_digits(b) =~= left.subrange(m + 1, left.len() as int));
    assert(decimal_digits(d) =~= right.subrange(m + 1, right.len() as int));
    lemma_decimal_digits_injective(b, d);
}

/// The texts of a list of strings with one more string behind them.
pub proof fn lemma_string_views_push(strings: Seq<String>, last: String)
    ensures
        string_views(strings.push(last)) == string_views(strings).push(last@),
{
    assert(string_views(strings.push(last)) =~= string_views(strings).push(last@));
}

/// Writes the strings one behind the other.
pub fn concat_strings(pieces: &Vec<String>) -> (text: String)
    ensures
        text@ == concat_all(string_views(pieces@)),
{
    let mut text: String = String::new();
    let mut i: usize = 0;
    assert(string_views(pieces@).take(0) =~= Seq::<Seq<char>>::empty());
    while i < pieces.len()
        invariant
            i <= pieces.len(),
            text@ == concat_all(string_views(pieces@).take(i as int)),
        decreases pieces.len() - i,
    {
        proof {
            lemma_concat_all_push(string_views(pieces@).take(i as int), pieces@[i as int]@);
            assert(string_views(pieces@).take(i + 1) =~= string_views(pieces@).take(i as int).push(
                pieces@[i as int]@,
            ));
        }
        text.append(pieces[i].as_str());
        i = i + 1;
    }
    assert(string_views(pieces@).take(pieces.len() as int) =~= string_views(pieces@));
    text
}

/// Writes the strings one behind the other with `separator` between each two.
pub fn join_strings(pieces: &Vec<String>, separator: &str) -> (text: String)
    ensures
        text@ == joined(string_views(pieces@), separator@),
{
    let mut text: String = String::new();
    let mut i: usize = 0;
    assert(string_views(pieces@).take(0) =~= Seq::<Seq<char>>::empty());
    while i < pieces.len()
        invariant
            i <= pieces.len(),
            text@ == joined(string_views(pieces@).take(i as int), separator@),
        decreases pieces.len() - i,
    {
        proof {
            lemma_joined_push(
                string_views(pieces@).take(i as int),
                separator@,
                pieces@[i as int]@,
            );
            assert(string_views(pieces@).take(i + 1) =~= string_views(pieces@).take(i as int).push(
                pieces@[i as int]@,
            ));
        }
        if i > 0 {
            text.append(separator);
        }
        text.append(pieces[i].as_str());
        i = i + 1;
    }
    assert(string_views(pieces@).take(pieces.len() as int) =~= string_views(pieces@));
    text
}

} // verus!
