//! Numbers as text: the decimal and hexadecimal renderings that identifiers
//! and timestamps are made of.

use vstd::prelude::*;
use vstd::string::{StrSliceExecFns, StringExecFns};

verus! {

/// The character that stands for the digit `d` in bases up to sixteen.
pub open spec fn digit_char(d: nat) -> char {
    if d == 0 {
        '0'
    } else if d == 1 {
        '1'
    } else if d == 2 {
        '2'
    } else if d == 3 {
        '3'
    } else if d == 4 {
        '4'
    } else if d == 5 {
        '5'
    } else if d == 6 {
        '6'
    } else if d == 7 {
        '7'
    } else if d == 8 {
        '8'
    } else if d == 9 {
        '9'
    } else if d == 10 {
        'a'
    } else if d == 11 {
        'b'
    } else if d == 12 {
        'c'
    } else if d == 13 {
        'd'
    } else if d == 14 {
        'e'
    } else {
        'f'
    }
}

/// The digits of `n` in `base`, most significant first, without leading zeros;
/// zero is the single digit `0`.
pub open spec fn digits(n: nat, base: nat) -> Seq<char>
    recommends
        2 <= base <= 16,
    decreases n,
{
    if n < base || base < 2 {
        seq![digit_char(n)]
    } else {
        proof {
            assert(n / base < n) by (nonlinear_arith)
                requires
                    n >= base,
                    base >= 2,
            ;
        }
        digits(n / base, base).push(digit_char(n % base))
    }
}

/// `n` in decimal.
pub open spec fn decimal(n: nat) -> Seq<char> {
    digits(n, 10)
}

/// `n` in lower case hexadecimal.
pub open spec fn hex(n: nat) -> Seq<char> {
    digits(n, 16)
}

/// The characters of the digit values in `low_first`, last value first.
pub open spec fn digits_reversed(low_first: Seq<u8>) -> Seq<char> {
    Seq::new(low_first.len(), |i: int| digit_char(low_first[low_first.len() - 1 - i] as nat))
}

fn digit_text(d: u8) -> (text: &'static str)
    requires
        d < 16,
    ensures
        text@ == seq![digit_char(d as nat)],
{
    proof {
        reveal_strlit("0");
        reveal_strlit("1");
        reveal_strlit("2");
        reveal_strlit("3");
        reveal_strlit("4");
        reveal_strlit("5");
        reveal_strlit("6");
        reveal_strlit("7");
        reveal_strlit("8");
        reveal_strlit("9");
        reveal_strlit("a");
        reveal_strlit("b");
        reveal_strlit("c");
        reveal_strlit("d");
        reveal_strlit("e");
        reveal_strlit("f");
    }
    let text = match d {
        0 => "0",
        1 => "1",
        2 => "2",
        3 => "3",
        4 => "4",
        5 => "5",
        6 => "6",
        7 => "7",
        8 => "8",
        9 => "9",
        10 => "a",
        11 => "b",
        12 => "c",
        13 => "d",
        14 => "e",
        _ => "f",
    };
    assert(text@ =~= seq![digit_char(d as nat)]);
    text
}

/// Renders `n` in `base`.
pub fn render(n: u64, base: u8) -> (text: String)
    requires
        2 <= base <= 16,
    ensures
        text@ == digits(n as nat, base as nat),
{
    let wide: u64 = base as u64;
    let mut low_first: Vec<u8> = Vec::new();
    let mut left: u64 = n;
    loop
        invariant_except_break
            wide == base,
            2 <= base <= 16,
            digits(n as nat, base as nat) == digits(left as nat, base as nat) + digits_reversed(
                low_first@,
            ),
            forall|i: int| 0 <= i < low_first@.len() ==> low_first@[i] < 16,
        ensures
            digits(n as nat, base as nat) == digits_reversed(low_first@),
            forall|i: int| 0 <= i < low_first@.len() ==> low_first@[i] < 16,
        decreases left,
    {
        let digit: u8 = (left % wide) as u8;
        let ghost before = low_first@;
        low_first.push(digit);
        assert(digits_reversed(low_first@) =~= seq![digit_char(digit as nat)] + digits_reversed(
            before,
        ));
        if left < wide {
            assert(left % wide == left) by (nonlinear_arith)
                requires
                    left < wide,
            ;
            assert(digits(left as nat, base as nat) =~= seq![digit_char(digit as nat)]);
            break;
        }
        assert(digits(left as nat, base as nat) + digits_reversed(before) =~= digits(
            (left / wide) as nat,
            base as nat,
        ) + digits_reversed(low_first@));
        left = left / wide;
    }
    let mut text = String::new();
    let mut index: usize = low_first.len();
    while index > 0
        invariant
            index <= low_first@.len(),
            forall|i: int| 0 <= i < low_first@.len() ==> low_first@[i] < 16,
            text@ == digits_reversed(low_first@).take(low_first@.len() - index),
        decreases index,
    {
        index = index - 1;
        text.append(digit_text(low_first[index]));
        assert(text@ =~= digits_reversed(low_first@).take(low_first@.len() - index));
    }
    assert(text@ =~= digits_reversed(low_first@));
    text
}

/// Joins two texts.
pub fn join(left: &str, right: &str) -> (text: String)
    ensures
        text@ == left@ + right@,
{
    let mut text = String::from_str(left);
    text.append(right);
    text
}

/// Whether two texts hold the same characters.
pub fn same_text(left: &str, right: &str) -> (same: bool)
    ensures
        same == (left@ == right@),
{
    let left = String::from_str(left);
    let right = String::from_str(right);
    left == right
}

/// The value of a decimal digit; any other character counts as zero.
pub open spec fn digit_value(c: char) -> nat {
    if c == '1' {
        1
    } else if c == '2' {
        2
    } else if c == '3' {
        3
    } else if c == '4' {
        4
    } else if c == '5' {
        5
    } else if c == '6' {
        6
    } else if c == '7' {
        7
    } else if c == '8' {
        8
    } else if c == '9' {
        9
    } else {
        0
    }
}

/// The number that a decimal text stands for.
pub open spec fn decimal_value(text: Seq<char>) -> nat
    decreases text.len(),
{
    if text.len() == 0 {
        0
    } else {
        decimal_value(text.drop_last()) * 10 + digit_value(text.last())
    }
}

/// A number written in decimal stands for itself.
pub proof fn lemma_decimal_value(n: nat)
    ensures
        decimal_value(decimal(n)) == n,
    decreases n,
{
    if n < 10 {
        assert(decimal(n).drop_last() =~= Seq::<char>::empty());
        assert(decimal_value(decimal(n).drop_last()) == 0);
    } else {
        lemma_decimal_value(n / 10);
        assert(decimal(n).drop_last() =~= decimal(n / 10));
    }
}

/// Whether `text` ends with `suffix`.
pub open spec fn is_suffix(suffix: Seq<char>, text: Seq<char>) -> bool {
    suffix.len() <= text.len() && text.skip(text.len() - suffix.len()) == suffix
}

/// Whether `text` ends with `suffix`.
pub fn ends_with(text: &str, suffix: &str) -> (found: bool)
    ensures
        found == is_suffix(suffix@, text@),
{
    let length = text.unicode_len();
    let wanted = suffix.unicode_len();
    if wanted > length {
        return false;
    }
    let start = length - wanted;
    let mut index: usize = 0;
    while index < wanted
        invariant
            index <= wanted,
            wanted == suffix@.len(),
            length == text@.len(),
            start == length - wanted,
            forall|k: int| 0 <= k < index ==> text@[start + k] == suffix@[k],
        decreases wanted - index,
    {
        if text.get_char(start + index) != suffix.get_char(index) {
            assert(text@.skip(start as int)[index as int] != suffix@[index as int]);
            return false;
        }
        index = index + 1;
    }
    assert(text@.skip(start as int) =~= suffix@);
    true
}

/// The index of the first character from `from` on that is not `c`, or the
/// length of the text.
pub open spec fn first_other(text: Seq<char>, c: char, from: int) -> int
    decreases text.len() - from,
{
    if from < 0 || from >= text.len() {
        text.len() as int
    } else if text[from] != c {
        from
    } else {
        first_other(text, c, from + 1)
    }
}

/// `text` without the characters `c` at its start.
pub open spec fn without_leading(text: Seq<char>, c: char) -> Seq<char> {
    text.skip(first_other(text, c, 0))
}

/// What `first_other` returns: an index at or behind `from` whose character
/// is not `c`, if it is one, and before which, from `from` on, all are `c`.
pub proof fn lemma_first_other(text: Seq<char>, c: char, from: int)
    requires
        0 <= from <= text.len(),
    ensures
        from <= first_other(text, c, from) <= text.len(),
        first_other(text, c, from) < text.len() ==> text[first_other(text, c, from)] != c,
        forall|k: int| from <= k < first_other(text, c, from) ==> text[k] == c,
    decreases text.len() - from,
{
    if from < text.len() && text[from] == c {
        lemma_first_other(text, c, from + 1);
    }
}

/// A text is a run of `c` followed by the text without it, and the text
/// without it does not begin with `c`.
pub proof fn lemma_without_leading(text: Seq<char>, c: char)
    ensures
        text == Seq::new((text.len() - without_leading(text, c).len()) as nat, |i: int| c)
            + without_leading(text, c),
        without_leading(text, c).len() > 0 ==> without_leading(text, c)[0] != c,
{
    lemma_first_other(text, c, 0);
    let cut = first_other(text, c, 0);
    assert(text =~= Seq::new(cut as nat, |i: int| c) + text.skip(cut));
}

/// `text` without the characters `c` at its start.
pub fn trim_start(text: &str, c: char) -> (rest: &str)
    ensures
        rest@ == without_leading(text@, c),
{
    let length = text.unicode_len();
    let mut index: usize = 0;
    while index < length && text.get_char(index) == c
        invariant
            index <= length,
            length == text@.len(),
            first_other(text@, c, 0) == first_other(text@, c, index as int),
        decreases length - index,
    {
        index = index + 1;
    }
    let rest = text.substring_char(index, length);
    assert(rest@ =~= text@.skip(index as int));
    rest
}

} // verus!
