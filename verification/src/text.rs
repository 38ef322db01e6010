//! Text: decimal numerals, and a few ways to read characters.

use vstd::prelude::*;
use vstd::string::StringExecFns;

verus! {

/// The character that stands for a digit.
pub open spec fn digit_char(digit: int) -> char {
    ('0' as int + digit) as char
}

/// Whether a character is one of `0` to `9`.
pub open spec fn is_digit(c: char) -> bool {
    '0' <= c && c <= '9'
}

/// Whether the text holds digits only.
pub open spec fn all_digits(text: Seq<char>) -> bool {
    forall|i: int| 0 <= i < text.len() ==> is_digit(#[trigger] text[i])
}

/// The decimal numeral of a number, without leading zeros.
pub open spec fn decimal(n: nat) -> Seq<char>
    decreases n,
{
    if n < 10 {
        seq![digit_char(n as int)]
    } else {
        decimal(n / 10).push(digit_char((n % 10) as int))
    }
}

/// The number that a sequence of digits stands for.
pub open spec fn decimal_value(digits: Seq<char>) -> nat
    decreases digits.len(),
{
    if digits.len() == 0 {
        0
    } else {
        decimal_value(digits.drop_last()) * 10 + (digits.last() as int - '0' as int) as nat
    }
}

/// Whether a text is the numeral of a number: digits that stand for it, without a zero before
/// others.
pub open spec fn is_numeral_of(text: Seq<char>, n: nat) -> bool {
    &&& text.len() > 0
    &&& forall|i: int| 0 <= i < text.len() ==> '0' <= #[trigger] text[i] && text[i] <= '9'
    &&& decimal_value(text) == n
    &&& text[0] == '0' ==> text.len() == 1
}

/// The upper-case form of an ASCII letter; any other character is left alone.
pub open spec fn ascii_upper_char(c: char) -> char {
    if 'a' <= c && c <= 'z' {
        (c as int - 32) as char
    } else {
        c
    }
}

/// The text with its ASCII letters in upper case.
pub open spec fn ascii_upper(s: Seq<char>) -> Seq<char> {
    s.map_values(|c: char| ascii_upper_char(c))
}

/// Whether the text holds ASCII characters only.
pub open spec fn is_ascii_text(s: Seq<char>) -> bool {
    forall|i: int| 0 <= i < s.len() ==> (#[trigger] s[i]) as int <= 127
}

/// Whether two texts differ in the case of ASCII letters at most.
pub open spec fn same_ignoring_ascii_case(s: Seq<char>, t: Seq<char>) -> bool {
    ascii_upper(s) == ascii_upper(t)
}

fn digit_text(digit: u16) -> (r: &'static str)
    requires
        digit < 10,
    ensures
        r@ == seq![digit_char(digit as int)],
{
    proof {
        reveal_strlit("0");
        reveal_strlit("1");
        reveal_strlit("2");
        reveal_strlit("3");
        reveal_strlit("4");
        reveal_strlit("5");
        reveal_strlit("6");
        reveal_strlit("7");
        reveal_strlit("8");
        reveal_strlit("9");
    }
    match digit {
        0 => "0",
        1 => "1",
        2 => "2",
        3 => "3",
        4 => "4",
        5 => "5",
        6 => "6",
        7 => "7",
        8 => "8",
        _ => "9",
    }
}

/// Writes a number in decimal.
pub fn decimal_text(n: u16) -> (r: String)
    ensures
        r@ == decimal(n as nat),
        is_numeral_of(r@, n as nat),
    decreases n,
{
    proof {
        decimal_reads_back(n as nat);
    }
    if n < 10 {
        digit_text(n).to_owned()
    } else {
        let mut text = decimal_text(n / 10);
        text.append(digit_text(n % 10));
        text
    }
}

/// A numeral holds digits only, at least one of them and no zero before others, and stands for the
/// number it was made from.
pub proof fn decimal_reads_back(n: nat)
    ensures
        decimal(n).len() > 0,
        all_digits(decimal(n)),
        decimal_value(decimal(n)) == n,
        n > 0 ==> decimal(n)[0] != '0',
        is_numeral_of(decimal(n), n),
    decreases n,
{
    if n < 10 {
        assert(decimal(n).drop_last() =~= Seq::<char>::empty());
        assert(decimal_value(Seq::<char>::empty()) == 0);
    } else {
        decimal_reads_back(n / 10);
        assert(decimal(n).drop_last() =~= decimal(n / 10));
        assert(decimal(n)[0] == decimal(n / 10)[0]);
    }
}

} // verus!
