//! The texts of the tool: numbers, file names, and what it says of failures.

use vstd::prelude::*;

verus! {

/// The character of a decimal digit.
pub open spec fn digit_char(digit: nat) -> char {
    (48 + digit) as char
}

/// `number` in decimal notation, without leading zeros.
pub open spec fn decimal(number: nat) -> Seq<char>
    decreases number,
{
    if number < 10 {
        seq![digit_char(number)]
    } else {
        decimal(number / 10).push(digit_char(number % 10))
    }
}

/// The number that a string of decimal digits denotes.
pub open spec fn number_of(digits: Seq<char>) -> int
    decreases digits.len(),
{
    if digits.len() == 0 {
        0
    } else {
        10 * number_of(digits.drop_last()) + (digits.last() as int - 48)
    }
}

/// Decimal notation denotes the number it was made from.
pub proof fn decimal_denotes(number: nat)
    ensures
        number_of(decimal(number)) == number,
    decreases number,
{
    if number < 10 {
        let s = decimal(number);
        assert(s.drop_last() =~= Seq::<char>::empty());
        assert(number_of(s.drop_last()) == 0);
        assert(s.last() == digit_char(number));
    } else {
        let s = decimal(number);
        decimal_denotes(number / 10);
        assert(s.drop_last() =~= decimal(number / 10));
        assert(s.last() == digit_char(number % 10));
    }
}

/// Decimal notation consists of digits.
pub proof fn decimal_digits(number: nat)
    ensures
        decimal(number).len() > 0,
        forall|i: int|
            0 <= i < decimal(number).len() ==> 48 <= #[trigger] decimal(number)[i] as int <= 57,
    decreases number,
{
    if number >= 10 {
        decimal_digits(number / 10);
    }
}

/// The text of a single digit.
fn digit_text(digit: u64) -> (text: &'static str)
    requires
        digit < 10,
    ensures
        text@ == seq![digit_char(digit as nat)],
{
    proof {
        reveal_strlit("0");
        reveal_strlit("1");
        reveal_strlit("2");
        reveal_strlit("3");
        reveal_strlit("4");
        reveal_strlit("5");
        reveal_strlit("6");
        reveal_strlit("7");
        reveal_strlit("8");
        reveal_strlit("9");
    }
    let text = match digit {
        0 => "0",
        1 => "1",
        2 => "2",
        3 => "3",
        4 => "4",
        5 => "5",
        6 => "6",
        7 => "7",
        8 => "8",
        _ => "9",
    };
    assert(text@ =~= seq![digit_char(digit as nat)]);
    text
}

/// Writes `number` in decimal notation.
pub fn to_decimal(number: u64) -> (text: String)
    ensures
        text@ == decimal(number as nat),
    decreases number,
{
    if number < 10 {
        digit_text(number).to_owned()
    } else {
        let mut text = to_decimal(number / 10);
        text.append(digit_text(number % 10));
        assert(text@ =~= decimal(number as nat));
        text
    }
}

/// `number` between two pieces of text.
pub(crate) fn around_number(before: &str, number: u64, after: &str) -> (text: String)
    ensures
        text@ == before@ + decimal(number as nat) + after@,
{
    let mut text = before.to_owned();
    text.append(to_decimal(number).as_str());
    text.append(after);
    text
}

/// One piece of text behind another.
pub(crate) fn join(before: &str, after: &str) -> (text: String)
    ensures
        text@ == before@ + after@,
{
    let mut text = before.to_owned();
    text.append(after);
    text
}

/// Decimal notation grows by one digit on the right for every factor of ten: the
/// last character says the remainder, and those before it the rest. It does not
/// begin with a zero, but for zero itself.
pub proof fn decimal_by_digits(number: nat, digit: nat)
    requires
        digit < 10,
    ensures
        decimal(digit) == seq![(48 + digit) as char],
        number > 0 ==> decimal(10 * number + digit) == decimal(number).push((48 + digit) as char),
        decimal(number).len() > 0,
        number > 0 ==> decimal(number)[0] != '0',
    decreases number,
{
    if number > 0 {
        assert((10 * number + digit) / 10 == number && (10 * number + digit) % 10 == digit);
    }
    if number >= 10 {
        decimal_by_digits(number / 10, number % 10);
        assert(decimal(number)[0] == decimal(number / 10)[0]);
    }
}

/// A row of characters denotes ten times what the characters before its last do, and
/// what its last does.
pub proof fn number_by_digits(digits: Seq<char>, last: char)
    ensures
        number_of(Seq::empty()) == 0,
        number_of(digits.push(last)) == 10 * number_of(digits) + (last as int - '0' as int),
{
    assert(digits.push(last).drop_last() =~= digits);
}

} // verus!
