//! Numbers in decimal notation.

use vstd::prelude::*;
use vstd::string::StringExecFns;

verus! {

/// The decimal digit of value `d`.
pub open spec fn digit(d: nat) -> Seq<char> {
    if d == 0 {
        "0"@
    } else if d == 1 {
        "1"@
    } else if d == 2 {
        "2"@
    } else if d == 3 {
        "3"@
    } else if d == 4 {
        "4"@
    } else if d == 5 {
        "5"@
    } else if d == 6 {
        "6"@
    } else if d == 7 {
        "7"@
    } else if d == 8 {
        "8"@
    } else {
        "9"@
    }
}

/// A number in decimal notation, without leading zeros.
pub open spec fn decimal(n: nat) -> Seq<char>
    decreases n,
{
    if n < 10 {
        digit(n)
    } else {
        decimal(n / 10) + digit(n % 10)
    }
}

/// An integer in decimal notation, with a minus sign where it is negative.
pub open spec fn signed_decimal(n: int) -> Seq<char> {
    if n < 0 {
        "-"@ + decimal((-n) as nat)
    } else {
        decimal(n as nat)
    }
}

fn digit_text(d: u32) -> (text: &'static str)
    requires
        d < 10,
    ensures
        text@ == digit(d as nat),
{
    match d {
        0 => "0",
        1 => "1",
        2 => "2",
        3 => "3",
        4 => "4",
        5 => "5",
        6 => "6",
        7 => "7",
        8 => "8",
        _ => "9",
    }
}

/// Writes a number in decimal notation.
pub fn decimal_text(n: u32) -> (text: String)
    ensures
        text@ == decimal(n as nat),
    decreases n,
{
    if n < 10 {
        digit_text(n).to_owned()
    } else {
        let mut text = decimal_text(n / 10);
        text.append(digit_text(n % 10));
        text
    }
}

/// Writes an integer in decimal notation.
pub fn signed_decimal_text(n: i32) -> (text: String)
    ensures
        text@ == signed_decimal(n as int),
{
    if n < 0 {
        let mut text = "-".to_owned();
        let magnitude: u32 = (-(n as i64)) as u32;
        text.append(decimal_text(magnitude).as_str());
        text
    } else {
        decimal_text(n as u32)
    }
}

/// The value of a decimal digit.
pub open spec fn digit_value(c: char) -> int {
    c as int - '0' as int
}

/// The number that a sequence of decimal digits stands for, the most significant digit first.
pub open spec fn number(text: Seq<char>) -> int
    decreases text.len(),
{
    if text.len() == 0 {
        0
    } else {
        10 * number(text.drop_last()) + digit_value(text.last())
    }
}

proof fn lemma_digit(d: nat)
    requires
        d < 10,
    ensures
        digit(d).len() == 1,
        digit_value(digit(d)[0]) == d,
{
    reveal_strlit("0");
    reveal_strlit("1");
    reveal_strlit("2");
    reveal_strlit("3");
    reveal_strlit("4");
    reveal_strlit("5");
    reveal_strlit("6");
    reveal_strlit("7");
    reveal_strlit("8");
    reveal_strlit("9");
}

/// The decimal notation of a number stands for the number, consists of digits, and has no leading
/// zero but that of zero itself.
pub proof fn law_decimal_notation_is_read_back(n: nat)
    ensures
        number(decimal(n)) == n,
        decimal(n).len() > 0,
        forall|i: int|
            0 <= i < decimal(n).len() ==> 0 <= digit_value(#[trigger] decimal(n)[i]) <= 9,
        n > 0 ==> digit_value(decimal(n)[0]) > 0,
        n == 0 ==> decimal(n).len() == 1,
    decreases n,
{
    if n < 10 {
        lemma_digit(n);
        assert(decimal(n).drop_last() =~= Seq::<char>::empty());
        assert(number(decimal(n).drop_last()) == 0);
    } else {
        law_decimal_notation_is_read_back(n / 10);
        lemma_digit(n % 10);
        assert(decimal(n).drop_last() =~= decimal(n / 10));
        assert(decimal(n).last() == digit(n % 10)[0]);
        assert(decimal(n)[0] == decimal(n / 10)[0]);
    }
}

/// A negative integer is written as a minus sign and its magnitude, and any other one as itself.
pub proof fn law_signed_notation(n: int)
    ensures
        n >= 0 ==> number(signed_decimal(n)) == n,
        n < 0 ==> signed_decimal(n)[0] == '-' && number(signed_decimal(n).skip(1)) == -n,
{
    if n >= 0 {
        law_decimal_notation_is_read_back(n as nat);
    } else {
        reveal_strlit("-");
        law_decimal_notation_is_read_back((-n) as nat);
        assert(signed_decimal(n).skip(1) =~= decimal((-n) as nat));
    }
}

} // verus!
