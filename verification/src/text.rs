//! Decimal text of integers, as it appears in error messages.

use vstd::prelude::*;

verus! {

/// The character of the decimal digit `d`.
pub open spec fn digit(d: nat) -> char
    recommends
        d < 10,
{
    (48 + d) as char
}

/// The decimal text of `n`: no sign, no leading zero.
pub open spec fn decimal(n: nat) -> Seq<char>
    decreases n,
{
    if n < 10 {
        seq![digit(n)]
    } else {
        decimal(n / 10).push(digit(n % 10))
    }
}

/// The decimal text of `n`, with a minus sign in front of a negative value.
pub open spec fn signed_decimal(n: int) -> Seq<char> {
    if n < 0 {
        "-"@ + decimal((-n) as nat)
    } else {
        decimal(n as nat)
    }
}

/// The text of the single decimal digit `d`.
fn digit_text(d: u64) -> (s: &'static str)
    requires
        d < 10,
    ensures
        s@ == seq![digit(d as nat)],
{
    proof {
        reveal_strlit("0");
        reveal_strlit("1");
        reveal_strlit("2");
        reveal_strlit("3");
        reveal_strlit("4");
        reveal_strlit("5");
        reveal_strlit("6");
        reveal_strlit("7");
        reveal_strlit("8");
        reveal_strlit("9");
    }
    match d {
        0 => "0",
        1 => "1",
        2 => "2",
        3 => "3",
        4 => "4",
        5 => "5",
        6 => "6",
        7 => "7",
        8 => "8",
        _ => "9",
    }
}

/// Writes `n` in decimal.
pub fn decimal_text(n: u64) -> (s: String)
    ensures
        s@ == decimal(n as nat),
    decreases n,
{
    if n < 10 {
        digit_text(n).to_owned()
    } else {
        let mut s = decimal_text(n / 10);
        s.append(digit_text(n % 10));
        assert(s@ =~= decimal((n / 10) as nat).push(digit((n % 10) as nat)));
        s
    }
}

/// Writes `n` in decimal, with a minus sign in front of a negative value.
pub fn signed_decimal_text(n: i32) -> (s: String)
    ensures
        s@ == signed_decimal(n as int),
{
    if n < 0 {
        let magnitude: i64 = -(n as i64);
        let mut s = "-".to_owned();
        s.append(decimal_text(magnitude as u64).as_str());
        s
    } else {
        decimal_text(n as u64)
    }
}

/// What the decimal text of a number is: a digit by itself below ten, and one digit more
/// for every further place. Every character is a digit, and there is no leading zero.
pub proof fn law_decimal_places(n: nat, d: nat)
    requires
        d < 10,
    ensures
        decimal(d) == seq![(48 + d) as char],
        n > 0 ==> decimal(10 * n + d) == decimal(n).push((48 + d) as char),
        decimal(n).len() > 0,
        forall|i: int| 0 <= i < decimal(n).len() ==> '0' <= #[trigger] decimal(n)[i] <= '9',
        n > 0 ==> decimal(n)[0] != '0',
    decreases n,
{
    if n >= 10 {
        law_decimal_places(n / 10, n % 10);
    }
}

/// Different numbers have different texts.
pub proof fn law_decimal_tells_numbers_apart(a: nat, b: nat)
    requires
        decimal(a) == decimal(b),
    ensures
        a == b,
    decreases a,
{
    law_decimal_places(a / 10, a % 10);
    law_decimal_places(b / 10, b % 10);
    assert(decimal(a).last() == (48 + a % 10) as char);
    assert(decimal(b).last() == (48 + b % 10) as char);
    assert(((48 + a % 10) as char) as nat == 48 + a % 10);
    assert(((48 + b % 10) as char) as nat == 48 + b % 10);
    if a >= 10 {
        assert(decimal(a).drop_last() =~= decimal(a / 10));
        assert(decimal(a).len() > 1);
    }
    if b >= 10 {
        assert(decimal(b).drop_last() =~= decimal(b / 10));
        assert(decimal(b).len() > 1);
    }
    if a >= 10 && b >= 10 {
        law_decimal_tells_numbers_apart(a / 10, b / 10);
    }
}

/// A negative number is a minus sign and the text of its absolute value.
pub proof fn law_signed_decimal(n: int)
    ensures
        n >= 0 ==> signed_decimal(n) == decimal(n as nat),
        n < 0 ==> signed_decimal(n) == seq!['-'] + decimal((-n) as nat),
{
    reveal_strlit("-");
    assert("-"@ =~= seq!['-']);
}

} // verus!
