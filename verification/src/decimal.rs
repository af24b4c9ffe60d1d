//! Numbers in decimal notation.
use vstd::prelude::*;
use vstd::string::StringExecFns;

verus! {

/// The digit of `d`, for `d` below ten.
pub open spec fn digit_char(d: nat) -> char {
    (48 + d) as char
}

/// `n` in decimal notation, without leading zeros.
pub open spec fn decimal(n: nat) -> Seq<char>
    decreases n,
{
    if n < 10 {
        seq![digit_char(n)]
    } else {
        decimal(n / 10).push(digit_char(n % 10))
    }
}

/// Decimal notation by its places, for every number: the digits, counted from the last, are those
/// of the units, the tens and so on; there are enough of them for the number, and no zero stands
/// in front.
pub proof fn law_decimal_digits_by_place(n: nat, i: nat)
    ensures
        decimal(n).len() >= 1,
        i < decimal(n).len() ==> decimal(n)[decimal(n).len() - 1 - i] as int == 48 + (n as int
            / vstd::arithmetic::power::pow(10, i)) % 10,
        n < vstd::arithmetic::power::pow(10, decimal(n).len()),
        decimal(n).len() > 1 ==> n >= vstd::arithmetic::power::pow(
            10,
            (decimal(n).len() - 1) as nat,
        ),
    decreases n,
{
    reveal(vstd::arithmetic::power::pow);
    if n < 10 {
        reveal_with_fuel(vstd::arithmetic::power::pow, 2);
    } else {
        let rest: nat = n / 10;
        law_decimal_digits_by_place(rest, if i == 0 {
            0
        } else {
            (i - 1) as nat
        });
        assert(decimal(n) == decimal(rest).push(digit_char(n % 10)));
        if decimal(rest).len() == 1 {
            reveal_with_fuel(vstd::arithmetic::power::pow, 3);
        }
        if i > 0 {
            let p: int = vstd::arithmetic::power::pow(10, (i - 1) as nat);
            vstd::arithmetic::power::lemma_pow_positive(10, (i - 1) as nat);
            vstd::arithmetic::div_mod::lemma_div_denominator(n as int, 10, p);
        }
    }
}

fn digit(d: u32) -> (s: &'static str)
    requires
        d < 10,
    ensures
        s@ == seq![digit_char(d as nat)],
{
    proof {
        reveal_strlit("0");
        reveal_strlit("1");
        reveal_strlit("2");
        reveal_strlit("3");
        reveal_strlit("4");
        reveal_strlit("5");
        reveal_strlit("6");
        reveal_strlit("7");
        reveal_strlit("8");
        reveal_strlit("9");
    }
    let s: &'static str = match d {
        0 => "0",
        1 => "1",
        2 => "2",
        3 => "3",
        4 => "4",
        5 => "5",
        6 => "6",
        7 => "7",
        8 => "8",
        _ => "9",
    };
    assert(s@ =~= seq![digit_char(d as nat)]);
    s
}

/// Appends `n` in decimal notation to `text`.
pub fn append_decimal(text: &mut String, n: u32)
    ensures
        final(text)@ == old(text)@ + decimal(n as nat),
    decreases n,
{
    if n >= 10 {
        append_decimal(text, n / 10);
    }
    text.append(digit(n % 10));
    assert(text@ =~= old(text)@ + decimal(n as nat));
}

} // verus!
