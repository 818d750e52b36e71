//! Integers in decimal, as `std` prints them: digits without leading zeros,
//! and a minus sign in front of negative numbers.

use vstd::prelude::*;

verus! {

/// The character that stands for a single decimal digit.
pub open spec fn digit(d: int) -> char {
    if d == 0 {
        '0'
    } else if d == 1 {
        '1'
    } else if d == 2 {
        '2'
    } else if d == 3 {
        '3'
    } else if d == 4 {
        '4'
    } else if d == 5 {
        '5'
    } else if d == 6 {
        '6'
    } else if d == 7 {
        '7'
    } else if d == 8 {
        '8'
    } else {
        '9'
    }
}

/// Whether `c` is one of the characters `0` to `9`.
pub open spec fn is_digit(c: char) -> bool {
    '0' <= c && c <= '9'
}

/// The decimal form of a natural number, without leading zeros.
pub open spec fn decimal_nat(n: nat) -> Seq<char>
    decreases n,
{
    if n < 10 {
        seq![digit(n as int)]
    } else {
        decimal_nat(n / 10).push(digit((n % 10) as int))
    }
}

/// The decimal form of an integer: a minus sign in front of negative numbers,
/// no sign otherwise.
pub open spec fn decimal(i: int) -> Seq<char> {
    if i < 0 {
        seq!['-'] + decimal_nat((-i) as nat)
    } else {
        decimal_nat(i as nat)
    }
}

/// A decimal form is never empty and holds nothing but digits.
pub proof fn lemma_decimal_nat_digits(n: nat)
    ensures
        decimal_nat(n).len() >= 1,
        forall|k: int| 0 <= k < decimal_nat(n).len() ==> is_digit(#[trigger] decimal_nat(n)[k]),
    decreases n,
{
    if n >= 10 {
        lemma_decimal_nat_digits(n / 10);
    }
}

/// The decimal form of an integer is never empty and holds nothing but
/// digits, behind a minus sign where the integer is negative.
pub proof fn lemma_decimal_chars(i: int)
    ensures
        decimal(i).len() >= 1,
        forall|k: int|
            0 <= k < decimal(i).len() ==> is_digit(#[trigger] decimal(i)[k]) || (k == 0 && i < 0
                && decimal(i)[k] == '-'),
{
    if i < 0 {
        lemma_decimal_nat_digits((-i) as nat);
        assert forall|k: int| 0 <= k < decimal(i).len() implies is_digit(
            #[trigger] decimal(i)[k],
        ) || (k == 0 && decimal(i)[k] == '-') by {
            if k > 0 {
                assert(decimal(i)[k] == decimal_nat((-i) as nat)[k - 1]);
            }
        }
    } else {
        lemma_decimal_nat_digits(i as nat);
    }
}

/// Two natural numbers with the same decimal form are the same number.
pub proof fn lemma_decimal_nat_injective(a: nat, b: nat)
    requires
        decimal_nat(a) == decimal_nat(b),
    ensures
        a == b,
    decreases a,
{
    if a >= 10 && b >= 10 {
        // Equal forms have equal last digits and equal forms in front of them.
        assert(decimal_nat(a).drop_last() == decimal_nat(a / 10));
        assert(decimal_nat(b).drop_last() == decimal_nat(b / 10));
        assert(decimal_nat(a).last() == digit((a % 10) as int));
        assert(decimal_nat(b).last() == digit((b % 10) as int));
        lemma_decimal_nat_injective(a / 10, b / 10);
    } else if a < 10 && b < 10 {
        assert(decimal_nat(a)[0] == digit(a as int));
        assert(decimal_nat(b)[0] == digit(b as int));
    } else if a < 10 {
        // One form is a single digit and the other is longer.
        lemma_decimal_nat_digits(b / 10);
        assert(decimal_nat(a).len() == 1);
        assert(decimal_nat(b).len() >= 2);
    } else {
        lemma_decimal_nat_digits(a / 10);
        assert(decimal_nat(a).len() >= 2);
        assert(decimal_nat(b).len() == 1);
    }
}

/// Two integers with the same decimal form are the same integer.
pub proof fn lemma_decimal_injective(i: int, j: int)
    requires
        decimal(i) == decimal(j),
    ensures
        i == j,
{
    let ni = (if i < 0 { -i } else { i }) as nat;
    let nj = (if j < 0 { -j } else { j }) as nat;
    if i < 0 && j < 0 {
        assert(decimal_nat(ni) == decimal(i).subrange(1, decimal(i).len() as int));
        assert(decimal_nat(nj) == decimal(j).subrange(1, decimal(j).len() as int));
        lemma_decimal_nat_injective(ni, nj);
    } else if i >= 0 && j >= 0 {
        lemma_decimal_nat_injective(ni, nj);
    } else if i < 0 {
        // One form starts with a minus sign and the other with a digit.
        lemma_decimal_chars(j);
        assert(decimal(i)[0] == '-');
        assert(is_digit(decimal(j)[0]));
    } else {
        lemma_decimal_chars(i);
        assert(decimal(j)[0] == '-');
        assert(is_digit(decimal(i)[0]));
    }
}

/// The text of a single digit.
fn digit_str(d: u64) -> (text: &'static str)
    requires
        d < 10,
    ensures
        text@ == seq![digit(d as int)],
{
    proof {
        reveal_strlit("0");
        reveal_strlit("1");
        reveal_strlit("2");
        reveal_strlit("3");
        reveal_strlit("4");
        reveal_strlit("5");
        reveal_strlit("6");
        reveal_strlit("7");
        reveal_strlit("8");
        reveal_strlit("9");
    }
    let text = if d == 0 {
        "0"
    } else if d == 1 {
        "1"
    } else if d == 2 {
        "2"
    } else if d == 3 {
        "3"
    } else if d == 4 {
        "4"
    } else if d == 5 {
        "5"
    } else if d == 6 {
        "6"
    } else if d == 7 {
        "7"
    } else if d == 8 {
        "8"
    } else {
        "9"
    };
    text
}

/// Writes the decimal form of `n` behind what `out` already holds.
fn append_decimal(out: &mut String, n: u64)
    ensures
        final(out)@ == old(out)@ + decimal_nat(n as nat),
    decreases n,
{
    if n >= 10 {
        append_decimal(out, n / 10);
    }
    out.append(digit_str(n % 10));
}

/// The decimal form of `value`.
pub fn decimal_string(value: i64) -> (text: String)
    ensures
        text@ == decimal(value as int),
{
    let mut text = String::new();
    if value < 0 {
        proof {
            reveal_strlit("-");
        }
        text.append("-");
        let magnitude: u64 = (-(value + 1)) as u64 + 1;
        append_decimal(&mut text, magnitude);
    } else {
        append_decimal(&mut text, value as u64);
    }
    text
}

} // verus!
