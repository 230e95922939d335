//! Rendering of integers as text: decimal, lowercase hexadecimal, and a
//! fixed-point value in millionths printed to two decimal places.
use vstd::prelude::*;

verus! {

/// The character of digit `d` (0 to 15), lowercase for 10 and above.
pub open spec fn digit_char(d: nat) -> char {
    if d < 10 {
        (('0' as nat) + d) as char
    } else {
        (('a' as nat) + (d - 10)) as char
    }
}

/// The digits of `n` in `base`, most significant first, without leading zeros
/// (zero itself is one digit).
pub open spec fn digits_of(n: nat, base: nat) -> Seq<char>
    decreases n,
    via digits_of_decreases
{
    if base < 2 || n < base {
        seq![digit_char(n)]
    } else {
        digits_of(n / base, base).push(digit_char(n % base))
    }
}

#[via_fn]
proof fn digits_of_decreases(n: nat, base: nat) {
    if !(base < 2 || n < base) {
        lemma_quotient_smaller(n, base);
    }
}

proof fn lemma_quotient_smaller(n: nat, base: nat)
    requires
        base >= 2,
        n >= 1,
    ensures
        n / base < n,
{
    assert(n / base < n) by (nonlinear_arith)
        requires
            base >= 2,
            n >= 1,
    ;
}

/// The decimal text of `n`.
pub open spec fn decimal_of(n: nat) -> Seq<char> {
    digits_of(n, 10)
}

/// The lowercase hexadecimal text of `n`, with no prefix.
pub open spec fn hex_of(n: nat) -> Seq<char> {
    digits_of(n, 16)
}

/// A value given in millionths, rounded half up to hundredths.
pub open spec fn hundredths_of(micro: nat) -> nat {
    (micro + 5000) / 10000
}

/// A value given in millionths, printed with exactly two decimals.
pub open spec fn fixed2_of(micro: nat) -> Seq<char> {
    let h = hundredths_of(micro);
    decimal_of(h / 100) + seq!['.', digit_char((h % 100) / 10), digit_char(h % 10)]
}

/// The one-character text of digit `d`.
fn digit_str(d: u64) -> (r: &'static str)
    requires
        d < 16,
    ensures
        r@ == seq![digit_char(d as nat)],
{
    proof {
        reveal_strlit("0");
        reveal_strlit("1");
        reveal_strlit("2");
        reveal_strlit("3");
        reveal_strlit("4");
        reveal_strlit("5");
        reveal_strlit("6");
        reveal_strlit("7");
        reveal_strlit("8");
        reveal_strlit("9");
        reveal_strlit("a");
        reveal_strlit("b");
        reveal_strlit("c");
        reveal_strlit("d");
        reveal_strlit("e");
        reveal_strlit("f");
    }
    match d {
        0 => "0",
        1 => "1",
        2 => "2",
        3 => "3",
        4 => "4",
        5 => "5",
        6 => "6",
        7 => "7",
        8 => "8",
        9 => "9",
        10 => "a",
        11 => "b",
        12 => "c",
        13 => "d",
        14 => "e",
        _ => "f",
    }
}

/// Appends the digits of `n` in `base` (2 to 16) to `s`.
pub fn push_digits(s: &mut String, n: u64, base: u64)
    requires
        2 <= base <= 16,
    ensures
        final(s)@ == old(s)@ + digits_of(n as nat, base as nat),
    decreases n,
{
    let ghost s0 = s@;
    if n >= base {
        proof {
            lemma_quotient_smaller(n as nat, base as nat);
        }
        push_digits(s, n / base, base);
    } else {
        proof {
            vstd::arithmetic::div_mod::lemma_small_mod(n as nat, base as nat);
        }
    }
    s.append(digit_str(n % base));
    assert(s@ =~= s0 + digits_of(n as nat, base as nat));
}

/// Appends the decimal text of `n` to `s`.
pub fn push_decimal(s: &mut String, n: u64)
    ensures
        final(s)@ == old(s)@ + decimal_of(n as nat),
{
    push_digits(s, n, 10);
}

/// Appends the lowercase hexadecimal text of `n` to `s`.
pub fn push_hex(s: &mut String, n: u64)
    ensures
        final(s)@ == old(s)@ + hex_of(n as nat),
{
    push_digits(s, n, 16);
}

/// Appends `micro` millionths as a number with two decimals to `s`.
pub fn push_fixed2(s: &mut String, micro: u64)
    ensures
        final(s)@ == old(s)@ + fixed2_of(micro as nat),
{
    let h: u64 = micro / 10000 + if micro % 10000 >= 5000 {
        1
    } else {
        0
    };
    assert(h as nat == hundredths_of(micro as nat));
    push_decimal(s, h / 100);
    s.append(".");
    s.append(digit_str((h % 100) / 10));
    s.append(digit_str(h % 10));
    proof {
        reveal_strlit(".");
    }
    assert(final(s)@ =~= old(s)@ + fixed2_of(micro as nat));
}

} // verus!
