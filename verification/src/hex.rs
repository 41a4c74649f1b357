//! Lower-case hexadecimal rendering of unsigned numbers.

use vstd::prelude::*;
use vstd::string::*;

verus! {

/// The sixteen hexadecimal digits in ascending order.
pub open spec fn hex_alphabet() -> Seq<char> {
    seq![
        '0', '1', '2', '3', '4', '5', '6', '7',
        '8', '9', 'a', 'b', 'c', 'd', 'e', 'f',
    ]
}

/// The digit that stands for `d`, for `d` below 16.
pub open spec fn hex_digit(d: nat) -> char
    recommends
        d < 16,
{
    hex_alphabet()[d as int]
}

/// The hexadecimal digits of `n`, most significant first, without leading
/// zeros; zero is the single digit `0`.
pub open spec fn hex_digits(n: nat) -> Seq<char>
    decreases n,
{
    if n < 16 {
        seq![hex_digit(n)]
    } else {
        hex_digits(n / 16).push(hex_digit(n % 16))
    }
}

/// `n` as a hexadecimal literal: `0x`, then the digits of `n`.
pub open spec fn hex_literal(n: nat) -> Seq<char> {
    seq!['0', 'x'] + hex_digits(n)
}

/// Appends the hexadecimal digits of `n` to `out`.
pub fn append_hex_digits(out: &mut String, n: u32)
    ensures
        final(out)@ == old(out)@ + hex_digits(n as nat),
    decreases n,
{
    if n >= 16 {
        append_hex_digits(out, n / 16);
    }
    let d: usize = (n % 16) as usize;
    let alphabet = "0123456789abcdef";
    proof {
        reveal_strlit("0123456789abcdef");
        assert(alphabet@ =~= hex_alphabet());
        assert(alphabet.is_ascii());
    }
    let digit = alphabet.substring_ascii(d, d + 1);
    assert(digit@ =~= seq![hex_digit(d as nat)]);
    out.append(digit);
    assert(final(out)@ =~= old(out)@ + hex_digits(n as nat));
}

/// Appends `n` as a hexadecimal literal to `out`.
pub fn append_hex_literal(out: &mut String, n: u32)
    ensures
        final(out)@ == old(out)@ + hex_literal(n as nat),
{
    proof {
        reveal_strlit("0x");
        assert("0x"@ =~= seq!['0', 'x']);
    }
    out.append("0x");
    append_hex_digits(out, n);
    assert(final(out)@ =~= old(out)@ + hex_literal(n as nat));
}

/// `n` as a hexadecimal literal, such as `0x2a`.
pub fn to_hex_literal(n: u32) -> (text: String)
    ensures
        text@ == hex_literal(n as nat),
        3 <= text@.len() <= 10,
{
    let mut text = String::new();
    append_hex_literal(&mut text, n);
    proof {
        assert(text@ =~= hex_literal(n as nat));
        lemma_hex_digits_len(n as nat);
    }
    text
}

/// The number that a lower-case hexadecimal digit stands for.
pub open spec fn hex_digit_value(c: char) -> nat {
    if '0' <= c <= '9' {
        (c as nat - '0' as nat) as nat
    } else {
        (c as nat - 'a' as nat + 10) as nat
    }
}

/// The number that a sequence of hexadecimal digits stands for, most
/// significant digit first.
pub open spec fn hex_value(digits: Seq<char>) -> nat
    decreases digits.len(),
{
    if digits.len() == 0 {
        0
    } else {
        16 * hex_value(digits.drop_last()) + hex_digit_value(digits.last())
    }
}

/// Each digit stands for the number it was chosen for.
pub proof fn lemma_hex_digit_value(d: nat)
    requires
        d < 16,
    ensures
        hex_digit_value(hex_digit(d)) == d,
{
}

/// Reading the digits of `n` gives `n` back: the rendering loses nothing.
pub proof fn lemma_hex_digits_round_trip(n: nat)
    ensures
        hex_value(hex_digits(n)) == n,
    decreases n,
{
    let digits = hex_digits(n);
    if n < 16 {
        lemma_hex_digit_value(n);
        assert(digits.drop_last() =~= Seq::<char>::empty());
        assert(hex_value(digits.drop_last()) == 0);
    } else {
        lemma_hex_digits_round_trip(n / 16);
        lemma_hex_digit_value(n % 16);
        assert(digits.drop_last() =~= hex_digits(n / 16));
        assert(digits.last() == hex_digit(n % 16));
    }
}

/// Different numbers have different digits.
pub proof fn lemma_hex_digits_injective(a: nat, b: nat)
    ensures
        hex_digits(a) == hex_digits(b) <==> a == b,
{
    lemma_hex_digits_round_trip(a);
    lemma_hex_digits_round_trip(b);
}

/// Different numbers have different literals.
pub proof fn lemma_hex_literal_injective(a: nat, b: nat)
    ensures
        hex_literal(a) == hex_literal(b) <==> a == b,
{
    let la = hex_literal(a);
    let lb = hex_literal(b);
    assert(la.subrange(2, la.len() as int) =~= hex_digits(a));
    assert(lb.subrange(2, lb.len() as int) =~= hex_digits(b));
    lemma_hex_digits_injective(a, b);
}

/// A number below `2^32` has at least one and at most eight digits.
pub proof fn lemma_hex_digits_len(n: nat)
    requires
        n <= u32::MAX,
    ensures
        1 <= hex_digits(n).len() <= 8,
{
    reveal_with_fuel(hex_digits, 9);
}

} // verus!
