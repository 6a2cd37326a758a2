//! Rendering of numbers as text, and the few string operations the
//! disassembler needs.

use vstd::prelude::*;

verus! {

/// The character that stands for the digit `d` in any base up to sixteen,
/// with upper-case letters for ten and above.
pub open spec fn digit_char(d: int) -> char
    recommends
        0 <= d < 16,
{
    seq![
        '0', '1', '2', '3', '4', '5', '6', '7', '8', '9', 'A', 'B', 'C', 'D', 'E', 'F',
    ][d]
}

/// The digits of `n` in base `base`, most significant first, without padding.
/// Zero is the single digit `0`.
pub open spec fn digits(n: nat, base: nat) -> Seq<char>
    decreases n,
    via digits_decreases
{
    if n < base || base < 2 {
        seq![digit_char(n as int)]
    } else {
        digits(n / base, base).push(digit_char((n % base) as int))
    }
}

#[via_fn]
proof fn digits_decreases(n: nat, base: nat) {
    if !(n < base || base < 2) {
        lemma_quotient_smaller(n, base);
    }
}

/// `count` copies of the character `0`.
pub open spec fn zeros(count: nat) -> Seq<char> {
    Seq::new(count, |i: int| '0')
}

/// `s`, with zeros in front of it until it is `width` characters long. A
/// text that is longer already stays as it is.
pub open spec fn zero_pad(s: Seq<char>, width: nat) -> Seq<char> {
    if s.len() >= width {
        s
    } else {
        zeros((width - s.len()) as nat) + s
    }
}

/// `n` in upper-case hexadecimal, at least `width` digits wide.
pub open spec fn hex(n: nat, width: nat) -> Seq<char> {
    zero_pad(digits(n, 16), width)
}

/// `n` in decimal, at least `width` digits wide.
pub open spec fn dec(n: nat, width: nat) -> Seq<char> {
    zero_pad(digits(n, 10), width)
}

/// The widths that the listings rely on are exact: a byte takes two
/// hexadecimal digits, a 16-bit address four and a 24-bit global address
/// six, and a bank number below a thousand takes three decimal digits.
pub proof fn lemma_exact_widths(n: nat)
    ensures
        n < 0x100 ==> hex(n, 2).len() == 2,
        n < 0x1_0000 ==> hex(n, 4).len() == 4,
        n < 0x100_0000 ==> hex(n, 6).len() == 6,
        n < 1000 ==> dec(n, 3).len() == 3,
{
    reveal_with_fuel(digits, 7);
}

/// The text of one digit.
pub fn digit_str(d: usize) -> (r: &'static str)
    requires
        d < 16,
    ensures
        r@ == seq![digit_char(d as int)],
{
    proof {
        reveal_strlit("0");
        reveal_strlit("1");
        reveal_strlit("2");
        reveal_strlit("3");
        reveal_strlit("4");
        reveal_strlit("5");
        reveal_strlit("6");
        reveal_strlit("7");
        reveal_strlit("8");
        reveal_strlit("9");
        reveal_strlit("A");
        reveal_strlit("B");
        reveal_strlit("C");
        reveal_strlit("D");
        reveal_strlit("E");
        reveal_strlit("F");
    }
    let r: &'static str = match d {
        0 => "0",
        1 => "1",
        2 => "2",
        3 => "3",
        4 => "4",
        5 => "5",
        6 => "6",
        7 => "7",
        8 => "8",
        9 => "9",
        10 => "A",
        11 => "B",
        12 => "C",
        13 => "D",
        14 => "E",
        _ => "F",
    };
    assert(r@ =~= seq![digit_char(d as int)]);
    r
}

/// How many digits `n` has in base `base`.
pub fn digit_count(n: usize, base: usize) -> (r: usize)
    requires
        2 <= base <= 16,
    ensures
        r == digits(n as nat, base as nat).len(),
        1 <= r <= 64,
    decreases n,
{
    if n < base {
        1
    } else {
        proof {
            lemma_quotient_smaller(n as nat, base as nat);
            lemma_digit_count_bound(n as nat, base as nat);
        }
        let rest: usize = digit_count(n / base, base);
        rest + 1
    }
}

/// Dividing by a base of two or more makes a number that is at least as
/// large as the base strictly smaller.
pub proof fn lemma_quotient_smaller(n: nat, base: nat)
    requires
        2 <= base <= n,
    ensures
        n / base < n,
        n / base <= n / 2,
{
    assert(n / base < n && n / base <= n / 2) by (nonlinear_arith)
        requires
            2 <= base <= n,
    ;
}

/// A number below `2^64` has at most 64 digits in any base from two up.
pub proof fn lemma_digit_count_bound(n: nat, base: nat)
    requires
        2 <= base,
        n <= u64::MAX,
    ensures
        digits(n, base).len() <= 64,
{
    vstd::arithmetic::power2::lemma2_to64();
    lemma_digits_len_log(n, base, 64);
}

/// A number below `2^k` has at most `k` digits in any base from two up.
proof fn lemma_digits_len_log(n: nat, base: nat, k: nat)
    requires
        2 <= base,
        k >= 1,
        n < vstd::arithmetic::power2::pow2(k),
    ensures
        digits(n, base).len() <= k,
    decreases n,
{
    if n >= base {
        vstd::arithmetic::power2::lemma_pow2_unfold(k);
        if k == 1 {
            vstd::arithmetic::power2::lemma2_to64();
        } else {
            lemma_quotient_smaller(n, base);
            lemma_digits_len_log(n / base, base, (k - 1) as nat);
        }
    }
}

/// Appends the digits of `n` in base `base` to `out`.
pub fn push_digits(out: &mut String, n: usize, base: usize)
    requires
        2 <= base <= 16,
    ensures
        final(out)@ == old(out)@ + digits(n as nat, base as nat),
    decreases n,
{
    if n < base {
        out.append(digit_str(n));
    } else {
        proof {
            lemma_quotient_smaller(n as nat, base as nat);
        }
        push_digits(out, n / base, base);
        out.append(digit_str(n % base));
        assert(out@ =~= old(out)@ + digits(n as nat, base as nat));
    }
}

/// Appends `n` in base `base`, at least `width` digits wide, to `out`.
pub fn push_padded(out: &mut String, n: usize, base: usize, width: usize)
    requires
        2 <= base <= 16,
    ensures
        final(out)@ == old(out)@ + zero_pad(digits(n as nat, base as nat), width as nat),
{
    let have: usize = digit_count(n, base);
    let mut at: usize = have;
    while at < width
        invariant
            have <= at,
            at <= width || at == have,
            out@ == old(out)@ + zeros((at - have) as nat),
        decreases width - at,
    {
        out.append("0");
        proof {
            reveal_strlit("0");
            assert(out@ =~= old(out)@ + zeros((at + 1 - have) as nat));
        }
        at = at + 1;
    }
    push_digits(out, n, base);
    assert(out@ =~= old(out)@ + zero_pad(digits(n as nat, base as nat), width as nat));
}

/// Appends `n` in upper-case hexadecimal, at least `width` digits wide.
pub fn push_hex(out: &mut String, n: usize, width: usize)
    ensures
        final(out)@ == old(out)@ + hex(n as nat, width as nat),
{
    push_padded(out, n, 16, width);
}

/// Appends `n` in decimal, at least `width` digits wide.
pub fn push_dec(out: &mut String, n: usize, width: usize)
    ensures
        final(out)@ == old(out)@ + dec(n as nat, width as nat),
{
    push_padded(out, n, 10, width);
}

} // verus!
