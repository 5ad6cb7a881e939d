//! Decimal rendering of integers, as it appears in audit records.

use vstd::prelude::*;
use vstd::string::*;

verus! {

/// The character that stands for a single decimal digit.
pub open spec fn digit_char(d: int) -> char {
    if d == 0 {
        '0'
    } else if d == 1 {
        '1'
    } else if d == 2 {
        '2'
    } else if d == 3 {
        '3'
    } else if d == 4 {
        '4'
    } else if d == 5 {
        '5'
    } else if d == 6 {
        '6'
    } else if d == 7 {
        '7'
    } else if d == 8 {
        '8'
    } else {
        '9'
    }
}

/// Decimal digits of a natural number, most significant first, without
/// leading zeros (zero itself is the single digit `0`).
pub open spec fn decimal_nat(n: nat) -> Seq<char>
    decreases n,
{
    if n < 10 {
        seq![digit_char(n as int)]
    } else {
        decimal_nat(n / 10).push(digit_char((n % 10) as int))
    }
}

/// Decimal text of an integer: a minus sign, if negative, then the digits
/// of its magnitude.
pub open spec fn decimal(i: int) -> Seq<char> {
    if i < 0 {
        seq!['-'] + decimal_nat((-i) as nat)
    } else {
        decimal_nat(i as nat)
    }
}

/// `count` zeros.
pub open spec fn zeros(count: nat) -> Seq<char> {
    Seq::new(count, |i: int| '0')
}

/// Decimal digits of `n`, filled with zeros on the left up to `width`
/// characters. A number with more digits than `width` is not cut.
pub open spec fn zero_padded(n: nat, width: nat) -> Seq<char> {
    let digits = decimal_nat(n);
    if digits.len() >= width {
        digits
    } else {
        zeros((width - digits.len()) as nat) + digits
    }
}

/// A number's decimal text is never empty.
pub proof fn lemma_decimal_nat_len(n: nat)
    ensures
        decimal_nat(n).len() >= 1,
        n < 10 ==> decimal_nat(n).len() == 1,
        n >= 10 ==> decimal_nat(n).len() == decimal_nat(n / 10).len() + 1,
    decreases n,
{
    if n >= 10 {
        lemma_decimal_nat_len(n / 10);
    }
}

fn digit_str(d: u64) -> (r: &'static str)
    requires
        d < 10,
    ensures
        r@ == seq![digit_char(d as int)],
{
    proof {
        reveal_strlit("0");
        reveal_strlit("1");
        reveal_strlit("2");
        reveal_strlit("3");
        reveal_strlit("4");
        reveal_strlit("5");
        reveal_strlit("6");
        reveal_strlit("7");
        reveal_strlit("8");
        reveal_strlit("9");
    }
    let r = if d == 0 {
        "0"
    } else if d == 1 {
        "1"
    } else if d == 2 {
        "2"
    } else if d == 3 {
        "3"
    } else if d == 4 {
        "4"
    } else if d == 5 {
        "5"
    } else if d == 6 {
        "6"
    } else if d == 7 {
        "7"
    } else if d == 8 {
        "8"
    } else {
        "9"
    };
    assert(r@ =~= seq![digit_char(d as int)]);
    r
}

/// Appends the decimal digits of `n` to `out`.
pub fn push_decimal_nat(out: &mut String, n: u64)
    ensures
        final(out)@ == old(out)@ + decimal_nat(n as nat),
    decreases n,
{
    if n >= 10 {
        push_decimal_nat(out, n / 10);
    }
    out.append(digit_str(n % 10));
    assert(out@ =~= old(out)@ + decimal_nat(n as nat));
}

/// Appends the decimal text of a signed number to `out`.
pub fn push_decimal(out: &mut String, i: i64)
    ensures
        final(out)@ == old(out)@ + decimal(i as int),
{
    if i < 0 {
        proof {
            reveal_strlit("-");
        }
        out.append("-");
        let magnitude: u64 = (0 - (i as i128)) as u64;
        push_decimal_nat(out, magnitude);
        assert(out@ =~= old(out)@ + decimal(i as int));
    } else {
        push_decimal_nat(out, i as u64);
    }
}

/// Appends `count` zeros to `out`.
pub fn push_zeros(out: &mut String, count: usize)
    ensures
        final(out)@ == old(out)@ + zeros(count as nat),
{
    let mut done: usize = 0;
    assert(out@ =~= old(out)@ + zeros(0));
    while done < count
        invariant
            done <= count,
            out@ == old(out)@ + zeros(done as nat),
        decreases count - done,
    {
        proof {
            reveal_strlit("0");
        }
        out.append("0");
        done = done + 1;
        assert(out@ =~= old(out)@ + zeros(done as nat));
    }
}

/// Padding digit by digit: the last digit of `n` follows the padded text of
/// the digits before it, in a field one character narrower.
pub proof fn lemma_zero_padded_step(n: nat, width: nat)
    ensures
        n < 10 ==> zero_padded(n, width) == zeros(if width >= 1 { (width - 1) as nat } else { 0 })
            + seq![digit_char(n as int)],
        n >= 10 ==> zero_padded(n, width) == zero_padded(
            n / 10,
            if width >= 1 { (width - 1) as nat } else { 0 },
        ).push(digit_char((n % 10) as int)),
{
    let narrower: nat = if width >= 1 { (width - 1) as nat } else { 0 };
    lemma_decimal_nat_len(n);
    if n < 10 {
        assert(zero_padded(n, width) =~= zeros(narrower) + seq![digit_char(n as int)]);
    } else {
        lemma_decimal_nat_len(n / 10);
        assert(zero_padded(n, width) =~= zero_padded(n / 10, narrower).push(
            digit_char((n % 10) as int),
        ));
    }
}

/// Appends the digits of `n` to `out`, zero-filled on the left to `width`.
pub fn push_zero_padded(out: &mut String, n: u64, width: usize)
    ensures
        final(out)@ == old(out)@ + zero_padded(n as nat, width as nat),
    decreases n,
{
    let narrower: usize = if width >= 1 { width - 1 } else { 0 };
    proof {
        lemma_zero_padded_step(n as nat, width as nat);
    }
    if n >= 10 {
        push_zero_padded(out, n / 10, narrower);
    } else {
        push_zeros(out, narrower);
    }
    out.append(digit_str(n % 10));
    assert(out@ =~= old(out)@ + zero_padded(n as nat, width as nat));
}

} // verus!
