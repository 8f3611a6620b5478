//! Decimal rendering and string building.
use vstd::prelude::*;

verus! {

/// Relies on `String::push`: appends one character at the end.
pub assume_specification[ String::push ](s: &mut String, ch: char)
    ensures
        final(s)@ == old(s)@.push(ch),
;

/// Relies on `String::push_str`: appends the characters of `t` at the end.
pub assume_specification[ String::push_str ](s: &mut String, t: &str)
    ensures
        final(s)@ == old(s)@ + t@,
;

/// The character of a decimal digit.
pub open spec fn digit_char(d: nat) -> char {
    ((d + 48) as u8) as char
}

/// The decimal digits of `m`, most significant first, without leading zeros.
pub open spec fn digits_of(m: nat) -> Seq<char>
    decreases m,
{
    if m < 10 {
        seq![digit_char(m)]
    } else {
        digits_of(m / 10).push(digit_char(m % 10))
    }
}

/// The decimal text of an integer, with a leading `-` when it is negative.
pub open spec fn decimal_of(n: int) -> Seq<char> {
    if n < 0 {
        seq!['-'] + digits_of((-n) as nat)
    } else {
        digits_of(n as nat)
    }
}

/// The value that a run of decimal digits denotes.
pub open spec fn digits_value(s: Seq<char>) -> int
    decreases s.len(),
{
    if s.len() == 0 {
        0
    } else {
        digits_value(s.drop_last()) * 10 + (s.last() as int - 48)
    }
}

/// The value that decimal text with an optional leading `-` denotes.
pub open spec fn decimal_value(s: Seq<char>) -> int {
    if s.len() > 0 && s[0] == '-' {
        -digits_value(s.drop_first())
    } else {
        digits_value(s)
    }
}

/// Reading the digits of `m` back gives `m`.
pub proof fn lemma_digits_round_trip(m: nat)
    ensures
        digits_value(digits_of(m)) == m,
        digits_of(m).len() > 0,
        digits_of(m)[0] != '-',
    decreases m,
{
    assert(digit_char(m % 10) as int == m % 10 + 48);
    if m >= 10 {
        lemma_digits_round_trip(m / 10);
        let s = digits_of(m);
        assert(s.drop_last() =~= digits_of(m / 10));
        assert(s.last() == digit_char(m % 10));
        assert(digits_value(s) == digits_value(s.drop_last()) * 10 + (s.last() as int - 48));
        assert(m == (m / 10) * 10 + m % 10);
    } else {
        let s = digits_of(m);
        assert(s.drop_last() =~= Seq::<char>::empty());
        assert(digits_value(s.drop_last()) == 0);
        assert(s.last() == digit_char(m));
    }
}

/// Reading the decimal text of any integer back gives that integer.
pub proof fn lemma_decimal_round_trip(n: int)
    ensures
        decimal_value(decimal_of(n)) == n,
{
    if n < 0 {
        lemma_digits_round_trip((-n) as nat);
        assert((seq!['-'] + digits_of((-n) as nat)).drop_first() =~= digits_of((-n) as nat));
    } else {
        lemma_digits_round_trip(n as nat);
    }
}

fn push_digits(out: &mut String, m: u64)
    ensures
        final(out)@ == old(out)@ + digits_of(m as nat),
    decreases m,
{
    let d: u64 = m % 10;
    if m >= 10 {
        push_digits(out, m / 10);
    }
    out.push(((d + 48) as u8) as char);
    proof {
        assert(final(out)@ =~= old(out)@ + digits_of(m as nat));
    }
}

/// Appends the decimal text of `n` to `out`.
pub fn push_decimal(out: &mut String, n: i64)
    ensures
        final(out)@ == old(out)@ + decimal_of(n as int),
{
    if n < 0 {
        out.push('-');
        let m: u64 = if n == i64::MIN {
            9223372036854775808u64
        } else {
            (-n) as u64
        };
        push_digits(out, m);
        proof {
            assert(final(out)@ =~= old(out)@ + decimal_of(n as int));
        }
    } else {
        push_digits(out, n as u64);
    }
}

} // verus!
