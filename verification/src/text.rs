//! Decimal rendering of integers, as `Display` writes them.

use vstd::prelude::*;

verus! {

/// Appending a character to a `String` extends its characters by that one.
pub assume_specification[ String::push ](string: &mut String, ch: char)
    ensures
        final(string)@ == old(string)@.push(ch),
;

/// The ASCII digit for a value below ten.
pub open spec fn digit_char(d: nat) -> char
    recommends
        d < 10,
{
    (48 + d) as char
}

/// The decimal digits of `n`, most significant first, without leading zeros.
pub open spec fn decimal_digits(n: nat) -> Seq<char>
    decreases n,
{
    if n < 10 {
        seq![digit_char(n)]
    } else {
        decimal_digits(n / 10).push(digit_char(n % 10))
    }
}

/// The decimal text of an integer: a minus sign before the digits of a negative one.
pub open spec fn decimal_text(v: int) -> Seq<char> {
    if v < 0 {
        seq!['-'] + decimal_digits((-v) as nat)
    } else {
        decimal_digits(v as nat)
    }
}

fn digit(d: u64) -> (c: char)
    requires
        d < 10,
    ensures
        c == digit_char(d as nat),
{
    let b: u8 = 48u8 + (d as u8);
    b as char
}

/// Appends the decimal digits of `n`.
pub fn push_decimal_digits(out: &mut String, n: u64)
    ensures
        final(out)@ == old(out)@ + decimal_digits(n as nat),
    decreases n,
{
    if n >= 10 {
        push_decimal_digits(out, n / 10);
    }
    out.push(digit(n % 10));
    assert(final(out)@ =~= old(out)@ + decimal_digits(n as nat)) by {
        if n >= 10 {
            assert(decimal_digits(n as nat) == decimal_digits((n / 10) as nat).push(
                digit_char((n % 10) as nat),
            ));
        }
    };
}

/// Appends the decimal text of `v`, as `{}` formats an `i64`.
pub fn push_decimal_i64(out: &mut String, v: i64)
    ensures
        final(out)@ == old(out)@ + decimal_text(v as int),
{
    if v < 0 {
        out.push('-');
        let magnitude: u64 = (-(v as i128)) as u64;
        push_decimal_digits(out, magnitude);
        assert(final(out)@ =~= old(out)@ + decimal_text(v as int));
    } else {
        push_decimal_digits(out, v as u64);
    }
}

/// The number that a string of decimal digits denotes.
pub open spec fn digits_value(s: Seq<char>) -> int
    decreases s.len(),
{
    if s.len() == 0 {
        0
    } else {
        10 * digits_value(s.drop_last()) + (s.last() as int - 48)
    }
}

/// The decimal text of `n` consists of digits only, starts with a non-zero digit
/// unless `n` is zero, and denotes `n`.
pub proof fn decimal_digits_denote(n: nat)
    ensures
        decimal_digits(n).len() >= 1,
        forall|i: int| 0 <= i < decimal_digits(n).len() ==> '0' <= #[trigger] decimal_digits(n)[i] <= '9',
        n > 0 ==> decimal_digits(n)[0] != '0',
        digits_value(decimal_digits(n)) == n,
    decreases n,
{
    if n >= 10 {
        decimal_digits_denote(n / 10);
        let d = decimal_digits(n);
        assert(d.drop_last() =~= decimal_digits(n / 10));
        assert(d[0] == decimal_digits(n / 10)[0]);
        assert(digit_char(n % 10) as int == 48 + n % 10);
        assert(digits_value(d) == 10 * (n / 10) + n % 10);
        assert(n == 10 * (n / 10) + n % 10);
    } else {
        assert(digits_value(Seq::<char>::empty()) == 0);
        assert(digit_char(n) as int == 48 + n);
        assert(decimal_digits(n).drop_last() =~= Seq::<char>::empty());
    }
}

/// The decimal text of every integer denotes it: a non-negative one is digits
/// whose value is the integer, a negative one is a minus sign followed by digits
/// whose value is its magnitude; the digits never start with a zero unless the
/// integer is zero.
pub proof fn decimal_text_denotes(v: int)
    ensures
        v >= 0 ==> {
            &&& forall|i: int|
                0 <= i < decimal_text(v).len() ==> '0' <= #[trigger] decimal_text(v)[i] <= '9'
            &&& decimal_text(v).len() >= 1
            &&& digits_value(decimal_text(v)) == v
            &&& (v > 0 ==> decimal_text(v)[0] != '0')
        },
        v < 0 ==> {
            &&& decimal_text(v).len() >= 2
            &&& decimal_text(v)[0] == '-'
            &&& forall|i: int|
                1 <= i < decimal_text(v).len() ==> '0' <= #[trigger] decimal_text(v)[i] <= '9'
            &&& digits_value(decimal_text(v).drop_first()) == -v
            &&& decimal_text(v)[1] != '0'
        },
{
    if v >= 0 {
        decimal_digits_denote(v as nat);
    } else {
        decimal_digits_denote((-v) as nat);
        let d = decimal_digits((-v) as nat);
        assert(decimal_text(v).drop_first() =~= d);
        assert forall|i: int| 1 <= i < decimal_text(v).len() implies '0' <= #[trigger] decimal_text(
            v,
        )[i] <= '9' by {
            assert(decimal_text(v)[i] == d[i - 1]);
        }
    }
}

} // verus!
