use vstd::prelude::*;

verus! {

/// The decimal digit character for `d`.
pub open spec fn dec_digit(d: int) -> char
    recommends
        0 <= d <= 9,
{
    ((48 + d) as u8) as char
}

/// The decimal rendering of `n`, most significant digit first, with no
/// leading zeros (the rendering of 0 is "0").
pub open spec fn dec_digits(n: int) -> Seq<char>
    recommends
        0 <= n,
    decreases n,
{
    if n <= 9 {
        seq![dec_digit(n)]
    } else {
        dec_digits(n / 10) + seq![dec_digit(n % 10)]
    }
}

/// Relies on String::push, which vstd leaves unspecified: appends one
/// character to the string.
#[verifier::external_body]
pub(crate) fn string_push(s: &mut String, c: char)
    ensures
        final(s)@ == old(s)@ + seq![c],
{
    s.push(c);
}

/// Appends the decimal rendering of `n` to `s`.
pub(crate) fn push_u16_decimal(s: &mut String, n: u16)
    ensures
        final(s)@ == old(s)@ + dec_digits(n as int),
    decreases n,
{
    if n >= 10 {
        push_u16_decimal(s, n / 10);
        string_push(s, (48 + (n % 10) as u8) as char);
        assert(s@ =~= old(s)@ + dec_digits(n as int));
    } else {
        string_push(s, (48 + n as u8) as char);
        assert(s@ =~= old(s)@ + dec_digits(n as int));
    }
}

} // verus!
