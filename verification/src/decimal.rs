//! Decimal rendering of object ids for error messages.

use vstd::prelude::*;
use vstd::string::StringExecFns;

verus! {

/// The character for a single decimal digit.
pub open spec fn digit_char(d: nat) -> char {
    if d == 0 {
        '0'
    } else if d == 1 {
        '1'
    } else if d == 2 {
        '2'
    } else if d == 3 {
        '3'
    } else if d == 4 {
        '4'
    } else if d == 5 {
        '5'
    } else if d == 6 {
        '6'
    } else if d == 7 {
        '7'
    } else if d == 8 {
        '8'
    } else {
        '9'
    }
}

/// The usual decimal rendering of a number: most significant digit first,
/// no leading zeros (a single `0` for zero).
pub open spec fn dec_digits(n: nat) -> Seq<char>
    decreases n,
{
    if n < 10 {
        seq![digit_char(n)]
    } else {
        dec_digits(n / 10) + seq![digit_char(n % 10)]
    }
}

fn append_digit(out: &mut String, d: u64)
    requires
        d < 10,
    ensures
        final(out)@ == old(out)@ + seq![digit_char(d as nat)],
{
    proof {
        reveal_strlit("0");
        reveal_strlit("1");
        reveal_strlit("2");
        reveal_strlit("3");
        reveal_strlit("4");
        reveal_strlit("5");
        reveal_strlit("6");
        reveal_strlit("7");
        reveal_strlit("8");
        reveal_strlit("9");
    }
    if d == 0 {
        out.append("0");
        assert(out@ =~= old(out)@ + seq![digit_char(d as nat)]);
    } else if d == 1 {
        out.append("1");
        assert(out@ =~= old(out)@ + seq![digit_char(d as nat)]);
    } else if d == 2 {
        out.append("2");
        assert(out@ =~= old(out)@ + seq![digit_char(d as nat)]);
    } else if d == 3 {
        out.append("3");
        assert(out@ =~= old(out)@ + seq![digit_char(d as nat)]);
    } else if d == 4 {
        out.append("4");
        assert(out@ =~= old(out)@ + seq![digit_char(d as nat)]);
    } else if d == 5 {
        out.append("5");
        assert(out@ =~= old(out)@ + seq![digit_char(d as nat)]);
    } else if d == 6 {
        out.append("6");
        assert(out@ =~= old(out)@ + seq![digit_char(d as nat)]);
    } else if d == 7 {
        out.append("7");
        assert(out@ =~= old(out)@ + seq![digit_char(d as nat)]);
    } else if d == 8 {
        out.append("8");
        assert(out@ =~= old(out)@ + seq![digit_char(d as nat)]);
    } else {
        out.append("9");
        assert(out@ =~= old(out)@ + seq![digit_char(d as nat)]);
    }
}

/// Append the decimal rendering of `n` to `out`.
pub fn append_u64_decimal(out: &mut String, n: u64)
    ensures
        final(out)@ == old(out)@ + dec_digits(n as nat),
    decreases n,
{
    if n >= 10 {
        append_u64_decimal(out, n / 10);
        append_digit(out, n % 10);
        assert(out@ =~= old(out)@ + dec_digits(n as nat)) by {
            assert((n / 10) as nat == (n as nat) / 10);
            assert((n % 10) as nat == (n as nat) % 10);
        }
    } else {
        append_digit(out, n);
    }
}

/// The decimal rendering of `n` as a fresh string.
pub fn u64_to_decimal(n: u64) -> (r: String)
    ensures
        r@ == dec_digits(n as nat),
{
    let mut out = String::new();
    append_u64_decimal(&mut out, n);
    assert(out@ =~= dec_digits(n as nat));
    out
}

} // verus!
