//! Decimal rendering of the integers that appear in SSDP messages.

use vstd::prelude::*;

verus! {

/// The decimal digit character for a value below ten.
pub open spec fn digit_char(d: int) -> char
    recommends
        0 <= d < 10,
{
    if d == 0 {
        '0'
    } else if d == 1 {
        '1'
    } else if d == 2 {
        '2'
    } else if d == 3 {
        '3'
    } else if d == 4 {
        '4'
    } else if d == 5 {
        '5'
    } else if d == 6 {
        '6'
    } else if d == 7 {
        '7'
    } else if d == 8 {
        '8'
    } else {
        '9'
    }
}

/// The decimal digits of `n`, most significant first, with no leading
/// zero except for `n == 0` itself.
pub open spec fn dec_chars(n: nat) -> Seq<char>
    decreases n,
{
    if n < 10 {
        seq![digit_char(n as int)]
    } else {
        dec_chars(n / 10).push(digit_char((n % 10) as int))
    }
}

/// Exactly two decimal digits, zero-padded, for a value below 100.
pub open spec fn two_digit_chars(n: int) -> Seq<char>
    recommends
        0 <= n < 100,
{
    seq![digit_char(n / 10), digit_char(n % 10)]
}

/// Exactly four decimal digits, zero-padded, for a value below 10000.
pub open spec fn four_digit_chars(n: int) -> Seq<char>
    recommends
        0 <= n < 10000,
{
    two_digit_chars(n / 100) + two_digit_chars(n % 100)
}

fn digit_str(d: u8) -> (r: &'static str)
    requires
        d < 10,
    ensures
        r@ == seq![digit_char(d as int)],
{
    proof {
        reveal_strlit("0");
        reveal_strlit("1");
        reveal_strlit("2");
        reveal_strlit("3");
        reveal_strlit("4");
        reveal_strlit("5");
        reveal_strlit("6");
        reveal_strlit("7");
        reveal_strlit("8");
        reveal_strlit("9");
    }
    let r = match d {
        0 => "0",
        1 => "1",
        2 => "2",
        3 => "3",
        4 => "4",
        5 => "5",
        6 => "6",
        7 => "7",
        8 => "8",
        _ => "9",
    };
    proof {
        assert(r@ =~= seq![digit_char(d as int)]);
    }
    r
}

/// Appends the decimal digits of `n` to `out`.
pub fn append_decimal(out: &mut String, n: u64)
    ensures
        final(out)@ == old(out)@ + dec_chars(n as nat),
    decreases n,
{
    if n < 10 {
        out.append(digit_str(n as u8));
    } else {
        append_decimal(out, n / 10);
        out.append(digit_str((n % 10) as u8));
        proof {
            assert(old(out)@ + dec_chars((n / 10) as nat) + seq![
                digit_char((n % 10) as int),
            ] =~= old(out)@ + dec_chars(n as nat));
        }
    }
}

/// Appends exactly two digits, zero-padded, to `out`.
pub fn append_two_digits(out: &mut String, n: u8)
    requires
        n < 100,
    ensures
        final(out)@ == old(out)@ + two_digit_chars(n as int),
{
    out.append(digit_str(n / 10));
    out.append(digit_str(n % 10));
    proof {
        assert(old(out)@ + seq![digit_char(n as int / 10)] + seq![
            digit_char(n as int % 10),
        ] =~= old(out)@ + two_digit_chars(n as int));
    }
}

/// Appends exactly four digits, zero-padded, to `out`.
pub fn append_four_digits(out: &mut String, n: u16)
    requires
        n < 10000,
    ensures
        final(out)@ == old(out)@ + four_digit_chars(n as int),
{
    append_two_digits(out, (n / 100) as u8);
    append_two_digits(out, (n % 100) as u8);
    proof {
        assert(old(out)@ + two_digit_chars(n as int / 100) + two_digit_chars(n as int % 100)
            =~= old(out)@ + four_digit_chars(n as int));
    }
}

} // verus!
