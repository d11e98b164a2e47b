use vstd::prelude::*;

verus! {

/// The decimal digit for `d`, with `0 <= d < 10`.
pub open spec fn digit_char(d: int) -> char {
    if d == 0 {
        '0'
    } else if d == 1 {
        '1'
    } else if d == 2 {
        '2'
    } else if d == 3 {
        '3'
    } else if d == 4 {
        '4'
    } else if d == 5 {
        '5'
    } else if d == 6 {
        '6'
    } else if d == 7 {
        '7'
    } else if d == 8 {
        '8'
    } else {
        '9'
    }
}

/// The decimal digits of `n`, without leading zeros.
pub open spec fn digits(n: nat) -> Seq<char>
    decreases n,
{
    if n < 10 {
        seq![digit_char(n as int)]
    } else {
        digits(n / 10) + seq![digit_char((n % 10) as int)]
    }
}

/// An integer in decimal, with a leading `-` when it is negative.
pub open spec fn int_text(i: int) -> Seq<char> {
    if i < 0 {
        seq!['-'] + digits((-i) as nat)
    } else {
        digits(i as nat)
    }
}

/// The fraction digits of `f` thousandths, `0 < f < 1000`, with trailing
/// zeros dropped.
pub open spec fn fraction_digits(f: int) -> Seq<char> {
    if f % 100 == 0 {
        seq![digit_char(f / 100)]
    } else if f % 10 == 0 {
        seq![digit_char(f / 100), digit_char((f / 10) % 10)]
    } else {
        seq![digit_char(f / 100), digit_char((f / 10) % 10), digit_char(f % 10)]
    }
}

/// `n` thousandths as a decimal number: the whole part, then, when the
/// fraction is not zero, a point and the fraction without trailing zeros
/// (`1250` reads `1.25`, `60000` reads `60`).
pub open spec fn milli_text(n: nat) -> Seq<char> {
    let f = (n % 1000) as int;
    if f == 0 {
        digits(n / 1000)
    } else {
        digits(n / 1000) + seq!['.'] + fraction_digits(f)
    }
}

fn digit_str(d: u64) -> (r: &'static str)
    requires
        d < 10,
    ensures
        r@ == seq![digit_char(d as int)],
{
    proof {
        reveal_strlit("0");
        reveal_strlit("1");
        reveal_strlit("2");
        reveal_strlit("3");
        reveal_strlit("4");
        reveal_strlit("5");
        reveal_strlit("6");
        reveal_strlit("7");
        reveal_strlit("8");
        reveal_strlit("9");
    }
    if d == 0 {
        "0"
    } else if d == 1 {
        "1"
    } else if d == 2 {
        "2"
    } else if d == 3 {
        "3"
    } else if d == 4 {
        "4"
    } else if d == 5 {
        "5"
    } else if d == 6 {
        "6"
    } else if d == 7 {
        "7"
    } else if d == 8 {
        "8"
    } else {
        "9"
    }
}

/// Appends the decimal digits of `n`.
pub fn push_digits(s: &mut String, n: u64)
    ensures
        final(s)@ == old(s)@ + digits(n as nat),
    decreases n,
{
    if n >= 10 {
        push_digits(s, n / 10);
        s.append(digit_str(n % 10));
        assert(final(s)@ =~= old(s)@ + digits(n as nat));
    } else {
        s.append(digit_str(n));
    }
}

/// Appends a signed integer in decimal.
pub fn push_int(s: &mut String, i: i64)
    ensures
        final(s)@ == old(s)@ + int_text(i as int),
{
    proof {
        reveal_strlit("-");
    }
    if i < 0 {
        s.append("-");
        let n: u64 = if i == i64::MIN {
            (i64::MAX as u64) + 1
        } else {
            (-i) as u64
        };
        push_digits(s, n);
        assert(final(s)@ =~= old(s)@ + int_text(i as int));
    } else {
        push_digits(s, i as u64);
    }
}

/// Appends `n` thousandths as a decimal number, as `milli_text` reads it.
pub fn push_milli(s: &mut String, n: u32)
    ensures
        final(s)@ == old(s)@ + milli_text(n as nat),
{
    proof {
        reveal_strlit(".");
    }
    push_digits(s, (n / 1000) as u64);
    let f: u32 = n % 1000;
    if f != 0 {
        s.append(".");
        s.append(digit_str((f / 100) as u64));
        if f % 100 != 0 {
            s.append(digit_str(((f / 10) % 10) as u64));
            if f % 10 != 0 {
                s.append(digit_str((f % 10) as u64));
            }
        }
    }
    assert(final(s)@ =~= old(s)@ + milli_text(n as nat));
}

} // verus!
