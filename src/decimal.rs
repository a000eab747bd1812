//! Decimal rendering of unsigned integers.
use vstd::prelude::*;

verus! {

/// The ASCII digit for `d`, for `d < 10`.
pub open spec fn digit_char(d: nat) -> char {
    if d == 0 {
        '0'
    } else if d == 1 {
        '1'
    } else if d == 2 {
        '2'
    } else if d == 3 {
        '3'
    } else if d == 4 {
        '4'
    } else if d == 5 {
        '5'
    } else if d == 6 {
        '6'
    } else if d == 7 {
        '7'
    } else if d == 8 {
        '8'
    } else {
        '9'
    }
}

/// The decimal digits of `n`, most significant first, without leading zeros.
pub open spec fn decimal(n: nat) -> Seq<char>
    decreases n,
{
    if n < 10 {
        seq![digit_char(n)]
    } else {
        decimal(n / 10).push(digit_char(n % 10))
    }
}

fn digit_str(d: u64) -> (r: &'static str)
    requires
        d < 10,
    ensures
        r@ == seq![digit_char(d as nat)],
{
    proof {
        reveal_strlit("0");
        reveal_strlit("1");
        reveal_strlit("2");
        reveal_strlit("3");
        reveal_strlit("4");
        reveal_strlit("5");
        reveal_strlit("6");
        reveal_strlit("7");
        reveal_strlit("8");
        reveal_strlit("9");
    }
    if d == 0 {
        "0"
    } else if d == 1 {
        "1"
    } else if d == 2 {
        "2"
    } else if d == 3 {
        "3"
    } else if d == 4 {
        "4"
    } else if d == 5 {
        "5"
    } else if d == 6 {
        "6"
    } else if d == 7 {
        "7"
    } else if d == 8 {
        "8"
    } else {
        "9"
    }
}

/// Appends the decimal rendering of `n` to `s`.
pub fn append_decimal(s: &mut String, n: u64)
    ensures
        final(s)@ == old(s)@ + decimal(n as nat),
    decreases n,
{
    if n >= 10 {
        append_decimal(s, n / 10);
    }
    s.append(digit_str(n % 10));
    proof {
        if n >= 10 {
            assert(decimal((n / 10) as nat) + seq![digit_char((n % 10) as nat)] =~= decimal(n as nat));
            assert(old(s)@ + decimal((n / 10) as nat) + seq![digit_char((n % 10) as nat)] =~= old(s)@
                + decimal(n as nat));
        } else {
            assert(seq![digit_char((n % 10) as nat)] =~= decimal(n as nat));
        }
    }
}

/// The decimal rendering of `n`.
pub fn to_decimal(n: u64) -> (r: String)
    ensures
        r@ == decimal(n as nat),
{
    let mut s = String::new();
    append_decimal(&mut s, n);
    assert(s@ =~= decimal(n as nat));
    s
}

/// A count for a reader: plain below a thousand, otherwise the whole
/// thousands (`K`) or millions (`M`) followed by the exact count in
/// parentheses, as in `12K (12345)`.
pub open spec fn nice_text(n: nat) -> Seq<char> {
    if n < 1_000 {
        decimal(n)
    } else if n < 1_000_000 {
        decimal(n / 1_000) + seq!['K', ' ', '('] + decimal(n) + seq![')']
    } else {
        decimal(n / 1_000_000) + seq!['M', ' ', '('] + decimal(n) + seq![')']
    }
}

/// Renders a count as `nice_text` says.
pub fn nice_number(input: usize) -> (r: String)
    ensures
        r@ == nice_text(input as nat),
{
    let n = input as u64;
    if n < 1_000 {
        return to_decimal(n);
    }
    let mut s = String::new();
    proof {
        reveal_strlit("K (");
        reveal_strlit("M (");
        reveal_strlit(")");
    }
    if n < 1_000_000 {
        append_decimal(&mut s, n / 1_000);
        s.append("K (");
    } else {
        append_decimal(&mut s, n / 1_000_000);
        s.append("M (");
    }
    append_decimal(&mut s, n);
    s.append(")");
    assert(s@ =~= nice_text(input as nat));
    s
}

} // verus!
