//! Decimal rendering of bytes and the dotted four-part version string.
use vstd::prelude::*;

verus! {

/// The ASCII digit for `d` (0 to 9).
pub open spec fn digit_char(d: nat) -> char {
    if d == 0 { '0' }
    else if d == 1 { '1' }
    else if d == 2 { '2' }
    else if d == 3 { '3' }
    else if d == 4 { '4' }
    else if d == 5 { '5' }
    else if d == 6 { '6' }
    else if d == 7 { '7' }
    else if d == 8 { '8' }
    else { '9' }
}

/// `n` written in decimal, without leading zeros.
pub open spec fn decimal(n: nat) -> Seq<char>
    decreases n,
{
    if n < 10 {
        seq![digit_char(n)]
    } else {
        decimal(n / 10).push(digit_char(n % 10))
    }
}

/// `a.b.c.d`, each part in decimal.
pub open spec fn dotted(a: u8, b: u8, c: u8, d: u8) -> Seq<char> {
    decimal(a as nat) + seq!['.'] + decimal(b as nat) + seq!['.'] + decimal(c as nat) + seq!['.']
        + decimal(d as nat)
}

fn digit_str(d: u8) -> (r: &'static str)
    requires
        d < 10,
    ensures
        r@ == seq![digit_char(d as nat)],
{
    proof {
        reveal_strlit("0");
        reveal_strlit("1");
        reveal_strlit("2");
        reveal_strlit("3");
        reveal_strlit("4");
        reveal_strlit("5");
        reveal_strlit("6");
        reveal_strlit("7");
        reveal_strlit("8");
        reveal_strlit("9");
    }
    match d {
        0 => "0",
        1 => "1",
        2 => "2",
        3 => "3",
        4 => "4",
        5 => "5",
        6 => "6",
        7 => "7",
        8 => "8",
        _ => "9",
    }
}

/// Appends `n` in decimal to `out`.
fn push_decimal(out: &mut String, n: u8)
    ensures
        final(out)@ == old(out)@ + decimal(n as nat),
{
    let ghost start = out@;
    if n >= 100 {
        out.append(digit_str(n / 100));
        out.append(digit_str((n / 10) % 10));
        out.append(digit_str(n % 10));
        assert(decimal((n / 100) as nat) == seq![digit_char((n / 100) as nat)]);
        assert(decimal((n / 10) as nat) == decimal((n / 100) as nat).push(
            digit_char(((n / 10) % 10) as nat),
        ));
        assert(decimal(n as nat) == decimal((n / 10) as nat).push(digit_char((n % 10) as nat)));
    } else if n >= 10 {
        out.append(digit_str(n / 10));
        out.append(digit_str(n % 10));
        assert(decimal((n / 10) as nat) == seq![digit_char((n / 10) as nat)]);
        assert(decimal(n as nat) == decimal((n / 10) as nat).push(digit_char((n % 10) as nat)));
    } else {
        out.append(digit_str(n));
    }
    assert(out@ =~= start + decimal(n as nat));
}

/// `n` written in decimal, without leading zeros.
pub fn decimal_string(n: u8) -> (r: String)
    ensures
        r@ == decimal(n as nat),
{
    let mut s = String::new();
    push_decimal(&mut s, n);
    assert(s@ =~= decimal(n as nat));
    s
}

/// The version string `a.b.c.d`, each part in decimal.
pub fn dotted_version(a: u8, b: u8, c: u8, d: u8) -> (r: String)
    ensures
        r@ == dotted(a, b, c, d),
{
    proof {
        reveal_strlit(".");
    }
    let mut s = String::new();
    push_decimal(&mut s, a);
    s.append(".");
    push_decimal(&mut s, b);
    s.append(".");
    push_decimal(&mut s, c);
    s.append(".");
    push_decimal(&mut s, d);
    assert(s@ =~= dotted(a, b, c, d));
    s
}

} // verus!
