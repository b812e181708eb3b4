//! Small verified text helpers shared by the report builders: decimal
//! rendering of unsigned integers, fixed four-space indentation units, and
//! a width-two padded form used for aligned id columns.
use vstd::prelude::*;
use vstd::string::StringExecFns;

verus! {

/// The decimal digit character for a single digit value.
pub open spec fn spec_digit(d: nat) -> char {
    if d == 0 {
        '0'
    } else if d == 1 {
        '1'
    } else if d == 2 {
        '2'
    } else if d == 3 {
        '3'
    } else if d == 4 {
        '4'
    } else if d == 5 {
        '5'
    } else if d == 6 {
        '6'
    } else if d == 7 {
        '7'
    } else if d == 8 {
        '8'
    } else {
        '9'
    }
}

/// The usual decimal rendering of `n`, most significant digit first,
/// without leading zeroes (except for `n == 0` itself).
pub open spec fn spec_digits(n: nat) -> Seq<char>
    decreases n,
{
    if n < 10 {
        seq![spec_digit(n)]
    } else {
        spec_digits(n / 10) + seq![spec_digit(n % 10)]
    }
}

fn digit_str(d: u128) -> (r: &'static str)
    requires
        d < 10,
    ensures
        r@ == seq![spec_digit(d as nat)],
{
    proof {
        reveal_strlit("0");
        reveal_strlit("1");
        reveal_strlit("2");
        reveal_strlit("3");
        reveal_strlit("4");
        reveal_strlit("5");
        reveal_strlit("6");
        reveal_strlit("7");
        reveal_strlit("8");
        reveal_strlit("9");
    }
    if d == 0 {
        "0"
    } else if d == 1 {
        "1"
    } else if d == 2 {
        "2"
    } else if d == 3 {
        "3"
    } else if d == 4 {
        "4"
    } else if d == 5 {
        "5"
    } else if d == 6 {
        "6"
    } else if d == 7 {
        "7"
    } else if d == 8 {
        "8"
    } else {
        "9"
    }
}

/// Decimal rendering of a `u128`.
pub fn u128_string(n: u128) -> (r: String)
    ensures
        r@ == spec_digits(n as nat),
    decreases n,
{
    if n < 10 {
        digit_str(n).to_owned()
    } else {
        let mut s = u128_string(n / 10);
        s.append(digit_str(n % 10));
        assert(s@ =~= spec_digits(n as nat));
        s
    }
}

/// Decimal rendering of a `usize`.
pub fn usize_string(n: usize) -> (r: String)
    ensures
        r@ == spec_digits(n as nat),
{
    u128_string(n as u128)
}

/// Decimal rendering of a `u64`.
pub fn u64_string(n: u64) -> (r: String)
    ensures
        r@ == spec_digits(n as nat),
{
    u128_string(n as u128)
}

/// Decimal rendering of `n` padded on the left with a space to at least
/// two characters, the way a width-two numeric column is laid out.
pub open spec fn spec_pad2(n: nat) -> Seq<char> {
    if n < 10 {
        seq![' '] + spec_digits(n)
    } else {
        spec_digits(n)
    }
}

/// Width-two column rendering of a `u32`.
pub fn u32_pad2_string(n: u32) -> (r: String)
    ensures
        r@ == spec_pad2(n as nat),
{
    if n < 10 {
        proof {
            reveal_strlit(" ");
        }
        let mut s = " ".to_owned();
        let d = u128_string(n as u128);
        s.append(d.as_str());
        assert(s@ =~= spec_pad2(n as nat));
        s
    } else {
        u128_string(n as u128)
    }
}

/// `n` repetitions of the four-space indentation unit.
pub open spec fn spec_indent(n: nat) -> Seq<char>
    decreases n,
{
    if n == 0 {
        Seq::empty()
    } else {
        spec_indent((n - 1) as nat) + "    "@
    }
}

/// Builds the indentation prefix for nesting depth `n`.
pub fn indent_string(n: usize) -> (r: String)
    ensures
        r@ == spec_indent(n as nat),
{
    let mut s = String::new();
    let mut i: usize = 0;
    while i < n
        invariant
            i <= n,
            s@ == spec_indent(i as nat),
        decreases n - i,
    {
        s.append("    ");
        i = i + 1;
    }
    s
}

} // verus!
