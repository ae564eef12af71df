//! Numbers as text, for the messages of the errors.

use vstd::prelude::*;
use vstd::string::StringExecFns;

verus! {

/// The character for one digit, in any base up to 16; letters are lower
/// case.
pub open spec fn spec_digit(d: nat) -> char {
    seq!['0', '1', '2', '3', '4', '5', '6', '7', '8', '9', 'a', 'b', 'c', 'd', 'e', 'f'][d as int]
}

/// `n` in decimal, most significant digit first, without leading zeros;
/// zero is one digit.
pub open spec fn spec_decimal(n: nat) -> Seq<char>
    decreases n,
{
    if n < 10 {
        seq![spec_digit(n)]
    } else {
        spec_decimal(n / 10).push(spec_digit(n % 10))
    }
}

/// `n` in lower-case hexadecimal, most significant digit first, without
/// leading zeros; zero is one digit.
pub open spec fn spec_hex(n: nat) -> Seq<char>
    decreases n,
{
    if n < 16 {
        seq![spec_digit(n)]
    } else {
        spec_hex(n / 16).push(spec_digit(n % 16))
    }
}

/// `n` in lower-case hexadecimal, with a leading zero where it would
/// otherwise be a single digit.
pub open spec fn spec_hex_two_wide(n: nat) -> Seq<char> {
    if n < 16 {
        seq!['0'] + spec_hex(n)
    } else {
        spec_hex(n)
    }
}

/// The text of one digit.
fn digit_text(d: u32) -> (text: &'static str)
    requires
        d < 16,
    ensures
        text@ == seq![spec_digit(d as nat)],
{
    proof {
        reveal_strlit("0");
        reveal_strlit("1");
        reveal_strlit("2");
        reveal_strlit("3");
        reveal_strlit("4");
        reveal_strlit("5");
        reveal_strlit("6");
        reveal_strlit("7");
        reveal_strlit("8");
        reveal_strlit("9");
        reveal_strlit("a");
        reveal_strlit("b");
        reveal_strlit("c");
        reveal_strlit("d");
        reveal_strlit("e");
        reveal_strlit("f");
    }
    let text = match d {
        0 => "0",
        1 => "1",
        2 => "2",
        3 => "3",
        4 => "4",
        5 => "5",
        6 => "6",
        7 => "7",
        8 => "8",
        9 => "9",
        10 => "a",
        11 => "b",
        12 => "c",
        13 => "d",
        14 => "e",
        _ => "f",
    };
    assert(text@ =~= seq![spec_digit(d as nat)]);
    text
}

/// Appends `n` in decimal to `out`.
pub fn append_decimal(out: &mut String, n: u32)
    ensures
        final(out)@ == old(out)@ + spec_decimal(n as nat),
    decreases n,
{
    if n >= 10 {
        append_decimal(out, n / 10);
    }
    out.append(digit_text(n % 10));
    assert(out@ =~= old(out)@ + spec_decimal(n as nat));
}

/// Appends `n` in lower-case hexadecimal to `out`.
pub fn append_hex(out: &mut String, n: u16)
    ensures
        final(out)@ == old(out)@ + spec_hex(n as nat),
    decreases n,
{
    if n >= 16 {
        append_hex(out, n / 16);
    }
    out.append(digit_text((n % 16) as u32));
    assert(out@ =~= old(out)@ + spec_hex(n as nat));
}

/// Appends `n` in lower-case hexadecimal to `out`, at least two digits
/// wide.
pub fn append_hex_two_wide(out: &mut String, n: u16)
    ensures
        final(out)@ == old(out)@ + spec_hex_two_wide(n as nat),
{
    if n < 16 {
        out.append(digit_text(0));
    }
    append_hex(out, n);
    assert(out@ =~= old(out)@ + spec_hex_two_wide(n as nat));
}

} // verus!
