//! Candidate names: a prefix, the decimal numeral of a timestamp, a suffix.

use vstd::prelude::*;

verus! {

/// The character that writes the digit `d`, for `d` below ten.
pub open spec fn digit(d: nat) -> char {
    if d == 0 {
        '0'
    } else if d == 1 {
        '1'
    } else if d == 2 {
        '2'
    } else if d == 3 {
        '3'
    } else if d == 4 {
        '4'
    } else if d == 5 {
        '5'
    } else if d == 6 {
        '6'
    } else if d == 7 {
        '7'
    } else if d == 8 {
        '8'
    } else {
        '9'
    }
}

/// The decimal numeral of `n`: most significant digit first, no leading zero,
/// and the single digit `0` for zero.
pub open spec fn decimal(n: nat) -> Seq<char>
    decreases n,
{
    if n < 10 {
        seq![digit(n)]
    } else {
        decimal(n / 10).push(digit(n % 10))
    }
}

/// The one-character text of a digit.
fn digit_text(d: u8) -> (text: &'static str)
    requires
        d < 10,
    ensures
        text@ == seq![digit(d as nat)],
{
    proof {
        reveal_strlit("0");
        reveal_strlit("1");
        reveal_strlit("2");
        reveal_strlit("3");
        reveal_strlit("4");
        reveal_strlit("5");
        reveal_strlit("6");
        reveal_strlit("7");
        reveal_strlit("8");
        reveal_strlit("9");
    }
    match d {
        0 => "0",
        1 => "1",
        2 => "2",
        3 => "3",
        4 => "4",
        5 => "5",
        6 => "6",
        7 => "7",
        8 => "8",
        _ => "9",
    }
}

/// Appends the decimal numeral of `n` to `out`.
pub fn push_decimal(out: &mut String, n: u128)
    ensures
        final(out)@ == old(out)@ + decimal(n as nat),
    decreases n,
{
    if n >= 10 {
        push_decimal(out, n / 10);
    }
    out.append(digit_text((n % 10) as u8));
}

/// The candidate name for a timestamp: the prefix, the numeral of the
/// timestamp, the suffix, in this order and with nothing between them.
pub open spec fn name_text(prefix: Seq<char>, micros: nat, suffix: Seq<char>) -> Seq<char> {
    prefix + decimal(micros) + suffix
}

/// Builds the candidate name for the timestamp `micros`.
pub fn candidate_name(prefix: &str, micros: u128, suffix: &str) -> (name: String)
    ensures
        name@ == name_text(prefix@, micros as nat, suffix@),
{
    let mut name = String::from_str(prefix);
    push_decimal(&mut name, micros);
    name.append(suffix);
    name
}

/// The digit that `c` writes, and zero for a character that writes none.
pub open spec fn digit_value(c: char) -> nat {
    if c == '1' {
        1
    } else if c == '2' {
        2
    } else if c == '3' {
        3
    } else if c == '4' {
        4
    } else if c == '5' {
        5
    } else if c == '6' {
        6
    } else if c == '7' {
        7
    } else if c == '8' {
        8
    } else if c == '9' {
        9
    } else {
        0
    }
}

/// Whether `c` is one of the ten digits.
pub open spec fn is_digit(c: char) -> bool {
    digit(digit_value(c)) == c
}

/// The number that a numeral denotes, read digit by digit from the left.
pub open spec fn numeral_value(text: Seq<char>) -> nat
    decreases text.len(),
{
    if text.len() == 0 {
        0
    } else {
        numeral_value(text.drop_last()) * 10 + digit_value(text.last())
    }
}

/// A numeral is never empty, holds digits only, and starts with `0` only
/// when it is the numeral of zero.
pub proof fn decimal_is_numeral(n: nat)
    ensures
        decimal(n).len() >= 1,
        forall|i: int| 0 <= i < decimal(n).len() ==> is_digit(#[trigger] decimal(n)[i]),
        decimal(n)[0] == '0' <==> n == 0,
    decreases n,
{
    if n >= 10 {
        decimal_is_numeral(n / 10);
    }
}

/// Reading the numeral of `n` gives `n` back.
pub proof fn decimal_reads_back(n: nat)
    ensures
        numeral_value(decimal(n)) == n,
    decreases n,
{
    let text = decimal(n);
    if n < 10 {
        assert(text.drop_last() =~= Seq::<char>::empty());
        assert(numeral_value(text.drop_last()) == 0);
    } else {
        decimal_reads_back(n / 10);
        assert(text.drop_last() =~= decimal(n / 10));
    }
}

/// Two numbers with the same numeral are the same number.
pub proof fn decimal_injective(a: nat, b: nat)
    requires
        decimal(a) == decimal(b),
    ensures
        a == b,
{
    decimal_reads_back(a);
    decimal_reads_back(b);
}

/// With the prefix and the suffix fixed, the candidate name determines the
/// timestamp: two timestamps that differ never share a name.
pub proof fn name_injective(prefix: Seq<char>, suffix: Seq<char>, a: nat, b: nat)
    requires
        name_text(prefix, a, suffix) == name_text(prefix, b, suffix),
    ensures
        a == b,
{
    let left = name_text(prefix, a, suffix);
    let right = name_text(prefix, b, suffix);
    assert(decimal(a).len() == decimal(b).len()) by {
        assert(left.len() == prefix.len() + decimal(a).len() + suffix.len());
        assert(right.len() == prefix.len() + decimal(b).len() + suffix.len());
    }
    assert forall|i: int| 0 <= i < decimal(a).len() implies decimal(a)[i] == decimal(b)[i] by {
        assert(left[prefix.len() + i] == decimal(a)[i]);
        assert(right[prefix.len() + i] == decimal(b)[i]);
    }
    assert(decimal(a) =~= decimal(b));
    decimal_injective(a, b);
}

/// A candidate name begins with the first character of the prefix, and with
/// a digit where the prefix is empty.
pub proof fn name_first_char(prefix: Seq<char>, micros: nat, suffix: Seq<char>)
    ensures
        name_text(prefix, micros, suffix).len() >= 1,
        prefix.len() > 0 ==> name_text(prefix, micros, suffix)[0] == prefix[0],
        prefix.len() == 0 ==> is_digit(name_text(prefix, micros, suffix)[0]),
{
    decimal_is_numeral(micros);
    if prefix.len() == 0 {
        assert(name_text(prefix, micros, suffix)[0] == decimal(micros)[0]);
    }
}

} // verus!
