use vstd::prelude::*;

verus! {

/// The text that `Debug` writes for a string slice: the string between double
/// quotes, with quotes, backslashes and characters that do not print escaped.
pub uninterp spec fn debug_quoted(s: Seq<char>) -> Seq<char>;

/// Formats `s` with `<str as Debug>::fmt`.
///
/// Trusted: the result is `debug_quoted` of the string's characters; what
/// that text is, character by character, is left to std's escaping rules and is
/// not stated here.
#[verifier::external_body]
pub(crate) fn str_debug(s: &str) -> (r: String)
    ensures
        r@ == debug_quoted(s@),
{
    format!("{:?}", s)
}

/// The decimal digit character for `d`, which is below ten.
pub open spec fn digit_char(d: nat) -> char {
    (48 + d) as char
}

/// The decimal representation of `n`, most significant digit first, without
/// leading zeros (zero is the single digit `0`).
pub open spec fn decimal(n: nat) -> Seq<char>
    decreases n,
{
    if n < 10 {
        seq![digit_char(n)]
    } else {
        decimal(n / 10).push(digit_char(n % 10))
    }
}

/// The decimal representation of a `u64`.
pub open spec fn decimal_u64(n: u64) -> Seq<char> {
    decimal(n as nat)
}

/// The text that a tuple struct of one field writes for `Debug`: the type's
/// name, then the field's own text between round brackets.
pub open spec fn tuple_debug(name: Seq<char>, field: Seq<char>) -> Seq<char> {
    name + seq!['('] + field + seq![')']
}

fn digit_str(d: u64) -> (r: &'static str)
    requires
        d < 10,
    ensures
        r@ == seq![digit_char(d as nat)],
{
    proof {
        reveal_strlit("0");
        reveal_strlit("1");
        reveal_strlit("2");
        reveal_strlit("3");
        reveal_strlit("4");
        reveal_strlit("5");
        reveal_strlit("6");
        reveal_strlit("7");
        reveal_strlit("8");
        reveal_strlit("9");
    }
    if d == 0 {
        "0"
    } else if d == 1 {
        "1"
    } else if d == 2 {
        "2"
    } else if d == 3 {
        "3"
    } else if d == 4 {
        "4"
    } else if d == 5 {
        "5"
    } else if d == 6 {
        "6"
    } else if d == 7 {
        "7"
    } else if d == 8 {
        "8"
    } else {
        "9"
    }
}

/// Appends the decimal representation of `n` to `out`.
pub fn push_decimal(out: &mut String, n: u64)
    ensures
        final(out)@ == old(out)@ + decimal(n as nat),
    decreases n,
{
    if n >= 10 {
        push_decimal(out, n / 10);
    }
    out.append(digit_str(n % 10));
    proof {
        if n < 10 {
            assert(old(out)@ + decimal(n as nat) =~= old(out)@ + seq![digit_char(n as nat)]);
        } else {
            assert(decimal(n as nat) == decimal((n / 10) as nat).push(digit_char((n % 10) as nat)));
            assert(final(out)@ =~= old(out)@ + decimal(n as nat));
        }
    }
}

/// Writes `name(field)`, the `Debug` text of a tuple struct whose one field
/// writes `field`.
pub fn write_tuple_debug(name: &str, field: &str) -> (r: String)
    ensures
        r@ == tuple_debug(name@, field@),
{
    proof {
        reveal_strlit("(");
        reveal_strlit(")");
    }
    let mut out = String::from_str(name);
    out.append("(");
    out.append(field);
    out.append(")");
    assert(out@ =~= tuple_debug(name@, field@));
    out
}

} // verus!
