use vstd::prelude::*;

verus! {

/// Whether `c` has the Unicode `White_Space` property, the class of characters
/// that `char::is_whitespace` accepts and that `str::trim` strips.
pub open spec fn is_white_space(c: char) -> bool {
    let n = c as u32;
    ||| 0x09 <= n <= 0x0D
    ||| n == 0x20
    ||| n == 0x85
    ||| n == 0xA0
    ||| n == 0x1680
    ||| 0x2000 <= n <= 0x200A
    ||| n == 0x2028
    ||| n == 0x2029
    ||| n == 0x202F
    ||| n == 0x205F
    ||| n == 0x3000
}

/// A string is blank when every character of it is whitespace; the empty string
/// is blank.
pub open spec fn is_blank(s: Seq<char>) -> bool {
    forall|i: int| 0 <= i < s.len() ==> is_white_space(#[trigger] s[i])
}

/// Whether `c` is a whitespace character.
pub fn char_is_white_space(c: char) -> (r: bool)
    ensures
        r == is_white_space(c),
{
    let n: u32 = c as u32;
    (0x09 <= n && n <= 0x0D) || n == 0x20 || n == 0x85 || n == 0xA0 || n == 0x1680 || (0x2000
        <= n && n <= 0x200A) || n == 0x2028 || n == 0x2029 || n == 0x202F || n == 0x205F || n
        == 0x3000
}

/// Whether `s` is empty or holds only whitespace, that is, whether trimming it
/// leaves nothing.
pub fn str_is_blank(s: &str) -> (r: bool)
    ensures
        r == is_blank(s@),
{
    broadcast use vstd::string::group_string_axioms;

    let mut all: bool = true;
    for c in it: s.chars()
        invariant
            it.seq() == s@,
            all <==> (forall|j: int| 0 <= j < it.index() ==> is_white_space(#[trigger] it.seq()[j])),
    {
        if !char_is_white_space(c) {
            all = false;
        }
    }
    all
}

} // verus!
