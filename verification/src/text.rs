//! Blank-string detection with Unicode whitespace semantics.

use vstd::prelude::*;
use vstd::std_specs::iter::IteratorSpec;

verus! {

/// The Unicode `White_Space` property (PropList.txt): the code points that
/// `char::is_whitespace` accepts.
pub open spec fn is_white_space(c: char) -> bool {
    let u = c as u32;
    ||| 0x09 <= u <= 0x0D
    ||| u == 0x20
    ||| u == 0x85
    ||| u == 0xA0
    ||| u == 0x1680
    ||| 0x2000 <= u <= 0x200A
    ||| u == 0x2028
    ||| u == 0x2029
    ||| u == 0x202F
    ||| u == 0x205F
    ||| u == 0x3000
}

/// A string is blank when nothing is left of it once leading and trailing
/// whitespace are trimmed, that is, when every character is whitespace.
pub open spec fn is_blank(s: Seq<char>) -> bool {
    forall|i: int| 0 <= i < s.len() ==> #[trigger] is_white_space(s[i])
}

/// Whether `c` is whitespace, as `char::is_whitespace` decides it.
pub fn is_whitespace_char(c: char) -> (r: bool)
    ensures
        r == is_white_space(c),
{
    let u = c as u32;
    (0x09 <= u && u <= 0x0D) || u == 0x20 || u == 0x85 || u == 0xA0 || u == 0x1680 || (0x2000
        <= u && u <= 0x200A) || u == 0x2028 || u == 0x2029 || u == 0x202F || u == 0x205F || u
        == 0x3000
}

/// Whether `s.trim()` is empty.
pub fn is_blank_str(s: &str) -> (r: bool)
    ensures
        r == is_blank(s@),
{
    broadcast use vstd::string::group_string_axioms;

    let mut chars = s.chars();
    let ghost whole = s@;
    let ghost mut seen: int = 0;
    loop
        invariant
            whole == s@,
            0 <= seen <= whole.len(),
            chars.remaining() == whole.skip(seen as int),
            chars.obeys_prophetic_iter_laws(),
            forall|i: int| 0 <= i < seen ==> #[trigger] is_white_space(whole[i]),
        decreases whole.len() - seen,
    {
        let ghost before = chars.remaining();
        let next = chars.next();
        match next {
            None => {
                assert(before.len() == 0);
                return true;
            },
            Some(c) => {
                assert(before.len() > 0);
                assert(c == whole[seen]);
                if !is_whitespace_char(c) {
                    return false;
                }
                assert(chars.remaining() =~= whole.skip(seen + 1));
                proof {
                    seen = seen + 1;
                }
            },
        }
    }
}

} // verus!
