//! The structural checks a candidate must pass before it is scored.
//!
//! Five independent predicates scan a candidate: three demand class
//! diversity (a digit, a lowercase letter, a special character), two forbid
//! noisy runs (a case-insensitive adjacent repeat, and the two special
//! characters side by side).

use vstd::prelude::*;

use crate::chars::{is_lower, is_number, SPEC1, SPEC2, SPECSEP};

verus! {

/// Some character of the password is a digit.
pub open spec fn has_num_spec(s: Seq<char>) -> bool {
    exists|i: int| 0 <= i < s.len() && is_number(s[i])
}

/// Some character of the password is a lowercase letter of the `Lowers`
/// class.
pub open spec fn has_lower_spec(s: Seq<char>) -> bool {
    exists|i: int| 0 <= i < s.len() && is_lower(s[i])
}

/// Some character of the password is a special character or the block
/// separator.
pub open spec fn has_spec_spec(s: Seq<char>) -> bool {
    exists|i: int| 0 <= i < s.len() && (s[i] == SPEC1 || s[i] == SPEC2 || s[i] == SPECSEP)
}

/// What `char::to_lowercase` yields for one character, as a sequence of
/// characters (the Unicode lowercase mapping can span several).
pub uninterp spec fn lower_char(c: char) -> Seq<char>;

/// Relies on `char::to_lowercase` (via its `Display`): the lowercase mapping
/// of a character, which depends on the character alone.
#[verifier::external_body]
fn to_lowercase(c: char) -> (r: String)
    ensures
        r@ == lower_char(c),
{
    c.to_lowercase().to_string()
}

/// Two characters are equal under case-insensitive comparison.
pub open spec fn eq_case_insensitive(a: char, b: char) -> bool {
    lower_char(a) == lower_char(b)
}

/// Two adjacent characters of the password are equal under case-insensitive
/// comparison.
pub open spec fn has_repeat_spec(s: Seq<char>) -> bool {
    exists|i: int| 1 <= i < s.len() && #[trigger] eq_case_insensitive(s[i], s[i - 1])
}

/// Two adjacent characters of the password are the two distinct special
/// characters, in either order.
pub open spec fn has_morse_spec(s: Seq<char>) -> bool {
    exists|i: int|
        #![trigger s[i]]
        1 <= i < s.len() && ((s[i] == SPEC1 && s[i - 1] == SPEC2) || (s[i] == SPEC2 && s[i - 1]
            == SPEC1))
}

/// All five structural checks come out as acceptance requires: the three
/// diversity checks hold and the two adjacency checks fail.
pub open spec fn structural_ok(s: Seq<char>) -> bool {
    has_num_spec(s) && has_lower_spec(s) && has_spec_spec(s) && !has_repeat_spec(s)
        && !has_morse_spec(s)
}

/// Check whether the password contains a digit.
pub fn has_num(pw: &[char]) -> (r: bool)
    ensures
        r == has_num_spec(pw@),
{
    let n = pw.len();
    for i in 0..n
        invariant
            n == pw@.len(),
            forall|j: int| 0 <= j < i ==> !is_number(pw@[j]),
    {
        let c = pw[i] as u32;
        if '2' as u32 <= c && c <= '9' as u32 {
            return true;
        }
    }
    false
}

/// Check whether the password contains a lowercase letter.
pub fn has_lower(pw: &[char]) -> (r: bool)
    ensures
        r == has_lower_spec(pw@),
{
    let n = pw.len();
    for i in 0..n
        invariant
            n == pw@.len(),
            forall|j: int| 0 <= j < i ==> !is_lower(pw@[j]),
    {
        let c = pw[i];
        let u = c as u32;
        if 'a' as u32 <= u && u <= 'z' as u32 && c != 'l' {
            return true;
        }
    }
    false
}

/// Check whether the password contains a special character or the block
/// separator.
pub fn has_spec(pw: &[char]) -> (r: bool)
    ensures
        r == has_spec_spec(pw@),
{
    let n = pw.len();
    for i in 0..n
        invariant
            n == pw@.len(),
            forall|j: int|
                0 <= j < i ==> !(pw@[j] == SPEC1 || pw@[j] == SPEC2 || pw@[j] == SPECSEP),
    {
        let c = pw[i];
        if c == SPEC1 || c == SPEC2 || c == SPECSEP {
            return true;
        }
    }
    false
}

/// Check whether the password has a case-insensitive adjacent repetition.
pub fn has_repeat(pw: &[char]) -> (r: bool)
    ensures
        r == has_repeat_spec(pw@),
{
    let n = pw.len();
    if n == 0 {
        return false;
    }
    for i in 1..n
        invariant
            n == pw@.len(),
            forall|j: int| 1 <= j < i ==> !(#[trigger] eq_case_insensitive(pw@[j], pw@[j - 1])),
    {
        let a = to_lowercase(pw[i]);
        let b = to_lowercase(pw[i - 1]);
        if a == b {
            assert(eq_case_insensitive(pw@[i as int], pw@[i as int - 1]));
            return true;
        }
    }
    false
}

/// Check whether the password has the two special characters side by side.
pub fn has_morse(pw: &[char]) -> (r: bool)
    ensures
        r == has_morse_spec(pw@),
{
    let n = pw.len();
    if n == 0 {
        return false;
    }
    for i in 1..n
        invariant
            n == pw@.len(),
            forall|j: int|
                #![trigger pw@[j]]
                1 <= j < i ==> !((pw@[j] == SPEC1 && pw@[j - 1] == SPEC2) || (pw@[j] == SPEC2
                    && pw@[j - 1] == SPEC1)),
    {
        let c = pw[i];
        let p = pw[i - 1];
        if (c == SPEC1 && p == SPEC2) || (c == SPEC2 && p == SPEC1) {
            return true;
        }
    }
    false
}

} // verus!
