//! The fixed character classes that passwords are composed of, and the
//! constants that shape a generated password.
//!
//! Every class excludes visually confusable characters: `0`/`1` (close to
//! `O`/`l`/`I`), `l` (close to `I` and `1`), and `I`/`O` (close to `l`/`1`
//! and `0`).

use vstd::prelude::*;

verus! {

/// Shortest password the generator accepts.
pub const MIN_SIZE: usize = 8;

/// Length used when the caller asks for nothing in particular.
pub const DEFAULT_SIZE: usize = 18;

/// Length used for the "strong" preset.
pub const STRONG_SIZE: usize = 32;

/// Longest supported password.
pub const MAX_SIZE: usize = 104;

/// First special character: accepted by most password rules, present on most
/// keyboards, rarely needs escaping.
pub const SPEC1: char = '!';

/// Second special character, chosen by the same criteria as `SPEC1`.
pub const SPEC2: char = '@';

/// Block separator inserted into long passwords for readability.
pub const SPECSEP: char = '-';

/// Interior positions at an exact multiple of this distance carry the block
/// separator in long passwords.
pub const SPECSEP_BLOCKSIZE: usize = 8;

/// Passwords at least this long get block separators.
pub const SPECSEP_MINSIZE: usize = 24;

/// The digits allowed in a password: `2` through `9` (`0` and `1` excluded).
pub open spec fn is_number(c: char) -> bool {
    '2' as u32 <= c as u32 && c as u32 <= '9' as u32
}

/// The lowercase letters allowed in a password: `a` through `z` without `l`.
pub open spec fn is_lower(c: char) -> bool {
    'a' as u32 <= c as u32 && c as u32 <= 'z' as u32 && c != 'l'
}

/// The uppercase letters allowed in a password: `A` through `Z` without `I`
/// and `O`.
pub open spec fn is_upper(c: char) -> bool {
    'A' as u32 <= c as u32 && c as u32 <= 'Z' as u32 && c != 'I' && c != 'O'
}

/// The two special characters.
pub open spec fn is_special(c: char) -> bool {
    c == SPEC1 || c == SPEC2
}

/// The class interior password positions are drawn from: both letter cases,
/// the digits, and the two special characters.
pub open spec fn is_all_letter(c: char) -> bool {
    is_lower(c) || is_upper(c) || is_special(c) || is_number(c)
}

/// How many characters the `Uppers` class holds.
pub open spec fn uppers_class_size() -> int {
    24
}

/// How many characters the `AllLetters` class holds.
pub open spec fn all_letters_class_size() -> int {
    59
}

/// The uppercase characters, in class order.
pub const UPPERS: [char; 24] = [
    'A', 'B', 'C', 'D', 'E', 'F', 'G', 'H', 'J', 'K', 'L', 'M', 'N', 'P', 'Q', 'R', 'S', 'T', 'U',
    'V', 'W', 'X', 'Y', 'Z',
];

/// The interior-position characters: lowers, uppers, the special characters
/// and the digits, in class order.
pub const ALL_LETTERS: [char; 59] = [
    'a', 'b', 'c', 'd', 'e', 'f', 'g', 'h', 'i', 'j', 'k', 'm', 'n', 'o', 'p', 'q', 'r', 's', 't',
    'u', 'v', 'w', 'x', 'y', 'z', 'A', 'B', 'C', 'D', 'E', 'F', 'G', 'H', 'J', 'K', 'L', 'M', 'N',
    'P', 'Q', 'R', 'S', 'T', 'U', 'V', 'W', 'X', 'Y', 'Z', '!', '@', '2', '3', '4', '5', '6', '7',
    '8', '9',
];

/// Every entry of `UPPERS` belongs to the `Uppers` class, and the table is as
/// large as the class.
pub proof fn lemma_uppers_table()
    ensures
        UPPERS@.len() == uppers_class_size(),
        forall|i: int| 0 <= i < UPPERS@.len() ==> is_upper(#[trigger] UPPERS@[i]),
{
}

/// Every entry of `ALL_LETTERS` belongs to the `AllLetters` class, and the
/// table is as large as the class.
pub proof fn lemma_all_letters_table()
    ensures
        ALL_LETTERS@.len() == all_letters_class_size(),
        forall|i: int| 0 <= i < ALL_LETTERS@.len() ==> is_all_letter(#[trigger] ALL_LETTERS@[i]),
{
}

/// The separator stands apart: it is in none of the drawing classes.
pub proof fn lemma_separator_disjoint()
    ensures
        !is_all_letter(SPECSEP),
        !is_upper(SPECSEP),
{
}

} // verus!
