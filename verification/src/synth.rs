//! The candidate synthesizer: one fixed-length trial password built from a
//! uniform random source.
//!
//! The first and last characters are drawn from `Uppers`; interior positions
//! are drawn from `AllLetters`, except that in long passwords every interior
//! position at an exact multiple of the block size carries the separator —
//! a deterministic placement rule, not a draw.

use vstd::prelude::*;

use rand::Rng;

use crate::chars::{
    is_all_letter, is_upper, lemma_all_letters_table, lemma_separator_disjoint,
    lemma_uppers_table, ALL_LETTERS, SPECSEP, SPECSEP_BLOCKSIZE, SPECSEP_MINSIZE, UPPERS,
};

verus! {

/// Relies on `rand::rngs::ThreadRng`: rand's thread-local generator,
/// declared so a handle to it can be threaded through the library; the
/// library sees nothing inside one.
#[verifier::external_type_specification]
#[verifier::external_body]
pub struct ExThreadRng(rand::rngs::ThreadRng);

/// Relies on `rand::Rng::gen_range` over `0..n`: the draw lies below `n`.
/// The call panics only on an empty range, which the precondition rules out.
#[verifier::external_body]
fn rand_below(rng: &mut rand::rngs::ThreadRng, n: usize) -> (r: usize)
    requires
        n >= 1,
    ensures
        r < n,
{
    rng.gen_range(0..n)
}

/// Position `i` of a password of length `len` is a deterministic separator
/// position: an interior position at an exact multiple of the block size, in
/// a password long enough for separators.
pub open spec fn is_sep_index(len: int, i: int) -> bool {
    len >= SPECSEP_MINSIZE && 1 <= i < len - 1 && i % (SPECSEP_BLOCKSIZE as int) == 0
}

/// What the synthesizer owes of every candidate it builds: the boundary
/// characters are uppercase, every separator position carries the separator,
/// and every other interior position holds an `AllLetters` character.
pub open spec fn candidate_well_formed(s: Seq<char>) -> bool {
    &&& s.len() >= 2
    &&& is_upper(s[0])
    &&& is_upper(s[s.len() - 1])
    &&& forall|i: int|
        #![trigger s[i]]
        1 <= i < s.len() - 1 ==> (if is_sep_index(s.len() as int, i) {
            s[i] == SPECSEP
        } else {
            is_all_letter(s[i])
        })
}

/// Draw one interior password character, uniformly from `AllLetters`.
pub fn gen_letter(rng: &mut rand::rngs::ThreadRng) -> (c: char)
    ensures
        is_all_letter(c),
{
    let i = rand_below(rng, 59);
    proof {
        lemma_all_letters_table();
    }
    ALL_LETTERS[i]
}

/// Draw one boundary password character, uniformly from `Uppers`.
pub fn gen_upper(rng: &mut rand::rngs::ThreadRng) -> (c: char)
    ensures
        is_upper(c),
{
    let i = rand_below(rng, 24);
    proof {
        lemma_uppers_table();
    }
    UPPERS[i]
}

/// Build one candidate password of the length the buffer already has,
/// replacing its contents.
pub fn gen_candidate(rng: &mut rand::rngs::ThreadRng, arr: &mut Vec<char>)
    requires
        old(arr).len() >= 2,
    ensures
        final(arr).len() == old(arr).len(),
        candidate_well_formed(final(arr)@),
{
    let len = arr.len();
    let mut out: Vec<char> = Vec::new();
    let first = gen_upper(rng);
    out.push(first);
    for i in 1..(len - 1)
        invariant
            2 <= len,
            out@.len() == i,
            is_upper(out@[0]),
            forall|j: int|
                #![trigger out@[j]]
                1 <= j < i ==> (if is_sep_index(len as int, j) {
                    out@[j] == SPECSEP
                } else {
                    is_all_letter(out@[j])
                }),
    {
        if len >= SPECSEP_MINSIZE && i % SPECSEP_BLOCKSIZE == 0 {
            out.push(SPECSEP);
        } else {
            let c = gen_letter(rng);
            out.push(c);
        }
    }
    let last = gen_upper(rng);
    out.push(last);
    *arr = out;
}

/// How many separator characters a candidate of length `len` carries: none
/// below the long-password threshold, one per started block among the
/// interior positions above it.
pub open spec fn sep_count_of_len(len: int) -> int {
    if len < SPECSEP_MINSIZE {
        0
    } else {
        (len - 2) / (SPECSEP_BLOCKSIZE as int)
    }
}

/// Count the deterministic separator positions of a password of length
/// `len`.
pub fn candidate_specsep_count(len: usize) -> (r: usize)
    ensures
        r == sep_count_of_len(len as int),
{
    let mut count: usize = 0;
    if len < SPECSEP_MINSIZE {
        return 0;
    }
    for i in 1..(len - 1)
        invariant
            SPECSEP_MINSIZE <= len,
            count == (i - 1) / (SPECSEP_BLOCKSIZE as int),
            count <= i,
    {
        if i % SPECSEP_BLOCKSIZE == 0 {
            count += 1;
        }
    }
    count
}

/// In a well-formed candidate the separator character appears at the
/// deterministic separator positions and nowhere else: boundary characters
/// are uppercase and other interior positions hold `AllLetters` characters,
/// classes the separator belongs to neither of.
pub proof fn lemma_sep_char_iff(s: Seq<char>)
    requires
        candidate_well_formed(s),
    ensures
        forall|i: int|
            0 <= i < s.len() ==> ((#[trigger] s[i] == SPECSEP) <==> is_sep_index(
                s.len() as int,
                i,
            )),
{
    lemma_separator_disjoint();
}

/// Determinism of structure: two well-formed candidates of the same length
/// place the separator at exactly the same positions, however their drawn
/// characters differ.
pub proof fn lemma_sep_positions_deterministic(s1: Seq<char>, s2: Seq<char>)
    requires
        candidate_well_formed(s1),
        candidate_well_formed(s2),
        s1.len() == s2.len(),
    ensures
        forall|i: int|
            0 <= i < s1.len() ==> ((#[trigger] s1[i] == SPECSEP) <==> (#[trigger] s2[i]
                == SPECSEP)),
{
    lemma_sep_char_iff(s1);
    lemma_sep_char_iff(s2);
}

/// How many separator characters a password holds.
pub open spec fn sep_char_count(s: Seq<char>) -> int
    decreases s.len(),
{
    if s.len() == 0 {
        0
    } else {
        sep_char_count(s.drop_last()) + if s.last() == SPECSEP {
            1int
        } else {
            0int
        }
    }
}

/// How many deterministic separator positions lie below position `k` in a
/// password of length `len`.
pub open spec fn sep_index_count(len: int, k: int) -> int
    decreases k,
{
    if k <= 0 {
        0
    } else {
        sep_index_count(len, k - 1) + if is_sep_index(len, k - 1) {
            1int
        } else {
            0int
        }
    }
}

proof fn lemma_sep_count_prefix(s: Seq<char>, k: int)
    requires
        candidate_well_formed(s),
        0 <= k <= s.len(),
    ensures
        sep_char_count(s.take(k)) == sep_index_count(s.len() as int, k),
    decreases k,
{
    if k > 0 {
        lemma_sep_count_prefix(s, k - 1);
        assert(s.take(k).drop_last() =~= s.take(k - 1));
        assert(s.take(k).last() == s[k - 1]);
        lemma_sep_char_iff(s);
    }
}

proof fn lemma_sep_index_count_none(len: int, k: int)
    requires
        len < SPECSEP_MINSIZE,
        0 <= k,
    ensures
        sep_index_count(len, k) == 0,
    decreases k,
{
    if k > 0 {
        lemma_sep_index_count_none(len, k - 1);
    }
}

proof fn lemma_sep_index_count_closed(len: int, k: int)
    requires
        len >= SPECSEP_MINSIZE,
        1 <= k <= len - 1,
    ensures
        sep_index_count(len, k) == (k - 1) / (SPECSEP_BLOCKSIZE as int),
    decreases k,
{
    if k > 1 {
        lemma_sep_index_count_closed(len, k - 1);
        assert(is_sep_index(len, k - 1) <==> (k - 1) % (SPECSEP_BLOCKSIZE as int) == 0);
    } else {
        assert(sep_index_count(len, 0) == 0);
        assert(!is_sep_index(len, 0));
    }
}

/// The number of separator characters in a well-formed candidate equals the
/// deterministic count that the block-placement rule predicts for its
/// length.
pub proof fn lemma_sep_char_count_matches(s: Seq<char>)
    requires
        candidate_well_formed(s),
    ensures
        sep_char_count(s) == sep_count_of_len(s.len() as int),
{
    let len = s.len() as int;
    assert(s.take(len) =~= s);
    lemma_sep_count_prefix(s, len);
    if len < SPECSEP_MINSIZE {
        lemma_sep_index_count_none(len, len);
    } else {
        lemma_sep_index_count_closed(len, len - 1);
        assert(!is_sep_index(len, len - 1));
    }
}

/// How many interior positions of a password of length `len` carry a random
/// draw rather than the deterministic separator. Each contributes the
/// per-character entropy of `AllLetters` to the structural estimate;
/// separator positions contribute none.
pub open spec fn letter_position_count(len: int) -> int {
    len - 2 - sep_count_of_len(len)
}

proof fn lemma_letter_positions_step(n: int)
    requires
        SPECSEP_MINSIZE <= n,
    ensures
        letter_position_count(n) <= letter_position_count(n + 1),
{
}

proof fn lemma_letter_positions_long(n1: int, n2: int)
    requires
        SPECSEP_MINSIZE <= n1 <= n2,
    ensures
        letter_position_count(n1) <= letter_position_count(n2),
    decreases n2 - n1,
{
    if n1 < n2 {
        lemma_letter_positions_long(n1, n2 - 1);
        lemma_letter_positions_step(n2 - 1);
    }
}

/// The count of random interior draws — and with it the structural entropy
/// estimate — is non-decreasing in length, except at the single step onto
/// the long-password threshold, where the freshly inserted separators
/// outnumber the one position gained.
pub proof fn lemma_letter_positions_monotonic(n1: int, n2: int)
    requires
        2 <= n1 <= n2,
        !(n1 == SPECSEP_MINSIZE - 1 && n2 == SPECSEP_MINSIZE),
    ensures
        letter_position_count(n1) <= letter_position_count(n2),
{
    if n2 < SPECSEP_MINSIZE {
        // both short: one more position is one more draw
    } else if n1 >= SPECSEP_MINSIZE {
        lemma_letter_positions_long(n1, n2);
    } else if n1 <= SPECSEP_MINSIZE - 2 {
        lemma_letter_positions_long(SPECSEP_MINSIZE as int, n2);
    } else {
        lemma_letter_positions_long(SPECSEP_MINSIZE as int + 1, n2);
    }
}

} // verus!
