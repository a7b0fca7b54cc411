//! The entropy/length table and the resolution of a requested password
//! length.
//!
//! The table maps each supported password length to the whole number of bits
//! of structural entropy a password of that length carries. It drives the
//! inverse lookup (target entropy to generation length) and the resolution
//! of command-line wishes (explicit length or entropy beats the "strong"
//! preset, which beats the default).

use vstd::prelude::*;

use crate::chars::{DEFAULT_SIZE, MAX_SIZE, MIN_SIZE, STRONG_SIZE};

verus! {

/// Map of password length to estimated entropy in bits: 25 entries of
/// `[length, entropy]`, both strictly increasing.
pub const PW_ENTROPY: [[usize; 2]; 25] = [
    [8, 41],
    [9, 47],
    [10, 53],
    [11, 59],
    [12, 65],
    [13, 71],
    [14, 77],
    [15, 83],
    [16, 89],
    [17, 95],
    [18, 101],
    [19, 107],
    [20, 113],
    [21, 119],
    [24, 125],
    [32, 166],
    [40, 207],
    [48, 248],
    [56, 289],
    [64, 330],
    [72, 371],
    [80, 412],
    [88, 453],
    [96, 494],
    [104, 535],
];

/// A length that has an entry in the entropy table.
pub open spec fn is_tabulated(l: int) -> bool {
    l == 8 || l == 9 || l == 10 || l == 11 || l == 12 || l == 13 || l == 14 || l == 15 || l == 16
        || l == 17 || l == 18 || l == 19 || l == 20 || l == 21 || l == 24 || l == 32 || l == 40
        || l == 48 || l == 56 || l == 64 || l == 72 || l == 80 || l == 88 || l == 96 || l == 104
}

/// The forward tabulated estimate: the entropy in bits that the table lists
/// for a tabulated length.
pub open spec fn entropy_for_len(l: int) -> int
    recommends
        is_tabulated(l),
{
    if l <= 8 {
        41
    } else if l <= 9 {
        47
    } else if l <= 10 {
        53
    } else if l <= 11 {
        59
    } else if l <= 12 {
        65
    } else if l <= 13 {
        71
    } else if l <= 14 {
        77
    } else if l <= 15 {
        83
    } else if l <= 16 {
        89
    } else if l <= 17 {
        95
    } else if l <= 18 {
        101
    } else if l <= 19 {
        107
    } else if l <= 20 {
        113
    } else if l <= 21 {
        119
    } else if l <= 24 {
        125
    } else if l <= 32 {
        166
    } else if l <= 40 {
        207
    } else if l <= 48 {
        248
    } else if l <= 56 {
        289
    } else if l <= 64 {
        330
    } else if l <= 72 {
        371
    } else if l <= 80 {
        412
    } else if l <= 88 {
        453
    } else if l <= 96 {
        494
    } else {
        535
    }
}

/// The inverse lookup: the smallest tabulated length whose tabulated entropy
/// reaches `e` bits; targets above the largest tabulated entropy map to the
/// largest tabulated length.
pub open spec fn len_for_entropy(e: int) -> int {
    if e <= 41 {
        8
    } else if e <= 47 {
        9
    } else if e <= 53 {
        10
    } else if e <= 59 {
        11
    } else if e <= 65 {
        12
    } else if e <= 71 {
        13
    } else if e <= 77 {
        14
    } else if e <= 83 {
        15
    } else if e <= 89 {
        16
    } else if e <= 95 {
        17
    } else if e <= 101 {
        18
    } else if e <= 107 {
        19
    } else if e <= 113 {
        20
    } else if e <= 119 {
        21
    } else if e <= 125 {
        24
    } else if e <= 166 {
        32
    } else if e <= 207 {
        40
    } else if e <= 248 {
        48
    } else if e <= 289 {
        56
    } else if e <= 330 {
        64
    } else if e <= 371 {
        72
    } else if e <= 412 {
        80
    } else if e <= 453 {
        88
    } else if e <= 494 {
        96
    } else {
        104
    }
}

/// Look up the smallest tabulated length whose entropy reaches the target.
pub fn entropy_to_pwlen(entropy: usize) -> (r: usize)
    ensures
        r == len_for_entropy(entropy as int),
{
    if entropy <= PW_ENTROPY[0][1] {
        PW_ENTROPY[0][0]
    } else {
        for i in 0..24
            invariant
                41 < entropy,
                forall|j: int| 0 <= j <= i ==> entropy > PW_ENTROPY@[j]@[1],
        {
            if entropy > PW_ENTROPY[i][1] && entropy <= PW_ENTROPY[i + 1][1] {
                return PW_ENTROPY[i + 1][0];
            }
        }
        PW_ENTROPY[24][0]
    }
}

/// A target entropy that lands exactly on a tabulated breakpoint maps back
/// to that entry's own length, never the next one: the lookup brackets with
/// "at most", not strictly.
pub proof fn lemma_breakpoint_roundtrip(l: int)
    requires
        is_tabulated(l),
    ensures
        len_for_entropy(entropy_for_len(l)) == l,
{
}

/// The forward estimate never undershoots the inverse lookup: a length
/// chosen for a target entropy carries at least that many bits. This fails
/// only above the largest tabulated entropy, where the lookup saturates at
/// the largest tabulated length.
pub proof fn lemma_inverse_consistency(e: int)
    requires
        e <= 535,
    ensures
        entropy_for_len(len_for_entropy(e)) >= e,
{
}

/// The inverse lookup always lands on a tabulated length.
pub proof fn lemma_lookup_tabulated(e: int)
    ensures
        is_tabulated(len_for_entropy(e)),
{
}

/// The forward tabulated estimate is monotone: of two tabulated lengths, the
/// longer never carries fewer bits.
pub proof fn lemma_forward_entropy_monotonic(l1: int, l2: int)
    requires
        is_tabulated(l1),
        is_tabulated(l2),
        l1 <= l2,
    ensures
        entropy_for_len(l1) <= entropy_for_len(l2),
{
}

/// How a requested length comes out of the wishes the caller states: `length`
/// and `entropy` are targets (0 when unset), `strong` asks for the strong
/// preset. The largest of the stated wishes wins; with none stated the
/// default applies; the outcome is clamped into the supported range.
pub open spec fn resolve_length_spec(length: int, entropy: int, strong: bool) -> int {
    let with_entropy = if entropy > 0 && len_for_entropy(entropy) > length {
        len_for_entropy(entropy)
    } else {
        length
    };
    let with_strong = if strong && with_entropy < STRONG_SIZE {
        STRONG_SIZE as int
    } else {
        with_entropy
    };
    let with_default = if with_strong == 0 {
        DEFAULT_SIZE as int
    } else {
        with_strong
    };
    if with_default < MIN_SIZE {
        MIN_SIZE as int
    } else if with_default > MAX_SIZE {
        MAX_SIZE as int
    } else {
        with_default
    }
}

/// Resolve the requested password length from the caller's wishes. A
/// `length` or `entropy` of 0 means the caller stated no such wish; an
/// unparsable command-line value is treated the same way, never rejected.
pub fn resolve_length(length: usize, entropy: usize, strong: bool) -> (r: usize)
    ensures
        r == resolve_length_spec(length as int, entropy as int, strong),
        MIN_SIZE <= r <= MAX_SIZE,
{
    let mut desired: usize = length;
    if entropy > 0 {
        let from_entropy = entropy_to_pwlen(entropy);
        if from_entropy > desired {
            desired = from_entropy;
        }
    }
    if strong && desired < STRONG_SIZE {
        desired = STRONG_SIZE;
    }
    if desired == 0 {
        desired = DEFAULT_SIZE;
    }
    if desired < MIN_SIZE {
        desired = MIN_SIZE;
    } else if desired > MAX_SIZE {
        desired = MAX_SIZE;
    }
    desired
}

} // verus!
