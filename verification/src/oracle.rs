//! The strength-oracle interface and the acceptance policies.
//!
//! The oracle is a third-party scoring function: it classifies a password
//! with a score from 0 to 4 and reports the list of patterns (dictionary
//! words, keyboard walks, repeats, ...) that its guess calculation was based
//! on. Its answer is not a function of the password characters alone — the
//! scoring of date-like digit runs reads the current year from the system
//! clock, and exact ties between candidate decompositions are broken in
//! hash-map iteration order — so the library states only what holds of
//! every answer, and interprets whatever came back through one verified
//! policy function.

use vstd::prelude::*;

verus! {

/// How acceptance interprets the oracle's answer. Both policies are
/// legitimate design points and the caller picks one.
#[derive(Clone, Copy, PartialEq, Eq, Structural, Debug)]
pub enum Policy {
    /// Accept when the oracle's score reaches the given minimum.
    Threshold(u8),
    /// Accept only when the oracle's pattern list has at most one entry:
    /// the only structure it found is an unstructured brute-force run; any
    /// further recognized pattern, such as a dictionary hit, disqualifies.
    SinglePattern,
}

/// The errors generation can end in.
#[derive(Clone, Copy, PartialEq, Eq, Structural, Debug)]
pub enum GenError {
    /// The requested length is below the smallest viable password length,
    /// so no candidate could ever pass the structural checks: detected
    /// before the generation loop, which would otherwise never end.
    LengthTooShort,
    /// The policy demands a score the oracle never awards, so no candidate
    /// could ever be accepted: detected before the generation loop.
    UnsatisfiablePolicy,
    /// The strength oracle could not score a well-formed candidate: a fatal
    /// configuration error, never retried.
    OracleFailure,
    /// The attempt counter reached its ceiling without an accepted
    /// candidate. With a viable configuration this many rejections is not
    /// reachable in practice; the bound only keeps the loop finite.
    Exhausted,
}

/// The largest score the oracle ever awards.
pub const MAX_SCORE: u8 = 4;

/// A policy some password can satisfy: a score threshold within the range
/// the oracle awards, or the single-pattern rule, which a pure brute-force
/// string meets.
pub open spec fn policy_satisfiable(p: Policy) -> bool {
    match p {
        Policy::Threshold(min) => min <= MAX_SCORE,
        Policy::SinglePattern => true,
    }
}

/// Decide whether any oracle answer could ever satisfy the policy.
pub fn policy_viable(p: &Policy) -> (r: bool)
    ensures
        r == policy_satisfiable(*p),
{
    match p {
        Policy::Threshold(min) => *min <= MAX_SCORE,
        Policy::SinglePattern => true,
    }
}

/// Relies on `zxcvbn::zxcvbn`, called with no user inputs. Of every answer:
/// the score stays within 0 to 4, and a non-empty password always yields at
/// least one matched pattern. Nothing more is claimed — two calls on the
/// same characters can answer differently. The call returns an error on an
/// empty password or when the system clock cannot be read at all. Two
/// abort paths inside the callee remain: a wall clock that steps backwards
/// between the callee's two clock readings panics a duration subtraction
/// in every build, and in a build with overflow checks a candidate whose
/// decomposition accumulates enough matches overflows a factorial the
/// callee computes. Neither can be ruled out by a precondition — the
/// clock step does not depend on the input at all — nor caught here, so
/// callers inherit both.
#[verifier::external_body]
pub(crate) fn consult_oracle(pw: &Vec<char>) -> (r: Option<(u8, usize)>)
    ensures
        r matches Some(v) ==> v.0 <= MAX_SCORE && v.1 >= 1,
        pw@.len() == 0 ==> r is None,
{
    let s: String = pw.iter().collect();
    match zxcvbn::zxcvbn(&s, &[]) {
        Ok(e) => Some((e.score(), e.sequence().len())),
        Err(_) => None,
    }
}

/// What it means for an oracle answer to satisfy a policy.
pub open spec fn policy_accepts_spec(p: Policy, score: int, patterns: int) -> bool {
    match p {
        Policy::Threshold(min) => score >= min,
        Policy::SinglePattern => patterns <= 1,
    }
}

/// Decide whether an oracle answer satisfies the policy.
pub fn policy_accepts(p: &Policy, score: u8, patterns: usize) -> (r: bool)
    ensures
        r == policy_accepts_spec(*p, score as int, patterns as int),
{
    match p {
        Policy::Threshold(min) => score >= *min,
        Policy::SinglePattern => patterns <= 1,
    }
}

} // verus!
