//! The acceptance filter and the top-level generation loop.
//!
//! Generation is rejection sampling: the synthesizer drafts a candidate,
//! the filter judges it, and the loop redraws until one is accepted. The
//! loop carries no bound worth speaking of on its iteration count — it ends
//! only with probability approaching 1 as attempts grow — so nothing can
//! promise acceptance; what is promised is that an accepted candidate
//! passed every structural check and that the policy accepted the oracle
//! answer handed back with it.

use vstd::prelude::*;

use crate::chars::MIN_SIZE;
use crate::checks::{has_lower, has_morse, has_num, has_repeat, has_spec, structural_ok};
use crate::oracle::{
    consult_oracle, policy_accepts, policy_accepts_spec, policy_satisfiable, policy_viable,
    GenError, Policy, MAX_SCORE,
};
use crate::synth::{candidate_well_formed, gen_candidate};

verus! {

/// What the acceptance filter found for one candidate. The oracle's answer
/// is handed back with the decision, since the answer is not a function of
/// the candidate alone: the contracts speak of the returned values.
#[derive(Clone, Copy, PartialEq, Eq, Structural, Debug)]
pub enum Verdict {
    /// A structural check failed; the oracle was never consulted.
    StructuralFail,
    /// The oracle answered with this score and pattern count, and the
    /// policy turned the candidate away.
    Rejected(u8, usize),
    /// The oracle answered with this score and pattern count, and the
    /// policy accepted the candidate.
    Accepted(u8, usize),
}

/// Judge one candidate. The structural checks short-circuit: the oracle is
/// consulted only when all five pass, so a structurally deficient candidate
/// is always answered `StructuralFail`. An oracle that cannot score a
/// structurally sound candidate is a fatal configuration error.
pub fn gate_accepts(pw: &Vec<char>, policy: &Policy) -> (r: Result<Verdict, GenError>)
    ensures
        !structural_ok(pw@) <==> r == Ok::<Verdict, GenError>(Verdict::StructuralFail),
        r matches Ok(Verdict::Accepted(score, patterns)) ==> score <= MAX_SCORE && patterns >= 1
            && policy_accepts_spec(*policy, score as int, patterns as int),
        r matches Ok(Verdict::Rejected(score, patterns)) ==> score <= MAX_SCORE && patterns >= 1
            && !policy_accepts_spec(*policy, score as int, patterns as int),
        r matches Err(e) ==> e == GenError::OracleFailure && structural_ok(pw@),
{
    let s = pw.as_slice();
    if !has_num(s) {
        return Ok(Verdict::StructuralFail);
    }
    if !has_spec(s) {
        return Ok(Verdict::StructuralFail);
    }
    if !has_lower(s) {
        return Ok(Verdict::StructuralFail);
    }
    if has_repeat(s) {
        return Ok(Verdict::StructuralFail);
    }
    if has_morse(s) {
        return Ok(Verdict::StructuralFail);
    }
    match consult_oracle(pw) {
        None => Err(GenError::OracleFailure),
        Some((score, patterns)) => {
            if policy_accepts(policy, score, patterns) {
                Ok(Verdict::Accepted(score, patterns))
            } else {
                Ok(Verdict::Rejected(score, patterns))
            }
        },
    }
}

/// A generation success: how many candidates were drawn (the accepted one
/// included), and the oracle answer under which the last was accepted. From
/// the count a caller can derive the realized-entropy estimate — the
/// structural estimate minus the log2 of the count, an approximation that
/// charges rejection sampling for the information it leaks, not a proven
/// bound.
#[derive(Clone, Copy, PartialEq, Eq, Structural, Debug)]
pub struct Accepted {
    /// Candidates drawn until one was accepted, that one included.
    pub count: usize,
    /// The oracle's strength score for the accepted candidate.
    pub score: u8,
    /// How many patterns the oracle based its guess calculation on.
    pub patterns: usize,
}

/// Generate one password of the length the buffer already has, replacing
/// its contents. Two pathological configurations are detected analytically
/// and refused before the loop: a length below the minimum floor, which
/// could never pass the structural checks, and a policy no score can
/// satisfy.
pub fn pwgen(rng: &mut rand::rngs::ThreadRng, chars: &mut Vec<char>, policy: &Policy) -> (r:
    Result<Accepted, GenError>)
    ensures
        final(chars).len() == old(chars).len(),
        old(chars).len() < MIN_SIZE <==> r == Err::<Accepted, GenError>(GenError::LengthTooShort),
        (old(chars).len() >= MIN_SIZE && !policy_satisfiable(*policy)) <==> r == Err::<
            Accepted,
            GenError,
        >(GenError::UnsatisfiablePolicy),
        r == Err::<Accepted, GenError>(GenError::OracleFailure) ==> structural_ok(final(chars)@),
        r matches Ok(a) ==> {
            &&& 1 <= a.count
            &&& a.score <= MAX_SCORE
            &&& 1 <= a.patterns
            &&& candidate_well_formed(final(chars)@)
            &&& structural_ok(final(chars)@)
            &&& policy_accepts_spec(*policy, a.score as int, a.patterns as int)
        },
{
    let pwlen = chars.len();
    if pwlen < MIN_SIZE {
        return Err(GenError::LengthTooShort);
    }
    if !policy_viable(policy) {
        return Err(GenError::UnsatisfiablePolicy);
    }
    let mut candidate_count: usize = 0;
    while candidate_count < usize::MAX
        invariant
            chars@.len() == old(chars)@.len(),
            MIN_SIZE <= old(chars)@.len(),
            policy_satisfiable(*policy),
        decreases usize::MAX - candidate_count,
    {
        gen_candidate(rng, chars);
        candidate_count = candidate_count + 1;
        match gate_accepts(chars, policy) {
            Err(e) => return Err(e),
            Ok(Verdict::Accepted(score, patterns)) => {
                return Ok(Accepted { count: candidate_count, score, patterns });
            },
            Ok(Verdict::Rejected(_, _)) => {},
            Ok(Verdict::StructuralFail) => {},
        }
    }
    Err(GenError::Exhausted)
}

} // verus!
