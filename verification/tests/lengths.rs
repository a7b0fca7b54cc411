use gpwg::chars::{DEFAULT_SIZE, MAX_SIZE, MIN_SIZE, STRONG_SIZE};
use gpwg::entropy::{entropy_to_pwlen, resolve_length, PW_ENTROPY};
use gpwg::synth::candidate_specsep_count;

#[test]
fn lookup_exact_values() {
    assert_eq!(entropy_to_pwlen(0), 8);
    assert_eq!(entropy_to_pwlen(41), 8);
    assert_eq!(entropy_to_pwlen(42), 9);
    assert_eq!(entropy_to_pwlen(100), 18);
    assert_eq!(entropy_to_pwlen(101), 18);
    assert_eq!(entropy_to_pwlen(102), 19);
    assert_eq!(entropy_to_pwlen(125), 24);
    assert_eq!(entropy_to_pwlen(126), 32);
    assert_eq!(entropy_to_pwlen(535), 104);
    assert_eq!(entropy_to_pwlen(536), 104);
}

// Inverse consistency over every in-range target: the tabulated entropy of
// the chosen length covers the target.
#[test]
fn lookup_never_undershoots() {
    for e in 0..=535usize {
        let len = entropy_to_pwlen(e);
        let ent = PW_ENTROPY.iter().find(|p| p[0] == len).unwrap()[1];
        assert!(ent >= e, "target {} got length {} worth only {}", e, len, ent);
    }
}

// The table itself is strictly increasing in both columns, so the forward
// estimate is monotone over tabulated lengths.
#[test]
fn table_monotonic() {
    for w in PW_ENTROPY.windows(2) {
        assert!(w[0][0] < w[1][0]);
        assert!(w[0][1] < w[1][1]);
    }
}

#[test]
fn resolve_defaults_and_presets() {
    assert_eq!(resolve_length(0, 0, false), DEFAULT_SIZE);
    assert_eq!(resolve_length(0, 0, true), STRONG_SIZE);
    assert_eq!(resolve_length(20, 0, false), 20);
    assert_eq!(resolve_length(20, 0, true), STRONG_SIZE);
    assert_eq!(resolve_length(40, 0, true), 40);
    assert_eq!(resolve_length(0, 160, false), 32);
    assert_eq!(resolve_length(12, 160, false), 32);
    assert_eq!(resolve_length(40, 100, false), 40);
}

#[test]
fn resolve_clamps_silently() {
    assert_eq!(resolve_length(3, 0, false), MIN_SIZE);
    assert_eq!(resolve_length(500, 0, false), MAX_SIZE);
    assert_eq!(resolve_length(0, 10000, false), MAX_SIZE);
}

#[test]
fn specsep_count_values() {
    assert_eq!(candidate_specsep_count(8), 0);
    assert_eq!(candidate_specsep_count(18), 0);
    assert_eq!(candidate_specsep_count(23), 0);
    assert_eq!(candidate_specsep_count(24), 2);
    assert_eq!(candidate_specsep_count(32), 3);
    assert_eq!(candidate_specsep_count(104), 12);
}
