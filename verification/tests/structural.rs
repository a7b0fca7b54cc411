use gpwg::checks::{has_lower, has_morse, has_num, has_repeat, has_spec};

#[test]
fn test_has_num_no() {
    let s: [char; 3] = ['a', 'X', '@'];
    assert_eq!(has_num(&s), false);
}

#[test]
fn test_has_num_yes() {
    let nums: [char; 8] = ['2', '3', '4', '5', '6', '7', '8', '9'];
    for n in nums {
        let s: [char; 3] = ['a', n, '@'];
        assert!(has_num(&s));
    }
}

#[test]
fn test_has_lower_no() {
    let s: [char; 4] = ['A', 'X', '@', '4'];
    assert_eq!(has_lower(&s), false);
}

#[test]
fn test_has_lower_yes() {
    let s: [char; 5] = ['A', 'X', '@', '4', 'b'];
    assert!(has_lower(&s));
}

#[test]
fn test_has_spec_no() {
    let s: [char; 4] = ['A', 'X', 'a', '4'];
    assert_eq!(has_spec(&s), false);
}

#[test]
fn test_has_spec_at() {
    let s: [char; 5] = ['A', 'X', 'a', '4', '@'];
    assert!(has_spec(&s));
}

#[test]
fn test_has_spec_bang() {
    let s: [char; 5] = ['A', '!', 'a', '4', 'X'];
    assert!(has_spec(&s));
}

#[test]
fn test_has_spec_sep() {
    let s: [char; 5] = ['A', 'X', 'a', '4', '-'];
    assert!(has_spec(&s));
}

#[test]
fn test_has_repeat_empty() {
    let s: [char; 0] = [];
    assert_eq!(has_repeat(&s), false);
}

#[test]
fn test_has_repeat_single() {
    let s: [char; 1] = ['x'];
    assert_eq!(has_repeat(&s), false);
}

#[test]
fn test_has_repeat_no() {
    let s: [char; 2] = ['x', 'y'];
    assert_eq!(has_repeat(&s), false);
}

#[test]
fn test_has_repeat_no3() {
    let s: [char; 3] = ['x', 'y', 'x'];
    assert_eq!(has_repeat(&s), false);
}

#[test]
fn test_has_repeat_yes() {
    let s: [char; 2] = ['y', 'y'];
    assert!(has_repeat(&s));
}

#[test]
fn test_has_repeat_yes3() {
    let s: [char; 3] = ['!', '@', '@'];
    assert!(has_repeat(&s));
}

// The repeat check compares case-insensitively: the same letter in two
// cases counts as a repetition.
#[test]
fn test_has_repeat_across_cases() {
    let s: [char; 2] = ['a', 'A'];
    assert!(has_repeat(&s));
    let t: [char; 3] = ['x', 'Y', 'y'];
    assert!(has_repeat(&t));
    let u: [char; 2] = ['a', 'B'];
    assert_eq!(has_repeat(&u), false);
}

#[test]
fn test_has_morse_empty() {
    let s: [char; 0] = [];
    assert_eq!(has_morse(&s), false);
}

#[test]
fn test_has_morse_no() {
    let s: [char; 4] = ['a', '@', 'b', '!'];
    assert_eq!(has_morse(&s), false);
}

#[test]
fn test_has_morse_yes() {
    let s: [char; 4] = ['a', 'b', '@', '!'];
    assert!(has_morse(&s));
    let s: [char; 4] = ['a', '!', '@', 'b'];
    assert!(has_morse(&s));
}
