use cache_detector::answer::is_affirmative;

#[test]
fn letter_y_says_yes() {
    assert!(is_affirmative("y"));
    assert!(is_affirmative("Y"));
    assert!(is_affirmative("y\n"));
    assert!(is_affirmative("Y\r\n"));
    assert!(is_affirmative("  y  "));
    assert!(is_affirmative("\t y\t\n"));
    assert!(is_affirmative("\u{3000}y\u{a0}"));
}

#[test]
fn anything_else_says_no() {
    assert!(!is_affirmative(""));
    assert!(!is_affirmative("\n"));
    assert!(!is_affirmative("   "));
    assert!(!is_affirmative("n"));
    assert!(!is_affirmative("N\n"));
    assert!(!is_affirmative("yes"));
    assert!(!is_affirmative("yy"));
    assert!(!is_affirmative("y y"));
    assert!(!is_affirmative("y."));
    assert!(!is_affirmative("\u{ff59}"));
    assert!(!is_affirmative("\u{200b}y"));
}

#[test]
fn answer_agrees_with_trimming_by_the_standard_library() {
    let mut code: u32 = 0;
    while code <= 0x10ffff {
        if let Some(c) = char::from_u32(code) {
            let before = format!("{}y", c);
            let after = format!("Y{}", c);
            let around = format!("{}y{}", c, c);
            assert_eq!(is_affirmative(&before), before.trim().eq_ignore_ascii_case("y"));
            assert_eq!(is_affirmative(&after), after.trim().eq_ignore_ascii_case("y"));
            assert_eq!(is_affirmative(&around), around.trim().eq_ignore_ascii_case("y"));
            assert_eq!(is_affirmative(&before), c.is_whitespace());
        }
        code += 1;
    }
}
