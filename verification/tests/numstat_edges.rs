use augustinus::LocDelta;

#[test]
fn accepts_plus_signs_and_skips_bad_lines() {
    let delta = LocDelta::parse_git_numstat("3\t4\tx\n-\t-\tb.png\n+5\t+6\ty");
    assert_eq!(delta.added, 8);
    assert_eq!(delta.removed, 10);
}

#[test]
fn empty_input_counts_nothing() {
    let delta = LocDelta::parse_git_numstat("");
    assert_eq!(delta.added, 0);
    assert_eq!(delta.removed, 0);
}

#[test]
fn handles_crlf_line_endings() {
    let delta = LocDelta::parse_git_numstat("1\t2\ta\r\n3\t4\tb\r\n");
    assert_eq!(delta.added, 4);
    assert_eq!(delta.removed, 6);
}

#[test]
fn overflowing_fields_are_skipped() {
    let delta = LocDelta::parse_git_numstat("99999999999999999999999\t1\ta\n2\t3\tb");
    assert_eq!(delta.added, 2);
    assert_eq!(delta.removed, 3);
}
