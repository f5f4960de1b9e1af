use augustinus::display::{center_crop, format_hms, tail_by_display_width};

#[test]
fn formats_seconds_as_hms() {
    assert_eq!(format_hms(0), "00:00:00");
    assert_eq!(format_hms(3_661), "01:01:01");
    assert_eq!(format_hms(7_200), "02:00:00");
    assert_eq!(format_hms(86_399), "23:59:59");
    assert_eq!(format_hms(360_000), "100:00:00");
}

#[test]
fn tail_keeps_the_suffix_that_fits() {
    assert_eq!(tail_by_display_width("hello", 3), "llo");
    assert_eq!(tail_by_display_width("hello", 10), "hello");
    assert_eq!(tail_by_display_width("hello", 0), "");
    // a wide character takes two columns
    assert_eq!(tail_by_display_width("ab語", 2), "語");
    assert_eq!(tail_by_display_width("ab語", 3), "b語");
}

#[test]
fn center_crop_takes_the_middle() {
    assert_eq!(center_crop("abcdef", 4), "bcde");
    assert_eq!(center_crop("abc", 10), "abc");
    assert_eq!(center_crop("abc", 0), "abc");
}
