use augustinus::big_text::BigText;

#[test]
fn seven_has_its_exact_glyph() {
    let lines = BigText::new("7").lines();
    assert_eq!(lines[0], "### ");
    assert_eq!(lines[1], "  # ");
    assert_eq!(lines[4], "  # ");
}
