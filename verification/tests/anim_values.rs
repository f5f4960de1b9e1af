use augustinus::motivation_anim::{BannerPulse, QuoteTypewriter, Ticker};

#[test]
fn banner_pulse_triangle_values() {
    let mut p = BannerPulse::new(1_000);
    assert_eq!(p.intensity_0_to_255(), 0);
    p.tick(250);
    assert_eq!(p.intensity_0_to_255(), 127);
    p.tick(250);
    assert_eq!(p.intensity_0_to_255(), 255);
    p.tick(250);
    assert_eq!(p.intensity_0_to_255(), 127);
}

#[test]
fn typewriter_shows_the_revealed_prefix() {
    let mut t = QuoteTypewriter::new(10);
    t.set_text("hello");
    t.tick(250);
    assert_eq!(t.visible_text(), "he");
    t.tick(10_000);
    assert_eq!(t.visible_text(), "hello");
}

#[test]
fn ticker_window_cycles_the_text() {
    let mut t = Ticker::new(1);
    t.set_text("abc");
    assert_eq!(t.window(5), "abcab");
    t.tick(1_000);
    assert_eq!(t.window(5), "bcabc");
}

#[test]
fn ticker_window_of_empty_text_is_blank() {
    let t = Ticker::new(1);
    assert_eq!(t.window(3), "   ");
}
