use augustinus::motivation_anim::{BannerPulse, QuoteTypewriter, Ticker};

#[test]
fn banner_pulse_cycles() {
    let mut p = BannerPulse::new(1_000);
    let a0 = p.intensity_0_to_255();
    p.tick(250);
    let a1 = p.intensity_0_to_255();
    assert_ne!(a0, a1);
}

#[test]
fn typewriter_reveals_over_time() {
    let mut t = QuoteTypewriter::new(10);
    t.set_text("hello");
    assert_eq!(t.visible_len(), 0);
    t.tick(100);
    assert!(t.visible_len() > 0);
    t.tick(5_000);
    assert_eq!(t.visible_len(), 5);
}

#[test]
fn ticker_advances_offset() {
    let mut t = Ticker::new(10);
    t.set_text("abcdef");
    let o0 = t.offset_cols();
    t.tick(1_000);
    assert!(t.offset_cols() > o0);
}
