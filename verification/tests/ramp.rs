use frascii::ramp::{glyph_for_step, RAMP};

#[test]
fn the_ramp_is_ascii_and_ordered_lightest_first() {
    assert!(
        RAMP.iter().all(|c| c.is_ascii_graphic() || *c == ' '),
        "a non-ASCII glyph risks a double-width cell"
    );
    assert_eq!(RAMP[0], ' ');
    assert_eq!(RAMP[RAMP.len() - 1], '@');
    assert!(RAMP.len() >= 8, "too few steps to read as a gradient");
}

#[test]
fn every_step_maps_to_a_glyph_and_past_the_end_is_solid() {
    for step in 0..RAMP.len() {
        assert_eq!(glyph_for_step(step), RAMP[step]);
    }
    assert_eq!(glyph_for_step(0), ' ');
    assert_eq!(glyph_for_step(RAMP.len()), '@');
    assert_eq!(glyph_for_step(usize::MAX), '@');
}
