//! Glyph density: how much ink a sample gets.

use vstd::prelude::*;

verus! {

/// The density ramp, lightest first, as a value.
pub open spec fn ramp() -> Seq<char> {
    seq![' ', '.', ':', '-', '=', '+', '*', '#', '%', '@']
}

/// The density ramp, lightest first.
///
/// ASCII only: a non-ASCII glyph risks a double-width cell, which shifts every
/// following column.
pub const RAMP: [char; 10] = [' ', '.', ':', '-', '=', '+', '*', '#', '%', '@'];

/// The glyph for a density step: step `0` is the lightest glyph, and any step
/// past the end of the ramp is its heaviest.
///
/// A frontend turns a continuous ink coverage into a step by scaling it by the
/// ramp's length; the clamp here is what keeps a coverage of exactly full ink
/// from running off the end.
pub fn glyph_for_step(step: usize) -> (glyph: char)
    ensures
        glyph == ramp()[if step < 10 { step as int } else { 9 }],
{
    let index = if step < 10 { step } else { 9 };
    let glyphs = RAMP;
    assert(glyphs@ =~= ramp());
    glyphs[index]
}

/// Every step maps to a glyph of the ramp, and a heavier step never maps to a
/// lighter glyph.
pub proof fn lemma_steps_stay_on_the_ramp(a: int, b: int)
    requires
        0 <= a <= b,
    ensures
        0 <= (if a < 10 { a } else { 9 }) <= (if b < 10 { b } else { 9 }) < ramp().len(),
{
}

} // verus!
