//! Colour: the named cyclic gradients.
//!
//! Definitions are colour *lists*, never baked tables: a hand-written 512-entry
//! table cannot be reviewed, and a seam in one is invisible in a diff. Baking a
//! list into a lookup table is interpolation in a perceptual colour space, done
//! once per palette by the frontend.

use vstd::prelude::*;

use crate::render::Rgb;
use crate::text::same_text;

verus! {

/// How many palettes there are.
pub open spec fn palette_count() -> nat {
    9
}

/// The name of the palette at `index`, for `index < palette_count()`.
pub open spec fn palette_name(index: int) -> Seq<char> {
    if index == 0 {
        "classic"@
    } else if index == 1 {
        "spectrum"@
    } else if index == 2 {
        "fire"@
    } else if index == 3 {
        "pastel"@
    } else if index == 4 {
        "monokai"@
    } else if index == 5 {
        "dracula"@
    } else if index == 6 {
        "nord"@
    } else if index == 7 {
        "gruvbox"@
    } else {
        "mono"@
    }
}

/// A colour from its channels, as a value.
pub open spec fn rgb(r: u8, g: u8, b: u8) -> Rgb {
    Rgb { r, g, b }
}

/// The keypoints the palette at `index` interpolates through, in order; the
/// last joins back to the first.
///
/// Several are read from terminal colour schemes — a *reading* of each
/// scheme's accent set as a gradient, ordered by lightness so the cycle reads
/// as motion rather than as flicker.
pub open spec fn palette_keys(index: int) -> Seq<Rgb> {
    if index == 0 {
        seq![rgb(0, 7, 40), rgb(0, 40, 110), rgb(20, 110, 200), rgb(110, 205, 235),
            rgb(245, 250, 240), rgb(240, 180, 40), rgb(150, 80, 10)]
    } else if index == 1 {
        seq![rgb(200, 30, 60), rgb(220, 150, 20), rgb(190, 210, 40), rgb(40, 190, 90),
            rgb(30, 170, 200), rgb(60, 80, 210), rgb(150, 50, 180)]
    } else if index == 2 {
        seq![rgb(8, 0, 0), rgb(110, 10, 5), rgb(210, 60, 10), rgb(245, 150, 30),
            rgb(255, 230, 130), rgb(255, 255, 245), rgb(120, 30, 10)]
    } else if index == 3 {
        seq![rgb(60, 70, 95), rgb(150, 190, 220), rgb(175, 225, 205), rgb(245, 230, 180),
            rgb(245, 195, 175), rgb(215, 180, 220), rgb(130, 130, 175)]
    } else if index == 4 {
        seq![rgb(39, 40, 34), rgb(102, 217, 239), rgb(166, 226, 46), rgb(230, 219, 116),
            rgb(253, 151, 31), rgb(249, 38, 114), rgb(117, 113, 94)]
    } else if index == 5 {
        seq![rgb(40, 42, 54), rgb(139, 233, 253), rgb(80, 250, 123), rgb(241, 250, 140),
            rgb(255, 184, 108), rgb(255, 121, 198), rgb(189, 147, 249)]
    } else if index == 6 {
        seq![rgb(46, 52, 64), rgb(94, 129, 172), rgb(136, 192, 208), rgb(163, 190, 140),
            rgb(235, 203, 139), rgb(191, 97, 106), rgb(76, 86, 106)]
    } else if index == 7 {
        seq![rgb(40, 40, 40), rgb(69, 133, 136), rgb(152, 151, 26), rgb(215, 153, 33),
            rgb(254, 128, 25), rgb(204, 36, 29), rgb(80, 73, 69)]
    } else {
        // The one that carries no colour at all, so the glyph ramp is the
        // entire picture.
        seq![rgb(10, 10, 10), rgb(255, 255, 255), rgb(10, 10, 10)]
    }
}

/// The name and keypoints of the palette at `index`.
fn definition(index: usize) -> (d: (&'static str, Vec<Rgb>))
    requires
        index < 9,
    ensures
        d.0@ == palette_name(index as int),
        d.1@ == palette_keys(index as int),
{
    let d: (&'static str, Vec<Rgb>) = if index == 0 {
        ("classic", vec![Rgb::new(0, 7, 40), Rgb::new(0, 40, 110), Rgb::new(20, 110, 200),
            Rgb::new(110, 205, 235), Rgb::new(245, 250, 240), Rgb::new(240, 180, 40),
            Rgb::new(150, 80, 10)])
    } else if index == 1 {
        ("spectrum", vec![Rgb::new(200, 30, 60), Rgb::new(220, 150, 20), Rgb::new(190, 210, 40),
            Rgb::new(40, 190, 90), Rgb::new(30, 170, 200), Rgb::new(60, 80, 210),
            Rgb::new(150, 50, 180)])
    } else if index == 2 {
        ("fire", vec![Rgb::new(8, 0, 0), Rgb::new(110, 10, 5), Rgb::new(210, 60, 10),
            Rgb::new(245, 150, 30), Rgb::new(255, 230, 130), Rgb::new(255, 255, 245),
            Rgb::new(120, 30, 10)])
    } else if index == 3 {
        ("pastel", vec![Rgb::new(60, 70, 95), Rgb::new(150, 190, 220), Rgb::new(175, 225, 205),
            Rgb::new(245, 230, 180), Rgb::new(245, 195, 175), Rgb::new(215, 180, 220),
            Rgb::new(130, 130, 175)])
    } else if index == 4 {
        ("monokai", vec![Rgb::new(39, 40, 34), Rgb::new(102, 217, 239), Rgb::new(166, 226, 46),
            Rgb::new(230, 219, 116), Rgb::new(253, 151, 31), Rgb::new(249, 38, 114),
            Rgb::new(117, 113, 94)])
    } else if index == 5 {
        ("dracula", vec![Rgb::new(40, 42, 54), Rgb::new(139, 233, 253), Rgb::new(80, 250, 123),
            Rgb::new(241, 250, 140), Rgb::new(255, 184, 108), Rgb::new(255, 121, 198),
            Rgb::new(189, 147, 249)])
    } else if index == 6 {
        ("nord", vec![Rgb::new(46, 52, 64), Rgb::new(94, 129, 172), Rgb::new(136, 192, 208),
            Rgb::new(163, 190, 140), Rgb::new(235, 203, 139), Rgb::new(191, 97, 106),
            Rgb::new(76, 86, 106)])
    } else if index == 7 {
        ("gruvbox", vec![Rgb::new(40, 40, 40), Rgb::new(69, 133, 136), Rgb::new(152, 151, 26),
            Rgb::new(215, 153, 33), Rgb::new(254, 128, 25), Rgb::new(204, 36, 29),
            Rgb::new(80, 73, 69)])
    } else {
        ("mono", vec![Rgb::new(10, 10, 10), Rgb::new(255, 255, 255), Rgb::new(10, 10, 10)])
    };
    assert(d.1@ =~= palette_keys(index as int));
    d
}

/// A named cyclic colour gradient.
#[derive(Debug, Clone)]
pub struct Palette {
    name: &'static str,
    keys: Vec<Rgb>,
}

impl Palette {
    /// Entries in a baked lookup table. A power of two, so the wrap is a mask
    /// rather than a modulo.
    pub const LEN: usize = 512;

    /// The palette's name, as characters.
    pub closed spec fn spec_name(&self) -> Seq<char> {
        self.name@
    }

    /// The keypoints the palette interpolates through.
    pub closed spec fn spec_keys(&self) -> Seq<Rgb> {
        self.keys@
    }

    /// Whether this is the palette at `index` in the fixed list.
    pub open spec fn is_nth(&self, index: int) -> bool {
        &&& self.spec_name() == palette_name(index)
        &&& self.spec_keys() == palette_keys(index)
    }

    /// How many palettes there are.
    pub fn count() -> (n: usize)
        ensures
            n == palette_count(),
    {
        9
    }

    /// The palette at `index`, wrapping, so cycling never runs off the end.
    pub fn nth(index: usize) -> (palette: Palette)
        ensures
            palette.is_nth(index as int % palette_count() as int),
    {
        let (name, keys) = definition(index % 9);
        Palette { name, keys }
    }

    /// The palette with this name, if there is one.
    pub fn by_name(name: &str) -> (palette: Option<Palette>)
        ensures
            palette is Some <==> exists|i: int| 0 <= i < palette_count() && palette_name(i) == name@,
            palette matches Some(p) ==> exists|i: int|
                0 <= i < palette_count() && palette_name(i) == name@ && p.is_nth(i),
    {
        let mut i: usize = 0;
        while i < 9
            invariant
                i <= 9,
                forall|k: int| 0 <= k < i ==> palette_name(k) != name@,
            decreases 9 - i,
        {
            let (candidate, keys) = definition(i);
            if same_text(candidate, name) {
                return Some(Palette { name: candidate, keys });
            }
            i = i + 1;
        }
        None
    }

    /// The palette's name, for a status line.
    pub fn name(&self) -> (name: &'static str)
        ensures
            name@ == self.spec_name(),
    {
        self.name
    }

    /// The keypoints this palette interpolates through, in order.
    pub fn keys(&self) -> (keys: &[Rgb])
        ensures
            keys@ == self.spec_keys(),
    {
        self.keys.as_slice()
    }
}

impl Default for Palette {
    /// The first palette, "classic".
    fn default() -> (palette: Palette)
        ensures
            palette.is_nth(0),
    {
        Palette::nth(0)
    }
}

/// No two palettes share a name, so every palette is reachable by name.
pub proof fn lemma_palette_names_are_unique(i: int, j: int)
    requires
        0 <= i < palette_count(),
        0 <= j < palette_count(),
    ensures
        palette_name(i) == palette_name(j) <==> i == j,
{
    reveal_strlit("classic");
    reveal_strlit("spectrum");
    reveal_strlit("fire");
    reveal_strlit("pastel");
    reveal_strlit("monokai");
    reveal_strlit("dracula");
    reveal_strlit("nord");
    reveal_strlit("gruvbox");
    reveal_strlit("mono");
    assert("classic"@.len() == 7 && "monokai"@.len() == 7 && "dracula"@.len() == 7);
    assert("gruvbox"@.len() == 7 && "spectrum"@.len() == 8 && "pastel"@.len() == 6);
    assert("fire"@.len() == 4 && "nord"@.len() == 4 && "mono"@.len() == 4);
    assert("classic"@[0] == 'c' && "monokai"@[0] == 'm' && "dracula"@[0] == 'd');
    assert("gruvbox"@[0] == 'g' && "fire"@[0] == 'f' && "nord"@[0] == 'n');
    assert("mono"@[0] == 'm');
}

/// A colour with no cast: all three channels equal.
pub open spec fn is_grey(colour: Rgb) -> bool {
    colour.r == colour.g && colour.g == colour.b
}

/// The palette named "mono" carries no colour at all: every one of its
/// keypoints is grey, so the glyph ramp is the entire picture.
pub proof fn lemma_mono_is_monochrome(i: int)
    requires
        0 <= i < palette_count(),
        palette_name(i) == "mono"@,
    ensures
        forall|k: int| 0 <= k < palette_keys(i).len() ==> is_grey(#[trigger] palette_keys(i)[k]),
        palette_keys(i).len() >= 2,
{
    lemma_palette_names_are_unique(i, 8);
}

/// Every palette other than "mono" is a colour gradient of seven keypoints,
/// at least one of them carrying colour; "mono" runs dark to white and back.
pub proof fn lemma_palettes_are_coloured_but_mono(i: int)
    requires
        0 <= i < palette_count(),
    ensures
        palette_name(i) != "mono"@ ==> palette_keys(i).len() == 7
            && exists|k: int| 0 <= k < 7 && !is_grey(#[trigger] palette_keys(i)[k]),
        palette_name(i) == "mono"@ ==> palette_keys(i) == seq![rgb(10, 10, 10), rgb(255, 255, 255), rgb(10, 10, 10)],
{
    lemma_palette_names_are_unique(i, 8);
    if i < 8 {
        assert(!is_grey(palette_keys(i)[1]));
    }
}

/// Looking a palette up by its own name finds that palette.
pub proof fn lemma_by_name_finds_each_palette(i: int, p: Palette)
    requires
        0 <= i < palette_count(),
        p.is_nth(i),
    ensures
        forall|j: int| 0 <= j < palette_count() && palette_name(j) == p.spec_name() ==> p.is_nth(j),
{
    assert forall|j: int| 0 <= j < palette_count() && palette_name(j) == p.spec_name() implies p.is_nth(j) by {
        lemma_palette_names_are_unique(i, j);
    }
}

/// Every palette has at least two keys, which is what a closed gradient needs
/// to be baked.
pub proof fn lemma_every_palette_is_a_gradient(i: int)
    requires
        0 <= i < palette_count(),
    ensures
        palette_keys(i).len() >= 2,
{
}

} // verus!
