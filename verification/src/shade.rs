//! How samples map onto character cells.

use vstd::prelude::*;

verus! {

/// How samples map onto character cells.
#[derive(Debug, Clone, Copy, PartialEq, Eq, Structural)]
pub enum CellMode {
    /// One sample per cell, shaded by the glyph ramp.
    ///
    /// The default, and the product's identity: this is the mode that makes
    /// the picture ASCII art rather than a low-resolution image viewer.
    Glyph,
    /// Two samples stacked in each cell, drawn as an upper half block: the
    /// top sample's colour in front, the bottom one's behind. Twice the
    /// vertical resolution, colour only.
    HalfBlock,
}

/// How many samples across and down one cell's block holds at a
/// supersampling factor: the mode's subdivisions, each times the factor.
pub open spec fn block_of(mode: CellMode, factor: nat) -> (nat, nat) {
    ((mode.spec_subdivisions().0 as nat) * factor, (mode.spec_subdivisions().1 as nat) * factor)
}

impl CellMode {
    /// Samples across and down one character cell, as values.
    pub open spec fn spec_subdivisions(self) -> (usize, usize) {
        match self {
            CellMode::Glyph => (1, 1),
            CellMode::HalfBlock => (1, 2),
        }
    }

    /// The other rendering mode, as a value.
    pub open spec fn spec_toggled(self) -> CellMode {
        match self {
            CellMode::Glyph => CellMode::HalfBlock,
            CellMode::HalfBlock => CellMode::Glyph,
        }
    }

    /// Samples across and down one character cell.
    pub fn subdivisions(self) -> (sub: (usize, usize))
        ensures
            sub == self.spec_subdivisions(),
            sub.0 >= 1 && sub.1 >= 1,
    {
        match self {
            CellMode::Glyph => (1, 1),
            CellMode::HalfBlock => (1, 2),
        }
    }

    /// The other rendering mode: glyph and half-block alternate.
    pub fn toggled(self) -> (mode: CellMode)
        ensures
            mode == self.spec_toggled(),
    {
        match self {
            CellMode::Glyph => CellMode::HalfBlock,
            CellMode::HalfBlock => CellMode::Glyph,
        }
    }

    /// The samples across and down one cell at supersampling `factor`: a
    /// `factor × factor` block for each of the mode's subdivisions.
    pub fn block(self, factor: usize) -> (block: (usize, usize))
        requires
            1 <= factor <= 3,
        ensures
            block.0 == block_of(self, factor as nat).0,
            block.1 == block_of(self, factor as nat).1,
            block.0 >= 1 && block.1 >= 1,
    {
        let (across, down) = self.subdivisions();
        (across * factor, down * factor)
    }

    /// The sample lattice needed to fill `cols × rows` cells at
    /// supersampling `factor`.
    pub fn lattice_at(self, factor: usize, cols: usize, rows: usize) -> (lattice: (usize, usize))
        requires
            1 <= factor <= 3,
            cols * block_of(self, factor as nat).0 <= usize::MAX,
            rows * block_of(self, factor as nat).1 <= usize::MAX,
        ensures
            lattice.0 == cols * block_of(self, factor as nat).0,
            lattice.1 == rows * block_of(self, factor as nat).1,
    {
        let (across, down) = self.block(factor);
        (cols * across, rows * down)
    }

    /// The whole cells a `sample_cols × sample_rows` lattice fills at
    /// supersampling `factor`.
    pub fn cells_at(self, factor: usize, sample_cols: usize, sample_rows: usize) -> (cells: (usize, usize))
        requires
            1 <= factor <= 3,
        ensures
            cells.0 == (sample_cols as nat) / block_of(self, factor as nat).0,
            cells.1 == (sample_rows as nat) / block_of(self, factor as nat).1,
    {
        let (across, down) = self.block(factor);
        (sample_cols / across, sample_rows / down)
    }

    /// The sample lattice needed to fill `cols × rows` character cells.
    pub fn lattice(self, cols: usize, rows: usize) -> (lattice: (usize, usize))
        requires
            cols * self.spec_subdivisions().0 <= usize::MAX,
            rows * self.spec_subdivisions().1 <= usize::MAX,
        ensures
            lattice.0 == cols * self.spec_subdivisions().0,
            lattice.1 == rows * self.spec_subdivisions().1,
    {
        let (across, down) = self.subdivisions();
        (cols * across, rows * down)
    }

    /// The character cells a `sample_cols × sample_rows` lattice fills: whole
    /// cells only, so a lattice that disagrees with the mode renders the
    /// overlap rather than a partial cell.
    pub fn cells_covered(self, sample_cols: usize, sample_rows: usize) -> (cells: (usize, usize))
        ensures
            cells.0 == sample_cols / self.spec_subdivisions().0,
            cells.1 == sample_rows / self.spec_subdivisions().1,
    {
        let (across, down) = self.subdivisions();
        (sample_cols / across, sample_rows / down)
    }
}

impl Default for CellMode {
    /// Glyph mode.
    fn default() -> (mode: CellMode)
        ensures
            mode == CellMode::Glyph,
    {
        CellMode::Glyph
    }
}

/// Shading the lattice a mode asks for fills exactly the cells it was asked
/// for.
pub proof fn lemma_lattice_covers_its_cells(mode: CellMode, cols: nat, rows: nat)
    ensures
        (cols * mode.spec_subdivisions().0) as int / (mode.spec_subdivisions().0 as int) == cols,
        (rows * mode.spec_subdivisions().1) as int / (mode.spec_subdivisions().1 as int) == rows,
{
}

} // verus!
