//! The rendered output: a grid of coloured glyphs.
//!
//! Row-major and densely stored, so a frontend can blit a row at a time and a
//! resize is a single reallocation rather than a per-row one.

use vstd::prelude::*;

verus! {

/// A 24-bit colour.
#[derive(Debug, Clone, Copy, PartialEq, Eq, Structural)]
pub struct Rgb {
    /// Red channel.
    pub r: u8,
    /// Green channel.
    pub g: u8,
    /// Blue channel.
    pub b: u8,
}

impl Rgb {
    /// Black.
    pub fn black() -> (c: Rgb)
        ensures
            c == black(),
    {
        Rgb { r: 0, g: 0, b: 0 }
    }

    /// A colour from its three channels.
    pub fn new(r: u8, g: u8, b: u8) -> (c: Rgb)
        ensures
            c.r == r,
            c.g == g,
            c.b == b,
    {
        Rgb { r, g, b }
    }
}

impl Default for Rgb {
    /// Black.
    fn default() -> (c: Rgb)
        ensures
            c == black(),
    {
        Rgb::black()
    }
}

/// One character cell of rendered output: a glyph, its colour, and what sits
/// behind it.
///
/// A rendered frame sets `background` explicitly on every cell, so the
/// picture paints over the terminal's own theme rather than letting it show
/// through.
#[derive(Debug, Clone, Copy, PartialEq, Eq, Structural)]
pub struct Cell {
    /// The glyph to draw.
    pub glyph: char,
    /// The glyph's foreground colour.
    pub colour: Rgb,
    /// What sits behind the glyph.
    pub background: Rgb,
}

/// Black, as a value.
pub open spec fn black() -> Rgb {
    Rgb { r: 0, g: 0, b: 0 }
}

/// The blank cell: a space, black on black.
pub open spec fn blank() -> Cell {
    Cell { glyph: ' ', colour: black(), background: black() }
}

impl Cell {
    /// A cell with the given glyph and colour, on black.
    pub fn new(glyph: char, colour: Rgb) -> (c: Cell)
        ensures
            c.glyph == glyph,
            c.colour == colour,
            c.background == black(),
    {
        Cell { glyph, colour, background: Rgb::black() }
    }

    /// A cell with an explicit background: one glyph, two independently
    /// coloured halves.
    pub fn with_background(glyph: char, colour: Rgb, background: Rgb) -> (c: Cell)
        ensures
            c.glyph == glyph,
            c.colour == colour,
            c.background == background,
    {
        Cell { glyph, colour, background }
    }
}

impl Default for Cell {
    /// A blank cell — a space, black on black.
    fn default() -> (c: Cell)
        ensures
            c == blank(),
    {
        Cell::new(' ', Rgb::black())
    }
}

/// A rectangular grid of rendered cells: the renderer's whole output.
#[derive(Debug, Clone, PartialEq, Eq)]
pub struct Grid {
    width: usize,
    height: usize,
    cells: Vec<Cell>,
}

/// `count` blank cells.
fn blank_cells(count: usize) -> (cells: Vec<Cell>)
    ensures
        cells@ == Seq::new(count as nat, |_i: int| blank()),
{
    let mut cells: Vec<Cell> = Vec::new();
    let mut i: usize = 0;
    while i < count
        invariant
            i <= count,
            cells@ == Seq::new(i as nat, |_j: int| blank()),
        decreases count - i,
    {
        cells.push(Cell::default());
        i = i + 1;
    }
    cells
}

impl Grid {
    /// Cells across, as a mathematical integer.
    pub closed spec fn spec_width(&self) -> nat {
        self.width as nat
    }

    /// Cells down, as a mathematical integer.
    pub closed spec fn spec_height(&self) -> nat {
        self.height as nat
    }

    /// Every cell, row-major.
    pub closed spec fn spec_cells(&self) -> Seq<Cell> {
        self.cells@
    }

    /// The grid holds exactly one cell per coordinate.
    pub open spec fn wf(&self) -> bool {
        &&& self.spec_cells().len() == self.spec_width() * self.spec_height()
        &&& self.spec_width() * self.spec_height() <= usize::MAX
    }

    /// The cell at `(x, y)`, for a coordinate inside the grid.
    pub open spec fn cell_at(&self, x: int, y: int) -> Cell {
        self.spec_cells()[y * self.spec_width() + x]
    }

    /// A grid of blank cells.
    ///
    /// A zero width or height is legal and yields an empty grid: a terminal can
    /// genuinely report one mid-resize.
    pub fn new(width: usize, height: usize) -> (grid: Grid)
        requires
            width * height <= usize::MAX,
        ensures
            grid.wf(),
            grid.spec_width() == width,
            grid.spec_height() == height,
            grid.spec_cells() == Seq::new((width * height) as nat, |_i: int| blank()),
    {
        Grid { width, height, cells: blank_cells(width * height) }
    }

    /// Cells across.
    pub fn width(&self) -> (w: usize)
        ensures
            w == self.spec_width(),
    {
        self.width
    }

    /// Cells down.
    pub fn height(&self) -> (h: usize)
        ensures
            h == self.spec_height(),
    {
        self.height
    }

    /// The row-major position of `(x, y)`, or `None` outside the grid.
    fn index(&self, x: usize, y: usize) -> (i: Option<usize>)
        requires
            self.wf(),
        ensures
            i is Some <==> (x < self.spec_width() && y < self.spec_height()),
            i matches Some(k) ==> k == y * self.spec_width() + x && k < self.spec_cells().len(),
    {
        if x < self.width && y < self.height {
            proof {
                lemma_row_major_in_bounds(x as int, y as int, self.width as int, self.height as int);
            }
            Some(y * self.width + x)
        } else {
            None
        }
    }

    /// The cell at `(x, y)`, or `None` when the coordinate is outside the grid.
    pub fn get(&self, x: usize, y: usize) -> (cell: Option<Cell>)
        requires
            self.wf(),
        ensures
            cell == (if x < self.spec_width() && y < self.spec_height() {
                Some(self.cell_at(x as int, y as int))
            } else {
                None
            }),
    {
        match self.index(x, y) {
            Some(i) => Some(self.cells[i]),
            None => None,
        }
    }

    /// Overwrite the cell at `(x, y)`.
    ///
    /// Out-of-bounds writes are dropped rather than panicking: a frontend
    /// mid-resize is briefly wrong about its own size.
    pub fn set(&mut self, x: usize, y: usize, cell: Cell)
        requires
            old(self).wf(),
        ensures
            final(self).wf(),
            final(self).spec_width() == old(self).spec_width(),
            final(self).spec_height() == old(self).spec_height(),
            final(self).spec_cells() == (if x < old(self).spec_width() && y < old(self).spec_height() {
                old(self).spec_cells().update(y * old(self).spec_width() + x, cell)
            } else {
                old(self).spec_cells()
            }),
    {
        match self.index(x, y) {
            Some(i) => {
                self.cells.set(i, cell);
            },
            None => {},
        }
    }

    /// Every cell in row-major order.
    pub fn cells(&self) -> (cells: &[Cell])
        ensures
            cells@ == self.spec_cells(),
    {
        self.cells.as_slice()
    }

    /// One row of cells, or `None` when `y` is outside the grid.
    ///
    /// A zero-width grid still has `height` rows, each of them empty.
    pub fn row(&self, y: usize) -> (row: Option<&[Cell]>)
        requires
            self.wf(),
        ensures
            y >= self.spec_height() ==> row is None,
            y < self.spec_height() ==> (row matches Some(r) && r@ == self.spec_cells().subrange(
                y * self.spec_width(),
                y * self.spec_width() + self.spec_width(),
            )),
            row matches Some(r) ==> r@.len() == self.spec_width(),
            row matches Some(r) ==> forall|x: int|
                0 <= x < self.spec_width() ==> #[trigger] r@[x] == self.cell_at(x, y as int),
    {
        if y >= self.height {
            return None;
        }
        proof {
            lemma_row_end_in_bounds(y as int, self.width as int, self.height as int);
        }
        let start = y * self.width;
        let slice = self.cells.as_slice();
        Some(&slice[start..start + self.width])
    }

    /// The part of the grid an area of `area_width × area_height` cells shows:
    /// whichever is smaller in each direction, so a grid larger than the area
    /// is cropped and one smaller than it leaves the rest of the area alone.
    pub fn visible(&self, area_width: u16, area_height: u16) -> (extent: (u16, u16))
        ensures
            extent.0 == (if self.spec_width() < area_width { self.spec_width() } else { area_width as nat }),
            extent.1 == (if self.spec_height() < area_height { self.spec_height() } else { area_height as nat }),
    {
        let cols = if self.width < area_width as usize { self.width as u16 } else { area_width };
        let rows = if self.height < area_height as usize { self.height as u16 } else { area_height };
        (cols, rows)
    }

    /// Resize in place, blanking every cell.
    ///
    /// Contents are not preserved: the caller re-renders after a resize anyway.
    pub fn resize(&mut self, width: usize, height: usize)
        requires
            width * height <= usize::MAX,
        ensures
            final(self).wf(),
            final(self).spec_width() == width,
            final(self).spec_height() == height,
            final(self).spec_cells() == Seq::new((width * height) as nat, |_i: int| blank()),
    {
        self.width = width;
        self.height = height;
        self.cells.clear();
        let mut i: usize = 0;
        let count = width * height;
        while i < count
            invariant
                i <= count,
                count == width * height,
                self.width == width,
                self.height == height,
                self.cells@ == Seq::new(i as nat, |_j: int| blank()),
            decreases count - i,
        {
            self.cells.push(Cell::default());
            i = i + 1;
        }
    }
}

/// A cell written inside the grid reads back as written, and every other
/// coordinate reads back as it did before the write.
pub proof fn lemma_set_then_get(before: Grid, after: Grid, x: int, y: int, cell: Cell, u: int, v: int)
    requires
        before.wf(),
        0 <= x < before.spec_width(),
        0 <= y < before.spec_height(),
        0 <= u < before.spec_width(),
        0 <= v < before.spec_height(),
        after.spec_width() == before.spec_width(),
        after.spec_height() == before.spec_height(),
        after.spec_cells() == before.spec_cells().update(y * before.spec_width() + x, cell),
    ensures
        after.cell_at(u, v) == (if u == x && v == y { cell } else { before.cell_at(u, v) }),
{
    let w = before.spec_width() as int;
    let h = before.spec_height() as int;
    lemma_row_major_in_bounds(x, y, w, h);
    lemma_row_major_in_bounds(u, v, w, h);
    if !(u == x && v == y) {
        assert(v * w + u != y * w + x) by (nonlinear_arith)
            requires
                0 <= x < w,
                0 <= u < w,
                !(u == x && v == y),
        {
            if v == y {
                assert(u != x);
            } else if v < y {
                assert((y - v) * w >= w);
            } else {
                assert((v - y) * w >= w);
            }
        }
    }
}

/// A coordinate inside a `width × height` grid has a row-major position
/// inside its cell sequence.
proof fn lemma_row_major_in_bounds(x: int, y: int, width: int, height: int)
    requires
        0 <= x < width,
        0 <= y < height,
    ensures
        0 <= y * width + x < width * height,
{
    assert(y * width + x < width * height) by (nonlinear_arith)
        requires
            0 <= x < width,
            0 <= y < height,
    ;
    assert(0 <= y * width) by (nonlinear_arith)
        requires
            0 <= y,
            0 <= x < width,
    ;
}

/// Row `y` of a `width × height` grid ends inside its cell sequence.
proof fn lemma_row_end_in_bounds(y: int, width: int, height: int)
    requires
        0 <= y < height,
        0 <= width,
    ensures
        0 <= y * width,
        y * width + width <= width * height,
{
    assert(y * width + width <= width * height) by (nonlinear_arith)
        requires
            0 <= y < height,
            0 <= width,
    ;
    assert(0 <= y * width) by (nonlinear_arith)
        requires
            0 <= y,
            0 <= width,
    ;
}

} // verus!
