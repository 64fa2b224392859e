//! The sample grid: what a sampler fills and every frontend consumes.
//!
//! A **sample** grid holds one classified point per sample, in row-major
//! order; a grid of glyphs and colours is a *cell* grid, and that belongs to
//! whatever is drawing. What a sample is — an escape with a continuous count,
//! or only its iteration count — is the grid's parameter.

use vstd::prelude::*;

verus! {

/// A rectangular field of samples, in row-major order.
#[derive(Debug, Clone, PartialEq)]
pub struct SampleGrid<T> {
    cols: usize,
    rows: usize,
    samples: Vec<T>,
}

/// `count` copies of `fill`.
fn filled<T: Copy>(count: usize, fill: T) -> (samples: Vec<T>)
    ensures
        samples@ == Seq::new(count as nat, |_i: int| fill),
{
    let mut samples: Vec<T> = Vec::new();
    let mut i: usize = 0;
    while i < count
        invariant
            i <= count,
            samples@ == Seq::new(i as nat, |_j: int| fill),
        decreases count - i,
    {
        samples.push(fill);
        i = i + 1;
    }
    samples
}

impl<T: Copy> SampleGrid<T> {
    /// Samples across, as a value.
    pub closed spec fn spec_cols(&self) -> nat {
        self.cols as nat
    }

    /// Samples down, as a value.
    pub closed spec fn spec_rows(&self) -> nat {
        self.rows as nat
    }

    /// Every sample, row-major.
    pub closed spec fn spec_samples(&self) -> Seq<T> {
        self.samples@
    }

    /// The grid holds exactly one sample per coordinate.
    pub open spec fn wf(&self) -> bool {
        &&& self.spec_samples().len() == self.spec_cols() * self.spec_rows()
        &&& self.spec_cols() * self.spec_rows() <= usize::MAX
    }

    /// The sample at `(x, y)`, for a coordinate inside the grid.
    pub open spec fn sample_at(&self, x: int, y: int) -> T {
        self.spec_samples()[y * self.spec_cols() + x]
    }

    /// A grid of the given size, every sample `fill`.
    pub fn new(cols: usize, rows: usize, fill: T) -> (grid: SampleGrid<T>)
        requires
            cols * rows <= usize::MAX,
        ensures
            grid.wf(),
            grid.spec_cols() == cols,
            grid.spec_rows() == rows,
            grid.spec_samples() == Seq::new((cols * rows) as nat, |_i: int| fill),
    {
        SampleGrid { cols, rows, samples: filled(cols * rows, fill) }
    }

    /// Samples across.
    pub fn cols(&self) -> (cols: usize)
        ensures
            cols == self.spec_cols(),
    {
        self.cols
    }

    /// Samples down.
    pub fn rows(&self) -> (rows: usize)
        ensures
            rows == self.spec_rows(),
    {
        self.rows
    }

    /// Resize in place, every sample `fill`, reusing the allocation: a
    /// sampler overwrites every sample right after.
    pub fn resize(&mut self, cols: usize, rows: usize, fill: T)
        requires
            cols * rows <= usize::MAX,
        ensures
            final(self).wf(),
            final(self).spec_cols() == cols,
            final(self).spec_rows() == rows,
            final(self).spec_samples() == Seq::new((cols * rows) as nat, |_i: int| fill),
    {
        self.cols = cols;
        self.rows = rows;
        self.samples.clear();
        let count = cols * rows;
        let mut i: usize = 0;
        while i < count
            invariant
                i <= count,
                count == cols * rows,
                self.cols == cols,
                self.rows == rows,
                self.samples@ == Seq::new(i as nat, |_j: int| fill),
            decreases count - i,
        {
            self.samples.push(fill);
            i = i + 1;
        }
    }

    /// The sample at `(x, y)`, or `None` outside the grid.
    pub fn get(&self, x: usize, y: usize) -> (sample: Option<T>)
        requires
            self.wf(),
        ensures
            sample == (if x < self.spec_cols() && y < self.spec_rows() {
                Some(self.sample_at(x as int, y as int))
            } else {
                None
            }),
    {
        if x < self.cols && y < self.rows {
            proof {
                lemma_position_in_bounds(x as int, y as int, self.cols as int, self.rows as int);
            }
            Some(self.samples[y * self.cols + x])
        } else {
            None
        }
    }

    /// Overwrite the sample at `(x, y)`.
    ///
    /// Out-of-bounds writes are dropped rather than panicking, matching the
    /// rest of the grid's edge behaviour. This is how a consumer builds a
    /// grid by hand, which is what lets everything downstream of a sampler be
    /// checked without running one.
    pub fn set(&mut self, x: usize, y: usize, sample: T)
        requires
            old(self).wf(),
        ensures
            final(self).wf(),
            final(self).spec_cols() == old(self).spec_cols(),
            final(self).spec_rows() == old(self).spec_rows(),
            final(self).spec_samples() == (if x < old(self).spec_cols() && y < old(self).spec_rows() {
                old(self).spec_samples().update(y * old(self).spec_cols() + x, sample)
            } else {
                old(self).spec_samples()
            }),
    {
        if x < self.cols && y < self.rows {
            proof {
                lemma_position_in_bounds(x as int, y as int, self.cols as int, self.rows as int);
            }
            self.samples.set(y * self.cols + x, sample);
        }
    }

    /// One row of samples, or `None` when `y` is past the last row.
    ///
    /// A zero-width grid still has `rows` rows, each of them empty.
    pub fn row(&self, y: usize) -> (row: Option<&[T]>)
        requires
            self.wf(),
        ensures
            y >= self.spec_rows() ==> row is None,
            y < self.spec_rows() ==> (row matches Some(r) && r@ == self.spec_samples().subrange(
                y * self.spec_cols(),
                y * self.spec_cols() + self.spec_cols(),
            )),
            row matches Some(r) ==> r@.len() == self.spec_cols(),
            row matches Some(r) ==> forall|x: int|
                0 <= x < self.spec_cols() ==> #[trigger] r@[x] == self.sample_at(x, y as int),
    {
        if y >= self.rows {
            return None;
        }
        proof {
            lemma_row_in_bounds(y as int, self.cols as int, self.rows as int);
        }
        let start = y * self.cols;
        let slice = self.samples.as_slice();
        Some(&slice[start..start + self.cols])
    }

    /// Every sample, row-major.
    pub fn samples(&self) -> (samples: &[T])
        ensures
            samples@ == self.spec_samples(),
    {
        self.samples.as_slice()
    }

    /// Replace every sample at once, row-major: how a sampler that computes
    /// a whole frame in parallel hands it over.
    pub fn fill_from(&mut self, samples: Vec<T>)
        requires
            old(self).wf(),
            samples@.len() == old(self).spec_cols() * old(self).spec_rows(),
        ensures
            final(self).wf(),
            final(self).spec_cols() == old(self).spec_cols(),
            final(self).spec_rows() == old(self).spec_rows(),
            final(self).spec_samples() == samples@,
    {
        self.samples = samples;
    }
}

/// A coordinate inside a `cols × rows` grid has a row-major position inside
/// it.
pub proof fn lemma_position_in_bounds(x: int, y: int, cols: int, rows: int)
    requires
        0 <= x < cols,
        0 <= y < rows,
    ensures
        0 <= y * cols + x < cols * rows,
{
    assert(0 <= y * cols + x < cols * rows) by (nonlinear_arith)
        requires
            0 <= x < cols,
            0 <= y < rows,
    ;
}

/// Row `y` of a `cols × rows` grid ends inside it.
proof fn lemma_row_in_bounds(y: int, cols: int, rows: int)
    requires
        0 <= y < rows,
        0 <= cols,
    ensures
        0 <= y * cols,
        y * cols + cols <= cols * rows,
{
    assert(y * cols + cols <= cols * rows) by (nonlinear_arith)
        requires
            0 <= y < rows,
            0 <= cols,
    ;
    assert(0 <= y * cols) by (nonlinear_arith)
        requires
            0 <= y,
            0 <= cols,
    ;
}

} // verus!
