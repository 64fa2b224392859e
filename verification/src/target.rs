//! Choosing where to zoom next.
//!
//! Maths over escape data with no presentation in it: a tool rendering a zoom
//! video wants exactly the same answer to "where is there still detail?" as
//! the interactive explorer does. What the choice reads of each sample is
//! whether it escaped and after how many iterations, so that is what an
//! [`IterationGrid`] holds.

use vstd::prelude::*;

use crate::sample::{SampleGrid, lemma_position_in_bounds};

verus! {

/// The iteration counts of a sampled view, row-major: `None` for a point
/// treated as interior at the limit it was sampled with, `Some(n)` for one
/// that escaped after `n` iterations.
pub type IterationGrid = SampleGrid<Option<u32>>;

/// How many of `samples` are interior.
pub open spec fn interior_count_of(samples: Seq<Option<u32>>) -> nat
    decreases samples.len(),
{
    if samples.len() == 0 {
        0
    } else {
        interior_count_of(samples.drop_last()) + if samples.last() is None { 1nat } else { 0nat }
    }
}

/// Whether `interior` interior samples out of `total` make a view worth
/// looking at: at least 0.5% and at most 99.5% interior, so both the set and
/// its outside are in frame. An empty view is not.
pub open spec fn interesting_fraction(interior: nat, total: nat) -> bool {
    &&& total > 0
    &&& 200 * interior >= total
    &&& 200 * interior <= 199 * total
}

impl SampleGrid<Option<u32>> {
    /// Whether `(x, y)` is inside the grid and interior.
    pub open spec fn interior_at(&self, x: int, y: int) -> bool {
        &&& 0 <= x < self.spec_cols()
        &&& 0 <= y < self.spec_rows()
        &&& self.spec_samples()[y * self.spec_cols() + x] is None
    }

    /// Whether any of the four neighbours of `(x, y)` is interior.
    ///
    /// Four-neighbour rather than eight: a diagonal-only touch happens at a
    /// corner of the sample lattice and is as often an artefact of the
    /// sampling as a real adjacency. Edges simply have fewer neighbours.
    pub open spec fn spec_touches_interior(&self, x: int, y: int) -> bool {
        ||| self.interior_at(x - 1, y)
        ||| self.interior_at(x + 1, y)
        ||| self.interior_at(x, y - 1)
        ||| self.interior_at(x, y + 1)
    }

    /// Whether the sample at row-major position `k` escaped and touches the
    /// interior: a point on the boundary.
    pub open spec fn is_candidate(&self, k: int) -> bool {
        &&& 0 <= k < self.spec_samples().len()
        &&& self.spec_samples()[k] is Some
        &&& self.spec_touches_interior(k % (self.spec_cols() as int), k / (self.spec_cols() as int))
    }

    /// The iterations the sample at row-major position `k` escaped after.
    pub open spec fn iterations_at(&self, k: int) -> u32 {
        self.spec_samples()[k]->Some_0
    }

    /// Whether position `k` is the boundary target: the boundary sample that
    /// escaped slowest, the first in row-major order among equals.
    pub open spec fn is_target(&self, k: int) -> bool {
        &&& self.is_candidate(k)
        &&& forall|j: int| #[trigger] self.is_candidate(j) ==> self.iterations_at(j) <= self.iterations_at(k)
        &&& forall|j: int| 0 <= j < k && #[trigger] self.is_candidate(j) ==> self.iterations_at(j) < self.iterations_at(k)
    }

    /// Whether the grid has any boundary at all.
    pub open spec fn has_boundary(&self) -> bool {
        exists|k: int| #[trigger] self.is_candidate(k)
    }

    /// How many samples are interior.
    pub fn interior_count(&self) -> (count: usize)
        ensures
            count == interior_count_of(self.spec_samples()),
    {
        let samples = self.samples();
        let mut count: usize = 0;
        let mut i: usize = 0;
        while i < samples.len()
            invariant
                samples@ == self.spec_samples(),
                i <= samples@.len(),
                count == interior_count_of(samples@.subrange(0, i as int)),
                count <= i,
            decreases samples@.len() - i,
        {
            proof {
                assert(samples@.subrange(0, i + 1).drop_last() =~= samples@.subrange(0, i as int));
            }
            if samples[i].is_none() {
                count = count + 1;
            }
            i = i + 1;
        }
        assert(samples@.subrange(0, samples@.len() as int) =~= samples@);
        count
    }

    /// Whether any of the four neighbours of `(x, y)` is interior.
    fn touches_interior(&self, x: usize, y: usize) -> (touches: bool)
        requires
            self.wf(),
            x < self.spec_cols(),
            y < self.spec_rows(),
        ensures
            touches == self.spec_touches_interior(x as int, y as int),
    {
        let (cols, rows) = (self.cols(), self.rows());
        assert(x + 1 <= cols && y + 1 <= rows);
        let left = x > 0 && matches!(self.get(x - 1, y), Some(None));
        let right = matches!(self.get(x + 1, y), Some(None));
        let up = y > 0 && matches!(self.get(x, y - 1), Some(None));
        let down = matches!(self.get(x, y + 1), Some(None));
        left || right || up || down
    }

    /// A point on the boundary that will still hold detail after zooming in,
    /// as a sample coordinate.
    ///
    /// Among samples that escaped, the one with the highest iteration count
    /// that is directly adjacent to an interior sample: escaping slowly means
    /// being close to the set, touching an interior neighbour means being on
    /// the boundary rather than merely near it. Ties go to the first in
    /// row-major order, which makes dives reproducible.
    ///
    /// `None` when the grid has no boundary at all — an entirely solid or
    /// entirely empty view — which is the caller's signal to look elsewhere.
    pub fn boundary_target(&self) -> (target: Option<(usize, usize)>)
        requires
            self.wf(),
        ensures
            target is None <==> !self.has_boundary(),
            target matches Some((x, y)) ==> {
                &&& x < self.spec_cols()
                &&& y < self.spec_rows()
                &&& self.is_target(y * self.spec_cols() + x)
            },
    {
        let samples = self.samples();
        let cols = self.cols();
        let total = samples.len();
        let mut best: Option<(u32, usize)> = None;
        let mut k: usize = 0;
        while k < total
            invariant
                self.wf(),
                samples@ == self.spec_samples(),
                cols == self.spec_cols(),
                total == self.spec_samples().len(),
                k <= total,
                best is None ==> forall|j: int| 0 <= j < k ==> !#[trigger] self.is_candidate(j),
                best matches Some((n, b)) ==> {
                    &&& b < k
                    &&& self.is_candidate(b as int)
                    &&& n == self.iterations_at(b as int)
                    &&& forall|j: int| 0 <= j < k && #[trigger] self.is_candidate(j) ==> self.iterations_at(j) <= n
                    &&& forall|j: int| 0 <= j < b && #[trigger] self.is_candidate(j) ==> self.iterations_at(j) < n
                },
            decreases total - k,
        {
            proof {
                lemma_split_position(k as int, self.spec_cols() as int, self.spec_rows() as int);
            }
            let x = k % cols;
            let y = k / cols;
            match samples[k] {
                Some(n) => {
                    if self.touches_interior(x, y) {
                        let better = match best {
                            None => true,
                            Some((m, _)) => n > m,
                        };
                        if better {
                            best = Some((n, k));
                        }
                    }
                },
                None => {},
            }
            k = k + 1;
        }
        match best {
            None => None,
            Some((_, b)) => {
                proof {
                    lemma_split_position(b as int, self.spec_cols() as int, self.spec_rows() as int);
                }
                let x = b % cols;
                let y = b / cols;
                Some((x, y))
            },
        }
    }
}

/// Whether a view has both the set and its outside in frame.
pub fn is_interesting(grid: &IterationGrid) -> (interesting: bool)
    requires
        grid.wf(),
    ensures
        interesting == interesting_fraction(
            interior_count_of(grid.spec_samples()),
            grid.spec_samples().len(),
        ),
{
    let total = grid.samples().len();
    let interior = grid.interior_count() as u128;
    if total == 0 {
        return false;
    }
    let total = total as u128;
    200 * interior >= total && 200 * interior <= 199 * total
}

/// A sample is on the boundary exactly when it escaped and one of the
/// samples a single step away — left, right, above or below, inside the
/// grid — is interior.
pub proof fn lemma_boundary_is_an_escape_beside_the_interior(grid: IterationGrid, x: int, y: int)
    requires
        grid.wf(),
        0 <= x < grid.spec_cols(),
        0 <= y < grid.spec_rows(),
    ensures
        grid.is_candidate(y * grid.spec_cols() + x) <==> {
            &&& grid.sample_at(x, y) is Some
            &&& exists|u: int, v: int|
                0 <= u < grid.spec_cols() && 0 <= v < grid.spec_rows()
                    && (if u >= x { u - x } else { x - u }) + (if v >= y { v - y } else { y - v }) == 1
                    && (#[trigger] grid.sample_at(u, v)) is None
        },
{
    let cols = grid.spec_cols() as int;
    let rows = grid.spec_rows() as int;
    let k = y * cols + x;
    lemma_position_in_bounds(x, y, cols, rows);
    lemma_split_position(k, cols, rows);
    vstd::arithmetic::div_mod::lemma_fundamental_div_mod_converse(k, cols, y, x);
    assert(k % cols == x && k / cols == y);
    if grid.is_candidate(k) {
        if grid.interior_at(x - 1, y) {
            assert(grid.sample_at(x - 1, y) is None);
        } else if grid.interior_at(x + 1, y) {
            assert(grid.sample_at(x + 1, y) is None);
        } else if grid.interior_at(x, y - 1) {
            assert(grid.sample_at(x, y - 1) is None);
        } else {
            assert(grid.sample_at(x, y + 1) is None);
        }
    }
    if grid.sample_at(x, y) is Some && exists|u: int, v: int|
        0 <= u < cols && 0 <= v < rows
            && (if u >= x { u - x } else { x - u }) + (if v >= y { v - y } else { y - v }) == 1
            && (#[trigger] grid.sample_at(u, v)) is None {
        let (u, v) = choose|u: int, v: int|
            0 <= u < cols && 0 <= v < rows
                && (if u >= x { u - x } else { x - u }) + (if v >= y { v - y } else { y - v }) == 1
                && (#[trigger] grid.sample_at(u, v)) is None;
        assert(grid.interior_at(u, v));
        assert(grid.spec_touches_interior(x, y));
    }
}

/// An entirely solid or entirely empty view has no boundary, so no target.
pub proof fn lemma_flat_grid_has_no_target(grid: IterationGrid)
    requires
        grid.wf(),
        (forall|k: int| 0 <= k < grid.spec_samples().len() ==> #[trigger] grid.spec_samples()[k] is None)
            || (forall|k: int| 0 <= k < grid.spec_samples().len() ==> #[trigger] grid.spec_samples()[k] is Some),
    ensures
        !grid.has_boundary(),
{
    if grid.has_boundary() {
        let k = choose|k: int| #[trigger] grid.is_candidate(k);
        let cols = grid.spec_cols() as int;
        lemma_split_position(k, cols, grid.spec_rows() as int);
        let x = k % cols;
        let y = k / cols;
        assert(grid.spec_samples()[k] is Some);
        if grid.interior_at(x - 1, y) {
            lemma_position_in_bounds(x - 1, y, cols, grid.spec_rows() as int);
        } else if grid.interior_at(x + 1, y) {
            lemma_position_in_bounds(x + 1, y, cols, grid.spec_rows() as int);
        } else if grid.interior_at(x, y - 1) {
            lemma_position_in_bounds(x, y - 1, cols, grid.spec_rows() as int);
        } else {
            lemma_position_in_bounds(x, y + 1, cols, grid.spec_rows() as int);
        }
    }
}

/// How many interior samples a run of samples holds when all of them are
/// interior, or none.
proof fn lemma_interior_count_of_flat(samples: Seq<Option<u32>>)
    ensures
        (forall|k: int| 0 <= k < samples.len() ==> #[trigger] samples[k] is None)
            ==> interior_count_of(samples) == samples.len(),
        (forall|k: int| 0 <= k < samples.len() ==> #[trigger] samples[k] is Some)
            ==> interior_count_of(samples) == 0,
    decreases samples.len(),
{
    if samples.len() > 0 {
        let rest = samples.drop_last();
        assert forall|k: int| 0 <= k < rest.len() implies rest[k] == samples[k] by {}
        lemma_interior_count_of_flat(rest);
    }
}

/// An entirely solid or entirely empty view is not interesting, and neither is
/// an empty one.
pub proof fn lemma_flat_grid_is_not_interesting(samples: Seq<Option<u32>>)
    requires
        (forall|k: int| 0 <= k < samples.len() ==> #[trigger] samples[k] is None)
            || (forall|k: int| 0 <= k < samples.len() ==> #[trigger] samples[k] is Some),
    ensures
        !interesting_fraction(interior_count_of(samples), samples.len()),
{
    lemma_interior_count_of_flat(samples);
}

/// A row-major position inside a `cols × rows` grid splits into a column
/// and a row inside it, and back.
proof fn lemma_split_position(k: int, cols: int, rows: int)
    requires
        0 <= k < cols * rows,
        0 <= cols,
        0 <= rows,
    ensures
        cols > 0,
        0 <= k % cols < cols,
        0 <= k / cols < rows,
        (k / cols) * cols + k % cols == k,
{
    assert(cols > 0) by (nonlinear_arith)
        requires
            0 <= k < cols * rows,
            0 <= cols,
            0 <= rows,
    ;
    vstd::arithmetic::div_mod::lemma_fundamental_div_mod(k, cols);
    vstd::arithmetic::div_mod::lemma_mod_bound(k, cols);
    vstd::arithmetic::div_mod::lemma_div_pos_is_pos(k, cols);
    let q = k / cols;
    let m = k % cols;
    assert(q * cols + m == k) by {
        vstd::arithmetic::mul::lemma_mul_is_commutative(q, cols);
    }
    assert(q < rows) by (nonlinear_arith)
        requires
            cols > 0,
            0 <= k < cols * rows,
            q * cols + m == k,
            0 <= m,
    ;
}

} // verus!
