//! A run-time choice of fractal that is still cheap to compare.
//!
//! The formula and the *plane* are independent choices: every formula has both
//! a parameter plane and a family of Julia sets. Five formulas times two planes
//! is ten fractals from two small enums.

use vstd::prelude::*;

verus! {

/// Which formula to iterate.
#[derive(Debug, Clone, Copy, PartialEq, Eq, Structural)]
pub enum FormulaKind {
    /// `z → z² + c`.
    Quadratic,
    /// `z → (|Re z| + i|Im z|)² + c`.
    BurningShip,
    /// `z → conj(z)² + c`.
    Tricorn,
    /// `z → |Re(z²)| + i·Im(z²) + c`.
    Celtic,
    /// `z → z³ + c`.
    Cubic,
}

/// How many formulas there are.
pub open spec fn formula_count() -> nat {
    5
}

/// The formula at `position` in switching order, wrapping.
pub open spec fn formula_at(position: int) -> FormulaKind {
    let p = position % 5;
    if p == 0 {
        FormulaKind::Quadratic
    } else if p == 1 {
        FormulaKind::BurningShip
    } else if p == 2 {
        FormulaKind::Tricorn
    } else if p == 3 {
        FormulaKind::Celtic
    } else {
        FormulaKind::Cubic
    }
}

/// The formula reached from `start` after `steps` switches.
pub open spec fn advanced(start: FormulaKind, steps: nat) -> FormulaKind
    decreases steps,
{
    if steps == 0 {
        start
    } else {
        advanced(start, (steps - 1) as nat).spec_next()
    }
}

/// Whether switching from `start` reaches `f` in fewer than five switches.
pub open spec fn reached_within_a_cycle(start: FormulaKind, f: FormulaKind) -> bool {
    exists|i: nat| i < 5 && #[trigger] advanced(start, i) == f
}

/// The name of a formula's parameter-plane set.
pub open spec fn parameter_name_of(formula: FormulaKind) -> Seq<char> {
    match formula {
        FormulaKind::Quadratic => "mandelbrot"@,
        FormulaKind::BurningShip => "burning ship"@,
        FormulaKind::Tricorn => "tricorn"@,
        FormulaKind::Celtic => "celtic"@,
        FormulaKind::Cubic => "multibrot³"@,
    }
}

/// The name of a formula's Julia family.
pub open spec fn julia_name_of(formula: FormulaKind) -> Seq<char> {
    match formula {
        FormulaKind::Quadratic => "julia"@,
        FormulaKind::BurningShip => "burning ship julia"@,
        FormulaKind::Tricorn => "tricorn julia"@,
        FormulaKind::Celtic => "celtic julia"@,
        FormulaKind::Cubic => "cubic julia"@,
    }
}

impl FormulaKind {
    /// Every formula, in switching order.
    pub const ALL: [FormulaKind; 5] = [
        FormulaKind::Quadratic,
        FormulaKind::BurningShip,
        FormulaKind::Tricorn,
        FormulaKind::Celtic,
        FormulaKind::Cubic,
    ];

    /// Where this formula sits in switching order.
    pub open spec fn position(self) -> nat {
        match self {
            FormulaKind::Quadratic => 0,
            FormulaKind::BurningShip => 1,
            FormulaKind::Tricorn => 2,
            FormulaKind::Celtic => 3,
            FormulaKind::Cubic => 4,
        }
    }

    /// The next formula in switching order, wrapping after the last.
    pub open spec fn spec_next(self) -> FormulaKind {
        formula_at(self.position() as int + 1)
    }

    /// The next formula in switching order.
    pub fn next(self) -> (f: FormulaKind)
        ensures
            f == self.spec_next(),
            f.position() == (self.position() + 1) % 5,
    {
        match self {
            FormulaKind::Quadratic => FormulaKind::BurningShip,
            FormulaKind::BurningShip => FormulaKind::Tricorn,
            FormulaKind::Tricorn => FormulaKind::Celtic,
            FormulaKind::Celtic => FormulaKind::Cubic,
            FormulaKind::Cubic => FormulaKind::Quadratic,
        }
    }

    /// The name of this formula's *parameter plane* set.
    ///
    /// The quadratic's is "mandelbrot" and the cubic's "multibrot³" because
    /// those are what people call them; the rest are named after the formula.
    pub fn parameter_name(self) -> (name: &'static str)
        ensures
            name@ == parameter_name_of(self),
    {
        match self {
            FormulaKind::Quadratic => "mandelbrot",
            FormulaKind::BurningShip => "burning ship",
            FormulaKind::Tricorn => "tricorn",
            FormulaKind::Celtic => "celtic",
            FormulaKind::Cubic => "multibrot³",
        }
    }

    /// The name of this formula's Julia family.
    pub fn julia_name(self) -> (name: &'static str)
        ensures
            name@ == julia_name_of(self),
    {
        match self {
            FormulaKind::Quadratic => "julia",
            FormulaKind::BurningShip => "burning ship julia",
            FormulaKind::Tricorn => "tricorn julia",
            FormulaKind::Celtic => "celtic julia",
            FormulaKind::Cubic => "cubic julia",
        }
    }
}

impl Default for FormulaKind {
    /// The quadratic: the Mandelbrot set's formula.
    fn default() -> (f: FormulaKind)
        ensures
            f == FormulaKind::Quadratic,
    {
        FormulaKind::Quadratic
    }
}

/// Which fractal to sample: a formula, and which of its two planes.
///
/// Generic over the Julia parameter so the choice stays `Copy + PartialEq`
/// whatever number type carries `c`; everything decided here is about the
/// formula and the plane, never about the value of `c`.
#[derive(Debug, Clone, Copy, PartialEq)]
pub enum Kernel<C> {
    /// A formula's parameter plane: `z₀ = 0`, and the sampled point is `c`.
    Parameter(FormulaKind),
    /// One of a formula's Julia sets: the sampled point is `z₀`.
    Julia(FormulaKind, C),
}

impl<C> Kernel<C> {
    /// The formula a kernel iterates.
    pub open spec fn spec_formula(self) -> FormulaKind {
        match self {
            Kernel::Parameter(formula) => formula,
            Kernel::Julia(formula, _) => formula,
        }
    }

    /// The same formula seen in its other plane: a parameter plane flips to
    /// the Julia set at `start`, a Julia set back to its parameter plane.
    pub open spec fn flipped(self, start: C) -> Kernel<C> {
        match self {
            Kernel::Parameter(formula) => Kernel::Julia(formula, start),
            Kernel::Julia(formula, _) => Kernel::<C>::Parameter(formula),
        }
    }

    /// The same plane with the next formula; a Julia set lands on `start`.
    pub open spec fn with_next_formula(self, start: C) -> Kernel<C> {
        match self {
            Kernel::Parameter(formula) => Kernel::<C>::Parameter(formula.spec_next()),
            Kernel::Julia(formula, _) => Kernel::Julia(formula.spec_next(), start),
        }
    }

    /// The next fractal in switching order: a formula's parameter plane,
    /// then its Julia set at `start`, then the next formula's parameter
    /// plane — all ten, and round again.
    pub open spec fn next_fractal_of(self, start: C) -> Kernel<C> {
        match self {
            Kernel::Parameter(formula) => Kernel::Julia(formula, start),
            Kernel::Julia(formula, _) => Kernel::<C>::Parameter(formula.spec_next()),
        }
    }

    /// The name a kernel shows on a status line.
    pub open spec fn name_of(self) -> Seq<char> {
        match self {
            Kernel::Parameter(formula) => parameter_name_of(formula),
            Kernel::Julia(formula, _) => julia_name_of(formula),
        }
    }

    /// Which formula this kernel iterates.
    pub fn formula(&self) -> (f: FormulaKind)
        ensures
            f == self.spec_formula(),
    {
        match self {
            Kernel::Parameter(formula) => *formula,
            Kernel::Julia(formula, _) => *formula,
        }
    }

    /// Whether this kernel has a live `c` the UI can move.
    ///
    /// A parameter plane has none — the sampled point *is* `c`.
    pub fn is_julia(&self) -> (b: bool)
        ensures
            b == self is Julia,
    {
        match self {
            Kernel::Parameter(_) => false,
            Kernel::Julia(..) => true,
        }
    }

    /// The same formula seen in its other plane.
    ///
    /// Switching to a Julia set lands on `start`, which a caller takes from
    /// the start of that formula's own parameter orbit, so the flip always
    /// shows a set worth looking at. Switching back drops the parameter.
    pub fn flip_plane(self, start: C) -> (k: Kernel<C>)
        ensures
            k == self.flipped(start),
    {
        match self {
            Kernel::Parameter(formula) => Kernel::Julia(formula, start),
            Kernel::Julia(formula, _) => Kernel::Parameter(formula),
        }
    }

    /// The same plane, with the next formula.
    ///
    /// A Julia `c` belongs to the formula it was measured for, so it is not
    /// carried across: a Julia kernel lands on `start`, which a caller takes
    /// from the start of the *next* formula's own orbit.
    pub fn next_formula(self, start: C) -> (k: Kernel<C>)
        ensures
            k == self.with_next_formula(start),
    {
        match self {
            Kernel::Parameter(formula) => Kernel::Parameter(formula.next()),
            Kernel::Julia(formula, _) => Kernel::Julia(formula.next(), start),
        }
    }

    /// The next fractal in switching order, through both planes of every
    /// formula: a parameter plane moves to its Julia set, landing on
    /// `start`, which a caller takes from that formula's own orbit; a Julia
    /// set moves to the next formula's parameter plane.
    pub fn next_fractal(self, start: C) -> (k: Kernel<C>)
        ensures
            k == self.next_fractal_of(start),
    {
        match self {
            Kernel::Parameter(formula) => Kernel::Julia(formula, start),
            Kernel::Julia(formula, _) => Kernel::Parameter(formula.next()),
        }
    }

    /// Whether two kernels are the same fractal, ignoring parameters.
    ///
    /// Distinct from `PartialEq`, which compares parameters too: the UI needs
    /// to recognise "the Julia of this formula" even when `c` has since moved.
    pub fn same_kind(&self, other: &Kernel<C>) -> (b: bool)
        ensures
            b == ((self is Parameter) == (other is Parameter)
                && self.spec_formula() == other.spec_formula()),
    {
        match (self, other) {
            (Kernel::Parameter(a), Kernel::Parameter(b)) => *a == *b,
            (Kernel::Julia(a, _), Kernel::Julia(b, _)) => *a == *b,
            _ => false,
        }
    }

    /// The kernel's name, for a status line.
    pub fn name(&self) -> (name: &'static str)
        ensures
            name@ == self.name_of(),
    {
        match self {
            Kernel::Parameter(formula) => formula.parameter_name(),
            Kernel::Julia(formula, _) => formula.julia_name(),
        }
    }
}

impl<C> Default for Kernel<C> {
    /// The Mandelbrot set — the quadratic's parameter plane.
    fn default() -> (k: Kernel<C>)
        ensures
            k == Kernel::<C>::Parameter(FormulaKind::Quadratic),
    {
        Kernel::Parameter(FormulaKind::Quadratic)
    }
}

/// The formula `steps` switches on from `start` sits `steps` places further
/// round the cycle.
proof fn lemma_advanced_position(start: FormulaKind, steps: nat)
    ensures
        advanced(start, steps).position() == (start.position() + steps) % 5,
    decreases steps,
{
    if steps > 0 {
        lemma_advanced_position(start, (steps - 1) as nat);
    }
}

/// A formula is determined by its position.
proof fn lemma_position_is_injective(f: FormulaKind, g: FormulaKind)
    ensures
        f.position() == g.position() <==> f == g,
{
}

/// Switching formulas five times returns to the start, and visits every
/// formula exactly once on the way.
pub proof fn lemma_cycling_visits_every_formula_and_returns(start: FormulaKind)
    ensures
        advanced(start, 5) == start,
        forall|i: nat, j: nat| i < j < 5 ==> #[trigger] advanced(start, i) != #[trigger] advanced(start, j),
        forall|f: FormulaKind| #[trigger] reached_within_a_cycle(start, f),
{
    lemma_advanced_position(start, 5);
    lemma_position_is_injective(advanced(start, 5), start);
    assert forall|i: nat, j: nat| i < j < 5 implies #[trigger] advanced(start, i) != #[trigger] advanced(start, j) by {
        lemma_advanced_position(start, i);
        lemma_advanced_position(start, j);
    }
    assert forall|f: FormulaKind| #[trigger] reached_within_a_cycle(start, f) by {
        let d = ((f.position() + 5 - start.position()) % 5) as nat;
        lemma_advanced_position(start, d);
        lemma_position_is_injective(advanced(start, d), f);
    }
}

/// Flipping a kernel's plane twice returns to the same kind of fractal on
/// the same formula, and a parameter plane returns exactly, whatever `c` the
/// Julia side was given; a flip always changes the plane and never the
/// formula.
pub proof fn lemma_flip_is_reversible<C>(kernel: Kernel<C>, c: C, d: C)
    ensures
        kernel.flipped(c).spec_formula() == kernel.spec_formula(),
        (kernel.flipped(c) is Julia) != (kernel is Julia),
        kernel.flipped(c).flipped(d).spec_formula() == kernel.spec_formula(),
        (kernel.flipped(c).flipped(d) is Julia) == (kernel is Julia),
        kernel is Parameter ==> kernel.flipped(c).flipped(d) == kernel,
{
}

/// Switching formula keeps the plane and moves to the next formula in
/// switching order.
pub proof fn lemma_next_formula_keeps_the_plane<C>(kernel: Kernel<C>, c: C)
    ensures
        (kernel.with_next_formula(c) is Julia) == (kernel is Julia),
        kernel.with_next_formula(c).spec_formula() == kernel.spec_formula().spec_next(),
{
}

/// Where a kernel stands in fractal switching order: both planes of each
/// formula in turn.
pub open spec fn kernel_position<C>(k: Kernel<C>) -> nat {
    match k {
        Kernel::Parameter(f) => 2 * f.position(),
        Kernel::Julia(f, _) => 2 * f.position() + 1,
    }
}

/// Switching fractal moves one place round the ten, so ten switches visit
/// every kind of fractal once and return to where they started.
pub proof fn lemma_next_fractal_walks_all_ten<C>(k: Kernel<C>, c: C)
    ensures
        kernel_position(k.next_fractal_of(c)) == (kernel_position(k) + 1) % 10,
        kernel_position(k) < 10,
        (k.next_fractal_of(c) is Julia) != (k is Julia),
{
}

/// The ten kernels are named distinctly: two kernels share a name exactly
/// when they are the same kind of fractal.
pub proof fn lemma_kernel_names_are_distinct<C>(a: Kernel<C>, b: Kernel<C>)
    ensures
        a.name_of() == b.name_of() <==> ((a is Parameter) == (b is Parameter)
            && a.spec_formula() == b.spec_formula()),
{
    reveal_strlit("mandelbrot");
    reveal_strlit("burning ship");
    reveal_strlit("tricorn");
    reveal_strlit("celtic");
    reveal_strlit("multibrot³");
    reveal_strlit("julia");
    reveal_strlit("burning ship julia");
    reveal_strlit("tricorn julia");
    reveal_strlit("celtic julia");
    reveal_strlit("cubic julia");
    if a.name_of() == b.name_of() {
        let s = a.name_of();
        let t = b.name_of();
        assert(s.len() == t.len());
        assert(s[0] == t[0]);
        if s.len() > 1 {
            assert(s[1] == t[1]);
        }
        if s.len() > 7 {
            assert(s[7] == t[7]);
        }
    }
}

} // verus!
