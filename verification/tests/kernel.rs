use frascii::kernel::{FormulaKind, Kernel};

#[test]
fn cycling_formulas_visits_every_one_and_returns() {
    let mut formula = FormulaKind::default();
    let mut seen = vec![formula.parameter_name()];
    for _ in 1..FormulaKind::ALL.len() {
        formula = formula.next();
        seen.push(formula.parameter_name());
    }
    assert_eq!(
        seen,
        vec![
            "mandelbrot",
            "burning ship",
            "tricorn",
            "celtic",
            "multibrot³"
        ]
    );
    assert_eq!(formula.next(), FormulaKind::default(), "did not wrap");
}

#[test]
fn every_formula_has_both_planes_and_they_are_named_distinctly() {
    let mut names: Vec<&str> = Vec::new();
    for formula in FormulaKind::ALL {
        names.push(Kernel::<u8>::Parameter(formula).name());
        names.push(Kernel::Julia(formula, 0u8).name());
    }
    assert_eq!(names.len(), 10);
    names.sort_unstable();
    names.dedup();
    assert_eq!(names.len(), 10, "duplicate kernel name");
}

#[test]
fn flipping_twice_returns_to_the_parameter_plane() {
    let kernel: Kernel<u8> = Kernel::Parameter(FormulaKind::Tricorn);
    let julia = kernel.flip_plane(7);
    assert_eq!(julia, Kernel::Julia(FormulaKind::Tricorn, 7));
    assert!(julia.is_julia());
    assert_eq!(julia.formula(), FormulaKind::Tricorn);
    assert_eq!(julia.flip_plane(9), kernel);
}

#[test]
fn the_next_formula_stays_on_the_same_plane() {
    let parameter: Kernel<u8> = Kernel::Parameter(FormulaKind::Cubic);
    assert_eq!(parameter.next_formula(3), Kernel::Parameter(FormulaKind::Quadratic));
    let julia: Kernel<u8> = Kernel::Julia(FormulaKind::Quadratic, 1);
    assert_eq!(julia.next_formula(4), Kernel::Julia(FormulaKind::BurningShip, 4));
}

#[test]
fn same_kind_ignores_the_julia_parameter() {
    let a: Kernel<u8> = Kernel::Julia(FormulaKind::Celtic, 1);
    let b: Kernel<u8> = Kernel::Julia(FormulaKind::Celtic, 2);
    assert!(a.same_kind(&b));
    assert!(!a.same_kind(&Kernel::Parameter(FormulaKind::Celtic)));
    assert!(!a.same_kind(&Kernel::Julia(FormulaKind::Cubic, 1)));
    assert_eq!(Kernel::<u8>::default(), Kernel::Parameter(FormulaKind::Quadratic));
}

#[test]
fn flipping_the_plane_keeps_the_formula_and_is_reversible() {
    for formula in FormulaKind::ALL {
        let parameter: Kernel<u8> = Kernel::Parameter(formula);
        let julia = parameter.flip_plane(3);
        assert!(julia.is_julia(), "{} did not flip", formula.parameter_name());
        assert_eq!(julia.formula(), formula, "flip changed the formula");
        assert_eq!(julia.flip_plane(4), parameter);
    }
}

#[test]
fn a_parameter_plane_has_no_live_parameter() {
    for formula in FormulaKind::ALL {
        assert!(!Kernel::<u8>::Parameter(formula).is_julia());
        assert!(Kernel::Julia(formula, 0u8).is_julia());
    }
}

#[test]
fn switching_formula_on_a_julia_re_aims_rather_than_carrying_c_across() {
    let quadratic: Kernel<(i32, i32)> = Kernel::Julia(FormulaKind::Quadratic, (1, 2));
    let next = quadratic.next_formula((5, 6));
    assert_eq!(next.formula(), FormulaKind::BurningShip);
    assert!(next.is_julia(), "the plane must survive the switch");
    let Kernel::Julia(_, c) = next else {
        unreachable!("just asserted it is a Julia")
    };
    assert_eq!(c, (5, 6), "carried the old formula's parameter across");
}

#[test]
fn switching_formula_on_a_parameter_plane_stays_on_the_parameter_plane() {
    let kernel = Kernel::<u8>::default().next_formula(9);
    assert!(!kernel.is_julia());
    assert_eq!(kernel, Kernel::Parameter(FormulaKind::BurningShip));
}

#[test]
fn same_kind_ignores_the_parameter_but_equality_does_not() {
    let a: Kernel<u8> = Kernel::Julia(FormulaKind::Quadratic, 0);
    let b: Kernel<u8> = Kernel::Julia(FormulaKind::Quadratic, 7);
    assert!(a.same_kind(&b));
    assert_ne!(a, b, "equality must see the parameter");
    assert!(!a.same_kind(&Kernel::Julia(FormulaKind::Tricorn, 0)));
    assert!(!a.same_kind(&Kernel::default()));
}

#[test]
fn a_kernel_is_copy_and_comparable() {
    let a: Kernel<u8> = Kernel::Julia(FormulaKind::Celtic, 1);
    let b = a;
    assert_eq!(a, b);
    assert_eq!(a.name(), "celtic julia");
    assert_eq!(Kernel::<u8>::Parameter(FormulaKind::Cubic).name(), "multibrot³");
}

#[test]
fn next_fractal_walks_both_planes_of_every_formula() {
    let mut kernel: Kernel<u8> = Kernel::default();
    let mut names = Vec::new();
    for _ in 0..10 {
        names.push(kernel.name());
        kernel = kernel.next_fractal(1);
    }
    assert_eq!(kernel, Kernel::default(), "ten switches return to the start");
    assert_eq!(&names[..4], &["mandelbrot", "julia", "burning ship", "burning ship julia"]);
    let mut sorted = names.clone();
    sorted.sort_unstable();
    sorted.dedup();
    assert_eq!(sorted.len(), 10);
    assert_eq!(
        Kernel::<u8>::Parameter(FormulaKind::Cubic).next_fractal(5),
        Kernel::Julia(FormulaKind::Cubic, 5)
    );
}
