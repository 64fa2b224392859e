use frascii::shade::CellMode;

#[test]
fn glyph_mode_is_one_sample_per_cell() {
    assert_eq!(CellMode::Glyph.subdivisions(), (1, 1));
    assert_eq!(CellMode::Glyph.lattice(80, 24), (80, 24));
}

#[test]
fn the_default_mode_is_glyph_and_its_lattice_covers_its_cells() {
    let mode = CellMode::default();
    assert_eq!(mode, CellMode::Glyph);
    let (cols, rows) = mode.lattice(13, 7);
    assert_eq!(mode.cells_covered(cols, rows), (13, 7));
    assert_eq!(mode.lattice(0, 0), (0, 0));
}

#[test]
fn half_block_mode_stacks_two_samples_per_cell() {
    assert_eq!(CellMode::HalfBlock.subdivisions(), (1, 2));
    assert_eq!(CellMode::HalfBlock.lattice(80, 24), (80, 48));
    assert_eq!(CellMode::Glyph.toggled(), CellMode::HalfBlock);
    assert_eq!(CellMode::HalfBlock.toggled(), CellMode::Glyph);
}

#[test]
fn supersampling_multiplies_the_block() {
    assert_eq!(CellMode::Glyph.block(3), (3, 3));
    assert_eq!(CellMode::HalfBlock.block(2), (2, 4));
    assert_eq!(CellMode::HalfBlock.lattice_at(2, 10, 5), (20, 20));
    assert_eq!(CellMode::HalfBlock.cells_at(2, 20, 20), (10, 5));
    assert_eq!(CellMode::Glyph.cells_at(3, 31, 8), (10, 2));
}
