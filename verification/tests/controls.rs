use frascii::controls::{pan_distance, Controls, Effect};
use frascii::input::{Action, Flow, Key, KeyCode};
use frascii::palette::Palette;
use frascii::shade::CellMode;

fn press(c: char) -> Key {
    Key { code: KeyCode::Char(c), control_only: false, press: true }
}

#[test]
fn p_selects_the_next_palette_and_continues() {
    let mut controls = Controls::new();
    for i in 0..Palette::count() * 2 {
        assert_eq!(controls.palette().name(), Palette::nth(i).name());
        let effect = controls.press(press('p'));
        assert_eq!(effect, Effect::Nothing);
        assert_eq!(effect.flow(), Flow::Continue);
        assert_eq!(
            controls.palette().name(),
            Palette::nth((i + 1) % Palette::count()).name()
        );
    }
}

#[test]
fn the_launch_state_dives_and_drifts() {
    let controls = Controls::default();
    assert_eq!(controls.palette_index(), 0);
    assert_eq!(controls.mode(), CellMode::Glyph);
    assert_eq!(controls.factor(), 1);
    let t = controls.toggles();
    assert!(t.diving && t.cycling && t.status);
    assert!(!t.orbit && !t.paused && !t.help);
    assert_eq!(controls.limit(500), 500);
}

#[test]
fn m_and_s_step_the_rendering() {
    let mut controls = Controls::new();
    controls.press(press('m'));
    assert_eq!(controls.mode(), CellMode::HalfBlock);
    controls.press(press('m'));
    assert_eq!(controls.mode(), CellMode::Glyph);
    let factors: Vec<usize> = (0..4)
        .map(|_| {
            controls.press(press('s'));
            controls.factor()
        })
        .collect();
    assert_eq!(factors, vec![2, 3, 1, 2]);
}

#[test]
fn navigation_stops_the_dive_and_z_restarts_it() {
    let mut controls = Controls::new();
    assert_eq!(controls.press(press('h')), Effect::Pan(-1, 0));
    assert!(!controls.toggles().diving);
    controls.press(press('z'));
    assert!(controls.toggles().diving);
    assert_eq!(controls.press(press('+')), Effect::ZoomIn);
    assert!(!controls.toggles().diving);
    assert_eq!(
        controls.press(Key { code: KeyCode::Down, control_only: false, press: true }),
        Effect::Pan(0, 1)
    );
    assert_eq!(controls.press(press('r')), Effect::Reset);
}

#[test]
fn the_limit_doubles_and_halves_within_bounds() {
    let mut controls = Controls::new();
    controls.press(press('.'));
    assert_eq!(controls.limit(300), 600);
    for _ in 0..10 {
        controls.press(press('.'));
    }
    assert_eq!(controls.limit(300), 300 * 16);
    assert_eq!(controls.limit(u32::MAX), u32::MAX);
    controls.press(press('r'));
    assert_eq!(controls.limit(300), 300);
    for _ in 0..10 {
        controls.press(press(','));
    }
    assert_eq!(controls.limit(300), 300 / 16);
    assert_eq!(controls.limit(3), 1);
}

#[test]
fn the_orbit_asks_for_the_julia_plane_only_when_it_starts() {
    let mut controls = Controls::new();
    assert_eq!(controls.press(press('o')), Effect::EnterOrbit);
    assert!(controls.toggles().orbit);
    assert_eq!(controls.press(press('o')), Effect::Nothing);
    assert!(!controls.toggles().orbit);
}

#[test]
fn toggles_flip_and_quitting_quits() {
    let mut controls = Controls::new();
    controls.press(press(' '));
    assert!(controls.toggles().paused);
    controls.press(press('c'));
    assert!(!controls.toggles().cycling);
    controls.press(press('?'));
    controls.press(press('i'));
    assert!(controls.toggles().help && !controls.toggles().status);
    assert_eq!(controls.press(press('f')), Effect::NextFractal);
    assert_eq!(
        controls.press(Key { code: KeyCode::Tab, control_only: false, press: true }),
        Effect::NextFractal
    );
    assert_eq!(controls.press(press('x')), Effect::Nothing);
    let released = Key { code: KeyCode::Char('p'), control_only: false, press: false };
    assert_eq!(controls.press(released), Effect::Nothing);
    assert_eq!(controls.palette_index(), 0);
    assert_eq!(controls.press(press('q')), Effect::Quit);
    assert_eq!(Effect::Quit.flow(), Flow::Quit);
    assert_eq!(controls.apply(Action::NextPalette), Effect::Nothing);
    assert_eq!(controls.palette_index(), 1);
}

#[test]
fn a_pan_moves_a_tenth_of_the_view() {
    assert_eq!(pan_distance(200), 20);
    assert_eq!(pan_distance(105), 10);
    assert_eq!(pan_distance(9), 1);
    assert_eq!(pan_distance(0), 1);
}
