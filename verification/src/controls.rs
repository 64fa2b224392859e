//! What the keys change: the explorer's own state, stepped one action at a
//! time.
//!
//! The frontend reports each key as a [`Key`]; [`Controls::press`] changes
//! what is decided here — the palette, the rendering mode, the supersampling
//! factor, the iteration-limit adjustment and the motion switches — and
//! hands back the [`Effect`] the frontend still has to carry out on the
//! floating-point view: a pan, a zoom, a reset, a switch of fractal.

use vstd::prelude::*;

use crate::input::{Action, Flow, Key, action_for, action_of};
use crate::palette::{Palette, palette_count};
use crate::shade::CellMode;

verus! {

/// How many steps the iteration limit can be raised or lowered by, each a
/// doubling or halving of the viewport's suggestion.
pub const LIMIT_STEPS: i8 = 4;

/// The switches that change what moves and what is shown.
#[derive(Debug, Clone, Copy, PartialEq, Eq, Structural)]
pub struct Toggles {
    /// The full control list is shown.
    pub help: bool,
    /// The status bar is shown.
    pub status: bool,
    /// The palette drifts.
    pub cycling: bool,
    /// The Julia parameter walks its orbit.
    pub orbit: bool,
    /// The view dives toward the boundary unattended.
    pub diving: bool,
    /// All motion is paused.
    pub paused: bool,
}

/// What the frontend still has to do after a key, to the view it owns.
#[derive(Debug, Clone, Copy, PartialEq, Eq, Structural)]
pub enum Effect {
    /// Nothing beyond what the controls already changed.
    Nothing,
    /// Move the view by whole cells: `(across, down)`.
    Pan(i8, i8),
    /// Zoom in about the centre.
    ZoomIn,
    /// Zoom out about the centre.
    ZoomOut,
    /// Back to the current fractal's home view.
    Reset,
    /// Switch to the next fractal, keeping the plane.
    NextFractal,
    /// The orbit was just switched on: move to the Julia plane if not there,
    /// since orbiting a parameter the fractal does not have would look like
    /// the key did nothing.
    EnterOrbit,
    /// Leave the loop.
    Quit,
}

impl Effect {
    /// What the loop does after this effect.
    pub fn flow(self) -> (flow: Flow)
        ensures
            flow == (if self == Effect::Quit { Flow::Quit } else { Flow::Continue }),
    {
        match self {
            Effect::Quit => Flow::Quit,
            _ => Flow::Continue,
        }
    }
}

/// The switches after `action`: each toggle key flips its own switch, and
/// touching a navigation key stops the dive and hands over control.
pub open spec fn toggled(t: Toggles, action: Action) -> Toggles {
    match action {
        Action::Help => Toggles { help: !t.help, ..t },
        Action::Status => Toggles { status: !t.status, ..t },
        Action::Cycling => Toggles { cycling: !t.cycling, ..t },
        Action::Orbit => Toggles { orbit: !t.orbit, ..t },
        Action::AutoZoom => Toggles { diving: !t.diving, ..t },
        Action::Pause => Toggles { paused: !t.paused, ..t },
        Action::Pan(_, _) => Toggles { diving: false, ..t },
        Action::ZoomIn => Toggles { diving: false, ..t },
        Action::ZoomOut => Toggles { diving: false, ..t },
        Action::Reset => Toggles { diving: false, ..t },
        _ => t,
    }
}

/// What `action` leaves the frontend to do, given the switches before it.
pub open spec fn effect_of(t: Toggles, action: Action) -> Effect {
    match action {
        Action::Pan(dx, dy) => Effect::Pan(dx, dy),
        Action::ZoomIn => Effect::ZoomIn,
        Action::ZoomOut => Effect::ZoomOut,
        Action::Reset => Effect::Reset,
        Action::NextFractal => Effect::NextFractal,
        Action::Orbit => if t.orbit { Effect::Nothing } else { Effect::EnterOrbit },
        Action::Quit => Effect::Quit,
        _ => Effect::Nothing,
    }
}

/// The palette index after `action`: the next palette, wrapping, for `p`.
pub open spec fn next_palette_index(index: nat, action: Action) -> nat {
    if action == Action::NextPalette {
        ((index + 1) % palette_count()) as nat
    } else {
        index
    }
}

/// The rendering mode after `action`.
pub open spec fn next_mode(mode: CellMode, action: Action) -> CellMode {
    if action == Action::NextMode {
        mode.spec_toggled()
    } else {
        mode
    }
}

/// The supersampling factor after `action`: 1×, 2×, 3×, and round again.
pub open spec fn next_factor(factor: nat, action: Action) -> nat {
    if action == Action::NextSupersampling {
        if factor >= 3 { 1 } else { factor + 1 }
    } else {
        factor
    }
}

/// The iteration-limit adjustment after `action`, within
/// `-LIMIT_STEPS ..= LIMIT_STEPS`; a reset clears it.
pub open spec fn next_shift(shift: int, action: Action) -> int {
    match action {
        Action::RaiseLimit => if shift < LIMIT_STEPS { shift + 1 } else { shift },
        Action::LowerLimit => if shift > -LIMIT_STEPS { shift - 1 } else { shift },
        Action::Reset => 0,
        _ => shift,
    }
}

/// `limit` doubled `shift` times when raised, saturating at `u32::MAX`, or
/// halved `-shift` times when lowered, never below one.
pub open spec fn scaled_limit(limit: nat, shift: int) -> nat
    decreases (if shift >= 0 { shift } else { -shift }),
{
    if shift > 0 {
        let l = scaled_limit(limit, shift - 1);
        if 2 * l > u32::MAX { u32::MAX as nat } else { 2 * l }
    } else if shift < 0 {
        let l = scaled_limit(limit, shift + 1) / 2;
        if l == 0 { 1 } else { l }
    } else {
        limit
    }
}

/// The explorer's own state: everything a key changes that is not the
/// floating-point view.
#[derive(Debug, Clone, Copy)]
pub struct Controls {
    palette: usize,
    mode: CellMode,
    factor: usize,
    limit_shift: i8,
    toggles: Toggles,
}

impl Controls {
    /// Which palette is in use, by its place in the list.
    pub closed spec fn spec_palette(&self) -> nat {
        self.palette as nat
    }

    /// The rendering mode.
    pub closed spec fn spec_mode(&self) -> CellMode {
        self.mode
    }

    /// The supersampling factor.
    pub closed spec fn spec_factor(&self) -> nat {
        self.factor as nat
    }

    /// How many doublings (or, negative, halvings) of the suggested limit.
    pub closed spec fn spec_limit_shift(&self) -> int {
        self.limit_shift as int
    }

    /// The switches.
    pub closed spec fn spec_toggles(&self) -> Toggles {
        self.toggles
    }

    /// Every field within its range.
    pub open spec fn wf(&self) -> bool {
        &&& self.spec_palette() < palette_count()
        &&& 1 <= self.spec_factor() <= 3
        &&& -LIMIT_STEPS <= self.spec_limit_shift() <= LIMIT_STEPS
    }

    /// Whether `next` is what `action` makes of these controls.
    pub open spec fn steps_to(&self, action: Action, next: Controls) -> bool {
        &&& next.spec_palette() == next_palette_index(self.spec_palette(), action)
        &&& next.spec_mode() == next_mode(self.spec_mode(), action)
        &&& next.spec_factor() == next_factor(self.spec_factor(), action)
        &&& next.spec_limit_shift() == next_shift(self.spec_limit_shift(), action)
        &&& next.spec_toggles() == toggled(self.spec_toggles(), action)
    }

    /// The state at launch: the first palette, glyph rendering at 1×, the
    /// suggested limit, the status bar shown, and the dive and the palette
    /// drift already running, because a static first frame is not what a
    /// realtime renderer should open with.
    pub fn new() -> (controls: Controls)
        ensures
            controls.wf(),
            controls.spec_palette() == 0,
            controls.spec_mode() == CellMode::Glyph,
            controls.spec_factor() == 1,
            controls.spec_limit_shift() == 0,
            controls.spec_toggles() == (Toggles {
                help: false,
                status: true,
                cycling: true,
                orbit: false,
                diving: true,
                paused: false,
            }),
    {
        Controls {
            palette: 0,
            mode: CellMode::Glyph,
            factor: 1,
            limit_shift: 0,
            toggles: Toggles {
                help: false,
                status: true,
                cycling: true,
                orbit: false,
                diving: true,
                paused: false,
            },
        }
    }

    /// Carry out `action` on the controls, and say what the frontend has
    /// left to do.
    pub fn apply(&mut self, action: Action) -> (effect: Effect)
        requires
            old(self).wf(),
        ensures
            final(self).wf(),
            old(self).steps_to(action, *final(self)),
            effect == effect_of(old(self).spec_toggles(), action),
    {
        let t = self.toggles;
        let effect = match action {
            Action::Pan(dx, dy) => Effect::Pan(dx, dy),
            Action::ZoomIn => Effect::ZoomIn,
            Action::ZoomOut => Effect::ZoomOut,
            Action::Reset => Effect::Reset,
            Action::NextFractal => Effect::NextFractal,
            Action::Orbit => if t.orbit { Effect::Nothing } else { Effect::EnterOrbit },
            Action::Quit => Effect::Quit,
            _ => Effect::Nothing,
        };
        match action {
            Action::NextPalette => {
                self.palette = if self.palette + 1 >= 9 { 0 } else { self.palette + 1 };
            },
            Action::NextMode => {
                self.mode = self.mode.toggled();
            },
            Action::NextSupersampling => {
                self.factor = if self.factor >= 3 { 1 } else { self.factor + 1 };
            },
            Action::RaiseLimit => {
                if self.limit_shift < LIMIT_STEPS {
                    self.limit_shift = self.limit_shift + 1;
                }
            },
            Action::LowerLimit => {
                if self.limit_shift > -LIMIT_STEPS {
                    self.limit_shift = self.limit_shift - 1;
                }
            },
            Action::Reset => {
                self.limit_shift = 0;
                self.toggles.diving = false;
            },
            Action::Help => {
                self.toggles.help = !t.help;
            },
            Action::Status => {
                self.toggles.status = !t.status;
            },
            Action::Cycling => {
                self.toggles.cycling = !t.cycling;
            },
            Action::Orbit => {
                self.toggles.orbit = !t.orbit;
            },
            Action::AutoZoom => {
                self.toggles.diving = !t.diving;
            },
            Action::Pause => {
                self.toggles.paused = !t.paused;
            },
            Action::Pan(_, _) => {
                self.toggles.diving = false;
            },
            Action::ZoomIn => {
                self.toggles.diving = false;
            },
            Action::ZoomOut => {
                self.toggles.diving = false;
            },
            _ => {},
        }
        effect
    }

    /// Handle one key event: its bound action, if it has one, and nothing
    /// at all otherwise.
    pub fn press(&mut self, key: Key) -> (effect: Effect)
        requires
            old(self).wf(),
        ensures
            final(self).wf(),
            match action_of(key) {
                Some(action) => {
                    &&& old(self).steps_to(action, *final(self))
                    &&& effect == effect_of(old(self).spec_toggles(), action)
                },
                None => *final(self) == *old(self) && effect == Effect::Nothing,
            },
    {
        match action_for(key) {
            Some(action) => self.apply(action),
            None => Effect::Nothing,
        }
    }

    /// The palette in use.
    pub fn palette(&self) -> (palette: Palette)
        requires
            self.wf(),
        ensures
            palette.is_nth(self.spec_palette() as int),
    {
        Palette::nth(self.palette)
    }

    /// The palette in use, by its place in the list.
    pub fn palette_index(&self) -> (index: usize)
        ensures
            index == self.spec_palette(),
    {
        self.palette
    }

    /// The rendering mode.
    pub fn mode(&self) -> (mode: CellMode)
        ensures
            mode == self.spec_mode(),
    {
        self.mode
    }

    /// The supersampling factor.
    pub fn factor(&self) -> (factor: usize)
        requires
            self.wf(),
        ensures
            factor == self.spec_factor(),
            1 <= factor <= 3,
    {
        self.factor
    }

    /// The switches.
    pub fn toggles(&self) -> (toggles: Toggles)
        ensures
            toggles == self.spec_toggles(),
    {
        self.toggles
    }

    /// The iteration limit to use, given the viewport's suggestion: doubled
    /// for each raise, halved for each lowering.
    pub fn limit(&self, suggested: u32) -> (limit: u32)
        requires
            self.wf(),
        ensures
            limit == scaled_limit(suggested as nat, self.spec_limit_shift()),
    {
        let mut limit = suggested;
        if self.limit_shift >= 0 {
            let steps = self.limit_shift;
            let mut i: i8 = 0;
            while i < steps
                invariant
                    0 <= i <= steps,
                    steps == self.spec_limit_shift(),
                    limit == scaled_limit(suggested as nat, i as int),
                decreases steps - i,
            {
                limit = if limit > u32::MAX / 2 { u32::MAX } else { 2 * limit };
                i = i + 1;
            }
        } else {
            let steps = self.limit_shift;
            let mut i: i8 = 0;
            while i > steps
                invariant
                    steps <= i <= 0,
                    steps == self.spec_limit_shift(),
                    -LIMIT_STEPS <= steps,
                    limit == scaled_limit(suggested as nat, i as int),
                decreases i - steps,
            {
                let half = limit / 2;
                limit = if half == 0 { 1 } else { half };
                i = i - 1;
            }
        }
        limit
    }
}

/// How many samples one pan key moves the view along an axis `extent`
/// samples long: a tenth of the view, so panning feels the same at every
/// depth, and never less than one sample.
pub fn pan_distance(extent: usize) -> (distance: usize)
    ensures
        distance == (if extent / 10 == 0 { 1 } else { extent / 10 }),
        distance >= 1,
{
    let tenth = extent / 10;
    if tenth == 0 { 1 } else { tenth }
}

impl Default for Controls {
    /// The state at launch.
    fn default() -> (controls: Controls)
        ensures
            controls.wf(),
            controls.spec_palette() == 0,
            controls.spec_mode() == CellMode::Glyph,
            controls.spec_factor() == 1,
            controls.spec_limit_shift() == 0,
            controls.spec_toggles() == (Toggles {
                help: false,
                status: true,
                cycling: true,
                orbit: false,
                diving: true,
                paused: false,
            }),
    {
        Controls::new()
    }
}

/// Pressing `p` moves to the next palette, wrapping after the last, and
/// changes nothing else: the loop continues and the view is left alone.
pub proof fn lemma_p_selects_the_next_palette(before: Controls, after: Controls, key: Key)
    requires
        before.wf(),
        key.press,
        key.code == crate::input::KeyCode::Char('p'),
        before.steps_to(action_of(key)->0, after),
    ensures
        action_of(key) == Some(Action::NextPalette),
        after.spec_palette() == (before.spec_palette() + 1) % palette_count(),
        after.spec_mode() == before.spec_mode(),
        after.spec_factor() == before.spec_factor(),
        after.spec_toggles() == before.spec_toggles(),
        effect_of(before.spec_toggles(), Action::NextPalette) == Effect::Nothing,
{
}

/// Pressing a step key as many times as it has settings comes back round:
/// nine palettes, two modes, three supersampling factors.
pub proof fn lemma_cycles_come_back_round(index: nat, mode: CellMode, factor: nat)
    requires
        index < palette_count(),
        1 <= factor <= 3,
    ensures
        next_mode(next_mode(mode, Action::NextMode), Action::NextMode) == mode,
        next_factor(next_factor(next_factor(factor, Action::NextSupersampling), Action::NextSupersampling),
            Action::NextSupersampling) == factor,
        next_palette_index(index, Action::NextPalette) < palette_count(),
        next_factor(factor, Action::NextSupersampling) <= 3,
{
}

/// Navigating by hand always stops the dive, and `z` starts it again.
pub proof fn lemma_navigation_stops_the_dive(t: Toggles, action: Action)
    ensures
        (action is Pan || action == Action::ZoomIn || action == Action::ZoomOut || action == Action::Reset)
            ==> !toggled(t, action).diving,
        !t.diving ==> toggled(t, Action::AutoZoom).diving,
{
}

/// Raising the limit never lowers it and lowering never raises it; the
/// adjusted limit is never zero unless the suggestion was, and a raise
/// saturates rather than wrapping.
pub proof fn lemma_limit_moves_the_right_way(limit: nat, shift: int)
    requires
        1 <= limit <= u32::MAX,
        -LIMIT_STEPS <= shift <= LIMIT_STEPS,
    ensures
        1 <= scaled_limit(limit, shift) <= u32::MAX,
        shift >= 0 ==> scaled_limit(limit, shift) >= limit,
        shift <= 0 ==> scaled_limit(limit, shift) <= limit,
    decreases (if shift >= 0 { shift } else { -shift }),
{
    if shift > 0 {
        lemma_limit_moves_the_right_way(limit, shift - 1);
    } else if shift < 0 {
        lemma_limit_moves_the_right_way(limit, shift + 1);
    }
}

/// Whatever the switches, every navigation key asks the frontend for exactly
/// the move it names — a pan by the same cells, zoom in for zoom in and zoom
/// out for zoom out — and the two zooms, like any two different pans, ask
/// for different things; the keys that only change the controls ask the
/// frontend for nothing, and only quitting quits.
pub proof fn lemma_effects_do_what_the_key_says(t: Toggles, action: Action)
    ensures
        effect_of(t, Action::ZoomIn) == Effect::ZoomIn,
        effect_of(t, Action::ZoomOut) == Effect::ZoomOut,
        effect_of(t, Action::ZoomIn) != effect_of(t, Action::ZoomOut),
        effect_of(t, Action::Reset) == Effect::Reset,
        effect_of(t, Action::NextFractal) == Effect::NextFractal,
        effect_of(t, Action::Quit) == Effect::Quit,
        action matches Action::Pan(dx, dy) ==> effect_of(t, action) == Effect::Pan(dx, dy),
        (effect_of(t, action) == Effect::Quit) <==> action == Action::Quit,
        (action == Action::NextPalette || action == Action::NextMode || action == Action::NextSupersampling
            || action == Action::RaiseLimit || action == Action::LowerLimit || action == Action::Help
            || action == Action::Status || action == Action::Cycling || action == Action::AutoZoom
            || action == Action::Pause) ==> effect_of(t, action) == Effect::Nothing,
{
}

/// The `-` key zooms out and the `+` and `=` keys zoom in, whatever the
/// switches and whether or not Control is held.
pub proof fn lemma_zoom_keys(t: Toggles, control: bool)
    ensures
        effect_of(t, action_of(crate::input::pressed(crate::input::KeyCode::Char('-'), control))->0)
            == Effect::ZoomOut,
        effect_of(t, action_of(crate::input::pressed(crate::input::KeyCode::Char('+'), control))->0)
            == Effect::ZoomIn,
        effect_of(t, action_of(crate::input::pressed(crate::input::KeyCode::Char('='), control))->0)
            == Effect::ZoomIn,
{
    crate::input::lemma_keyboard_table(control);
}

/// One raise doubles the limit, saturating at `u32::MAX`; one lowering
/// halves it, rounding down but never below one; with no adjustment the
/// suggestion stands.
pub proof fn lemma_one_step_doubles_or_halves(limit: nat)
    ensures
        scaled_limit(limit, 0) == limit,
        scaled_limit(limit, 1) == (if 2 * limit > u32::MAX { u32::MAX as nat } else { 2 * limit }),
        scaled_limit(limit, -1) == (if limit / 2 == 0 { 1 } else { limit / 2 }),
{
}

} // verus!
