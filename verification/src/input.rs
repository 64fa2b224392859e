//! Deciding what a key press means.
//!
//! Pure with respect to the terminal: the frontend reports each key event as a
//! [`Key`] and acts on the [`Flow`] that comes back.

use vstd::prelude::*;

verus! {

/// What the loop should do after handling an event.
///
/// An enum rather than a `bool` so a third loop-level outcome is an addition
/// rather than a second flag. It must not become a command channel: a variant
/// is warranted only when the *loop* must genuinely behave differently.
#[derive(Debug, Clone, Copy, PartialEq, Eq, Structural)]
pub enum Flow {
    /// Keep running.
    Continue,
    /// Leave the loop and restore the terminal.
    Quit,
}

/// Which key an event is about.
#[derive(Debug, Clone, Copy, PartialEq, Eq, Structural)]
pub enum KeyCode {
    /// A character key.
    Char(char),
    /// Escape.
    Esc,
    /// Tab.
    Tab,
    /// The left arrow.
    Left,
    /// The right arrow.
    Right,
    /// The up arrow.
    Up,
    /// The down arrow.
    Down,
    /// Any other key.
    Other,
}

/// One key event, as the dispatch reads it.
#[derive(Debug, Clone, Copy, PartialEq, Eq, Structural)]
pub struct Key {
    /// Which key.
    pub code: KeyCode,
    /// Whether Control, and no other modifier, was held.
    pub control_only: bool,
    /// Whether this is a press, rather than a release or an auto-repeat.
    pub press: bool,
}

/// What a key asks the explorer to do.
#[derive(Debug, Clone, Copy, PartialEq, Eq, Structural)]
pub enum Action {
    /// Move the view by whole cells: `(across, down)`, each -1, 0 or 1.
    Pan(i8, i8),
    /// Zoom in.
    ZoomIn,
    /// Zoom out.
    ZoomOut,
    /// Raise the iteration limit.
    RaiseLimit,
    /// Lower the iteration limit.
    LowerLimit,
    /// Reset the view.
    Reset,
    /// Switch to the next fractal.
    NextFractal,
    /// Switch to the next palette.
    NextPalette,
    /// Switch between glyph and half-block rendering.
    NextMode,
    /// Step the supersampling factor: 1×, 2×, 3×, and round again.
    NextSupersampling,
    /// Show or hide the full control list.
    Help,
    /// Show or hide the status bar.
    Status,
    /// Turn palette cycling on or off.
    Cycling,
    /// Turn the Julia parameter orbit on or off.
    Orbit,
    /// Turn unattended auto-zoom on or off.
    AutoZoom,
    /// Pause or resume all motion.
    Pause,
    /// Leave.
    Quit,
}

/// The action a key event asks for, if it is bound: presses only, and the
/// keyboard table of the explorer.
///
/// | Key | Action |
/// |-----|--------|
/// | `h` `j` `k` `l`, arrows | Pan |
/// | `+` / `=`, `-` | Zoom in / out |
/// | `.` / `,` | Raise / lower the iteration limit |
/// | `r` | Reset the view |
/// | `Tab` / `f` | Next fractal |
/// | `p` | Next palette |
/// | `m` | Glyph / half-block rendering |
/// | `s` | Supersampling: 1× / 2× / 3× |
/// | `?` | Full control list |
/// | `i` | Status bar |
/// | `c` | Palette cycling on/off |
/// | `o` | Julia parameter orbit |
/// | `z` | Unattended auto-zoom |
/// | `Space` | Pause all motion |
/// | `q` / `Esc` / `Ctrl+C` | Quit |
pub open spec fn action_of(key: Key) -> Option<Action> {
    if !key.press {
        None
    } else {
        match key.code {
            KeyCode::Char(c) => {
                if c == 'q' || c == 'Q' || (key.control_only && (c == 'c' || c == 'C')) {
                    Some(Action::Quit)
                } else if c == 'h' {
                    Some(Action::Pan(-1i8, 0i8))
                } else if c == 'l' {
                    Some(Action::Pan(1, 0))
                } else if c == 'k' {
                    Some(Action::Pan(0i8, -1i8))
                } else if c == 'j' {
                    Some(Action::Pan(0, 1))
                } else if c == '+' || c == '=' {
                    Some(Action::ZoomIn)
                } else if c == '-' {
                    Some(Action::ZoomOut)
                } else if c == '.' {
                    Some(Action::RaiseLimit)
                } else if c == ',' {
                    Some(Action::LowerLimit)
                } else if c == 'r' {
                    Some(Action::Reset)
                } else if c == 'f' {
                    Some(Action::NextFractal)
                } else if c == 'p' {
                    Some(Action::NextPalette)
                } else if c == 'm' {
                    Some(Action::NextMode)
                } else if c == 's' {
                    Some(Action::NextSupersampling)
                } else if c == '?' {
                    Some(Action::Help)
                } else if c == 'i' {
                    Some(Action::Status)
                } else if c == 'c' {
                    Some(Action::Cycling)
                } else if c == 'o' {
                    Some(Action::Orbit)
                } else if c == 'z' {
                    Some(Action::AutoZoom)
                } else if c == ' ' {
                    Some(Action::Pause)
                } else {
                    None
                }
            },
            KeyCode::Esc => Some(Action::Quit),
            KeyCode::Tab => Some(Action::NextFractal),
            KeyCode::Left => Some(Action::Pan(-1i8, 0i8)),
            KeyCode::Right => Some(Action::Pan(1, 0)),
            KeyCode::Up => Some(Action::Pan(0i8, -1i8)),
            KeyCode::Down => Some(Action::Pan(0, 1)),
            KeyCode::Other => None,
        }
    }
}

/// The action a key event asks for, if it is bound.
pub fn action_for(key: Key) -> (action: Option<Action>)
    ensures
        action == action_of(key),
{
    if !key.press {
        return None;
    }
    match key.code {
        KeyCode::Char(c) => {
            if c == 'q' || c == 'Q' || (key.control_only && (c == 'c' || c == 'C')) {
                Some(Action::Quit)
            } else if c == 'h' {
                Some(Action::Pan(-1i8, 0i8))
            } else if c == 'l' {
                Some(Action::Pan(1, 0))
            } else if c == 'k' {
                Some(Action::Pan(0i8, -1i8))
            } else if c == 'j' {
                Some(Action::Pan(0, 1))
            } else if c == '+' || c == '=' {
                Some(Action::ZoomIn)
            } else if c == '-' {
                Some(Action::ZoomOut)
            } else if c == '.' {
                Some(Action::RaiseLimit)
            } else if c == ',' {
                Some(Action::LowerLimit)
            } else if c == 'r' {
                Some(Action::Reset)
            } else if c == 'f' {
                Some(Action::NextFractal)
            } else if c == 'p' {
                Some(Action::NextPalette)
            } else if c == 'm' {
                Some(Action::NextMode)
            } else if c == 's' {
                Some(Action::NextSupersampling)
            } else if c == '?' {
                Some(Action::Help)
            } else if c == 'i' {
                Some(Action::Status)
            } else if c == 'c' {
                Some(Action::Cycling)
            } else if c == 'o' {
                Some(Action::Orbit)
            } else if c == 'z' {
                Some(Action::AutoZoom)
            } else if c == ' ' {
                Some(Action::Pause)
            } else {
                None
            }
        },
        KeyCode::Esc => Some(Action::Quit),
        KeyCode::Tab => Some(Action::NextFractal),
        KeyCode::Left => Some(Action::Pan(-1i8, 0i8)),
        KeyCode::Right => Some(Action::Pan(1, 0)),
        KeyCode::Up => Some(Action::Pan(0i8, -1i8)),
        KeyCode::Down => Some(Action::Pan(0, 1)),
        KeyCode::Other => None,
    }
}

/// Whether a key event asks to quit: a press of `q`, `Q` or Escape with any
/// modifiers, or of `c`/`C` with Control alone.
pub open spec fn asks_to_quit(key: Key) -> bool {
    &&& key.press
    &&& match key.code {
        KeyCode::Char(c) => c == 'q' || c == 'Q' || (key.control_only && (c == 'c' || c == 'C')),
        KeyCode::Esc => true,
        _ => false,
    }
}

/// Decide what a key event means.
///
/// Only presses count: a key-up must not re-trigger the action its key-down
/// already ran, and an auto-repeat is not a second press.
pub fn handle_key(key: Key) -> (flow: Flow)
    ensures
        flow == (if asks_to_quit(key) { Flow::Quit } else { Flow::Continue }),
{
    if !key.press {
        return Flow::Continue;
    }
    match key.code {
        KeyCode::Char(c) => {
            if c == 'q' || c == 'Q' {
                Flow::Quit
            } else if key.control_only && (c == 'c' || c == 'C') {
                Flow::Quit
            } else {
                Flow::Continue
            }
        },
        KeyCode::Esc => Flow::Quit,
        _ => Flow::Continue,
    }
}

/// A key quits exactly when the action it is bound to is quitting, so the
/// loop's flow and the keyboard table can never disagree.
pub proof fn lemma_quitting_is_the_quit_action(key: Key)
    ensures
        asks_to_quit(key) <==> action_of(key) == Some(Action::Quit),
{
}

/// A release or a repeat never changes what the loop does, whatever the key.
pub proof fn lemma_only_presses_act(key: Key)
    requires
        !key.press,
    ensures
        !asks_to_quit(key),
{
}

/// A pressed key, with or without Control held.
pub open spec fn pressed(code: KeyCode, control: bool) -> Key {
    Key { code, control_only: control, press: true }
}

/// Each arrow pans the same way as its `h`/`j`/`k`/`l` key, with or without
/// Control: left and `h` one cell left, right and `l` one cell right, up and
/// `k` one cell up, down and `j` one cell down — four different moves, each
/// by exactly one cell along exactly one axis.
pub proof fn lemma_arrows_pan_like_hjkl(control: bool)
    ensures
        action_of(pressed(KeyCode::Left, control)) == action_of(pressed(KeyCode::Char('h'), control)),
        action_of(pressed(KeyCode::Right, control)) == action_of(pressed(KeyCode::Char('l'), control)),
        action_of(pressed(KeyCode::Up, control)) == action_of(pressed(KeyCode::Char('k'), control)),
        action_of(pressed(KeyCode::Down, control)) == action_of(pressed(KeyCode::Char('j'), control)),
        action_of(pressed(KeyCode::Left, control)) == Some(Action::Pan(-1i8, 0i8)),
        action_of(pressed(KeyCode::Right, control)) == Some(Action::Pan(1i8, 0i8)),
        action_of(pressed(KeyCode::Up, control)) == Some(Action::Pan(0i8, -1i8)),
        action_of(pressed(KeyCode::Down, control)) == Some(Action::Pan(0i8, 1i8)),
{
}

/// The rest of the keyboard table, with or without Control: `+` and `=`
/// zoom in and `-` zooms out; `.` raises the limit and `,` lowers it; `r`
/// resets; `Tab` and `f` switch fractal; `p`, `m`, `s`, `?`, `i`, `c`, `o`,
/// `z` and Space each do their one thing; `q`, `Q` and Escape always quit,
/// and `c` quits only with Control held.
pub proof fn lemma_keyboard_table(control: bool)
    ensures
        action_of(pressed(KeyCode::Char('+'), control)) == Some(Action::ZoomIn),
        action_of(pressed(KeyCode::Char('='), control)) == Some(Action::ZoomIn),
        action_of(pressed(KeyCode::Char('-'), control)) == Some(Action::ZoomOut),
        action_of(pressed(KeyCode::Char('.'), control)) == Some(Action::RaiseLimit),
        action_of(pressed(KeyCode::Char(','), control)) == Some(Action::LowerLimit),
        action_of(pressed(KeyCode::Char('r'), control)) == Some(Action::Reset),
        action_of(pressed(KeyCode::Char('f'), control)) == Some(Action::NextFractal),
        action_of(pressed(KeyCode::Tab, control)) == Some(Action::NextFractal),
        action_of(pressed(KeyCode::Char('p'), control)) == Some(Action::NextPalette),
        action_of(pressed(KeyCode::Char('m'), control)) == Some(Action::NextMode),
        action_of(pressed(KeyCode::Char('s'), control)) == Some(Action::NextSupersampling),
        action_of(pressed(KeyCode::Char('?'), control)) == Some(Action::Help),
        action_of(pressed(KeyCode::Char('i'), control)) == Some(Action::Status),
        action_of(pressed(KeyCode::Char('o'), control)) == Some(Action::Orbit),
        action_of(pressed(KeyCode::Char('z'), control)) == Some(Action::AutoZoom),
        action_of(pressed(KeyCode::Char(' '), control)) == Some(Action::Pause),
        action_of(pressed(KeyCode::Char('q'), control)) == Some(Action::Quit),
        action_of(pressed(KeyCode::Char('Q'), control)) == Some(Action::Quit),
        action_of(pressed(KeyCode::Esc, control)) == Some(Action::Quit),
        action_of(pressed(KeyCode::Char('c'), control)) == (if control {
            Some(Action::Quit)
        } else {
            Some(Action::Cycling)
        }),
        action_of(pressed(KeyCode::Other, control)) is None,
{
}

/// No key does anything on release or repeat.
pub proof fn lemma_releases_are_unbound(code: KeyCode, control: bool)
    ensures
        action_of(Key { code, control_only: control, press: false }) is None,
{
}

} // verus!
