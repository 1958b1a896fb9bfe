use vstd::prelude::*;

use crate::arm::{arm_colors, arm_specs, chain, compute_chain, palette, spec_for, ArmSpec};
use crate::geometry::{Heading, Point, SUBPIXELS};
use crate::input::{Flow, Key};
use crate::render::{canvas_ok, debug_commands, emit, poses_commands, DrawCommand};

verus! {

/// How far one press of Left or Right moves the clock.
pub const MANUAL_SPEED: i64 = 15;

/// The animation state as a mathematical value.
pub struct AppState {
    /// The animation clock: frames advanced plus manual offsets.
    pub rotation: int,
    pub paused: bool,
    pub show_debug: bool,
}

/// The state of the animation: its clock and the pause and debug flags.
pub struct App {
    rotation: i64,
    paused: bool,
    show_debug: bool,
}

impl View for App {
    type V = AppState;

    closed spec fn view(&self) -> AppState {
        AppState { rotation: self.rotation as int, paused: self.paused, show_debug: self.show_debug }
    }
}

/// One tick: the clock moves on by one unless paused.
pub open spec fn advanced(s: AppState) -> AppState {
    if s.paused {
        s
    } else {
        AppState { rotation: s.rotation + 1, ..s }
    }
}

/// The clock moved by `delta`, paused or not.
pub open spec fn nudged(s: AppState, delta: int) -> AppState {
    AppState { rotation: s.rotation + delta, ..s }
}

pub open spec fn pause_toggled(s: AppState) -> AppState {
    AppState { paused: !s.paused, ..s }
}

pub open spec fn debug_toggled(s: AppState) -> AppState {
    AppState { show_debug: !s.show_debug, ..s }
}

/// The effect of a key press, `plain` when no modifier key is held: Escape
/// with any modifiers and a plain Q quit; a plain F3 toggles the debug
/// overlay, a plain Space the pause, a plain Left or Right moves the clock
/// back or forth by `MANUAL_SPEED`; anything else changes nothing.
pub open spec fn key_effect(s: AppState, key: Key, plain: bool) -> (AppState, Flow) {
    if key == Key::Escape || (plain && key == Key::Q) {
        (s, Flow::Quit)
    } else if !plain {
        (s, Flow::Continue)
    } else {
        match key {
            Key::F3 => (debug_toggled(s), Flow::Continue),
            Key::Space => (pause_toggled(s), Flow::Continue),
            Key::Left => (nudged(s, -MANUAL_SPEED), Flow::Continue),
            Key::Right => (nudged(s, MANUAL_SPEED as int), Flow::Continue),
            _ => (s, Flow::Continue),
        }
    }
}

/// The clock stays within `i64` after the key press.
pub open spec fn key_fits(s: AppState, key: Key, plain: bool) -> bool {
    i64::MIN <= key_effect(s, key, plain).0.rotation <= i64::MAX
}

/// Two nudges add up: moving the clock by `d1` and then by `d2` is moving
/// it by `d1 + d2`.
pub proof fn lemma_nudge_additive(s: AppState, d1: int, d2: int)
    ensures
        nudged(nudged(s, d1), d2) == nudged(s, d1 + d2),
{
}

/// Toggling the pause twice, or the debug overlay twice, leaves the state
/// as it was.
pub proof fn lemma_toggle_twice(s: AppState)
    ensures
        pause_toggled(pause_toggled(s)) == s,
        debug_toggled(debug_toggled(s)) == s,
{
}

/// A tick leaves a paused clock where it is and moves a running one on by
/// exactly one; the flags stay as they are.
pub proof fn lemma_advance_step(s: AppState)
    ensures
        s.paused ==> advanced(s) == s,
        !s.paused ==> advanced(s).rotation == s.rotation + 1,
        advanced(s).paused == s.paused,
        advanced(s).show_debug == s.show_debug,
{
}

/// The descriptions of the arms that `App` draws: one per colour of
/// `arm_colors`.
pub open spec fn app_specs() -> Seq<ArmSpec> {
    Seq::new(arm_colors().len(), |i: int| spec_for(arm_colors(), i))
}

/// The centre of a canvas of `width` by `height` pixels.
pub open spec fn center(width: int, height: int) -> Point {
    Point { x: (width * SUBPIXELS / 2) as i64, y: (height * SUBPIXELS / 2) as i64 }
}

/// One frame: the chain rooted at the canvas centre, then the debug lines
/// while the overlay is shown.
pub open spec fn frame(
    s: AppState,
    width: int,
    height: int,
    hs: Seq<Heading>,
    debug_lines: Seq<String>,
) -> Seq<DrawCommand> {
    poses_commands(chain(center(width, height), app_specs(), hs)) + debug_commands(
        if s.show_debug {
            debug_lines
        } else {
            seq![]
        },
        width,
        height,
    )
}

impl Default for App {
    /// Clock at zero, running, overlay hidden.
    fn default() -> (r: App)
        ensures
            r@ == (AppState { rotation: 0, paused: false, show_debug: false }),
    {
        App { rotation: 0, paused: false, show_debug: false }
    }
}

impl App {
    /// The animation clock.
    pub fn rotation(&self) -> (r: i64)
        ensures
            r == self@.rotation,
    {
        self.rotation
    }

    pub fn is_paused(&self) -> (r: bool)
        ensures
            r == self@.paused,
    {
        self.paused
    }

    pub fn shows_debug(&self) -> (r: bool)
        ensures
            r == self@.show_debug,
    {
        self.show_debug
    }

    /// The number of arms drawn.
    pub fn arm_count(&self) -> (r: usize)
        ensures
            r == app_specs().len(),
    {
        6
    }

    /// One tick of the run loop: the clock moves on by one unless paused.
    pub fn update(&mut self)
        requires
            old(self)@.paused || old(self)@.rotation < i64::MAX,
        ensures
            final(self)@ == advanced(old(self)@),
    {
        if !self.paused {
            self.rotation = self.rotation + 1;
        }
    }

    /// Moves the clock by `delta`, whether paused or not.
    pub fn nudge(&mut self, delta: i64)
        requires
            i64::MIN <= old(self)@.rotation + delta <= i64::MAX,
        ensures
            final(self)@ == nudged(old(self)@, delta as int),
    {
        self.rotation = self.rotation + delta;
    }

    pub fn toggle_pause(&mut self)
        ensures
            final(self)@ == pause_toggled(old(self)@),
    {
        self.paused = !self.paused;
    }

    pub fn toggle_debug(&mut self)
        ensures
            final(self)@ == debug_toggled(old(self)@),
    {
        self.show_debug = !self.show_debug;
    }

    /// Applies a key press, `plain` when no modifier key is held, and says
    /// whether the program should go on.
    pub fn key_down_event(&mut self, key: Key, plain: bool) -> (r: Flow)
        requires
            key_fits(old(self)@, key, plain),
        ensures
            (final(self)@, r) == key_effect(old(self)@, key, plain),
    {
        if key == Key::Escape || (plain && key == Key::Q) {
            return Flow::Quit;
        }
        if plain {
            match key {
                Key::F3 => self.toggle_debug(),
                Key::Space => self.toggle_pause(),
                Key::Left => self.nudge(-MANUAL_SPEED),
                Key::Right => self.nudge(MANUAL_SPEED),
                _ => {},
            }
        }
        Flow::Continue
    }

    /// A click of any mouse button anywhere ends the program.
    pub fn mouse_button_down_event(&self) -> (r: Flow)
        ensures
            r == Flow::Quit,
    {
        Flow::Quit
    }

    /// The commands of one frame on a canvas of `width` by `height` pixels,
    /// arm `i` pointing along `headings[i]`: the chain of arms rooted at the
    /// centre of the canvas, then, while the overlay is shown, a panel with
    /// `debug_lines`.
    pub fn draw(
        &self,
        width: i64,
        height: i64,
        headings: &Vec<Heading>,
        debug_lines: &Vec<String>,
    ) -> (r: Vec<DrawCommand>)
        requires
            canvas_ok(debug_lines@, width as int, height as int),
            headings.len() == app_specs().len(),
            forall|i: int| 0 <= i < headings.len() ==> (#[trigger] headings[i]).is_bounded(),
        ensures
            r@ == frame(self@, width as int, height as int, headings@, debug_lines@),
    {
        let origin = Point { x: width * SUBPIXELS / 2, y: height * SUBPIXELS / 2 };
        let colors = palette();
        let specs = arm_specs(&colors);
        assert(specs@ =~= app_specs());
        let poses = compute_chain(origin, &specs, headings);
        let no_lines: Vec<String> = Vec::new();
        let lines = if self.show_debug {
            debug_lines
        } else {
            &no_lines
        };
        assert(lines@ =~= (if self@.show_debug { debug_lines@ } else { seq![] }));
        emit(&poses, lines, width, height)
    }
}

} // verus!
