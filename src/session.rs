//! The state of a running clock from frame to frame: input intents, the
//! timer, the zoom, the wiggle, the tint and what each frame draws.
use vstd::prelude::*;
use crate::atlas::{frame_glyphs, frame_glyphs_of, glyph_values, GlyphDraw, Pen, COLON_INDEX};
use crate::layout::{initial_pen, layout_of, MAX_ZOOM, MIN_ZOOM, ZOOM_UNIT};
use crate::time_model::{
    advance_of, countdown_done, hms_of, hms_seconds, lemma_hms_brackets, lemma_countdown_run, run_of, to_hms, total_of, Mode, TimerState,
    WallTime, MICROS_PER_SECOND,
};
use crate::title::{title_of, title_text};
use crate::wall_clock::local_time_of_day;
use crate::wiggle::{wiggle_run, wiggle_step, Wiggle};

verus! {

/// A colour as red, green and blue.
#[derive(Clone, Copy, Debug, PartialEq, Eq, Structural)]
pub struct Rgb {
    pub r: u8,
    pub g: u8,
    pub b: u8,
}

/// The glyph tint while the timer runs.
pub open spec fn main_color() -> Rgb {
    Rgb { r: 220, g: 220, b: 220 }
}

/// The glyph tint while the timer is paused.
pub open spec fn pause_color() -> Rgb {
    Rgb { r: 220, g: 120, b: 120 }
}

/// The glyph tint for a pause flag.
pub open spec fn tint_of(paused: bool) -> Rgb {
    if paused {
        pause_color()
    } else {
        main_color()
    }
}

/// The tint of the whole atlas for a pause flag.
pub fn tint(paused: bool) -> (r: Rgb)
    ensures
        r == tint_of(paused),
{
    if paused {
        Rgb { r: 220, g: 120, b: 120 }
    } else {
        Rgb { r: 220, g: 220, b: 220 }
    }
}

/// The colour the window is cleared to.
pub fn background_color() -> (r: Rgb)
    ensures
        r == (Rgb { r: 24, g: 24, b: 24 }),
{
    Rgb { r: 24, g: 24, b: 24 }
}

/// What the user asked for.
#[derive(Clone, Copy, Debug, PartialEq, Eq, Structural)]
pub enum Intent {
    Quit,
    Escape,
    ZoomIn,
    ZoomOut,
    ZoomReset,
    PauseToggle,
    FullscreenToggle,
    Reset,
}

/// What the caller has to do after an intent.
#[derive(Clone, Copy, Debug, PartialEq, Eq, Structural)]
pub enum Action {
    Continue,
    Quit,
    ToggleFullscreen,
}

/// Zooming in: fifteen percent more, at most `MAX_ZOOM`.
pub open spec fn zoom_in_of(zoom: nat) -> nat {
    if zoom + zoom * 15 / 100 > MAX_ZOOM {
        MAX_ZOOM as nat
    } else {
        zoom + zoom * 15 / 100
    }
}

/// Zooming out: fifteen percent less, at least `MIN_ZOOM`.
pub open spec fn zoom_out_of(zoom: nat) -> nat {
    if zoom - zoom * 15 / 100 < MIN_ZOOM {
        MIN_ZOOM as nat
    } else {
        (zoom - zoom * 15 / 100) as nat
    }
}

/// The whole state of a running clock.
#[derive(Clone, Copy, Debug, PartialEq, Eq, Structural)]
pub struct Session {
    /// The timer as it is now.
    pub timer: TimerState,
    /// The timer as it was at startup, which a reset brings back.
    pub initial: TimerState,
    /// Whether to stop once a running countdown reaches zero.
    pub exit_after_countdown: bool,
    /// The user zoom in thousandths.
    pub zoom: u64,
    /// The wiggle animation.
    pub wiggle: Wiggle,
}

/// The session after intent `i`, and what the caller has to do.
pub open spec fn intent_of(s: Session, i: Intent) -> (Session, Action) {
    match i {
        Intent::Quit | Intent::Escape => (s, Action::Quit),
        Intent::ZoomIn => (Session { zoom: zoom_in_of(s.zoom as nat) as u64, ..s }, Action::Continue),
        Intent::ZoomOut => (Session { zoom: zoom_out_of(s.zoom as nat) as u64, ..s }, Action::Continue),
        Intent::ZoomReset => (Session { zoom: ZOOM_UNIT, ..s }, Action::Continue),
        Intent::PauseToggle => (
            Session { timer: TimerState { paused: !s.timer.paused, ..s.timer }, ..s },
            Action::Continue,
        ),
        Intent::FullscreenToggle => (s, Action::ToggleFullscreen),
        Intent::Reset => (Session { timer: s.initial, ..s }, Action::Continue),
    }
}

/// The session after one frame of `delta` microseconds with time of day
/// `wall`, and whether to stop: the wiggle moves on whether paused or not,
/// the timer as its mode says, and a countdown that is running and stands at
/// zero stops the clock when asked to.
pub open spec fn update_of(s: Session, delta: nat, wall: WallTime) -> (Session, bool) {
    let timer = advance_of(s.timer, delta, wall);
    (
        Session { timer, wiggle: wiggle_step(s.wiggle, delta), ..s },
        s.exit_after_countdown && countdown_done(timer),
    )
}

/// Midnight, the time of day that modes other than Clock are given.
pub open spec fn midnight() -> WallTime {
    WallTime { hour: 0, minute: 0, second: 0 }
}

impl Session {
    pub open spec fn wf(self) -> bool {
        &&& MIN_ZOOM <= self.zoom <= MAX_ZOOM
        &&& self.wiggle.wf()
    }

    /// A clock in `mode`, starting from `seconds` and paused or not.
    pub fn new(mode: Mode, seconds: u32, paused: bool, exit_after_countdown: bool) -> (r: Session)
        ensures
            r.wf(),
            r.timer == (TimerState {
                mode,
                displayed: (seconds * MICROS_PER_SECOND) as u64,
                paused,
            }),
            r.initial == r.timer,
            r.exit_after_countdown == exit_after_countdown,
            r.zoom == ZOOM_UNIT,
            r.wiggle == (Wiggle { phase: 0, cooldown: crate::wiggle::WIGGLE_DURATION }),
    {
        let timer = TimerState { mode, displayed: seconds as u64 * MICROS_PER_SECOND, paused };
        Session { timer, initial: timer, exit_after_countdown, zoom: ZOOM_UNIT, wiggle: Wiggle::new() }
    }

    /// Applies one input intent and says what the caller has to do.
    pub fn apply_intent(&mut self, intent: Intent) -> (action: Action)
        requires
            old(self).wf(),
        ensures
            (*final(self), action) == intent_of(*old(self), intent),
            final(self).wf(),
    {
        match intent {
            Intent::Quit | Intent::Escape => Action::Quit,
            Intent::ZoomIn => {
                let grown = self.zoom + self.zoom * 15 / 100;
                self.zoom = if grown > MAX_ZOOM { MAX_ZOOM } else { grown };
                Action::Continue
            },
            Intent::ZoomOut => {
                let shrunk = self.zoom - self.zoom * 15 / 100;
                self.zoom = if shrunk < MIN_ZOOM { MIN_ZOOM } else { shrunk };
                Action::Continue
            },
            Intent::ZoomReset => {
                self.zoom = ZOOM_UNIT;
                Action::Continue
            },
            Intent::PauseToggle => {
                self.timer.paused = !self.timer.paused;
                Action::Continue
            },
            Intent::FullscreenToggle => Action::ToggleFullscreen,
            Intent::Reset => {
                self.timer = self.initial;
                Action::Continue
            },
        }
    }

    /// Moves the clock on by one frame of `delta` microseconds, `wall` being
    /// the time of day; returns whether to stop.
    pub fn update(&mut self, delta: u64, wall: WallTime) -> (exit: bool)
        requires
            old(self).wf(),
            wall.wf(),
        ensures
            (*final(self), exit) == update_of(*old(self), delta as nat, wall),
            final(self).wf(),
    {
        self.wiggle.step(delta);
        let done = self.timer.advance(delta, wall);
        self.exit_after_countdown && done
    }

    /// Moves the clock on by one frame of `delta` microseconds, reading the
    /// local time of day in Clock mode; returns whether to stop.
    pub fn frame(&mut self, delta: u64) -> (exit: bool)
        requires
            old(self).wf(),
        ensures
            old(self).timer.mode != Mode::Clock ==> (*final(self), exit) == update_of(
                *old(self),
                delta as nat,
                midnight(),
            ),
            old(self).timer.mode == Mode::Clock ==> exists|wall: WallTime|
                wall.wf() && (*final(self), exit) == #[trigger] update_of(*old(self), delta as nat, wall),
            final(self).wf(),
    {
        let wall = if self.timer.mode == Mode::Clock {
            local_time_of_day()
        } else {
            WallTime { hour: 0, minute: 0, second: 0 }
        };
        self.update(delta, wall)
    }

    /// The tint of the atlas now.
    pub fn current_tint(&self) -> (r: Rgb)
        ensures
            r == tint_of(self.timer.paused),
    {
        tint(self.timer.paused)
    }

    /// The eight glyphs of this frame in a window of `w` by `h` pixels.
    pub fn glyphs(&self, w: u32, h: u32) -> (r: Vec<GlyphDraw>)
        requires
            self.wf(),
        ensures
            ({
                let t = hms_of(self.timer.displayed as nat);
                let l = layout_of(w as nat, h as nat, self.zoom as nat);
                r@ == frame_glyphs_of(
                    t.hours as nat,
                    t.minutes as nat,
                    t.seconds as nat,
                    self.wiggle.phase as nat,
                    Pen { x: l.pen_x, y: l.pen_y },
                    l.glyph_width as nat,
                    l.glyph_height as nat,
                )
            }),
    {
        let layout = initial_pen(w, h, self.zoom);
        let t = to_hms(self.timer.displayed);
        frame_glyphs(
            t.hours,
            t.minutes,
            t.seconds,
            self.wiggle.phase,
            Pen { x: layout.pen_x, y: layout.pen_y },
            layout.glyph_width,
            layout.glyph_height,
        )
    }

    /// The window title now: `HH:MM:SS - sowon`, as ASCII bytes.
    pub fn title(&self) -> (r: Vec<u8>)
        ensures
            r@ == title_of(hms_of(self.timer.displayed as nat)),
    {
        title_text(to_hms(self.timer.displayed))
    }
}

/// Toggling pause changes the tint and nothing else of the timer: the mode
/// and the displayed time stay, and with the zoom and the wiggle so do the
/// glyphs drawn. A reset brings back the startup mode,
/// displayed time and pause flag exactly.
pub proof fn lemma_pause_and_reset(s: Session)
    ensures
        intent_of(s, Intent::PauseToggle).0.timer.displayed == s.timer.displayed,
        intent_of(s, Intent::PauseToggle).0.timer.mode == s.timer.mode,
        intent_of(s, Intent::PauseToggle).0.timer.paused == !s.timer.paused,
        intent_of(s, Intent::PauseToggle).0.zoom == s.zoom,
        intent_of(s, Intent::PauseToggle).0.wiggle == s.wiggle,
        tint_of(intent_of(s, Intent::PauseToggle).0.timer.paused) != tint_of(s.timer.paused),
        intent_of(s, Intent::Reset).0.timer == s.initial,
{
}

/// The wiggle moves the same whether the timer is paused or not.
pub proof fn lemma_wiggle_ignores_pause(s: Session, delta: nat, wall: WallTime)
    ensures
        update_of(s, delta, wall).0.wiggle == update_of(
            Session { timer: TimerState { paused: !s.timer.paused, ..s.timer }, ..s },
            delta,
            wall,
        ).0.wiggle,
        update_of(s, delta, wall).0.wiggle == wiggle_step(s.wiggle, delta),
{
}

/// The session after one frame for each length in `deltas`, at midnight.
pub open spec fn session_run(s: Session, deltas: Seq<u64>) -> Session
    decreases deltas.len(),
{
    if deltas.len() == 0 {
        s
    } else {
        update_of(session_run(s, deltas.drop_last()), deltas.last() as nat, midnight()).0
    }
}

/// Frames of a session move its timer as frames of the time model do, and
/// its wiggle as frames of the wiggle alone do, whatever the pause flag.
pub proof fn lemma_session_run_timer(s: Session, deltas: Seq<u64>)
    ensures
        session_run(s, deltas).timer == run_of(s.timer, deltas),
        session_run(s, deltas).exit_after_countdown == s.exit_after_countdown,
        session_run(s, deltas).wiggle == wiggle_run(s.wiggle, deltas),
    decreases deltas.len(),
{
    if deltas.len() > 0 {
        lemma_session_run_timer(s, deltas.drop_last());
    }
}

/// A running countdown from `n` microseconds that was asked to exit when done,
/// moved on by frames of any lengths `deltas`, asks to stop at the last of
/// those frames exactly when the time elapsed over all of them has reached
/// `n`; as the elapsed time only grows, that is the first frame by which it
/// reaches `n`. The displayed time is `n` less the elapsed time until then,
/// and zero from then on, never less.
pub proof fn lemma_countdown_exit(s: Session, deltas: Seq<u64>)
    requires
        s.timer == (TimerState { mode: Mode::Countdown, displayed: s.timer.displayed, paused: false }),
        s.exit_after_countdown,
        deltas.len() >= 1,
    ensures
        update_of(session_run(s, deltas.drop_last()), deltas.last() as nat, midnight()).1
            <==> total_of(deltas) >= s.timer.displayed,
        session_run(s, deltas).timer.displayed == (if total_of(deltas) >= s.timer.displayed {
            0
        } else {
            (s.timer.displayed - total_of(deltas)) as int
        }),
        total_of(deltas.drop_last()) <= total_of(deltas),
{
    lemma_session_run_timer(s, deltas.drop_last());
    lemma_session_run_timer(s, deltas);
    lemma_countdown_run(s.timer.displayed, deltas);
}

/// The glyph columns drawn for a displayed time below a hundred hours read
/// back as that time: colons in the third and sixth slots, and the digit
/// pairs give hours, minutes and seconds whose seconds are at most the
/// displayed time and more than it less one second.
pub proof fn lemma_glyphs_show_time(displayed: u64)
    requires
        hms_of(displayed as nat).hours < 100,
    ensures
        ({
            let t = hms_of(displayed as nat);
            let v = glyph_values(t.hours as nat, t.minutes as nat, t.seconds as nat);
            let hh = 10 * v[0] + v[1];
            let mm = 10 * v[3] + v[4];
            let ss = 10 * v[6] + v[7];
            &&& v[2] == COLON_INDEX && v[5] == COLON_INDEX
            &&& v[0] <= 9 && v[1] <= 9 && v[3] <= 5 && v[4] <= 9 && v[6] <= 5 && v[7] <= 9
            &&& hh == t.hours && mm == t.minutes && ss == t.seconds
            &&& (hh * 3600 + mm * 60 + ss) * MICROS_PER_SECOND <= displayed
            &&& displayed < (hh * 3600 + mm * 60 + ss + 1) * MICROS_PER_SECOND
        }),
{
    lemma_hms_brackets(displayed);
    let t = hms_of(displayed as nat);
    let h = t.hours as nat;
    assert((h / 10) % 10 == h / 10) by (nonlinear_arith)
        requires h < 100;
    assert(10 * (h / 10) + h % 10 == h) by (nonlinear_arith);
    let m = t.minutes as nat;
    assert(10 * (m / 10) + m % 10 == m) by (nonlinear_arith);
    assert(m / 10 <= 5) by (nonlinear_arith)
        requires m < 60;
    let sec = t.seconds as nat;
    assert(10 * (sec / 10) + sec % 10 == sec) by (nonlinear_arith);
    assert(sec / 10 <= 5) by (nonlinear_arith)
        requires sec < 60;
    assert(hms_seconds(t) == t.hours * 3600 + t.minutes * 60 + t.seconds);
}

} // verus!
