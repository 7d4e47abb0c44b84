use sowon::args::shift;
use sowon::atlas::{frame_glyphs, render_digit_at, source_rect, Pen, Rect, COLON_INDEX};
use sowon::frame_clock::FpsDeltaTime;
use sowon::layout::{initial_pen, FitScale, MAX_ZOOM, MIN_ZOOM, ZOOM_UNIT};
use sowon::session::{background_color, tint, Action, Intent, Rgb, Session};
use sowon::time_model::{to_hms, Hms, Mode, TimerState, WallTime};
use sowon::title::title_text;
use sowon::wiggle::{Wiggle, WIGGLE_CYCLE, WIGGLE_DURATION};

const SEC: u64 = 1_000_000;
const MIDNIGHT: WallTime = WallTime { hour: 0, minute: 0, second: 0 };

#[test]
fn shift_empty_gives_none() {
    let mut args: Vec<String> = Vec::new();
    assert_eq!(shift(&mut args), None);
    assert!(args.is_empty());
}

#[test]
fn shift_takes_first() {
    let mut args = vec!["tool".to_string(), "in.png".to_string(), "out.rs".to_string()];
    assert_eq!(shift(&mut args), Some("tool".to_string()));
    assert_eq!(args, vec!["in.png".to_string(), "out.rs".to_string()]);
    assert_eq!(shift(&mut args), Some("in.png".to_string()));
    assert_eq!(shift(&mut args), Some("out.rs".to_string()));
    assert_eq!(shift(&mut args), None);
}

#[test]
fn hms_of_3725_seconds() {
    let t = to_hms(3725 * SEC);
    assert_eq!(t, Hms { hours: 1, minutes: 2, seconds: 5 });
    assert_eq!(title_text(t), b"01:02:05 - sowon".to_vec());
}

#[test]
fn hms_drops_fraction() {
    let t = to_hms(59_999_000);
    assert_eq!(t, Hms { hours: 0, minutes: 0, seconds: 59 });
    assert_eq!(title_text(t), b"00:00:59 - sowon".to_vec());
}

#[test]
fn hms_brackets_displayed_time() {
    for d in [0u64, 1, 999_999, 1_000_000, 3_599_999_999, 3_600_000_000, 360_000_123_456, u64::MAX] {
        let t = to_hms(d);
        assert!(t.minutes < 60 && t.seconds < 60);
        let secs = (t.hours as u128) * 3600 + (t.minutes as u128) * 60 + t.seconds as u128;
        assert!(secs * 1_000_000 <= d as u128);
        assert!((d as u128) < (secs + 1) * 1_000_000);
    }
}

#[test]
fn hours_are_not_wrapped() {
    let t = to_hms(100 * 3600 * SEC + 61 * SEC);
    assert_eq!(t, Hms { hours: 100, minutes: 1, seconds: 1 });
    assert_eq!(title_text(t), b"100:01:01 - sowon".to_vec());
}

#[test]
fn countdown_five_by_two() {
    let mut s = Session::new(Mode::Countdown, 5, false, true);
    assert!(!s.update(2 * SEC, MIDNIGHT));
    assert_eq!(s.timer.displayed, 3 * SEC);
    assert!(!s.update(2 * SEC, MIDNIGHT));
    assert_eq!(s.timer.displayed, SEC);
    assert!(s.update(2 * SEC, MIDNIGHT));
    assert_eq!(s.timer.displayed, 0);
}

#[test]
fn countdown_without_exit_flag_holds_at_zero() {
    let mut s = Session::new(Mode::Countdown, 5, false, false);
    for _ in 0..5 {
        assert!(!s.update(2 * SEC, MIDNIGHT));
    }
    assert_eq!(s.timer.displayed, 0);
}

#[test]
fn countdown_exits_exactly_when_elapsed_reaches_start() {
    let mut t = TimerState { mode: Mode::Countdown, displayed: 10 * SEC, paused: false };
    let mut elapsed = 0u64;
    loop {
        let done = t.advance(3 * SEC, MIDNIGHT);
        elapsed += 3 * SEC;
        assert_eq!(done, elapsed >= 10 * SEC);
        if done {
            break;
        }
        assert_eq!(t.displayed, 10 * SEC - elapsed);
    }
    assert_eq!(elapsed, 12 * SEC);
    assert_eq!(t.displayed, 0);
}

#[test]
fn paused_countdown_does_not_move() {
    let mut s = Session::new(Mode::Countdown, 5, true, true);
    assert!(!s.update(2 * SEC, MIDNIGHT));
    assert_eq!(s.timer.displayed, 5 * SEC);
}

#[test]
fn ascending_adds_delta_unless_paused() {
    let mut s = Session::new(Mode::Ascending, 0, false, false);
    assert!(!s.update(1_500_000, MIDNIGHT));
    assert_eq!(s.timer.displayed, 1_500_000);
    assert_eq!(s.apply_intent(Intent::PauseToggle), Action::Continue);
    s.update(1_500_000, MIDNIGHT);
    assert_eq!(s.timer.displayed, 1_500_000);
}

#[test]
fn ascending_saturates() {
    let mut t = TimerState { mode: Mode::Ascending, displayed: u64::MAX - 1, paused: false };
    t.advance(10, MIDNIGHT);
    assert_eq!(t.displayed, u64::MAX);
}

#[test]
fn clock_mode_shows_wall_time_even_paused() {
    let wall = WallTime { hour: 1, minute: 2, second: 3 };
    let mut s = Session::new(Mode::Clock, 0, true, false);
    assert!(!s.update(SEC, wall));
    assert_eq!(s.timer.displayed, 3723 * SEC);
    assert!(s.timer.paused);
}

#[test]
fn clock_frame_reads_a_time_of_day() {
    let mut s = Session::new(Mode::Clock, 0, false, false);
    assert!(!s.frame(SEC));
    assert!(s.timer.displayed < 86_400 * SEC);
    assert_eq!(s.timer.displayed % SEC, 0);
}

#[test]
fn pause_toggle_switches_tint_only() {
    let mut s = Session::new(Mode::Ascending, 42, false, false);
    s.update(SEC, MIDNIGHT);
    let before = s.timer;
    assert_eq!(s.current_tint(), Rgb { r: 220, g: 220, b: 220 });
    s.apply_intent(Intent::PauseToggle);
    assert_eq!(s.current_tint(), Rgb { r: 220, g: 120, b: 120 });
    assert_eq!(s.timer.displayed, before.displayed);
    assert_eq!(s.timer.mode, before.mode);
    s.apply_intent(Intent::PauseToggle);
    assert_eq!(s.current_tint(), Rgb { r: 220, g: 220, b: 220 });
    assert_eq!(s.timer, before);
}

#[test]
fn reset_restores_startup_state() {
    let mut s = Session::new(Mode::Countdown, 30, true, false);
    s.apply_intent(Intent::PauseToggle);
    s.update(7 * SEC, MIDNIGHT);
    assert_eq!(s.timer.displayed, 23 * SEC);
    assert_eq!(s.apply_intent(Intent::Reset), Action::Continue);
    assert_eq!(s.timer, TimerState { mode: Mode::Countdown, displayed: 30 * SEC, paused: true });
    assert_eq!(s.current_tint(), tint(true));
}

#[test]
fn colors() {
    assert_eq!(tint(false), Rgb { r: 220, g: 220, b: 220 });
    assert_eq!(tint(true), Rgb { r: 220, g: 120, b: 120 });
    assert_eq!(background_color(), Rgb { r: 24, g: 24, b: 24 });
}

#[test]
fn intents_give_actions() {
    let mut s = Session::new(Mode::Ascending, 0, false, false);
    assert_eq!(s.apply_intent(Intent::Quit), Action::Quit);
    assert_eq!(s.apply_intent(Intent::Escape), Action::Quit);
    assert_eq!(s.apply_intent(Intent::FullscreenToggle), Action::ToggleFullscreen);
}

#[test]
fn zoom_steps_and_bounds() {
    let mut s = Session::new(Mode::Ascending, 0, false, false);
    s.apply_intent(Intent::ZoomIn);
    assert_eq!(s.zoom, 1150);
    s.apply_intent(Intent::ZoomReset);
    assert_eq!(s.zoom, ZOOM_UNIT);
    s.apply_intent(Intent::ZoomOut);
    assert_eq!(s.zoom, 850);
    for _ in 0..100 {
        s.apply_intent(Intent::ZoomOut);
    }
    assert_eq!(s.zoom, MIN_ZOOM);
    for _ in 0..200 {
        s.apply_intent(Intent::ZoomIn);
    }
    assert_eq!(s.zoom, MAX_ZOOM);
}

#[test]
fn wiggle_steps_each_duration() {
    let mut w = Wiggle::new();
    assert_eq!(w, Wiggle { phase: 0, cooldown: WIGGLE_DURATION });
    w.step(WIGGLE_DURATION - 1);
    assert_eq!(w, Wiggle { phase: 0, cooldown: 1 });
    w.step(1);
    assert_eq!(w, Wiggle { phase: 1, cooldown: WIGGLE_DURATION });
}

#[test]
fn wiggle_full_cycle() {
    let mut w = Wiggle::new();
    let mut seen = Vec::new();
    for _ in 0..3 {
        seen.push(w.phase);
        w.step(WIGGLE_DURATION);
    }
    assert_eq!(seen, vec![0, 1, 2]);
    assert_eq!(w.phase, 0);
    assert!(3 * WIGGLE_DURATION <= WIGGLE_CYCLE);
}

#[test]
fn wiggle_runs_while_paused() {
    let mut a = Session::new(Mode::Ascending, 0, false, false);
    let mut b = Session::new(Mode::Ascending, 0, true, false);
    for _ in 0..7 {
        a.update(50_000, MIDNIGHT);
        b.update(50_000, MIDNIGHT);
        assert_eq!(a.wiggle, b.wiggle);
    }
    assert_eq!(a.wiggle.phase, 2);
}

#[test]
fn layout_matching_aspect() {
    let l = initial_pen(1200, 190, ZOOM_UNIT);
    assert_eq!(l.fit, FitScale { num: 190, den: 190 });
    assert_eq!((l.glyph_width, l.glyph_height), (150, 190));
    assert_eq!((l.pen_x, l.pen_y), (0, 0));
    let l = initial_pen(2400, 380, ZOOM_UNIT);
    assert_eq!(l.fit.num * 1200, 2400 * l.fit.den);
    assert_eq!(l.fit.num * 190, 380 * l.fit.den);
    assert_eq!((l.glyph_width, l.glyph_height), (300, 380));
}

#[test]
fn layout_wide_window_binds_height() {
    let l = initial_pen(4000, 190, ZOOM_UNIT);
    assert_eq!(l.fit, FitScale { num: 190, den: 190 });
    assert_eq!((l.glyph_width, l.glyph_height), (150, 190));
    assert_eq!((l.pen_x, l.pen_y), (2000 - 600, 0));
}

#[test]
fn layout_tall_window_binds_width() {
    let l = initial_pen(1200, 1000, ZOOM_UNIT);
    assert_eq!(l.fit, FitScale { num: 1200, den: 1200 });
    assert_eq!((l.glyph_width, l.glyph_height), (150, 190));
    assert_eq!((l.pen_x, l.pen_y), (0, 500 - 95));
}

#[test]
fn layout_with_zoom() {
    let l = initial_pen(1200, 190, 500);
    assert_eq!((l.glyph_width, l.glyph_height), (75, 95));
    assert_eq!((l.pen_x, l.pen_y), (600 - 300, 95 - 47));
    let l = initial_pen(1200, 190, 2000);
    assert_eq!((l.pen_x, l.pen_y), (600 - 1200, 95 - 190));
}

#[test]
fn layout_empty_window() {
    let l = initial_pen(0, 0, ZOOM_UNIT);
    assert_eq!((l.glyph_width, l.glyph_height, l.pen_x, l.pen_y), (0, 0, 0, 0));
}

#[test]
fn atlas_cells() {
    assert_eq!(source_rect(0, 0), Rect { x: 0, y: 0, w: 150, h: 190 });
    assert_eq!(source_rect(COLON_INDEX, 2), Rect { x: 1500, y: 380, w: 150, h: 190 });
}

#[test]
fn render_digit_moves_pen() {
    let (draw, pen) = render_digit_at(3, 2, Pen { x: 10, y: 20 }, 75, 95);
    assert_eq!(draw.src, Rect { x: 450, y: 380, w: 150, h: 190 });
    assert_eq!(draw.dst, Rect { x: 10, y: 20, w: 75, h: 95 });
    assert_eq!(pen, Pen { x: 85, y: 20 });
}

#[test]
fn frame_glyphs_hh_mm_ss() {
    let draws = frame_glyphs(1, 2, 5, 1, Pen { x: 0, y: 0 }, 150, 190);
    let columns: Vec<i64> = draws.iter().map(|d| d.src.x / 150).collect();
    let rows: Vec<i64> = draws.iter().map(|d| d.src.y / 190).collect();
    let xs: Vec<i64> = draws.iter().map(|d| d.dst.x).collect();
    assert_eq!(columns, vec![0, 1, 10, 0, 2, 10, 0, 5]);
    assert_eq!(rows, vec![1, 2, 2, 0, 1, 2, 2, 0]);
    assert_eq!(xs, vec![0, 150, 300, 450, 600, 750, 900, 1050]);
}

#[test]
fn session_glyphs_and_title() {
    let s = Session::new(Mode::Ascending, 3725, false, false);
    let draws = s.glyphs(1200, 190);
    assert_eq!(draws.len(), 8);
    let columns: Vec<i64> = draws.iter().map(|d| d.src.x / 150).collect();
    assert_eq!(columns, vec![0, 1, 10, 0, 2, 10, 0, 5]);
    assert_eq!(s.title(), b"01:02:05 - sowon".to_vec());
}

#[test]
fn frame_clock_delta_and_delay() {
    let mut fps = FpsDeltaTime::new(60, 1_000);
    assert_eq!((fps.frame_delay, fps.dt, fps.last_time), (16, 0, 1_000));
    fps.frame_start(1_000 + 16_000_000, 1_000_000_000);
    assert_eq!(fps.dt, 16_000);
    assert_eq!(fps.last_time, 16_001_000);
    assert_eq!(fps.frame_end(16_001_000 + 10_000_000, 1_000_000_000), 6);
    assert_eq!(fps.frame_end(16_001_000 + 20_000_000, 1_000_000_000), 0);
}

#[test]
fn frame_clock_same_reading() {
    let mut fps = FpsDeltaTime::new(30, 500);
    fps.frame_start(500, 1000);
    assert_eq!(fps.dt, 0);
    assert_eq!(fps.frame_end(500, 1000), 33);
    assert_eq!(fps.frame_end(510, 1000), 23);
}

#[test]
fn frame_clock_slow_counter_saturates() {
    let mut fps = FpsDeltaTime::new(1, 0);
    fps.frame_start(u64::MAX, 1);
    assert_eq!(fps.dt, u64::MAX);
    assert_eq!(fps.frame_delay, 1000);
}

#[test]
fn wiggle_all_phases_at_sixty_fps() {
    let mut w = Wiggle::new();
    let mut seen = [false; 3];
    let mut elapsed = 0u64;
    while elapsed < WIGGLE_CYCLE {
        seen[w.phase as usize] = true;
        w.step(16_667);
        elapsed += 16_667;
    }
    seen[w.phase as usize] = true;
    assert_eq!(seen, [true, true, true]);
}

#[test]
fn countdown_with_uneven_frames() {
    let mut s = Session::new(Mode::Countdown, 1, false, true);
    let frames = [300_000u64, 450_000, 200_000, 100_000];
    let mut elapsed = 0u64;
    for (i, d) in frames.iter().enumerate() {
        elapsed += d;
        let exit = s.update(*d, MIDNIGHT);
        assert_eq!(exit, elapsed >= SEC);
        assert_eq!(s.timer.displayed, SEC.saturating_sub(elapsed));
        if exit {
            assert_eq!(i, 3);
            break;
        }
    }
}
