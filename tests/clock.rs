use tty_clock::config::{DisplayConfig, _set_box, _set_center, _set_second};
use tty_clock::frame::{compose, frame_at, render, Paint};
use tty_clock::glyph::{glyph_of, GLYPH_CELLS};
use tty_clock::layout::{
    _clock_move, layout, WindowRect, CLOCK_HEIGHT, DIGIT_SPAN, WIDTH_WITHOUT_SECONDS,
    WIDTH_WITH_SECONDS,
};
use tty_clock::lifecycle::{Action, Controller, Event, Phase, _key_event};
use tty_clock::time::{read_clock, sample, stamp, HourFormat, Instant, TimeSample};

fn at(hour: u32, minute: u32, second: u32) -> Instant {
    Instant { year: 2024, month: 3, day: 9, hour, minute, second }
}

fn digits(ts: &TimeSample) -> [usize; 6] {
    [ts.h1, ts.h2, ts.m1, ts.m2, ts.s1, ts.s2]
}

fn lit(d: usize) -> usize {
    glyph_of(d).cells.iter().filter(|c| **c).count()
}

#[test]
fn glyphs_have_fixed_size_and_reference_counts() {
    let expected = [12, 5, 11, 11, 9, 11, 12, 7, 13, 12];
    for d in 0..10 {
        assert_eq!(glyph_of(d).cells.len(), GLYPH_CELLS);
        assert_eq!(lit(d), expected[d]);
    }
    assert!(lit(1) < lit(8));
}

#[test]
fn glyph_of_one_is_right_column() {
    let g = glyph_of(1);
    for (i, c) in g.cells.iter().enumerate() {
        assert_eq!(*c, i % 3 == 2);
    }
}

#[test]
fn sample_is_deterministic() {
    let now = at(17, 42, 8);
    let a = sample(&now, HourFormat::TwelveHour, "%F [%p]").unwrap();
    let b = sample(&now, HourFormat::TwelveHour, "%F [%p]").unwrap();
    assert_eq!(digits(&a), digits(&b));
    assert_eq!(a.date, b.date);
    assert_eq!(a.mode, b.mode);
}

#[test]
fn twelve_hour_midnight_reads_twelve() {
    let ts = sample(&at(0, 0, 0), HourFormat::TwelveHour, "%F").unwrap();
    assert_eq!((ts.h1, ts.h2), (1, 2));
}

#[test]
fn twelve_hour_thirteen_reads_one() {
    let ts = sample(&at(13, 0, 0), HourFormat::TwelveHour, "%F").unwrap();
    assert_eq!((ts.h1, ts.h2), (0, 1));
}

#[test]
fn twelve_hour_noon_reads_twelve() {
    let ts = sample(&at(12, 30, 0), HourFormat::TwelveHour, "%F").unwrap();
    assert_eq!((ts.h1, ts.h2), (1, 2));
}

#[test]
fn twenty_four_hour_keeps_twenty_three() {
    let ts = sample(&at(23, 0, 0), HourFormat::TwentyFourHour, "%F").unwrap();
    assert_eq!((ts.h1, ts.h2), (2, 3));
}

#[test]
fn twenty_four_hour_midnight_reads_zero() {
    let ts = sample(&at(0, 0, 0), HourFormat::TwentyFourHour, "%F").unwrap();
    assert_eq!((ts.h1, ts.h2), (0, 0));
}

#[test]
fn minute_and_second_digits() {
    let ts = sample(&at(10, 7, 59), HourFormat::TwentyFourHour, "%F").unwrap();
    assert_eq!((ts.m1, ts.m2), (0, 7));
    assert_eq!((ts.s1, ts.s2), (5, 9));
    let ts = sample(&at(10, 59, 7), HourFormat::TwentyFourHour, "%F").unwrap();
    assert_eq!((ts.m1, ts.m2), (5, 9));
    assert_eq!((ts.s1, ts.s2), (0, 7));
}

#[test]
fn date_text_follows_format() {
    let ts = sample(&at(9, 5, 3), HourFormat::TwelveHour, "%F [%p]").unwrap();
    assert_eq!(ts.date, "2024-03-09 [AM]");
    let ts = sample(&at(21, 5, 3), HourFormat::TwelveHour, "%F [%p]").unwrap();
    assert_eq!(ts.date, "2024-03-09 [PM]");
    let ts = sample(&at(21, 5, 3), HourFormat::TwentyFourHour, "%F").unwrap();
    assert_eq!(ts.date, "2024-03-09");
}

#[test]
fn bad_date_format_gives_none() {
    assert!(sample(&at(9, 5, 3), HourFormat::TwelveHour, "%Q").is_none());
}

#[test]
fn impossible_date_gives_none() {
    let now = Instant { year: 2023, month: 2, day: 30, hour: 1, minute: 2, second: 3 };
    assert!(sample(&now, HourFormat::TwelveHour, "%F").is_none());
}

#[test]
fn clock_reading_is_in_range() {
    for utc in [false, true] {
        let t = read_clock(utc);
        assert!((1..=12).contains(&t.month));
        assert!((1..=31).contains(&t.day));
        assert!(t.hour < 24 && t.minute < 60 && t.second < 60);
    }
}

fn config(seconds: bool, center: bool) -> DisplayConfig {
    let mut cfg = DisplayConfig::new();
    cfg.show_seconds = seconds;
    cfg.center = center;
    cfg
}

#[test]
fn default_config() {
    let cfg = DisplayConfig::new();
    assert!(cfg.show_seconds && cfg.show_date && cfg.quit_on_key);
    assert!(!cfg.center && !cfg.draw_box && !cfg.bold && !cfg.blink_colon && !cfg.utc);
    assert_eq!(cfg.color, 2);
    assert_eq!(cfg.hour_format, HourFormat::TwelveHour);
    assert_eq!(cfg.date_format, "%F [%p]");
    assert_eq!((cfg.delay_secs, cfg.delay_nanos), (1, 0));
    assert!(cfg.tty.is_none());
}

#[test]
fn layout_spans_are_disjoint_and_increasing() {
    for seconds in [false, true] {
        for center in [false, true] {
            let l = layout(&config(seconds, center), 40, 120, 15);
            let n = if seconds { 6 } else { 4 };
            assert_eq!(l.digit_cols.len(), n);
            assert_eq!(l.separator_cols.len(), n / 2 - 1);
            for i in 0..n {
                for j in i + 1..n {
                    assert!(l.digit_cols[i] + DIGIT_SPAN <= l.digit_cols[j]);
                }
            }
            for (k, s) in l.separator_cols.iter().enumerate() {
                assert!(l.digit_cols[2 * k + 1] + DIGIT_SPAN < *s);
                assert!(*s + 2 < l.digit_cols[2 * k + 2]);
            }
            assert!(l.digit_cols[n - 1] + DIGIT_SPAN < l.frame.width);
        }
    }
}

#[test]
fn layout_without_seconds_is_narrow() {
    let l = layout(&config(false, false), 24, 80, 10);
    assert_eq!(l.frame, WindowRect { row: 0, col: 0, height: 7, width: WIDTH_WITHOUT_SECONDS });
    assert_eq!(l.digit_cols, vec![1, 8, 20, 27]);
    assert_eq!(l.separator_cols, vec![16]);
    assert_eq!(l.date, Some(WindowRect { row: 6, col: 11, height: 3, width: 12 }));
}

#[test]
fn centering_is_idempotent() {
    let cfg = config(true, true);
    let a = layout(&cfg, 24, 80, 15);
    let b = layout(&cfg, 24, 80, 15);
    assert_eq!(a.frame, b.frame);
    assert_eq!(a.digit_cols, b.digit_cols);
    assert_eq!(a.separator_cols, b.separator_cols);
    assert_eq!(a.date, b.date);
    assert_eq!(a.frame.row, (24 - CLOCK_HEIGHT) / 2);
    assert_eq!(a.frame.col, (80 - WIDTH_WITH_SECONDS) / 2);
}

#[test]
fn centering_on_a_small_terminal_stays_at_origin() {
    let l = layout(&config(true, true), 5, 40, 15);
    assert_eq!((l.frame.row, l.frame.col), (0, 0));
}

#[test]
fn hidden_date_has_no_window() {
    let mut cfg = config(true, false);
    cfg.show_date = false;
    assert!(layout(&cfg, 24, 80, 15).date.is_none());
}

#[test]
fn end_to_end_nine_oh_five() {
    let mut cfg = config(true, false);
    cfg.hour_format = HourFormat::TwentyFourHour;
    cfg.date_format = "%F".to_string();
    let f = frame_at(&at(9, 5, 3), &cfg, 24, 80).unwrap();
    assert_eq!(digits(&f.sample), [0, 9, 0, 5, 0, 3]);
    assert_eq!(f.layout.frame.width, 54);
    assert_eq!(f.layout.digit_cols, vec![1, 8, 20, 27, 39, 46]);
    assert_eq!(f.layout.separator_cols, vec![16, 35]);
    assert!(f.layout.digit_cols.iter().all(|c| c + DIGIT_SPAN <= 54));
    assert_eq!(f.layout.date, Some(WindowRect { row: 6, col: 21, height: 3, width: 12 }));
    assert_eq!(f.paints.len(), 6 * 15 + 2 * 2);
    assert_eq!(f.paints[0], Paint { row: 1, col: 1, filled: true });
    assert_eq!(f.paints[4], Paint { row: 2, col: 3, filled: false });
    assert_eq!(f.paints[15], Paint { row: 1, col: 8, filled: true });
    assert_eq!(f.paints[30], Paint { row: 2, col: 16, filled: true });
    assert_eq!(f.paints[31], Paint { row: 4, col: 16, filled: true });
    assert_eq!(f.paints[32], Paint { row: 1, col: 20, filled: true });
    assert_eq!(f.paints[62], Paint { row: 2, col: 35, filled: true });
    assert_eq!(f.paints[63], Paint { row: 4, col: 35, filled: true });
    assert_eq!(f.paints[64], Paint { row: 1, col: 39, filled: true });
    assert_eq!(f.paints[93], Paint { row: 5, col: 50, filled: true });
}

#[test]
fn hidden_date_ignores_the_date_format() {
    let mut cfg = config(true, false);
    cfg.show_date = false;
    cfg.date_format = "%Q".to_string();
    let f = frame_at(&at(9, 5, 3), &cfg, 24, 80).unwrap();
    assert_eq!(f.sample.date, "");
    assert!(f.layout.date.is_none());
    assert_eq!(digits(&f.sample), [0, 9, 0, 5, 0, 3]);
}

#[test]
fn stamp_carries_the_given_date() {
    let ts = stamp(&at(13, 4, 56), HourFormat::TwelveHour, "today".to_string());
    assert_eq!(digits(&ts), [0, 1, 0, 4, 5, 6]);
    assert_eq!(ts.date, "today");
    assert_eq!(ts.mode, HourFormat::TwelveHour);
}

#[test]
fn frame_with_bad_format_is_none() {
    let mut cfg = config(true, false);
    cfg.date_format = "%Q".to_string();
    assert!(frame_at(&at(9, 5, 3), &cfg, 24, 80).is_none());
}

#[test]
fn render_places_cells_two_columns_wide() {
    let r = render(&glyph_of(7), 1, 20);
    assert_eq!(r.len(), 15);
    assert_eq!(r[0], Paint { row: 1, col: 20, filled: true });
    assert_eq!(r[1], Paint { row: 1, col: 22, filled: true });
    assert_eq!(r[3], Paint { row: 2, col: 20, filled: false });
    assert_eq!(r[14], Paint { row: 5, col: 24, filled: true });
}

#[test]
fn blinking_dots_hide_on_odd_seconds() {
    let mut cfg = config(true, false);
    cfg.blink_colon = true;
    let l = layout(&cfg, 24, 80, 10);
    let odd = sample(&at(9, 5, 3), HourFormat::TwentyFourHour, "%F").unwrap();
    let even = sample(&at(9, 5, 4), HourFormat::TwentyFourHour, "%F").unwrap();
    let dots = [30, 31, 62, 63];
    let p = compose(&odd, &l);
    assert_eq!(p.len(), 94);
    assert!(dots.iter().all(|i| !p[*i].filled));
    let p = compose(&even, &l);
    assert!(dots.iter().all(|i| p[*i].filled));
    assert_eq!(p[30], Paint { row: 2, col: 16, filled: true });
    assert_eq!(p[31], Paint { row: 4, col: 16, filled: true });
}

#[test]
fn four_digit_face_has_one_separator() {
    let l = layout(&config(false, false), 24, 80, 10);
    let ts = sample(&at(9, 5, 3), HourFormat::TwentyFourHour, "%F").unwrap();
    let p = compose(&ts, &l);
    assert_eq!(p.len(), 4 * 15 + 2);
    assert_eq!(p[30], Paint { row: 2, col: 16, filled: true });
    assert_eq!(p[32], Paint { row: 1, col: 20, filled: true });
}

#[test]
fn config_toggles() {
    let mut cfg = DisplayConfig::new();
    _set_second(&mut cfg);
    assert!(!cfg.show_seconds);
    _set_second(&mut cfg);
    assert!(cfg.show_seconds);
    _set_center(&mut cfg, true);
    assert!(cfg.center);
    _set_box(&mut cfg, true);
    assert!(cfg.draw_box);
    _set_box(&mut cfg, false);
    assert!(!cfg.draw_box);
}

#[test]
fn clock_move_leaves_the_layout_alone() {
    let cfg = config(true, false);
    let before = layout(&cfg, 24, 80, 10);
    _clock_move(3, 10, 54, 7);
    let after = layout(&cfg, 24, 80, 10);
    assert_eq!(before.frame, after.frame);
    assert_eq!(before.date, after.date);
}

#[test]
fn shutdown_flag_ends_after_one_cycle() {
    let mut c = Controller::new(true);
    assert_eq!(c.step(Event::Ready), Action::Render);
    assert_eq!(c.step(Event::Tick { shutdown: false, key: false }), Action::Render);
    assert_eq!(c.step(Event::Tick { shutdown: true, key: false }), Action::Teardown);
    assert_eq!(c.phase, Phase::Terminating);
    assert_eq!(c.step(Event::TornDown), Action::Exit);
    assert_eq!(c.phase, Phase::Stopped);
    assert!(!c.failed);
}

#[test]
fn failed_setup_still_tears_down() {
    let mut c = Controller::new(true);
    assert_eq!(c.step(Event::Failed), Action::Teardown);
    assert!(c.failed);
    assert_eq!(c.step(Event::TornDown), Action::Exit);
    assert!(c.failed);
}

#[test]
fn render_failure_tears_down() {
    let mut c = Controller::new(false);
    c.step(Event::Ready);
    assert!(!c.failed);
    assert_eq!(c.step(Event::Failed), Action::Teardown);
    assert!(c.failed);
}

#[test]
fn key_press_quits_only_when_enabled() {
    let mut c = Controller::new(true);
    c.step(Event::Ready);
    assert_eq!(_key_event(&mut c), Action::Teardown);
    let mut c = Controller::new(false);
    c.step(Event::Ready);
    assert_eq!(_key_event(&mut c), Action::Render);
    assert_eq!(c.phase, Phase::Running);
    assert_eq!(c.step(Event::Tick { shutdown: true, key: true }), Action::Teardown);
}
