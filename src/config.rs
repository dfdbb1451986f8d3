use crate::time::HourFormat;
use vstd::prelude::*;

verus! {

/// Colour index of green, the default clock colour.
pub const DEFAULT_COLOR: u8 = 2;

/// Nanoseconds in one second; the sub-second delay stays below it.
pub const NANOS_PER_SECOND: u32 = 1_000_000_000;

/// The options of one run, read-only once rendering starts.
#[derive(Debug)]
pub struct DisplayConfig {
    /// Show the seconds digits and their separator.
    pub show_seconds: bool,
    /// Show the date line under the clock.
    pub show_date: bool,
    /// Place the clock at the centre of the terminal.
    pub center: bool,
    /// Draw a border round the clock.
    pub draw_box: bool,
    /// Use bold colours.
    pub bold: bool,
    /// One of the eight base colours, 0 to 7.
    pub color: u8,
    /// Toggle the separator dots with the seconds.
    pub blink_colon: bool,
    pub hour_format: HourFormat,
    /// Read UTC rather than local time.
    pub utc: bool,
    /// strftime-style format of the date line.
    pub date_format: String,
    /// Leave on the first key press.
    pub quit_on_key: bool,
    /// Whole seconds between two redraws.
    pub delay_secs: u64,
    /// Nanoseconds added to the delay between two redraws.
    pub delay_nanos: u32,
    /// Terminal device to draw on, the controlling one when `None`.
    pub tty: Option<String>,
}

impl DisplayConfig {
    /// The colour names a base colour and the sub-second delay is below one
    /// second.
    pub open spec fn wf(&self) -> bool {
        &&& self.color < 8
        &&& self.delay_nanos < NANOS_PER_SECOND
    }

    /// The defaults: seconds, date line in 12-hour mode with the meridiem,
    /// green, redraw every second, leave on a key press.
    pub fn new() -> (c: DisplayConfig)
        ensures
            c.wf(),
            c.show_seconds,
            c.show_date,
            !c.center,
            !c.draw_box,
            !c.bold,
            c.color == DEFAULT_COLOR,
            !c.blink_colon,
            c.hour_format == HourFormat::TwelveHour,
            !c.utc,
            c.date_format@ == "%F [%p]"@,
            c.quit_on_key,
            c.delay_secs == 1,
            c.delay_nanos == 0,
            c.tty is None,
    {
        DisplayConfig {
            show_seconds: true,
            show_date: true,
            center: false,
            draw_box: false,
            bold: false,
            color: DEFAULT_COLOR,
            blink_colon: false,
            hour_format: HourFormat::TwelveHour,
            utc: false,
            date_format: "%F [%p]".to_owned(),
            quit_on_key: true,
            delay_secs: 1,
            delay_nanos: 0,
            tty: None,
        }
    }
}

/// `a` and `b` agree on every option but the three display toggles.
pub open spec fn same_but_toggles(a: &DisplayConfig, b: &DisplayConfig) -> bool {
    &&& a.show_date == b.show_date
    &&& a.bold == b.bold
    &&& a.color == b.color
    &&& a.blink_colon == b.blink_colon
    &&& a.hour_format == b.hour_format
    &&& a.utc == b.utc
    &&& a.date_format@ == b.date_format@
    &&& a.quit_on_key == b.quit_on_key
    &&& a.delay_secs == b.delay_secs
    &&& a.delay_nanos == b.delay_nanos
    &&& a.tty == b.tty
}

/// Turns the seconds display on when it is off and off when it is on.
pub fn _set_second(cfg: &mut DisplayConfig)
    ensures
        final(cfg).show_seconds == !old(cfg).show_seconds,
        final(cfg).center == old(cfg).center,
        final(cfg).draw_box == old(cfg).draw_box,
        same_but_toggles(old(cfg), final(cfg)),
{
    cfg.show_seconds = !cfg.show_seconds;
}

/// Turns centring on or off.
pub fn _set_center(cfg: &mut DisplayConfig, b: bool)
    ensures
        final(cfg).center == b,
        final(cfg).show_seconds == old(cfg).show_seconds,
        final(cfg).draw_box == old(cfg).draw_box,
        same_but_toggles(old(cfg), final(cfg)),
{
    cfg.center = b;
}

/// Turns the border on or off.
pub fn _set_box(cfg: &mut DisplayConfig, b: bool)
    ensures
        final(cfg).draw_box == b,
        final(cfg).show_seconds == old(cfg).show_seconds,
        final(cfg).center == old(cfg).center,
        same_but_toggles(old(cfg), final(cfg)),
{
    cfg.draw_box = b;
}

} // verus!
