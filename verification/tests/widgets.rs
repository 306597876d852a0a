//! The widgets: MPD highlight rendering, clock, battery, thin widgets.

use cnx::battery::{parse_status, Battery, BatteryReadings, Status};
use cnx::clock::{Clock, Days, Hours, LocalTime, Minutes, Seconds};
use cnx::inotify::{Inotify, WatchMask};
use cnx::mpd::{highlight_offset, split_at_offset, Mpd, PlayerStatus, Subsystem};
use cnx::numeric::{decimal_string, padded_two_digits};
use cnx::placeholder::Placeholder;
use cnx::separator::Separator;
use cnx::text::{Attributes, Color, Padding, Text};
use cnx::WidgetError;

fn attr() -> Attributes {
    Attributes::new(
        String::from("Fira Code 21"),
        Color::white(),
        None,
        Padding::new(8, 8, 0, 0),
    )
}

#[test]
fn highlight_offset_half_track_half_string() {
    // A 200 s track, 100 s in, over 20 characters: offset 10.
    let offset = highlight_offset(100_000_000_000, 200_000_000_000, 20);
    assert_eq!(offset, 10);
}

#[test]
fn highlight_offset_rounds_to_nearest() {
    // 55% of 20 characters = 11.0; 57% rounds to 11; 58% rounds to 12.
    assert_eq!(highlight_offset(57, 100, 20), 11);
    assert_eq!(highlight_offset(58, 100, 20), 12);
    // Past the end of the track the whole string is highlighted.
    assert_eq!(highlight_offset(300, 100, 20), 20);
}

#[test]
fn split_recomposes_string() {
    let (head, tail) = split_at_offset("héllo wörld", 4);
    assert_eq!(head, "héll");
    assert_eq!(tail, "o wörld");
    assert_eq!(head.chars().count() + tail.chars().count(), 11);
}

#[test]
fn mpd_tick_splits_highlight_at_offset() {
    let mut w = Mpd::new(attr(), vec![Subsystem::Player], true, 0);
    let st = PlayerStatus {
        elapsed_ns: Some(100_000_000_000),
        length_ns: Some(200_000_000_000),
    };
    let batch = w
        .tick(5, Ok(st), Some(String::from("aaaaaaaaaabbbbbbbbbb")))
        .unwrap();
    assert_eq!(batch.len(), 2);
    assert_eq!(batch[0].text, "aaaaaaaaaa");
    assert_eq!(batch[1].text, "bbbbbbbbbb");
    // The two frames' lengths always recompose the rendered string.
    assert_eq!(
        batch[0].text.chars().count() + batch[1].text.chars().count(),
        20
    );
    // Elapsed half gets the highlight background and abutting padding.
    assert_eq!(batch[0].attr.bg_color, Some(Color::red()));
    assert_eq!(batch[0].attr.padding.right, 0);
    assert_eq!(batch[1].attr.padding.left, 0);
    assert_eq!(w.last_sync, 5);
}

#[test]
fn mpd_tick_single_frame_without_progress_bar() {
    let mut w = Mpd::new(attr(), Vec::new(), false, 0);
    let st = PlayerStatus {
        elapsed_ns: Some(1_000_000_000),
        length_ns: Some(2_000_000_000),
    };
    let batch = w.tick(1, Ok(st), Some(String::from("song"))).unwrap();
    assert_eq!(batch.len(), 1);
    assert_eq!(batch[0].text, "song");
    assert!(!batch[0].markup);
}

#[test]
fn mpd_error_then_success_keeps_stream_alive() {
    // A query that fails once then succeeds yields an error item
    // followed by a batch; the widget keeps going.
    let mut w = Mpd::new(attr(), Vec::new(), true, 0);
    let failed = w.tick(1, Err(WidgetError::new(String::from("connection reset"))), None);
    assert_eq!(failed.err().unwrap().message, "connection reset");
    let st = PlayerStatus {
        elapsed_ns: Some(0),
        length_ns: Some(200_000_000_000),
    };
    let batch = w.tick(2, Ok(st), Some(String::from("ok now"))).unwrap();
    assert_eq!(batch.len(), 2);
    assert_eq!(batch[0].text, "");
    assert_eq!(batch[1].text, "ok now");
}

#[test]
fn mpd_zero_length_track_renders_unsplit() {
    // A zero-length track has no meaningful progress to highlight.
    let mut w = Mpd::new(attr(), Vec::new(), true, 0);
    let st = PlayerStatus { elapsed_ns: Some(0), length_ns: Some(0) };
    let batch = w.tick(1, Ok(st), Some(String::from("x"))).unwrap();
    assert_eq!(batch.len(), 1);
    assert_eq!(batch[0].text, "x");
}

#[test]
fn mpd_empty_rendering_splits_into_empty_halves() {
    let mut w = Mpd::new(attr(), Vec::new(), true, 0);
    let st = PlayerStatus {
        elapsed_ns: Some(50),
        length_ns: Some(100),
    };
    let batch = w.tick(1, Ok(st), None).unwrap();
    assert_eq!(batch.len(), 2);
    assert_eq!(batch[0].text, "");
    assert_eq!(batch[1].text, "");
}

#[test]
fn mpd_paused_track_renders_unsplit() {
    let mut w = Mpd::new(attr(), Vec::new(), true, 0);
    let st = PlayerStatus { elapsed_ns: None, length_ns: None };
    let batch = w.tick(1, Ok(st), Some(String::from("paused"))).unwrap();
    assert_eq!(batch.len(), 1);
    assert_eq!(batch[0].text, "paused");
}

#[test]
fn clock_boundary_waits() {
    let t = LocalTime {
        year: 2024,
        month: 6,
        day: 15,
        hour: 22,
        minute: 30,
        second: 45,
        nanosecond: 250_000_000,
        offset_seconds: 3600,
    };
    // Until the next day boundary: 60 * (60 * (24 - 22) + (60 - 30)) s.
    assert_eq!(
        Clock::<Days>::wait_for_boundary(&t),
        60 * (60 * 2 + 30) * 1_000_000_000
    );
    // Until the next hour boundary: 60 * (60 - 30) s.
    assert_eq!(Clock::<Hours>::wait_for_boundary(&t), 60 * 30 * 1_000_000_000);
    // Until the next minute boundary: (60 - 45) s.
    assert_eq!(Clock::<Minutes>::wait_for_boundary(&t), 15 * 1_000_000_000);
    // Until the next second boundary.
    assert_eq!(Clock::<Seconds>::wait_for_boundary(&t), 750_000_000);
}

#[test]
fn clock_leap_second_wait_stays_positive() {
    let t = LocalTime {
        year: 2016,
        month: 12,
        day: 31,
        hour: 23,
        minute: 59,
        second: 59,
        nanosecond: 1_999_999_999,
        offset_seconds: 0,
    };
    assert_eq!(Clock::<Seconds>::wait_for_boundary(&t), 1);
}

#[test]
fn clock_tick_renders_one_markup_frame() {
    let c: Clock<Minutes> = Clock::new(attr(), Some(String::from("%H:%M")));
    let batch = c.tick();
    assert_eq!(batch.len(), 1);
    assert!(batch[0].markup);
    assert!(!batch[0].stretch);
    // %H:%M is five characters.
    assert_eq!(batch[0].text.chars().count(), 5);
}

#[test]
fn clock_tick_at_renders_fixed_time() {
    let c: Clock<Seconds> = Clock::new(attr(), Some(String::from("%Y-%m-%d %H:%M:%S")));
    let t = LocalTime {
        year: 2024,
        month: 6,
        day: 15,
        hour: 8,
        minute: 5,
        second: 9,
        nanosecond: 0,
        offset_seconds: 0,
    };
    let batch = c.tick_at(&t);
    assert_eq!(batch[0].text, "2024-06-15 08:05:09");
}

#[test]
fn parse_status_accepts_the_four_words() {
    assert_eq!(parse_status("Full").unwrap(), Status::Full);
    assert_eq!(parse_status("Charging").unwrap(), Status::Charging);
    assert_eq!(parse_status("Discharging").unwrap(), Status::Discharging);
    assert_eq!(parse_status("Unknown").unwrap(), Status::Unknown);
    assert!(parse_status("Idle").is_err());
    assert!(parse_status("").is_err());
}

#[test]
fn battery_tick_formats_discharge_time() {
    let b = Battery::new(attr(), Color::red());
    let readings = BatteryReadings {
        energy_full: 1000,
        energy_now: 500,
        power_now: 250,
        status: Status::Discharging,
    };
    let out = b.tick(&readings);
    assert_eq!(out.len(), 1);
    // Half charge, two hours to empty at this draw.
    assert_eq!(out[0].text, "(50% - 2:00)");
    assert_eq!(out[0].attr.fg_color, Color::white());
}

#[test]
fn battery_tick_low_discharge_uses_warning_color() {
    let b = Battery::new(attr(), Color::red());
    let readings = BatteryReadings {
        energy_full: 1000,
        energy_now: 50,
        power_now: 250,
        status: Status::Discharging,
    };
    let out = b.tick(&readings);
    assert_eq!(out[0].text, "(5% - 0:12)");
    assert_eq!(out[0].attr.fg_color, Color::red());
}

#[test]
fn battery_tick_charging_counts_missing_energy() {
    let b = Battery::new(attr(), Color::red());
    let readings = BatteryReadings {
        energy_full: 1000,
        energy_now: 900,
        power_now: 200,
        status: Status::Charging,
    };
    let out = b.tick(&readings);
    // 100 to go at 200: half an hour.
    assert_eq!(out[0].text, "(90% - 0:30)");
}

#[test]
fn decimal_rendering_matches() {
    assert_eq!(decimal_string(0), "0");
    assert_eq!(decimal_string(7), "7");
    assert_eq!(decimal_string(40), "40");
    assert_eq!(decimal_string(18446744073709551615), "18446744073709551615");
    assert_eq!(padded_two_digits(3), "03");
    assert_eq!(padded_two_digits(30), "30");
}

#[test]
fn inotify_tick_strips_one_trailing_newline() {
    let w = Inotify::new(attr(), String::from("/tmp/x"), WatchMask::new(2));
    let batch = w.tick("hello\n");
    assert_eq!(batch.len(), 1);
    assert_eq!(batch[0].text, "hello");
    assert!(batch[0].markup);
    let batch = w.tick("two\n\n");
    assert_eq!(batch[0].text, "two\n");
    let batch = w.tick("bare");
    assert_eq!(batch[0].text, "bare");
    let batch = w.tick("");
    assert_eq!(batch[0].text, "");
}

#[test]
fn separator_emits_one_markup_frame() {
    let s = Separator::new(attr(), String::from(" | "));
    let batch = s.into_frames();
    assert_eq!(batch.len(), 1);
    assert_eq!(batch[0].text, " | ");
    assert!(batch[0].markup);
    assert!(!batch[0].stretch);
}

#[test]
fn placeholder_emits_its_frames_unchanged() {
    let frames = vec![
        Text {
            attr: attr(),
            text: String::from("a"),
            stretch: false,
            markup: false,
        },
        Text {
            attr: attr(),
            text: String::from("b"),
            stretch: true,
            markup: false,
        },
    ];
    let p = Placeholder::new(frames);
    let batch = p.into_frames();
    assert_eq!(batch.len(), 2);
    assert_eq!(batch[0].text, "a");
    assert_eq!(batch[1].text, "b");
    assert!(batch[1].stretch);
}

#[test]
fn attributes_padding_adjustments() {
    let a = attr();
    let left = a.clone().strip_right_padding().with_bg(Some(Color::red()));
    assert_eq!(left.padding.right, 0);
    assert_eq!(left.padding.left, 8);
    assert_eq!(left.bg_color, Some(Color::red()));
    let right = a.clone().strip_left_padding();
    assert_eq!(right.padding.left, 0);
    assert_eq!(right.padding.right, 8);
    assert_eq!(right.bg_color, None);
}
