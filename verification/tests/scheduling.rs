//! The scheduling core: ticker, bridge, multiplexer, highlight state.

use cnx::bridge::{Bridge, BridgePoll, BridgeState};
use cnx::highlight::{HighlightState, FALLBACK_INTERVAL_NS};
use cnx::mpd::PlayerStatus;
use cnx::mux::Mux;
use cnx::ticker::Ticker;
use cnx::WidgetError;

#[test]
fn ticker_fires_exactly_at_deadline() {
    let mut t = Ticker::new(0, 5);
    assert_eq!(t.deadline, 5);
    assert!(!t.poll(4, 5));
    assert_eq!(t.deadline, 5);
    assert!(t.poll(5, 7));
    assert_eq!(t.deadline, 12);
}

#[test]
fn ticker_constant_duration_has_no_drift() {
    // Polled promptly with a constant duration, fire instants stay on
    // the exact grid however many fires pass.
    let d = 60;
    let mut t = Ticker::new(0, d);
    let mut now = 0;
    for i in 1..100u64 {
        now = t.deadline;
        assert_eq!(now, i * d);
        assert!(t.poll(now, d));
    }
    let _ = now;
}

#[test]
fn ticker_rearms_relative_to_late_wakeup() {
    // A delayed wake re-arms from the actual instant, not the missed
    // deadline.
    let mut t = Ticker::new(0, 10);
    assert!(t.poll(25, 10));
    assert_eq!(t.deadline, 35);
}

#[test]
fn ticker_zero_duration_fires_immediately_on_next_poll() {
    let mut t = Ticker::new(7, 0);
    assert!(t.poll(7, 3));
    assert_eq!(t.deadline, 10);
}

#[test]
fn bridge_poll_is_idempotent_while_waiting() {
    let mut b = Bridge::new();
    assert_eq!(b.poll(false), BridgePoll::Spawn);
    // Repeated polls while the worker runs spawn nothing further.
    for _ in 0..10 {
        assert_eq!(b.poll(false), BridgePoll::Pending);
    }
    assert_eq!(b.state, BridgeState::Waiting);
}

#[test]
fn bridge_completion_delivers_one_tick_then_one_respawn() {
    let mut b = Bridge::new();
    assert_eq!(b.poll(false), BridgePoll::Spawn);
    assert_eq!(b.poll(true), BridgePoll::Ready);
    assert_eq!(b.poll(false), BridgePoll::Spawn);
    assert_eq!(b.poll(false), BridgePoll::Pending);
}

#[test]
fn mux_two_sources_two_ticks_first_order() {
    let mut m = Mux::new();
    m.push_ready(0);
    m.push_ready(1);
    assert_eq!(m.poll_next(), Some(0));
    assert_eq!(m.poll_next(), Some(1));
    assert_eq!(m.poll_next(), None);
}

#[test]
fn mux_two_sources_two_ticks_other_order() {
    let mut m = Mux::new();
    m.push_ready(1);
    m.push_ready(0);
    assert_eq!(m.poll_next(), Some(1));
    assert_eq!(m.poll_next(), Some(0));
    assert_eq!(m.poll_next(), None);
}

#[test]
fn highlight_starts_stale_with_fallback_cadence() {
    let h = HighlightState::new(50);
    assert!(h.stale);
    assert_eq!(h.interval_ns, FALLBACK_INTERVAL_NS);
    assert_eq!(h.ticker.deadline, 50);
    assert_eq!(h.bridge.state, BridgeState::Idle);
}

#[test]
fn highlight_polled_then_dropped_leaves_nothing() {
    // A stream polled once and dropped before any tick fires: no tick
    // is delivered and only the one armed wait was ever requested.
    let mut h = HighlightState::new(10);
    assert_eq!(h.poll_bridge(false), BridgePoll::Spawn);
    assert_eq!(h.poll_bridge(false), BridgePoll::Pending);
    assert!(!h.poll_tick(9));
    drop(h);
}

#[test]
fn highlight_resync_recomputes_cadence() {
    let mut h = HighlightState::new(0);
    let st = PlayerStatus {
        elapsed_ns: Some(5_000_000_000),
        length_ns: Some(20_000_000_000),
    };
    let r = h.resync(100, Ok(st), 20);
    assert!(r.is_ok());
    // One character per twentieth of the track: one second.
    assert_eq!(h.interval_ns, 1_000_000_000);
    // The restarted ticker fires immediately.
    assert_eq!(h.ticker.deadline, 100);
    assert!(h.poll_tick(100));
    assert_eq!(h.ticker.deadline, 100 + 1_000_000_000);
}

#[test]
fn highlight_resync_keeps_cadence_while_paused() {
    let mut h = HighlightState::new(0);
    let paused = PlayerStatus { elapsed_ns: None, length_ns: None };
    let r = h.resync(42, Ok(paused), 20);
    assert!(r.is_ok());
    assert_eq!(h.interval_ns, FALLBACK_INTERVAL_NS);
    assert_eq!(h.ticker.deadline, 0);
}

#[test]
fn highlight_resync_error_changes_nothing() {
    let mut h = HighlightState::new(0);
    let r = h.resync(9, Err(WidgetError::new(String::from("gone"))), 20);
    assert!(r.is_err());
    assert_eq!(r.err().unwrap().message, "gone");
    assert_eq!(h.interval_ns, FALLBACK_INTERVAL_NS);
    assert!(h.stale);
}

#[test]
fn highlight_stale_flag_is_taken_once() {
    let mut h = HighlightState::new(0);
    assert!(h.take_stale());
    assert!(!h.take_stale());
    h.mark_stale();
    assert!(h.take_stale());
    assert!(!h.take_stale());
}
