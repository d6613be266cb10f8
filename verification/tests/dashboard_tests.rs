use netstats::dashboard::KeyInput;
use netstats::dashboard::LoopControl;
use netstats::dashboard::capture_step;
use netstats::dashboard::classify_key;
use netstats::dashboard::dashboard_step;
use netstats::stats::AppState;

#[test]
fn key_bindings() {
    assert_eq!(classify_key('q'), KeyInput::Quit);
    assert_eq!(classify_key('+'), KeyInput::Widen);
    assert_eq!(classify_key('-'), KeyInput::Narrow);
    assert_eq!(classify_key('x'), KeyInput::Other);
    assert_eq!(classify_key(' '), KeyInput::Other);
}

#[test]
fn quit_key_stops_and_exits_at_once() {
    let mut s = AppState::new();
    let r = dashboard_step(&mut s, Some(KeyInput::Quit));
    assert_eq!(r, LoopControl::Exit);
    assert!(!s.running);
}

#[test]
fn window_keys_adjust_the_bound() {
    let mut s = AppState::new();
    let r = dashboard_step(&mut s, Some(KeyInput::Widen));
    assert_eq!(r, LoopControl::Continue);
    assert_eq!(s.window_size, 70);
    let r = dashboard_step(&mut s, Some(KeyInput::Narrow));
    assert_eq!(r, LoopControl::Continue);
    assert_eq!(s.window_size, 60);
    assert!(s.running);
}

#[test]
fn other_keys_and_timeouts_change_nothing() {
    let mut s = AppState::new();
    let r = dashboard_step(&mut s, Some(KeyInput::Other));
    assert_eq!(r, LoopControl::Continue);
    let r = dashboard_step(&mut s, None);
    assert_eq!(r, LoopControl::Continue);
    assert_eq!(s.window_size, 60);
    assert!(s.running);
    assert_eq!(s.stats.packets_captured, 0);
}

#[test]
fn dashboard_exits_after_external_stop() {
    let mut s = AppState::new();
    s.request_stop();
    let r = dashboard_step(&mut s, None);
    assert_eq!(r, LoopControl::Exit);
}

#[test]
fn capture_end_leaves_dashboard_running() {
    let mut s = AppState::new();
    // The capture source hands over five packets and then ends its stream;
    // the packet loop simply stops calling in, and the dashboard side is
    // untouched until the user quits.
    for _ in 0..5 {
        let r = capture_step(&mut s, 60);
        assert_eq!(r, LoopControl::Continue);
    }
    assert!(s.running);
    assert_eq!(s.stats.packets_captured, 5);
    assert_eq!(s.stats.total_bytes, 300);
    let r = dashboard_step(&mut s, Some(KeyInput::Quit));
    assert_eq!(r, LoopControl::Exit);
    assert!(!s.running);
}

#[test]
fn capture_step_exits_once_stopped() {
    let mut s = AppState::new();
    s.request_stop();
    let r = capture_step(&mut s, 42);
    assert_eq!(r, LoopControl::Exit);
    // The packet itself is still recorded before the loop exits.
    assert_eq!(s.stats.packets_captured, 1);
}
