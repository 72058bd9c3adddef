//! Scenario tests for the log-driven update-completion state machine.

use jetbrains_toolbox_updater::errors::UpdateError;
use jetbrains_toolbox_updater::monitor::{
    classify_line, initial_monitor_state, monitor_step, run_monitor, LineClass, MonitorAction,
    MonitorEvent, TimedEvent,
};

fn line(at_ms: u64, text: &str) -> TimedEvent {
    TimedEvent { at_ms, event: MonitorEvent::Line(String::from(text)) }
}

fn no_line(at_ms: u64) -> TimedEvent {
    TimedEvent { at_ms, event: MonitorEvent::NoLine }
}

#[test]
fn classify_recognises_each_marker() {
    assert_eq!(
        classify_line("12:00 [Updater] Downloading from https://example.invalid/idea.tar.gz"),
        LineClass::UpdateMarker { checksum: false, download: true }
    );
    assert_eq!(
        classify_line("12:01 [Updater] Correct checksum for idea.tar.gz"),
        LineClass::UpdateMarker { checksum: true, download: false }
    );
    assert_eq!(classify_line("12:05 Show notification: update ready"), LineClass::NotificationShown);
    assert_eq!(
        classify_line("12:06 Awaiting user action or background state to install."),
        LineClass::SelfUpdateReady
    );
    assert_eq!(
        classify_line(
            "12:07 Shutting down. Reason: The updated app is starting, closing the current process"
        ),
        LineClass::SelfUpdateRestart
    );
    assert_eq!(classify_line("12:08 Downloaded fus-assistant.xml in 80 ms"), LineClass::StartupMarker);
    assert_eq!(classify_line("12:09 nothing interesting here"), LineClass::Other);
}

#[test]
fn counting_correctness() {
    // One update: download started, its checksum confirmed, then installed.
    let events = vec![
        line(100, "Downloading from https://example.invalid/idea.tar.gz"),
        line(200, "Correct checksum for idea.tar.gz"),
        line(300, "Show notification: update finished"),
    ];
    match run_monitor(&events) {
        Some(Ok(out)) => {
            assert_eq!(out.updates_started, 1);
            assert!(!out.redo);
            assert_eq!(out.pause_ms, 2_000);
        },
        other => panic!("expected success, got {:?}", other),
    }
}

#[test]
fn pre_cached_update_counts_as_one() {
    // A pre-cached download skips "Downloading from" and goes straight to
    // the checksum: still exactly one update, not zero.
    let events = vec![
        line(100, "Correct checksum for idea.tar.gz"),
        line(200, "Show notification: update finished"),
    ];
    match run_monitor(&events) {
        Some(Ok(out)) => {
            assert_eq!(out.updates_started, 1);
            assert!(!out.redo);
        },
        other => panic!("expected success, got {:?}", other),
    }
}

#[test]
fn two_concurrent_updates_finish_after_second_notification() {
    let events = vec![
        line(100, "Downloading from https://example.invalid/a.tar.gz"),
        line(110, "Downloading from https://example.invalid/b.tar.gz"),
        line(200, "Correct checksum for a.tar.gz"),
        line(210, "Correct checksum for b.tar.gz"),
        line(300, "Show notification: first update finished"),
        line(310, "Show notification: second update finished"),
    ];
    match run_monitor(&events) {
        Some(Ok(out)) => {
            assert_eq!(out.updates_started, 2);
            assert!(!out.redo);
        },
        other => panic!("expected success, got {:?}", other),
    }
}

#[test]
fn no_updates_timeout_exits_cleanly() {
    // Startup marker, then silence past the idle window: success with zero
    // updates and no redo.
    let events = vec![
        line(1_000, "Downloaded fus-assistant.xml in 80 ms"),
        no_line(5_000),
        no_line(11_001),
    ];
    match run_monitor(&events) {
        Some(Ok(out)) => {
            assert_eq!(out.updates_started, 0);
            assert!(!out.redo);
            assert_eq!(out.pause_ms, 0);
        },
        other => panic!("expected success, got {:?}", other),
    }
}

#[test]
fn idle_window_not_yet_elapsed_keeps_polling() {
    // At exactly startup + idle the monitor is still waiting.
    let events = vec![line(1_000, "Downloaded fus-assistant.xml"), no_line(11_000)];
    assert!(run_monitor(&events).is_none());
}

#[test]
fn startup_timeout_fails_without_counting() {
    let events = vec![no_line(60_001)];
    match run_monitor(&events) {
        Some(Err(e)) => assert!(matches!(e, UpdateError::StartupFusAssistantTimeout)),
        other => panic!("expected startup timeout, got {:?}", other),
    }
}

#[test]
fn startup_timeout_boundary_still_waits() {
    let events = vec![no_line(60_000)];
    assert!(run_monitor(&events).is_none());
}

#[test]
fn startup_timeout_applies_even_during_updates() {
    // An update in flight does not excuse a missing startup marker.
    let events = vec![
        line(100, "Downloading from https://example.invalid/a.tar.gz"),
        no_line(60_001),
    ];
    match run_monitor(&events) {
        Some(Err(e)) => assert!(matches!(e, UpdateError::StartupFusAssistantTimeout)),
        other => panic!("expected startup timeout, got {:?}", other),
    }
}

#[test]
fn duplicate_startup_marker_is_an_error() {
    let events = vec![
        line(100, "Downloaded fus-assistant.xml"),
        line(200, "Downloaded fus-assistant.xml"),
    ];
    match run_monitor(&events) {
        Some(Err(e)) => assert!(matches!(e, UpdateError::DoubleStartupFusAssistant)),
        other => panic!("expected duplicate-startup error, got {:?}", other),
    }
}

#[test]
fn self_update_restart_requests_redo() {
    let events = vec![
        line(100, "Downloading from https://example.invalid/toolbox.tar.gz"),
        line(200, "Correct checksum for toolbox.tar.gz"),
        line(300, "Awaiting user action or background state to install."),
        line(
            400,
            "Shutting down. Reason: The updated app is starting, closing the current process",
        ),
    ];
    match run_monitor(&events) {
        Some(Ok(out)) => {
            assert!(out.redo);
            assert_eq!(out.pause_ms, 30_000);
        },
        other => panic!("expected redo, got {:?}", other),
    }
}

#[test]
fn stray_notification_is_ignored_not_underflowed() {
    // A notification with nothing pending must not end the session nor
    // wrap the counter; the update that follows is still counted.
    let events = vec![
        line(100, "Show notification: stale entry"),
        line(200, "Downloading from https://example.invalid/a.tar.gz"),
        line(300, "Correct checksum for a.tar.gz"),
        line(400, "Show notification: update finished"),
    ];
    match run_monitor(&events) {
        Some(Ok(out)) => assert_eq!(out.updates_started, 1),
        other => panic!("expected success, got {:?}", other),
    }
}

#[test]
fn checksum_for_counted_download_is_consumed() {
    // The checksum confirmation of a counted download must not count as a
    // second update: a single notification ends monitoring.
    let events = vec![
        line(100, "Downloading from https://example.invalid/a.tar.gz"),
        line(200, "Correct checksum for a.tar.gz"),
        line(300, "Correct checksum for b.tar.gz"),
        line(400, "Show notification: a finished"),
        line(500, "Show notification: b finished"),
    ];
    // The second checksum (no download counted for it) starts update b.
    match run_monitor(&events) {
        Some(Ok(out)) => assert_eq!(out.updates_started, 2),
        other => panic!("expected success, got {:?}", other),
    }
}

#[test]
fn no_line_polls_and_preserves_state() {
    let s0 = initial_monitor_state();
    let (s1, a) = monitor_step(s0, 500, &MonitorEvent::NoLine);
    assert!(matches!(a, MonitorAction::Poll));
    assert_eq!(s1, s0);
}

#[test]
fn script_exhaustion_reports_nothing() {
    let events = vec![no_line(100), no_line(200)];
    assert!(run_monitor(&events).is_none());
}
