//! Scenario tests for the session protocol and its bounded retry.

use jetbrains_toolbox_updater::errors::UpdateError;
use jetbrains_toolbox_updater::session::{
    initial_session_state, session_step, update_jetbrains_toolbox, RetryDepth, SessionAction,
    SessionEvent, SessionState,
};

fn terminated(was_running: bool) -> SessionEvent {
    SessionEvent::AppTerminated { was_running }
}

/// Drives a fresh session over the events, returning every action the
/// machine asked for, in order.
fn drive(events: Vec<SessionEvent>) -> Vec<SessionAction> {
    let mut actions = Vec::new();
    let mut s: SessionState = initial_session_state(RetryDepth::Initial);
    for ev in events {
        let (s1, a) = session_step(s, ev);
        let finished = matches!(a, SessionAction::Finish(_));
        actions.push(a);
        s = s1;
        if finished {
            break;
        }
    }
    actions
}

#[test]
fn quiet_session_finishes_ok() {
    // App not open, monitor reports no redo.
    let events = vec![
        terminated(false),
        SessionEvent::AutoUpdateEnabled,
        SessionEvent::AppLaunched,
        SessionEvent::MonitorFinished { redo: false },
        terminated(true),
        SessionEvent::ConfigReverted,
    ];
    assert!(matches!(update_jetbrains_toolbox(events), Some(Ok(()))));
}

fn open_app_events() -> Vec<SessionEvent> {
    vec![
        terminated(true),
        SessionEvent::AutoUpdateEnabled,
        SessionEvent::AppLaunched,
        SessionEvent::MonitorFinished { redo: false },
        terminated(true),
        SessionEvent::ConfigReverted,
        SessionEvent::AppLaunched,
    ]
}

#[test]
fn open_app_is_relaunched_before_finishing() {
    let actions = drive(open_app_events());
    // After the revert the machine asks for a relaunch, then finishes.
    assert!(matches!(actions[actions.len() - 2], SessionAction::LaunchApp));
    assert!(matches!(actions[actions.len() - 1], SessionAction::Finish(Ok(()))));
    assert!(matches!(update_jetbrains_toolbox(open_app_events()), Some(Ok(()))));
}

fn one_attempt(redo: bool) -> Vec<SessionEvent> {
    vec![
        terminated(false),
        SessionEvent::AutoUpdateEnabled,
        SessionEvent::AppLaunched,
        SessionEvent::MonitorFinished { redo },
        terminated(true),
        SessionEvent::ConfigReverted,
    ]
}

#[test]
fn single_redo_restarts_once_and_finishes() {
    let mut events = one_attempt(true);
    events.extend(one_attempt(false));
    let actions = drive(events);
    let monitor_runs =
        actions.iter().filter(|a| matches!(a, SessionAction::MonitorLogs)).count();
    assert_eq!(monitor_runs, 2);
    let mut events = one_attempt(true);
    events.extend(one_attempt(false));
    assert!(matches!(update_jetbrains_toolbox(events), Some(Ok(()))));
}

#[test]
fn double_redo_fails_without_third_attempt() {
    // The monitor requests a redo on the initial and on the retried
    // attempt: the session must fail with DoubleToolboxSelfUpdate and must
    // never start a third attempt.
    let mut events = one_attempt(true);
    events.extend(one_attempt(true));
    // Extra events that a third attempt would consume; the machine must
    // never ask for them.
    events.extend(one_attempt(false));
    let actions = drive(events);
    let monitor_runs =
        actions.iter().filter(|a| matches!(a, SessionAction::MonitorLogs)).count();
    assert_eq!(monitor_runs, 2);
    assert!(matches!(
        actions.last(),
        Some(SessionAction::Finish(Err(UpdateError::DoubleToolboxSelfUpdate)))
    ));
    let mut events = one_attempt(true);
    events.extend(one_attempt(true));
    events.extend(one_attempt(false));
    assert!(matches!(
        update_jetbrains_toolbox(events),
        Some(Err(UpdateError::DoubleToolboxSelfUpdate))
    ));
}

fn monitor_failure_events() -> Vec<SessionEvent> {
    vec![
        terminated(false),
        SessionEvent::AutoUpdateEnabled,
        SessionEvent::AppLaunched,
        SessionEvent::ActionFailed(UpdateError::StartupFusAssistantTimeout),
        SessionEvent::ConfigReverted,
    ]
}

#[test]
fn monitor_failure_reverts_then_surfaces_error() {
    let actions = drive(monitor_failure_events());
    // The failure is followed by a revert, then surfaced.
    assert!(matches!(actions[actions.len() - 2], SessionAction::RevertAutoUpdate));
    assert!(matches!(
        update_jetbrains_toolbox(monitor_failure_events()),
        Some(Err(UpdateError::StartupFusAssistantTimeout))
    ));
}

#[test]
fn launch_failure_reverts_before_surfacing() {
    let events = vec![
        terminated(false),
        SessionEvent::AutoUpdateEnabled,
        SessionEvent::ActionFailed(UpdateError::PrematureExit),
        SessionEvent::ConfigReverted,
    ];
    let actions = drive(events);
    assert!(matches!(actions[actions.len() - 2], SessionAction::RevertAutoUpdate));
    assert!(matches!(
        actions.last(),
        Some(SessionAction::Finish(Err(UpdateError::PrematureExit)))
    ));
}

#[test]
fn enable_failure_surfaces_directly() {
    // A failure in the enable sweep itself is surfaced with no revert.
    let actions = drive(vec![
        terminated(false),
        SessionEvent::ActionFailed(UpdateError::InvalidChannel),
    ]);
    assert_eq!(actions.len(), 2);
    assert!(matches!(
        actions.last(),
        Some(SessionAction::Finish(Err(UpdateError::InvalidChannel)))
    ));
    assert!(matches!(
        update_jetbrains_toolbox(vec![
            terminated(false),
            SessionEvent::ActionFailed(UpdateError::InvalidChannel),
        ]),
        Some(Err(UpdateError::InvalidChannel))
    ));
}

#[test]
fn revert_failure_wins_over_monitored_error() {
    let events = vec![
        terminated(false),
        SessionEvent::AutoUpdateEnabled,
        SessionEvent::AppLaunched,
        SessionEvent::ActionFailed(UpdateError::StartupFusAssistantTimeout),
        SessionEvent::ActionFailed(UpdateError::InvalidChannel),
    ];
    assert!(matches!(
        update_jetbrains_toolbox(events),
        Some(Err(UpdateError::InvalidChannel))
    ));
}

fn vanished_app_events() -> Vec<SessionEvent> {
    vec![
        terminated(false),
        SessionEvent::AutoUpdateEnabled,
        SessionEvent::AppLaunched,
        SessionEvent::MonitorFinished { redo: false },
        terminated(false),
        SessionEvent::ConfigReverted,
    ]
}

#[test]
fn vanished_app_is_premature_exit() {
    // Nothing left to terminate after the update cycle: the configuration
    // is still reverted, then PrematureExit surfaces.
    let actions = drive(vanished_app_events());
    assert!(matches!(actions[actions.len() - 2], SessionAction::RevertAutoUpdate));
    assert!(matches!(
        update_jetbrains_toolbox(vanished_app_events()),
        Some(Err(UpdateError::PrematureExit))
    ));
}

#[test]
fn mismatched_event_stops_the_run() {
    let events = vec![SessionEvent::ConfigReverted];
    assert!(update_jetbrains_toolbox(events).is_none());
}

#[test]
fn exhausted_script_reports_nothing() {
    let events = vec![terminated(false), SessionEvent::AutoUpdateEnabled];
    assert!(update_jetbrains_toolbox(events).is_none());
}
