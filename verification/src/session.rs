//! The update-session protocol.
//!
//! A session stops the application, enables auto-update on every channel,
//! relaunches the application minimized, watches its log until the monitor
//! finishes, stops it again, reverts the configuration, restores the
//! application's original running state — and repeats the whole sequence
//! exactly once if the application updated itself mid-session. The protocol
//! is a state machine: the unverified shell performs each returned
//! [`SessionAction`] (process control, the configuration sweeps, the log
//! watch) and feeds the outcome back as a [`SessionEvent`]. The skip set
//! recorded by the enable sweep travels with the shell, from
//! [`change_config`](crate::channels::change_config) to
//! [`reset_config`](crate::channels::reset_config).

use vstd::prelude::*;
use vstd::pervasive::unreached;

use crate::errors::UpdateError;

verus! {

/// How deep in the redo recursion a session attempt runs: the self-update
/// retry is bounded by this marker, not by counting.
#[derive(Debug, Clone, Copy, PartialEq, Eq, Structural)]
pub enum RetryDepth {
    /// The first attempt of the session.
    Initial,
    /// The single retry after a self-update.
    Retried,
}

/// Where in the protocol a session stands.
#[derive(Debug)]
pub enum SessionPhase {
    /// Stopping any running instance before touching configuration.
    Terminate,
    /// Enabling auto-update on every channel.
    Enable,
    /// Launching the application minimized.
    Launch,
    /// Watching the log until the monitor finishes or fails.
    Monitor,
    /// Confirming the application survived the update cycle by stopping it.
    ConfirmRunning,
    /// Reverting the configuration after a successful cycle.
    Revert,
    /// Reverting the configuration after a failure, so auto-update is never
    /// left enabled; the failure is surfaced once the revert is done.
    RevertAfterError(UpdateError),
    /// Restarting the application that was open when the session began.
    Relaunch,
    /// The session is over.
    Done,
}

/// The orchestrator's state across one session, retries included.
#[derive(Debug)]
pub struct SessionState {
    /// Where in the protocol the session stands.
    pub phase: SessionPhase,
    /// Whether this is already the retried attempt.
    pub retried: bool,
    /// Which attempt is running, starting at one.
    pub attempts: u32,
    /// Whether the application was running when the attempt began.
    pub app_was_open: bool,
    /// Whether the monitor requested a redo of the whole session.
    pub redo: bool,
}

/// The outcome of the action the shell was asked to perform.
#[derive(Debug)]
pub enum SessionEvent {
    /// Termination finished; whether anything had been running.
    AppTerminated { was_running: bool },
    /// The enable sweep finished; the shell keeps the recorded skip set for
    /// the later revert sweep.
    AutoUpdateEnabled,
    /// The application was launched.
    AppLaunched,
    /// The monitor finished; whether it requests a redo.
    MonitorFinished { redo: bool },
    /// The revert sweep finished.
    ConfigReverted,
    /// The pending action failed.
    ActionFailed(UpdateError),
}

/// What the shell must do next.
#[derive(Debug)]
pub enum SessionAction {
    /// Stop every running instance of the application and report whether
    /// there was one.
    TerminateApp,
    /// Sweep the channel configuration enabling auto-update, recording the
    /// skip set.
    EnableAutoUpdate,
    /// Start the application minimized.
    LaunchApp,
    /// Watch the log until the monitor finishes or fails.
    MonitorLogs,
    /// Sweep the channel configuration reverting auto-update, respecting
    /// the recorded skip set.
    RevertAutoUpdate,
    /// The session is over with this result.
    Finish(Result<(), UpdateError>),
}

/// The attempt counter agrees with the retry marker; in particular it never
/// exceeds two.
pub open spec fn session_wf(s: SessionState) -> bool {
    s.attempts == if s.retried {
        2int
    } else {
        1int
    }
}

/// The event reports on the action that the phase is waiting for.
pub open spec fn session_event_matches(s: SessionState, ev: SessionEvent) -> bool {
    match s.phase {
        SessionPhase::Terminate => ev is AppTerminated || ev is ActionFailed,
        SessionPhase::ConfirmRunning => ev is AppTerminated || ev is ActionFailed,
        SessionPhase::Enable => ev is AutoUpdateEnabled || ev is ActionFailed,
        SessionPhase::Launch => ev is AppLaunched || ev is ActionFailed,
        SessionPhase::Relaunch => ev is AppLaunched || ev is ActionFailed,
        SessionPhase::Monitor => ev is MonitorFinished || ev is ActionFailed,
        SessionPhase::Revert => ev is ConfigReverted || ev is ActionFailed,
        SessionPhase::RevertAfterError(_) => ev is ConfigReverted || ev is ActionFailed,
        SessionPhase::Done => false,
    }
}

/// The state an attempt starts in.
pub open spec fn initial_session_state_spec(depth: RetryDepth) -> SessionState {
    SessionState {
        phase: SessionPhase::Terminate,
        retried: depth is Retried,
        attempts: if depth is Retried {
            2
        } else {
            1
        },
        app_was_open: false,
        redo: false,
    }
}

/// Builds the state an attempt starts in; the matching first action is
/// [`SessionAction::TerminateApp`].
pub fn initial_session_state(depth: RetryDepth) -> (s: SessionState)
    ensures
        s == initial_session_state_spec(depth),
        session_wf(s),
{
    let retried = match depth {
        RetryDepth::Initial => false,
        RetryDepth::Retried => true,
    };
    SessionState {
        phase: SessionPhase::Terminate,
        retried,
        attempts: if retried {
            2
        } else {
            1
        },
        app_was_open: false,
        redo: false,
    }
}

/// The decision taken once configuration is reverted and the application's
/// running state restored: finish, or redo the whole session exactly once.
pub open spec fn session_decide_spec(s: SessionState) -> (SessionState, SessionAction) {
    if !s.redo {
        ((SessionState { phase: SessionPhase::Done, ..s }), SessionAction::Finish(Ok(())))
    } else if s.retried {
        ((SessionState { phase: SessionPhase::Done, ..s }), SessionAction::Finish(
            Err(UpdateError::DoubleToolboxSelfUpdate),
        ))
    } else {
        ((SessionState {
            phase: SessionPhase::Terminate,
            retried: true,
            attempts: 2,
            app_was_open: false,
            redo: false,
        }), SessionAction::TerminateApp)
    }
}

/// The failure transition: an error during the update cycle first reverts
/// the configuration and is surfaced afterwards; an error anywhere else is
/// surfaced at once; an error during the revert wins over the one it was
/// reverting for.
pub open spec fn session_fail_spec(s: SessionState, e: UpdateError) -> (
    SessionState,
    SessionAction,
) {
    match s.phase {
        SessionPhase::Launch | SessionPhase::Monitor | SessionPhase::ConfirmRunning => (
            (SessionState { phase: SessionPhase::RevertAfterError(e), ..s }),
            SessionAction::RevertAutoUpdate,
        ),
        _ => ((SessionState { phase: SessionPhase::Done, ..s }), SessionAction::Finish(Err(e))),
    }
}

/// The transition relation of the session protocol.
pub open spec fn session_step_spec(s: SessionState, ev: SessionEvent) -> (
    SessionState,
    SessionAction,
)
    recommends
        session_event_matches(s, ev),
{
    match ev {
        SessionEvent::ActionFailed(e) => session_fail_spec(s, e),
        SessionEvent::AppTerminated { was_running } => match s.phase {
            SessionPhase::Terminate => ((SessionState {
                phase: SessionPhase::Enable,
                app_was_open: was_running,
                ..s
            }), SessionAction::EnableAutoUpdate),
            _ => if was_running {
                ((SessionState { phase: SessionPhase::Revert, ..s }),
                SessionAction::RevertAutoUpdate)
            } else {
                ((SessionState {
                    phase: SessionPhase::RevertAfterError(UpdateError::PrematureExit),
                    ..s
                }), SessionAction::RevertAutoUpdate)
            },
        },
        SessionEvent::AutoUpdateEnabled => ((SessionState { phase: SessionPhase::Launch, ..s }),
        SessionAction::LaunchApp),
        SessionEvent::AppLaunched => match s.phase {
            SessionPhase::Launch => ((SessionState { phase: SessionPhase::Monitor, ..s }),
            SessionAction::MonitorLogs),
            _ => session_decide_spec(s),
        },
        SessionEvent::MonitorFinished { redo } => ((SessionState {
            phase: SessionPhase::ConfirmRunning,
            redo,
            ..s
        }), SessionAction::TerminateApp),
        SessionEvent::ConfigReverted => match s.phase {
            SessionPhase::RevertAfterError(e) => ((SessionState {
                phase: SessionPhase::Done,
                ..s
            }), SessionAction::Finish(Err(e))),
            _ => if s.app_was_open {
                ((SessionState { phase: SessionPhase::Relaunch, ..s }), SessionAction::LaunchApp)
            } else {
                session_decide_spec(s)
            },
        },
    }
}

/// Runs one protocol step: consumes the outcome of the last action and
/// returns the updated state together with the next action to perform.
pub fn session_step(s: SessionState, ev: SessionEvent) -> (r: (SessionState, SessionAction))
    requires
        session_wf(s),
        session_event_matches(s, ev),
    ensures
        r == session_step_spec(s, ev),
        session_wf(r.0),
{
    match ev {
        SessionEvent::ActionFailed(e) => match s.phase {
            SessionPhase::Launch | SessionPhase::Monitor | SessionPhase::ConfirmRunning => (
                SessionState { phase: SessionPhase::RevertAfterError(e), ..s },
                SessionAction::RevertAutoUpdate,
            ),
            _ => (SessionState { phase: SessionPhase::Done, ..s }, SessionAction::Finish(Err(e))),
        },
        SessionEvent::AppTerminated { was_running } => match s.phase {
            SessionPhase::Terminate => (
                SessionState { phase: SessionPhase::Enable, app_was_open: was_running, ..s },
                SessionAction::EnableAutoUpdate,
            ),
            SessionPhase::ConfirmRunning => if was_running {
                (SessionState { phase: SessionPhase::Revert, ..s }, SessionAction::RevertAutoUpdate)
            } else {
                (
                    SessionState {
                        phase: SessionPhase::RevertAfterError(UpdateError::PrematureExit),
                        ..s
                    },
                    SessionAction::RevertAutoUpdate,
                )
            },
            _ => unreached(),
        },
        SessionEvent::AutoUpdateEnabled => match s.phase {
            SessionPhase::Enable => (
                SessionState { phase: SessionPhase::Launch, ..s },
                SessionAction::LaunchApp,
            ),
            _ => unreached(),
        },
        SessionEvent::AppLaunched => match s.phase {
            SessionPhase::Launch => (
                SessionState { phase: SessionPhase::Monitor, ..s },
                SessionAction::MonitorLogs,
            ),
            SessionPhase::Relaunch => session_decide(s),
            _ => unreached(),
        },
        SessionEvent::MonitorFinished { redo } => match s.phase {
            SessionPhase::Monitor => (
                SessionState { phase: SessionPhase::ConfirmRunning, redo, ..s },
                SessionAction::TerminateApp,
            ),
            _ => unreached(),
        },
        SessionEvent::ConfigReverted => match s.phase {
            SessionPhase::RevertAfterError(e) => (
                SessionState { phase: SessionPhase::Done, ..s },
                SessionAction::Finish(Err(e)),
            ),
            SessionPhase::Revert => if s.app_was_open {
                (SessionState { phase: SessionPhase::Relaunch, ..s }, SessionAction::LaunchApp)
            } else {
                session_decide(s)
            },
            _ => unreached(),
        },
    }
}

/// The decision once configuration is reverted and the application's
/// running state restored.
fn session_decide(s: SessionState) -> (r: (SessionState, SessionAction))
    requires
        session_wf(s),
    ensures
        r == session_decide_spec(s),
        session_wf(r.0),
{
    if !s.redo {
        (SessionState { phase: SessionPhase::Done, ..s }, SessionAction::Finish(Ok(())))
    } else if s.retried {
        (
            SessionState { phase: SessionPhase::Done, ..s },
            SessionAction::Finish(Err(UpdateError::DoubleToolboxSelfUpdate)),
        )
    } else {
        (
            SessionState {
                phase: SessionPhase::Terminate,
                retried: true,
                attempts: 2,
                app_was_open: false,
                redo: false,
            },
            SessionAction::TerminateApp,
        )
    }
}

/// The event reports on the action the phase is waiting for.
pub fn session_event_matches_exec(s: &SessionState, ev: &SessionEvent) -> (b: bool)
    ensures
        b == session_event_matches(*s, *ev),
{
    match &s.phase {
        SessionPhase::Terminate => matches!(ev, SessionEvent::AppTerminated { .. })
            || matches!(ev, SessionEvent::ActionFailed(_)),
        SessionPhase::ConfirmRunning => matches!(ev, SessionEvent::AppTerminated { .. })
            || matches!(ev, SessionEvent::ActionFailed(_)),
        SessionPhase::Enable => matches!(ev, SessionEvent::AutoUpdateEnabled)
            || matches!(ev, SessionEvent::ActionFailed(_)),
        SessionPhase::Launch => matches!(ev, SessionEvent::AppLaunched)
            || matches!(ev, SessionEvent::ActionFailed(_)),
        SessionPhase::Relaunch => matches!(ev, SessionEvent::AppLaunched)
            || matches!(ev, SessionEvent::ActionFailed(_)),
        SessionPhase::Monitor => matches!(ev, SessionEvent::MonitorFinished { .. })
            || matches!(ev, SessionEvent::ActionFailed(_)),
        SessionPhase::Revert => matches!(ev, SessionEvent::ConfigReverted)
            || matches!(ev, SessionEvent::ActionFailed(_)),
        SessionPhase::RevertAfterError(_) => matches!(ev, SessionEvent::ConfigReverted)
            || matches!(ev, SessionEvent::ActionFailed(_)),
        SessionPhase::Done => false,
    }
}

/// Result of feeding a sequence of action outcomes to a fresh session:
/// `None` while the sequence ends before the session does, or stops
/// reporting on the pending action.
pub open spec fn run_session_spec(s: SessionState, events: Seq<SessionEvent>) -> Option<
    Result<(), UpdateError>,
>
    decreases events.len(),
{
    if events.len() == 0 {
        None
    } else if !session_event_matches(s, events[0]) {
        None
    } else {
        let r = session_step_spec(s, events[0]);
        match r.1 {
            SessionAction::Finish(res) => Some(res),
            _ => run_session_spec(r.0, events.drop_first()),
        }
    }
}

/// Runs a whole session over a pre-recorded sequence of action outcomes,
/// starting from a fresh first attempt, and reports how it ended; `None` if
/// the sequence ran out before the session did, or stopped reporting on the
/// pending action.
pub fn update_jetbrains_toolbox(events: Vec<SessionEvent>) -> (r: Option<
    Result<(), UpdateError>,
>)
    ensures
        r == run_session_spec(initial_session_state_spec(RetryDepth::Initial), events@),
{
    let mut pending = events;
    let mut s = initial_session_state(RetryDepth::Initial);
    loop
        invariant
            session_wf(s),
            run_session_spec(initial_session_state_spec(RetryDepth::Initial), events@)
                == run_session_spec(s, pending@),
        decreases pending@.len(),
    {
        if pending.len() == 0 {
            return None;
        }
        let ghost pre = pending@;
        let ev = pending.remove(0);
        proof {
            assert(pending@ =~= pre.drop_first());
        }
        if !session_event_matches_exec(&s, &ev) {
            return None;
        }
        let (s1, a) = session_step(s, ev);
        match a {
            SessionAction::Finish(res) => {
                return Some(res);
            },
            _ => {
                s = s1;
            },
        }
    }
}

/// A session never makes a third attempt: every step keeps the attempt
/// counter at one before the retry and at two from the retry on, and once
/// an attempt is the retried one, no step starts another.
pub proof fn lemma_no_third_attempt(s: SessionState, ev: SessionEvent)
    requires
        session_wf(s),
        session_event_matches(s, ev),
    ensures
        session_wf(session_step_spec(s, ev).0),
        session_step_spec(s, ev).0.attempts <= 2,
        s.retried ==> session_step_spec(s, ev).0.retried,
        s.retried ==> !(session_step_spec(s, ev).0.phase is Terminate),
{
}

/// Self-update redo bound: when the retried attempt itself reports a redo,
/// the session ends with `DoubleToolboxSelfUpdate` instead of starting over
/// again.
pub proof fn lemma_double_self_update(s: SessionState, ev: SessionEvent)
    requires
        session_wf(s),
        s.retried,
        s.redo,
        (s.phase is Revert && ev is ConfigReverted && !s.app_was_open) || (s.phase is Relaunch
            && ev is AppLaunched),
    ensures
        session_step_spec(s, ev).1 == SessionAction::Finish(
            Err::<(), UpdateError>(UpdateError::DoubleToolboxSelfUpdate),
        ),
        session_step_spec(s, ev).0.phase is Done,
{
}

} // verus!
