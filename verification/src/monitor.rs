//! The log-driven update-completion state machine.
//!
//! Given the stream of lines that the application appends to its own log,
//! the monitor decides when every in-flight update has completed, detects a
//! self-update restart, and distinguishes a true "no updates" condition
//! from "still starting up". Each poll-loop iteration of the unverified
//! shell turns into one call of [`monitor_step`]: the shell reports either
//! a full log line or the absence of one, together with the milliseconds
//! elapsed since monitoring began, and performs the returned action.

use vstd::prelude::*;

use crate::errors::UpdateError;
use crate::textscan::{contains_seq, str_contains};

verus! {

/// Milliseconds the application is given to emit its startup marker.
pub const STARTUP_TIMEOUT_MS: u64 = 60_000;

/// Milliseconds of post-startup silence after which "no updates" is assumed.
pub const IDLE_TIMEOUT_MS: u64 = 10_000;

/// Milliseconds to let the application settle once the last update finished.
pub const FINISH_PAUSE_MS: u64 = 2_000;

/// Milliseconds to wait out the application's own restart timeout after a
/// self-update restart was announced.
pub const SELF_UPDATE_PAUSE_MS: u64 = 30_000;

/// Milliseconds to sleep before polling again when no full line is available.
pub const POLL_SLEEP_MS: u64 = 100;

/// What a single log line says about the update cycle.
#[derive(Debug, Clone, Copy, PartialEq, Eq, Structural)]
pub enum LineClass {
    /// An update entered its download phase: either the download itself
    /// began, or a checksum was confirmed for a download.
    UpdateMarker { checksum: bool, download: bool },
    /// One update's install phase completed.
    NotificationShown,
    /// A self-update sits ready and will apply on its own; informational.
    SelfUpdateReady,
    /// The application is replacing itself and restarting.
    SelfUpdateRestart,
    /// The application finished booting.
    StartupMarker,
    /// Nothing the monitor cares about.
    Other,
}

/// Classification of one log line by the marker fragments it contains,
/// tested in the same order as the monitor applies them.
pub open spec fn classify_line_spec(l: Seq<char>) -> LineClass {
    if contains_seq(l, "Correct checksum for"@) || contains_seq(l, "Downloading from"@) {
        LineClass::UpdateMarker {
            checksum: contains_seq(l, "Correct checksum for"@),
            download: contains_seq(l, "Downloading from"@),
        }
    } else if contains_seq(l, "Show notification"@) {
        LineClass::NotificationShown
    } else if contains_seq(l, "Awaiting user action or background state to install."@) {
        LineClass::SelfUpdateReady
    } else if contains_seq(
        l,
        "Shutting down. Reason: The updated app is starting, closing the current process"@,
    ) {
        LineClass::SelfUpdateRestart
    } else if contains_seq(l, "Downloaded fus-assistant.xml"@) {
        LineClass::StartupMarker
    } else {
        LineClass::Other
    }
}

/// Classifies one log line by substring-matching the marker fragments.
pub fn classify_line(l: &str) -> (c: LineClass)
    ensures
        c == classify_line_spec(l@),
{
    let checksum = str_contains(l, "Correct checksum for");
    let download = str_contains(l, "Downloading from");
    if checksum || download {
        LineClass::UpdateMarker { checksum, download }
    } else if str_contains(l, "Show notification") {
        LineClass::NotificationShown
    } else if str_contains(l, "Awaiting user action or background state to install.") {
        LineClass::SelfUpdateReady
    } else if str_contains(
        l,
        "Shutting down. Reason: The updated app is starting, closing the current process",
    ) {
        LineClass::SelfUpdateRestart
    } else if str_contains(l, "Downloaded fus-assistant.xml") {
        LineClass::StartupMarker
    } else {
        LineClass::Other
    }
}

/// The monitor's session-scoped state.
#[derive(Debug, Clone, Copy, PartialEq, Eq, Structural)]
pub struct MonitorState {
    /// Updates in flight: started and not yet reported finished.
    pub pending: u32,
    /// Checksum confirmations still expected for downloads already counted;
    /// such a confirmation is consumed rather than counted as a new update.
    pub checksums_expected: u32,
    /// Updates counted since monitoring began.
    pub started: u32,
    /// Whether the startup marker has been seen.
    pub startup_seen: bool,
    /// Milliseconds since monitor start at which the startup marker was
    /// seen; meaningful only when `startup_seen`.
    pub startup_time_ms: u64,
    /// Whether the application announced a self-update restart.
    pub redo: bool,
}

/// The state the monitor starts in: nothing seen, nothing counted.
pub open spec fn initial_monitor_state_spec() -> MonitorState {
    MonitorState {
        pending: 0,
        checksums_expected: 0,
        started: 0,
        startup_seen: false,
        startup_time_ms: 0,
        redo: false,
    }
}

/// Builds the state the monitor starts in.
pub fn initial_monitor_state() -> (s: MonitorState)
    ensures
        s == initial_monitor_state_spec(),
{
    MonitorState {
        pending: 0,
        checksums_expected: 0,
        started: 0,
        startup_seen: false,
        startup_time_ms: 0,
        redo: false,
    }
}

/// What one poll of the log produced.
#[derive(Debug)]
pub enum MonitorEvent {
    /// A complete line was read.
    Line(String),
    /// No complete line was available.
    NoLine,
}

/// What the polling shell must do next.
#[derive(Debug)]
pub enum MonitorAction {
    /// Keep reading: the line was consumed.
    Continue,
    /// Seek back to before the partial line and sleep [`POLL_SLEEP_MS`]
    /// before reading again.
    Poll,
    /// Monitoring is over; pause `pause_ms` milliseconds, then confirm the
    /// application is still running.
    Finish { pause_ms: u64 },
    /// Monitoring failed; the session must revert configuration and surface
    /// the error.
    Fail(UpdateError),
}

/// Increments a counter, sticking at the top of its range.
pub open spec fn sat_inc(x: u32) -> u32 {
    if x < u32::MAX {
        (x + 1) as u32
    } else {
        x
    }
}

/// Transition taken for one classified log line.
pub open spec fn monitor_line_step_spec(s: MonitorState, now_ms: u64, c: LineClass) -> (
    MonitorState,
    MonitorAction,
) {
    match c {
        LineClass::UpdateMarker { checksum, download } => {
            if checksum && s.checksums_expected > 0 {
                // A confirmation for a download counted earlier: consume it.
                ((MonitorState { checksums_expected: (s.checksums_expected - 1) as u32, ..s }),
                MonitorAction::Continue)
            } else {
                // A new update: a confirmation without a pending download
                // means the download was pre-cached.
                ((MonitorState {
                    pending: sat_inc(s.pending),
                    started: sat_inc(s.started),
                    checksums_expected: if download {
                        sat_inc(s.checksums_expected)
                    } else {
                        s.checksums_expected
                    },
                    ..s
                }), MonitorAction::Continue)
            }
        },
        LineClass::NotificationShown => {
            if s.pending > 0 {
                let s1 = MonitorState { pending: (s.pending - 1) as u32, ..s };
                if s1.pending == 0 {
                    (s1, MonitorAction::Finish { pause_ms: FINISH_PAUSE_MS })
                } else {
                    (s1, MonitorAction::Continue)
                }
            } else {
                // Never decrement below zero: a stray notification with
                // nothing pending is ignored.
                (s, MonitorAction::Continue)
            }
        },
        LineClass::SelfUpdateReady => (s, MonitorAction::Continue),
        LineClass::SelfUpdateRestart => {
            // The application restarts out from under the monitor: request a
            // redo of the whole session and stop inferring anything further.
            ((MonitorState { redo: true, ..s }), MonitorAction::Finish {
                pause_ms: SELF_UPDATE_PAUSE_MS,
            })
        },
        LineClass::StartupMarker => {
            if s.startup_seen {
                (s, MonitorAction::Fail(UpdateError::DoubleStartupFusAssistant))
            } else {
                ((MonitorState { startup_seen: true, startup_time_ms: now_ms, ..s }),
                MonitorAction::Continue)
            }
        },
        LineClass::Other => (s, MonitorAction::Continue),
    }
}

/// Transition taken for one poll-loop iteration: the timeout checks come
/// first, then the line (if any) is classified.
pub open spec fn monitor_step_spec(s: MonitorState, now_ms: u64, ev: MonitorEvent) -> (
    MonitorState,
    MonitorAction,
) {
    if !s.startup_seen && now_ms > STARTUP_TIMEOUT_MS {
        (s, MonitorAction::Fail(UpdateError::StartupFusAssistantTimeout))
    } else if s.startup_seen && s.pending == 0 && now_ms > s.startup_time_ms + IDLE_TIMEOUT_MS {
        // Post-startup silence: assume there are no updates.
        (s, MonitorAction::Finish { pause_ms: 0 })
    } else {
        match ev {
            MonitorEvent::NoLine => (s, MonitorAction::Poll),
            MonitorEvent::Line(l) => monitor_line_step_spec(s, now_ms, classify_line_spec(l@)),
        }
    }
}

/// Runs one poll-loop iteration of the monitor: `now_ms` is the time since
/// monitor start and `ev` what the poll produced.
pub fn monitor_step(s: MonitorState, now_ms: u64, ev: &MonitorEvent) -> (r: (
    MonitorState,
    MonitorAction,
))
    ensures
        r == monitor_step_spec(s, now_ms, *ev),
{
    if !s.startup_seen && now_ms > STARTUP_TIMEOUT_MS {
        return (s, MonitorAction::Fail(UpdateError::StartupFusAssistantTimeout));
    }
    if s.startup_seen && s.pending == 0 && now_ms > IDLE_TIMEOUT_MS && now_ms - IDLE_TIMEOUT_MS
        > s.startup_time_ms {
        return (s, MonitorAction::Finish { pause_ms: 0 });
    }
    match ev {
        MonitorEvent::NoLine => (s, MonitorAction::Poll),
        MonitorEvent::Line(l) => {
            match classify_line(l.as_str()) {
                LineClass::UpdateMarker { checksum, download } => {
                    if checksum && s.checksums_expected > 0 {
                        (MonitorState { checksums_expected: s.checksums_expected - 1, ..s },
                        MonitorAction::Continue)
                    } else {
                        let pending = if s.pending < u32::MAX {
                            s.pending + 1
                        } else {
                            s.pending
                        };
                        let started = if s.started < u32::MAX {
                            s.started + 1
                        } else {
                            s.started
                        };
                        let checksums_expected = if download && s.checksums_expected < u32::MAX {
                            s.checksums_expected + 1
                        } else {
                            s.checksums_expected
                        };
                        (MonitorState { pending, started, checksums_expected, ..s },
                        MonitorAction::Continue)
                    }
                },
                LineClass::NotificationShown => {
                    if s.pending > 0 {
                        let s1 = MonitorState { pending: s.pending - 1, ..s };
                        if s1.pending == 0 {
                            (s1, MonitorAction::Finish { pause_ms: FINISH_PAUSE_MS })
                        } else {
                            (s1, MonitorAction::Continue)
                        }
                    } else {
                        (s, MonitorAction::Continue)
                    }
                },
                LineClass::SelfUpdateReady => (s, MonitorAction::Continue),
                LineClass::SelfUpdateRestart => {
                    (MonitorState { redo: true, ..s }, MonitorAction::Finish {
                        pause_ms: SELF_UPDATE_PAUSE_MS,
                    })
                },
                LineClass::StartupMarker => {
                    if s.startup_seen {
                        (s, MonitorAction::Fail(UpdateError::DoubleStartupFusAssistant))
                    } else {
                        (MonitorState { startup_seen: true, startup_time_ms: now_ms, ..s },
                        MonitorAction::Continue)
                    }
                },
                LineClass::Other => (s, MonitorAction::Continue),
            }
        },
    }
}

/// One poll of the log together with the time it happened, in milliseconds
/// since monitor start.
#[derive(Debug)]
pub struct TimedEvent {
    pub at_ms: u64,
    pub event: MonitorEvent,
}

/// How a completed monitor run ended.
#[derive(Debug)]
pub struct MonitorOutcome {
    /// Whether the whole session must be redone after a self-update.
    pub redo: bool,
    /// How many updates were counted.
    pub updates_started: u32,
    /// How long to pause before confirming the application still runs.
    pub pause_ms: u64,
}

/// Result of feeding a sequence of timed polls to the monitor from its
/// initial state: `None` while the sequence ends before the monitor does.
pub open spec fn run_monitor_spec(s: MonitorState, events: Seq<TimedEvent>) -> Option<
    Result<MonitorOutcome, UpdateError>,
>
    decreases events.len(),
{
    if events.len() == 0 {
        None
    } else {
        let r = monitor_step_spec(s, events[0].at_ms, events[0].event);
        match r.1 {
            MonitorAction::Continue => run_monitor_spec(r.0, events.drop_first()),
            MonitorAction::Poll => run_monitor_spec(r.0, events.drop_first()),
            MonitorAction::Finish { pause_ms } => Some(
                Ok(
                    MonitorOutcome {
                        redo: r.0.redo,
                        updates_started: r.0.started,
                        pause_ms: pause_ms,
                    },
                ),
            ),
            MonitorAction::Fail(e) => Some(Err(e)),
        }
    }
}

/// Feeds a pre-recorded sequence of timed polls to the monitor, from its
/// initial state, and reports how it ended; `None` if the sequence ran out
/// before the monitor finished or failed.
pub fn run_monitor(events: &Vec<TimedEvent>) -> (r: Option<Result<MonitorOutcome, UpdateError>>)
    ensures
        r == run_monitor_spec(initial_monitor_state_spec(), events@),
{
    let mut s = initial_monitor_state();
    let mut idx: usize = 0;
    proof {
        assert(events@.skip(0) =~= events@);
    }
    loop
        invariant
            idx <= events@.len(),
            run_monitor_spec(initial_monitor_state_spec(), events@) == run_monitor_spec(
                s,
                events@.skip(idx as int),
            ),
        decreases events@.len() - idx,
    {
        if idx == events.len() {
            return None;
        }
        let ev = &events[idx];
        let (s1, a) = monitor_step(s, ev.at_ms, &ev.event);
        proof {
            assert(events@.skip(idx as int)[0] == events@[idx as int]);
            assert(events@.skip(idx as int).drop_first() =~= events@.skip(idx as int + 1));
        }
        match a {
            MonitorAction::Continue => {
                s = s1;
            },
            MonitorAction::Poll => {
                s = s1;
            },
            MonitorAction::Finish { pause_ms } => {
                return Some(
                    Ok(MonitorOutcome { redo: s1.redo, updates_started: s1.started, pause_ms }),
                );
            },
            MonitorAction::Fail(e) => {
                return Some(Err(e));
            },
        }
        idx = idx + 1;
    }
}

/// The poll carries nothing the monitor reacts to: no complete line, or a
/// line with no marker fragment.
pub open spec fn quiet_event(ev: TimedEvent) -> bool {
    match ev.event {
        MonitorEvent::NoLine => true,
        MonitorEvent::Line(l) => classify_line_spec(l@) == LineClass::Other,
    }
}

/// No-updates timeout over a whole run: after the startup marker, a stretch
/// of marker-free polling that reaches past the idle window ends monitoring
/// successfully, with zero updates counted and no redo.
pub proof fn lemma_no_updates_run(s: MonitorState, events: Seq<TimedEvent>)
    requires
        s.startup_seen,
        s.pending == 0,
        s.started == 0,
        !s.redo,
        events.len() > 0,
        forall|i: int| 0 <= i < events.len() ==> quiet_event(#[trigger] events[i]),
        events[events.len() - 1].at_ms > s.startup_time_ms + IDLE_TIMEOUT_MS,
    ensures
        run_monitor_spec(s, events) == Some(
            Ok::<
                MonitorOutcome,
                UpdateError,
            >(MonitorOutcome { redo: false, updates_started: 0, pause_ms: 0 }),
        ),
    decreases events.len(),
{
    if events[0].at_ms > s.startup_time_ms + IDLE_TIMEOUT_MS {
        assert(monitor_step_spec(s, events[0].at_ms, events[0].event) == (
            s,
            MonitorAction::Finish { pause_ms: 0 },
        ));
    } else {
        assert(events.len() >= 2);
        assert(monitor_step_spec(s, events[0].at_ms, events[0].event).0 == s);
        let rest = events.drop_first();
        assert(forall|i: int| 0 <= i < rest.len() ==> quiet_event(#[trigger] rest[i]));
        assert(rest[rest.len() - 1] == events[events.len() - 1]);
        lemma_no_updates_run(s, rest);
    }
}

/// No-updates timeout: once the startup marker has been seen, nothing is
/// pending, nothing was ever counted and no redo was requested, post-startup
/// silence past the idle window ends monitoring successfully, with the state
/// untouched: zero updates counted and no redo.
pub proof fn lemma_no_updates_timeout(s: MonitorState, now_ms: u64, ev: MonitorEvent)
    requires
        s.startup_seen,
        s.pending == 0,
        s.started == 0,
        !s.redo,
        now_ms > s.startup_time_ms + IDLE_TIMEOUT_MS,
    ensures
        monitor_step_spec(s, now_ms, ev) == (s, MonitorAction::Finish { pause_ms: 0 }),
        !(monitor_step_spec(s, now_ms, ev).0.redo),
        monitor_step_spec(s, now_ms, ev).0.started == 0,
{
}

/// Startup timeout: while the startup marker has not been seen, any poll
/// after the startup window fails with `StartupFusAssistantTimeout`, whatever
/// it carries, and counts nothing: the state is left untouched.
pub proof fn lemma_startup_timeout(s: MonitorState, now_ms: u64, ev: MonitorEvent)
    requires
        !s.startup_seen,
        now_ms > STARTUP_TIMEOUT_MS,
    ensures
        monitor_step_spec(s, now_ms, ev) == (
            s,
            MonitorAction::Fail(UpdateError::StartupFusAssistantTimeout),
        ),
{
}

} // verus!
