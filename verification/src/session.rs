use vstd::prelude::*;

use crate::engine::elapsed_secs;
use crate::engine::spec_tick;
use crate::engine::MonitorState;
use crate::engine::WindowPhase;
use crate::scanner::AfkVerdict;
use crate::settings::Settings;

verus! {

/// The recoverable failures the OS surface can report. None of them is
/// fatal: each one is converted into a retry with a fixed delay.
#[derive(Clone, Copy, Debug, PartialEq, Eq, Structural)]
pub enum SessionError {
    /// The target application is not running or shows no top-level window
    /// yet. Expected; retried with backoff.
    WindowNotFound,
    /// The window exists but its owning process cannot be introspected
    /// (for instance, permission denied). Retried after a backoff.
    ProcessIntrospectionFailed,
    /// The window handle no longer resolves: the process exited. Forces a
    /// fresh window resolution, never a retry on the dead handle.
    HandleInvalid,
    /// The log file could not even be opened; the derived path may be
    /// stale. Forces a fresh window resolution.
    LogUnavailable,
}

/// Which of the two background-loop stages the session is in.
#[derive(Clone, Copy, Debug, PartialEq, Eq, Structural)]
pub enum SessionPhase {
    /// Looking for the target window.
    Locating,
    /// Window found; polling its log and its minimized flag.
    Monitoring,
}

/// What the OS surface reports to the session at one loop boundary.
#[derive(Clone, Copy, Debug, PartialEq, Eq, Structural)]
pub enum SessionEvent {
    /// The window was resolved and the log path derived; `now` is the wall
    /// clock in seconds.
    WindowLocated { now: u64 },
    /// The window could not be resolved.
    LocateFailed { error: SessionError },
    /// One poll tick's fresh observations: the scan verdict, the window's
    /// minimized flag, and the wall clock in seconds.
    Observed { verdict: AfkVerdict, minimized: bool, now: u64 },
    /// The poll tick failed; the handle or the log path has gone stale.
    ObserveFailed { error: SessionError },
}

/// What the background loop must do next.
#[derive(Clone, Copy, Debug, PartialEq, Eq, Structural)]
pub enum SessionAction {
    /// Sleep `delay_s` seconds, then try to locate the window again.
    RetryLocate { delay_s: u64 },
    /// Sleep `delay_ms` milliseconds, then poll again.
    Poll { delay_ms: u64 },
    /// Issue the minimize command, then sleep `delay_ms` and poll again.
    MinimizeThenPoll { delay_ms: u64 },
    /// Shutdown was requested: leave the loop.
    Stop,
}

/// The state the background loop threads through its iterations.
#[derive(Clone, Copy, Debug, PartialEq, Eq, Structural)]
pub struct Session {
    pub phase: SessionPhase,
    pub monitor: MonitorState,
}

/// The session a fresh background loop starts from.
pub open spec fn spec_session_init() -> Session {
    Session {
        phase: SessionPhase::Locating,
        monitor: MonitorState {
            afk: AfkVerdict::Unknown,
            phase: WindowPhase::Restored,
            restored_since: 0,
            commanded: false,
        },
    }
}

/// One boundary of the background loop, as a function of the old session,
/// the shutdown flag as read at this boundary, and the event the OS surface
/// reported. Returns the new session and the action owed.
///
/// A set shutdown flag stops the loop at once: in particular no minimize
/// command is ever issued at a boundary that has observed the flag.
pub open spec fn spec_step(
    s: Session,
    shutdown: bool,
    event: SessionEvent,
    grace_period: u64,
    poll_ms: u64,
    retry_s: u64,
) -> (Session, SessionAction) {
    if shutdown {
        (s, SessionAction::Stop)
    } else {
        match event {
            SessionEvent::WindowLocated { now } => (
                Session {
                    phase: SessionPhase::Monitoring,
                    monitor: MonitorState {
                        afk: AfkVerdict::Unknown,
                        phase: WindowPhase::Restored,
                        restored_since: now,
                        commanded: false,
                    },
                },
                SessionAction::Poll { delay_ms: poll_ms },
            ),
            SessionEvent::LocateFailed { error: _ } => (
                s,
                SessionAction::RetryLocate { delay_s: retry_s },
            ),
            SessionEvent::Observed { verdict, minimized, now } => {
                let step = spec_tick(s.monitor, verdict, minimized, now, grace_period);
                (
                    Session { phase: SessionPhase::Monitoring, monitor: step.0 },
                    if step.1 {
                        SessionAction::MinimizeThenPoll { delay_ms: poll_ms }
                    } else {
                        SessionAction::Poll { delay_ms: poll_ms }
                    },
                )
            },
            SessionEvent::ObserveFailed { error: _ } => (
                Session { phase: SessionPhase::Locating, monitor: s.monitor },
                SessionAction::RetryLocate { delay_s: retry_s },
            ),
        }
    }
}

impl Session {
    /// A fresh session: no window located yet, nothing remembered.
    pub fn new() -> (s: Session)
        ensures
            s == spec_session_init(),
    {
        Session {
            phase: SessionPhase::Locating,
            monitor: MonitorState {
                afk: AfkVerdict::Unknown,
                phase: WindowPhase::Restored,
                restored_since: 0,
                commanded: false,
            },
        }
    }

    /// One boundary of the background loop. The caller reads the shutdown
    /// flag and gathers the event; this function makes every decision.
    pub fn step(
        &mut self,
        shutdown: bool,
        event: SessionEvent,
        settings: &Settings,
    ) -> (action: SessionAction)
        requires
            event is WindowLocated || event is LocateFailed
                ==> old(self).phase is Locating,
            event is Observed || event is ObserveFailed
                ==> old(self).phase is Monitoring,
        ensures
            (*final(self), action) == spec_step(
                *old(self),
                shutdown,
                event,
                settings.seconds_until_minimize,
                settings.log_file_polling_interval_ms,
                settings.seconds_to_check_for_poe,
            ),
            shutdown ==> action is Stop && *final(self) == *old(self),
            !shutdown && (event is ObserveFailed || event is LocateFailed)
                ==> final(self).phase is Locating && action is RetryLocate,
    {
        if shutdown {
            return SessionAction::Stop;
        }
        match event {
            SessionEvent::WindowLocated { now } => {
                self.phase = SessionPhase::Monitoring;
                self.monitor = MonitorState::new(now);
                SessionAction::Poll { delay_ms: settings.log_file_polling_interval_ms }
            },
            SessionEvent::LocateFailed { error: _ } => {
                SessionAction::RetryLocate { delay_s: settings.seconds_to_check_for_poe }
            },
            SessionEvent::Observed { verdict, minimized, now } => {
                let cmd = self.monitor.tick(
                    verdict,
                    minimized,
                    now,
                    settings.seconds_until_minimize,
                );
                self.phase = SessionPhase::Monitoring;
                if cmd {
                    SessionAction::MinimizeThenPoll {
                        delay_ms: settings.log_file_polling_interval_ms,
                    }
                } else {
                    SessionAction::Poll {
                        delay_ms: settings.log_file_polling_interval_ms,
                    }
                }
            },
            SessionEvent::ObserveFailed { error: _ } => {
                self.phase = SessionPhase::Locating;
                SessionAction::RetryLocate { delay_s: settings.seconds_to_check_for_poe }
            },
        }
    }
}

/// Law: an invalid handle (or a stale log path) surfaces as a failed
/// observation, and the very next boundary re-enters window location with
/// the fixed retry delay; the session never keeps polling a dead handle.
pub proof fn lemma_failed_observation_relocates(
    s: Session,
    error: SessionError,
    grace_period: u64,
    poll_ms: u64,
    retry_s: u64,
)
    ensures
        spec_step(
            s,
            false,
            SessionEvent::ObserveFailed { error },
            grace_period,
            poll_ms,
            retry_s,
        ).0.phase is Locating,
        spec_step(
            s,
            false,
            SessionEvent::ObserveFailed { error },
            grace_period,
            poll_ms,
            retry_s,
        ).1 == (SessionAction::RetryLocate { delay_s: retry_s }),
{
}

/// Law: once the shutdown flag has been observed, the background loop stops
/// and in particular issues no further minimize command, whatever event
/// arrived at the same boundary.
pub proof fn lemma_no_command_after_shutdown(
    s: Session,
    event: SessionEvent,
    grace_period: u64,
    poll_ms: u64,
    retry_s: u64,
)
    ensures
        spec_step(s, true, event, grace_period, poll_ms, retry_s).1
            == SessionAction::Stop,
        spec_step(s, true, event, grace_period, poll_ms, retry_s).0 == s,
{
}

/// Law: the minimize action is owed. When a boundary that has not observed
/// shutdown sees an `Away` verdict, a restored window, an unanswered
/// restored interval and the grace period outlived, the session orders the
/// minimize command.
pub proof fn lemma_minimize_when_observed_due(
    s: Session,
    minimized: bool,
    now: u64,
    grace_period: u64,
    poll_ms: u64,
    retry_s: u64,
)
    requires
        s.monitor.phase is Restored,
        !s.monitor.commanded,
        !minimized,
        elapsed_secs(s.monitor.restored_since, now) > grace_period,
    ensures
        spec_step(
            s,
            false,
            SessionEvent::Observed { verdict: AfkVerdict::Away, minimized, now },
            grace_period,
            poll_ms,
            retry_s,
        ).1 == (SessionAction::MinimizeThenPoll { delay_ms: poll_ms }),
{
}

/// Commands the tray surface can deliver.
#[derive(Clone, Copy, Debug, PartialEq, Eq, Structural)]
pub enum Event {
    /// The user asked to exit: tear down the tray resources and set the
    /// shutdown flag, so both loops terminate.
    Exit,
    /// The user toggled the run-on-startup entry; delegated entirely to
    /// the autostart collaborator, no engine-side state.
    ToggleAutoStart,
    /// Anything else; both loops carry on.
    Nothing,
}

/// Menu identifier of the tray menu's exit entry.
pub const TRAY_MENU_EXIT_ID: usize = 0x111;

/// Menu identifier of the tray menu's run-on-startup entry.
pub const TRAY_MENU_STARTUP_ID: usize = 0x112;

/// Menu identifier of the tray menu's version entry (display only).
pub const TRAY_MENU_VERSION_ID: usize = 0x113;

/// The window message carrying menu commands (the documented `WM_COMMAND`
/// value).
pub const MENU_COMMAND_MESSAGE: u32 = 0x0111;

/// The private window message this program posts to itself when the tray
/// icon asks for its popup menu (the first message after the documented
/// `WM_APP` base).
pub const SHOW_TRAY_POPUP_MESSAGE: u32 = 0x8001;

/// What the message pump must do with one received window message.
#[derive(Clone, Copy, Debug, PartialEq, Eq, Structural)]
pub enum MessageDisposition {
    /// A menu command: deliver this event to the UI loop, without letting
    /// the OS dispatch the message further.
    Command(Event),
    /// Not a menu command: show the tray popup menu first when asked, then
    /// hand the message to the OS default dispatching.
    Forward { show_menu: bool },
}

/// Decision kernel of the message pump: what one received window message
/// means, from its message number and its command word alone.
pub fn classify_message(message: u32, w_param: usize) -> (d: MessageDisposition)
    ensures
        message == MENU_COMMAND_MESSAGE && w_param == TRAY_MENU_EXIT_ID ==> d
            == MessageDisposition::Command(Event::Exit),
        message == MENU_COMMAND_MESSAGE && w_param == TRAY_MENU_STARTUP_ID ==> d
            == MessageDisposition::Command(Event::ToggleAutoStart),
        message == MENU_COMMAND_MESSAGE && w_param != TRAY_MENU_EXIT_ID && w_param
            != TRAY_MENU_STARTUP_ID ==> d == MessageDisposition::Command(Event::Nothing),
        message != MENU_COMMAND_MESSAGE ==> d == (MessageDisposition::Forward {
            show_menu: message == SHOW_TRAY_POPUP_MESSAGE,
        }),
{
    if message == MENU_COMMAND_MESSAGE {
        if w_param == TRAY_MENU_EXIT_ID {
            MessageDisposition::Command(Event::Exit)
        } else if w_param == TRAY_MENU_STARTUP_ID {
            MessageDisposition::Command(Event::ToggleAutoStart)
        } else {
            MessageDisposition::Command(Event::Nothing)
        }
    } else {
        MessageDisposition::Forward { show_menu: message == SHOW_TRAY_POPUP_MESSAGE }
    }
}

/// Whether a tray-icon callback asks for the popup menu: the low byte of
/// the callback's parameter holds the mouse event, and a right-button-down
/// event (value four) opens the menu.
pub fn tray_callback_requests_menu(l_param: u64) -> (r: bool)
    ensures
        r == (l_param % 256 == 4),
{
    proof {
        assert((l_param & 0xff) == l_param % 256) by (bit_vector);
    }
    (l_param & 0xff) == 0x04
}

/// Whether an event from the message pump ends the UI loop, and with it,
/// through the shutdown flag, the whole process.
pub fn event_requests_exit(event: &Event) -> (r: bool)
    ensures
        r == (event is Exit),
{
    matches!(event, Event::Exit)
}

} // verus!
