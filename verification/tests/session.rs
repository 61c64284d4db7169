use poe_minimizer::scan_log_tail;
use poe_minimizer::AfkVerdict;
use poe_minimizer::Session;
use poe_minimizer::SessionAction;
use poe_minimizer::SessionError;
use poe_minimizer::SessionEvent;
use poe_minimizer::SessionPhase;
use poe_minimizer::Settings;

fn away_tail() -> Vec<String> {
    let mut tail = vec![
        "2023/07/01 12:00:02 1234 ac9 [INFO Client 1234] : AFK mode is now ON.".to_string(),
        "2023/07/01 12:00:01 1234 cff [INFO Client 1234] some other chat".to_string(),
    ];
    for i in 0..18 {
        tail.push(format!("2023/07/01 11:59:{:02} 1234 cff [INFO Client 1234] older", i));
    }
    tail
}

#[test]
fn away_and_long_restored_window_is_minimized() {
    // Log tail says AFK on, window restored for ten seconds, grace five.
    let settings = Settings::default();
    let mut session = Session::new();
    let verdict = scan_log_tail(&away_tail());
    assert_eq!(verdict, AfkVerdict::Away);

    let action = session.step(false, SessionEvent::WindowLocated { now: 100 }, &settings);
    assert_eq!(action, SessionAction::Poll { delay_ms: 500 });
    let action = session.step(
        false,
        SessionEvent::Observed { verdict, minimized: false, now: 110 },
        &settings,
    );
    assert_eq!(action, SessionAction::MinimizeThenPoll { delay_ms: 500 });
}

#[test]
fn already_minimized_window_gets_no_command() {
    let settings = Settings::default();
    let mut session = Session::new();
    let verdict = scan_log_tail(&away_tail());
    assert_eq!(verdict, AfkVerdict::Away);

    session.step(false, SessionEvent::WindowLocated { now: 100 }, &settings);
    let action = session.step(
        false,
        SessionEvent::Observed { verdict, minimized: true, now: 110 },
        &settings,
    );
    assert_eq!(action, SessionAction::Poll { delay_ms: 500 });
    assert_eq!(
        session.monitor.phase,
        poe_minimizer::WindowPhase::Minimized,
    );
    // Stays minimized until the OS reports restored.
    let action = session.step(
        false,
        SessionEvent::Observed { verdict: AfkVerdict::Unknown, minimized: true, now: 200 },
        &settings,
    );
    assert_eq!(action, SessionAction::Poll { delay_ms: 500 });
    assert_eq!(
        session.monitor.phase,
        poe_minimizer::WindowPhase::Minimized,
    );
}

#[test]
fn invalid_handle_forces_relocation() {
    let settings = Settings::default();
    let mut session = Session::new();
    session.step(false, SessionEvent::WindowLocated { now: 100 }, &settings);
    assert_eq!(session.phase, SessionPhase::Monitoring);

    // The process exits mid-session; the handle goes stale.
    let action = session.step(
        false,
        SessionEvent::ObserveFailed { error: SessionError::HandleInvalid },
        &settings,
    );
    assert_eq!(action, SessionAction::RetryLocate { delay_s: 30 });
    assert_eq!(session.phase, SessionPhase::Locating);

    // One retry cycle later the window is found again.
    let action = session.step(false, SessionEvent::WindowLocated { now: 200 }, &settings);
    assert_eq!(action, SessionAction::Poll { delay_ms: 500 });
    assert_eq!(session.phase, SessionPhase::Monitoring);
}

#[test]
fn unreadable_log_forces_relocation() {
    let settings = Settings::default();
    let mut session = Session::new();
    session.step(false, SessionEvent::WindowLocated { now: 100 }, &settings);
    let action = session.step(
        false,
        SessionEvent::ObserveFailed { error: SessionError::LogUnavailable },
        &settings,
    );
    assert_eq!(action, SessionAction::RetryLocate { delay_s: 30 });
    assert_eq!(session.phase, SessionPhase::Locating);
}

#[test]
fn window_not_found_is_retried() {
    let settings = Settings::default();
    let mut session = Session::new();
    let action = session.step(
        false,
        SessionEvent::LocateFailed { error: SessionError::WindowNotFound },
        &settings,
    );
    assert_eq!(action, SessionAction::RetryLocate { delay_s: 30 });
    assert_eq!(session.phase, SessionPhase::Locating);
    let action = session.step(
        false,
        SessionEvent::LocateFailed { error: SessionError::ProcessIntrospectionFailed },
        &settings,
    );
    assert_eq!(action, SessionAction::RetryLocate { delay_s: 30 });
}

#[test]
fn shutdown_stops_the_loop_at_once() {
    let settings = Settings::default();
    let mut session = Session::new();
    session.step(false, SessionEvent::WindowLocated { now: 100 }, &settings);
    // Away and due for a minimize, but the flag was observed: stop, no command.
    let action = session.step(
        true,
        SessionEvent::Observed { verdict: AfkVerdict::Away, minimized: false, now: 200 },
        &settings,
    );
    assert_eq!(action, SessionAction::Stop);

    let mut fresh = Session::new();
    let action = fresh.step(
        true,
        SessionEvent::LocateFailed { error: SessionError::WindowNotFound },
        &settings,
    );
    assert_eq!(action, SessionAction::Stop);
}
