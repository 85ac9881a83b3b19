use bitsrun::daemon::classify_tick;
use bitsrun::daemon::DaemonAction;
use bitsrun::daemon::DaemonEvent;
use bitsrun::daemon::DaemonLoop;
use bitsrun::daemon::SrunDaemon;
use bitsrun::daemon::TickOutcome;
use bitsrun::portal::SrunError;
use bitsrun::portal::SrunLoginState;
use bitsrun::portal::SrunPortalResponse;

fn daemon(interval: Option<u64>) -> SrunDaemon {
    SrunDaemon::new("3120225654".to_string(), "pw".to_string(), true, interval)
}

fn run(events: &[DaemonEvent]) -> Vec<DaemonAction> {
    let mut l = DaemonLoop::new();
    events.iter().map(|e| l.step(*e)).collect()
}

#[test]
fn interval_defaults_to_an_hour() {
    assert_eq!(daemon(None).poll_interval_secs(), 3600);
    assert_eq!(daemon(Some(900)).poll_interval_secs(), 900);
}

#[test]
fn short_interval_draws_advisory() {
    assert!(daemon(Some(599)).interval_too_short());
    assert!(daemon(Some(5)).interval_too_short());
    assert!(!daemon(Some(600)).interval_too_short());
    assert!(!daemon(None).interval_too_short());
}

#[test]
fn daemon_session_takes_online_ip() {
    let state = SrunLoginState::new("ok".to_string(), "10.0.0.9".to_string());
    let c = daemon(None).session("3".to_string(), state);
    assert_eq!(c.ip, "10.0.0.9");
    assert_eq!(c.ac_id, "3");
    assert!(c.dm);
    assert_eq!(c.username, "3120225654");
}

#[test]
fn tick_outcomes_are_classified() {
    let resp = |e: &str| SrunPortalResponse {
        access_token: None,
        username: None,
        suc_msg: None,
        client_ip: "10.0.0.5".to_string(),
        online_ip: "10.0.0.5".to_string(),
        error: e.to_string(),
        error_msg: String::new(),
        res: e.to_string(),
    };
    assert_eq!(classify_tick(&Ok(resp("ok"))), TickOutcome::Success);
    assert_eq!(classify_tick(&Ok(resp("login_error"))), TickOutcome::Rejected);
    assert_eq!(
        classify_tick(&Err(SrunError::Transport("down".to_string()))),
        TickOutcome::Failed
    );
}

#[test]
fn immediate_cancel_makes_no_login() {
    let acts = run(&[DaemonEvent::Cancel, DaemonEvent::Tick, DaemonEvent::Tick]);
    assert_eq!(acts, vec![DaemonAction::Exit; 3]);
}

#[test]
fn cancel_after_first_tick_makes_one_login() {
    let acts = run(&[
        DaemonEvent::Tick,
        DaemonEvent::Finished(TickOutcome::Failed),
        DaemonEvent::Cancel,
        DaemonEvent::Tick,
    ]);
    assert_eq!(
        acts,
        vec![
            DaemonAction::Login { force: true },
            DaemonAction::Report(TickOutcome::Failed),
            DaemonAction::Exit,
            DaemonAction::Exit,
        ]
    );
}

#[test]
fn failed_logins_do_not_stop_the_loop() {
    let acts = run(&[
        DaemonEvent::Tick,
        DaemonEvent::Finished(TickOutcome::Rejected),
        DaemonEvent::Tick,
        DaemonEvent::Finished(TickOutcome::Failed),
        DaemonEvent::Tick,
    ]);
    let logins = acts
        .iter()
        .filter(|a| matches!(a, DaemonAction::Login { force: true }))
        .count();
    assert_eq!(logins, 3);
    assert!(!acts.contains(&DaemonAction::Exit));
}
