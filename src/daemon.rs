//! The keep-alive daemon: its settings, and the loop that re-logs in on
//! every tick, whatever the last attempt gave, until cancelled. The loop is
//! a state machine; the caller waits for the next event (timer or
//! cancellation), feeds it in and carries out the action that comes back.

use crate::client::SrunClient;
use crate::portal::SrunError;
use crate::portal::SrunLoginState;
use crate::portal::SrunPortalResponse;
use vstd::prelude::*;

verus! {

/// The polling interval when none is configured: one hour.
pub const DEFAULT_POLL_INTERVAL: u64 = 3600;

/// Intervals below this (ten minutes) draw an advisory at startup.
pub const MIN_ADVISED_POLL_INTERVAL: u64 = 600;

/// The daemon's settings: credentials, the bound-device flag and the
/// polling interval in seconds.
pub struct SrunDaemon {
    pub username: String,
    pub password: String,
    pub dm: bool,
    pub poll_interval: Option<u64>,
}

impl SrunDaemon {
    pub fn new(username: String, password: String, dm: bool, poll_interval: Option<u64>) -> (r:
        SrunDaemon)
        ensures
            r.username == username,
            r.password == password,
            r.dm == dm,
            r.poll_interval == poll_interval,
    {
        SrunDaemon { username, password, dm, poll_interval }
    }

    /// The interval in effect.
    pub open spec fn interval_spec(&self) -> u64 {
        match self.poll_interval {
            Some(p) => p,
            None => DEFAULT_POLL_INTERVAL,
        }
    }

    /// The interval in effect: the configured one, else an hour.
    pub fn poll_interval_secs(&self) -> (r: u64)
        ensures
            r == self.interval_spec(),
    {
        match self.poll_interval {
            Some(p) => p,
            None => DEFAULT_POLL_INTERVAL,
        }
    }

    /// Whether the interval in effect is short enough to draw the advisory;
    /// it changes nothing else.
    pub fn interval_too_short(&self) -> (r: bool)
        ensures
            r == (self.interval_spec() < MIN_ADVISED_POLL_INTERVAL),
    {
        self.poll_interval_secs() < MIN_ADVISED_POLL_INTERVAL
    }

    /// The one session the daemon keeps: its credentials and flag, the
    /// address taken from `login_state`.
    pub fn session(&self, ac_id: String, login_state: SrunLoginState) -> (r: SrunClient)
        ensures
            r.username@ == self.username@,
            r.password@ == self.password@,
            r.dm == self.dm,
            r.ac_id == ac_id,
            r.ip@ == login_state.online_ip@,
            r.login_state == login_state,
    {
        SrunClient::new(
            self.username.clone(),
            self.password.clone(),
            ac_id,
            login_state,
            None,
            Some(self.dm),
        )
    }
}

/// How one re-login went.
#[derive(Debug, Clone, Copy, PartialEq, Eq)]
pub enum TickOutcome {
    /// The portal accepted the login.
    Success,
    /// The exchange completed and the portal refused.
    Rejected,
    /// The exchange did not complete.
    Failed,
}

/// Classifies the result of a re-login.
pub fn classify_tick(outcome: &Result<SrunPortalResponse, SrunError>) -> (r: TickOutcome)
    ensures
        outcome matches Ok(resp) ==> (r == (if resp.error@ == "ok"@ {
            TickOutcome::Success
        } else {
            TickOutcome::Rejected
        })),
        outcome is Err ==> r == TickOutcome::Failed,
{
    match outcome {
        Ok(resp) => if resp.login_succeeded() {
            TickOutcome::Success
        } else {
            TickOutcome::Rejected
        },
        Err(_) => TickOutcome::Failed,
    }
}

/// What the loop waits for.
#[derive(Debug, Clone, Copy, PartialEq, Eq)]
pub enum DaemonEvent {
    /// The interval elapsed.
    Tick,
    /// The re-login started on the last tick has completed.
    Finished(TickOutcome),
    /// Cancellation was signalled.
    Cancel,
}

/// What the loop asks for next.
#[derive(Debug, Clone, Copy, PartialEq, Eq)]
pub enum DaemonAction {
    /// Log in; `force` bypasses the session's already-logged-in check.
    Login { force: bool },
    /// Report the outcome and keep waiting.
    Report(TickOutcome),
    /// Leave the loop.
    Exit,
}

/// The loop's state: whether it still runs.
#[derive(Debug, Clone, Copy, PartialEq, Eq)]
pub struct DaemonLoop {
    pub running: bool,
}

/// The state after `e` in state `s`, and the action asked for.
pub open spec fn step_of(s: DaemonLoop, e: DaemonEvent) -> (DaemonLoop, DaemonAction) {
    if !s.running {
        (s, DaemonAction::Exit)
    } else {
        match e {
            DaemonEvent::Tick => (s, DaemonAction::Login { force: true }),
            DaemonEvent::Finished(o) => (s, DaemonAction::Report(o)),
            DaemonEvent::Cancel => (DaemonLoop { running: false }, DaemonAction::Exit),
        }
    }
}

impl DaemonLoop {
    /// A loop that has not been cancelled.
    pub fn new() -> (r: DaemonLoop)
        ensures
            r.running,
    {
        DaemonLoop { running: true }
    }

    /// Takes one event: while running, a tick asks for a forced login, a
    /// finished login (whatever its outcome) for a report, and cancellation
    /// stops the loop; once stopped, every event asks to exit.
    pub fn step(&mut self, e: DaemonEvent) -> (r: DaemonAction)
        ensures
            (*final(self), r) == step_of(*old(self), e),
    {
        if !self.running {
            return DaemonAction::Exit;
        }
        match e {
            DaemonEvent::Tick => DaemonAction::Login { force: true },
            DaemonEvent::Finished(o) => DaemonAction::Report(o),
            DaemonEvent::Cancel => {
                self.running = false;
                DaemonAction::Exit
            },
        }
    }
}

/// The actions that the loop asks for, from state `s`, on the events `evs`.
pub open spec fn run(s: DaemonLoop, evs: Seq<DaemonEvent>) -> Seq<DaemonAction>
    decreases evs.len(),
{
    if evs.len() == 0 {
        seq![]
    } else {
        let (s2, a) = step_of(s, evs[0]);
        seq![a] + run(s2, evs.skip(1))
    }
}

/// The number of login actions among `acts`.
pub open spec fn logins(acts: Seq<DaemonAction>) -> nat
    decreases acts.len(),
{
    if acts.len() == 0 {
        0
    } else {
        (if acts[0] is Login {
            1nat
        } else {
            0nat
        }) + logins(acts.skip(1))
    }
}

/// The number of ticks among `evs` before the first cancellation.
pub open spec fn ticks_before_cancel(evs: Seq<DaemonEvent>) -> nat
    decreases evs.len(),
{
    if evs.len() == 0 || evs[0] is Cancel {
        0
    } else {
        (if evs[0] is Tick {
            1nat
        } else {
            0nat
        }) + ticks_before_cancel(evs.skip(1))
    }
}

proof fn lemma_run_len(s: DaemonLoop, evs: Seq<DaemonEvent>)
    ensures
        run(s, evs).len() == evs.len(),
    decreases evs.len(),
{
    if evs.len() > 0 {
        lemma_run_len(step_of(s, evs[0]).0, evs.skip(1));
    }
}

/// A stopped loop asks for nothing but to exit, whatever comes.
pub proof fn lemma_stopped_loop_exits(s: DaemonLoop, evs: Seq<DaemonEvent>)
    requires
        !s.running,
    ensures
        run(s, evs).len() == evs.len(),
        forall|j: int| 0 <= j < evs.len() ==> run(s, evs)[j] is Exit,
        logins(run(s, evs)) == 0,
    decreases evs.len(),
{
    lemma_run_len(s, evs);
    if evs.len() > 0 {
        lemma_stopped_loop_exits(s, evs.skip(1));
        assert(run(s, evs).skip(1) =~= run(s, evs.skip(1)));
        assert forall|j: int| 0 <= j < evs.len() implies run(s, evs)[j] is Exit by {
            if j > 0 {
                assert(run(s, evs)[j] == run(s, evs.skip(1))[j - 1]);
            }
        }
    }
}

/// A running loop logs in exactly once for each tick before the first
/// cancellation, however the logins turn out, and never after it.
pub proof fn lemma_logins_are_ticks_before_cancel(s: DaemonLoop, evs: Seq<DaemonEvent>)
    requires
        s.running,
    ensures
        logins(run(s, evs)) == ticks_before_cancel(evs),
    decreases evs.len(),
{
    if evs.len() > 0 {
        let (s2, a) = step_of(s, evs[0]);
        let rest = run(s2, evs.skip(1));
        assert(run(s, evs).skip(1) =~= rest);
        if evs[0] is Cancel {
            lemma_stopped_loop_exits(s2, evs.skip(1));
        } else {
            lemma_logins_are_ticks_before_cancel(s2, evs.skip(1));
        }
    }
}

/// From the first cancellation on, a running loop asks only to exit.
pub proof fn lemma_cancel_ends_loop(s: DaemonLoop, evs: Seq<DaemonEvent>, k: int)
    requires
        s.running,
        0 <= k < evs.len(),
        evs[k] is Cancel,
    ensures
        run(s, evs).len() == evs.len(),
        forall|j: int| k <= j < evs.len() ==> run(s, evs)[j] is Exit,
    decreases evs.len(),
{
    lemma_run_len(s, evs);
    let (s2, a) = step_of(s, evs[0]);
    assert(run(s, evs).skip(1) =~= run(s2, evs.skip(1)));
    if evs[0] is Cancel {
        lemma_stopped_loop_exits(s2, evs.skip(1));
    } else {
        lemma_cancel_ends_loop(s2, evs.skip(1), k - 1);
    }
    assert forall|j: int| k <= j < evs.len() implies run(s, evs)[j] is Exit by {
        if j > 0 {
            assert(run(s, evs)[j] == run(s2, evs.skip(1))[j - 1]);
        }
    }
}

/// Where cancellation comes with at most one tick before it, a fresh loop
/// makes at most one login attempt and exits at the cancellation.
pub proof fn lemma_immediate_cancel(evs: Seq<DaemonEvent>, k: int)
    requires
        0 <= k < evs.len(),
        evs[k] is Cancel,
        ticks_before_cancel(evs) <= 1,
    ensures
        logins(run(DaemonLoop { running: true }, evs)) <= 1,
        forall|j: int| k <= j < evs.len() ==> run(DaemonLoop { running: true }, evs)[j] is Exit,
{
    lemma_logins_are_ticks_before_cancel(DaemonLoop { running: true }, evs);
    lemma_cancel_ends_loop(DaemonLoop { running: true }, evs, k);
}

} // verus!
