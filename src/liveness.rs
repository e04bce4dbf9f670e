//! Liveness of one connection: when it was last heard from, and the monitor
//! that probes it periodically and tears it down after a silence.
use vstd::prelude::*;

verus! {

/// Default interval between two probes, in milliseconds.
pub const PROBE_PERIOD_MS: u64 = 5000;

/// Default silence after which a connection is torn down, in milliseconds.
pub const CLIENT_TIMEOUT_MS: u64 = 10000;

/// When a connection last showed activity, in milliseconds on a monotonic clock.
#[derive(Debug, Clone, Copy, PartialEq, Eq, Structural)]
pub struct Liveness {
    pub last_activity: u64,
}

/// Time since `last`, as a monotonic clock reports it: zero when `now` is earlier.
pub open spec fn elapsed(last: int, now: int) -> int {
    if now >= last {
        now - last
    } else {
        0
    }
}

impl Liveness {
    /// A connection that was last active at `now`.
    pub fn new(now: u64) -> (r: Self)
        ensures
            r.last_activity == now,
    {
        Liveness { last_activity: now }
    }

    /// Records activity at `now`.
    pub fn record_activity(&mut self, now: u64)
        ensures
            final(self).last_activity == now,
    {
        self.last_activity = now;
    }

    /// Milliseconds of silence at `now`.
    pub fn silence(&self, now: u64) -> (r: u64)
        ensures
            r == elapsed(self.last_activity as int, now as int),
    {
        if now >= self.last_activity {
            now - self.last_activity
        } else {
            0
        }
    }
}

/// The two states of a liveness monitor.
#[derive(Debug, Clone, Copy, PartialEq, Eq, Structural)]
pub enum MonitorState {
    Active,
    Terminated,
}

/// What the monitor is told.
#[derive(Debug, Clone, Copy, PartialEq, Eq, Structural)]
pub enum MonitorEvent {
    /// The probe timer fired at `now`; the connection was last active at `last_activity`.
    Tick { now: u64, last_activity: u64 },
    /// Sending the last probe failed: the connection is already gone.
    ProbeFailed,
    /// The connection was closed or the relay is shutting down.
    Shutdown,
}

/// What the monitor asks of the code that runs it.
#[derive(Debug, Clone, Copy, PartialEq, Eq, Structural)]
pub enum MonitorAction {
    /// Send a probe frame and report back whether that failed.
    SendProbe,
    /// The connection went silent: close it and remove it from the registry.
    Teardown,
    /// Stop the timer; nothing more is sent.
    Stop,
    /// Nothing to do: the monitor has already terminated.
    Idle,
}

/// The liveness monitor of one connection: probes every `period`
/// milliseconds, and gives up after more than `timeout` milliseconds of silence.
#[derive(Debug, Clone, Copy, PartialEq, Eq, Structural)]
pub struct Monitor {
    pub period: u64,
    pub timeout: u64,
    pub state: MonitorState,
}

/// The answer of a monitor `m` to a tick at `now` when the connection was
/// last active at `last`.
pub open spec fn on_tick(m: Monitor, now: int, last: int) -> (Monitor, MonitorAction) {
    match m.state {
        MonitorState::Terminated => (m, MonitorAction::Idle),
        MonitorState::Active => if elapsed(last, now) > m.timeout {
            (Monitor { state: MonitorState::Terminated, ..m }, MonitorAction::Teardown)
        } else {
            (m, MonitorAction::SendProbe)
        },
    }
}

/// The monitor's transition: its next state and the action it asks for.
pub open spec fn monitor_step(m: Monitor, e: MonitorEvent) -> (Monitor, MonitorAction) {
    match m.state {
        MonitorState::Terminated => (m, MonitorAction::Idle),
        MonitorState::Active => match e {
            MonitorEvent::Tick { now, last_activity } => on_tick(m, now as int, last_activity as int),
            MonitorEvent::ProbeFailed => (
                Monitor { state: MonitorState::Terminated, ..m },
                MonitorAction::Stop,
            ),
            MonitorEvent::Shutdown => (
                Monitor { state: MonitorState::Terminated, ..m },
                MonitorAction::Stop,
            ),
        },
    }
}

/// The monitor after `n` ticks, `period` apart from `first` on, with no
/// activity since `last` and every probe sent.
pub open spec fn after_silent_ticks(m: Monitor, last: int, first: int, n: nat) -> Monitor
    decreases n,
{
    if n == 0 {
        m
    } else {
        after_silent_ticks(on_tick(m, first, last).0, last, first + m.period, (n - 1) as nat)
    }
}

impl Monitor {
    /// The probe period is positive and the timeout strictly larger, so at
    /// least one probe round trip fits before the connection expires.
    pub open spec fn wf(&self) -> bool {
        0 < self.period < self.timeout
    }

    /// An active monitor, or `None` unless `0 < period < timeout`.
    pub fn new(period: u64, timeout: u64) -> (r: Option<Self>)
        ensures
            r is Some <==> 0 < period < timeout,
            r matches Some(m) ==> m.wf() && m.period == period && m.timeout == timeout
                && m.state == MonitorState::Active,
    {
        if 0 < period && period < timeout {
            Some(Monitor { period, timeout, state: MonitorState::Active })
        } else {
            None
        }
    }

    /// An active monitor with the default period and timeout.
    pub fn with_defaults() -> (r: Self)
        ensures
            r.wf(),
            r.period == PROBE_PERIOD_MS,
            r.timeout == CLIENT_TIMEOUT_MS,
            r.state == MonitorState::Active,
    {
        Monitor { period: PROBE_PERIOD_MS, timeout: CLIENT_TIMEOUT_MS, state: MonitorState::Active }
    }

    pub fn is_active(&self) -> (r: bool)
        ensures
            r == (self.state == MonitorState::Active),
    {
        match self.state {
            MonitorState::Active => true,
            MonitorState::Terminated => false,
        }
    }

    /// Handles one event: a tick past the timeout tears the connection down,
    /// an earlier tick asks for a probe, a failed probe or a shutdown stops
    /// the monitor, and a terminated monitor does nothing more.
    pub fn step(&mut self, event: MonitorEvent) -> (r: MonitorAction)
        ensures
            (*final(self), r) == monitor_step(*old(self), event),
    {
        match self.state {
            MonitorState::Terminated => MonitorAction::Idle,
            MonitorState::Active => match event {
                MonitorEvent::Tick { now, last_activity } => {
                    let silence = Liveness::new(last_activity).silence(now);
                    if silence > self.timeout {
                        self.state = MonitorState::Terminated;
                        MonitorAction::Teardown
                    } else {
                        MonitorAction::SendProbe
                    }
                },
                MonitorEvent::ProbeFailed | MonitorEvent::Shutdown => {
                    self.state = MonitorState::Terminated;
                    MonitorAction::Stop
                },
            },
        }
    }
}

proof fn lemma_terminated_stays(m: Monitor, last: int, first: int, n: nat)
    requires
        m.state == MonitorState::Terminated,
    ensures
        after_silent_ticks(m, last, first, n) == m,
    decreases n,
{
    if n > 0 {
        lemma_terminated_stays(on_tick(m, first, last).0, last, first + m.period, (n - 1) as nat);
    }
}

/// A connection that stays silent is torn down by the first tick that comes
/// more than `timeout` after its last activity, and by no earlier one; with
/// ticks `period` apart, that tick comes at most one period after the
/// threshold was crossed.
pub proof fn lemma_silent_connection_expires(m: Monitor, last: int, first: int, n: nat)
    requires
        m.wf(),
        m.state == MonitorState::Active,
        n >= 1,
    ensures
        after_silent_ticks(m, last, first, n).state == MonitorState::Terminated <==> first + (n
            - 1) * m.period > last + m.timeout,
        on_tick(m, first + (n - 1) * m.period, last).1 == MonitorAction::Teardown <==> first + (n
            - 1) * m.period > last + m.timeout,
        n >= 2 && after_silent_ticks(m, last, first, (n - 1) as nat).state == MonitorState::Active
            ==> first + (n - 1) * m.period <= last + m.timeout + m.period,
    decreases n,
{
    let p = m.period as int;
    let thr = last + m.timeout;
    let m1 = on_tick(m, first, last).0;
    assert(after_silent_ticks(m, last, first, n) == after_silent_ticks(m1, last, first + p, (n - 1) as nat));
    if n == 1 {
        assert(after_silent_ticks(m1, last, first + p, 0) == m1);
        assert((n - 1) * p == 0) by (nonlinear_arith)
            requires
                n == 1,
        ;
    } else {
        assert(first + (n - 1) * p == first + p + (n - 2) * p) by (nonlinear_arith)
            requires
                n >= 2,
        ;
        assert(after_silent_ticks(m, last, first, (n - 1) as nat) == after_silent_ticks(
            m1,
            last,
            first + p,
            (n - 2) as nat,
        ));
        if elapsed(last, first) > m.timeout {
            lemma_terminated_stays(m1, last, first + p, (n - 1) as nat);
            lemma_terminated_stays(m1, last, first + p, (n - 2) as nat);
            assert((n - 2) * p >= 0) by (nonlinear_arith)
                requires
                    n >= 2,
                    p > 0,
            ;
        } else {
            assert(m1 == m);
            lemma_silent_connection_expires(m, last, first + p, (n - 1) as nat);
            if n == 2 {
                assert(after_silent_ticks(m, last, first + p, 0) == m);
            }
        }
    }
}

} // verus!
