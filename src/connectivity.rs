//! Connectivity hysteresis: a run of failures must reach a threshold before
//! the source is declared disconnected, and each disconnection is announced
//! once.

use vstd::prelude::*;

verus! {

/// Consecutive failures after which a connected source counts as lost.
pub const FAILURE_THRESHOLD: u32 = 5;

/// Connection state of the metrics source.
#[derive(Clone, Copy, Debug, PartialEq, Eq, Structural)]
pub struct ConnectivityState {
    pub connected: bool,
    pub consecutive_failures: u32,
    pub disconnect_notified: bool,
}

/// What a success signal does: the next state, and whether a "connected"
/// notice is due.
pub open spec fn success_step(s: ConnectivityState) -> (ConnectivityState, bool) {
    if !s.connected {
        (ConnectivityState { connected: true, consecutive_failures: 0, disconnect_notified: false }, true)
    } else {
        (ConnectivityState { consecutive_failures: 0, ..s }, false)
    }
}

/// The failure count after one more failure, held at `u32::MAX`.
pub open spec fn bumped(n: u32) -> u32 {
    if n == u32::MAX { n } else { (n + 1) as u32 }
}

/// Whether a failure signal takes a connected source to disconnected.
pub open spec fn drops_connection(s: ConnectivityState) -> bool {
    s.connected && bumped(s.consecutive_failures) >= FAILURE_THRESHOLD
}

/// What a failure signal does: the next state, and whether a
/// "disconnected" notice is due. A notice needs a run of at least
/// `FAILURE_THRESHOLD` failures, also before any connection was made.
pub open spec fn failure_step(s: ConnectivityState) -> (ConnectivityState, bool) {
    let connected = s.connected && !drops_connection(s);
    let notified = if drops_connection(s) { false } else { s.disconnect_notified };
    let announce = !connected && !notified && bumped(s.consecutive_failures) >= FAILURE_THRESHOLD;
    (
        ConnectivityState {
            connected,
            consecutive_failures: bumped(s.consecutive_failures),
            disconnect_notified: notified || announce,
        },
        announce,
    )
}

/// The state after `n` failures in a row, and how many "disconnected"
/// notices they raised.
pub open spec fn failure_run(s: ConnectivityState, n: nat) -> (ConnectivityState, nat)
    decreases n,
{
    if n == 0 {
        (s, 0)
    } else {
        let (s1, announce) = failure_step(s);
        let (s2, k) = failure_run(s1, (n - 1) as nat);
        (s2, k + if announce { 1nat } else { 0nat })
    }
}

/// No "disconnected" notice is raised, and a connected source stays
/// connected, until the run of consecutive failures reaches the threshold,
/// whatever the state the run starts from.
pub proof fn lemma_no_disconnect_before_threshold(s: ConnectivityState, n: nat)
    requires
        s.consecutive_failures + n < FAILURE_THRESHOLD,
    ensures
        failure_run(s, n).0.connected == s.connected,
        failure_run(s, n).1 == 0,
    decreases n,
{
    if n > 0 {
        lemma_no_disconnect_before_threshold(failure_step(s).0, (n - 1) as nat);
    }
}

/// Once a disconnection has been announced, further failures stay silent.
pub proof fn lemma_silent_once_announced(s: ConnectivityState, n: nat)
    requires
        !s.connected,
        s.disconnect_notified,
    ensures
        !failure_run(s, n).0.connected,
        failure_run(s, n).0.disconnect_notified,
        failure_run(s, n).1 == 0,
    decreases n,
{
    if n > 0 {
        lemma_silent_once_announced(failure_step(s).0, (n - 1) as nat);
    }
}

/// A source that is connected, or disconnected with nothing announced
/// yet, whose run of failures reaches the threshold ends up disconnected
/// with exactly one notice, however many failures follow.
pub proof fn lemma_one_disconnect_per_episode(s: ConnectivityState, n: nat)
    requires
        s.connected || !s.disconnect_notified,
        n >= 1,
        s.consecutive_failures + n >= FAILURE_THRESHOLD,
    ensures
        !failure_run(s, n).0.connected,
        failure_run(s, n).1 == 1,
    decreases n,
{
    let (s1, announce) = failure_step(s);
    if announce {
        lemma_silent_once_announced(s1, (n - 1) as nat);
    } else {
        lemma_one_disconnect_per_episode(s1, (n - 1) as nat);
    }
}

/// From any state, a run of failures raises at most one "disconnected"
/// notice.
pub proof fn lemma_at_most_one_disconnect(s: ConnectivityState, n: nat)
    ensures
        failure_run(s, n).1 <= 1,
    decreases n,
{
    if n > 0 {
        let (s1, announce) = failure_step(s);
        if announce || (!s1.connected && s1.disconnect_notified) {
            lemma_silent_once_announced(s1, (n - 1) as nat);
        } else {
            lemma_at_most_one_disconnect(s1, (n - 1) as nat);
        }
    }
}

impl ConnectivityState {
    /// Disconnected, no failures counted, nothing announced.
    pub fn new() -> (r: Self)
        ensures
            r == (ConnectivityState { connected: false, consecutive_failures: 0, disconnect_notified: false }),
    {
        ConnectivityState { connected: false, consecutive_failures: 0, disconnect_notified: false }
    }

    /// Records a successful poll; returns whether the source just became
    /// connected (a "connected" notice is due).
    pub fn record_success(&mut self) -> (r: bool)
        ensures
            (*final(self), r) == success_step(*old(self)),
    {
        self.consecutive_failures = 0;
        if !self.connected {
            self.connected = true;
            self.disconnect_notified = false;
            true
        } else {
            false
        }
    }

    /// Records a failed poll; returns whether a "disconnected" notice is due.
    pub fn record_failure(&mut self) -> (r: bool)
        ensures
            (*final(self), r) == failure_step(*old(self)),
    {
        self.consecutive_failures = self.consecutive_failures.saturating_add(1);
        if self.consecutive_failures >= FAILURE_THRESHOLD && self.connected {
            self.connected = false;
            self.disconnect_notified = false;
        }
        if !self.connected && !self.disconnect_notified && self.consecutive_failures >= FAILURE_THRESHOLD {
            self.disconnect_notified = true;
            true
        } else {
            false
        }
    }
}

} // verus!
