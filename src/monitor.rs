//! The monitor: one poll cycle's decisions over connectivity, focus
//! debouncing and the resolved metrics endpoint.

use vstd::prelude::*;
use crate::connectivity::{ConnectivityState, FAILURE_THRESHOLD, success_step, failure_step, drops_connection, bumped};
use crate::focus::{FocusDebounceState, FocusView, focus_step};
use crate::message::{Notice, ServiceStatus};

verus! {

/// How one metrics request ended.
#[derive(Debug)]
pub enum PollOutcome {
    /// Success status and a parsable snapshot with this attention label.
    Success(String),
    /// Success status, unparsable body.
    ParseFailure,
    /// Non-success status: the endpoint is stale.
    BadStatus,
    /// The request could not be sent or answered.
    TransportFailure,
}

/// The monitor's state as plain values.
pub struct MonitorView {
    pub conn: ConnectivityState,
    pub focus: FocusView,
    pub endpoint: Option<u16>,
    pub emitted: u32,
}

/// A successful snapshot with `label` at `now`.
pub open spec fn success_result(m: MonitorView, label: Seq<char>, now: u64) -> (MonitorView, Seq<Notice>) {
    let (c, connected_now) = success_step(m.conn);
    let (f, change) = focus_step(m.focus, label, now);
    let first: Seq<Notice> = if connected_now { seq![Notice::Connected] } else { seq![] };
    match change {
        Some(s) => (
            MonitorView { conn: c, focus: f, endpoint: m.endpoint, emitted: bumped(m.emitted) },
            first.push(Notice::FocusChanged(s)),
        ),
        None => (MonitorView { conn: c, focus: f, endpoint: m.endpoint, emitted: m.emitted }, first),
    }
}

/// A failed cycle: the focus state is dropped when the connection is lost.
pub open spec fn failure_result(m: MonitorView) -> (MonitorView, Seq<Notice>) {
    let (c, announce) = failure_step(m.conn);
    let f = if drops_connection(m.conn) { FocusView { label: None, since: None } } else { m.focus };
    (
        MonitorView { conn: c, focus: f, endpoint: m.endpoint, emitted: m.emitted },
        if announce { seq![Notice::Disconnected] } else { seq![] },
    )
}

/// One metrics request's outcome; a stale or unreachable endpoint is
/// forgotten so that the next cycle discovers it anew.
pub open spec fn poll_result(m: MonitorView, o: PollOutcome, now: u64) -> (MonitorView, Seq<Notice>) {
    match o {
        PollOutcome::Success(l) => success_result(m, l@, now),
        PollOutcome::ParseFailure => failure_result(m),
        _ => failure_result(MonitorView { endpoint: None, ..m }),
    }
}

/// The result of endpoint discovery: a found endpoint is kept, none found
/// counts as a failure.
pub open spec fn discovery_result(m: MonitorView, found: Option<u16>) -> (MonitorView, Seq<Notice>) {
    match found {
        Some(p) => (MonitorView { endpoint: Some(p), ..m }, seq![]),
        None => failure_result(m),
    }
}

/// Losing the connection clears the focus state, so a reconnection that
/// reports the very label seen before opens a fresh stability window and
/// announces only the reconnection.
pub proof fn lemma_reconnect_opens_fresh_window(m: MonitorView, label: Seq<char>, now: u64)
    requires
        drops_connection(m.conn),
    ensures
        !failure_result(m).0.conn.connected,
        failure_result(m).0.focus.label is None,
        failure_result(m).0.focus.since is None,
        success_result(failure_result(m).0, label, now).1 == seq![Notice::Connected],
        success_result(failure_result(m).0, label, now).0.focus.label == Some(label),
        success_result(failure_result(m).0, label, now).0.focus.since == Some(now),
{
}

/// While disconnected, further failures leave the focus state alone.
pub proof fn lemma_failures_keep_cleared_focus(m: MonitorView)
    requires
        !m.conn.connected,
    ensures
        failure_result(m).0.focus == m.focus,
{
}

/// Shared monitor state: connectivity, focus debouncing, the resolved
/// endpoint and the number of messages emitted.
#[derive(Debug)]
pub struct Monitor {
    connectivity: ConnectivityState,
    focus: FocusDebounceState,
    endpoint: Option<u16>,
    messages_emitted: u32,
}

impl View for Monitor {
    type V = MonitorView;

    closed spec fn view(&self) -> MonitorView {
        MonitorView {
            conn: self.connectivity,
            focus: self.focus@,
            endpoint: self.endpoint,
            emitted: self.messages_emitted,
        }
    }
}

impl Monitor {
    /// Disconnected, no endpoint, no label seen, nothing emitted.
    pub fn new() -> (r: Self)
        ensures
            r@ == (MonitorView {
                conn: ConnectivityState { connected: false, consecutive_failures: 0, disconnect_notified: false },
                focus: FocusView { label: None, since: None },
                endpoint: None,
                emitted: 0,
            }),
    {
        Monitor {
            connectivity: ConnectivityState::new(),
            focus: FocusDebounceState::new(),
            endpoint: None,
            messages_emitted: 0,
        }
    }

    /// Whether the source counts as connected.
    pub fn is_connected(&self) -> (r: bool)
        ensures
            r == self@.conn.connected,
    {
        self.connectivity.connected
    }

    /// The connectivity state.
    pub fn connectivity(&self) -> (r: ConnectivityState)
        ensures
            r == self@.conn,
    {
        self.connectivity
    }

    /// The resolved endpoint, if any; `None` asks for discovery.
    pub fn endpoint(&self) -> (r: Option<u16>)
        ensures
            r == self@.endpoint,
    {
        self.endpoint
    }

    /// The number of messages emitted so far.
    pub fn messages_emitted(&self) -> (r: u32)
        ensures
            r == self@.emitted,
    {
        self.messages_emitted
    }

    /// The instant at which the open stability window started, if any.
    pub fn window_start(&self) -> (r: Option<u64>)
        ensures
            r == self@.focus.since,
    {
        self.focus.last_change_ms
    }

    fn on_success(&mut self, label: &str, now_ms: u64) -> (r: Vec<Notice>)
        ensures
            (final(self)@, r@) == success_result(old(self)@, label@, now_ms),
    {
        let mut notices: Vec<Notice> = Vec::new();
        if self.connectivity.record_success() {
            notices.push(Notice::Connected);
        }
        match self.focus.observe(label, now_ms) {
            Some(s) => {
                self.messages_emitted = self.messages_emitted.saturating_add(1);
                notices.push(Notice::FocusChanged(s));
            },
            None => {},
        }
        assert(notices@ =~= success_result(old(self)@, label@, now_ms).1);
        notices
    }

    fn on_failure(&mut self) -> (r: Vec<Notice>)
        ensures
            (final(self)@, r@) == failure_result(old(self)@),
    {
        let mut notices: Vec<Notice> = Vec::new();
        let dropping = self.connectivity.connected
            && self.connectivity.consecutive_failures.saturating_add(1) >= FAILURE_THRESHOLD;
        let announce = self.connectivity.record_failure();
        if dropping {
            self.focus.clear();
        }
        if announce {
            notices.push(Notice::Disconnected);
        }
        assert(notices@ =~= failure_result(old(self)@).1);
        notices
    }

    /// Applies the outcome of endpoint discovery; returns the notices due.
    pub fn on_discovery(&mut self, found: Option<u16>) -> (r: Vec<Notice>)
        ensures
            (final(self)@, r@) == discovery_result(old(self)@, found),
    {
        match found {
            Some(p) => {
                self.endpoint = Some(p);
                let r: Vec<Notice> = Vec::new();
                assert(r@ =~= seq![]);
                r
            },
            None => self.on_failure(),
        }
    }

    /// Applies the outcome of one metrics request made at `now_ms`; returns
    /// the notices due, in the order they are to be published.
    pub fn on_poll(&mut self, outcome: PollOutcome, now_ms: u64) -> (r: Vec<Notice>)
        ensures
            (final(self)@, r@) == poll_result(old(self)@, outcome, now_ms),
    {
        match outcome {
            PollOutcome::Success(label) => self.on_success(label.as_str(), now_ms),
            PollOutcome::ParseFailure => self.on_failure(),
            _ => {
                self.endpoint = None;
                self.on_failure()
            },
        }
    }

    /// Counts a message that arrived from outside and is passed on.
    pub fn record_received(&mut self)
        ensures
            final(self)@ == (MonitorView { emitted: bumped(old(self)@.emitted), ..old(self)@ }),
    {
        self.messages_emitted = self.messages_emitted.saturating_add(1);
    }

    /// The service summary, given the number of remote subscribers.
    pub fn status(&self, subscriber_count: usize) -> (r: ServiceStatus)
        ensures
            r == (ServiceStatus {
                http_server: true,
                websocket_server: true,
                extension_connected: subscriber_count > 0,
                messages_received: self@.emitted,
                muse_connected: self@.conn.connected,
            }),
    {
        ServiceStatus::report(self.connectivity.connected, self.messages_emitted, subscriber_count)
    }
}

} // verus!
