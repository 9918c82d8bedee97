//! Events sent to subscribers, the notices the monitor raises, and the
//! status summary exposed to the application.

use vstd::prelude::*;
use crate::focus::FocusState;

verus! {

/// An event as delivered to every consumer.
#[derive(Debug, Clone)]
pub struct DuckMessage {
    pub message: String,
    pub timestamp: String,
    pub msg_type: String,
    pub focus_state: Option<String>,
}

/// A `DuckMessage` as plain character sequences.
pub struct MessageView {
    pub message: Seq<char>,
    pub timestamp: Seq<char>,
    pub msg_type: Seq<char>,
    pub focus_state: Option<Seq<char>>,
}

impl View for DuckMessage {
    type V = MessageView;

    open spec fn view(&self) -> MessageView {
        MessageView {
            message: self.message@,
            timestamp: self.timestamp@,
            msg_type: self.msg_type@,
            focus_state: match self.focus_state {
                Some(f) => Some(f@),
                None => None,
            },
        }
    }
}

impl DuckMessage {
    /// A field-by-field copy.
    pub fn duplicate(&self) -> (r: Self)
        ensures
            r == *self,
    {
        DuckMessage {
            message: self.message.clone(),
            timestamp: self.timestamp.clone(),
            msg_type: self.msg_type.clone(),
            focus_state: match &self.focus_state {
                Some(f) => Some(f.clone()),
                None => None,
            },
        }
    }
}

/// Something the monitor has to tell its consumers.
#[derive(Clone, Copy, Debug, PartialEq, Eq, Structural)]
pub enum Notice {
    Connected,
    Disconnected,
    FocusChanged(FocusState),
}

/// The wire name of a coarse focus state.
pub open spec fn focus_name(f: FocusState) -> Seq<char> {
    match f {
        FocusState::Focused => "focused"@,
        FocusState::Unfocused => "unfocused"@,
    }
}

/// The human-readable text of a notice.
pub open spec fn notice_text(n: Notice) -> Seq<char> {
    match n {
        Notice::Connected => "EEG Connected"@,
        Notice::Disconnected => "EEG Disconnected - Please connect your Muse headset"@,
        Notice::FocusChanged(FocusState::Unfocused) => "⚠️ Distraction detected! Duck spawned."@,
        Notice::FocusChanged(FocusState::Focused) => "✅ Focus restored!"@,
    }
}

/// The kind tag of a notice.
pub open spec fn notice_kind(n: Notice) -> Seq<char> {
    match n {
        Notice::FocusChanged(_) => "focus_state_change"@,
        _ => "connection_status"@,
    }
}

/// The focus label a notice carries.
pub open spec fn notice_focus(n: Notice) -> Option<Seq<char>> {
    match n {
        Notice::FocusChanged(f) => Some(focus_name(f)),
        _ => None,
    }
}

/// The event that announces `n` at `timestamp`.
pub open spec fn notice_message(n: Notice, timestamp: Seq<char>) -> MessageView {
    MessageView {
        message: notice_text(n),
        timestamp,
        msg_type: notice_kind(n),
        focus_state: notice_focus(n),
    }
}

impl FocusState {
    /// The wire name: "focused" or "unfocused".
    pub fn name(&self) -> (r: String)
        ensures
            r@ == focus_name(*self),
    {
        match self {
            FocusState::Focused => "focused".to_owned(),
            FocusState::Unfocused => "unfocused".to_owned(),
        }
    }
}

impl Notice {
    /// The event announcing this notice, stamped with `timestamp`.
    pub fn to_message(&self, timestamp: String) -> (r: DuckMessage)
        ensures
            r@ == notice_message(*self, timestamp@),
    {
        let (message, focus_state) = match self {
            Notice::Connected => ("EEG Connected".to_owned(), None),
            Notice::Disconnected => ("EEG Disconnected - Please connect your Muse headset".to_owned(), None),
            Notice::FocusChanged(FocusState::Unfocused) => (
                "⚠️ Distraction detected! Duck spawned.".to_owned(),
                Some(FocusState::Unfocused.name()),
            ),
            Notice::FocusChanged(FocusState::Focused) => (
                "✅ Focus restored!".to_owned(),
                Some(FocusState::Focused.name()),
            ),
        };
        let msg_type = match self {
            Notice::FocusChanged(_) => "focus_state_change".to_owned(),
            _ => "connection_status".to_owned(),
        };
        DuckMessage { message, timestamp, msg_type, focus_state }
    }
}

/// The greeting returned to the desktop window's `greet` command.
pub fn greet(name: &str) -> (r: String)
    ensures
        r@ == "Hello, "@ + name@ + "! You've been greeted from Rust!"@,
{
    let mut r = "Hello, ".to_owned();
    r.append(name);
    r.append("! You've been greeted from Rust!");
    r
}

/// The greeting a new remote subscriber receives, stamped with `timestamp`.
pub fn welcome_message(timestamp: String) -> (r: DuckMessage)
    ensures
        r@ == (MessageView {
            message: "Connected to Duck Controller!"@,
            timestamp: timestamp@,
            msg_type: "connection"@,
            focus_state: None,
        }),
{
    DuckMessage {
        message: "Connected to Duck Controller!".to_owned(),
        timestamp,
        msg_type: "connection".to_owned(),
        focus_state: None,
    }
}

/// The current connection status for a new remote subscriber: the
/// "connected" or "disconnected" notice's event.
pub fn status_message(connected: bool, timestamp: String) -> (r: DuckMessage)
    ensures
        r@ == notice_message(if connected { Notice::Connected } else { Notice::Disconnected }, timestamp@),
{
    if connected {
        Notice::Connected.to_message(timestamp)
    } else {
        Notice::Disconnected.to_message(timestamp)
    }
}

/// Read-only summary of the service for the application.
#[derive(Clone, Copy, Debug, PartialEq, Eq, Structural)]
pub struct ServiceStatus {
    pub http_server: bool,
    pub websocket_server: bool,
    pub extension_connected: bool,
    pub messages_received: u32,
    pub muse_connected: bool,
}

impl ServiceStatus {
    /// The summary of a running service with `subscriber_count` remote
    /// subscribers.
    pub fn report(muse_connected: bool, messages_received: u32, subscriber_count: usize) -> (r: Self)
        ensures
            r == (ServiceStatus {
                http_server: true,
                websocket_server: true,
                extension_connected: subscriber_count > 0,
                messages_received,
                muse_connected,
            }),
    {
        ServiceStatus {
            http_server: true,
            websocket_server: true,
            extension_connected: subscriber_count > 0,
            messages_received,
            muse_connected,
        }
    }
}

} // verus!
