use vstd::prelude::*;
use vstd::string::StringExecFns;
use crate::config::Settings;
use crate::errors::AppError;
use crate::hub::Hub;
use crate::json::JsonValue;
use crate::models::BroadcastMessage;
use crate::models::Timestamp;
use crate::parser::{
    is_creation_event, is_token_creation, notification_signature, owned, parse_token_created,
};

verus! {

/// Seconds the listener waits after losing the upstream link before it
/// connects again.
pub const RECONNECT_DELAY_SECS: u64 = 5;

/// The subscribe request up to the quoted program id.
pub const SUBSCRIBE_HEAD: &'static str = "{\"id\":1,\"jsonrpc\":\"2.0\",\"method\":\"accountSubscribe\",\"params\":[";

/// The subscribe request after the quoted program id.
pub const SUBSCRIBE_TAIL: &'static str = ",{\"commitment\":\"final\",\"encoding\":\"json\"}]}";

/// The JSON string literal that serde_json writes for `s`.
pub uninterp spec fn json_quoted(s: Seq<char>) -> Seq<char>;

/// A character that serde_json writes into a string literal as it is: neither
/// a quote, a backslash nor a control character below U+0020.
pub open spec fn is_plain_json_char(c: char) -> bool {
    c != '"' && c != '\\' && c as u32 >= 0x20
}

/// A string that serde_json writes between quotes without escapes.
pub open spec fn is_plain_json_text(s: Seq<char>) -> bool {
    forall|i: int| 0 <= i < s.len() ==> is_plain_json_char(#[trigger] s[i])
}

/// Relies on serde_json::to_string on a string slice: the JSON string literal
/// for `s`, quotes and escapes included; a string without characters to
/// escape comes out between two quotes as it is. Writing into memory cannot
/// fail.
#[verifier::external_body]
fn quote_json(s: &str) -> (r: String)
    ensures
        r@ == json_quoted(s@),
        is_plain_json_text(s@) ==> r@ == seq!['"'] + s@ + seq!['"'],
{
    match serde_json::to_string(s) {
        Ok(t) => t,
        Err(_) => String::new(),
    }
}

/// The subscribe request text for a program id.
pub open spec fn subscribe_text(program_id: Seq<char>) -> Seq<char> {
    SUBSCRIBE_HEAD@ + json_quoted(program_id) + SUBSCRIBE_TAIL@
}

/// The JSON-RPC request that subscribes to the account updates of
/// `program_id`, JSON-encoded at final commitment.
pub fn subscribe_request(program_id: &str) -> (r: String)
    ensures
        r@ == subscribe_text(program_id@),
        is_plain_json_text(program_id@) ==> r@ == SUBSCRIBE_HEAD@ + seq!['"'] + program_id@ + seq![
            '"',
        ] + SUBSCRIBE_TAIL@,
{
    let quoted = quote_json(program_id);
    let r = owned(SUBSCRIBE_HEAD).concat(quoted.as_str()).concat(SUBSCRIBE_TAIL);
    r
}

/// Where the upstream listener stands.
#[derive(Clone, Copy, Debug, PartialEq, Eq, Structural)]
pub enum ListenerPhase {
    /// Opening the upstream connection.
    Connecting,
    /// Subscribed and reading notifications.
    Subscribed,
    /// Waiting out the reconnect delay.
    Backoff,
    /// Stopped by the shutdown signal.
    Stopped,
    /// Ended by this failure, handed to the supervisor.
    Failed(AppError),
}

/// What happened since the listener's last decision.
pub enum ListenerInput {
    /// The upstream connection opened.
    Connected,
    /// Opening the connection, or sending the subscribe request, failed.
    ConnectFailed,
    /// A text frame arrived, at the given time, holding this JSON document.
    Notification(JsonValue, Timestamp),
    /// A text frame arrived that is not JSON.
    Malformed,
    /// A frame of another kind arrived.
    OtherFrame,
    /// The peer closed the connection, or reading from it failed.
    LinkLost,
    /// The reconnect delay is over.
    DelayElapsed,
}

/// What the listener asks its driver to do next.
#[derive(Clone, Copy, Debug, PartialEq, Eq, Structural)]
pub enum ListenerAction {
    /// Open the upstream connection.
    Connect,
    /// Send the listener's subscribe request on the new connection.
    Subscribe,
    /// Read the next frame.
    ReadNext,
    /// Wait this many seconds, then report that the delay is over.
    Wait(u64),
    /// Close everything and end without error: shutdown was seen.
    Stop,
    /// End with this error.
    Fail(AppError),
}

/// The listener's decision after `input` in `phase`, with the shutdown signal
/// seen as `shutdown` and `hub_open` telling whether the hub had an open
/// subscription to publish to. An input that does not belong to the phase
/// changes nothing: the listener repeats what it was doing.
pub open spec fn next_action(
    phase: ListenerPhase,
    shutdown: bool,
    input: ListenerInput,
    hub_open: bool,
) -> ListenerAction {
    match phase {
        ListenerPhase::Stopped => ListenerAction::Stop,
        ListenerPhase::Failed(e) => ListenerAction::Fail(e),
        _ => if shutdown {
            ListenerAction::Stop
        } else {
            match phase {
                ListenerPhase::Connecting => match input {
                    ListenerInput::Connected => ListenerAction::Subscribe,
                    ListenerInput::ConnectFailed => ListenerAction::Fail(AppError::WebSocket),
                    _ => ListenerAction::Connect,
                },
                ListenerPhase::Subscribed => match input {
                    ListenerInput::ConnectFailed => ListenerAction::Fail(AppError::WebSocket),
                    ListenerInput::Notification(raw, _) => if is_token_creation(raw) && !hub_open {
                        ListenerAction::Fail(AppError::Broadcast)
                    } else {
                        ListenerAction::ReadNext
                    },
                    ListenerInput::Malformed => ListenerAction::Fail(AppError::Json),
                    ListenerInput::LinkLost => ListenerAction::Wait(RECONNECT_DELAY_SECS),
                    _ => ListenerAction::ReadNext,
                },
                _ => match input {
                    ListenerInput::DelayElapsed => ListenerAction::Connect,
                    _ => ListenerAction::Wait(RECONNECT_DELAY_SECS),
                },
            }
        },
    }
}

/// The phase that an action leads to.
pub open spec fn phase_after(action: ListenerAction) -> ListenerPhase {
    match action {
        ListenerAction::Connect => ListenerPhase::Connecting,
        ListenerAction::Subscribe => ListenerPhase::Subscribed,
        ListenerAction::ReadNext => ListenerPhase::Subscribed,
        ListenerAction::Wait(_) => ListenerPhase::Backoff,
        ListenerAction::Stop => ListenerPhase::Stopped,
        ListenerAction::Fail(e) => ListenerPhase::Failed(e),
    }
}

/// Whether the listener publishes an event after `input` in `phase`: it is
/// subscribed, shutdown is not set, and the notification announces a token
/// creation.
pub open spec fn publishes(phase: ListenerPhase, shutdown: bool, input: ListenerInput) -> bool {
    &&& phase == ListenerPhase::Subscribed
    &&& !shutdown
    &&& input matches ListenerInput::Notification(raw, _) && is_token_creation(raw)
}

/// The upstream listener's decisions: one subscription at a time, a fixed
/// delay before each reconnect, and a stop as soon as shutdown is seen.
pub struct UpstreamListener {
    phase: ListenerPhase,
    request: String,
}

impl UpstreamListener {
    /// The current phase.
    pub closed spec fn phase_of(&self) -> ListenerPhase {
        self.phase
    }

    /// The subscribe request sent on every connection.
    pub closed spec fn request_of(&self) -> Seq<char> {
        self.request@
    }

    /// A listener about to connect, subscribing to the configured program.
    pub fn new(settings: &Settings) -> (r: UpstreamListener)
        ensures
            r.phase_of() == ListenerPhase::Connecting,
            r.request_of() == subscribe_text(settings.pump_program_id@),
    {
        UpstreamListener {
            phase: ListenerPhase::Connecting,
            request: subscribe_request(settings.pump_program_id.as_str()),
        }
    }

    /// The current phase.
    pub fn phase(&self) -> (r: ListenerPhase)
        ensures
            r == self.phase_of(),
    {
        self.phase
    }

    /// The subscribe request to send when asked to subscribe.
    pub fn request(&self) -> (r: &String)
        ensures
            r@ == self.request_of(),
    {
        &self.request
    }

    /// Decides what to do after `input`, seeing the shutdown signal as
    /// `shutdown`. A notification that announces a token creation is
    /// published to `hub`, stamped with the time it arrived.
    pub fn step(&mut self, hub: &mut Hub, shutdown: bool, input: ListenerInput) -> (r: ListenerAction)
        requires
            old(hub)@.well_formed(),
            old(hub)@.next_seq() < u64::MAX,
        ensures
            r == next_action(old(self).phase_of(), shutdown, input, old(hub)@.receivers > 0),
            final(self).phase_of() == phase_after(r),
            final(self).request_of() == old(self).request_of(),
            final(hub)@.well_formed(),
            !publishes(old(self).phase_of(), shutdown, input) ==> final(hub)@ == old(hub)@,
            publishes(old(self).phase_of(), shutdown, input) ==> (input matches ListenerInput::Notification(
                raw,
                at,
            ) && exists|ev|
                #[trigger] is_creation_event(ev, notification_signature(raw), at) && final(hub)@
                    == old(hub)@.publish(BroadcastMessage::TokenCreated(ev))),
    {
        let action = match self.phase {
            ListenerPhase::Stopped => ListenerAction::Stop,
            ListenerPhase::Failed(e) => ListenerAction::Fail(e),
            ListenerPhase::Connecting => if shutdown {
                ListenerAction::Stop
            } else {
                match input {
                    ListenerInput::Connected => ListenerAction::Subscribe,
                    ListenerInput::ConnectFailed => ListenerAction::Fail(AppError::WebSocket),
                    _ => ListenerAction::Connect,
                }
            },
            ListenerPhase::Subscribed => if shutdown {
                ListenerAction::Stop
            } else {
                match input {
                    ListenerInput::ConnectFailed => ListenerAction::Fail(AppError::WebSocket),
                    ListenerInput::Notification(raw, at) => {
                        match parse_token_created(&raw, at) {
                            Ok(Some(ev)) => match hub.publish(BroadcastMessage::TokenCreated(ev)) {
                                Ok(()) => ListenerAction::ReadNext,
                                Err(e) => ListenerAction::Fail(e),
                            },
                            _ => ListenerAction::ReadNext,
                        }
                    },
                    ListenerInput::Malformed => ListenerAction::Fail(AppError::Json),
                    ListenerInput::LinkLost => ListenerAction::Wait(RECONNECT_DELAY_SECS),
                    _ => ListenerAction::ReadNext,
                }
            },
            ListenerPhase::Backoff => if shutdown {
                ListenerAction::Stop
            } else {
                match input {
                    ListenerInput::DelayElapsed => ListenerAction::Connect,
                    _ => ListenerAction::Wait(RECONNECT_DELAY_SECS),
                }
            },
        };
        self.phase = match action {
            ListenerAction::Connect => ListenerPhase::Connecting,
            ListenerAction::Subscribe => ListenerPhase::Subscribed,
            ListenerAction::ReadNext => ListenerPhase::Subscribed,
            ListenerAction::Wait(_) => ListenerPhase::Backoff,
            ListenerAction::Stop => ListenerPhase::Stopped,
            ListenerAction::Fail(e) => ListenerPhase::Failed(e),
        };
        action
    }
}

/// A lost link is followed by the fixed reconnect delay, the delay's end by a
/// new connection, and that connection by the same subscribe request, back in
/// the subscribed phase: the cycle repeats without bound while shutdown is not
/// set, and nothing but the end of the delay leads to a new connection.
pub proof fn lemma_reconnect_cycle(input: ListenerInput, hub_open: bool)
    ensures
        next_action(ListenerPhase::Subscribed, false, ListenerInput::LinkLost, hub_open)
            == ListenerAction::Wait(RECONNECT_DELAY_SECS),
        phase_after(ListenerAction::Wait(RECONNECT_DELAY_SECS)) == ListenerPhase::Backoff,
        next_action(ListenerPhase::Backoff, false, ListenerInput::DelayElapsed, hub_open)
            == ListenerAction::Connect,
        !(input is DelayElapsed) ==> next_action(ListenerPhase::Backoff, false, input, hub_open)
            == ListenerAction::Wait(RECONNECT_DELAY_SECS),
        next_action(ListenerPhase::Subscribed, false, input, hub_open) != ListenerAction::Connect,
        next_action(ListenerPhase::Connecting, false, ListenerInput::Connected, hub_open)
            == ListenerAction::Subscribe,
        phase_after(ListenerAction::Subscribe) == ListenerPhase::Subscribed,
{
}

} // verus!
