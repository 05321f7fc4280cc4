use vstd::prelude::*;
use crate::hub::RecvOutcome;
use crate::listener::{next_action, phase_after, ListenerAction, ListenerInput, ListenerPhase};
use crate::models::BroadcastMessage;

verus! {

/// Whichever of a client session's three waits finished first.
pub enum SessionInput {
    /// The client sent a frame; it carries no command yet.
    ClientFrame,
    /// The client's side of the connection ended.
    ClientClosed,
    /// A read from the session's hub subscription.
    Hub(RecvOutcome),
    /// Writing a delivered event to the client failed.
    SendFailed,
    /// The shutdown signal changed.
    ShutdownChanged,
}

/// What a client session does next.
#[derive(Debug, PartialEq, Eq)]
pub enum SessionAction {
    /// Wait again.
    Continue,
    /// Write this event to the client as one JSON text frame, then wait again.
    Deliver(BroadcastMessage),
    /// Close the connection and end the session.
    Close,
}

/// A session's decision after `input`, with the shutdown signal seen as
/// `shutdown`.
pub open spec fn session_decision(shutdown: bool, input: SessionInput) -> SessionAction {
    if shutdown {
        SessionAction::Close
    } else {
        match input {
            SessionInput::ClientFrame => SessionAction::Continue,
            SessionInput::ClientClosed => SessionAction::Close,
            SessionInput::Hub(RecvOutcome::Event(ev)) => SessionAction::Deliver(ev),
            SessionInput::Hub(_) => SessionAction::Continue,
            SessionInput::SendFailed => SessionAction::Close,
            SessionInput::ShutdownChanged => SessionAction::Close,
        }
    }
}

/// Decides a client session's next move: deliver each event read from the
/// hub, skip past lost events, and close on client disconnect, send failure
/// or shutdown.
pub fn client_step(shutdown: bool, input: SessionInput) -> (r: SessionAction)
    ensures
        r == session_decision(shutdown, input),
{
    if shutdown {
        return SessionAction::Close;
    }
    match input {
        SessionInput::ClientFrame => SessionAction::Continue,
        SessionInput::ClientClosed => SessionAction::Close,
        SessionInput::Hub(RecvOutcome::Event(ev)) => SessionAction::Deliver(ev),
        SessionInput::Hub(_) => SessionAction::Continue,
        SessionInput::SendFailed => SessionAction::Close,
        SessionInput::ShutdownChanged => SessionAction::Close,
    }
}

/// Once the shutdown signal is set, the upstream listener stops at its next
/// decision, whatever it was waiting for (a frame or the end of a reconnect
/// delay), unless it had already failed; and every client session closes at
/// its next decision.
pub proof fn lemma_shutdown_stops_loops(
    phase: ListenerPhase,
    input: ListenerInput,
    hub_open: bool,
    session_input: SessionInput,
)
    ensures
        !(phase is Failed) ==> next_action(phase, true, input, hub_open) == ListenerAction::Stop,
        !(phase is Failed) ==> phase_after(next_action(phase, true, input, hub_open))
            == ListenerPhase::Stopped,
        phase matches ListenerPhase::Failed(e) ==> next_action(phase, true, input, hub_open)
            == ListenerAction::Fail(e),
        session_decision(true, session_input) == SessionAction::Close,
{
}

} // verus!
