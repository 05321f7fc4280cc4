use vstd::prelude::*;

verus! {

/// The failures that end the upstream listener.
#[derive(Clone, Copy, Debug, PartialEq, Eq, Structural)]
pub enum AppError {
    /// The upstream connection could not be opened, or a message could not be
    /// sent on it.
    WebSocket,
    /// An upstream text frame was not a JSON document.
    Json,
    /// The hub refused an event because no subscription was open.
    Broadcast,
}

} // verus!
