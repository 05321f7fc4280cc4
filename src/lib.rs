//! A relay that turns upstream account notifications into token-creation
//! events and fans them out to any number of downstream sessions.
//!
//! The library holds the decisions of the relay: the JSON document model and
//! the event parser, the bounded broadcast hub, the upstream listener's and
//! the client session's state machines, the connection counter and the
//! configuration record. The network loops that drive them live outside.
mod json;

pub use json::{str_eq, JsonValue};
mod models;

pub use models::{BroadcastMessage, PumpData, Timestamp, TokenCreatedEvent, TokenInfo};
mod errors;
mod parser;

pub use errors::AppError;
pub use parser::{find_mint_line, parse_token_created, str_contains};
mod hub;

pub use hub::{Hub, HubSubscription, HubView, RecvOutcome, HUB_CAPACITY};
mod config;
mod listener;

pub use config::{Settings, DEFAULT_PORT};
pub use listener::{
    subscribe_request, ListenerAction, ListenerInput, ListenerPhase, UpstreamListener,
    RECONNECT_DELAY_SECS,
};
mod server;
mod session;

pub use server::{accept_connection, ConnectionCounter};
pub use session::{client_step, SessionAction, SessionInput};
