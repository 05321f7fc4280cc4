use vstd::prelude::*;

verus! {

/// The port served when none is configured.
pub const DEFAULT_PORT: u16 = 8080;

/// Settings shared read-only by every part of the relay.
#[derive(Debug, Clone)]
pub struct Settings {
    /// The port of the downstream endpoint.
    pub port: u16,
    /// The URL of the upstream subscription endpoint.
    pub solana_ws_url: String,
    /// The program whose accounts the upstream subscription watches.
    pub pump_program_id: String,
    /// Comma-separated symbols to filter on; accepted but not applied.
    pub filter_symbols: String,
    /// Requests per minute allowed to a client; accepted but not applied.
    pub rate_limit_rpm: u32,
}

} // verus!
