use vstd::prelude::*;

verus! {

/// A point in time as whole seconds since the Unix epoch and the nanoseconds
/// past them.
#[derive(Clone, Copy, Debug, PartialEq, Eq, Structural)]
pub struct Timestamp {
    pub secs: i64,
    pub nanos: u32,
}

/// The token described by a creation event.
#[derive(Debug, Clone, PartialEq, Eq)]
pub struct TokenInfo {
    pub mint_address: String,
    pub name: String,
    pub symbol: String,
    pub creator: String,
    pub supply: u64,
    pub decimals: u8,
}

/// The bonding curve state of a newly created token.
#[derive(Debug, Clone, PartialEq, Eq)]
pub struct PumpData {
    pub bonding_curve: String,
    pub virtual_sol_reserves: u64,
    pub virtual_token_reserves: u64,
}

/// A normalized token creation event.
#[derive(Debug, Clone, PartialEq, Eq)]
pub struct TokenCreatedEvent {
    pub event_type: String,
    pub timestamp: Timestamp,
    pub transaction_signature: String,
    pub token: TokenInfo,
    pub pump_data: PumpData,
}

/// The events that the hub carries to every downstream session.
#[derive(Debug, Clone, PartialEq, Eq)]
pub enum BroadcastMessage {
    TokenCreated(TokenCreatedEvent),
}

impl TokenInfo {
    /// A field-by-field copy.
    pub fn duplicate(&self) -> (r: TokenInfo)
        ensures
            r == *self,
    {
        TokenInfo {
            mint_address: self.mint_address.clone(),
            name: self.name.clone(),
            symbol: self.symbol.clone(),
            creator: self.creator.clone(),
            supply: self.supply,
            decimals: self.decimals,
        }
    }
}

impl PumpData {
    /// A field-by-field copy.
    pub fn duplicate(&self) -> (r: PumpData)
        ensures
            r == *self,
    {
        PumpData {
            bonding_curve: self.bonding_curve.clone(),
            virtual_sol_reserves: self.virtual_sol_reserves,
            virtual_token_reserves: self.virtual_token_reserves,
        }
    }
}

impl TokenCreatedEvent {
    /// A field-by-field copy.
    pub fn duplicate(&self) -> (r: TokenCreatedEvent)
        ensures
            r == *self,
    {
        TokenCreatedEvent {
            event_type: self.event_type.clone(),
            timestamp: self.timestamp,
            transaction_signature: self.transaction_signature.clone(),
            token: self.token.duplicate(),
            pump_data: self.pump_data.duplicate(),
        }
    }
}

impl BroadcastMessage {
    /// A copy of the message, equal to it.
    pub fn duplicate(&self) -> (r: BroadcastMessage)
        ensures
            r == *self,
    {
        match self {
            BroadcastMessage::TokenCreated(ev) => BroadcastMessage::TokenCreated(ev.duplicate()),
        }
    }
}

} // verus!
