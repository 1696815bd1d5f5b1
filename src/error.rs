//! The library's error taxonomy.
use vstd::prelude::*;

verus! {

/// What can go wrong while reading, checking and posting records.
#[derive(Debug, Clone, Copy, PartialEq, Eq, Structural)]
pub enum Error {
    /// A required configuration value is absent.
    ConfigurationMissing,
    /// A record identifier is not `0x` followed by 64 characters.
    InvalidBlockIdFormat,
    /// A fetched record carries no body.
    MissingPayload,
    /// A fetched record's body is not tagged data.
    UnexpectedTransportType,
    /// A body is not UTF-8 JSON of a known payload shape, or cannot be written.
    MalformedPayload,
    /// The payload carries no payment information.
    UnsupportedPayloadForPaymentExtraction,
    /// The ledger could not fetch or post a record.
    GatewayFailure,
}

} // verus!
