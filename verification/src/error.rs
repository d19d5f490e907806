//! The gateway's error taxonomy: every rejection a transition can produce,
//! each terminal and mapped to a stable numeric code for the host protocol.

use vstd::prelude::*;

verus! {

/// One rejection kind per way a transition can fail; no transition ever
/// commits a partial change alongside one of these.
#[derive(Debug, Clone, Copy, PartialEq, Eq)]
pub enum GatewayError {
    /// The instruction payload was malformed or its opcode unrecognized.
    InvalidInstruction,
    /// A supplied record's derived address, ownership, or stored state did
    /// not match what the operation requires.
    InvalidAccount,
    /// A required signer is missing or does not match the expected identity.
    Unauthorized,
    /// The consumer's token bucket is empty.
    RateLimited,
    /// The consumer's quota window is exhausted.
    QuotaExceeded,
    /// The charge would drop the prepaid balance below the retention floor.
    InsufficientBalance,
    /// The presented API-key credential does not match the stored one.
    ApiKeyMismatch,
    /// A record already exists at the target address.
    AlreadyInitialized,
}

/// The stable protocol-level code of each rejection.
pub open spec fn spec_error_code(e: GatewayError) -> u32 {
    match e {
        GatewayError::InvalidInstruction => 0,
        GatewayError::InvalidAccount => 1,
        GatewayError::Unauthorized => 2,
        GatewayError::RateLimited => 3,
        GatewayError::QuotaExceeded => 4,
        GatewayError::InsufficientBalance => 5,
        GatewayError::ApiKeyMismatch => 6,
        GatewayError::AlreadyInitialized => 7,
    }
}

impl GatewayError {
    /// The numeric error code the host protocol reports for this rejection.
    pub fn code(&self) -> (r: u32)
        ensures
            r == spec_error_code(*self),
    {
        match self {
            GatewayError::InvalidInstruction => 0,
            GatewayError::InvalidAccount => 1,
            GatewayError::Unauthorized => 2,
            GatewayError::RateLimited => 3,
            GatewayError::QuotaExceeded => 4,
            GatewayError::InsufficientBalance => 5,
            GatewayError::ApiKeyMismatch => 6,
            GatewayError::AlreadyInitialized => 7,
        }
    }
}

} // verus!
