//! Structured failure reasons surfaced by every fallible operation.

use vstd::prelude::*;

verus! {

/// Why an operation was refused.  Every error aborts the enclosing call with
/// no state change, so callers can distinguish, say, a bad signature from
/// insufficient funds and decide whether retrying makes sense.
#[derive(Clone, Copy, Debug, PartialEq, Eq, Structural)]
pub enum Error {
    /// `initialize` was called on a ledger that already has an administrator.
    AlreadyInitialized,
    /// The presented proof does not belong to the required identity, or the
    /// invocation context does not supply a caller identity.
    NotAuthorized,
    /// The variant of an admin proof does not match the variant of the stored
    /// administrator identity.
    IdentityMismatch,
    /// An Ed25519 signature failed verification against the expected message.
    InvalidSignature,
    /// A multi-signer proof listed public keys out of strictly ascending
    /// order (which also covers duplicates).
    SignaturesOutOfOrder,
    /// Accumulating signer weights overflowed the weight type.
    WeightOverflow,
    /// The accumulated signer weight is below the account's medium threshold.
    InsufficientWeight,
    /// The source or target of a balance movement is frozen.
    FrozenAccount,
    /// The spender's balance is smaller than the requested amount.
    InsufficientBalance,
    /// The spender's allowance is smaller than the requested amount.
    InsufficientAllowance,
    /// A checked addition (balance receive or nonce increment) would wrap.
    ArithmeticOverflow,
    /// Configuration input out of range (decimals must fit in eight bits).
    InvalidConfiguration,
}

} // verus!
