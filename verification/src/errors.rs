//! The error taxonomy: every failing call aborts with one of these buckets
//! and leaves no observable state change.

use vstd::prelude::*;

verus! {

/// Why a call was rejected. Each check runs eagerly, before any effect, and
/// the first failure aborts the whole call.
#[derive(Clone, Copy, Debug, PartialEq, Eq, Structural)]
pub enum AuctionError {
    /// A derived address disagrees with the caller-supplied account.
    AddressMismatch,
    /// An argument is outside its allowed range.
    InvalidParameter,
    /// A missing signer, a wrong current authority holder, or a forged
    /// token-program reference.
    AuthorizationFailure,
    /// An allocation failure: insufficient funds, an occupied target
    /// address, a seed mismatch, or an amount the holder cannot cover.
    ResourceFault,
    /// A record would exceed the space allocated for it.
    SerializationFault,
    /// The call supplied fewer accounts than the entry point consumes.
    MissingAccount,
}

} // verus!
