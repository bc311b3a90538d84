//! The reasons for which a call is refused.

use vstd::prelude::*;

verus! {

/// What a refused call is answered.
#[derive(Clone, Copy, Debug, PartialEq, Eq, Structural)]
pub enum Error {
    /// The contract was initialized before.
    AlreadyInitialized,
    /// Nothing was recorded yet.
    NotInitialized,
    /// The entry to be created is there already.
    AlreadyExists,
    /// The entry to be read or removed is not there.
    NotFound,
    /// The caller may not do this.
    Unauthorized,
    /// An argument or a stored rule tree is malformed.
    InvalidInput,
    /// An amount is negative.
    InvalidAmount,
    /// A sum or a difference does not fit in 128 bits.
    Overflow,
    /// A gate of the policy denies the request.
    PolicyDenied,
    /// The recipient is on the restricted list.
    PolicyRecipientRestricted,
    /// The spend would exceed the allowance of its asset.
    PolicyAllowanceExceeded,
    /// The asset whitelist is on and does not hold the asset.
    AssetNotWhitelisted,
    /// A conditional rule denies the request.
    RuleDenied,
    /// Any other error of the protocol, by its code: what another contract answered
    /// and this one passes on.
    Other(u32),
}

} // verus!
