use vstd::prelude::*;

verus! {

/// Why a trade attempt stopped.
#[derive(Clone, Copy, Debug, PartialEq, Eq, Structural)]
pub enum ErrorKind {
    /// The artifact identifier is unknown to the metadata source.
    NotFound,
    /// The metadata source gave location data that cannot be used.
    AmbiguousLocation,
    /// The metadata source could not be reached; the trade may be retried.
    TransientLookupFailure,
    /// No output can be split into an anchor and a positive remainder.
    InsufficientFundsForAnchor,
    /// The buyer's funds do not cover what the trade needs.
    InsufficientFunds,
    /// The listing does not have exactly one input and one output under
    /// the single-output, anyone-can-pay signature mode.
    MalformedListing,
    /// The listing's payment output does not carry the agreed price.
    PriceMismatch,
    /// A call to the node wallet failed.
    CollaboratorUnavailable,
}

} // verus!
