//! The error taxonomy of a transfer attempt. Every failure mode of one call
//! is one variant, so a caller can tell "never sent" apart from "sent but
//! not confirmed".

use vstd::prelude::*;

verus! {

/// Why a transfer attempt ended without a transaction hash.
#[derive(Clone, Copy, Debug, PartialEq, Eq, Structural)]
pub enum TransferError {
    /// The destination string is not a valid hex-encoded 20-byte address.
    /// Raised before any network interaction.
    AddressParse,
    /// The amount is negative or does not convert to a representable
    /// on-chain integer. Raised before any network interaction.
    AmountRange,
    /// The node could not be queried for the current gas price.
    GasPriceFetch,
    /// Signing, broadcast, or the confirmation wait failed at the
    /// collaborator layer; the transaction may or may not have been sent.
    Submission,
    /// The broadcast was accepted but no receipt came back: the transaction
    /// was not confirmed. Distinct from every network error.
    TxnFailed,
}

} // verus!
