//! The error taxonomy of one check-and-apply cycle.
//!
//! Every error is recoverable at cycle granularity: the currently bootable
//! image is never touched until a successful commit, so a failed cycle leaves
//! the device exactly as it was.

use vstd::prelude::*;

verus! {

/// Why a check-and-apply cycle failed.
#[derive(Clone, Copy, Debug, PartialEq, Eq, Structural)]
pub enum UpdateError {
    /// The version oracle could not be reached at all.
    OracleUnreachable,
    /// The version oracle answered with a non-success HTTP status.
    OracleRejected(u16),
    /// The oracle body could not be decoded as UTF-8.
    MalformedVersion,
    /// No update transaction could be opened over the inactive slot.
    TransactionUnavailable,
    /// Reading the image stream or writing the transaction failed.
    TransferIO,
    /// The received byte count did not pass the completeness check.
    VerificationFailed,
}

} // verus!
