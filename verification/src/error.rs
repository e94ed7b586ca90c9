use vstd::prelude::*;

verus! {

/// Every way an operation can be rejected. Errors are detected before any
/// value transfer is requested, so a rejected operation leaves the stream
/// record and all balances exactly as they were.
#[derive(Clone, Copy, Debug, PartialEq, Eq, Structural)]
pub enum StreamError {
    /// The schedule parameters are inconsistent: a zero period, a cliff
    /// before the start, a cliff tranche larger than the deposit, a zero
    /// deposit, a zero release rate on a stream the cliff does not cover,
    /// or an amount that would overflow the accounting.
    InvalidSchedule,
    /// The caller is not the identity, or lacks the capability flag, that
    /// the operation demands.
    Unauthorized,
    /// A balance is too low for the requested transfer.
    InsufficientFunds,
    /// The stream is terminal; no further value movement is permitted.
    StreamClosed,
    /// The recipient address is the zero address or equals the sender.
    InvalidRecipient,
    /// An explicit non-zero withdrawal was requested while nothing is
    /// available; a zero request in the same state is a silent no-op.
    NothingToWithdraw,
}

} // verus!
