//! Errors of the ledger operations.
use vstd::prelude::*;

verus! {

/// Why a ledger operation was refused. A refused operation leaves the ledger as it was.
#[derive(Debug, Clone, Copy, PartialEq, Eq, Structural)]
pub enum LedgerError {
    /// A positive amount was required.
    InvalidAmount,
    /// A subscription payment was below the price of one period.
    InsufficientPayment,
    /// A checked addition or multiplication would leave the range of `u128`.
    Overflow,
    /// The contract does not hold enough value for the withdrawal.
    InsufficientLiquidity,
    /// Only the owner may do this.
    Unauthorized,
    /// A settlement transfer is already under way.
    SettlementInProgress,
    /// The settlement transfer was rejected; nothing was settled.
    TransferFailure,
    /// There is no settlement transfer awaiting its outcome.
    NoPendingSettlement,
}

} // verus!
