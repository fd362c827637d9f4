//! The ways in which a transfer can fail.

use vstd::prelude::*;

verus! {

/// Why a ledger refuses one debit/credit operation.
#[derive(Clone, Copy, Debug, PartialEq, Eq, Structural)]
pub enum LedgerError {
    /// The debited account holds less than the amount.
    InsufficientBalance,
    /// The authorizing principal does not control the debited account.
    Unauthorized,
    /// An account is missing, or the two accounts do not hold the same asset.
    InvalidAccount,
}

/// Why a transfer with fee fails. `E` is the ledger's own error, handed on as it came.
#[derive(Debug, PartialEq, Eq)]
pub enum TransferError<E> {
    /// Twice the amount does not fit in 64 bits, so the fee cannot be computed.
    ArithmeticOverflow,
    /// The ledger refused one of the two legs.
    Ledger(E),
}

} // verus!
