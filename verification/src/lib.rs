//! Transfers with a fee: an amount is split into a fee of two hundredths and
//! the rest, and both parts are moved out of one account through a ledger, the
//! fee to a fee collector first, then the rest to the recipient.
//!
//! - [`split`] holds the arithmetic.
//! - [`protocol`] holds the order of the two ledger operations and what follows
//!   from each of the ledger's answers.
//! - [`ledger`] is what a transfer asks of a ledger, and the journal of what
//!   was asked.
//! - [`transfer`] binds accounts and ledger and runs a transfer.
//! - [`model`] states what a transfer does to the balances of a ledger.
//! - [`error`] names the failures.

pub mod error;
pub mod ledger;
pub mod model;
pub mod protocol;
pub mod split;
pub mod transfer;

pub use error::{LedgerError, TransferError};
pub use ledger::{Asked, Journal, Ledger};
pub use transfer::{transfer_with_fee, TransferWithFee};
