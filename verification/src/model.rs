//! What a transfer does to a ledger.
//!
//! The ledger itself lies outside this crate. This module describes the one
//! operation that a transfer asks of it, as a model. On the model the
//! guarantees of a whole transfer can be stated: which balances move, in which
//! order, and what is left behind when the ledger refuses a leg.

use vstd::prelude::*;
use crate::error::{LedgerError, TransferError};
use crate::protocol::{fee_leg, net_leg, Leg, LegTransfer, Phase};
use crate::split::{fee_of, net_of, split_overflows};

verus! {

/// One account of the modelled ledger.
pub struct AccountModel {
    /// The principal that may debit the account.
    pub controller: nat,
    /// The asset that the account holds.
    pub asset: nat,
    /// How much of it.
    pub balance: nat,
}

/// A ledger: its accounts, by reference.
pub struct LedgerModel {
    pub accounts: Map<nat, AccountModel>,
}

/// A transfer with fee, as the ledger sees it.
pub struct TransferRequest {
    pub amount: u64,
    pub source: nat,
    pub recipient: nat,
    pub fee_collector: nat,
    pub authority: nat,
}

/// A ledger after a transfer, with the operations that were issued to it, in
/// their order, and the transfer's result.
pub struct Settlement {
    pub ledger: LedgerModel,
    pub issued: Seq<LegTransfer>,
    pub result: Result<(), TransferError<LedgerError>>,
}

impl TransferRequest {
    /// The account that a leg credits.
    pub open spec fn destination(self, leg: Leg) -> nat {
        match leg {
            Leg::Fee => self.fee_collector,
            Leg::Net => self.recipient,
        }
    }
}

impl LedgerModel {
    /// Whether the ledger has an account under this reference.
    pub open spec fn holds(self, account: nat) -> bool {
        self.accounts.dom().contains(account)
    }

    /// The balance of an account that the ledger holds.
    pub open spec fn balance(self, account: nat) -> nat
        recommends
            self.holds(account),
    {
        self.accounts[account].balance
    }

    /// Whether `principal` is the controller of `account`.
    pub open spec fn controls(self, principal: nat, account: nat) -> bool {
        self.holds(account) && self.accounts[account].controller == principal
    }

    /// Whether `to` can be credited out of `from`: it exists, it is another
    /// account, and it holds the same asset.
    pub open spec fn credits(self, from: nat, to: nat) -> bool
        recommends
            self.holds(from),
    {
        &&& self.holds(to)
        &&& to != from
        &&& self.accounts[to].asset == self.accounts[from].asset
    }

    /// Why the ledger refuses to move `amount` from `from` to `to` on the word
    /// of `authorizer`, if it does. The debited account is looked at first,
    /// then the authorizer, then the credited account, and the balance last.
    pub open spec fn refusal(self, authorizer: nat, from: nat, to: nat, amount: nat) -> Option<
        LedgerError,
    > {
        if !self.holds(from) {
            Some(LedgerError::InvalidAccount)
        } else if !self.controls(authorizer, from) {
            Some(LedgerError::Unauthorized)
        } else if !self.credits(from, to) {
            Some(LedgerError::InvalidAccount)
        } else if self.balance(from) < amount {
            Some(LedgerError::InsufficientBalance)
        } else {
            None
        }
    }

    /// The ledger with `amount` moved from `from` to `to`.
    pub open spec fn moved(self, from: nat, to: nat, amount: nat) -> LedgerModel
        recommends
            self.holds(from),
            self.credits(from, to),
            self.balance(from) >= amount,
    {
        let debited = AccountModel {
            balance: (self.accounts[from].balance - amount) as nat,
            ..self.accounts[from]
        };
        let credited = AccountModel {
            balance: self.accounts[to].balance + amount,
            ..self.accounts[to]
        };
        LedgerModel { accounts: self.accounts.insert(from, debited).insert(to, credited) }
    }

    /// The debit/credit operation: all of `amount` moves, or the ledger stays
    /// as it is and says why.
    pub open spec fn debit_credit(self, authorizer: nat, from: nat, to: nat, amount: nat) -> (
        LedgerModel,
        Result<(), LedgerError>,
    ) {
        match self.refusal(authorizer, from, to, amount) {
            Some(error) => (self, Err(error)),
            None => (self.moved(from, to, amount), Ok(())),
        }
    }

    /// The ledger's answer to one leg of `request`.
    pub open spec fn perform(self, request: TransferRequest, transfer: LegTransfer) -> (
        LedgerModel,
        Result<(), LedgerError>,
    ) {
        self.debit_credit(
            request.authority,
            request.source,
            request.destination(transfer.leg),
            transfer.amount as nat,
        )
    }

    /// Runs a transfer from `phase` on: issues what the phase asks for, tells
    /// it the ledger's answer, and goes on until it is settled.
    pub open spec fn settle_from(
        self,
        request: TransferRequest,
        phase: Phase<LedgerError>,
        issued: Seq<LegTransfer>,
    ) -> Settlement
        decreases phase.legs_left(),
    {
        match phase {
            Phase::Settled(result) => Settlement { ledger: self, issued, result },
            _ => {
                let transfer = phase.next_transfer().unwrap();
                let (ledger, outcome) = self.perform(request, transfer);
                ledger.settle_from(request, phase.after(outcome), issued.push(transfer))
            },
        }
    }

    /// What a whole transfer leaves behind.
    pub open spec fn settle(self, request: TransferRequest) -> Settlement {
        self.settle_from(request, Phase::initial(request.amount), Seq::empty())
    }

    /// Whether the ledger would carry out both legs of `request` as far as
    /// accounts and authority go: the authority controls the source, and fee
    /// collector and recipient are two accounts, other than the source, that
    /// hold the source's asset.
    pub open spec fn admits(self, request: TransferRequest) -> bool {
        &&& self.controls(request.authority, request.source)
        &&& self.credits(request.source, request.fee_collector)
        &&& self.credits(request.source, request.recipient)
        &&& request.recipient != request.fee_collector
    }
}

/// A transfer that the ledger admits, out of a source that holds the whole
/// amount, succeeds with the fee leg first and the net leg second: the source
/// loses the amount, the fee collector gains the fee and the recipient the
/// rest.
pub proof fn law_transfer_moves_amount(ledger: LedgerModel, request: TransferRequest)
    requires
        !split_overflows(request.amount as int),
        ledger.admits(request),
        ledger.balance(request.source) >= request.amount,
    ensures
        ({
            let done = ledger.settle(request);
            &&& done.result == Ok::<(), TransferError<LedgerError>>(())
            &&& done.issued == seq![fee_leg(request.amount), net_leg(request.amount)]
            &&& done.ledger.balance(request.source) == ledger.balance(request.source)
                - request.amount
            &&& done.ledger.balance(request.fee_collector) == ledger.balance(request.fee_collector)
                + fee_of(request.amount as int)
            &&& done.ledger.balance(request.recipient) == ledger.balance(request.recipient)
                + net_of(request.amount as int)
        }),
{
    reveal_with_fuel(LedgerModel::settle_from, 3);
}

/// Where the source holds enough for the fee but not for fee and net amount
/// together, the fee leg goes through and the net leg is refused for want of
/// balance. The transfer fails with that error, and the fee stays where the
/// fee leg put it: nothing is issued to take it back.
pub proof fn law_fee_leg_precedes_net_leg(ledger: LedgerModel, request: TransferRequest)
    requires
        !split_overflows(request.amount as int),
        ledger.admits(request),
        fee_of(request.amount as int) <= ledger.balance(request.source) < fee_of(
            request.amount as int,
        ) + net_of(request.amount as int),
    ensures
        ({
            let done = ledger.settle(request);
            &&& done.result == Err::<(), TransferError<LedgerError>>(
                TransferError::Ledger(LedgerError::InsufficientBalance),
            )
            &&& done.issued == seq![fee_leg(request.amount), net_leg(request.amount)]
            &&& done.ledger == ledger.moved(
                request.source,
                request.fee_collector,
                fee_of(request.amount as int) as nat,
            )
            &&& done.ledger.balance(request.source) == ledger.balance(request.source) - fee_of(
                request.amount as int,
            )
            &&& done.ledger.balance(request.fee_collector) == ledger.balance(request.fee_collector)
                + fee_of(request.amount as int)
            &&& done.ledger.balance(request.recipient) == ledger.balance(request.recipient)
        }),
{
    reveal_with_fuel(LedgerModel::settle_from, 3);
}

/// Where the source is an account that the authority does not control, the
/// transfer fails with `Unauthorized` on the fee leg, the net leg is never
/// issued, and no balance has changed.
pub proof fn law_unauthorized_moves_nothing(ledger: LedgerModel, request: TransferRequest)
    requires
        !split_overflows(request.amount as int),
        ledger.holds(request.source),
        !ledger.controls(request.authority, request.source),
    ensures
        ({
            let done = ledger.settle(request);
            &&& done.result == Err::<(), TransferError<LedgerError>>(
                TransferError::Ledger(LedgerError::Unauthorized),
            )
            &&& done.issued == seq![fee_leg(request.amount)]
            &&& done.ledger == ledger
        }),
{
    reveal_with_fuel(LedgerModel::settle_from, 2);
}

/// Whatever the ledger holds, a transfer whose split overflows fails with
/// `ArithmeticOverflow`, issues nothing and leaves the ledger as it was.
pub proof fn law_overflow_moves_nothing(ledger: LedgerModel, request: TransferRequest)
    requires
        split_overflows(request.amount as int),
    ensures
        ({
            let done = ledger.settle(request);
            &&& done.result == Err::<(), TransferError<LedgerError>>(
                TransferError::ArithmeticOverflow,
            )
            &&& done.issued == Seq::<LegTransfer>::empty()
            &&& done.ledger == ledger
        }),
{
}

/// An error of the ledger is its answer to the last leg issued: to the fee
/// leg, on a ledger that is then left as it was, or to the net leg, on the
/// ledger as the accepted fee leg left it. No transfer issues more than its
/// two legs.
pub proof fn law_ledger_error_is_last_answer(ledger: LedgerModel, request: TransferRequest)
    ensures
        ({
            let done = ledger.settle(request);
            let (after_fee, fee_outcome) = ledger.perform(request, fee_leg(request.amount));
            let (after_net, net_outcome) = after_fee.perform(request, net_leg(request.amount));
            &&& done.issued.len() <= 2
            &&& done.result matches Err(TransferError::Ledger(error)) ==> {
                ||| {
                    &&& done.issued == seq![fee_leg(request.amount)]
                    &&& fee_outcome == Err::<(), LedgerError>(error)
                    &&& done.ledger == ledger
                }
                ||| {
                    &&& done.issued == seq![fee_leg(request.amount), net_leg(request.amount)]
                    &&& fee_outcome is Ok
                    &&& net_outcome == Err::<(), LedgerError>(error)
                    &&& done.ledger == after_fee
                }
            }
        }),
{
    reveal_with_fuel(LedgerModel::settle_from, 3);
}

} // verus!
