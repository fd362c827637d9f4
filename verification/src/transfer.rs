//! The transfer itself: the accounts it is bound to, the ledger, and the call
//! that moves fee and net amount through it.

use vstd::prelude::*;
use crate::error::TransferError;
use crate::ledger::{Asked, Journal, Ledger};
use crate::protocol::{fee_leg, net_leg, Leg, LegTransfer, Phase};
use crate::split::{split_of, split_overflows};

verus! {

/// What one transfer is bound to: the accounts, the principal that authorizes
/// the debits, and the ledger that performs them, behind its journal.
pub struct TransferWithFee<L: Ledger> {
    /// The principal that controls `from_token`.
    pub authority: L::Principal,
    /// The source account.
    pub from_token: L::Account,
    /// The recipient's account.
    pub to_token: L::Account,
    /// The fee collector's account.
    pub fee_token: L::Account,
    /// The ledger.
    pub token_program: Journal<L>,
}

impl<L: Ledger> TransferWithFee<L> {
    /// The account that a leg credits.
    pub open spec fn destination(self, leg: Leg) -> L::Account {
        match leg {
            Leg::Fee => self.fee_token,
            Leg::Net => self.to_token,
        }
    }

    /// The ledger operation that `transfer` stands for, as the journal notes
    /// it when the ledger has answered it with `outcome`: authorized by
    /// `authority`, out of `from_token`, to the leg's destination.
    pub open spec fn entry(self, transfer: LegTransfer, outcome: Result<(), L::Error>) -> Asked<L> {
        Asked {
            authorizer: self.authority,
            from: self.from_token,
            to: self.destination(transfer.leg),
            amount: transfer.amount,
            outcome,
        }
    }

    /// Whether `outcome` is an answer that the ledger can give to `transfer`.
    pub open spec fn answers(self, transfer: LegTransfer, outcome: Result<(), L::Error>) -> bool {
        self.token_program.answers(
            self.authority,
            self.from_token,
            self.destination(transfer.leg),
            transfer.amount,
            outcome,
        )
    }

    /// Whether `other` is bound to the same accounts, authority and ledger.
    pub open spec fn same_binding(self, other: Self) -> bool {
        &&& self.authority == other.authority
        &&& self.from_token == other.from_token
        &&& self.to_token == other.to_token
        &&& self.fee_token == other.fee_token
        &&& self.token_program.ledger() == other.token_program.ledger()
    }

    /// What a transfer of `amount` that ends with `result` asks of the ledger,
    /// as the step from the journal `before` it to the journal `after` it:
    /// nothing where the split overflows; the fee leg and then the net leg,
    /// both accepted, on success; and on an error of the ledger either the fee
    /// leg alone, refused with that error, or the accepted fee leg and then
    /// the net leg, refused with it. Each answer noted is one that the ledger
    /// can give.
    pub open spec fn asks(
        self,
        amount: u64,
        result: Result<(), TransferError<L::Error>>,
        before: Seq<Asked<L>>,
        after: Seq<Asked<L>>,
    ) -> bool {
        match result {
            Err(TransferError::ArithmeticOverflow) => after == before,
            Ok(_) => {
                &&& after == before.push(self.entry(fee_leg(amount), Ok(()))).push(
                    self.entry(net_leg(amount), Ok(())),
                )
                &&& self.answers(fee_leg(amount), Ok(()))
                &&& self.answers(net_leg(amount), Ok(()))
            },
            Err(TransferError::Ledger(error)) => {
                ||| {
                    &&& after == before.push(self.entry(fee_leg(amount), Err(error)))
                    &&& self.answers(fee_leg(amount), Err(error))
                }
                ||| {
                    &&& after == before.push(self.entry(fee_leg(amount), Ok(()))).push(
                        self.entry(net_leg(amount), Err(error)),
                    )
                    &&& self.answers(fee_leg(amount), Ok(()))
                    &&& self.answers(net_leg(amount), Err(error))
                }
            },
        }
    }

    /// Whether a transfer of `amount` that began at the journal `before` can
    /// stand in `phase` at the journal `now`.
    spec fn reaches(
        self,
        amount: u64,
        phase: Phase<L::Error>,
        before: Seq<Asked<L>>,
        now: Seq<Asked<L>>,
    ) -> bool {
        match phase {
            Phase::FeeLeg(split) => {
                &&& !split_overflows(amount as int)
                &&& split == split_of(amount)
                &&& now == before
            },
            Phase::NetLeg(split) => {
                &&& !split_overflows(amount as int)
                &&& split == split_of(amount)
                &&& now == before.push(self.entry(fee_leg(amount), Ok(())))
                &&& self.answers(fee_leg(amount), Ok(()))
            },
            Phase::Settled(result) => {
                &&& split_overflows(amount as int) <==> result == Err::<
                    (),
                    TransferError<L::Error>,
                >(TransferError::ArithmeticOverflow)
                &&& self.asks(amount, result, before, now)
            },
        }
    }

    /// Hands one leg to the ledger and returns its answer.
    fn issue(&mut self, transfer: LegTransfer) -> (outcome: Result<(), L::Error>)
        ensures
            final(self).same_binding(*old(self)),
            old(self).answers(transfer, outcome),
            final(self).token_program.asked() == old(self).token_program.asked().push(
                old(self).entry(transfer, outcome),
            ),
    {
        match transfer.leg {
            Leg::Fee => self.token_program.debit_credit(
                &self.authority,
                &self.from_token,
                &self.fee_token,
                transfer.amount,
            ),
            Leg::Net => self.token_program.debit_credit(
                &self.authority,
                &self.from_token,
                &self.to_token,
                transfer.amount,
            ),
        }
    }
}

/// Moves `amount` out of the source account: two hundredths of it, rounded
/// down, to the fee collector, then the rest to the recipient.
///
/// Fails with `ArithmeticOverflow` exactly when twice the amount does not fit
/// in 64 bits, and has then asked nothing of the ledger. Otherwise it asks the
/// ledger for the fee leg first. Where the ledger refuses it, the transfer
/// fails with the ledger's error and the net leg is not asked for. Where the
/// ledger accepts it, the net leg follows, and the ledger's answer to it is
/// the result. Nothing else is asked of the ledger: a fee that has moved is
/// not taken back when the net leg is refused.
pub fn transfer_with_fee<L: Ledger>(ctx: &mut TransferWithFee<L>, amount: u64) -> (res: Result<
    (),
    TransferError<L::Error>,
>)
    ensures
        final(ctx).same_binding(*old(ctx)),
        split_overflows(amount as int) <==> res == Err::<(), TransferError<L::Error>>(
            TransferError::ArithmeticOverflow,
        ),
        old(ctx).asks(
            amount,
            res,
            old(ctx).token_program.asked(),
            final(ctx).token_program.asked(),
        ),
{
    let ghost bound = *ctx;
    let mut phase: Phase<L::Error> = Phase::begin(amount);
    loop
        invariant
            bound == *old(ctx),
            ctx.same_binding(bound),
            bound.reaches(amount, phase, bound.token_program.asked(), ctx.token_program.asked()),
        decreases phase.legs_left(),
    {
        match phase.pending() {
            Some(transfer) => {
                let outcome = ctx.issue(transfer);
                proof {
                    if outcome is Ok {
                        let unit = outcome->Ok_0;
                        assert(unit == ());
                    }
                }
                phase = phase.advance(outcome);
            },
            None => {
                return match phase {
                    Phase::Settled(result) => result,
                    _ => unreached(),
                };
            },
        }
    }
}

} // verus!
