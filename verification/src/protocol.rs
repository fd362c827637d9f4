//! The order of the two ledger operations, as a machine that is told each
//! operation's outcome and answers with what to do next.
//!
//! The machine holds no account and performs no operation itself: whoever runs
//! it issues the operation that [`Phase::pending`] names and reports the
//! ledger's answer to [`Phase::advance`].

use vstd::prelude::*;
use crate::error::TransferError;
use crate::split::{compute_split, fee_of, net_of, split_of, split_overflows, SplitResult};

verus! {

/// The two ledger operations of one transfer.
#[derive(Clone, Copy, Debug, PartialEq, Eq, Structural)]
pub enum Leg {
    /// Source to fee collector.
    Fee,
    /// Source to recipient.
    Net,
}

/// One ledger operation: debit the source and credit the leg's destination by `amount`.
#[derive(Clone, Copy, Debug, PartialEq, Eq, Structural)]
pub struct LegTransfer {
    pub leg: Leg,
    pub amount: u64,
}

/// Where a transfer stands.
#[derive(Debug, PartialEq, Eq)]
pub enum Phase<E> {
    /// Nothing has moved; the fee leg is the operation to issue.
    FeeLeg(SplitResult),
    /// The fee has moved; the net leg is the operation to issue.
    NetLeg(SplitResult),
    /// The transfer has ended with this result and issues nothing more.
    Settled(Result<(), TransferError<E>>),
}

/// The fee leg of a transfer of `amount`.
pub open spec fn fee_leg(amount: u64) -> LegTransfer {
    LegTransfer { leg: Leg::Fee, amount: split_of(amount).fee_amount }
}

/// The net leg of a transfer of `amount`.
pub open spec fn net_leg(amount: u64) -> LegTransfer {
    LegTransfer { leg: Leg::Net, amount: split_of(amount).net_amount }
}

impl<E> Phase<E> {
    /// The phase in which a transfer of `amount` starts.
    pub open spec fn initial(amount: u64) -> Self {
        if split_overflows(amount as int) {
            Phase::Settled(Err(TransferError::ArithmeticOverflow))
        } else {
            Phase::FeeLeg(split_of(amount))
        }
    }

    /// The operation that this phase asks for, if any.
    pub open spec fn next_transfer(self) -> Option<LegTransfer> {
        match self {
            Phase::FeeLeg(split) => Some(LegTransfer { leg: Leg::Fee, amount: split.fee_amount }),
            Phase::NetLeg(split) => Some(LegTransfer { leg: Leg::Net, amount: split.net_amount }),
            Phase::Settled(_) => None,
        }
    }

    /// The phase that follows once the ledger has answered the pending
    /// operation. A settled transfer stays as it is; a refusal settles the
    /// transfer with the ledger's error; an accepted fee leg leads to the net
    /// leg, and an accepted net leg to success.
    pub open spec fn after(self, outcome: Result<(), E>) -> Self {
        match (self, outcome) {
            (Phase::Settled(_), _) => self,
            (_, Err(error)) => Phase::Settled(Err(TransferError::Ledger(error))),
            (Phase::FeeLeg(split), Ok(_)) => Phase::NetLeg(split),
            (Phase::NetLeg(_), Ok(_)) => Phase::Settled(Ok(())),
        }
    }

    /// How many operations a run without refusals still issues from here.
    pub open spec fn legs_left(self) -> nat {
        match self {
            Phase::FeeLeg(_) => 2,
            Phase::NetLeg(_) => 1,
            Phase::Settled(_) => 0,
        }
    }

    /// Starts a transfer of `amount`: computes the split and asks for the fee leg,
    /// or settles at once when the split overflows.
    pub fn begin(amount: u64) -> (phase: Self)
        ensures
            phase == Self::initial(amount),
    {
        match compute_split(amount) {
            Some(split) => Phase::FeeLeg(split),
            None => Phase::Settled(Err(TransferError::ArithmeticOverflow)),
        }
    }

    /// The ledger operation to issue now; `None` once the transfer is settled.
    pub fn pending(&self) -> (transfer: Option<LegTransfer>)
        ensures
            transfer == self.next_transfer(),
    {
        match self {
            Phase::FeeLeg(split) => Some(LegTransfer { leg: Leg::Fee, amount: split.fee_amount }),
            Phase::NetLeg(split) => Some(LegTransfer { leg: Leg::Net, amount: split.net_amount }),
            Phase::Settled(_) => None,
        }
    }

    /// Takes the ledger's answer to the pending operation and moves on: after the
    /// fee leg to the net leg, after the net leg to success, after a refusal to
    /// failure with the ledger's error.
    pub fn advance(self, outcome: Result<(), E>) -> (next: Self)
        ensures
            next == self.after(outcome),
    {
        match self {
            Phase::FeeLeg(split) => match outcome {
                Ok(_) => Phase::NetLeg(split),
                Err(error) => Phase::Settled(Err(TransferError::Ledger(error))),
            },
            Phase::NetLeg(_) => match outcome {
                Ok(_) => Phase::Settled(Ok(())),
                Err(error) => Phase::Settled(Err(TransferError::Ledger(error))),
            },
            Phase::Settled(result) => Phase::Settled(result),
        }
    }

    /// The result of a settled transfer; `None` while an operation is pending.
    pub fn result(self) -> (result: Option<Result<(), TransferError<E>>>)
        ensures
            self matches Phase::Settled(settled) ==> result == Some(settled),
            !(self is Settled) ==> result is None,
    {
        match self {
            Phase::Settled(settled) => Some(settled),
            _ => None,
        }
    }
}

/// A transfer whose split overflows fails with `ArithmeticOverflow` before any
/// ledger operation: it starts settled and asks for nothing.
pub proof fn law_overflow_issues_nothing<E>(amount: u64)
    requires
        split_overflows(amount as int),
    ensures
        Phase::<E>::initial(amount) == Phase::<E>::Settled(Err(TransferError::ArithmeticOverflow)),
        Phase::<E>::initial(amount).next_transfer() is None,
{
}

/// The fee leg comes first and carries the fee; only after the ledger has
/// accepted it does the net leg follow, carrying the rest, so that the two
/// legs together move the amount; and the transfer succeeds only after the
/// ledger has accepted both.
pub proof fn law_fee_leg_then_net_leg<E>(amount: u64)
    requires
        !split_overflows(amount as int),
    ensures
        Phase::<E>::initial(amount).next_transfer() == Some(fee_leg(amount)),
        fee_leg(amount).amount == fee_of(amount as int),
        Phase::<E>::initial(amount).after(Ok(())).next_transfer() == Some(net_leg(amount)),
        net_leg(amount).amount == net_of(amount as int),
        fee_leg(amount).amount + net_leg(amount).amount == amount,
        Phase::<E>::initial(amount).after(Ok(())).after(Ok(())) == Phase::<E>::Settled(Ok(())),
{
}

/// A refusal ends the transfer with the ledger's own error, whichever leg it
/// meets: after a refused fee leg the net leg is never asked for, and after a
/// refused net leg nothing is asked for that would take the fee back.
pub proof fn law_refusal_is_terminal<E>(amount: u64, error: E)
    requires
        !split_overflows(amount as int),
    ensures
        Phase::<E>::initial(amount).after(Err(error)) == Phase::<E>::Settled(
            Err(TransferError::Ledger(error)),
        ),
        Phase::<E>::initial(amount).after(Err(error)).next_transfer() is None,
        Phase::<E>::initial(amount).after(Ok(())).after(Err(error)) == Phase::<E>::Settled(
            Err(TransferError::Ledger(error)),
        ),
        Phase::<E>::initial(amount).after(Ok(())).after(Err(error)).next_transfer() is None,
{
}

/// Every answer of the ledger brings a transfer nearer to its end, and a
/// settled transfer is changed by no answer.
pub proof fn law_transfer_ends<E>(phase: Phase<E>, outcome: Result<(), E>)
    ensures
        phase.next_transfer() is Some ==> phase.after(outcome).legs_left() < phase.legs_left(),
        phase.next_transfer() is None ==> phase.after(outcome) == phase,
        phase.next_transfer() is None <==> phase is Settled,
{
}

} // verus!
