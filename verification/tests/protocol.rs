use fee_split::error::{LedgerError, TransferError};
use fee_split::protocol::{Leg, LegTransfer, Phase};
use fee_split::split::SplitResult;

#[test]
fn transfer_starts_with_the_fee_leg() {
    let phase = Phase::<LedgerError>::begin(100);
    assert_eq!(phase, Phase::FeeLeg(SplitResult { fee_amount: 2, net_amount: 98 }));
    assert_eq!(phase.pending(), Some(LegTransfer { leg: Leg::Fee, amount: 2 }));
    assert_eq!(phase.result(), None);
}

#[test]
fn net_leg_follows_an_accepted_fee_leg() {
    let phase = Phase::<LedgerError>::begin(100).advance(Ok(()));
    assert_eq!(phase, Phase::NetLeg(SplitResult { fee_amount: 2, net_amount: 98 }));
    assert_eq!(phase.pending(), Some(LegTransfer { leg: Leg::Net, amount: 98 }));
    assert_eq!(phase.result(), None);
}

#[test]
fn two_accepted_legs_settle_with_success() {
    let phase = Phase::<LedgerError>::begin(100).advance(Ok(())).advance(Ok(()));
    assert_eq!(phase, Phase::Settled(Ok(())));
    assert_eq!(phase.pending(), None);
    assert_eq!(phase.result(), Some(Ok(())));
}

#[test]
fn refused_fee_leg_settles_without_a_net_leg() {
    let phase = Phase::begin(100).advance(Err(LedgerError::Unauthorized));
    assert_eq!(phase, Phase::Settled(Err(TransferError::Ledger(LedgerError::Unauthorized))));
    assert_eq!(phase.pending(), None);
    assert_eq!(phase.result(), Some(Err(TransferError::Ledger(LedgerError::Unauthorized))));
}

#[test]
fn refused_net_leg_settles_with_the_ledgers_error() {
    let phase = Phase::begin(100).advance(Ok(())).advance(Err(LedgerError::InsufficientBalance));
    assert_eq!(
        phase,
        Phase::Settled(Err(TransferError::Ledger(LedgerError::InsufficientBalance)))
    );
    assert_eq!(phase.pending(), None);
}

#[test]
fn every_ledger_error_is_handed_on_unchanged() {
    for error in [
        LedgerError::InsufficientBalance,
        LedgerError::Unauthorized,
        LedgerError::InvalidAccount,
    ] {
        let at_fee = Phase::begin(500).advance(Err(error));
        assert_eq!(at_fee.result(), Some(Err(TransferError::Ledger(error))));
        let at_net = Phase::begin(500).advance(Ok(())).advance(Err(error));
        assert_eq!(at_net.result(), Some(Err(TransferError::Ledger(error))));
    }
}

#[test]
fn ledger_error_of_any_type_is_handed_on() {
    let phase = Phase::begin(500).advance(Err(String::from("frozen")));
    assert_eq!(phase.result(), Some(Err(TransferError::Ledger(String::from("frozen")))));
}

#[test]
fn overflowing_amount_settles_before_any_leg() {
    let phase = Phase::<LedgerError>::begin(u64::MAX);
    assert_eq!(phase, Phase::Settled(Err(TransferError::ArithmeticOverflow)));
    assert_eq!(phase.pending(), None);
    assert_eq!(phase.result(), Some(Err(TransferError::ArithmeticOverflow)));
}

#[test]
fn zero_amount_still_asks_for_both_legs() {
    let phase = Phase::<LedgerError>::begin(0);
    assert_eq!(phase.pending(), Some(LegTransfer { leg: Leg::Fee, amount: 0 }));
    let phase = phase.advance(Ok(()));
    assert_eq!(phase.pending(), Some(LegTransfer { leg: Leg::Net, amount: 0 }));
    let phase = phase.advance(Ok(()));
    assert_eq!(phase.result(), Some(Ok(())));
}

#[test]
fn settled_transfer_ignores_further_answers() {
    let done = Phase::<LedgerError>::begin(100).advance(Ok(())).advance(Ok(()));
    let done = done.advance(Err(LedgerError::InvalidAccount));
    assert_eq!(done, Phase::Settled(Ok(())));
    let failed = Phase::begin(100).advance(Err(LedgerError::Unauthorized)).advance(Ok(()));
    assert_eq!(failed, Phase::Settled(Err(TransferError::Ledger(LedgerError::Unauthorized))));
    let overflowed = Phase::<LedgerError>::begin(u64::MAX).advance(Ok(()));
    assert_eq!(overflowed, Phase::Settled(Err(TransferError::ArithmeticOverflow)));
}

#[test]
fn phases_ask_for_what_their_split_holds() {
    let split = SplitResult { fee_amount: 7, net_amount: 11 };
    assert_eq!(
        Phase::<LedgerError>::FeeLeg(split).pending(),
        Some(LegTransfer { leg: Leg::Fee, amount: 7 })
    );
    assert_eq!(
        Phase::<LedgerError>::NetLeg(split).pending(),
        Some(LegTransfer { leg: Leg::Net, amount: 11 })
    );
    assert_eq!(Phase::<LedgerError>::NetLeg(split).advance(Ok(())), Phase::Settled(Ok(())));
}
