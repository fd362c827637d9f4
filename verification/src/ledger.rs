//! The ledger that a transfer moves its amounts through, and the record of
//! what was asked of it.

use vstd::prelude::*;

verus! {

/// A ledger, as far as a transfer needs it: something that can move an amount
/// of one asset from one account to another on the word of a principal. The
/// balances are the ledger's own; a value of this type is a handle to them.
///
/// The operation is all or nothing. It fails where the debited account holds
/// too little, where the authorizer does not control it, or where an account
/// is missing or holds another asset, and then it has moved nothing. A
/// transfer takes the ledger at its word: nothing is assumed of what an
/// implementation answers.
pub trait Ledger {
    /// A reference to one who may authorize debits.
    type Principal;

    /// A reference to an account.
    type Account;

    /// What the ledger says when it refuses.
    type Error;

    /// Moves `amount` from `from` to `to`, authorized by `authorizer`.
    fn debit_credit(
        &self,
        authorizer: &Self::Principal,
        from: &Self::Account,
        to: &Self::Account,
        amount: u64,
    ) -> Result<(), Self::Error>;
}

/// One operation that was asked of a ledger, with the ledger's answer.
pub struct Asked<L: Ledger> {
    pub authorizer: L::Principal,
    pub from: L::Account,
    pub to: L::Account,
    pub amount: u64,
    pub outcome: Result<(), L::Error>,
}

/// A ledger behind a journal. The ledger can be reached through
/// [`Journal::debit_credit`] only, and the journal holds every operation that
/// was asked of it on this way, in the order of asking.
pub struct Journal<L: Ledger> {
    ledger: L,
    asked: Ghost<Seq<Asked<L>>>,
}

impl<L: Ledger> Journal<L> {
    /// The ledger behind the journal.
    pub closed spec fn ledger(self) -> L {
        self.ledger
    }

    /// The operations asked so far, oldest first.
    pub closed spec fn asked(self) -> Seq<Asked<L>> {
        self.asked@
    }

    /// Whether `outcome` is an answer that the ledger can give to the request
    /// to move `amount` from `from` to `to`, authorized by `authorizer`.
    pub open spec fn answers(
        self,
        authorizer: L::Principal,
        from: L::Account,
        to: L::Account,
        amount: u64,
        outcome: Result<(), L::Error>,
    ) -> bool {
        call_ensures(L::debit_credit, (&self.ledger(), &authorizer, &from, &to, amount), outcome)
    }

    /// Puts `ledger` behind a journal that is still empty.
    pub fn new(ledger: L) -> (journal: Self)
        ensures
            journal.ledger() == ledger,
            journal.asked() == Seq::<Asked<L>>::empty(),
    {
        Journal { ledger, asked: Ghost(Seq::empty()) }
    }

    /// Asks the ledger to move `amount` from `from` to `to`, authorized by
    /// `authorizer`, hands back its answer, and notes both in the journal.
    pub fn debit_credit(
        &mut self,
        authorizer: &L::Principal,
        from: &L::Account,
        to: &L::Account,
        amount: u64,
    ) -> (outcome: Result<(), L::Error>)
        ensures
            final(self).ledger() == old(self).ledger(),
            old(self).answers(*authorizer, *from, *to, amount, outcome),
            final(self).asked() == old(self).asked().push(
                Asked { authorizer: *authorizer, from: *from, to: *to, amount, outcome },
            ),
    {
        let outcome = self.ledger.debit_credit(authorizer, from, to, amount);
        proof {
            self.asked@ = self.asked@.push(
                Asked { authorizer: *authorizer, from: *from, to: *to, amount, outcome },
            );
        }
        outcome
    }
}

} // verus!
