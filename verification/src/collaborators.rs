use crate::types::{AccountId, Balance, CurrencyId, Error};
use sp_runtime::DispatchError;
use vstd::prelude::*;

verus! {

/// The error of `sp_runtime` with which a collaborator refuses a call. The
/// treasury hands such an error on and never looks into it.
#[verifier::external_type_specification]
#[verifier::external_body]
pub struct ExDispatchError(DispatchError);

/// Why an operation of the treasury failed.
#[derive(Clone, Copy, Debug, PartialEq, Eq)]
pub enum Failure {
    /// The treasury itself refused.
    Treasury(Error),
    /// A collaborator refused; its error is handed on as it came.
    Collaborator(DispatchError),
}

/// The currency system that holds every account's balances.
pub trait Currency {
    /// The total amount issued of `currency_id`.
    fn total_issuance(&self, currency_id: CurrencyId) -> Balance;

    /// Succeeds if `who` could withdraw `amount` of `currency_id` now.
    fn ensure_can_withdraw(
        &self,
        currency_id: CurrencyId,
        who: &AccountId,
        amount: Balance,
    ) -> Result<(), DispatchError>;

    /// Moves `amount` of `currency_id` from `from` to `to`.
    fn transfer(
        &mut self,
        currency_id: CurrencyId,
        from: &AccountId,
        to: &AccountId,
        amount: Balance,
    ) -> Result<(), DispatchError>;

    /// Issues `amount` of `currency_id` to `who`.
    fn deposit(
        &mut self,
        currency_id: CurrencyId,
        who: &AccountId,
        amount: Balance,
    ) -> Result<(), DispatchError>;

    /// Burns `amount` of `currency_id` held by `who`.
    fn withdraw(
        &mut self,
        currency_id: CurrencyId,
        who: &AccountId,
        amount: Balance,
    ) -> Result<(), DispatchError>;
}

/// The manager that runs the auctions which the treasury asks for.
pub trait AuctionManager {
    /// Opens an auction of `amount` of collateral `currency_id` that is meant
    /// to raise `target`; what is not needed goes back to `refund_recipient`.
    fn new_collateral_auction(
        &mut self,
        refund_recipient: &AccountId,
        currency_id: CurrencyId,
        amount: Balance,
        target: Balance,
    );

    /// Opens an auction that offers `amount` of the native currency to raise
    /// `fix` of the stable currency.
    fn new_debit_auction(&mut self, amount: Balance, fix: Balance);

    /// Opens an auction that sells `amount` of the stable currency.
    fn new_surplus_auction(&mut self, amount: Balance);

    /// The collateral of `currency_id` in running auctions.
    fn get_total_collateral_in_auction(&self, currency_id: CurrencyId) -> Balance;

    /// The stable currency for sale in running surplus auctions.
    fn get_total_surplus_in_auction(&self) -> Balance;

    /// The stable currency that running debit auctions are meant to raise.
    fn get_total_debit_in_auction(&self) -> Balance;

    /// The stable currency that running collateral auctions are meant to raise.
    fn get_total_target_in_auction(&self) -> Balance;
}

/// The exchange that swaps one currency for another.
pub trait DEXManager {
    /// Swaps `supply_amount` of `supply_currency_id` held by `who` for at
    /// least `target_amount` of `target_currency_id`, and says how much came
    /// of it.
    fn exchange_currency(
        &mut self,
        who: AccountId,
        supply_currency_id: CurrencyId,
        supply_amount: Balance,
        target_currency_id: CurrencyId,
        target_amount: Balance,
    ) -> Result<Balance, DispatchError>;
}

/// One request made of a collaborator, with what it answered. Accounts stand
/// in it by their bytes.
#[allow(inconsistent_fields)]
pub enum Event {
    /// The currency system was asked what was issued of `currency_id`.
    TotalIssuance { currency_id: CurrencyId, answer: Balance },
    /// The currency system was asked whether `who` can withdraw `amount`.
    EnsureCanWithdraw {
        currency_id: CurrencyId,
        who: Seq<u8>,
        amount: Balance,
        answer: Result<(), DispatchError>,
    },
    /// The currency system was asked to move `amount` from `from` to `to`.
    Transfer {
        currency_id: CurrencyId,
        from: Seq<u8>,
        to: Seq<u8>,
        amount: Balance,
        answer: Result<(), DispatchError>,
    },
    /// The currency system was asked to issue `amount` to `who`.
    Deposit {
        currency_id: CurrencyId,
        who: Seq<u8>,
        amount: Balance,
        answer: Result<(), DispatchError>,
    },
    /// The currency system was asked to burn `amount` held by `who`.
    Withdraw {
        currency_id: CurrencyId,
        who: Seq<u8>,
        amount: Balance,
        answer: Result<(), DispatchError>,
    },
    /// The auction manager was asked to open a collateral auction.
    NewCollateralAuction {
        refund_recipient: Seq<u8>,
        currency_id: CurrencyId,
        amount: Balance,
        target: Balance,
    },
    /// The auction manager was asked to open a debit auction.
    NewDebitAuction { amount: Balance, fix: Balance },
    /// The auction manager was asked to open a surplus auction.
    NewSurplusAuction { amount: Balance },
    /// The auction manager was asked for the collateral in running auctions.
    TotalCollateralInAuction { currency_id: CurrencyId, answer: Balance },
    /// The auction manager was asked for the surplus in running auctions.
    TotalSurplusInAuction { answer: Balance },
    /// The auction manager was asked what running debit auctions are to raise.
    TotalDebitInAuction { answer: Balance },
    /// The auction manager was asked what running collateral auctions are to
    /// raise.
    TotalTargetInAuction { answer: Balance },
    /// The exchange was asked to swap `supply_amount` for at least
    /// `target_amount`.
    ExchangeCurrency {
        who: Seq<u8>,
        supply_currency_id: CurrencyId,
        supply_amount: Balance,
        target_currency_id: CurrencyId,
        target_amount: Balance,
        answer: Result<Balance, DispatchError>,
    },
}

impl Event {
    /// Whether the request was granted, for the requests of the currency
    /// system that are granted or refused.
    pub open spec fn outcome(self) -> Result<(), DispatchError> {
        match self {
            Event::EnsureCanWithdraw { answer, .. } => answer,
            Event::Transfer { answer, .. } => answer,
            Event::Deposit { answer, .. } => answer,
            Event::Withdraw { answer, .. } => answer,
            _ => Ok(()),
        }
    }

    /// The sum that was answered, for the requests that ask for a sum.
    pub open spec fn sum(self) -> Balance {
        match self {
            Event::TotalIssuance { answer, .. } => answer,
            Event::TotalCollateralInAuction { answer, .. } => answer,
            Event::TotalSurplusInAuction { answer } => answer,
            Event::TotalDebitInAuction { answer } => answer,
            Event::TotalTargetInAuction { answer } => answer,
            _ => 0,
        }
    }

    /// What the exchange answered to a swap.
    pub open spec fn exchanged(self) -> Result<Balance, DispatchError> {
        match self {
            Event::ExchangeCurrency { answer, .. } => answer,
            _ => Ok(0),
        }
    }
}

/// `count` times the same `event`.
pub open spec fn repeated(event: Event, count: nat) -> Seq<Event> {
    Seq::new(count, |i: int| event)
}

/// A collaborator together with the record of what was asked of it.
///
/// The record exists for the contracts only: it says which requests a
/// function of the treasury made, in which order and with which answers. At
/// run time nothing is kept.
pub struct Traced<T> {
    inner: T,
    trace: Ghost<Seq<Event>>,
}

impl<T> Traced<T> {
    /// What was asked so far, oldest first.
    pub closed spec fn trace(&self) -> Seq<Event> {
        self.trace@
    }

    /// The collaborator as it is now.
    pub closed spec fn collaborator(&self) -> T {
        self.inner
    }

    /// Starts an empty record for `inner`.
    pub fn new(inner: T) -> (traced: Self)
        ensures
            traced.trace() == Seq::<Event>::empty(),
            traced.collaborator() == inner,
    {
        Traced { inner, trace: Ghost(Seq::empty()) }
    }

    /// The collaborator itself.
    pub fn inner(&self) -> (inner: &T)
        ensures
            *inner == self.collaborator(),
    {
        &self.inner
    }

    /// Ends the record and gives the collaborator back.
    pub fn into_inner(self) -> (inner: T)
        ensures
            inner == self.collaborator(),
    {
        self.inner
    }
}

impl<C: Currency> Traced<C> {
    /// Asks what was issued of `currency_id`.
    pub fn total_issuance(&mut self, currency_id: CurrencyId) -> (answer: Balance)
        ensures
            final(self).trace() == old(self).trace().push(
                Event::TotalIssuance { currency_id, answer },
            ),
    {
        let answer: Balance = self.inner.total_issuance(currency_id);
        proof {
            self.trace@ = self.trace@.push(Event::TotalIssuance { currency_id, answer });
        }
        answer
    }

    /// Asks whether `who` can withdraw `amount` of `currency_id`.
    pub fn ensure_can_withdraw(
        &mut self,
        currency_id: CurrencyId,
        who: &AccountId,
        amount: Balance,
    ) -> (answer: Result<(), DispatchError>)
        ensures
            final(self).trace() == old(self).trace().push(
                Event::EnsureCanWithdraw { currency_id, who: who@, amount, answer },
            ),
    {
        let answer = self.inner.ensure_can_withdraw(currency_id, who, amount);
        proof {
            self.trace@ = self.trace@.push(
                Event::EnsureCanWithdraw { currency_id, who: who@, amount, answer },
            );
        }
        answer
    }

    /// Asks to move `amount` of `currency_id` from `from` to `to`.
    pub fn transfer(
        &mut self,
        currency_id: CurrencyId,
        from: &AccountId,
        to: &AccountId,
        amount: Balance,
    ) -> (answer: Result<(), DispatchError>)
        ensures
            final(self).trace() == old(self).trace().push(
                Event::Transfer { currency_id, from: from@, to: to@, amount, answer },
            ),
    {
        let answer = self.inner.transfer(currency_id, from, to, amount);
        proof {
            self.trace@ = self.trace@.push(
                Event::Transfer { currency_id, from: from@, to: to@, amount, answer },
            );
        }
        answer
    }

    /// Asks to issue `amount` of `currency_id` to `who`.
    pub fn deposit(
        &mut self,
        currency_id: CurrencyId,
        who: &AccountId,
        amount: Balance,
    ) -> (answer: Result<(), DispatchError>)
        ensures
            final(self).trace() == old(self).trace().push(
                Event::Deposit { currency_id, who: who@, amount, answer },
            ),
    {
        let answer = self.inner.deposit(currency_id, who, amount);
        proof {
            self.trace@ = self.trace@.push(
                Event::Deposit { currency_id, who: who@, amount, answer },
            );
        }
        answer
    }

    /// Asks to burn `amount` of `currency_id` held by `who`.
    pub fn withdraw(
        &mut self,
        currency_id: CurrencyId,
        who: &AccountId,
        amount: Balance,
    ) -> (answer: Result<(), DispatchError>)
        ensures
            final(self).trace() == old(self).trace().push(
                Event::Withdraw { currency_id, who: who@, amount, answer },
            ),
    {
        let answer = self.inner.withdraw(currency_id, who, amount);
        proof {
            self.trace@ = self.trace@.push(
                Event::Withdraw { currency_id, who: who@, amount, answer },
            );
        }
        answer
    }
}

impl<A: AuctionManager> Traced<A> {
    /// Asks to open a collateral auction.
    pub fn new_collateral_auction(
        &mut self,
        refund_recipient: &AccountId,
        currency_id: CurrencyId,
        amount: Balance,
        target: Balance,
    )
        ensures
            final(self).trace() == old(self).trace().push(
                Event::NewCollateralAuction {
                    refund_recipient: refund_recipient@,
                    currency_id,
                    amount,
                    target,
                },
            ),
    {
        self.inner.new_collateral_auction(refund_recipient, currency_id, amount, target);
        proof {
            self.trace@ = self.trace@.push(
                Event::NewCollateralAuction {
                    refund_recipient: refund_recipient@,
                    currency_id,
                    amount,
                    target,
                },
            );
        }
    }

    /// Asks to open a debit auction.
    pub fn new_debit_auction(&mut self, amount: Balance, fix: Balance)
        ensures
            final(self).trace() == old(self).trace().push(Event::NewDebitAuction { amount, fix }),
    {
        self.inner.new_debit_auction(amount, fix);
        proof {
            self.trace@ = self.trace@.push(Event::NewDebitAuction { amount, fix });
        }
    }

    /// Asks to open a surplus auction.
    pub fn new_surplus_auction(&mut self, amount: Balance)
        ensures
            final(self).trace() == old(self).trace().push(Event::NewSurplusAuction { amount }),
    {
        self.inner.new_surplus_auction(amount);
        proof {
            self.trace@ = self.trace@.push(Event::NewSurplusAuction { amount });
        }
    }

    /// Asks for the collateral of `currency_id` in running auctions.
    pub fn get_total_collateral_in_auction(&mut self, currency_id: CurrencyId) -> (answer: Balance)
        ensures
            final(self).trace() == old(self).trace().push(
                Event::TotalCollateralInAuction { currency_id, answer },
            ),
    {
        let answer: Balance = self.inner.get_total_collateral_in_auction(currency_id);
        proof {
            self.trace@ = self.trace@.push(Event::TotalCollateralInAuction { currency_id, answer });
        }
        answer
    }

    /// Asks for the surplus in running auctions.
    pub fn get_total_surplus_in_auction(&mut self) -> (answer: Balance)
        ensures
            final(self).trace() == old(self).trace().push(Event::TotalSurplusInAuction { answer }),
    {
        let answer: Balance = self.inner.get_total_surplus_in_auction();
        proof {
            self.trace@ = self.trace@.push(Event::TotalSurplusInAuction { answer });
        }
        answer
    }

    /// Asks what running debit auctions are meant to raise.
    pub fn get_total_debit_in_auction(&mut self) -> (answer: Balance)
        ensures
            final(self).trace() == old(self).trace().push(Event::TotalDebitInAuction { answer }),
    {
        let answer: Balance = self.inner.get_total_debit_in_auction();
        proof {
            self.trace@ = self.trace@.push(Event::TotalDebitInAuction { answer });
        }
        answer
    }

    /// Asks what running collateral auctions are meant to raise.
    pub fn get_total_target_in_auction(&mut self) -> (answer: Balance)
        ensures
            final(self).trace() == old(self).trace().push(Event::TotalTargetInAuction { answer }),
    {
        let answer: Balance = self.inner.get_total_target_in_auction();
        proof {
            self.trace@ = self.trace@.push(Event::TotalTargetInAuction { answer });
        }
        answer
    }
}

impl<D: DEXManager> Traced<D> {
    /// Asks to swap `supply_amount` of `supply_currency_id` held by `who` for
    /// at least `target_amount` of `target_currency_id`.
    pub fn exchange_currency(
        &mut self,
        who: AccountId,
        supply_currency_id: CurrencyId,
        supply_amount: Balance,
        target_currency_id: CurrencyId,
        target_amount: Balance,
    ) -> (answer: Result<Balance, DispatchError>)
        ensures
            final(self).trace() == old(self).trace().push(
                Event::ExchangeCurrency {
                    who: who@,
                    supply_currency_id,
                    supply_amount,
                    target_currency_id,
                    target_amount,
                    answer,
                },
            ),
    {
        let answer = self.inner.exchange_currency(
            who,
            supply_currency_id,
            supply_amount,
            target_currency_id,
            target_amount,
        );
        proof {
            self.trace@ = self.trace@.push(
                Event::ExchangeCurrency {
                    who: who@,
                    supply_currency_id,
                    supply_amount,
                    target_currency_id,
                    target_amount,
                    answer,
                },
            );
        }
        answer
    }
}

} // verus!
