use crate::collaborators::{repeated, AuctionManager, Currency, DEXManager, Event, Failure, Traced};
use crate::ledger::{Module, State};
use crate::ratio::{debit_proportion, proportion, Ratio};
use crate::types::{AccountId, Balance, CurrencyId, Error, Lot};
use sp_runtime::DispatchError;
use vstd::prelude::*;

verus! {

/// What a collaborator answered, handed on: a value as it is, a refusal as a
/// failure of the collaborator.
pub open spec fn answer_handed_on<T>(answer: Result<T, DispatchError>) -> Result<T, Failure> {
    match answer {
        Ok(value) => Ok(value),
        Err(refusal) => Err(Failure::Collaborator(refusal)),
    }
}

/// Hands on what a collaborator answered.
pub fn handed_on<T>(answer: Result<T, DispatchError>) -> (result: Result<T, Failure>)
    ensures
        result == answer_handed_on(answer),
{
    match answer {
        Ok(value) => Ok(value),
        Err(refusal) => Err(Failure::Collaborator(refusal)),
    }
}

/// The requests that put `lots` of collateral `currency_id` up for auction:
/// one for each lot, in their order.
pub open spec fn lot_events(
    lots: Seq<Lot>,
    refund_recipient: Seq<u8>,
    currency_id: CurrencyId,
) -> Seq<Event> {
    Seq::new(
        lots.len(),
        |i: int|
            Event::NewCollateralAuction {
                refund_recipient,
                currency_id,
                amount: lots[i].amount,
                target: lots[i].target,
            },
    )
}

impl State {
    /// The requests that the netting of debit against surplus makes of the
    /// currency system, where it answers `burn`: none where one pool is
    /// empty; otherwise the one request to burn the smaller of the two pools
    /// out of the treasury's account.
    pub open spec fn netting_events(self, burn: Result<(), DispatchError>) -> Seq<Event> {
        if self.offset_amount() == 0 {
            Seq::empty()
        } else {
            seq![
                Event::Withdraw {
                    currency_id: self.stable_currency_id,
                    who: self.account(),
                    amount: self.offset_amount(),
                    answer: burn,
                },
            ]
        }
    }

    /// The requests of the surplus phase of a cycle, where the auction manager
    /// answers `total_surplus_in_auction`: none after a shutdown or while the
    /// size of a surplus auction is zero; otherwise the question for what is
    /// in auction, and one surplus auction of the fixed size for each that is
    /// due.
    pub open spec fn surplus_phase(self, total_surplus_in_auction: Balance) -> Seq<Event> {
        if self.is_shutdown || self.surplus_auction_fixed_size == 0 {
            Seq::empty()
        } else {
            seq![Event::TotalSurplusInAuction { answer: total_surplus_in_auction }] + repeated(
                Event::NewSurplusAuction { amount: self.surplus_auction_fixed_size },
                self.surplus_auctions_due(total_surplus_in_auction) as nat,
            )
        }
    }

    /// The requests of the debit phase of a cycle after `created` surplus
    /// auctions, where the auction manager answers `total_debit_in_auction`
    /// and `total_target_in_auction`: none after a shutdown or while either
    /// parameter of a debit auction is zero; otherwise the two questions, and
    /// one debit auction for each that is due.
    pub open spec fn debit_phase(
        self,
        created: Balance,
        total_debit_in_auction: Balance,
        total_target_in_auction: Balance,
    ) -> Seq<Event> {
        if self.is_shutdown || self.debit_auction_fixed_size == 0
            || self.initial_amount_per_debit_auction == 0 {
            Seq::empty()
        } else {
            seq![
                Event::TotalDebitInAuction { answer: total_debit_in_auction },
                Event::TotalTargetInAuction { answer: total_target_in_auction },
            ] + repeated(
                Event::NewDebitAuction {
                    amount: self.initial_amount_per_debit_auction,
                    fix: self.debit_auction_fixed_size,
                },
                self.debit_auctions_due(
                    created,
                    total_debit_in_auction,
                    total_target_in_auction,
                ) as nat,
            )
        }
    }

    /// The requests that the scheduling of one cycle makes of the auction
    /// manager, for the three sums that it answers: the surplus phase, then
    /// the debit phase with what the surplus phase left of the cap.
    pub open spec fn cycle_events(
        self,
        total_surplus_in_auction: Balance,
        total_debit_in_auction: Balance,
        total_target_in_auction: Balance,
    ) -> Seq<Event> {
        self.surplus_phase(total_surplus_in_auction) + self.debit_phase(
            self.surplus_auctions_due(total_surplus_in_auction) as Balance,
            total_debit_in_auction,
            total_target_in_auction,
        )
    }
}

impl Module {
    /// The surplus of the system.
    pub fn get_surplus_pool(&self) -> (pool: Balance)
        ensures
            pool == self@.surplus_pool,
    {
        self.surplus_pool()
    }

    /// The bad debt of the system.
    pub fn get_debit_pool(&self) -> (pool: Balance)
        ensures
            pool == self@.debit_pool,
    {
        self.debit_pool()
    }

    /// The collateral of `currency_id` that the treasury holds.
    pub fn get_total_collaterals(&self, currency_id: CurrencyId) -> (total: Balance)
        ensures
            total == self@.collateral(currency_id),
    {
        self.total_collaterals(currency_id)
    }

    /// The share of `amount` in all the stable currency issued, which
    /// `currency` is asked for; zero where none was issued.
    pub fn get_debit_proportion<C: Currency>(
        &self,
        currency: &mut Traced<C>,
        amount: Balance,
    ) -> (ratio: Ratio)
        ensures
            final(currency).trace() == old(currency).trace().push(
                Event::TotalIssuance {
                    currency_id: self@.stable_currency_id,
                    answer: final(currency).trace().last().sum(),
                },
            ),
            ratio == proportion(amount, final(currency).trace().last().sum()),
    {
        let total_issuance: Balance = currency.total_issuance(self.stable_currency_id());
        debit_proportion(amount, total_issuance)
    }

    /// Issues `amount` of stable currency to the treasury's own account and
    /// adds it to the surplus pool.
    ///
    /// Fails with `SurplusPoolOverflow`, and asks nothing of `currency`, where
    /// the pool would leave the range of `Balance`. Otherwise `currency` is
    /// asked once, to issue the amount, and the ledger follows its answer: a
    /// refusal is handed on. Every failure leaves the treasury as it was.
    pub fn on_system_surplus<C: Currency>(
        &mut self,
        currency: &mut Traced<C>,
        amount: Balance,
    ) -> (result: Result<(), Failure>)
        ensures
            old(self)@.surplus_pool + amount > Balance::MAX ==> {
                &&& result == Err::<(), Failure>(Failure::Treasury(Error::SurplusPoolOverflow))
                &&& final(self)@ == old(self)@
                &&& final(currency).trace() == old(currency).trace()
            },
            old(self)@.surplus_pool + amount <= Balance::MAX ==> {
                let paid = final(currency).trace().last().outcome();
                &&& final(currency).trace() == old(currency).trace().push(
                    Event::Deposit {
                        currency_id: old(self)@.stable_currency_id,
                        who: old(self)@.account(),
                        amount,
                        answer: paid,
                    },
                )
                &&& final(self)@ == old(self)@.surplus_recorded(amount, paid).0
                &&& result == old(self)@.surplus_recorded(amount, paid).1
            },
    {
        if self.surplus_pool().checked_add(amount).is_none() {
            return Err(Failure::Treasury(Error::SurplusPoolOverflow));
        }
        let account: AccountId = self.account_id();
        let paid = currency.deposit(self.stable_currency_id(), &account, amount);
        self.record_surplus(amount, paid)
    }

    /// Issues `debit` of stable currency to `who`. Debit that is not `backed`
    /// by collateral is bad debt of the system and goes into the debit pool.
    ///
    /// Fails with `DebitPoolOverflow`, and asks nothing of `currency`, where
    /// unbacked debit would take the pool out of the range of `Balance`.
    /// Otherwise `currency` is asked once, to issue the debit, and the ledger
    /// follows its answer: a refusal is handed on. Every failure leaves the
    /// treasury as it was.
    pub fn issue_debit<C: Currency>(
        &mut self,
        currency: &mut Traced<C>,
        who: &AccountId,
        debit: Balance,
        backed: bool,
    ) -> (result: Result<(), Failure>)
        ensures
            !backed && old(self)@.debit_pool + debit > Balance::MAX ==> {
                &&& result == Err::<(), Failure>(Failure::Treasury(Error::DebitPoolOverflow))
                &&& final(self)@ == old(self)@
                &&& final(currency).trace() == old(currency).trace()
            },
            backed || old(self)@.debit_pool + debit <= Balance::MAX ==> {
                let issued = final(currency).trace().last().outcome();
                &&& final(currency).trace() == old(currency).trace().push(
                    Event::Deposit {
                        currency_id: old(self)@.stable_currency_id,
                        who: who@,
                        amount: debit,
                        answer: issued,
                    },
                )
                &&& final(self)@ == old(self)@.issue_recorded(debit, backed, issued).0
                &&& result == old(self)@.issue_recorded(debit, backed, issued).1
            },
    {
        if !backed && self.debit_pool().checked_add(debit).is_none() {
            return Err(Failure::Treasury(Error::DebitPoolOverflow));
        }
        let issued = currency.deposit(self.stable_currency_id(), who, debit);
        self.record_issue(debit, backed, issued)
    }

    /// Burns `debit` of stable currency held by `who`: `currency` is asked
    /// once, and its answer is handed on. The pools are not touched.
    pub fn burn_debit<C: Currency>(
        &self,
        currency: &mut Traced<C>,
        who: &AccountId,
        debit: Balance,
    ) -> (result: Result<(), Failure>)
        ensures
            final(currency).trace() == old(currency).trace().push(
                Event::Withdraw {
                    currency_id: self@.stable_currency_id,
                    who: who@,
                    amount: debit,
                    answer: final(currency).trace().last().outcome(),
                },
            ),
            result == answer_handed_on(final(currency).trace().last().outcome()),
    {
        handed_on(currency.withdraw(self.stable_currency_id(), who, debit))
    }

    /// Moves `surplus` of stable currency from `from` to the treasury's
    /// account and adds it to the surplus pool.
    ///
    /// Fails with `SurplusPoolOverflow`, and asks nothing of `currency`, where
    /// the pool would leave the range of `Balance`. Otherwise `currency` is
    /// asked once, to move the sum, and the ledger follows its answer: a
    /// refusal is handed on. Every failure leaves the treasury as it was.
    pub fn deposit_surplus<C: Currency>(
        &mut self,
        currency: &mut Traced<C>,
        from: &AccountId,
        surplus: Balance,
    ) -> (result: Result<(), Failure>)
        ensures
            old(self)@.surplus_pool + surplus > Balance::MAX ==> {
                &&& result == Err::<(), Failure>(Failure::Treasury(Error::SurplusPoolOverflow))
                &&& final(self)@ == old(self)@
                &&& final(currency).trace() == old(currency).trace()
            },
            old(self)@.surplus_pool + surplus <= Balance::MAX ==> {
                let moved = final(currency).trace().last().outcome();
                &&& final(currency).trace() == old(currency).trace().push(
                    Event::Transfer {
                        currency_id: old(self)@.stable_currency_id,
                        from: from@,
                        to: old(self)@.account(),
                        amount: surplus,
                        answer: moved,
                    },
                )
                &&& final(self)@ == old(self)@.surplus_recorded(surplus, moved).0
                &&& result == old(self)@.surplus_recorded(surplus, moved).1
            },
    {
        if self.surplus_pool().checked_add(surplus).is_none() {
            return Err(Failure::Treasury(Error::SurplusPoolOverflow));
        }
        let account: AccountId = self.account_id();
        let moved = currency.transfer(self.stable_currency_id(), from, &account, surplus);
        self.record_surplus(surplus, moved)
    }

    /// Moves `amount` of collateral `currency_id` from `from` to the
    /// treasury's account and adds it to the total of that collateral.
    ///
    /// Fails with `CollateralOverflow`, and asks nothing of `currency`, where
    /// the total would leave the range of `Balance`. Otherwise `currency` is
    /// asked once, to move the sum, and the ledger follows its answer: a
    /// refusal is handed on. Every failure leaves the treasury as it was.
    pub fn deposit_collateral<C: Currency>(
        &mut self,
        currency: &mut Traced<C>,
        from: &AccountId,
        currency_id: CurrencyId,
        amount: Balance,
    ) -> (result: Result<(), Failure>)
        ensures
            old(self)@.collateral(currency_id) + amount > Balance::MAX ==> {
                &&& result == Err::<(), Failure>(Failure::Treasury(Error::CollateralOverflow))
                &&& final(self)@ == old(self)@
                &&& final(currency).trace() == old(currency).trace()
            },
            old(self)@.collateral(currency_id) + amount <= Balance::MAX ==> {
                let moved = final(currency).trace().last().outcome();
                &&& final(currency).trace() == old(currency).trace().push(
                    Event::Transfer {
                        currency_id,
                        from: from@,
                        to: old(self)@.account(),
                        amount,
                        answer: moved,
                    },
                )
                &&& final(self)@ == old(self)@.collateral_deposit_recorded(
                    currency_id,
                    amount,
                    moved,
                ).0
                &&& result == old(self)@.collateral_deposit_recorded(currency_id, amount, moved).1
            },
    {
        if self.total_collaterals(currency_id).checked_add(amount).is_none() {
            return Err(Failure::Treasury(Error::CollateralOverflow));
        }
        let account: AccountId = self.account_id();
        let moved = currency.transfer(currency_id, from, &account, amount);
        self.record_collateral_deposit(currency_id, amount, moved)
    }

    /// Moves `amount` of collateral `currency_id` from the treasury's account
    /// to `to` and takes it off the total of that collateral.
    ///
    /// Fails with `CollateralNotEnough`, and asks nothing of `currency`, where
    /// the treasury holds less than `amount`. Otherwise `currency` is asked
    /// once, to move the sum, and the ledger follows its answer: a refusal is
    /// handed on. Every failure leaves the treasury as it was.
    pub fn withdraw_collateral<C: Currency>(
        &mut self,
        currency: &mut Traced<C>,
        to: &AccountId,
        currency_id: CurrencyId,
        amount: Balance,
    ) -> (result: Result<(), Failure>)
        ensures
            old(self)@.collateral(currency_id) < amount ==> {
                &&& result == Err::<(), Failure>(Failure::Treasury(Error::CollateralNotEnough))
                &&& final(self)@ == old(self)@
                &&& final(currency).trace() == old(currency).trace()
            },
            old(self)@.collateral(currency_id) >= amount ==> {
                let moved = final(currency).trace().last().outcome();
                &&& final(currency).trace() == old(currency).trace().push(
                    Event::Transfer {
                        currency_id,
                        from: old(self)@.account(),
                        to: to@,
                        amount,
                        answer: moved,
                    },
                )
                &&& final(self)@ == old(self)@.collateral_withdrawal_recorded(
                    currency_id,
                    amount,
                    moved,
                ).0
                &&& result == old(self)@.collateral_withdrawal_recorded(
                    currency_id,
                    amount,
                    moved,
                ).1
            },
    {
        if self.total_collaterals(currency_id) < amount {
            return Err(Failure::Treasury(Error::CollateralNotEnough));
        }
        let account: AccountId = self.account_id();
        let moved = currency.transfer(currency_id, &account, to, amount);
        self.record_collateral_withdrawal(currency_id, amount, moved)
    }

    /// Swaps `supply_amount` of collateral `currency_id` for at least
    /// `target_amount` of stable currency on the exchange: what comes of it
    /// goes into the surplus pool and is returned, and the total of that
    /// collateral shrinks by `supply_amount`.
    ///
    /// Fails with `CollateralNotEnough`, and asks nothing of `runtime`, where
    /// the treasury holds less than `supply_amount`. Otherwise the currency
    /// system is asked once whether the treasury's account can withdraw that
    /// much; where it cannot, its refusal is handed on and the exchange is
    /// not asked. Otherwise the exchange is asked once to swap, and the ledger
    /// follows its answer: a refusal is handed on, and what it paid is an
    /// error, `SurplusPoolOverflow`, where the surplus pool cannot take it.
    /// Every failure leaves the treasury as it was.
    pub fn swap_collateral_to_stable<R: Currency + DEXManager>(
        &mut self,
        runtime: &mut Traced<R>,
        currency_id: CurrencyId,
        supply_amount: Balance,
        target_amount: Balance,
    ) -> (result: Result<Balance, Failure>)
        ensures
            old(self)@.collateral(currency_id) < supply_amount ==> {
                &&& result == Err::<Balance, Failure>(
                    Failure::Treasury(Error::CollateralNotEnough),
                )
                &&& final(self)@ == old(self)@
                &&& final(runtime).trace() == old(runtime).trace()
            },
            old(self)@.collateral(currency_id) >= supply_amount ==> {
                let allowed = final(runtime).trace()[old(runtime).trace().len() as int].outcome();
                let asked = old(runtime).trace().push(
                    Event::EnsureCanWithdraw {
                        currency_id,
                        who: old(self)@.account(),
                        amount: supply_amount,
                        answer: allowed,
                    },
                );
                match allowed {
                    Err(refusal) => {
                        &&& result == Err::<Balance, Failure>(Failure::Collaborator(refusal))
                        &&& final(self)@ == old(self)@
                        &&& final(runtime).trace() == asked
                    },
                    Ok(_) => {
                        let exchanged = final(runtime).trace().last().exchanged();
                        &&& final(runtime).trace() == asked.push(
                            Event::ExchangeCurrency {
                                who: old(self)@.account(),
                                supply_currency_id: currency_id,
                                supply_amount,
                                target_currency_id: old(self)@.stable_currency_id,
                                target_amount,
                                answer: exchanged,
                            },
                        )
                        &&& final(self)@ == old(self)@.swap_recorded(
                            currency_id,
                            supply_amount,
                            exchanged,
                        ).0
                        &&& result == old(self)@.swap_recorded(
                            currency_id,
                            supply_amount,
                            exchanged,
                        ).1
                    },
                }
            },
    {
        if self.total_collaterals(currency_id) < supply_amount {
            return Err(Failure::Treasury(Error::CollateralNotEnough));
        }
        let account: AccountId = self.account_id();
        match runtime.ensure_can_withdraw(currency_id, &account, supply_amount) {
            Ok(_) => {},
            Err(refusal) => {
                return Err(Failure::Collaborator(refusal));
            },
        }
        let exchanged = runtime.exchange_currency(
            account,
            currency_id,
            supply_amount,
            self.stable_currency_id(),
            target_amount,
        );
        self.record_swap(currency_id, supply_amount, exchanged)
    }

    /// Nets the debit pool against the surplus pool: asks `currency` to burn
    /// the smaller of the two out of the treasury's account and, where it
    /// does, takes that amount off both pools, so that one of them is empty.
    ///
    /// Where the burn is refused the pools stay as they are and the refusal
    /// is swallowed. Where one pool is empty nothing is asked.
    pub fn offset_surplus_and_debit<C: Currency>(&mut self, currency: &mut Traced<C>)
        ensures
            ({
                let burn = final(currency).trace().last().outcome();
                &&& final(currency).trace() == old(currency).trace() + old(self)@.netting_events(
                    burn,
                )
                &&& final(self)@ == old(self)@.offset_recorded(burn)
            }),
            final(self)@ == old(self)@ || final(self)@.debit_pool == 0 || final(self)@.surplus_pool
                == 0,
    {
        let offset_amount: Balance = self.offset_amount();
        if offset_amount != 0 {
            let account: AccountId = self.account_id();
            let burn = currency.withdraw(self.stable_currency_id(), &account, offset_amount);
            self.record_offset(burn);
        }
    }

    /// Ends a cycle: nets debit against surplus, then, unless the system was
    /// shut down, asks to open the surplus auctions and after them the debit
    /// auctions that are due.
    ///
    /// What is due is decided on the pools as the netting left them and on
    /// the sums that `runtime` reports to be in running auctions; the pools
    /// themselves are not touched by the scheduling. The requests made of
    /// `runtime` are those of the netting followed by those of the
    /// scheduling.
    pub fn on_finalize<R: Currency + AuctionManager>(&mut self, runtime: &mut Traced<R>)
        ensures
            ({
                let burn = final(runtime).trace()[old(runtime).trace().len() as int].outcome();
                &&& final(self)@ == old(self)@.offset_recorded(burn)
                &&& exists|
                    total_surplus_in_auction: Balance,
                    total_debit_in_auction: Balance,
                    total_target_in_auction: Balance,
                |
                    final(runtime).trace() == old(runtime).trace() + old(self)@.netting_events(
                        burn,
                    ) + #[trigger] final(self)@.cycle_events(
                        total_surplus_in_auction,
                        total_debit_in_auction,
                        total_target_in_auction,
                    )
            }),
            old(self)@.is_shutdown ==> final(runtime).trace() == old(runtime).trace() + old(
                self
            )@.netting_events(final(runtime).trace()[old(runtime).trace().len() as int].outcome()),
    {
        let ghost asked_at_first = runtime.trace();
        let ghost state_at_first = self@;
        self.offset_surplus_and_debit(runtime);
        let ghost asked_before = runtime.trace();
        if self.is_shutdown() {
            assert(runtime.trace() =~= asked_before + self@.cycle_events(0, 0, 0));
            assert(state_at_first.offset_amount() != 0 ==> runtime.trace()[asked_at_first.len()
                as int] == asked_before.last());
            return ;
        }
        let mut total_surplus_in_auction: Balance = 0;
        let mut surplus_auctions: Balance = 0;
        let surplus_auction_fixed_size: Balance = self.surplus_auction_fixed_size();
        if surplus_auction_fixed_size != 0 {
            total_surplus_in_auction = runtime.get_total_surplus_in_auction();
            surplus_auctions = self.surplus_auctions_due(total_surplus_in_auction);
            let ghost one = Event::NewSurplusAuction { amount: surplus_auction_fixed_size };
            let ghost asked_first = runtime.trace();
            let mut opened: Balance = 0;
            while opened < surplus_auctions
                invariant
                    opened <= surplus_auctions,
                    one == (Event::NewSurplusAuction { amount: surplus_auction_fixed_size }),
                    runtime.trace() == asked_first + repeated(one, opened as nat),
                decreases surplus_auctions - opened,
            {
                runtime.new_surplus_auction(surplus_auction_fixed_size);
                assert(repeated(one, opened as nat).push(one) =~= repeated(
                    one,
                    (opened + 1) as nat,
                ));
                opened = opened + 1;
            }
        }
        let ghost asked_between = runtime.trace();
        let mut total_debit_in_auction: Balance = 0;
        let mut total_target_in_auction: Balance = 0;
        let debit_auction_fixed_size: Balance = self.debit_auction_fixed_size();
        let initial_amount_per_debit_auction: Balance = self.initial_amount_per_debit_auction();
        if debit_auction_fixed_size != 0 && initial_amount_per_debit_auction != 0 {
            total_debit_in_auction = runtime.get_total_debit_in_auction();
            total_target_in_auction = runtime.get_total_target_in_auction();
            let debit_auctions: Balance = self.debit_auctions_due(
                surplus_auctions,
                total_debit_in_auction,
                total_target_in_auction,
            );
            let ghost one = Event::NewDebitAuction {
                amount: initial_amount_per_debit_auction,
                fix: debit_auction_fixed_size,
            };
            let ghost asked_first = runtime.trace();
            let mut opened: Balance = 0;
            while opened < debit_auctions
                invariant
                    opened <= debit_auctions,
                    one == (Event::NewDebitAuction {
                        amount: initial_amount_per_debit_auction,
                        fix: debit_auction_fixed_size,
                    }),
                    runtime.trace() == asked_first + repeated(one, opened as nat),
                decreases debit_auctions - opened,
            {
                runtime.new_debit_auction(
                    initial_amount_per_debit_auction,
                    debit_auction_fixed_size,
                );
                assert(repeated(one, opened as nat).push(one) =~= repeated(
                    one,
                    (opened + 1) as nat,
                ));
                opened = opened + 1;
            }
        }
        assert(runtime.trace() =~= asked_between + self@.debit_phase(
            surplus_auctions,
            total_debit_in_auction,
            total_target_in_auction,
        ));
        assert(runtime.trace() =~= asked_before + self@.cycle_events(
            total_surplus_in_auction,
            total_debit_in_auction,
            total_target_in_auction,
        ));
        assert(state_at_first.offset_amount() != 0 ==> runtime.trace()[asked_at_first.len() as int]
            == asked_before.last());
    }

    /// Puts `amount` of seized collateral `currency_id`, meant to raise
    /// `target`, up for auction in one or more lots; what an auction does not
    /// need goes back to `refund_receiver`. The ledger stays as it is.
    ///
    /// Of an amount of zero nothing is asked of `auctions`. Otherwise it is
    /// asked what is in running auctions of that collateral, and then to open
    /// one auction for each lot of the split, in their order. There are no
    /// lots, and that is no error, where the treasury does not hold `amount`
    /// on top of what is in running auctions.
    pub fn create_collateral_auctions<A: AuctionManager>(
        &self,
        auctions: &mut Traced<A>,
        currency_id: CurrencyId,
        amount: Balance,
        target: Balance,
        refund_receiver: AccountId,
    )
        ensures
            amount == 0 ==> final(auctions).trace() == old(auctions).trace(),
            amount != 0 ==> {
                let in_auction = final(auctions).trace()[old(auctions).trace().len() as int].sum();
                final(auctions).trace() == old(auctions).trace().push(
                    Event::TotalCollateralInAuction { currency_id, answer: in_auction },
                ) + lot_events(
                    self@.collateral_lots(currency_id, amount, target, in_auction),
                    refund_receiver@,
                    currency_id,
                )
            },
    {
        if amount == 0 {
            return ;
        }
        let ghost asked_before = auctions.trace();
        let total_collateral_in_auction: Balance = auctions.get_total_collateral_in_auction(
            currency_id,
        );
        let ghost asked_first = auctions.trace();
        let lots: Vec<Lot> = self.collateral_lots(
            currency_id,
            amount,
            target,
            total_collateral_in_auction,
        );
        let mut asked: usize = 0;
        while asked < lots.len()
            invariant
                asked <= lots.len(),
                auctions.trace() == asked_first + lot_events(
                    lots@.take(asked as int),
                    refund_receiver@,
                    currency_id,
                ),
            decreases lots.len() - asked,
        {
            let lot: Lot = lots[asked];
            auctions.new_collateral_auction(&refund_receiver, currency_id, lot.amount, lot.target);
            assert(lot_events(lots@.take(asked as int), refund_receiver@, currency_id).push(
                Event::NewCollateralAuction {
                    refund_recipient: refund_receiver@,
                    currency_id,
                    amount: lot.amount,
                    target: lot.target,
                },
            ) =~= lot_events(lots@.take(asked + 1), refund_receiver@, currency_id));
            asked = asked + 1;
        }
        assert(auctions.trace()[asked_before.len() as int] == (Event::TotalCollateralInAuction {
            currency_id,
            answer: total_collateral_in_auction,
        }));
    }
}

} // verus!
