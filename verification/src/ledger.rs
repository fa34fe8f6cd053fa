use crate::account::{module_account, module_account_bytes};
use crate::collaborators::Failure;
use crate::types::{AccountId, Balance, CurrencyId, Error};
use sp_runtime::DispatchError;
use std::collections::HashMap;
use vstd::prelude::*;

verus! {

broadcast use vstd::std_specs::hash::group_hash_axioms;

/// What a runtime fixes for its treasury once and for all.
#[derive(Clone, Copy, Debug)]
pub struct Config {
    /// The identifier of the treasury module; its account is derived from it.
    pub module_id: [u8; 8],
    /// The stable currency.
    pub stable_currency_id: CurrencyId,
    /// The cap on the auctions opened in one go; zero switches it off.
    pub max_auctions_count: u32,
}

/// The treasury as a mathematical value: what every contract speaks of.
///
/// The two maps are total: an asset that was never touched has a total of
/// zero and a maximum lot size of zero.
#[verifier::ext_equal]
pub struct State {
    /// The identifier of the treasury module.
    pub module_id: Seq<u8>,
    /// The stable currency.
    pub stable_currency_id: CurrencyId,
    /// The cap on the auctions opened in one go; zero means none.
    pub max_auctions_count: u32,
    /// The stable currency for sale in one surplus auction.
    pub surplus_auction_fixed_size: Balance,
    /// The surplus that stays in the pool and is never auctioned.
    pub surplus_buffer_size: Balance,
    /// The native currency first offered in one debit auction.
    pub initial_amount_per_debit_auction: Balance,
    /// The stable currency that one debit auction is meant to raise.
    pub debit_auction_fixed_size: Balance,
    /// For each collateral, the largest lot that goes into one auction.
    pub collateral_auction_maximum_size: Map<CurrencyId, Balance>,
    /// The bad debt of the system.
    pub debit_pool: Balance,
    /// The surplus of the system.
    pub surplus_pool: Balance,
    /// For each collateral, what the treasury holds of it.
    pub total_collaterals: Map<CurrencyId, Balance>,
    /// Whether the system was shut down.
    pub is_shutdown: bool,
}

/// The total map that reads `stored` and gives zero for what it lacks.
pub open spec fn with_zero_default(stored: Map<CurrencyId, Balance>) -> Map<CurrencyId, Balance> {
    Map::total(
        |id: CurrencyId|
            if stored.contains_key(id) {
                stored[id]
            } else {
                0
            },
    )
}

impl State {
    /// Both maps are total.
    pub open spec fn wf(self) -> bool {
        forall|id: CurrencyId|
            #![auto]
            self.total_collaterals.contains_key(id)
                && self.collateral_auction_maximum_size.contains_key(id)
    }

    /// The collateral of `currency_id` that the treasury holds.
    pub open spec fn collateral(self, currency_id: CurrencyId) -> Balance {
        self.total_collaterals[currency_id]
    }

    /// The largest lot of `currency_id` that goes into one collateral auction.
    pub open spec fn maximum_size(self, currency_id: CurrencyId) -> Balance {
        self.collateral_auction_maximum_size[currency_id]
    }

    /// This state with a debit pool grown by `amount`.
    pub open spec fn increase_debit(self, amount: Balance) -> State {
        State { debit_pool: (self.debit_pool + amount) as Balance, ..self }
    }

    /// This state with a surplus pool grown by `amount`.
    pub open spec fn increase_surplus(self, amount: Balance) -> State {
        State { surplus_pool: (self.surplus_pool + amount) as Balance, ..self }
    }

    /// This state with `amount` more collateral of `currency_id`.
    pub open spec fn deposit_collateral(self, currency_id: CurrencyId, amount: Balance) -> State {
        State {
            total_collaterals: self.total_collaterals.insert(
                currency_id,
                (self.collateral(currency_id) + amount) as Balance,
            ),
            ..self
        }
    }

    /// This state with `amount` less collateral of `currency_id`.
    pub open spec fn withdraw_collateral(self, currency_id: CurrencyId, amount: Balance) -> State {
        State {
            total_collaterals: self.total_collaterals.insert(
                currency_id,
                (self.collateral(currency_id) - amount) as Balance,
            ),
            ..self
        }
    }

    /// What can be netted: the smaller of debit pool and surplus pool.
    pub open spec fn offset_amount(self) -> Balance {
        if self.debit_pool <= self.surplus_pool {
            self.debit_pool
        } else {
            self.surplus_pool
        }
    }

    /// This state with debit and surplus netted against each other.
    pub open spec fn offset(self) -> State {
        State {
            debit_pool: (self.debit_pool - self.offset_amount()) as Balance,
            surplus_pool: (self.surplus_pool - self.offset_amount()) as Balance,
            ..self
        }
    }

    /// This state after `supply` collateral of `currency_id` was swapped for
    /// `received` of the stable currency.
    pub open spec fn swap(
        self,
        currency_id: CurrencyId,
        supply: Balance,
        received: Balance,
    ) -> State {
        self.withdraw_collateral(currency_id, supply).increase_surplus(received)
    }

    /// This state, shut down.
    pub open spec fn shut_down(self) -> State {
        State { is_shutdown: true, ..self }
    }

    /// The state of a treasury that was just set up with `config`: empty
    /// pools, no collateral, all parameters zero, not shut down.
    pub open spec fn initial(config: Config) -> State {
        State {
            module_id: config.module_id@,
            stable_currency_id: config.stable_currency_id,
            max_auctions_count: config.max_auctions_count,
            surplus_auction_fixed_size: 0,
            surplus_buffer_size: 0,
            initial_amount_per_debit_auction: 0,
            debit_auction_fixed_size: 0,
            collateral_auction_maximum_size: Map::total(|id: CurrencyId| 0),
            debit_pool: 0,
            surplus_pool: 0,
            total_collaterals: Map::total(|id: CurrencyId| 0),
            is_shutdown: false,
        }
    }

    /// The bytes of the treasury's own account.
    pub open spec fn account(self) -> Seq<u8> {
        module_account_bytes(self.module_id)
    }

    /// What comes of netting debit against surplus once the currency system
    /// has answered the request to burn the netted amount: both pools shrink
    /// by it where the burn went through, and nothing changes where it was
    /// refused.
    pub open spec fn offset_recorded(self, burn: Result<(), DispatchError>) -> State {
        if burn is Ok {
            self.offset()
        } else {
            self
        }
    }

    /// What comes of `amount` of surplus once the currency system has
    /// answered the request to pay it into the treasury's account.
    ///
    /// A pool that would leave the range of `Balance` is an error whatever
    /// the answer was; otherwise a refusal is handed on; otherwise the surplus
    /// pool grows by `amount`. Every failure leaves the state as it was.
    pub open spec fn surplus_recorded(self, amount: Balance, paid: Result<(), DispatchError>) -> (
        State,
        Result<(), Failure>,
    ) {
        if self.surplus_pool + amount > Balance::MAX {
            (self, Err(Failure::Treasury(Error::SurplusPoolOverflow)))
        } else {
            match paid {
                Ok(_) => (self.increase_surplus(amount), Ok(())),
                Err(refusal) => (self, Err(Failure::Collaborator(refusal))),
            }
        }
    }

    /// What comes of `debit` of stable currency issued to an account once the
    /// currency system has answered the request to issue it.
    ///
    /// Debit that is not `backed` by collateral is added to the debit pool;
    /// backed debit leaves the pool alone. A pool that would leave the range
    /// of `Balance` is an error whatever the answer was; otherwise a refusal
    /// is handed on. Every failure leaves the state as it was.
    pub open spec fn issue_recorded(
        self,
        debit: Balance,
        backed: bool,
        issued: Result<(), DispatchError>,
    ) -> (State, Result<(), Failure>) {
        if !backed && self.debit_pool + debit > Balance::MAX {
            (self, Err(Failure::Treasury(Error::DebitPoolOverflow)))
        } else {
            match issued {
                Ok(_) => (
                    if backed {
                        self
                    } else {
                        self.increase_debit(debit)
                    },
                    Ok(()),
                ),
                Err(refusal) => (self, Err(Failure::Collaborator(refusal))),
            }
        }
    }

    /// What comes of `amount` of collateral `currency_id` taken in, once the
    /// currency system has answered the request to move it to the treasury's
    /// account.
    ///
    /// A total that would leave the range of `Balance` is an error whatever
    /// the answer was; otherwise a refusal is handed on; otherwise the total
    /// of that collateral grows by `amount`. Every failure leaves the state
    /// as it was.
    pub open spec fn collateral_deposit_recorded(
        self,
        currency_id: CurrencyId,
        amount: Balance,
        moved: Result<(), DispatchError>,
    ) -> (State, Result<(), Failure>) {
        if self.collateral(currency_id) + amount > Balance::MAX {
            (self, Err(Failure::Treasury(Error::CollateralOverflow)))
        } else {
            match moved {
                Ok(_) => (self.deposit_collateral(currency_id, amount), Ok(())),
                Err(refusal) => (self, Err(Failure::Collaborator(refusal))),
            }
        }
    }

    /// What comes of `amount` of collateral `currency_id` given out, once the
    /// currency system has answered the request to move it out of the
    /// treasury's account.
    ///
    /// More than the treasury holds is an error whatever the answer was;
    /// otherwise a refusal is handed on; otherwise the total of that
    /// collateral shrinks by `amount`. Every failure leaves the state as it
    /// was.
    pub open spec fn collateral_withdrawal_recorded(
        self,
        currency_id: CurrencyId,
        amount: Balance,
        moved: Result<(), DispatchError>,
    ) -> (State, Result<(), Failure>) {
        if self.collateral(currency_id) < amount {
            (self, Err(Failure::Treasury(Error::CollateralNotEnough)))
        } else {
            match moved {
                Ok(_) => (self.withdraw_collateral(currency_id, amount), Ok(())),
                Err(refusal) => (self, Err(Failure::Collaborator(refusal))),
            }
        }
    }

    /// What comes of the swap of `supply_amount` of collateral `currency_id`
    /// for stable currency once the exchange has answered with what it paid.
    ///
    /// More collateral than the treasury holds is an error whatever the
    /// answer was; otherwise a refusal is handed on; otherwise a surplus pool
    /// that would leave the range of `Balance` is an error; otherwise the
    /// surplus pool grows by what was received, the total of that collateral
    /// shrinks by `supply_amount`, and the received amount is the result.
    /// Every failure leaves the state as it was.
    pub open spec fn swap_recorded(
        self,
        currency_id: CurrencyId,
        supply_amount: Balance,
        exchanged: Result<Balance, DispatchError>,
    ) -> (State, Result<Balance, Failure>) {
        if self.collateral(currency_id) < supply_amount {
            (self, Err(Failure::Treasury(Error::CollateralNotEnough)))
        } else {
            match exchanged {
                Err(refusal) => (self, Err(Failure::Collaborator(refusal))),
                Ok(received) => if self.surplus_pool + received > Balance::MAX {
                    (self, Err(Failure::Treasury(Error::SurplusPoolOverflow)))
                } else {
                    (self.swap(currency_id, supply_amount, received), Ok(received))
                },
            }
        }
    }
}

/// The treasury: its configuration, its parameters and its ledger.
pub struct Module {
    module_id: [u8; 8],
    stable_currency_id: CurrencyId,
    max_auctions_count: u32,
    surplus_auction_fixed_size: Balance,
    surplus_buffer_size: Balance,
    initial_amount_per_debit_auction: Balance,
    debit_auction_fixed_size: Balance,
    collateral_auction_maximum_size: HashMap<CurrencyId, Balance>,
    debit_pool: Balance,
    surplus_pool: Balance,
    total_collaterals: HashMap<CurrencyId, Balance>,
    is_shutdown: bool,
}

impl View for Module {
    type V = State;

    closed spec fn view(&self) -> State {
        State {
            module_id: self.module_id@,
            stable_currency_id: self.stable_currency_id,
            max_auctions_count: self.max_auctions_count,
            surplus_auction_fixed_size: self.surplus_auction_fixed_size,
            surplus_buffer_size: self.surplus_buffer_size,
            initial_amount_per_debit_auction: self.initial_amount_per_debit_auction,
            debit_auction_fixed_size: self.debit_auction_fixed_size,
            collateral_auction_maximum_size: with_zero_default(
                self.collateral_auction_maximum_size@,
            ),
            debit_pool: self.debit_pool,
            surplus_pool: self.surplus_pool,
            total_collaterals: with_zero_default(self.total_collaterals@),
            is_shutdown: self.is_shutdown,
        }
    }
}

impl Module {
    /// The view of every treasury is well formed.
    pub proof fn lemma_view_wf(&self)
        ensures
            self@.wf(),
    {
    }

    /// A treasury with empty pools, no collateral, all parameters zero, and
    /// not shut down.
    pub fn new(config: Config) -> (module: Module)
        ensures
            module@ == State::initial(config),
    {
        Module::restore(config, 0, 0, false)
    }

    /// A treasury with the pools and the flag that an earlier one had, no
    /// collateral, and all parameters zero.
    pub fn restore(
        config: Config,
        debit_pool: Balance,
        surplus_pool: Balance,
        is_shutdown: bool,
    ) -> (module: Module)
        ensures
            module@ == (State {
                debit_pool,
                surplus_pool,
                is_shutdown,
                ..State::initial(config)
            }),
    {
        let module = Module {
            module_id: config.module_id,
            stable_currency_id: config.stable_currency_id,
            max_auctions_count: config.max_auctions_count,
            surplus_auction_fixed_size: 0,
            surplus_buffer_size: 0,
            initial_amount_per_debit_auction: 0,
            debit_auction_fixed_size: 0,
            collateral_auction_maximum_size: HashMap::new(),
            debit_pool,
            surplus_pool,
            total_collaterals: HashMap::new(),
            is_shutdown,
        };
        assert(module@ =~~= (State {
            debit_pool,
            surplus_pool,
            is_shutdown,
            ..State::initial(config)
        }));
        module
    }

    /// This treasury holding `total` of collateral `currency_id`; everything
    /// else is kept.
    pub fn with_collateral(self, currency_id: CurrencyId, total: Balance) -> (module: Module)
        ensures
            module@ == (State {
                total_collaterals: self@.total_collaterals.insert(currency_id, total),
                ..self@
            }),
    {
        let mut module = self;
        module.total_collaterals.insert(currency_id, total);
        module
    }

    /// The account that holds the treasury's surplus and collateral.
    pub fn account_id(&self) -> (account: AccountId)
        ensures
            account@ == self@.account(),
    {
        module_account(&self.module_id)
    }

    /// The stable currency.
    pub fn stable_currency_id(&self) -> (id: CurrencyId)
        ensures
            id == self@.stable_currency_id,
    {
        self.stable_currency_id
    }

    /// The cap on the auctions opened in one go; zero means none.
    pub fn max_auctions_count(&self) -> (count: u32)
        ensures
            count == self@.max_auctions_count,
    {
        self.max_auctions_count
    }

    /// The stable currency for sale in one surplus auction.
    pub fn surplus_auction_fixed_size(&self) -> (size: Balance)
        ensures
            size == self@.surplus_auction_fixed_size,
    {
        self.surplus_auction_fixed_size
    }

    /// The surplus that stays in the pool and is never auctioned.
    pub fn surplus_buffer_size(&self) -> (size: Balance)
        ensures
            size == self@.surplus_buffer_size,
    {
        self.surplus_buffer_size
    }

    /// The native currency first offered in one debit auction.
    pub fn initial_amount_per_debit_auction(&self) -> (amount: Balance)
        ensures
            amount == self@.initial_amount_per_debit_auction,
    {
        self.initial_amount_per_debit_auction
    }

    /// The stable currency that one debit auction is meant to raise.
    pub fn debit_auction_fixed_size(&self) -> (size: Balance)
        ensures
            size == self@.debit_auction_fixed_size,
    {
        self.debit_auction_fixed_size
    }

    /// The largest lot of `currency_id` that goes into one collateral auction;
    /// zero means that lots are not bounded.
    pub fn collateral_auction_maximum_size(&self, currency_id: CurrencyId) -> (size: Balance)
        ensures
            size == self@.maximum_size(currency_id),
    {
        match self.collateral_auction_maximum_size.get(&currency_id) {
            Some(size) => *size,
            None => 0,
        }
    }

    /// The bad debt of the system.
    pub fn debit_pool(&self) -> (pool: Balance)
        ensures
            pool == self@.debit_pool,
    {
        self.debit_pool
    }

    /// The surplus of the system.
    pub fn surplus_pool(&self) -> (pool: Balance)
        ensures
            pool == self@.surplus_pool,
    {
        self.surplus_pool
    }

    /// The collateral of `currency_id` that the treasury holds.
    pub fn total_collaterals(&self, currency_id: CurrencyId) -> (total: Balance)
        ensures
            total == self@.collateral(currency_id),
    {
        match self.total_collaterals.get(&currency_id) {
            Some(total) => *total,
            None => 0,
        }
    }

    /// Whether the system was shut down.
    pub fn is_shutdown(&self) -> (flag: bool)
        ensures
            flag == self@.is_shutdown,
    {
        self.is_shutdown
    }

    /// Sets each of the four auction parameters for which a value is given
    /// and leaves the others as they are.
    pub fn set_debit_and_surplus_handle_params(
        &mut self,
        surplus_auction_fixed_size: Option<Balance>,
        surplus_buffer_size: Option<Balance>,
        initial_amount_per_debit_auction: Option<Balance>,
        debit_auction_fixed_size: Option<Balance>,
    )
        ensures
            final(self)@ == (State {
                surplus_auction_fixed_size: match surplus_auction_fixed_size {
                    Some(size) => size,
                    None => old(self)@.surplus_auction_fixed_size,
                },
                surplus_buffer_size: match surplus_buffer_size {
                    Some(size) => size,
                    None => old(self)@.surplus_buffer_size,
                },
                initial_amount_per_debit_auction: match initial_amount_per_debit_auction {
                    Some(amount) => amount,
                    None => old(self)@.initial_amount_per_debit_auction,
                },
                debit_auction_fixed_size: match debit_auction_fixed_size {
                    Some(size) => size,
                    None => old(self)@.debit_auction_fixed_size,
                },
                ..old(self)@
            }),
    {
        if let Some(size) = surplus_auction_fixed_size {
            self.surplus_auction_fixed_size = size;
        }
        if let Some(size) = surplus_buffer_size {
            self.surplus_buffer_size = size;
        }
        if let Some(amount) = initial_amount_per_debit_auction {
            self.initial_amount_per_debit_auction = amount;
        }
        if let Some(size) = debit_auction_fixed_size {
            self.debit_auction_fixed_size = size;
        }
    }

    /// Sets the largest lot of `currency_id` that goes into one collateral
    /// auction.
    pub fn set_collateral_auction_maximum_size(&mut self, currency_id: CurrencyId, size: Balance)
        ensures
            final(self)@ == (State {
                collateral_auction_maximum_size: old(self)@.collateral_auction_maximum_size.insert(
                    currency_id,
                    size,
                ),
                ..old(self)@
            }),
    {
        self.collateral_auction_maximum_size.insert(currency_id, size);
        assert(self@.collateral_auction_maximum_size
            =~= old(self)@.collateral_auction_maximum_size.insert(currency_id, size));
    }

    /// Adds `amount` to the debit pool, or fails and changes nothing where
    /// the pool would leave the range of `Balance`.
    pub fn on_system_debit(&mut self, amount: Balance) -> (result: Result<(), Error>)
        ensures
            old(self)@.debit_pool + amount <= Balance::MAX ==> {
                &&& result is Ok
                &&& final(self)@ == old(self)@.increase_debit(amount)
            },
            old(self)@.debit_pool + amount > Balance::MAX ==> {
                &&& result == Err::<(), Error>(Error::DebitPoolOverflow)
                &&& final(self)@ == old(self)@
            },
    {
        match self.debit_pool.checked_add(amount) {
            Some(new_debit_pool) => {
                self.debit_pool = new_debit_pool;
                Ok(())
            },
            None => Err(Error::DebitPoolOverflow),
        }
    }

    /// Shuts the system down, for good: from now on no surplus or debit
    /// auction is opened. Nothing else changes.
    pub fn on_emergency_shutdown(&mut self)
        ensures
            final(self)@ == old(self)@.shut_down(),
            final(self)@.is_shutdown,
    {
        self.is_shutdown = true;
    }

    /// What the cycle's netting would burn: the smaller of the two pools.
    pub fn offset_amount(&self) -> (amount: Balance)
        ensures
            amount == self@.offset_amount(),
    {
        if self.debit_pool <= self.surplus_pool {
            self.debit_pool
        } else {
            self.surplus_pool
        }
    }

    /// Books the netting of debit against surplus once the currency system
    /// has answered the request to burn the netted amount.
    pub fn record_offset(&mut self, burn: Result<(), DispatchError>)
        ensures
            final(self)@ == old(self)@.offset_recorded(burn),
            burn is Ok ==> final(self)@.debit_pool == 0 || final(self)@.surplus_pool == 0,
    {
        if burn.is_ok() {
            let offset_amount: Balance = self.offset_amount();
            self.debit_pool = self.debit_pool - offset_amount;
            self.surplus_pool = self.surplus_pool - offset_amount;
        }
    }

    /// Books `amount` of surplus once the currency system has answered the
    /// request to pay it into the treasury's account.
    pub fn record_surplus(&mut self, amount: Balance, paid: Result<(), DispatchError>) -> (result:
        Result<(), Failure>)
        ensures
            final(self)@ == old(self)@.surplus_recorded(amount, paid).0,
            result == old(self)@.surplus_recorded(amount, paid).1,
    {
        match self.surplus_pool.checked_add(amount) {
            None => Err(Failure::Treasury(Error::SurplusPoolOverflow)),
            Some(new_surplus_pool) => match paid {
                Ok(_) => {
                    self.surplus_pool = new_surplus_pool;
                    Ok(())
                },
                Err(refusal) => Err(Failure::Collaborator(refusal)),
            },
        }
    }

    /// Books `debit` of stable currency issued to an account once the currency
    /// system has answered the request to issue it.
    pub fn record_issue(
        &mut self,
        debit: Balance,
        backed: bool,
        issued: Result<(), DispatchError>,
    ) -> (result: Result<(), Failure>)
        ensures
            final(self)@ == old(self)@.issue_recorded(debit, backed, issued).0,
            result == old(self)@.issue_recorded(debit, backed, issued).1,
    {
        if backed {
            match issued {
                Ok(_) => Ok(()),
                Err(refusal) => Err(Failure::Collaborator(refusal)),
            }
        } else {
            match self.debit_pool.checked_add(debit) {
                None => Err(Failure::Treasury(Error::DebitPoolOverflow)),
                Some(new_debit_pool) => match issued {
                    Ok(_) => {
                        self.debit_pool = new_debit_pool;
                        Ok(())
                    },
                    Err(refusal) => Err(Failure::Collaborator(refusal)),
                },
            }
        }
    }

    /// Books `amount` of collateral `currency_id` taken in, once the currency
    /// system has answered the request to move it to the treasury's account.
    pub fn record_collateral_deposit(
        &mut self,
        currency_id: CurrencyId,
        amount: Balance,
        moved: Result<(), DispatchError>,
    ) -> (result: Result<(), Failure>)
        ensures
            final(self)@ == old(self)@.collateral_deposit_recorded(currency_id, amount, moved).0,
            result == old(self)@.collateral_deposit_recorded(currency_id, amount, moved).1,
    {
        match self.total_collaterals(currency_id).checked_add(amount) {
            None => Err(Failure::Treasury(Error::CollateralOverflow)),
            Some(new_total_collateral) => match moved {
                Ok(_) => {
                    self.total_collaterals.insert(currency_id, new_total_collateral);
                    assert(self@.total_collaterals =~= old(self)@.total_collaterals.insert(
                        currency_id,
                        new_total_collateral,
                    ));
                    Ok(())
                },
                Err(refusal) => Err(Failure::Collaborator(refusal)),
            },
        }
    }

    /// Books `amount` of collateral `currency_id` given out, once the currency
    /// system has answered the request to move it out of the treasury's
    /// account.
    pub fn record_collateral_withdrawal(
        &mut self,
        currency_id: CurrencyId,
        amount: Balance,
        moved: Result<(), DispatchError>,
    ) -> (result: Result<(), Failure>)
        ensures
            final(self)@ == old(self)@.collateral_withdrawal_recorded(
                currency_id,
                amount,
                moved,
            ).0,
            result == old(self)@.collateral_withdrawal_recorded(currency_id, amount, moved).1,
    {
        match self.total_collaterals(currency_id).checked_sub(amount) {
            None => Err(Failure::Treasury(Error::CollateralNotEnough)),
            Some(new_total_collateral) => match moved {
                Ok(_) => {
                    self.total_collaterals.insert(currency_id, new_total_collateral);
                    assert(self@.total_collaterals =~= old(self)@.total_collaterals.insert(
                        currency_id,
                        new_total_collateral,
                    ));
                    Ok(())
                },
                Err(refusal) => Err(Failure::Collaborator(refusal)),
            },
        }
    }

    /// Books the swap of `supply_amount` of collateral `currency_id` for
    /// stable currency once the exchange has answered with what it paid.
    pub fn record_swap(
        &mut self,
        currency_id: CurrencyId,
        supply_amount: Balance,
        exchanged: Result<Balance, DispatchError>,
    ) -> (result: Result<Balance, Failure>)
        ensures
            final(self)@ == old(self)@.swap_recorded(currency_id, supply_amount, exchanged).0,
            result == old(self)@.swap_recorded(currency_id, supply_amount, exchanged).1,
    {
        let total_collateral: Balance = self.total_collaterals(currency_id);
        if total_collateral < supply_amount {
            return Err(Failure::Treasury(Error::CollateralNotEnough));
        }
        match exchanged {
            Err(refusal) => Err(Failure::Collaborator(refusal)),
            Ok(received) => match self.surplus_pool.checked_add(received) {
                None => Err(Failure::Treasury(Error::SurplusPoolOverflow)),
                Some(new_surplus_pool) => {
                    let new_total_collateral: Balance = total_collateral - supply_amount;
                    self.surplus_pool = new_surplus_pool;
                    self.total_collaterals.insert(currency_id, new_total_collateral);
                    assert(self@.total_collaterals =~= old(self)@.total_collaterals.insert(
                        currency_id,
                        new_total_collateral,
                    ));
                    Ok(received)
                },
            },
        }
    }
}

} // verus!
