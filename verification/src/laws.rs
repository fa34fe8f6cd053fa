use crate::collaborators::{Event, Failure};
use crate::ledger::State;
use crate::scheduler::lemma_auctions_due_bounds;
use crate::types::{Balance, CurrencyId};
use sp_runtime::DispatchError;
use vstd::prelude::*;

verus! {

/// Netting leaves at least one of the two pools empty where the burn went
/// through, taking the same amount off both and touching nothing else; where
/// the burn was refused it leaves everything as it was.
pub proof fn lemma_offset_empties_a_pool(state: State, burn: Result<(), DispatchError>)
    ensures
        burn is Ok ==> {
            let after = state.offset_recorded(burn);
            &&& after.debit_pool == 0 || after.surplus_pool == 0
            &&& after.offset_amount() == 0
            &&& state.debit_pool - after.debit_pool == state.surplus_pool - after.surplus_pool
            &&& after == (State {
                debit_pool: after.debit_pool,
                surplus_pool: after.surplus_pool,
                ..state
            })
        },
        burn is Err ==> state.offset_recorded(burn) == state,
{
}

/// Taking in `amount` of a collateral and giving the same amount out again
/// restores the treasury, for every amount that the total of that collateral
/// still has room for, where the currency system grants both transfers.
pub proof fn lemma_deposit_then_withdraw_restores(
    state: State,
    currency_id: CurrencyId,
    amount: Balance,
)
    requires
        state.wf(),
        state.collateral(currency_id) + amount <= Balance::MAX,
    ensures
        ({
            let taken_in = state.collateral_deposit_recorded(currency_id, amount, Ok(()));
            let given_out = taken_in.0.collateral_withdrawal_recorded(currency_id, amount, Ok(()));
            &&& taken_in.1 == Ok::<(), Failure>(())
            &&& taken_in.0 == state.deposit_collateral(currency_id, amount)
            &&& given_out.1 == Ok::<(), Failure>(())
            &&& given_out.0 == state
        }),
        state.deposit_collateral(currency_id, amount).withdraw_collateral(currency_id, amount)
            == state,
{
}

/// Shutting down twice is the same as shutting down once: the flag stays
/// set, and nothing but the flag has changed.
pub proof fn lemma_shutdown_idempotent(state: State)
    ensures
        state.shut_down().is_shutdown,
        state.shut_down().shut_down() == state.shut_down(),
        state.shut_down() == (State { is_shutdown: true, ..state }),
{
}

/// No operation of the ledger lifts a shutdown.
pub proof fn lemma_shutdown_is_kept(
    state: State,
    currency_id: CurrencyId,
    amount: Balance,
    received: Balance,
)
    requires
        state.is_shutdown,
    ensures
        state.shut_down() == state,
        state.increase_debit(amount).is_shutdown,
        state.increase_surplus(amount).is_shutdown,
        state.deposit_collateral(currency_id, amount).is_shutdown,
        state.withdraw_collateral(currency_id, amount).is_shutdown,
        state.swap(currency_id, amount, received).is_shutdown,
        state.offset().is_shutdown,
{
}

/// After a shutdown no surplus auction and no debit auction is due, and the
/// end of a cycle asks nothing of the auction manager, whatever the pools hold
/// and whatever is in running auctions.
pub proof fn lemma_no_auctions_after_shutdown(
    state: State,
    created: Balance,
    total_surplus_in_auction: Balance,
    total_debit_in_auction: Balance,
    total_target_in_auction: Balance,
)
    requires
        state.is_shutdown,
    ensures
        state.surplus_auctions_due(total_surplus_in_auction) == 0,
        state.debit_auctions_due(created, total_debit_in_auction, total_target_in_auction) == 0,
        state.cycle_events(
            total_surplus_in_auction,
            total_debit_in_auction,
            total_target_in_auction,
        ) == Seq::<Event>::empty(),
{
}

/// Under a cap, the surplus auctions and the debit auctions of one cycle
/// together keep within it; and the auctions of either kind never take more
/// out of their pool than it holds.
pub proof fn lemma_cycle_keeps_within_cap(
    state: State,
    total_surplus_in_auction: Balance,
    total_debit_in_auction: Balance,
    total_target_in_auction: Balance,
)
    ensures
        ({
            let surplus_auctions = state.surplus_auctions_due(total_surplus_in_auction);
            let debit_auctions = state.debit_auctions_due(
                surplus_auctions as Balance,
                total_debit_in_auction,
                total_target_in_auction,
            );
            &&& 0 <= surplus_auctions
            &&& 0 <= debit_auctions
            &&& surplus_auctions * state.surplus_auction_fixed_size <= state.surplus_pool
            &&& debit_auctions * state.debit_auction_fixed_size <= state.debit_pool
            &&& state.max_auctions_count != 0 ==> surplus_auctions + debit_auctions
                <= state.max_auctions_count
        }),
{
    let surplus_auctions = state.surplus_auctions_due(total_surplus_in_auction);
    lemma_auctions_due_bounds(
        state.surplus_pool as int,
        total_surplus_in_auction + state.surplus_buffer_size,
        state.surplus_auction_fixed_size as int,
        state.max_auctions_count as int,
        0,
    );
    lemma_auctions_due_bounds(
        state.debit_pool as int,
        total_debit_in_auction + total_target_in_auction,
        state.debit_auction_fixed_size as int,
        state.max_auctions_count as int,
        surplus_auctions,
    );
    if state.surplus_auction_fixed_size > 0 {
        assert(surplus_auctions <= state.surplus_pool) by (nonlinear_arith)
            requires
                0 <= surplus_auctions,
                surplus_auctions * state.surplus_auction_fixed_size <= state.surplus_pool,
                state.surplus_auction_fixed_size >= 1,
        ;
    }
}

} // verus!
