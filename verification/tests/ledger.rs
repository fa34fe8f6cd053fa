use cdp_treasury::{Config, Error, Failure, Module};
use sp_runtime::DispatchError;

fn treasury() -> Module {
    Module::new(Config { module_id: *b"aca/cdpt", stable_currency_id: 1, max_auctions_count: 3 })
}

#[test]
fn new_treasury_is_empty() {
    let treasury = treasury();
    assert_eq!(treasury.debit_pool(), 0);
    assert_eq!(treasury.surplus_pool(), 0);
    assert_eq!(treasury.total_collaterals(2), 0);
    assert_eq!(treasury.collateral_auction_maximum_size(2), 0);
    assert_eq!(treasury.surplus_auction_fixed_size(), 0);
    assert_eq!(treasury.surplus_buffer_size(), 0);
    assert_eq!(treasury.initial_amount_per_debit_auction(), 0);
    assert_eq!(treasury.debit_auction_fixed_size(), 0);
    assert_eq!(treasury.stable_currency_id(), 1);
    assert_eq!(treasury.max_auctions_count(), 3);
    assert!(!treasury.is_shutdown());
}

#[test]
fn account_is_derived_from_module_id() {
    let account = treasury().account_id();
    let mut expected = [0u8; 32];
    expected[..4].copy_from_slice(b"modl");
    expected[4..12].copy_from_slice(b"aca/cdpt");
    assert_eq!(account, expected);
    let other = Module::new(Config {
        module_id: [1, 2, 3, 4, 5, 6, 7, 8],
        stable_currency_id: 1,
        max_auctions_count: 0,
    });
    assert_eq!(
        other.account_id(),
        [
            0x6d, 0x6f, 0x64, 0x6c, 1, 2, 3, 4, 5, 6, 7, 8, 0, 0, 0, 0, 0, 0, 0, 0, 0, 0, 0, 0, 0,
            0, 0, 0, 0, 0, 0, 0
        ]
    );
}

#[test]
fn debit_pool_grows() {
    let mut treasury = treasury();
    assert_eq!(treasury.on_system_debit(1000), Ok(()));
    assert_eq!(treasury.debit_pool(), 1000);
    assert_eq!(treasury.get_debit_pool(), 1000);
    assert_eq!(treasury.on_system_debit(0), Ok(()));
    assert_eq!(treasury.debit_pool(), 1000);
}

#[test]
fn debit_pool_overflow_changes_nothing() {
    let mut treasury = treasury();
    treasury.on_system_debit(1).unwrap();
    assert_eq!(treasury.on_system_debit(u128::MAX), Err(Error::DebitPoolOverflow));
    assert_eq!(treasury.debit_pool(), 1);
    assert_eq!(treasury.on_system_debit(u128::MAX - 1), Ok(()));
    assert_eq!(treasury.debit_pool(), u128::MAX);
}

#[test]
fn shutdown_twice_is_shutdown_once() {
    let mut treasury = treasury();
    treasury.on_system_debit(7).unwrap();
    treasury.on_emergency_shutdown();
    assert!(treasury.is_shutdown());
    treasury.on_emergency_shutdown();
    assert!(treasury.is_shutdown());
    assert_eq!(treasury.debit_pool(), 7);
    assert_eq!(treasury.surplus_pool(), 0);
    // the ledger keeps working
    assert_eq!(treasury.on_system_debit(3), Ok(()));
    assert_eq!(treasury.debit_pool(), 10);
    assert!(treasury.is_shutdown());
}

#[test]
fn parameters_are_set_one_by_one() {
    let mut treasury = treasury();
    treasury.set_debit_and_surplus_handle_params(Some(1), Some(2), Some(3), Some(4));
    assert_eq!(treasury.surplus_auction_fixed_size(), 1);
    assert_eq!(treasury.surplus_buffer_size(), 2);
    assert_eq!(treasury.initial_amount_per_debit_auction(), 3);
    assert_eq!(treasury.debit_auction_fixed_size(), 4);
    treasury.set_debit_and_surplus_handle_params(None, Some(20), None, None);
    assert_eq!(treasury.surplus_auction_fixed_size(), 1);
    assert_eq!(treasury.surplus_buffer_size(), 20);
    assert_eq!(treasury.initial_amount_per_debit_auction(), 3);
    assert_eq!(treasury.debit_auction_fixed_size(), 4);
    treasury.set_collateral_auction_maximum_size(5, 10);
    treasury.set_collateral_auction_maximum_size(6, 11);
    treasury.set_collateral_auction_maximum_size(5, 12);
    assert_eq!(treasury.collateral_auction_maximum_size(5), 12);
    assert_eq!(treasury.collateral_auction_maximum_size(6), 11);
    assert_eq!(treasury.collateral_auction_maximum_size(7), 0);
}

#[test]
fn recorded_surplus_follows_the_answer() {
    let mut treasury = treasury();
    assert_eq!(treasury.record_surplus(10, Ok(())), Ok(()));
    assert_eq!(treasury.surplus_pool(), 10);
    let refusal = DispatchError::Other("no");
    assert_eq!(treasury.record_surplus(10, Err(refusal)), Err(Failure::Collaborator(refusal)));
    assert_eq!(treasury.surplus_pool(), 10);
    assert_eq!(
        treasury.record_surplus(u128::MAX, Ok(())),
        Err(Failure::Treasury(Error::SurplusPoolOverflow))
    );
    assert_eq!(
        treasury.record_surplus(u128::MAX, Err(refusal)),
        Err(Failure::Treasury(Error::SurplusPoolOverflow))
    );
    assert_eq!(treasury.surplus_pool(), 10);
}

#[test]
fn recorded_issue_counts_unbacked_debit_only() {
    let mut treasury = treasury();
    assert_eq!(treasury.record_issue(10, true, Ok(())), Ok(()));
    assert_eq!(treasury.debit_pool(), 0);
    assert_eq!(treasury.record_issue(10, false, Ok(())), Ok(()));
    assert_eq!(treasury.debit_pool(), 10);
    assert_eq!(treasury.record_issue(u128::MAX, true, Ok(())), Ok(()));
    assert_eq!(
        treasury.record_issue(u128::MAX, false, Ok(())),
        Err(Failure::Treasury(Error::DebitPoolOverflow))
    );
    let refusal = DispatchError::BadOrigin;
    assert_eq!(treasury.record_issue(1, false, Err(refusal)), Err(Failure::Collaborator(refusal)));
    assert_eq!(treasury.record_issue(1, true, Err(refusal)), Err(Failure::Collaborator(refusal)));
    assert_eq!(treasury.debit_pool(), 10);
}

#[test]
fn recorded_collateral_goes_in_and_out() {
    let mut treasury = treasury();
    assert_eq!(treasury.record_collateral_deposit(2, 500, Ok(())), Ok(()));
    assert_eq!(treasury.record_collateral_deposit(3, 7, Ok(())), Ok(()));
    assert_eq!(treasury.total_collaterals(2), 500);
    assert_eq!(treasury.get_total_collaterals(3), 7);
    assert_eq!(
        treasury.record_collateral_deposit(2, u128::MAX - 499, Ok(())),
        Err(Failure::Treasury(Error::CollateralOverflow))
    );
    assert_eq!(
        treasury.record_collateral_withdrawal(2, 501, Ok(())),
        Err(Failure::Treasury(Error::CollateralNotEnough))
    );
    let refusal = DispatchError::CannotLookup;
    assert_eq!(
        treasury.record_collateral_withdrawal(2, 500, Err(refusal)),
        Err(Failure::Collaborator(refusal))
    );
    assert_eq!(
        treasury.record_collateral_deposit(2, 1, Err(refusal)),
        Err(Failure::Collaborator(refusal))
    );
    assert_eq!(treasury.total_collaterals(2), 500);
    assert_eq!(treasury.record_collateral_withdrawal(2, 500, Ok(())), Ok(()));
    assert_eq!(treasury.total_collaterals(2), 0);
    assert_eq!(treasury.total_collaterals(3), 7);
}

#[test]
fn deposit_then_withdrawal_restores_the_total() {
    for before in [0u128, 1, 999, u128::MAX - 5] {
        for amount in [0u128, 1, 5] {
            let mut treasury = treasury();
            treasury.record_collateral_deposit(2, before, Ok(())).unwrap();
            treasury.record_collateral_deposit(3, 11, Ok(())).unwrap();
            treasury.record_collateral_deposit(2, amount, Ok(())).unwrap();
            treasury.record_collateral_withdrawal(2, amount, Ok(())).unwrap();
            assert_eq!(treasury.total_collaterals(2), before);
            assert_eq!(treasury.total_collaterals(3), 11);
        }
    }
}

#[test]
fn recorded_swap_moves_collateral_into_surplus() {
    let mut treasury = treasury();
    treasury.record_collateral_deposit(2, 500, Ok(())).unwrap();
    assert_eq!(treasury.record_swap(2, 200, Ok(1000)), Ok(1000));
    assert_eq!(treasury.total_collaterals(2), 300);
    assert_eq!(treasury.surplus_pool(), 1000);
    assert_eq!(
        treasury.record_swap(2, 301, Ok(1)),
        Err(Failure::Treasury(Error::CollateralNotEnough))
    );
    assert_eq!(
        treasury.record_swap(2, 300, Ok(u128::MAX - 999)),
        Err(Failure::Treasury(Error::SurplusPoolOverflow))
    );
    let refusal = DispatchError::Other("slippage");
    assert_eq!(treasury.record_swap(2, 300, Err(refusal)), Err(Failure::Collaborator(refusal)));
    assert_eq!(treasury.total_collaterals(2), 300);
    assert_eq!(treasury.surplus_pool(), 1000);
    assert_eq!(treasury.record_swap(2, 300, Ok(u128::MAX - 1000)), Ok(u128::MAX - 1000));
    assert_eq!(treasury.total_collaterals(2), 0);
    assert_eq!(treasury.get_surplus_pool(), u128::MAX);
}

#[test]
fn recorded_offset_follows_the_burn() {
    let mut treasury = treasury();
    treasury.on_system_debit(1000).unwrap();
    treasury.record_surplus(300, Ok(())).unwrap();
    assert_eq!(treasury.offset_amount(), 300);
    treasury.record_offset(Err(DispatchError::Other("burn refused")));
    assert_eq!((treasury.debit_pool(), treasury.surplus_pool()), (1000, 300));
    treasury.record_offset(Ok(()));
    assert_eq!((treasury.debit_pool(), treasury.surplus_pool()), (700, 0));
    assert_eq!(treasury.offset_amount(), 0);
    treasury.record_surplus(900, Ok(())).unwrap();
    treasury.record_offset(Ok(()));
    assert_eq!((treasury.debit_pool(), treasury.surplus_pool()), (0, 200));
}
