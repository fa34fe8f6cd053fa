use crate::ledger::{Module, State};
use crate::types::{Balance, CurrencyId, Lot};
use vstd::arithmetic::div_mod::lemma_fundamental_div_mod;
use vstd::arithmetic::mul::{lemma_mul_inequality, lemma_mul_is_distributive_add_other_way};
use vstd::prelude::*;

verus! {

/// `amount / size`, rounded up.
pub open spec fn ceil_div(amount: nat, size: nat) -> nat
    recommends
        size > 0,
{
    if amount % size == 0 {
        amount / size
    } else {
        amount / size + 1
    }
}

/// The number of lots that a collateral amount is split into.
///
/// One lot where splitting is switched off (no cap on the number of auctions,
/// no maximum lot size) or the amount fits into one lot; otherwise as many
/// lots of at most `maximum_size` as the amount needs, but no more than
/// `max_auctions_count`.
pub open spec fn lots_count(amount: nat, maximum_size: nat, max_auctions_count: nat) -> nat {
    if max_auctions_count == 0 || maximum_size == 0 || amount <= maximum_size {
        1
    } else if ceil_div(amount, maximum_size) <= max_auctions_count {
        ceil_div(amount, maximum_size)
    } else {
        max_auctions_count
    }
}

/// The lot at position `i` of `count` lots: every lot but the last gets the
/// rounded-down average, the last one gets what is then left.
pub open spec fn lot_at(amount: nat, target: nat, count: nat, i: int) -> Lot
    recommends
        count > 0,
        0 <= i < count,
{
    if i + 1 < count {
        Lot { amount: (amount / count) as Balance, target: (target / count) as Balance }
    } else {
        Lot {
            amount: (amount - (count - 1) * (amount / count)) as Balance,
            target: (target - (count - 1) * (target / count)) as Balance,
        }
    }
}

/// The lots that `amount` of collateral, meant to raise `target`, is split
/// into. Nothing is auctioned of an amount of zero.
pub open spec fn lots(
    amount: Balance,
    target: Balance,
    maximum_size: Balance,
    max_auctions_count: u32,
) -> Seq<Lot> {
    if amount == 0 {
        Seq::empty()
    } else {
        let count = lots_count(amount as nat, maximum_size as nat, max_auctions_count as nat);
        Seq::new(count, |i: int| lot_at(amount as nat, target as nat, count, i))
    }
}

/// The collateral of all `lots` together.
pub open spec fn total_amount(lots: Seq<Lot>) -> int
    decreases lots.len(),
{
    if lots.len() == 0 {
        0
    } else {
        total_amount(lots.drop_last()) + lots.last().amount
    }
}

/// The target of all `lots` together.
pub open spec fn total_target(lots: Seq<Lot>) -> int
    decreases lots.len(),
{
    if lots.len() == 0 {
        0
    } else {
        total_target(lots.drop_last()) + lots.last().target
    }
}

/// `count` times the rounded-down average of `value` does not exceed `value`.
proof fn lemma_average_fits(value: nat, count: nat, k: nat)
    requires
        count > 0,
        k <= count,
    ensures
        k * (value / count) <= value,
{
    let average = value / count;
    lemma_fundamental_div_mod(value as int, count as int);
    lemma_mul_inequality(k as int, count as int, average as int);
}

/// An amount that does not fit into one lot needs no more lots than it has units.
proof fn lemma_ceil_div_le_amount(amount: nat, size: nat)
    requires
        0 < size < amount,
    ensures
        1 <= ceil_div(amount, size) <= amount,
{
    let quotient = amount / size;
    lemma_fundamental_div_mod(amount as int, size as int);
    if amount % size != 0 {
        assert(size != 1);
        lemma_mul_inequality(2, size as int, quotient as int);
    } else {
        assert(quotient >= 1) by (nonlinear_arith)
            requires
                0 < size < amount,
                amount == size * quotient,
        ;
    }
}

/// The number of lots lies between one and the amount.
pub proof fn lemma_lots_count_bounds(amount: nat, maximum_size: nat, max_auctions_count: nat)
    requires
        amount > 0,
    ensures
        1 <= lots_count(amount, maximum_size, max_auctions_count) <= amount,
        max_auctions_count != 0 ==> lots_count(amount, maximum_size, max_auctions_count)
            <= max_auctions_count,
        max_auctions_count != 0 && maximum_size != 0 ==> lots_count(
            amount,
            maximum_size,
            max_auctions_count,
        ) <= ceil_div(amount, maximum_size),
{
    if max_auctions_count == 0 || maximum_size == 0 {
    } else if amount <= maximum_size {
        if amount == maximum_size {
            assert(amount % maximum_size == 0) by (nonlinear_arith)
                requires
                    amount == maximum_size,
                    maximum_size > 0,
            ;
            assert(amount / maximum_size == 1) by (nonlinear_arith)
                requires
                    amount == maximum_size,
                    maximum_size > 0,
            ;
        } else {
            assert(amount % maximum_size == amount) by (nonlinear_arith)
                requires
                    0 < amount < maximum_size,
            ;
        }
    } else {
        lemma_ceil_div_le_amount(amount, maximum_size);
    }
}

/// The first `k` of a run of equal lots add up to `k` times one of them.
proof fn lemma_equal_lots_total(lots: Seq<Lot>, k: int, each: Lot)
    requires
        0 <= k <= lots.len(),
        forall|i: int| 0 <= i < k ==> lots[i] == each,
    ensures
        total_amount(lots.take(k)) == k * each.amount,
        total_target(lots.take(k)) == k * each.target,
    decreases k,
{
    if k == 0 {
    } else {
        lemma_equal_lots_total(lots, k - 1, each);
        assert(lots.take(k).drop_last() =~= lots.take(k - 1));
        lemma_mul_is_distributive_add_other_way(each.amount as int, k - 1, 1);
        lemma_mul_is_distributive_add_other_way(each.target as int, k - 1, 1);
    }
}

/// The lots of a split cover the amount and the target exactly, without
/// remainder, and their number keeps within its bounds: at least one lot, and
/// where both a cap and a maximum lot size are set, no more than the cap and
/// no more than the amount needs.
pub proof fn lemma_lots_cover(
    amount: Balance,
    target: Balance,
    maximum_size: Balance,
    max_auctions_count: u32,
)
    requires
        amount > 0,
    ensures
        total_amount(lots(amount, target, maximum_size, max_auctions_count)) == amount,
        total_target(lots(amount, target, maximum_size, max_auctions_count)) == target,
        lots(amount, target, maximum_size, max_auctions_count).len() >= 1,
        max_auctions_count != 0 && maximum_size != 0 ==> lots(
            amount,
            target,
            maximum_size,
            max_auctions_count,
        ).len() <= vstd::math::min(
            ceil_div(amount as nat, maximum_size as nat) as int,
            max_auctions_count as int,
        ),
{
    let count = lots_count(amount as nat, maximum_size as nat, max_auctions_count as nat);
    let all = lots(amount, target, maximum_size, max_auctions_count);
    lemma_lots_count_bounds(amount as nat, maximum_size as nat, max_auctions_count as nat);
    let each = Lot {
        amount: (amount as nat / count) as Balance,
        target: (target as nat / count) as Balance,
    };
    lemma_average_fits(amount as nat, count, (count - 1) as nat);
    lemma_average_fits(target as nat, count, (count - 1) as nat);
    lemma_equal_lots_total(all, count - 1, each);
}

/// Counts the lots that `amount` of collateral is split into.
pub fn count_lots(amount: Balance, maximum_size: Balance, max_auctions_count: u32) -> (count:
    Balance)
    ensures
        count == lots_count(amount as nat, maximum_size as nat, max_auctions_count as nat),
{
    let cap: Balance = max_auctions_count as Balance;
    if cap == 0 || maximum_size == 0 || amount <= maximum_size {
        1
    } else {
        proof {
            lemma_ceil_div_le_amount(amount as nat, maximum_size as nat);
        }
        let mut count: Balance = amount / maximum_size;
        if amount % maximum_size != 0 {
            count = count + 1;
        }
        if count <= cap {
            count
        } else {
            cap
        }
    }
}

/// Splits `amount` of collateral, meant to raise `target`, into lots.
///
/// Every lot but the last holds the rounded-down average of amount and target;
/// the last lot takes what is left of both, so that nothing is lost to
/// rounding.
pub fn split_lots(
    amount: Balance,
    target: Balance,
    maximum_size: Balance,
    max_auctions_count: u32,
) -> (result: Vec<Lot>)
    ensures
        result@ == lots(amount, target, maximum_size, max_auctions_count),
        amount > 0 ==> total_amount(result@) == amount && total_target(result@) == target,
{
    let mut result: Vec<Lot> = Vec::new();
    if amount == 0 {
        return result;
    }
    let count: Balance = count_lots(amount, maximum_size, max_auctions_count);
    proof {
        lemma_lots_count_bounds(amount as nat, maximum_size as nat, max_auctions_count as nat);
        lemma_lots_cover(amount, target, maximum_size, max_auctions_count);
    }
    let average_amount: Balance = amount / count;
    let average_target: Balance = target / count;
    let mut unhandled_amount: Balance = amount;
    let mut unhandled_target: Balance = target;
    let mut created: Balance = 0;
    while unhandled_amount != 0
        invariant
            1 <= count <= amount,
            average_amount == amount / count,
            average_target == target / count,
            created <= count,
            result@.len() == created,
            forall|i: int|
                0 <= i < created ==> result@[i] == lot_at(
                    amount as nat,
                    target as nat,
                    count as nat,
                    i,
                ),
            created < count ==> unhandled_amount == amount - created * average_amount,
            created < count ==> unhandled_target == target - created * average_target,
            created == count ==> unhandled_amount == 0,
        decreases count - created,
    {
        proof {
            lemma_average_fits(amount as nat, count as nat, (created + 1) as nat);
            lemma_average_fits(target as nat, count as nat, (created + 1) as nat);
            lemma_mul_is_distributive_add_other_way(average_amount as int, created as int, 1);
            lemma_mul_is_distributive_add_other_way(average_target as int, created as int, 1);
        }
        created = created + 1;
        let lot = if created == count {
            // the last lot takes what rounding left over
            Lot { amount: unhandled_amount, target: unhandled_target }
        } else {
            Lot { amount: average_amount, target: average_target }
        };
        result.push(lot);
        unhandled_amount = unhandled_amount - lot.amount;
        unhandled_target = unhandled_target - lot.target;
    }
    proof {
        if created < count {
            lemma_average_fits(amount as nat, count as nat, (created + 1) as nat);
            lemma_mul_is_distributive_add_other_way(average_amount as int, created as int, 1);
            assert(average_amount >= 1) by (nonlinear_arith)
                requires
                    1 <= count <= amount,
                    average_amount == amount / count,
            ;
        }
    }
    result
}

impl State {
    /// Whether `amount` of collateral `currency_id` can go to auction while
    /// `total_collateral_in_auction` of it is in running auctions: there is
    /// something to sell, and the treasury holds it on top of what is being
    /// sold already.
    pub open spec fn can_auction(
        self,
        currency_id: CurrencyId,
        amount: Balance,
        total_collateral_in_auction: Balance,
    ) -> bool {
        amount != 0 && self.collateral(currency_id) >= amount + total_collateral_in_auction
    }

    /// The lots in which `amount` of collateral `currency_id` goes to
    /// auction: none where it cannot, otherwise the split by the maximum lot
    /// size of that collateral and the cap on auctions.
    pub open spec fn collateral_lots(
        self,
        currency_id: CurrencyId,
        amount: Balance,
        target: Balance,
        total_collateral_in_auction: Balance,
    ) -> Seq<Lot> {
        if self.can_auction(currency_id, amount, total_collateral_in_auction) {
            lots(amount, target, self.maximum_size(currency_id), self.max_auctions_count)
        } else {
            Seq::empty()
        }
    }
}

impl Module {
    /// Splits `amount` of seized collateral `currency_id`, meant to raise
    /// `target`, into the lots that go to auction, given the collateral of
    /// that kind in running auctions. The ledger stays as it is.
    pub fn collateral_lots(
        &self,
        currency_id: CurrencyId,
        amount: Balance,
        target: Balance,
        total_collateral_in_auction: Balance,
    ) -> (result: Vec<Lot>)
        ensures
            result@ == self@.collateral_lots(
                currency_id,
                amount,
                target,
                total_collateral_in_auction,
            ),
            result@.len() > 0 ==> total_amount(result@) == amount && total_target(result@)
                == target,
    {
        let needed: Option<Balance> = amount.checked_add(total_collateral_in_auction);
        let covered: bool = match needed {
            Some(sum) => self.total_collaterals(currency_id) >= sum,
            None => false,
        };
        if amount != 0 && covered {
            split_lots(
                amount,
                target,
                self.collateral_auction_maximum_size(currency_id),
                self.max_auctions_count(),
            )
        } else {
            Vec::new()
        }
    }
}

} // verus!
