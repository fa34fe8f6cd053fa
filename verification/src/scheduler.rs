use crate::ledger::{Module, State};
use crate::types::Balance;
use vstd::arithmetic::div_mod::lemma_fundamental_div_mod;
use vstd::arithmetic::mul::lemma_mul_is_distributive_add_other_way;
use vstd::prelude::*;

verus! {

/// The number of auctions of `fixed_size` that `pool` can fund once
/// `held_back` is set aside: every auction takes `fixed_size` out of the
/// pool, and one more is opened as long as the pool still holds `held_back`
/// and a whole `fixed_size` on top of it.
pub open spec fn auctions_affordable(pool: int, held_back: int, fixed_size: int) -> int {
    if fixed_size > 0 && pool >= held_back {
        (pool - held_back) / fixed_size
    } else {
        0
    }
}

/// The number of auctions to open in one phase of a cycle: as many as the
/// pool can fund, but, where `max_auctions_count` is not zero, no more than
/// the cap leaves after the `created` auctions of the same cycle.
pub open spec fn auctions_due(
    pool: int,
    held_back: int,
    fixed_size: int,
    max_auctions_count: int,
    created: int,
) -> int {
    let affordable = auctions_affordable(pool, held_back, fixed_size);
    if max_auctions_count == 0 {
        affordable
    } else if created >= max_auctions_count {
        0
    } else if affordable <= max_auctions_count - created {
        affordable
    } else {
        max_auctions_count - created
    }
}

/// `k` whole sizes fit into `room` exactly when `k` is at most `room / size`.
proof fn lemma_fits_iff_at_most_quotient(k: int, room: int, size: int)
    requires
        size > 0,
        room >= 0,
        k >= 0,
    ensures
        k * size <= room <==> k <= room / size,
{
    let quotient = room / size;
    lemma_fundamental_div_mod(room, size);
    if k <= quotient {
        assert(k * size <= quotient * size) by (nonlinear_arith)
            requires
                0 <= k <= quotient,
                size > 0,
        ;
    } else {
        assert(k * size >= (quotient + 1) * size) by (nonlinear_arith)
            requires
                k >= quotient + 1,
                size > 0,
        ;
        assert((quotient + 1) * size == size * quotient + size) by (nonlinear_arith);
    }
}

/// The number of auctions due never exceeds what the pool can fund, nor,
/// under a cap, what the cap leaves.
pub proof fn lemma_auctions_due_bounds(
    pool: int,
    held_back: int,
    fixed_size: int,
    max_auctions_count: int,
    created: int,
)
    requires
        0 <= pool,
        0 <= held_back,
        0 <= created,
        0 <= max_auctions_count,
    ensures
        0 <= auctions_due(pool, held_back, fixed_size, max_auctions_count, created),
        auctions_due(pool, held_back, fixed_size, max_auctions_count, created)
            <= auctions_affordable(pool, held_back, fixed_size),
        auctions_due(pool, held_back, fixed_size, max_auctions_count, created) * fixed_size
            <= pool,
        max_auctions_count != 0 ==> created + auctions_due(
            pool,
            held_back,
            fixed_size,
            max_auctions_count,
            created,
        ) <= vstd::math::max(created, max_auctions_count),
{
    let affordable = auctions_affordable(pool, held_back, fixed_size);
    let due = auctions_due(pool, held_back, fixed_size, max_auctions_count, created);
    if fixed_size > 0 && pool >= held_back {
        lemma_fits_iff_at_most_quotient(affordable, pool - held_back, fixed_size);
        assert(affordable >= 0) by (nonlinear_arith)
            requires
                affordable == (pool - held_back) / fixed_size,
                pool - held_back >= 0,
                fixed_size > 0,
        ;
        assert(due * fixed_size <= affordable * fixed_size) by (nonlinear_arith)
            requires
                0 <= due <= affordable,
                fixed_size > 0,
        ;
    } else {
        assert(due * fixed_size == 0) by (nonlinear_arith)
            requires
                due == 0,
        ;
    }
}

/// The count of auctions due is the count of this loop: one more auction is
/// opened while what is left of the pool covers what is held back and a whole
/// `fixed_size`, and while the cap, if there is one, is not reached. So each
/// of the auctions due finds the pool sufficient after `k` earlier ones, and
/// unless the cap stopped the count, one more auction would not.
pub proof fn lemma_auctions_due_counts_the_loop(
    pool: int,
    held_back: int,
    fixed_size: int,
    max_auctions_count: int,
    created: int,
    k: int,
)
    requires
        0 <= pool,
        0 <= held_back,
        0 < fixed_size,
        0 <= created,
        0 <= max_auctions_count,
    ensures
        0 <= k < auctions_due(pool, held_back, fixed_size, max_auctions_count, created) ==> pool
            - k * fixed_size >= held_back + fixed_size,
        max_auctions_count == 0 || created + auctions_due(
            pool,
            held_back,
            fixed_size,
            max_auctions_count,
            created,
        ) < max_auctions_count ==> pool - auctions_due(
            pool,
            held_back,
            fixed_size,
            max_auctions_count,
            created,
        ) * fixed_size < held_back + fixed_size,
{
    let due = auctions_due(pool, held_back, fixed_size, max_auctions_count, created);
    if pool >= held_back {
        if 0 <= k < due {
            lemma_fits_iff_at_most_quotient(k + 1, pool - held_back, fixed_size);
            lemma_mul_is_distributive_add_other_way(fixed_size, k, 1);
        }
        lemma_fits_iff_at_most_quotient(due + 1, pool - held_back, fixed_size);
        lemma_mul_is_distributive_add_other_way(fixed_size, due, 1);
    } else {
        assert(due * fixed_size == 0) by (nonlinear_arith)
            requires
                due == 0,
        ;
    }
}

/// Counts the auctions to open in one phase of a cycle.
///
/// `pool` is what the treasury holds, `in_auction` and `reserve` what is held
/// back (sums already committed to running auctions, and the buffer that stays
/// in the pool), `fixed_size` the size of one auction, `created` the auctions
/// that the cycle has opened before.
pub fn count_auctions(
    pool: Balance,
    in_auction: Balance,
    reserve: Balance,
    fixed_size: Balance,
    max_auctions_count: u32,
    created: Balance,
) -> (count: Balance)
    ensures
        count == auctions_due(
            pool as int,
            in_auction + reserve,
            fixed_size as int,
            max_auctions_count as int,
            created as int,
        ),
{
    if fixed_size == 0 {
        return 0;
    }
    let held_back: Balance = match in_auction.checked_add(reserve) {
        Some(sum) => sum,
        None => {
            return 0;
        },
    };
    if pool < held_back {
        return 0;
    }
    let affordable: Balance = (pool - held_back) / fixed_size;
    let cap: Balance = max_auctions_count as Balance;
    if cap == 0 {
        affordable
    } else if created >= cap {
        0
    } else if affordable <= cap - created {
        affordable
    } else {
        cap - created
    }
}

impl State {
    /// The number of surplus auctions to open this cycle, given the stable
    /// currency that running surplus auctions already offer: none after a
    /// shutdown, none while the size of a surplus auction is zero, otherwise
    /// what the surplus pool funds above that sum and the buffer, within the
    /// cap.
    pub open spec fn surplus_auctions_due(self, total_surplus_in_auction: Balance) -> int {
        if self.is_shutdown {
            0
        } else {
            auctions_due(
                self.surplus_pool as int,
                total_surplus_in_auction + self.surplus_buffer_size,
                self.surplus_auction_fixed_size as int,
                self.max_auctions_count as int,
                0,
            )
        }
    }

    /// The number of debit auctions to open this cycle after `created`
    /// surplus auctions, given what running debit auctions are meant to raise
    /// and what running collateral auctions are meant to raise: none after a
    /// shutdown, none while either parameter of a debit auction is zero,
    /// otherwise what the debit pool calls for above those two sums, within
    /// what the cap leaves.
    pub open spec fn debit_auctions_due(
        self,
        created: Balance,
        total_debit_in_auction: Balance,
        total_target_in_auction: Balance,
    ) -> int {
        if self.is_shutdown || self.initial_amount_per_debit_auction == 0 {
            0
        } else {
            auctions_due(
                self.debit_pool as int,
                total_debit_in_auction + total_target_in_auction,
                self.debit_auction_fixed_size as int,
                self.max_auctions_count as int,
                created as int,
            )
        }
    }
}

impl Module {
    /// Counts the surplus auctions to open this cycle, given the stable
    /// currency that running surplus auctions already offer.
    pub fn surplus_auctions_due(&self, total_surplus_in_auction: Balance) -> (count: Balance)
        ensures
            count == self@.surplus_auctions_due(total_surplus_in_auction),
            self@.is_shutdown ==> count == 0,
    {
        if self.is_shutdown() {
            0
        } else {
            count_auctions(
                self.surplus_pool(),
                total_surplus_in_auction,
                self.surplus_buffer_size(),
                self.surplus_auction_fixed_size(),
                self.max_auctions_count(),
                0,
            )
        }
    }

    /// Counts the debit auctions to open this cycle after `created` surplus
    /// auctions, given what running debit auctions and running collateral
    /// auctions are meant to raise.
    pub fn debit_auctions_due(
        &self,
        created: Balance,
        total_debit_in_auction: Balance,
        total_target_in_auction: Balance,
    ) -> (count: Balance)
        ensures
            count == self@.debit_auctions_due(
                created,
                total_debit_in_auction,
                total_target_in_auction,
            ),
            self@.is_shutdown ==> count == 0,
    {
        if self.is_shutdown() || self.initial_amount_per_debit_auction() == 0 {
            0
        } else {
            count_auctions(
                self.debit_pool(),
                total_debit_in_auction,
                total_target_in_auction,
                self.debit_auction_fixed_size(),
                self.max_auctions_count(),
                created,
            )
        }
    }
}

} // verus!
