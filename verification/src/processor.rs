//! Constant-product arbitrage engine: swap-output formula and the three-phase
//! sandwich-profit simulation over an immutable pool snapshot.
//!
//! All arithmetic is integer-only; overflow is either ruled out by proof or
//! surfaces as a rejection (`None`), never as a panic.

use crate::payload::{DexSwapTx, SWAP_TX_WIRE_SIZE};
use vstd::bytes::spec_u64_from_le_bytes;
use vstd::prelude::*;

verus! {

/// Swaps below this input size cannot cover execution costs and are ignored.
pub const MIN_AMOUNT_IN: u64 = 1_000_000;

/// Fixed capital committed to the front-run leg of a sandwich.
pub const OUR_FRONT_RUN_AMOUNT: u64 = 10_000_000;

/// A constant-product pool snapshot: reserve0 * reserve1 is held invariant
/// (minus fees) across trades.
#[derive(Clone, Copy, Debug)]
pub struct AmmPoolState {
    /// Reserve of token0 in the pool.
    pub reserve0: u64,
    /// Reserve of token1 in the pool.
    pub reserve1: u64,
    /// Fee numerator (3 for a 0.3% fee).
    pub fee_num: u64,
    /// Fee denominator (1000 for a 0.3% fee).
    pub fee_den: u64,
}

impl AmmPoolState {
    /// Pool invariant: the fee is a proper fraction.
    pub open spec fn wf(&self) -> bool {
        self.fee_num < self.fee_den
    }

    /// The reserve the trade pays into, selected by direction.
    pub open spec fn spec_reserve_in(&self, zero_for_one: bool) -> u64 {
        if zero_for_one {
            self.reserve0
        } else {
            self.reserve1
        }
    }

    /// The reserve the trade draws from, selected by direction.
    pub open spec fn spec_reserve_out(&self, zero_for_one: bool) -> u64 {
        if zero_for_one {
            self.reserve1
        } else {
            self.reserve0
        }
    }

    /// The input amount after the fee is retained:
    /// `amount_in * (fee_den - fee_num)`, in fee-denominator units.
    pub open spec fn spec_fee_adjusted_in(&self, amount_in: u64) -> int {
        amount_in * (self.fee_den - self.fee_num)
    }

    /// The constant-product output formula over unbounded integers:
    /// `reserve_out * adjusted_in / (reserve_in * fee_den + adjusted_in)`.
    pub open spec fn spec_amount_out(&self, amount_in: u64, zero_for_one: bool) -> int {
        let adjusted_in = self.spec_fee_adjusted_in(amount_in);
        (self.spec_reserve_out(zero_for_one) * adjusted_in) / (self.spec_reserve_in(
            zero_for_one,
        ) * self.fee_den + adjusted_in)
    }

    /// When a swap yields an output: both selected reserves and the input are
    /// nonzero, the fee-adjusted input fits the 64-bit wire unit, and the
    /// formula's quotient is not zero-output dust.
    pub open spec fn spec_swap_succeeds(&self, amount_in: u64, zero_for_one: bool) -> bool {
        &&& self.spec_reserve_in(zero_for_one) > 0
        &&& self.spec_reserve_out(zero_for_one) > 0
        &&& amount_in > 0
        &&& self.spec_fee_adjusted_in(amount_in) <= u64::MAX
        &&& self.spec_amount_out(amount_in, zero_for_one) > 0
    }

    /// The swap output exactly as `get_amount_out` reports it.
    pub open spec fn spec_swap_output(&self, amount_in: u64, zero_for_one: bool) -> Option<u64> {
        if self.spec_swap_succeeds(amount_in, zero_for_one) {
            Some(self.spec_amount_out(amount_in, zero_for_one) as u64)
        } else {
            None
        }
    }

    /// Constant-product output calculation.
    ///
    /// Returns `None` exactly when a selected reserve or the input is zero,
    /// the fee-adjusted input overflows 64 bits, or the output rounds to zero.
    pub fn get_amount_out(&self, amount_in: u64, zero_for_one: bool) -> (result: Option<u64>)
        requires
            self.wf(),
        ensures
            result == self.spec_swap_output(amount_in, zero_for_one),
            result matches Some(out) ==> 0 < out <= self.spec_reserve_out(zero_for_one),
            self.spec_reserve_in(zero_for_one) == 0 || self.spec_reserve_out(zero_for_one) == 0
                ==> result is None,
    {
        let (reserve_in, reserve_out) = if zero_for_one {
            (self.reserve0, self.reserve1)
        } else {
            (self.reserve1, self.reserve0)
        };
        if reserve_in == 0 || reserve_out == 0 || amount_in == 0 {
            return None;
        }
        let fee_adj = self.fee_den - self.fee_num;
        let amount_in_with_fee = match amount_in.checked_mul(fee_adj) {
            Some(f) => f,
            None => {
                return None;
            },
        };
        proof {
            vstd::arithmetic::mul::lemma_mul_upper_bound(
                reserve_out as int,
                u64::MAX as int,
                amount_in_with_fee as int,
                u64::MAX as int,
            );
            vstd::arithmetic::mul::lemma_mul_upper_bound(
                reserve_in as int,
                u64::MAX as int,
                self.fee_den as int,
                u64::MAX as int,
            );
            vstd::arithmetic::mul::lemma_mul_strictly_positive(
                reserve_in as int,
                self.fee_den as int,
            );
        }
        let numerator: u128 = (reserve_out as u128) * (amount_in_with_fee as u128);
        let denominator: u128 = (reserve_in as u128) * (self.fee_den as u128) + (
        amount_in_with_fee as u128);
        let out_wide: u128 = numerator / denominator;
        proof {
            let num = (reserve_out as int) * (amount_in_with_fee as int);
            let den = (reserve_in as int) * (self.fee_den as int) + (amount_in_with_fee as int);
            vstd::arithmetic::mul::lemma_mul_left_inequality(
                reserve_out as int,
                amount_in_with_fee as int,
                den,
            );
            vstd::arithmetic::mul::lemma_mul_is_commutative(reserve_out as int, den);
            vstd::arithmetic::div_mod::lemma_div_is_ordered(num, (reserve_out as int) * den, den);
            vstd::arithmetic::div_mod::lemma_div_multiples_vanish(reserve_out as int, den);
            assert(out_wide <= reserve_out as u128);
        }
        let out: u64 = out_wide as u64;
        if out == 0 {
            None
        } else {
            Some(out)
        }
    }
}

/// The pool one swap leaves behind: the input joins the input-side reserve and
/// the output leaves the output-side reserve; `None` when either reserve would
/// leave the 64-bit range. Fees stay with the pool.
pub open spec fn spec_pool_after_swap(
    pool: AmmPoolState,
    amount_in: u64,
    amount_out: u64,
    zero_for_one: bool,
) -> Option<AmmPoolState> {
    let r0 = if zero_for_one {
        pool.reserve0 + amount_in
    } else {
        pool.reserve0 - amount_out
    };
    let r1 = if zero_for_one {
        pool.reserve1 - amount_out
    } else {
        pool.reserve1 + amount_in
    };
    if 0 <= r0 <= u64::MAX && 0 <= r1 <= u64::MAX {
        Some(
            (AmmPoolState {
                reserve0: r0 as u64,
                reserve1: r1 as u64,
                fee_num: pool.fee_num,
                fee_den: pool.fee_den,
            }),
        )
    } else {
        None
    }
}

/// The three-phase sandwich simulation: our front-run buy, the victim's fill
/// against the moved pool, and our back-run sell of the front-run proceeds in
/// the opposite direction. The profit is the back-run proceeds minus our
/// outlay; an unprofitable or infeasible scenario is `None`, never negative.
pub open spec fn spec_sandwich_profit(
    pool: AmmPoolState,
    victim_amount_in: u64,
    our_amount_in: u64,
    zero_for_one: bool,
) -> Option<u64> {
    match pool.spec_swap_output(our_amount_in, zero_for_one) {
        Option::None => None,
        Option::Some(our_out) => match spec_pool_after_swap(
            pool,
            our_amount_in,
            our_out,
            zero_for_one,
        ) {
            Option::None => None,
            Option::Some(after_front) => match after_front.spec_swap_output(
                victim_amount_in,
                zero_for_one,
            ) {
                Option::None => None,
                Option::Some(victim_out) => match spec_pool_after_swap(
                    after_front,
                    victim_amount_in,
                    victim_out,
                    zero_for_one,
                ) {
                    Option::None => None,
                    Option::Some(after_victim) => match after_victim.spec_swap_output(
                        our_out,
                        !zero_for_one,
                    ) {
                        Option::None => None,
                        Option::Some(back_out) => if back_out >= our_amount_in {
                            Some((back_out - our_amount_in) as u64)
                        } else {
                            None
                        },
                    },
                },
            },
        },
    }
}

impl AmmPoolState {
    /// Sandwich arbitrage profit estimate in the outlay's token units.
    ///
    /// Never mutates the snapshot: each phase builds a fresh pool value.
    pub fn sandwich_profit(
        &self,
        victim_amount_in: u64,
        our_amount_in: u64,
        zero_for_one: bool,
    ) -> (result: Option<u64>)
        requires
            self.wf(),
        ensures
            result == spec_sandwich_profit(*self, victim_amount_in, our_amount_in, zero_for_one),
    {
        let our_out = match self.get_amount_out(our_amount_in, zero_for_one) {
            Some(v) => v,
            None => {
                return None;
            },
        };
        let (new_reserve0, new_reserve1) = if zero_for_one {
            let r0 = match self.reserve0.checked_add(our_amount_in) {
                Some(v) => v,
                None => {
                    return None;
                },
            };
            let r1 = match self.reserve1.checked_sub(our_out) {
                Some(v) => v,
                None => {
                    return None;
                },
            };
            (r0, r1)
        } else {
            let r0 = match self.reserve0.checked_sub(our_out) {
                Some(v) => v,
                None => {
                    return None;
                },
            };
            let r1 = match self.reserve1.checked_add(our_amount_in) {
                Some(v) => v,
                None => {
                    return None;
                },
            };
            (r0, r1)
        };
        let pool_after_frontrun = AmmPoolState {
            reserve0: new_reserve0,
            reserve1: new_reserve1,
            fee_num: self.fee_num,
            fee_den: self.fee_den,
        };
        let victim_out = match pool_after_frontrun.get_amount_out(victim_amount_in, zero_for_one) {
            Some(v) => v,
            None => {
                return None;
            },
        };
        let (r0_after_victim, r1_after_victim) = if zero_for_one {
            let r0 = match new_reserve0.checked_add(victim_amount_in) {
                Some(v) => v,
                None => {
                    return None;
                },
            };
            let r1 = match new_reserve1.checked_sub(victim_out) {
                Some(v) => v,
                None => {
                    return None;
                },
            };
            (r0, r1)
        } else {
            let r0 = match new_reserve0.checked_sub(victim_out) {
                Some(v) => v,
                None => {
                    return None;
                },
            };
            let r1 = match new_reserve1.checked_add(victim_amount_in) {
                Some(v) => v,
                None => {
                    return None;
                },
            };
            (r0, r1)
        };
        let pool_after_victim = AmmPoolState {
            reserve0: r0_after_victim,
            reserve1: r1_after_victim,
            fee_num: self.fee_num,
            fee_den: self.fee_den,
        };
        let back_run_out = match pool_after_victim.get_amount_out(our_out, !zero_for_one) {
            Some(v) => v,
            None => {
                return None;
            },
        };
        back_run_out.checked_sub(our_amount_in)
    }
}

/// The fixed in-memory pool snapshot the hot path evaluates against.
pub open spec fn spec_mock_pool() -> AmmPoolState {
    AmmPoolState { reserve0: 1_000_000_000_000u64, reserve1: 500_000_000_000u64, fee_num: 3u64, fee_den: 1_000u64 }
}

/// Build the reference pool snapshot.
pub fn mock_pool() -> (pool: AmmPoolState)
    ensures
        pool == spec_mock_pool(),
        pool.wf(),
{
    AmmPoolState {
        reserve0: 1_000_000_000_000,
        reserve1: 500_000_000_000,
        fee_num: 3,
        fee_den: 1_000,
    }
}

/// What the hot path decides for one raw frame, over its byte image.
pub open spec fn spec_process_packet(data: Seq<u8>) -> Option<u64> {
    if data.len() < SWAP_TX_WIRE_SIZE {
        None
    } else {
        let amount_in = spec_u64_from_le_bytes(data.subrange(28, 36));
        let min_amount_out = spec_u64_from_le_bytes(data.subrange(36, 44));
        let zero_for_one = data[44] == 0;
        if amount_in < MIN_AMOUNT_IN {
            None
        } else {
            match spec_mock_pool().spec_swap_output(amount_in, zero_for_one) {
                Option::None => None,
                Option::Some(victim_out) => if victim_out < min_amount_out {
                    None
                } else {
                    spec_sandwich_profit(
                        spec_mock_pool(),
                        amount_in,
                        OUR_FRONT_RUN_AMOUNT,
                        zero_for_one,
                    )
                },
            }
        }
    }
}

/// The hot-path processing step: reinterpret the frame as a swap intent,
/// filter out dust and targets whose own fill would revert, then estimate the
/// sandwich profit against the reference pool.
///
/// `None` when the frame is shorter than a swap-intent record, the input is
/// below the economic threshold, the victim's actual output falls short of
/// their declared minimum, or no phase of the sandwich is profitable.
pub fn process_packet(data: &[u8]) -> (result: Option<u64>)
    ensures
        result == spec_process_packet(data@),
        data@.len() < SWAP_TX_WIRE_SIZE ==> result is None,
        data@.len() >= SWAP_TX_WIRE_SIZE && spec_u64_from_le_bytes(data@.subrange(28, 36))
            < MIN_AMOUNT_IN ==> result is None,
{
    let tx = match DexSwapTx::read_from(data) {
        Some(t) => t,
        None => {
            return None;
        },
    };
    let amount_in = tx.amount_in();
    if amount_in < MIN_AMOUNT_IN {
        return None;
    }
    let zero_for_one = tx.token_direction == 0;
    let pool = mock_pool();
    let victim_actual_out = match pool.get_amount_out(amount_in, zero_for_one) {
        Some(v) => v,
        None => {
            return None;
        },
    };
    if victim_actual_out < tx.min_amount_out() {
        return None;
    }
    pool.sandwich_profit(amount_in, OUR_FRONT_RUN_AMOUNT, zero_for_one)
}

} // verus!
