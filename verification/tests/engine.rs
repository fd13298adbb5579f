use mev_zerocopy_node::payload::DexSwapTx;
use mev_zerocopy_node::processor::{mock_pool, process_packet, AmmPoolState};

#[test]
fn amm_get_amount_out_basic() {
    let pool = AmmPoolState { reserve0: 1_000_000, reserve1: 1_000_000, fee_num: 3, fee_den: 1_000 };
    let out = pool.get_amount_out(1_000, true).expect("should produce output");
    // With equal reserves and small input, output is slightly below input (fee + slippage).
    assert!(out < 1_000);
    assert!(out > 900);
}

#[test]
fn amm_get_amount_out_exact_value() {
    // 1_000_000 * (1_000 * 997) / (1_000_000 * 1_000 + 1_000 * 997) = 996 (floored)
    let pool = AmmPoolState { reserve0: 1_000_000, reserve1: 1_000_000, fee_num: 3, fee_den: 1_000 };
    assert_eq!(pool.get_amount_out(1_000, true), Some(996));
}

#[test]
fn amm_rejects_zero_reserves() {
    let pool = AmmPoolState { reserve0: 0, reserve1: 1_000_000, fee_num: 3, fee_den: 1_000 };
    assert!(pool.get_amount_out(1_000, true).is_none());
}

#[test]
fn amm_rejects_zero_output_reserve() {
    // The selected output reserve being empty also yields nothing, in either direction.
    let pool = AmmPoolState { reserve0: 1_000_000, reserve1: 0, fee_num: 3, fee_den: 1_000 };
    assert!(pool.get_amount_out(1_000, true).is_none());
    let pool = AmmPoolState { reserve0: 0, reserve1: 1_000_000, fee_num: 3, fee_den: 1_000 };
    assert!(pool.get_amount_out(1_000, false).is_none());
}

#[test]
fn amm_rejects_zero_amount_in() {
    let pool = AmmPoolState { reserve0: 1_000_000, reserve1: 1_000_000, fee_num: 3, fee_den: 1_000 };
    assert!(pool.get_amount_out(0, true).is_none());
}

#[test]
fn sandwich_profit_on_reference_pool() {
    // The victim's swap must move the price by more than two fee legs plus
    // slippage before the sandwich pays; 10_000_000_000 against a
    // 1_000_000_000_000 reserve does.
    let pool = mock_pool();
    let profit = pool.sandwich_profit(10_000_000_000, 10_000_000, true);
    assert_eq!(profit, Some(139_581));
}

#[test]
fn sandwich_unprofitable_when_victim_is_small() {
    // A victim too small to move the price leaves the fees unpaid: the
    // simulation reports no profit rather than a negative number.
    let pool = mock_pool();
    assert_eq!(pool.sandwich_profit(50_000_000, 10_000_000, true), None);
}

#[test]
fn process_packet_profitable_swap() {
    let tx = DexSwapTx::from_parts(
        42,
        [0xAB; 20],
        10_000_000_000, // large victim swap
        1,              // min_out = 1, so no slippage revert
        0,              // zero_for_one
    );
    let raw = tx.to_wire_bytes();
    let profit = process_packet(&raw);
    assert!(profit.is_some(), "large swap should yield sandwich profit");
    assert!(profit.unwrap() > 0, "the estimate is a positive profit");
}

#[test]
fn process_packet_rejects_small_swap() {
    let tx = DexSwapTx::from_parts(1, [0u8; 20], 500, 1, 0);
    let raw = tx.to_wire_bytes();
    assert!(process_packet(&raw).is_none(), "below MIN_AMOUNT_IN should return None");
}

#[test]
fn process_packet_rejects_short_frame() {
    let raw = [0u8; 32];
    assert!(process_packet(&raw).is_none());
}

#[test]
fn process_packet_rejects_reverting_victim() {
    // The victim demands more output than the pool can give: not a target.
    let tx = DexSwapTx::from_parts(7, [0xAB; 20], 50_000_000, u64::MAX, 0);
    let raw = tx.to_wire_bytes();
    assert!(process_packet(&raw).is_none());
}
