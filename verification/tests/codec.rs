use mev_zerocopy_node::payload::DexSwapTx;
use mev_zerocopy_node::validator::{validate_pool_update, PoolStateUpdate, ValidationError};

fn make_update(reserve0: u64, reserve1: u64, slot: u64, seq: u32) -> Vec<u8> {
    let update = PoolStateUpdate {
        pool_address: [0xCA; 20],
        reserve0_le: reserve0.to_le_bytes(),
        reserve1_le: reserve1.to_le_bytes(),
        slot_le: slot.to_le_bytes(),
        seq_le: seq.to_le_bytes(),
        _pad: [0u8; 16],
    };
    update.to_wire_bytes()
}

#[test]
fn parses_little_endian_fields_correctly() {
    let tx = DexSwapTx::from_parts(0x0102_0304_0506_0708, [0xAA; 20], 1_500_000, 1_490_000, 1);
    let bytes = tx.to_wire_bytes();
    let parsed = DexSwapTx::read_from(&bytes).expect("wire payload must map into DexSwapTx");

    assert_eq!(parsed.nonce(), 0x0102_0304_0506_0708);
    assert_eq!(parsed.amount_in(), 1_500_000);
    assert_eq!(parsed.min_amount_out(), 1_490_000);
    assert_eq!(parsed.token_direction, 1);
}

#[test]
fn round_trip_wire_bytes() {
    let tx = DexSwapTx::from_parts(77, [0xAB; 20], 2_000_000, 1_980_000, 0);
    let raw = tx.to_wire_bytes();
    let parsed = DexSwapTx::read_from(&raw).expect("serialized payload must parse back");

    assert_eq!(parsed.nonce(), 77);
    assert_eq!(parsed.amount_in(), 2_000_000);
    assert_eq!(parsed.min_amount_out(), 1_980_000);
}

#[test]
fn swap_intent_rejects_short_buffer() {
    let short = [0u8; 47];
    assert!(DexSwapTx::read_from(&short).is_none());
}

#[test]
fn zerocopy_cast_reads_fields_correctly() {
    let buf = make_update(1_000_000, 500_000, 9_876_543, 1);
    let update = validate_pool_update(&buf, 0).expect("valid update");
    assert_eq!(update.reserve0(), 1_000_000);
    assert_eq!(update.reserve1(), 500_000);
    assert_eq!(update.slot(), 9_876_543);
    assert_eq!(update.seq(), 1);
}

#[test]
fn zerocopy_rejects_zero_reserves() {
    let buf = make_update(0, 0, 1, 1);
    assert_eq!(validate_pool_update(&buf, 0), Err(ValidationError::ZeroReserves));
}

#[test]
fn zerocopy_detects_sequence_gap() {
    let buf = make_update(1_000, 2_000, 1, 5);
    let result = validate_pool_update(&buf, 3); // expected seq=4, got seq=5
    assert_eq!(result, Err(ValidationError::SequenceGap { expected: 4, got: 5 }));
}

#[test]
fn zerocopy_rejects_short_slice() {
    let short = [0u8; 10];
    assert_eq!(validate_pool_update(&short, 0), Err(ValidationError::TooShort));
}

#[test]
fn zero_reserves_beats_sequence_gap() {
    // Both reserves zero is rejected regardless of the sequence number,
    // even when the sequence is also discontinuous.
    let buf = make_update(0, 0, 1, 99);
    assert_eq!(validate_pool_update(&buf, 3), Err(ValidationError::ZeroReserves));
}

#[test]
fn bootstrap_accepts_any_sequence() {
    // A last sequence of zero means "no prior update observed": any incoming
    // sequence number passes, as long as reserves and length are good.
    let buf = make_update(5, 7, 11, 777);
    let update = validate_pool_update(&buf, 0).expect("bootstrap update accepted");
    assert_eq!(update.seq(), 777);
}

#[test]
fn sequence_wraparound_is_continuous() {
    // After the maximal sequence number, zero is the expected successor.
    let buf = make_update(5, 7, 11, 0);
    assert!(validate_pool_update(&buf, u32::MAX).is_ok());
}

#[test]
fn pool_update_view_reads_fields() {
    // The raw view applies no semantic checks: a zero reserve passes.
    let buf = make_update(10, 0, 3, 2);
    let update = PoolStateUpdate::read_from(&buf).expect("64 bytes map into a view");
    assert_eq!(update.reserve0(), 10);
    assert_eq!(update.reserve1(), 0);
    assert_eq!(update.slot(), 3);
    assert_eq!(update.seq(), 2);
    assert!(PoolStateUpdate::read_from(&buf[..63]).is_none());
}

#[test]
fn pool_update_round_trip() {
    let buf = make_update(42_000, 84_000, 123, 9);
    let update = validate_pool_update(&buf, 8).expect("continuous update accepted");
    assert_eq!(update.to_wire_bytes(), buf);
}
