use mev_zerocopy_node::ring::{ResponseRing, RING_CAPACITY};
use mev_zerocopy_node::runtime::{LatencyClock, NodeStats};

#[test]
fn ring_fills_to_capacity_then_rejects() {
    let mut ring = ResponseRing::new();
    for i in 0..RING_CAPACITY as u64 {
        assert!(ring.enqueue(i.to_le_bytes()).is_ok(), "enqueue within capacity succeeds");
    }
    // One past capacity fails and hands the rejected value back unchanged.
    let overflow = 0xDEAD_BEEFu64.to_le_bytes();
    assert_eq!(ring.enqueue(overflow), Err(overflow));
    // Draining returns every staged payload in order, then nothing.
    for i in 0..RING_CAPACITY as u64 {
        assert_eq!(ring.dequeue(), Some(i.to_le_bytes()));
    }
    assert_eq!(ring.dequeue(), None);
}

#[test]
fn ring_is_first_in_first_out() {
    let mut ring = ResponseRing::new();
    ring.enqueue(111u64.to_le_bytes()).unwrap();
    ring.enqueue(222u64.to_le_bytes()).unwrap();
    assert_eq!(ring.dequeue(), Some(111u64.to_le_bytes()));
    assert_eq!(ring.dequeue(), Some(222u64.to_le_bytes()));
    assert_eq!(ring.dequeue(), None);
}

#[test]
fn ring_round_trips_payload_bytes() {
    let mut ring = ResponseRing::default();
    let payload = [1u8, 2, 3, 4, 5, 6, 7, 8];
    ring.enqueue(payload).unwrap();
    assert_eq!(ring.dequeue(), Some(payload));
}

#[test]
fn counters_increment_and_load() {
    let stats = NodeStats::new();
    assert_eq!(stats.rx_packets.load(), 0);
    stats.rx_packets.inc();
    stats.rx_packets.inc();
    stats.opportunities.inc();
    assert_eq!(stats.rx_packets.load(), 2);
    assert_eq!(stats.tx_packets.load(), 0);
    assert_eq!(stats.opportunities.load(), 1);
}

#[test]
fn latency_clock_cycle_delta_saturates() {
    let clock = LatencyClock::start(1_000);
    let sample = clock.stop(1_750);
    assert_eq!(sample.cycles, 750);

    // A cycle counter that appears to run backwards degrades to zero.
    let clock = LatencyClock::start(2_000);
    let sample = clock.stop(500);
    assert_eq!(sample.cycles, 0);
}
