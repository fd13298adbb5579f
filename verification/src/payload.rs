//! Wire payload for a decentralized-exchange swap intent.
//!
//! All numeric fields are stored as little-endian byte arrays so that the
//! record maps onto exactly 48 wire bytes with no implicit padding and decodes
//! the same way on every architecture.

use crate::wire::{read_bytes, u64_to_le8};
use vstd::bytes::{spec_u64_from_le_bytes, spec_u64_to_le_bytes, u64_from_le_bytes};
use vstd::prelude::*;

verus! {

/// Total wire size of a swap-intent record in bytes.
pub const SWAP_TX_WIRE_SIZE: usize = 48;

/// A decentralized-exchange swap intent as it travels on the wire:
/// nonce (8 bytes), pool address (20 bytes), amount in (8 bytes),
/// minimum amount out (8 bytes), direction flag (1 byte), and 3 reserved
/// bytes that are zero on every record this library builds.
#[derive(Clone, Copy, Debug)]
pub struct DexSwapTx {
    pub nonce_le: [u8; 8],
    pub pool_address: [u8; 20],
    pub amount_in_le: [u8; 8],
    pub min_amount_out_le: [u8; 8],
    pub token_direction: u8,
    pub _reserved: [u8; 3],
}

/// The exact byte image of a swap-intent record on the wire.
pub open spec fn spec_swap_tx_wire_bytes(tx: DexSwapTx) -> Seq<u8> {
    tx.nonce_le@ + tx.pool_address@ + tx.amount_in_le@ + tx.min_amount_out_le@
        + seq![tx.token_direction] + tx._reserved@
}

impl DexSwapTx {
    /// The sender-chosen nonce, decoded from its little-endian bytes.
    pub fn nonce(&self) -> (n: u64)
        ensures
            n == spec_u64_from_le_bytes(self.nonce_le@),
    {
        u64_from_le_bytes(self.nonce_le.as_slice())
    }

    /// The victim's input amount, decoded from its little-endian bytes.
    pub fn amount_in(&self) -> (n: u64)
        ensures
            n == spec_u64_from_le_bytes(self.amount_in_le@),
    {
        u64_from_le_bytes(self.amount_in_le.as_slice())
    }

    /// The victim's declared minimum acceptable output, decoded from its
    /// little-endian bytes.
    pub fn min_amount_out(&self) -> (n: u64)
        ensures
            n == spec_u64_from_le_bytes(self.min_amount_out_le@),
    {
        u64_from_le_bytes(self.min_amount_out_le.as_slice())
    }

    /// Build a record from explicit field values, encoding each integer as
    /// little-endian bytes and zeroing the reserved tail.
    pub fn from_parts(
        nonce: u64,
        pool_address: [u8; 20],
        amount_in: u64,
        min_amount_out: u64,
        token_direction: u8,
    ) -> (tx: Self)
        ensures
            tx.nonce_le@ == spec_u64_to_le_bytes(nonce),
            tx.pool_address == pool_address,
            tx.amount_in_le@ == spec_u64_to_le_bytes(amount_in),
            tx.min_amount_out_le@ == spec_u64_to_le_bytes(min_amount_out),
            tx.token_direction == token_direction,
            tx._reserved@ =~= seq![0u8, 0u8, 0u8],
            spec_u64_from_le_bytes(tx.nonce_le@) == nonce,
            spec_u64_from_le_bytes(tx.amount_in_le@) == amount_in,
            spec_u64_from_le_bytes(tx.min_amount_out_le@) == min_amount_out,
    {
        proof {
            vstd::bytes::lemma_auto_spec_u64_to_from_le_bytes();
        }
        let tx = DexSwapTx {
            nonce_le: u64_to_le8(nonce),
            pool_address,
            amount_in_le: u64_to_le8(amount_in),
            min_amount_out_le: u64_to_le8(min_amount_out),
            token_direction,
            _reserved: [0u8; 3],
        };
        proof {
            assert(tx._reserved@ =~= seq![0u8, 0u8, 0u8]);
        }
        tx
    }

    /// Serialize the record into its 48 wire bytes.
    pub fn to_wire_bytes(&self) -> (out: Vec<u8>)
        ensures
            out@ == spec_swap_tx_wire_bytes(*self),
            out@.len() == SWAP_TX_WIRE_SIZE,
    {
        let mut out: Vec<u8> = Vec::new();
        crate::wire::push_bytes(&mut out, self.nonce_le.as_slice());
        crate::wire::push_bytes(&mut out, self.pool_address.as_slice());
        crate::wire::push_bytes(&mut out, self.amount_in_le.as_slice());
        crate::wire::push_bytes(&mut out, self.min_amount_out_le.as_slice());
        out.push(self.token_direction);
        crate::wire::push_bytes(&mut out, self._reserved.as_slice());
        proof {
            assert(out@ =~= spec_swap_tx_wire_bytes(*self));
        }
        out
    }

    /// Reinterpret the front of `data` as a swap-intent record.
    ///
    /// Fails exactly when the buffer is shorter than the 48-byte wire size;
    /// every bit pattern of sufficient length is a legal record. On success
    /// each field carries precisely the bytes at its wire offset.
    pub fn read_from(data: &[u8]) -> (result: Option<Self>)
        ensures
            result is Some <==> data@.len() >= SWAP_TX_WIRE_SIZE,
            result matches Some(tx) ==> {
                &&& tx.nonce_le@ == data@.subrange(0, 8)
                &&& tx.pool_address@ == data@.subrange(8, 28)
                &&& tx.amount_in_le@ == data@.subrange(28, 36)
                &&& tx.min_amount_out_le@ == data@.subrange(36, 44)
                &&& tx.token_direction == data@[44]
                &&& tx._reserved@ == data@.subrange(45, 48)
            },
    {
        if data.len() < SWAP_TX_WIRE_SIZE {
            return None;
        }
        Some(DexSwapTx {
            nonce_le: read_bytes::<8>(data, 0),
            pool_address: read_bytes::<20>(data, 8),
            amount_in_le: read_bytes::<8>(data, 28),
            min_amount_out_le: read_bytes::<8>(data, 36),
            token_direction: data[44],
            _reserved: read_bytes::<3>(data, 45),
        })
    }
}

/// Round trip: the wire image of a record is 48 bytes long, and reading any
/// field's range back out of that image recovers exactly the bytes the field
/// held, so a record reinterpreted from its own encoding decodes to identical
/// field values.
pub proof fn lemma_swap_tx_round_trip(tx: DexSwapTx)
    ensures
        spec_swap_tx_wire_bytes(tx).len() == SWAP_TX_WIRE_SIZE,
        spec_swap_tx_wire_bytes(tx).subrange(0, 8) == tx.nonce_le@,
        spec_swap_tx_wire_bytes(tx).subrange(8, 28) == tx.pool_address@,
        spec_swap_tx_wire_bytes(tx).subrange(28, 36) == tx.amount_in_le@,
        spec_swap_tx_wire_bytes(tx).subrange(36, 44) == tx.min_amount_out_le@,
        spec_swap_tx_wire_bytes(tx)[44] == tx.token_direction,
        spec_swap_tx_wire_bytes(tx).subrange(45, 48) == tx._reserved@,
{
    let w = spec_swap_tx_wire_bytes(tx);
    assert(w.subrange(0, 8) =~= tx.nonce_le@);
    assert(w.subrange(8, 28) =~= tx.pool_address@);
    assert(w.subrange(28, 36) =~= tx.amount_in_le@);
    assert(w.subrange(36, 44) =~= tx.min_amount_out_le@);
    assert(w.subrange(45, 48) =~= tx._reserved@);
}

} // verus!
