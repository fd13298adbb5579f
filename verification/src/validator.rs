//! Validation layer for pool-state updates broadcast by on-chain relayers.
//!
//! A `PoolStateUpdate` occupies exactly 64 wire bytes — one cache line — with
//! every byte accounted for, so a buffer of sufficient length always carries a
//! structurally legal record; rejection is purely semantic.

use crate::wire::{push_bytes, read_bytes};
use vstd::bytes::{
    spec_u32_from_le_bytes, spec_u64_from_le_bytes, u32_from_le_bytes, u64_from_le_bytes,
};
use vstd::prelude::*;

verus! {

/// Total wire size of a pool-state update in bytes: exactly one cache line.
pub const POOL_UPDATE_WIRE_SIZE: usize = 64;

/// A pool state update as it travels on the wire: pool address (20 bytes),
/// reserve0 (8), reserve1 (8), slot (8), sequence number (4), padding (16).
#[derive(Clone, Copy, Debug, PartialEq, Eq)]
pub struct PoolStateUpdate {
    pub pool_address: [u8; 20],
    pub reserve0_le: [u8; 8],
    pub reserve1_le: [u8; 8],
    pub slot_le: [u8; 8],
    pub seq_le: [u8; 4],
    pub _pad: [u8; 16],
}

/// The exact byte image of a pool-state update on the wire.
pub open spec fn spec_pool_update_wire_bytes(u: PoolStateUpdate) -> Seq<u8> {
    u.pool_address@ + u.reserve0_le@ + u.reserve1_le@ + u.slot_le@ + u.seq_le@ + u._pad@
}

impl PoolStateUpdate {
    /// Current reserve of token0, decoded from its little-endian bytes.
    pub fn reserve0(&self) -> (n: u64)
        ensures
            n == spec_u64_from_le_bytes(self.reserve0_le@),
    {
        u64_from_le_bytes(self.reserve0_le.as_slice())
    }

    /// Current reserve of token1, decoded from its little-endian bytes.
    pub fn reserve1(&self) -> (n: u64)
        ensures
            n == spec_u64_from_le_bytes(self.reserve1_le@),
    {
        u64_from_le_bytes(self.reserve1_le.as_slice())
    }

    /// Block or slot number of this update.
    pub fn slot(&self) -> (n: u64)
        ensures
            n == spec_u64_from_le_bytes(self.slot_le@),
    {
        u64_from_le_bytes(self.slot_le.as_slice())
    }

    /// Sequence number for detecting missed updates.
    pub fn seq(&self) -> (n: u32)
        ensures
            n == spec_u32_from_le_bytes(self.seq_le@),
    {
        u32_from_le_bytes(self.seq_le.as_slice())
    }

    /// Reinterpret the front of `data` as a pool-state update, with no
    /// semantic checks.
    ///
    /// Fails exactly when the buffer is shorter than the 64-byte wire size;
    /// every bit pattern of sufficient length is a structurally legal record.
    /// On success each field carries precisely the bytes at its wire offset.
    pub fn read_from(data: &[u8]) -> (result: Option<Self>)
        ensures
            result is Some <==> data@.len() >= POOL_UPDATE_WIRE_SIZE,
            result matches Some(u) ==> {
                &&& u.pool_address@ == data@.subrange(0, 20)
                &&& u.reserve0_le@ == data@.subrange(20, 28)
                &&& u.reserve1_le@ == data@.subrange(28, 36)
                &&& u.slot_le@ == data@.subrange(36, 44)
                &&& u.seq_le@ == data@.subrange(44, 48)
                &&& u._pad@ == data@.subrange(48, 64)
            },
    {
        if data.len() < POOL_UPDATE_WIRE_SIZE {
            return None;
        }
        Some(PoolStateUpdate {
            pool_address: read_bytes::<20>(data, 0),
            reserve0_le: read_bytes::<8>(data, 20),
            reserve1_le: read_bytes::<8>(data, 28),
            slot_le: read_bytes::<8>(data, 36),
            seq_le: read_bytes::<4>(data, 44),
            _pad: read_bytes::<16>(data, 48),
        })
    }

    /// Serialize the record into its 64 wire bytes.
    pub fn to_wire_bytes(&self) -> (out: Vec<u8>)
        ensures
            out@ == spec_pool_update_wire_bytes(*self),
            out@.len() == POOL_UPDATE_WIRE_SIZE,
    {
        let mut out: Vec<u8> = Vec::new();
        push_bytes(&mut out, self.pool_address.as_slice());
        push_bytes(&mut out, self.reserve0_le.as_slice());
        push_bytes(&mut out, self.reserve1_le.as_slice());
        push_bytes(&mut out, self.slot_le.as_slice());
        push_bytes(&mut out, self.seq_le.as_slice());
        push_bytes(&mut out, self._pad.as_slice());
        proof {
            assert(out@ =~= spec_pool_update_wire_bytes(*self));
        }
        out
    }
}

/// Why a pool-state update is rejected.
#[derive(Debug, Clone, Copy, PartialEq, Eq, Structural)]
pub enum ValidationError {
    /// Buffer too short to contain a full update record.
    TooShort,
    /// The buffer cannot be viewed as an update record. The copying view this
    /// library builds has no alignment constraint, so it never reports this;
    /// the variant remains for callers that pattern-match every case.
    LayoutMismatch,
    /// Both reserves are zero — an uninitialized or garbage pool.
    ZeroReserves,
    /// Sequence discontinuity: an update was missed.
    SequenceGap { expected: u32, got: u32 },
}

/// The sequence number that should follow `last`, with 32-bit wraparound.
pub open spec fn spec_next_seq(last: u32) -> u32 {
    if last == u32::MAX {
        0
    } else {
        (last + 1) as u32
    }
}

/// The verdict validation must reach on `data` against `last_seq`: too short,
/// both reserves zero, or a sequence discontinuity — in that order — else no
/// rejection. A `last_seq` of zero means "no prior sequence observed", so a
/// caller bootstrapping from cold start is never rejected for discontinuity.
pub open spec fn spec_pool_update_rejection(data: Seq<u8>, last_seq: u32) -> Option<
    ValidationError,
> {
    if data.len() < POOL_UPDATE_WIRE_SIZE {
        Some(ValidationError::TooShort)
    } else {
        let r0 = spec_u64_from_le_bytes(data.subrange(20, 28));
        let r1 = spec_u64_from_le_bytes(data.subrange(28, 36));
        let got = spec_u32_from_le_bytes(data.subrange(44, 48));
        if r0 == 0 && r1 == 0 {
            Some(ValidationError::ZeroReserves)
        } else if last_seq != 0 && got != spec_next_seq(last_seq) {
            Some((ValidationError::SequenceGap { expected: spec_next_seq(last_seq), got }))
        } else {
            None
        }
    }
}

/// Validate a raw byte buffer as a pool-state update.
///
/// Succeeds exactly when no rejection applies; the returned record carries
/// precisely the bytes at each field's wire offset.
pub fn validate_pool_update(data: &[u8], last_seq: u32) -> (result: Result<
    PoolStateUpdate,
    ValidationError,
>)
    ensures
        result is Err <==> spec_pool_update_rejection(data@, last_seq) is Some,
        result matches Err(e) ==> Some(e) == spec_pool_update_rejection(data@, last_seq),
        result matches Ok(u) ==> {
            &&& data@.len() >= POOL_UPDATE_WIRE_SIZE
            &&& u.pool_address@ == data@.subrange(0, 20)
            &&& u.reserve0_le@ == data@.subrange(20, 28)
            &&& u.reserve1_le@ == data@.subrange(28, 36)
            &&& u.slot_le@ == data@.subrange(36, 44)
            &&& u.seq_le@ == data@.subrange(44, 48)
            &&& u._pad@ == data@.subrange(48, 64)
        },
{
    let update = match PoolStateUpdate::read_from(data) {
        Some(u) => u,
        None => {
            return Err(ValidationError::TooShort);
        },
    };
    if update.reserve0() == 0 && update.reserve1() == 0 {
        return Err(ValidationError::ZeroReserves);
    }
    let expected = last_seq.wrapping_add(1);
    let got = update.seq();
    if got != expected && last_seq != 0 {
        return Err(ValidationError::SequenceGap { expected, got });
    }
    Ok(update)
}

/// Round trip: the wire image of an update is 64 bytes long and every field's
/// range of that image holds exactly the field's bytes, so an update
/// revalidated from its own encoding decodes to identical field values.
pub proof fn lemma_pool_update_round_trip(u: PoolStateUpdate)
    ensures
        spec_pool_update_wire_bytes(u).len() == POOL_UPDATE_WIRE_SIZE,
        spec_pool_update_wire_bytes(u).subrange(0, 20) == u.pool_address@,
        spec_pool_update_wire_bytes(u).subrange(20, 28) == u.reserve0_le@,
        spec_pool_update_wire_bytes(u).subrange(28, 36) == u.reserve1_le@,
        spec_pool_update_wire_bytes(u).subrange(36, 44) == u.slot_le@,
        spec_pool_update_wire_bytes(u).subrange(44, 48) == u.seq_le@,
        spec_pool_update_wire_bytes(u).subrange(48, 64) == u._pad@,
{
    let w = spec_pool_update_wire_bytes(u);
    assert(w.subrange(0, 20) =~= u.pool_address@);
    assert(w.subrange(20, 28) =~= u.reserve0_le@);
    assert(w.subrange(28, 36) =~= u.reserve1_le@);
    assert(w.subrange(36, 44) =~= u.slot_le@);
    assert(w.subrange(44, 48) =~= u.seq_le@);
    assert(w.subrange(48, 64) =~= u._pad@);
}

} // verus!
