//! Nonce allocation for the execution slots of one benchmarking round.
//!
//! Each round fetches one base nonce for the signing account; every slot
//! (one kind × repeat pair) derives its own nonce from the base, the slot
//! position and a random jitter, so that concurrently submitted transactions
//! never collide on the account's nonce sequence.
use vstd::prelude::*;

verus! {

/// The nonce allocated for slot position `slot` with jitter `jitter`:
/// `base + slot + 1 + jitter`, saturating at the top of the `u64` range.
pub open spec fn spec_allocate_nonce(base: u64, slot: u64, jitter: u64) -> u64 {
    if base + slot + 1 + jitter <= u64::MAX {
        (base + slot + 1 + jitter) as u64
    } else {
        u64::MAX
    }
}

/// Allocates the nonce for one execution slot of a round: the base nonce
/// fetched for the round, plus the slot position offset `slot + 1`, plus a
/// random jitter, saturating at the top of the range.
///
/// The `slot + 1` term makes the nonce strictly greater than the base and,
/// for a fixed jitter, injective in the slot position.
pub fn allocate_nonce(base: u64, slot: u64, jitter: u64) -> (nonce: u64)
    requires
        slot + 1 + jitter <= u64::MAX,
    ensures
        nonce == spec_allocate_nonce(base, slot, jitter),
        nonce >= base,
        base < u64::MAX ==> nonce > base,
{
    let offset: u64 = slot + 1 + jitter;
    if base <= u64::MAX - offset {
        base + offset
    } else {
        u64::MAX
    }
}

/// Within one round, nonces allocated from one base are strictly greater
/// than the base, and two distinct slot positions get distinct nonces even
/// when their jitters coincide.
pub proof fn law_nonces_distinct(base: u64, slot1: u64, slot2: u64, jitter: u64)
    requires
        slot1 != slot2,
        base + slot1 + 1 + jitter <= u64::MAX,
        base + slot2 + 1 + jitter <= u64::MAX,
    ensures
        spec_allocate_nonce(base, slot1, jitter) != spec_allocate_nonce(base, slot2, jitter),
        spec_allocate_nonce(base, slot1, jitter) > base,
        spec_allocate_nonce(base, slot2, jitter) > base,
{
}

} // verus!
