//! Deterministic address derivation from a title and an owner identity.
//!
//! The address is a keyed combine in the style of FNV-1a: the title bytes
//! are folded into a 64-bit state, and the owner identity is mixed in as
//! a final keyed step. The same `(title, owner)` pair always yields the
//! same address, and all three operations derive addresses identically,
//! so they always agree on which slot a pair refers to.

use vstd::prelude::*;

verus! {

/// FNV-1a 64-bit offset basis: the initial fold state.
pub const FNV_OFFSET_BASIS: u64 = 0xcbf29ce484222325;

/// FNV-1a 64-bit prime: the multiplier of each fold step.
pub const FNV_PRIME: u64 = 0x100000001b3;

/// One FNV-1a step: absorb one byte into the state.
pub open spec fn fnv_step(h: u64, b: u8) -> u64 {
    (h ^ (b as u64)).wrapping_mul(FNV_PRIME)
}

/// Fold a whole byte sequence into the state, front to back.
pub open spec fn fnv_fold(h: u64, s: Seq<u8>) -> u64
    decreases s.len(),
{
    if s.len() == 0 {
        h
    } else {
        fnv_step(fnv_fold(h, s.drop_last()), s.last())
    }
}

/// The address of the record identified by `(title, owner)`: fold the
/// title bytes, then mix the owner identity in as one keyed step.
pub open spec fn spec_derive(title: Seq<u8>, owner: u64) -> u64 {
    (fnv_fold(FNV_OFFSET_BASIS, title) ^ owner).wrapping_mul(FNV_PRIME)
}

/// Computes the storage address of `(title, owner)`. Pure and
/// deterministic: create, update and delete all locate a record with
/// this same function.
pub fn derive_address(title: &Vec<u8>, owner: u64) -> (addr: u64)
    ensures
        addr == spec_derive(title@, owner),
{
    let mut h: u64 = FNV_OFFSET_BASIS;
    let mut i: usize = 0;
    while i < title.len()
        invariant
            i <= title.len(),
            h == fnv_fold(FNV_OFFSET_BASIS, title@.take(i as int)),
        decreases title.len() - i,
    {
        proof {
            assert(title@.take(i + 1).drop_last() =~= title@.take(i as int));
            assert(title@.take(i + 1).last() == title@[i as int]);
        }
        h = (h ^ (title[i] as u64)).wrapping_mul(FNV_PRIME);
        i = i + 1;
    }
    proof {
        assert(title@.take(title.len() as int) =~= title@);
    }
    (h ^ owner).wrapping_mul(FNV_PRIME)
}

} // verus!
