//! The record store: fixed-capacity slots keyed by derived address.
//!
//! Storage is a map from address to slot. A slot is allocated with a
//! fixed capacity paid for by the caller, holds at most one serialized
//! record that must fit that capacity, and refunds its capacity when
//! deallocated. The operation handlers never touch storage except
//! through `allocate`, `read`, `write` and `deallocate`.

use std::collections::HashMap;
use vstd::prelude::*;

use crate::errors::CrudError;
use crate::record::JournalEntryState;
use crate::record::RecordView;

verus! {

broadcast use vstd::std_specs::hash::group_hash_axioms;

/// Mathematical model of one storage slot.
pub struct SlotView {
    /// Bytes reserved for this slot, refunded on deallocation.
    pub capacity: u64,
    /// The record serialized into the slot, if one has been written.
    pub data: Option<RecordView>,
}

/// One fixed-capacity storage slot.
pub struct Slot {
    pub capacity: u64,
    pub data: Option<JournalEntryState>,
}

impl View for Slot {
    type V = SlotView;

    open spec fn view(&self) -> SlotView {
        SlotView {
            capacity: self.capacity,
            data: match self.data {
                None => None,
                Some(rec) => Some(rec@),
            },
        }
    }
}

/// Slot storage keyed by derived address.
pub struct RecordStore {
    slots: HashMap<u64, Slot>,
}

impl View for RecordStore {
    type V = Map<u64, SlotView>;

    closed spec fn view(&self) -> Map<u64, SlotView> {
        Map::new(|a: u64| self.slots@.contains_key(a), |a: u64| self.slots@[a]@)
    }
}

impl RecordStore {
    /// An empty store with no slot allocated.
    pub fn new() -> (s: RecordStore)
        ensures
            s@ == Map::<u64, SlotView>::empty(),
    {
        let s = RecordStore { slots: HashMap::new() };
        proof {
            assert(s@ =~= Map::<u64, SlotView>::empty());
        }
        s
    }

    /// Allocates an empty slot of the given capacity at `addr`, paid for
    /// out of `funds`. Fails with `AddressOccupied` if the address is
    /// already allocated, then with `FundingFailed` if the caller cannot
    /// cover the capacity.
    pub fn allocate(&mut self, addr: u64, capacity: u64, funds: u64) -> (r: Result<(), CrudError>)
        ensures
            old(self)@.contains_key(addr) ==> r === Err(CrudError::AddressOccupied) && final(self)@
                == old(self)@,
            !old(self)@.contains_key(addr) && funds < capacity ==> r === Err(
                CrudError::FundingFailed,
            ) && final(self)@ == old(self)@,
            !old(self)@.contains_key(addr) && funds >= capacity ==> r === Ok(()) && final(self)@
                == old(self)@.insert(addr, (SlotView { capacity, data: None })),
    {
        if self.slots.contains_key(&addr) {
            Err(CrudError::AddressOccupied)
        } else if funds < capacity {
            Err(CrudError::FundingFailed)
        } else {
            let ghost m0 = self@;
            self.slots.insert(addr, Slot { capacity, data: None });
            proof {
                assert(self@ =~= m0.insert(addr, (SlotView { capacity, data: None })));
            }
            Ok(())
        }
    }

    /// Reads the record stored at `addr`, if the slot exists and has
    /// been written.
    pub fn read(&self, addr: u64) -> (r: Option<&JournalEntryState>)
        ensures
            match r {
                Some(rec) => self@.contains_key(addr) && self@[addr].data == Some(rec@),
                None => !self@.contains_key(addr) || self@[addr].data is None,
            },
    {
        match self.slots.get(&addr) {
            None => None,
            Some(slot) => match &slot.data {
                None => None,
                Some(rec) => Some(rec),
            },
        }
    }

    /// Serializes `rec` into the slot at `addr`. Fails with `NotFound`
    /// if no slot is allocated there, then with `CapacityExceeded` if
    /// the serialized record does not fit the slot's capacity.
    pub fn write(&mut self, addr: u64, rec: JournalEntryState) -> (r: Result<(), CrudError>)
        ensures
            !old(self)@.contains_key(addr) ==> r === Err(CrudError::NotFound) && final(self)@
                == old(self)@,
            old(self)@.contains_key(addr) && rec@.serialized_size() > old(self)@[addr].capacity
                ==> r === Err(CrudError::CapacityExceeded) && final(self)@ == old(self)@,
            old(self)@.contains_key(addr) && rec@.serialized_size() <= old(self)@[addr].capacity
                ==> r === Ok(()) && final(self)@ == old(self)@.insert(
                addr,
                (SlotView { capacity: old(self)@[addr].capacity, data: Some(rec@) }),
            ),
    {
        let capacity: u64 = match self.slots.get(&addr) {
            None => {
                return Err(CrudError::NotFound);
            },
            Some(slot) => slot.capacity,
        };
        let size: u128 = (crate::record::RECORD_TAG_BYTES as u128) + (
        crate::record::LEN_PREFIX_BYTES as u128) + (rec.title.len() as u128) + (
        crate::record::LEN_PREFIX_BYTES as u128) + (rec.message.len() as u128) + (
        crate::record::OWNER_ID_BYTES as u128);
        if size > capacity as u128 {
            return Err(CrudError::CapacityExceeded);
        }
        let ghost m0 = self@;
        self.slots.insert(addr, Slot { capacity, data: Some(rec) });
        proof {
            assert(self@ =~= m0.insert(addr, (SlotView { capacity, data: Some(rec@) })));
        }
        Ok(())
    }

    /// Frees the slot at `addr`, returning its held capacity as the
    /// refund owed to the designated recipient. Fails with `NotFound` if
    /// no slot is allocated there.
    pub fn deallocate(&mut self, addr: u64) -> (r: Result<u64, CrudError>)
        ensures
            !old(self)@.contains_key(addr) ==> r === Err(CrudError::NotFound) && final(self)@
                == old(self)@,
            old(self)@.contains_key(addr) ==> r === Ok(old(self)@[addr].capacity) && final(self)@
                == old(self)@.remove(addr),
    {
        let ghost m0 = self@;
        match self.slots.remove(&addr) {
            None => Err(CrudError::NotFound),
            Some(slot) => {
                proof {
                    assert(self@ =~= m0.remove(addr));
                }
                Ok(slot.capacity)
            },
        }
    }
}

} // verus!
