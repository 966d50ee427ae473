//! The operation handlers: create, update and delete over one record.
//!
//! A `Journal` is the record store seen through the addressing scheme:
//! its model is the map from derived address to stored record. Each
//! handler derives the address, validates the operation against the
//! record found there, and only then mutates storage — a failed
//! operation leaves the map exactly as it was.

use vstd::prelude::*;

use crate::addressing::derive_address;
use crate::addressing::spec_derive;
use crate::errors::CrudError;
use crate::record::lemma_wf_record_fits;
use crate::record::JournalEntryState;
use crate::record::RecordView;
use crate::record::MESSAGE_MAX_BYTES;
use crate::record::RECORD_SPACE;
use crate::store::RecordStore;
use crate::validator::spec_validate_create;
use crate::validator::spec_validate_delete;
use crate::validator::spec_validate_update;
use crate::validator::validate_create;
use crate::validator::validate_delete;
use crate::validator::validate_update;

verus! {

/// The record stored in `m` at the derived address, if any.
pub open spec fn record_at(m: Map<u64, RecordView>, title: Seq<u8>, owner: u64) -> Option<
    RecordView,
> {
    if m.contains_key(spec_derive(title, owner)) {
        Some(m[spec_derive(title, owner)])
    } else {
        None
    }
}

/// The outcome of a create: the result and the record map afterwards.
/// Field limits are checked first, then the derived address must be
/// free, then the caller must fund the worst-case slot capacity; only
/// then is the new record stored at the derived address.
pub open spec fn spec_create(
    m: Map<u64, RecordView>,
    title: Seq<u8>,
    message: Seq<u8>,
    owner: u64,
    funds: u64,
) -> (Result<(), CrudError>, Map<u64, RecordView>) {
    let rec = RecordView { title, message, owner };
    let addr = spec_derive(title, owner);
    if !rec.wf() {
        (Err(CrudError::CapacityExceeded), m)
    } else {
        match spec_validate_create(record_at(m, title, owner)) {
            Err(e) => (Err(e), m),
            Ok(()) => if funds < RECORD_SPACE {
                (Err(CrudError::FundingFailed), m)
            } else {
                (Ok(()), m.insert(addr, rec))
            },
        }
    }
}

/// The outcome of an update: the record at the derived address must
/// exist, be owned by the caller, and carry exactly the supplied title;
/// the new message must be within its limit. Only the message changes —
/// the stored title and owner are kept as they were.
pub open spec fn spec_update(
    m: Map<u64, RecordView>,
    title: Seq<u8>,
    message: Seq<u8>,
    caller: u64,
) -> (Result<(), CrudError>, Map<u64, RecordView>) {
    let addr = spec_derive(title, caller);
    match spec_validate_update(record_at(m, title, caller), title, caller) {
        Err(e) => (Err(e), m),
        Ok(()) => if message.len() > MESSAGE_MAX_BYTES {
            (Err(CrudError::CapacityExceeded), m)
        } else {
            (
                Ok(()),
                m.insert(addr, (RecordView { title: m[addr].title, message, owner: m[addr].owner })),
            )
        },
    }
}

/// The outcome of a delete: the record at the derived address must
/// exist and be owned by the caller. The record is removed and the
/// slot's full capacity is refunded to the caller.
pub open spec fn spec_delete(m: Map<u64, RecordView>, title: Seq<u8>, caller: u64) -> (
    Result<u64, CrudError>,
    Map<u64, RecordView>,
) {
    let addr = spec_derive(title, caller);
    match spec_validate_delete(record_at(m, title, caller), caller) {
        Err(e) => (Err(e), m),
        Ok(()) => (Ok(RECORD_SPACE), m.remove(addr)),
    }
}

/// Invariants of every reachable record map: each stored record is
/// within the field limits and sits at the address derived from its own
/// title and owner — the `(title, owner)` pair is the primary key.
pub open spec fn records_addressed(m: Map<u64, RecordView>) -> bool {
    forall|a: u64| #[trigger] m.contains_key(a) ==> m[a].wf() && spec_derive(
        m[a].title,
        m[a].owner,
    ) == a
}

/// The journal: the record store addressed by `(title, owner)`.
pub struct Journal {
    store: RecordStore,
}

impl View for Journal {
    type V = Map<u64, RecordView>;

    closed spec fn view(&self) -> Map<u64, RecordView> {
        Map::new(
            |a: u64| self.store@.contains_key(a),
            |a: u64| self.store@[a].data->0,
        )
    }
}

impl Journal {
    /// Every slot is written (no allocated-but-empty slot survives an
    /// operation), holds a well-formed record reserved at worst-case
    /// capacity, and sits at the address derived from that record's own
    /// title and owner.
    pub closed spec fn wf(self) -> bool {
        forall|a: u64| #[trigger] self.store@.contains_key(a) ==> {
            &&& self.store@[a].data is Some
            &&& self.store@[a].data->0.wf()
            &&& self.store@[a].capacity == RECORD_SPACE
            &&& spec_derive(self.store@[a].data->0.title, self.store@[a].data->0.owner) == a
        }
    }

    /// An empty journal with no record stored.
    pub fn new() -> (j: Journal)
        ensures
            j@ == Map::<u64, RecordView>::empty(),
            j.wf(),
    {
        let j = Journal { store: RecordStore::new() };
        proof {
            assert(j@ =~= Map::<u64, RecordView>::empty());
        }
        j
    }

    /// A well-formed journal only reaches record maps satisfying the
    /// stated invariants.
    pub proof fn lemma_invariant(self)
        requires
            self.wf(),
        ensures
            records_addressed(self@),
    {
        assert forall|a: u64| #[trigger] self@.contains_key(a) implies self@[a].wf()
            && spec_derive(self@[a].title, self@[a].owner) == a by {
            assert(self.store@.contains_key(a));
        }
    }

    /// Creates the record `(title, message, owner)` at the address
    /// derived from `(title, owner)`, spending `funds` on the slot.
    pub fn create_journal_entry(
        &mut self,
        title: Vec<u8>,
        message: Vec<u8>,
        owner: u64,
        funds: u64,
    ) -> (r: Result<(), CrudError>)
        requires
            old(self).wf(),
        ensures
            final(self).wf(),
            r == spec_create(old(self)@, title@, message@, owner, funds).0,
            final(self)@ == spec_create(old(self)@, title@, message@, owner, funds).1,
    {
        let ghost m0 = self@;
        let addr = derive_address(&title, owner);
        let rec = match JournalEntryState::new(title, message, owner) {
            Err(e) => {
                return Err(e);
            },
            Ok(rec) => rec,
        };
        let vres = validate_create(self.store.read(addr));
        if let Err(e) = vres {
            return Err(e);
        }
        match self.store.allocate(addr, RECORD_SPACE, funds) {
            Err(e) => {
                return Err(e);
            },
            Ok(()) => {},
        }
        proof {
            lemma_wf_record_fits(rec@);
        }
        match self.store.write(addr, rec) {
            Err(e) => {
                proof {
                    assert(false);
                }
                Err(e)
            },
            Ok(()) => {
                proof {
                    assert(self@ =~= m0.insert(addr, rec@));
                    assert forall|a: u64| #[trigger] self.store@.contains_key(a) implies {
                        &&& self.store@[a].data is Some
                        &&& self.store@[a].data->0.wf()
                        &&& self.store@[a].capacity == RECORD_SPACE
                        &&& spec_derive(
                            self.store@[a].data->0.title,
                            self.store@[a].data->0.owner,
                        ) == a
                    } by {
                        if a != addr {
                            assert(old(self).store@.contains_key(a));
                        }
                    }
                }
                Ok(())
            },
        }
    }

    /// Replaces the message of the record at the address derived from
    /// `(title, caller)`. The title and the owner never change.
    pub fn update_journal_entry(
        &mut self,
        title: Vec<u8>,
        message: Vec<u8>,
        caller: u64,
    ) -> (r: Result<(), CrudError>)
        requires
            old(self).wf(),
        ensures
            final(self).wf(),
            r == spec_update(old(self)@, title@, message@, caller).0,
            final(self)@ == spec_update(old(self)@, title@, message@, caller).1,
    {
        let ghost m0 = self@;
        let addr = derive_address(&title, caller);
        let vres = validate_update(&title, caller, self.store.read(addr));
        if let Err(e) = vres {
            return Err(e);
        }
        proof {
            assert(self.store@.contains_key(addr));
        }
        let rec = match JournalEntryState::new(title, message, caller) {
            Err(e) => {
                return Err(e);
            },
            Ok(rec) => rec,
        };
        proof {
            lemma_wf_record_fits(rec@);
        }
        match self.store.write(addr, rec) {
            Err(e) => {
                proof {
                    assert(false);
                }
                Err(e)
            },
            Ok(()) => {
                proof {
                    assert(self@ =~= spec_update(m0, title@, message@, caller).1);
                    assert forall|a: u64| #[trigger] self.store@.contains_key(a) implies {
                        &&& self.store@[a].data is Some
                        &&& self.store@[a].data->0.wf()
                        &&& self.store@[a].capacity == RECORD_SPACE
                        &&& spec_derive(
                            self.store@[a].data->0.title,
                            self.store@[a].data->0.owner,
                        ) == a
                    } by {
                        if a != addr {
                            assert(old(self).store@.contains_key(a));
                        }
                    }
                }
                Ok(())
            },
        }
    }

    /// Removes the record at the address derived from `(title, caller)`
    /// and returns the reclaimed slot capacity, refunded to the caller.
    pub fn delete_journal_entry(&mut self, title: Vec<u8>, caller: u64) -> (r: Result<
        u64,
        CrudError,
    >)
        requires
            old(self).wf(),
        ensures
            final(self).wf(),
            r == spec_delete(old(self)@, title@, caller).0,
            final(self)@ == spec_delete(old(self)@, title@, caller).1,
    {
        let ghost m0 = self@;
        let addr = derive_address(&title, caller);
        let vres = validate_delete(caller, self.store.read(addr));
        if let Err(e) = vres {
            return Err(e);
        }
        match self.store.deallocate(addr) {
            Err(e) => {
                proof {
                    assert(false);
                }
                Err(e)
            },
            Ok(refund) => {
                proof {
                    assert(self@ =~= m0.remove(addr));
                    assert forall|a: u64| #[trigger] self.store@.contains_key(a) implies {
                        &&& self.store@[a].data is Some
                        &&& self.store@[a].data->0.wf()
                        &&& self.store@[a].capacity == RECORD_SPACE
                        &&& spec_derive(
                            self.store@[a].data->0.title,
                            self.store@[a].data->0.owner,
                        ) == a
                    } by {
                        assert(old(self).store@.contains_key(a));
                    }
                }
                Ok(refund)
            },
        }
    }

    /// Reads the record stored at `addr`, if there is one.
    pub fn read_journal_entry(&self, addr: u64) -> (r: Option<&JournalEntryState>)
        requires
            self.wf(),
        ensures
            match r {
                Some(rec) => self@.contains_key(addr) && rec@ == self@[addr],
                None => !self@.contains_key(addr),
            },
    {
        self.store.read(addr)
    }
}

} // verus!
