//! Per-operation precondition checks, run before any mutation.
//!
//! Each check takes the caller-supplied fields and whatever record sits
//! at the derived address, and reports the first violated condition.
//! The owner and title checks are stated over the record actually found,
//! so they guard against caller/address desynchronization even though a
//! correctly derived address already pins both fields down.

use vstd::prelude::*;

use crate::errors::CrudError;
use crate::record::JournalEntryState;
use crate::record::RecordView;

verus! {

/// Byte-for-byte equality of two byte vectors.
pub fn bytes_eq(a: &Vec<u8>, b: &Vec<u8>) -> (r: bool)
    ensures
        r == (a@ == b@),
{
    if a.len() != b.len() {
        proof {
            assert(a@ != b@);
        }
        return false;
    }
    let mut i: usize = 0;
    while i < a.len()
        invariant
            i <= a.len(),
            a@.len() == b@.len(),
            forall|j: int| 0 <= j < i ==> a@[j] == b@[j],
        decreases a.len() - i,
    {
        if a[i] != b[i] {
            proof {
                assert(a@ != b@);
            }
            return false;
        }
        i = i + 1;
    }
    proof {
        assert(a@ =~= b@);
    }
    true
}

/// The record view behind an optional record reference.
pub open spec fn opt_view(existing: Option<&JournalEntryState>) -> Option<RecordView> {
    match existing {
        None => None,
        Some(rec) => Some(rec@),
    }
}

/// What a create requires of the slot at the derived address: it must
/// be empty.
pub open spec fn spec_validate_create(existing: Option<RecordView>) -> Result<(), CrudError> {
    match existing {
        Some(_) => Err(CrudError::AddressOccupied),
        None => Ok(()),
    }
}

/// What an update requires of the record at the derived address: one
/// must be there, owned by the caller, and the supplied title must match
/// the stored title exactly — the title is immutable because the address
/// is derived from it.
pub open spec fn spec_validate_update(
    existing: Option<RecordView>,
    title: Seq<u8>,
    caller: u64,
) -> Result<(), CrudError> {
    match existing {
        None => Err(CrudError::NotFound),
        Some(rec) => if rec.owner != caller {
            Err(CrudError::OwnerMismatch)
        } else if rec.title != title {
            Err(CrudError::TitleImmutable)
        } else {
            Ok(())
        },
    }
}

/// What a delete requires of the record at the derived address: one
/// must be there and be owned by the caller. The title needs no separate
/// check, since deletion removes the whole record.
pub open spec fn spec_validate_delete(
    existing: Option<RecordView>,
    caller: u64,
) -> Result<(), CrudError> {
    match existing {
        None => Err(CrudError::NotFound),
        Some(rec) => if rec.owner != caller {
            Err(CrudError::OwnerMismatch)
        } else {
            Ok(())
        },
    }
}

/// Validates a create: fails with `AddressOccupied` exactly when a
/// record is already stored at the derived address.
pub fn validate_create(existing: Option<&JournalEntryState>) -> (r: Result<(), CrudError>)
    ensures
        r == spec_validate_create(opt_view(existing)),
{
    match existing {
        Some(_) => Err(CrudError::AddressOccupied),
        None => Ok(()),
    }
}

/// Validates an update: `NotFound` when no record is stored, then
/// `OwnerMismatch` when the caller does not own it, then
/// `TitleImmutable` when the supplied title differs from the stored one.
pub fn validate_update(
    title: &Vec<u8>,
    caller: u64,
    existing: Option<&JournalEntryState>,
) -> (r: Result<(), CrudError>)
    ensures
        r == spec_validate_update(opt_view(existing), title@, caller),
{
    match existing {
        None => Err(CrudError::NotFound),
        Some(rec) => {
            if rec.owner != caller {
                Err(CrudError::OwnerMismatch)
            } else if !bytes_eq(&rec.title, title) {
                Err(CrudError::TitleImmutable)
            } else {
                Ok(())
            }
        },
    }
}

/// Validates a delete: `NotFound` when no record is stored, then
/// `OwnerMismatch` when the caller does not own it.
pub fn validate_delete(caller: u64, existing: Option<&JournalEntryState>) -> (r: Result<
    (),
    CrudError,
>)
    ensures
        r == spec_validate_delete(opt_view(existing), caller),
{
    match existing {
        None => Err(CrudError::NotFound),
        Some(rec) => {
            if rec.owner != caller {
                Err(CrudError::OwnerMismatch)
            } else {
                Ok(())
            }
        },
    }
}

} // verus!
