//! Laws relating the operations across calls and states.
//!
//! Each law is stated over the record-map model and the operation
//! outcome functions that the handlers are proved against, so it holds
//! of every sequence of handler calls on a well-formed journal.

use vstd::prelude::*;

use crate::addressing::spec_derive;
use crate::errors::CrudError;
use crate::journal::record_at;
use crate::journal::spec_create;
use crate::journal::spec_delete;
use crate::journal::spec_update;
use crate::record::RecordView;
use crate::record::MESSAGE_MAX_BYTES;
use crate::record::RECORD_SPACE;
use crate::record::TITLE_MAX_BYTES;

verus! {

/// A create of a valid record at a free, funded address succeeds, and a
/// read of the derived address afterwards finds exactly the supplied
/// title, message and owner.
pub proof fn lemma_create_then_read(
    m: Map<u64, RecordView>,
    title: Seq<u8>,
    message: Seq<u8>,
    owner: u64,
    funds: u64,
)
    requires
        title.len() <= TITLE_MAX_BYTES,
        message.len() <= MESSAGE_MAX_BYTES,
        !m.contains_key(spec_derive(title, owner)),
        funds >= RECORD_SPACE,
    ensures
        spec_create(m, title, message, owner, funds).0 == Ok::<(), CrudError>(()),
        record_at(spec_create(m, title, message, owner, funds).1, title, owner) == Some(
            (RecordView { title, message, owner }),
        ),
{
}

/// Creating the same `(title, owner)` pair twice fails the second time
/// with `AddressOccupied`, and the map stays exactly as the first create
/// left it.
pub proof fn lemma_create_twice_occupied(
    m: Map<u64, RecordView>,
    title: Seq<u8>,
    message1: Seq<u8>,
    funds1: u64,
    message2: Seq<u8>,
    funds2: u64,
    owner: u64,
)
    requires
        title.len() <= TITLE_MAX_BYTES,
        message1.len() <= MESSAGE_MAX_BYTES,
        message2.len() <= MESSAGE_MAX_BYTES,
        !m.contains_key(spec_derive(title, owner)),
        funds1 >= RECORD_SPACE,
    ensures
        ({
            let m1 = spec_create(m, title, message1, owner, funds1).1;
            &&& spec_create(m1, title, message2, owner, funds2).0 == Err::<(), CrudError>(
                CrudError::AddressOccupied,
            )
            &&& spec_create(m1, title, message2, owner, funds2).1 == m1
        }),
{
}

/// An update whose supplied title differs from the stored title of the
/// record at the derived address fails with `TitleImmutable`, and the
/// stored record is unchanged.
pub proof fn lemma_update_wrong_title_immutable(
    m: Map<u64, RecordView>,
    title: Seq<u8>,
    message: Seq<u8>,
    caller: u64,
)
    requires
        record_at(m, title, caller) matches Some(rec) && rec.owner == caller && rec.title != title,
    ensures
        spec_update(m, title, message, caller).0 == Err::<(), CrudError>(CrudError::TitleImmutable),
        spec_update(m, title, message, caller).1 == m,
{
}

/// An update by a caller who does not own the record at the derived
/// address fails with `OwnerMismatch`, and the stored record is
/// unchanged.
pub proof fn lemma_update_non_owner_rejected(
    m: Map<u64, RecordView>,
    title: Seq<u8>,
    message: Seq<u8>,
    caller: u64,
)
    requires
        record_at(m, title, caller) matches Some(rec) && rec.owner != caller,
    ensures
        spec_update(m, title, message, caller).0 == Err::<(), CrudError>(CrudError::OwnerMismatch),
        spec_update(m, title, message, caller).1 == m,
{
}

/// A successful delete refunds the full slot capacity, leaves nothing to
/// read at the derived address, and a create of the same `(title,
/// owner)` pair succeeds again: the address is reusable after deletion.
pub proof fn lemma_delete_frees_address(
    m: Map<u64, RecordView>,
    title: Seq<u8>,
    message: Seq<u8>,
    caller: u64,
    funds: u64,
)
    requires
        record_at(m, title, caller) matches Some(rec) && rec.owner == caller,
        title.len() <= TITLE_MAX_BYTES,
        message.len() <= MESSAGE_MAX_BYTES,
        funds >= RECORD_SPACE,
    ensures
        spec_delete(m, title, caller).0 == Ok::<u64, CrudError>(RECORD_SPACE),
        record_at(spec_delete(m, title, caller).1, title, caller) is None,
        spec_create(spec_delete(m, title, caller).1, title, message, caller, funds).0 == Ok::<
            (),
            CrudError,
        >(()),
{
}

/// A title or message over its byte limit makes a create fail with
/// `CapacityExceeded`, and no record is left behind.
pub proof fn lemma_over_length_create_rejected(
    m: Map<u64, RecordView>,
    title: Seq<u8>,
    message: Seq<u8>,
    owner: u64,
    funds: u64,
)
    requires
        title.len() > TITLE_MAX_BYTES || message.len() > MESSAGE_MAX_BYTES,
    ensures
        spec_create(m, title, message, owner, funds).0 == Err::<(), CrudError>(
            CrudError::CapacityExceeded,
        ),
        spec_create(m, title, message, owner, funds).1 == m,
{
}

/// No failed operation mutates anything: whenever an outcome is an
/// error, the record map afterwards is the record map before.
pub proof fn lemma_failure_leaves_state_unchanged(
    m: Map<u64, RecordView>,
    title: Seq<u8>,
    message: Seq<u8>,
    caller: u64,
    funds: u64,
)
    ensures
        spec_create(m, title, message, caller, funds).0 is Err ==> spec_create(
            m,
            title,
            message,
            caller,
            funds,
        ).1 == m,
        spec_update(m, title, message, caller).0 is Err ==> spec_update(
            m,
            title,
            message,
            caller,
        ).1 == m,
        spec_delete(m, title, caller).0 is Err ==> spec_delete(m, title, caller).1 == m,
{
}

/// A successful update replaces only the message: the stored title and
/// owner of the record at the derived address never change.
pub proof fn lemma_update_preserves_title_and_owner(
    m: Map<u64, RecordView>,
    title: Seq<u8>,
    message: Seq<u8>,
    caller: u64,
)
    requires
        spec_update(m, title, message, caller).0 is Ok,
    ensures
        ({
            let addr = spec_derive(title, caller);
            let m1 = spec_update(m, title, message, caller).1;
            &&& m1.contains_key(addr)
            &&& m1[addr].title == m[addr].title
            &&& m1[addr].owner == m[addr].owner
            &&& m1[addr].message == message
        }),
{
}

} // verus!
