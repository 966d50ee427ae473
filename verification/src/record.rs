//! The journal record: its field limits and its serialized footprint.

use vstd::prelude::*;

use crate::errors::CrudError;

verus! {

/// Largest allowed title, in bytes.
pub const TITLE_MAX_BYTES: usize = 50;

/// Largest allowed message, in bytes.
pub const MESSAGE_MAX_BYTES: usize = 1000;

/// Size of the leading discriminator tag in a serialized record.
pub const RECORD_TAG_BYTES: usize = 8;

/// Size of the length prefix written before each variable-length field.
pub const LEN_PREFIX_BYTES: usize = 4;

/// Size of the fixed-width owner identity in a serialized record.
pub const OWNER_ID_BYTES: usize = 8;

/// Capacity reserved for one record slot: tag, length-prefixed title at
/// its largest, length-prefixed message at its largest, owner identity.
/// Records are not resizable, so every slot is sized for the worst case.
pub const RECORD_SPACE: u64 = 8 + 4 + 50 + 4 + 1000 + 8;

/// Mathematical model of a stored record.
pub struct RecordView {
    pub title: Seq<u8>,
    pub message: Seq<u8>,
    pub owner: u64,
}

impl RecordView {
    /// Both variable-length fields are within their byte limits.
    pub open spec fn wf(self) -> bool {
        &&& self.title.len() <= TITLE_MAX_BYTES
        &&& self.message.len() <= MESSAGE_MAX_BYTES
    }

    /// Bytes this record occupies in the serialized slot layout:
    /// tag, then each field behind a length prefix, then the owner.
    pub open spec fn serialized_size(self) -> int {
        RECORD_TAG_BYTES + LEN_PREFIX_BYTES + self.title.len() + LEN_PREFIX_BYTES
            + self.message.len() + OWNER_ID_BYTES
    }
}

/// One journal record: a title that addresses it, a mutable message, and
/// the identity that created it.
pub struct JournalEntryState {
    pub title: Vec<u8>,
    pub message: Vec<u8>,
    pub owner: u64,
}

impl View for JournalEntryState {
    type V = RecordView;

    open spec fn view(&self) -> RecordView {
        RecordView { title: self.title@, message: self.message@, owner: self.owner }
    }
}

impl JournalEntryState {
    /// Builds a record, enforcing the field byte limits. This is the only
    /// way length violations surface: a too-long title or message is
    /// rejected as `CapacityExceeded` before any storage is touched.
    pub fn new(title: Vec<u8>, message: Vec<u8>, owner: u64) -> (r: Result<
        JournalEntryState,
        CrudError,
    >)
        ensures
            title@.len() <= TITLE_MAX_BYTES && message@.len() <= MESSAGE_MAX_BYTES ==> (r matches
                Ok(rec) && rec@ == (RecordView { title: title@, message: message@, owner })),
            title@.len() > TITLE_MAX_BYTES || message@.len() > MESSAGE_MAX_BYTES ==> r === Err(
                CrudError::CapacityExceeded,
            ),
            r matches Ok(rec) ==> rec@.wf(),
    {
        if title.len() > TITLE_MAX_BYTES || message.len() > MESSAGE_MAX_BYTES {
            Err(CrudError::CapacityExceeded)
        } else {
            Ok(JournalEntryState { title, message, owner })
        }
    }
}

/// A well-formed record always fits in the worst-case slot capacity.
pub proof fn lemma_wf_record_fits(rec: RecordView)
    requires
        rec.wf(),
    ensures
        rec.serialized_size() <= RECORD_SPACE,
{
}

} // verus!
