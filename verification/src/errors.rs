//! The failure kinds that journal operations can report.

use vstd::prelude::*;

verus! {

/// Every way a create, update or delete can fail. Each operation reports
/// the first violated condition and leaves the stored state untouched.
#[derive(Clone, Copy, Debug, PartialEq, Eq, Structural)]
pub enum CrudError {
    /// A create found a record already stored at the derived address.
    AddressOccupied,
    /// An update or delete found no record at the derived address.
    NotFound,
    /// The caller is not the owner of the record it tried to mutate.
    OwnerMismatch,
    /// An update supplied a title that differs from the stored title.
    /// The title is part of the address derivation, so it is immutable.
    TitleImmutable,
    /// A supplied title or message exceeds its fixed byte limit.
    CapacityExceeded,
    /// The caller could not fund the storage capacity of a new record.
    FundingFailed,
}

} // verus!
