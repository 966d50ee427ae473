use crudapp::addressing::derive_address;
use crudapp::errors::CrudError;
use crudapp::record::JournalEntryState;
use crudapp::record::RECORD_SPACE;
use crudapp::store::RecordStore;
use crudapp::validator::bytes_eq;
use crudapp::validator::validate_create;
use crudapp::validator::validate_delete;
use crudapp::validator::validate_update;

fn text(s: &str) -> Vec<u8> {
    s.as_bytes().to_vec()
}

fn sample_record(title: &str, message: &str, owner: u64) -> JournalEntryState {
    JournalEntryState {
        title: text(title),
        message: text(message),
        owner,
    }
}

#[test]
fn derive_is_deterministic() {
    let a1 = derive_address(&text("Diary"), 7);
    let a2 = derive_address(&text("Diary"), 7);
    assert_eq!(a1, a2);
}

#[test]
fn derive_separates_titles_and_owners() {
    let base = derive_address(&text("Diary"), 7);
    assert_ne!(base, derive_address(&text("Diary2"), 7));
    assert_ne!(base, derive_address(&text("diary"), 7));
    assert_ne!(base, derive_address(&text("Diary"), 8));
    assert_ne!(base, derive_address(&text(""), 7));
}

#[test]
fn record_constructor_enforces_limits() {
    assert!(JournalEntryState::new(text("Diary"), text("hello"), 7).is_ok());
    assert!(JournalEntryState::new(vec![b't'; 50], vec![b'm'; 1000], 7).is_ok());
    assert!(matches!(
        JournalEntryState::new(vec![b't'; 51], text("hello"), 7),
        Err(CrudError::CapacityExceeded)
    ));
    assert!(matches!(
        JournalEntryState::new(text("Diary"), vec![b'm'; 1001], 7),
        Err(CrudError::CapacityExceeded)
    ));
}

#[test]
fn record_space_reserves_worst_case() {
    // tag + title prefix + 50 + message prefix + 1000 + owner identity
    assert_eq!(RECORD_SPACE, 8 + 4 + 50 + 4 + 1000 + 8);
}

#[test]
fn bytes_eq_compares_contents() {
    assert!(bytes_eq(&text("Diary"), &text("Diary")));
    assert!(!bytes_eq(&text("Diary"), &text("diary")));
    assert!(!bytes_eq(&text("Diary"), &text("Diar")));
    assert!(bytes_eq(&text(""), &text("")));
}

#[test]
fn validator_create_rejects_occupied_address() {
    let rec = sample_record("Diary", "Day one", 7);
    assert_eq!(validate_create(None), Ok(()));
    assert_eq!(validate_create(Some(&rec)), Err(CrudError::AddressOccupied));
}

#[test]
fn validator_update_checks_in_order() {
    let rec = sample_record("Diary", "Day one", 7);
    assert_eq!(
        validate_update(&text("Diary"), 7, None),
        Err(CrudError::NotFound)
    );
    assert_eq!(
        validate_update(&text("Diary"), 8, Some(&rec)),
        Err(CrudError::OwnerMismatch)
    );
    assert_eq!(
        validate_update(&text("WrongTitle"), 7, Some(&rec)),
        Err(CrudError::TitleImmutable)
    );
    // Owner is checked before title: a foreign caller with a wrong
    // title is reported as a mismatched owner.
    assert_eq!(
        validate_update(&text("WrongTitle"), 8, Some(&rec)),
        Err(CrudError::OwnerMismatch)
    );
    assert_eq!(validate_update(&text("Diary"), 7, Some(&rec)), Ok(()));
}

#[test]
fn validator_delete_checks_owner_but_not_title() {
    let rec = sample_record("Diary", "Day one", 7);
    assert_eq!(validate_delete(7, None), Err(CrudError::NotFound));
    assert_eq!(validate_delete(8, Some(&rec)), Err(CrudError::OwnerMismatch));
    assert_eq!(validate_delete(7, Some(&rec)), Ok(()));
}

#[test]
fn store_allocate_rejects_occupied_and_underfunded() {
    let mut s = RecordStore::new();
    assert_eq!(s.allocate(42, 100, 99), Err(CrudError::FundingFailed));
    assert_eq!(s.allocate(42, 100, 100), Ok(()));
    assert_eq!(s.allocate(42, 100, 500), Err(CrudError::AddressOccupied));
}

#[test]
fn store_read_requires_written_slot() {
    let mut s = RecordStore::new();
    assert!(s.read(42).is_none());
    assert_eq!(s.allocate(42, RECORD_SPACE, RECORD_SPACE), Ok(()));
    // Allocated but not yet written: nothing to read.
    assert!(s.read(42).is_none());
    assert_eq!(s.write(42, sample_record("Diary", "Day one", 7)), Ok(()));
    let rec = s.read(42).expect("written record");
    assert_eq!(rec.message, text("Day one"));
}

#[test]
fn store_write_requires_allocation_and_capacity() {
    let mut s = RecordStore::new();
    assert_eq!(
        s.write(42, sample_record("Diary", "Day one", 7)),
        Err(CrudError::NotFound)
    );
    // A slot of 30 bytes cannot hold the fixed overhead plus the
    // fields: tag 8 + prefixes 8 + owner 8 leave only 6 bytes.
    assert_eq!(s.allocate(42, 30, 30), Ok(()));
    assert_eq!(
        s.write(42, sample_record("Diary", "Day", 7)),
        Err(CrudError::CapacityExceeded)
    );
    assert_eq!(s.write(42, sample_record("Dia", "day", 7)), Ok(()));
}

#[test]
fn store_deallocate_refunds_capacity_once() {
    let mut s = RecordStore::new();
    assert_eq!(s.allocate(42, RECORD_SPACE, RECORD_SPACE), Ok(()));
    assert_eq!(s.deallocate(42), Ok(RECORD_SPACE));
    assert_eq!(s.deallocate(42), Err(CrudError::NotFound));
    assert!(s.read(42).is_none());
}
