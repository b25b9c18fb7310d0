use chumchon::error::ErrorCode;
use chumchon::ledger::Ledger;
use chumchon::pubkey::Pubkey;
use chumchon::state::GroupMember;
use chumchon::store::Table;

fn key(fill: u8) -> Pubkey {
    Pubkey { bytes: [fill; 32] }
}

fn membership(fill: u8) -> GroupMember {
    GroupMember { group: key(fill), member: key(fill + 1), joined_at: fill as i64, bump: 255 }
}

#[test]
fn load_of_an_empty_address_is_not_found() {
    let table: Table<GroupMember> = Table::new();
    assert_eq!(table.load(&key(1)), Err(ErrorCode::NotFound));
    assert!(!table.contains_key(&key(1)));
    assert_eq!(table.find(&key(1)), None);
}

#[test]
fn create_then_load_gives_the_record() {
    let mut table: Table<GroupMember> = Table::new();
    assert_eq!(table.create(key(1), membership(10)), Ok(()));
    assert_eq!(table.create(key(2), membership(20)), Ok(()));
    assert_eq!(table.load(&key(1)), Ok(&membership(10)));
    assert_eq!(table.load(&key(2)), Ok(&membership(20)));
    assert_eq!(table.find(&key(2)), Some(1));
    assert!(table.contains_key(&key(2)));
}

#[test]
fn create_at_a_taken_address_already_exists() {
    let mut table: Table<GroupMember> = Table::new();
    assert_eq!(table.create(key(1), membership(10)), Ok(()));
    assert_eq!(table.create(key(1), membership(20)), Err(ErrorCode::AlreadyExists));
    assert_eq!(table.load(&key(1)), Ok(&membership(10)));
    assert_eq!(table.entries.len(), 1);
}

#[test]
fn mutate_changes_one_record_in_place() {
    let mut table: Table<GroupMember> = Table::new();
    table.create(key(1), membership(10)).unwrap();
    table.create(key(2), membership(20)).unwrap();
    table.mutate(&key(2)).unwrap().joined_at = 99;
    assert_eq!(table.load(&key(1)), Ok(&membership(10)));
    assert_eq!(table.load(&key(2)).unwrap().joined_at, 99);
    assert_eq!(table.load(&key(2)).unwrap().group, key(20));
}

#[test]
fn mutate_of_an_empty_address_is_not_found() {
    let mut table: Table<GroupMember> = Table::new();
    table.create(key(1), membership(10)).unwrap();
    assert_eq!(table.mutate(&key(3)).err(), Some(ErrorCode::NotFound));
    assert_eq!(table.load(&key(1)), Ok(&membership(10)));
}

#[test]
fn a_new_ledger_holds_no_record() {
    let ledger = Ledger::new();
    assert!(ledger.profiles.entries.is_empty());
    assert!(ledger.groups.entries.is_empty());
    assert!(ledger.members.entries.is_empty());
    assert!(ledger.invites.entries.is_empty());
    assert!(ledger.escrows.entries.is_empty());
    assert!(ledger.challenges.entries.is_empty());
    assert!(ledger.submissions.entries.is_empty());
    assert!(ledger.voters.entries.is_empty());
    assert!(ledger.messages.entries.is_empty());
}
