use chumchon::address::{self, Namespace};
use chumchon::error::ErrorCode;
use chumchon::pubkey::Pubkey;
use chumchon::state::{
    Escrow, Group, GroupMember, Invite, MemeChallenge, MemeSubmission, Message, UserProfile, VoterRecord,
};

fn key(fill: u8) -> Pubkey {
    Pubkey { bytes: [fill; 32] }
}

fn program() -> anchor_lang::prelude::Pubkey {
    anchor_lang::prelude::Pubkey::new_from_array(address::ID_BYTES)
}

fn found(seeds: &[&[u8]]) -> (Pubkey, u8) {
    let (address, bump) = anchor_lang::prelude::Pubkey::find_program_address(seeds, &program());
    (Pubkey { bytes: address.to_bytes() }, bump)
}

/// A small generator of repeatable pseudo-random bytes.
fn next(state: &mut u64) -> u8 {
    *state = state.wrapping_mul(6364136223846793005).wrapping_add(1442695040888963407);
    (*state >> 33) as u8
}

fn random_bytes(state: &mut u64, len: usize) -> Vec<u8> {
    (0..len).map(|_| next(state)).collect()
}

#[test]
fn program_id_is_the_declared_key() {
    let declared: anchor_lang::prelude::Pubkey = "CVjwSHMQ9YTenzKwQczwXWzJFk5kwaUhKDtxDKVazJXj".parse().unwrap();
    assert_eq!(address::id().bytes, declared.to_bytes());
}

#[test]
fn tags_are_the_namespace_names() {
    assert_eq!(Namespace::User.tag(), b"user".to_vec());
    assert_eq!(Namespace::Group.tag(), b"group".to_vec());
    assert_eq!(Namespace::Member.tag(), b"member".to_vec());
    assert_eq!(Namespace::Invite.tag(), b"invite".to_vec());
    assert_eq!(Namespace::Challenge.tag(), b"challenge".to_vec());
    assert_eq!(Namespace::Submission.tag(), b"submission".to_vec());
    assert_eq!(Namespace::Voter.tag(), b"voter".to_vec());
    assert_eq!(Namespace::Escrow.tag(), b"escrow".to_vec());
    assert_eq!(Namespace::Message.tag(), b"message".to_vec());
}

#[test]
fn derive_agrees_with_find_program_address() {
    let owner = key(7);
    let parts = UserProfile::parts(&owner);
    assert_eq!(address::derive(Namespace::User, &parts), Some(found(&[b"user", owner.bytes.as_ref()])));
}

#[test]
fn derive_is_not_the_identity_on_its_input() {
    let owner = key(7);
    let (address, _) = address::derive(Namespace::User, &UserProfile::parts(&owner)).unwrap();
    assert_ne!(address, owner);
    assert_ne!(address, address::id());
}

#[test]
fn parts_of_every_kind_agree_with_the_seeds() {
    let a = key(1);
    let b = key(2);
    let name = String::from("devs");
    let time: i64 = -5;
    assert_eq!(
        address::derive(Namespace::Group, &Group::parts(&name, &a)),
        Some(found(&[b"group", name.as_bytes(), a.bytes.as_ref()]))
    );
    assert_eq!(
        address::derive(Namespace::Member, &GroupMember::parts(&a, &b)),
        Some(found(&[b"member", a.bytes.as_ref(), b.bytes.as_ref()]))
    );
    assert_eq!(
        address::derive(Namespace::Invite, &Invite::parts(&a, &name)),
        Some(found(&[b"invite", a.bytes.as_ref(), name.as_bytes()]))
    );
    assert_eq!(
        address::derive(Namespace::Challenge, &MemeChallenge::parts(&a, time)),
        Some(found(&[b"challenge", a.bytes.as_ref(), &time.to_le_bytes()]))
    );
    assert_eq!(
        address::derive(Namespace::Submission, &MemeSubmission::parts(&a, &b)),
        Some(found(&[b"submission", a.bytes.as_ref(), b.bytes.as_ref()]))
    );
    assert_eq!(
        address::derive(Namespace::Voter, &VoterRecord::parts(&a, &b)),
        Some(found(&[b"voter", a.bytes.as_ref(), b.bytes.as_ref()]))
    );
    assert_eq!(
        address::derive(Namespace::Escrow, &Escrow::parts(&a, time)),
        Some(found(&[b"escrow", a.bytes.as_ref(), &time.to_le_bytes()]))
    );
    assert_eq!(
        address::derive(Namespace::Message, &Message::parts(&a, &b)),
        Some(found(&[b"message", a.bytes.as_ref(), b.bytes.as_ref()]))
    );
}

#[test]
fn time_part_is_little_endian_twos_complement() {
    assert_eq!(address::time_part(1), vec![1, 0, 0, 0, 0, 0, 0, 0]);
    assert_eq!(address::time_part(0x0102030405060708), vec![8, 7, 6, 5, 4, 3, 2, 1]);
    assert_eq!(address::time_part(-1), vec![255; 8]);
    assert_eq!(address::time_part(i64::MIN), vec![0, 0, 0, 0, 0, 0, 0, 128]);
}

#[test]
fn text_part_is_utf8() {
    assert_eq!(address::text_part(&String::from("né")), vec![0x6e, 0xc3, 0xa9]);
    assert_eq!(address::key_part(&key(9)), vec![9; 32]);
}

#[test]
fn derive_is_deterministic() {
    let mut state = 11;
    for _ in 0..20 {
        let parts = vec![random_bytes(&mut state, 32), random_bytes(&mut state, 8)];
        let first = address::derive(Namespace::Escrow, &parts);
        let second = address::derive(Namespace::Escrow, &parts.clone());
        assert!(first.is_some());
        assert_eq!(first, second);
    }
}

#[test]
fn distinct_tuples_derive_distinct_addresses() {
    let namespaces = [
        Namespace::User,
        Namespace::Group,
        Namespace::Member,
        Namespace::Invite,
        Namespace::Challenge,
        Namespace::Submission,
        Namespace::Voter,
        Namespace::Escrow,
        Namespace::Message,
    ];
    let mut state = 2024;
    let mut seen: Vec<(usize, Vec<Vec<u8>>, Pubkey)> = Vec::new();
    for round in 0..90 {
        let which = round % namespaces.len();
        let parts = vec![random_bytes(&mut state, 32), random_bytes(&mut state, 1 + round % 32)];
        let (address, _) = address::derive(namespaces[which], &parts).unwrap();
        for (other_which, other_parts, other_address) in seen.iter() {
            if *other_which != which || *other_parts != parts {
                assert_ne!(*other_address, address);
            }
        }
        seen.push((which, parts, address));
    }
}

#[test]
fn derived_bump_proves_the_address() {
    let owner = key(3);
    let parts = UserProfile::parts(&owner);
    let (address, bump) = address::derive(Namespace::User, &parts).unwrap();
    assert!(address::verify(Namespace::User, &parts, bump, &address));
}

#[test]
fn verify_rejects_another_address_bump_or_namespace() {
    let owner = key(3);
    let parts = UserProfile::parts(&owner);
    let (address, bump) = address::derive(Namespace::User, &parts).unwrap();
    assert!(!address::verify(Namespace::User, &parts, bump, &key(3)));
    assert!(!address::verify(Namespace::User, &parts, bump.wrapping_sub(1), &address));
    assert!(!address::verify(Namespace::Group, &parts, bump, &address));
    assert!(!address::verify(Namespace::User, &UserProfile::parts(&key(4)), bump, &address));
}

#[test]
fn a_part_beyond_thirty_two_bytes_has_no_address() {
    let parts = vec![vec![0u8; 33]];
    assert_eq!(address::derive(Namespace::User, &parts), None);
    assert!(!address::verify(Namespace::User, &parts, 255, &key(0)));
}

#[test]
fn sixteen_seeds_are_too_many_for_a_derivation() {
    let parts: Vec<Vec<u8>> = (0..15).map(|i| vec![i as u8]).collect();
    assert_eq!(address::derive(Namespace::User, &parts), None);
    let fewer: Vec<Vec<u8>> = (0..14).map(|i| vec![i as u8]).collect();
    assert!(address::derive(Namespace::User, &fewer).is_some());
}

#[test]
fn agrees_compares_with_the_candidate() {
    assert!(address::agrees(&Some(key(1)), &key(1)));
    assert!(!address::agrees(&Some(key(1)), &key(2)));
    assert!(!address::agrees(&None, &key(1)));
}

#[test]
fn claim_takes_only_the_derived_address() {
    assert_eq!(address::claim(&Some((key(1), 254)), &key(1)), Ok(254));
    assert_eq!(address::claim(&Some((key(1), 254)), &key(2)), Err(ErrorCode::AddressMismatch));
    assert_eq!(address::claim(&None, &key(1)), Err(ErrorCode::AddressMismatch));
}

#[test]
fn keys_compare_by_their_bytes() {
    let mut other = key(5);
    assert_eq!(key(5), other);
    other.bytes[31] = 6;
    assert_ne!(key(5), other);
    assert_eq!(Pubkey::new_from_array([5; 32]), key(5));
    assert_eq!(key(5).to_vec(), vec![5u8; 32]);
}
