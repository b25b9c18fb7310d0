use chumchon::address::{self, Namespace};
use chumchon::error::ErrorCode;
use chumchon::guard::{Signer, TokenHolding};
use chumchon::instructions::create_group::{self, CreateGroup};
use chumchon::instructions::join_group::{self, gates, JoinGroup};
use chumchon::ledger::Ledger;
use chumchon::pubkey::Pubkey;
use chumchon::state::{Group, GroupMember};

fn key(fill: u8) -> Pubkey {
    Pubkey { bytes: [fill; 32] }
}

fn signer(fill: u8) -> Signer {
    Signer { key: key(fill), authorized: true }
}

fn at(namespace: Namespace, parts: Vec<Vec<u8>>) -> Pubkey {
    address::derive(namespace, &parts).unwrap().0
}

fn holding(mint: u8, amount: u64) -> Option<TokenHolding> {
    Some(TokenHolding { address: key(200), mint: key(mint), owner: key(2), amount })
}

const TOKEN: u8 = 50;
const COLLECTION: u8 = 60;

fn found_group(
    ledger: &mut Ledger,
    name: &str,
    token: Option<Pubkey>,
    amount: u64,
    collection: Option<Pubkey>,
    balance: u64,
) -> Pubkey {
    let group = at(Namespace::Group, Group::parts(&String::from(name), &key(1)));
    let result = create_group::handler(
        ledger,
        &CreateGroup { fee_payer: signer(1), creator: signer(1), group },
        String::from(name),
        String::from("a group"),
        false,
        balance > 0,
        token,
        amount,
        collection,
        balance,
        100,
    );
    assert_eq!(result, Ok(()));
    group
}

fn join(group: Pubkey, member: u8, balance: u64, token: Option<TokenHolding>, nft: Option<TokenHolding>) -> JoinGroup {
    JoinGroup {
        fee_payer: signer(member),
        member: signer(member),
        member_balance: balance,
        group,
        member_record: at(Namespace::Member, GroupMember::parts(&group, &key(member))),
        member_token_account: token,
        member_nft_account: nft,
    }
}

#[test]
fn a_token_gate_refuses_a_caller_without_a_holding() {
    let mut ledger = Ledger::new();
    let group = found_group(&mut ledger, "holders", Some(key(TOKEN)), 10, None, 0);
    assert_eq!(join_group::handler(&mut ledger, &join(group, 2, 0, None, None), 101), Err(ErrorCode::InvalidToken));
    assert_eq!(ledger.groups.load(&group).unwrap().member_count, 0);
    assert!(ledger.members.entries.is_empty());
}

#[test]
fn a_token_gate_refuses_a_holding_of_another_mint() {
    let mut ledger = Ledger::new();
    let group = found_group(&mut ledger, "holders", Some(key(TOKEN)), 10, None, 0);
    assert_eq!(
        join_group::handler(&mut ledger, &join(group, 2, 0, holding(TOKEN + 1, 1_000), None), 101),
        Err(ErrorCode::InvalidToken)
    );
    assert_eq!(ledger.groups.load(&group).unwrap().member_count, 0);
}

#[test]
fn a_token_gate_refuses_too_small_a_holding() {
    let mut ledger = Ledger::new();
    let group = found_group(&mut ledger, "holders", Some(key(TOKEN)), 10, None, 0);
    assert_eq!(
        join_group::handler(&mut ledger, &join(group, 2, 0, holding(TOKEN, 9), None), 101),
        Err(ErrorCode::InsufficientTokenBalance)
    );
    assert_eq!(ledger.groups.load(&group).unwrap().member_count, 0);
}

#[test]
fn a_sufficient_holding_joins_and_counts_one_member() {
    let mut ledger = Ledger::new();
    let group = found_group(&mut ledger, "holders", Some(key(TOKEN)), 10, None, 0);
    let accounts = join(group, 2, 0, holding(TOKEN, 10), None);
    assert_eq!(join_group::handler(&mut ledger, &accounts, 101), Ok(()));
    assert_eq!(ledger.groups.load(&group).unwrap().member_count, 1);
    assert_eq!(ledger.members.load(&accounts.member_record).unwrap().member, key(2));
    assert_eq!(join_group::handler(&mut ledger, &join(group, 3, 0, holding(TOKEN, 11), None), 102), Ok(()));
    assert_eq!(ledger.groups.load(&group).unwrap().member_count, 2);
}

#[test]
fn nobody_joins_twice() {
    let mut ledger = Ledger::new();
    let group = found_group(&mut ledger, "open", None, 0, None, 0);
    let accounts = join(group, 2, 0, None, None);
    assert_eq!(join_group::handler(&mut ledger, &accounts, 101), Ok(()));
    assert_eq!(join_group::handler(&mut ledger, &accounts, 102), Err(ErrorCode::AlreadyExists));
    assert_eq!(ledger.groups.load(&group).unwrap().member_count, 1);
    assert_eq!(ledger.members.load(&accounts.member_record).unwrap().joined_at, 101);
}

#[test]
fn a_balance_gate_asks_for_the_balance() {
    let mut ledger = Ledger::new();
    let group = found_group(&mut ledger, "whales", None, 0, None, 1_000);
    assert_eq!(
        join_group::handler(&mut ledger, &join(group, 2, 999, None, None), 101),
        Err(ErrorCode::InsufficientSolBalance)
    );
    assert_eq!(join_group::handler(&mut ledger, &join(group, 2, 1_000, None, None), 101), Ok(()));
    assert_eq!(ledger.groups.load(&group).unwrap().member_count, 1);
}

#[test]
fn an_nft_gate_asks_for_exactly_one_unit_of_the_collection() {
    let mut ledger = Ledger::new();
    let group = found_group(&mut ledger, "collectors", None, 0, Some(key(COLLECTION)), 0);
    assert_eq!(join_group::handler(&mut ledger, &join(group, 2, 0, None, None), 101), Err(ErrorCode::NoNFT));
    assert_eq!(
        join_group::handler(&mut ledger, &join(group, 2, 0, None, holding(COLLECTION + 1, 1)), 101),
        Err(ErrorCode::InvalidNFT)
    );
    assert_eq!(
        join_group::handler(&mut ledger, &join(group, 2, 0, None, holding(COLLECTION, 0)), 101),
        Err(ErrorCode::NoNFT)
    );
    assert_eq!(
        join_group::handler(&mut ledger, &join(group, 2, 0, None, holding(COLLECTION, 2)), 101),
        Err(ErrorCode::NoNFT)
    );
    assert_eq!(ledger.groups.load(&group).unwrap().member_count, 0);
    assert_eq!(join_group::handler(&mut ledger, &join(group, 2, 0, None, holding(COLLECTION, 1)), 101), Ok(()));
    assert_eq!(ledger.groups.load(&group).unwrap().member_count, 1);
}

#[test]
fn every_gate_that_is_set_must_pass() {
    let mut ledger = Ledger::new();
    let group = found_group(&mut ledger, "all", Some(key(TOKEN)), 10, Some(key(COLLECTION)), 1_000);
    let stored = ledger.groups.load(&group).unwrap().clone();
    assert_eq!(gates(&stored, 999, &holding(TOKEN, 10), &holding(COLLECTION, 1)), Err(ErrorCode::InsufficientSolBalance));
    assert_eq!(gates(&stored, 1_000, &None, &holding(COLLECTION, 1)), Err(ErrorCode::InvalidToken));
    assert_eq!(gates(&stored, 1_000, &holding(TOKEN, 10), &None), Err(ErrorCode::NoNFT));
    assert_eq!(gates(&stored, 1_000, &holding(TOKEN, 10), &holding(COLLECTION, 1)), Ok(()));
}

#[test]
fn join_checks_the_signature_the_group_and_the_address() {
    let mut ledger = Ledger::new();
    let group = found_group(&mut ledger, "open", None, 0, None, 0);
    let good = join(group, 2, 0, None, None);
    let mut wrong = good;
    wrong.member.authorized = false;
    assert_eq!(join_group::handler(&mut ledger, &wrong, 101), Err(ErrorCode::Unauthorized));
    wrong = good;
    wrong.member_record = key(90);
    assert_eq!(join_group::handler(&mut ledger, &wrong, 101), Err(ErrorCode::AddressMismatch));
    assert_eq!(join_group::handler(&mut ledger, &join(key(91), 2, 0, None, None), 101), Err(ErrorCode::NotFound));
    assert!(ledger.members.entries.is_empty());
}

#[test]
fn create_group_refuses_long_texts_and_a_second_group() {
    let mut ledger = Ledger::new();
    let name = "n".repeat(33);
    let accounts = CreateGroup { fee_payer: signer(1), creator: signer(1), group: key(92) };
    assert_eq!(
        create_group::handler(&mut ledger, &accounts, name, String::new(), false, false, None, 0, None, 0, 100),
        Err(ErrorCode::NameTooLong)
    );
    let name = "n".repeat(32);
    let group = at(Namespace::Group, Group::parts(&name, &key(1)));
    let accounts = CreateGroup { fee_payer: signer(1), creator: signer(1), group };
    assert_eq!(
        create_group::handler(&mut ledger, &accounts, name.clone(), "d".repeat(257), false, false, None, 0, None, 0, 100),
        Err(ErrorCode::DescriptionTooLong)
    );
    assert_eq!(
        create_group::handler(
            &mut ledger,
            &CreateGroup { fee_payer: signer(1), creator: signer(1), group: key(93) },
            name.clone(),
            String::new(),
            false,
            false,
            None,
            0,
            None,
            0,
            100
        ),
        Err(ErrorCode::AddressMismatch)
    );
    assert!(ledger.groups.entries.is_empty());
    assert_eq!(
        create_group::handler(&mut ledger, &accounts, name.clone(), "d".repeat(256), true, false, None, 0, None, 0, 100),
        Ok(())
    );
    assert_eq!(
        create_group::handler(&mut ledger, &accounts, name, String::new(), false, false, None, 0, None, 0, 100),
        Err(ErrorCode::AlreadyExists)
    );
    assert!(ledger.groups.load(&group).unwrap().is_channel);
    assert_eq!(ledger.groups.load(&group).unwrap().message_count, 0);
    assert_eq!(ledger.groups.load(&group).unwrap().last_message_at, 0);
}
