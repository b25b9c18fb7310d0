use chumchon::address::{self, Namespace};
use chumchon::error::ErrorCode;
use chumchon::guard::{Signer, Transfer};
use chumchon::instructions::create_group::{self, CreateGroup};
use chumchon::instructions::join_group::{self, JoinGroup};
use chumchon::instructions::send_message::{self, SendMessage};
use chumchon::instructions::tip_message::{self, TipMessage};
use chumchon::ledger::Ledger;
use chumchon::pubkey::Pubkey;
use chumchon::state::{Group, GroupMember, Message};

fn key(fill: u8) -> Pubkey {
    Pubkey { bytes: [fill; 32] }
}

fn signer(fill: u8) -> Signer {
    Signer { key: key(fill), authorized: true }
}

fn at(namespace: Namespace, parts: Vec<Vec<u8>>) -> Pubkey {
    address::derive(namespace, &parts).unwrap().0
}

fn found_group(ledger: &mut Ledger, name: &str, is_channel: bool) -> Pubkey {
    let group = at(Namespace::Group, Group::parts(&String::from(name), &key(1)));
    let result = create_group::handler(
        ledger,
        &CreateGroup { fee_payer: signer(1), creator: signer(1), group },
        String::from(name),
        String::new(),
        is_channel,
        false,
        None,
        0,
        None,
        0,
        100,
    );
    assert_eq!(result, Ok(()));
    group
}

fn join(ledger: &mut Ledger, group: Pubkey, member: u8) -> Pubkey {
    let member_record = at(Namespace::Member, GroupMember::parts(&group, &key(member)));
    let accounts = JoinGroup {
        fee_payer: signer(member),
        member: signer(member),
        member_balance: 0,
        group,
        member_record,
        member_token_account: None,
        member_nft_account: None,
    };
    assert_eq!(join_group::handler(ledger, &accounts, 101), Ok(()));
    member_record
}

fn send(group: Pubkey, sender: u8) -> SendMessage {
    SendMessage {
        fee_payer: signer(sender),
        sender: signer(sender),
        group,
        member_record: at(Namespace::Member, GroupMember::parts(&group, &key(sender))),
        message: at(Namespace::Message, Message::parts(&group, &key(sender))),
    }
}

#[test]
fn a_member_sends_a_message() {
    let mut ledger = Ledger::new();
    let group = found_group(&mut ledger, "devs", false);
    join(&mut ledger, group, 2);
    let accounts = send(group, 2);
    assert_eq!(send_message::handler(&mut ledger, &accounts, String::from("hi"), 102), Ok(()));
    assert_eq!(
        ledger.messages.load(&accounts.message),
        Ok(&Message {
            group,
            sender: key(2),
            content: String::from("hi"),
            timestamp: 102,
            tips_received: 0,
            bump: address::derive(Namespace::Message, &Message::parts(&group, &key(2))).unwrap().1,
        })
    );
    assert_eq!(
        send_message::handler(&mut ledger, &accounts, String::from("again"), 103),
        Err(ErrorCode::AlreadyExists)
    );
    assert_eq!(ledger.messages.load(&accounts.message).unwrap().content, "hi");
}

#[test]
fn only_members_send_messages() {
    let mut ledger = Ledger::new();
    let group = found_group(&mut ledger, "devs", false);
    let other = found_group(&mut ledger, "ops", false);
    join(&mut ledger, group, 2);
    let elsewhere = join(&mut ledger, other, 3);
    assert_eq!(
        send_message::handler(&mut ledger, &send(group, 3), String::from("hi"), 102),
        Err(ErrorCode::NotGroupMember)
    );
    let mut borrowed = send(group, 3);
    borrowed.member_record = send(group, 2).member_record;
    assert_eq!(
        send_message::handler(&mut ledger, &borrowed, String::from("hi"), 102),
        Err(ErrorCode::AddressMismatch)
    );
    assert_eq!(send_message::apply(&mut ledger, &borrowed, 255, String::from("hi"), 102), Err(ErrorCode::NotGroupMember));
    let mut foreign = send(group, 3);
    foreign.member_record = elsewhere;
    assert_eq!(send_message::apply(&mut ledger, &foreign, 255, String::from("hi"), 102), Err(ErrorCode::NotGroupMember));
    assert!(ledger.messages.entries.is_empty());
}

#[test]
fn a_message_is_at_most_a_thousand_bytes() {
    let mut ledger = Ledger::new();
    let group = found_group(&mut ledger, "devs", false);
    join(&mut ledger, group, 2);
    assert_eq!(
        send_message::handler(&mut ledger, &send(group, 2), "c".repeat(1001), 102),
        Err(ErrorCode::ContentTooLong)
    );
    assert!(ledger.messages.entries.is_empty());
    assert_eq!(send_message::handler(&mut ledger, &send(group, 2), "c".repeat(1000), 102), Ok(()));
}

#[test]
fn in_a_channel_only_the_creator_posts() {
    let mut ledger = Ledger::new();
    let channel = found_group(&mut ledger, "news", true);
    join(&mut ledger, channel, 1);
    join(&mut ledger, channel, 2);
    assert_eq!(
        send_message::handler(&mut ledger, &send(channel, 2), String::from("hi"), 102),
        Err(ErrorCode::ChannelPostingRestricted)
    );
    assert_eq!(send_message::handler(&mut ledger, &send(channel, 1), String::from("hi"), 102), Ok(()));
    assert_eq!(ledger.messages.entries.len(), 1);
}

#[test]
fn send_checks_the_signature_the_group_and_the_address() {
    let mut ledger = Ledger::new();
    let group = found_group(&mut ledger, "devs", false);
    join(&mut ledger, group, 2);
    let good = send(group, 2);
    let mut wrong = good;
    wrong.sender.authorized = false;
    assert_eq!(send_message::handler(&mut ledger, &wrong, String::from("hi"), 102), Err(ErrorCode::Unauthorized));
    wrong = good;
    wrong.message = key(70);
    assert_eq!(send_message::handler(&mut ledger, &wrong, String::from("hi"), 102), Err(ErrorCode::AddressMismatch));
    wrong = good;
    wrong.group = key(71);
    assert_eq!(send_message::handler(&mut ledger, &wrong, String::from("hi"), 102), Err(ErrorCode::NotFound));
    assert!(ledger.messages.entries.is_empty());
}

#[test]
fn a_tip_is_counted_and_paid_to_the_sender() {
    let mut ledger = Ledger::new();
    let group = found_group(&mut ledger, "devs", false);
    join(&mut ledger, group, 2);
    let message = send(group, 2).message;
    send_message::handler(&mut ledger, &send(group, 2), String::from("hi"), 102).unwrap();
    let accounts = TipMessage { tipper: signer(3), message, group, recipient: key(2) };
    assert_eq!(
        tip_message::handler(&mut ledger, &accounts, 100),
        Ok(Transfer { from: key(3), to: key(2), authority: key(3), amount: 100 })
    );
    assert_eq!(
        tip_message::handler(&mut ledger, &accounts, 23),
        Ok(Transfer { from: key(3), to: key(2), authority: key(3), amount: 23 })
    );
    assert_eq!(ledger.messages.load(&message).unwrap().tips_received, 123);
    assert_eq!(ledger.messages.load(&message).unwrap().content, "hi");
}

#[test]
fn a_tip_is_positive_signed_and_for_the_sender() {
    let mut ledger = Ledger::new();
    let group = found_group(&mut ledger, "devs", false);
    join(&mut ledger, group, 2);
    let message = send(group, 2).message;
    send_message::handler(&mut ledger, &send(group, 2), String::from("hi"), 102).unwrap();
    let good = TipMessage { tipper: signer(3), message, group, recipient: key(2) };
    assert_eq!(tip_message::handler(&mut ledger, &good, 0), Err(ErrorCode::InvalidAmount));
    assert_eq!(
        tip_message::handler(&mut ledger, &TipMessage { recipient: key(3), ..good }, 5),
        Err(ErrorCode::InvalidRecipient)
    );
    assert_eq!(
        tip_message::handler(
            &mut ledger,
            &TipMessage { tipper: Signer { key: key(3), authorized: false }, ..good },
            5
        ),
        Err(ErrorCode::Unauthorized)
    );
    assert_eq!(
        tip_message::handler(&mut ledger, &TipMessage { message: key(72), ..good }, 5),
        Err(ErrorCode::NotFound)
    );
    let other = found_group(&mut ledger, "ops", false);
    assert_eq!(
        tip_message::handler(&mut ledger, &TipMessage { group: other, ..good }, 5),
        Err(ErrorCode::AddressMismatch)
    );
    assert_eq!(ledger.messages.load(&message).unwrap().tips_received, 0);
}
