use chumchon::address::{self, Namespace};
use chumchon::error::ErrorCode;
use chumchon::guard::{Signer, Transfer};
use chumchon::instructions::create_group::{self, CreateGroup};
use chumchon::instructions::create_meme_challenge::{self, CreateMemeChallenge};
use chumchon::instructions::end_meme_challenge::{self, EndMemeChallenge};
use chumchon::instructions::join_group::{self, JoinGroup};
use chumchon::instructions::send_message::{self, SendMessage};
use chumchon::instructions::submit_meme::{self, SubmitMeme};
use chumchon::instructions::tip_message::{self, TipMessage};
use chumchon::instructions::vote_for_meme::{self, VoteForMeme};
use chumchon::ledger::Ledger;
use chumchon::pubkey::Pubkey;
use chumchon::state::{Group, GroupMember, MemeChallenge, MemeSubmission, Message, VoterRecord};

fn key(fill: u8) -> Pubkey {
    Pubkey { bytes: [fill; 32] }
}

fn signer(fill: u8) -> Signer {
    Signer { key: key(fill), authorized: true }
}

fn at(namespace: Namespace, parts: Vec<Vec<u8>>) -> Pubkey {
    address::derive(namespace, &parts).unwrap().0
}

/// A transfer capability for the scenario: balances by key, refusing what
/// the payer does not have.
fn pay(balances: &mut Vec<(Pubkey, u64)>, transfer: &Transfer) -> Result<(), String> {
    let from = balances.iter().position(|(who, _)| *who == transfer.from).unwrap();
    if balances[from].1 < transfer.amount {
        return Err(String::from("insufficient funds"));
    }
    balances[from].1 -= transfer.amount;
    let to = balances.iter().position(|(who, _)| *who == transfer.to).unwrap();
    balances[to].1 += transfer.amount;
    Ok(())
}

#[test]
fn group_message_and_tip_end_to_end() {
    let mut ledger = Ledger::new();
    let creator = signer(1);
    let member = signer(2);
    let tipper = signer(3);
    let name = String::from("devs");
    let group = at(Namespace::Group, Group::parts(&name, &creator.key));

    let founded = create_group::handler(
        &mut ledger,
        &CreateGroup { fee_payer: creator, creator, group },
        name.clone(),
        String::from("people who build"),
        false,
        false,
        None,
        0,
        None,
        0,
        1_000,
    );
    assert_eq!(founded, Ok(()));
    assert_eq!(ledger.groups.load(&group).unwrap().member_count, 0);
    assert_eq!(ledger.groups.load(&group).unwrap().name, "devs");
    assert_eq!(ledger.groups.load(&group).unwrap().created_at, 1_000);

    let member_record = at(Namespace::Member, GroupMember::parts(&group, &member.key));
    let joined = join_group::handler(
        &mut ledger,
        &JoinGroup {
            fee_payer: member,
            member,
            member_balance: 0,
            group,
            member_record,
            member_token_account: None,
            member_nft_account: None,
        },
        1_001,
    );
    assert_eq!(joined, Ok(()));
    assert_eq!(ledger.groups.load(&group).unwrap().member_count, 1);
    assert_eq!(
        ledger.members.load(&member_record),
        Ok(&GroupMember {
            group,
            member: member.key,
            joined_at: 1_001,
            bump: address::derive(Namespace::Member, &GroupMember::parts(&group, &member.key)).unwrap().1,
        })
    );

    let message = at(Namespace::Message, Message::parts(&group, &member.key));
    let content = "a".repeat(1000);
    let sent = send_message::handler(
        &mut ledger,
        &SendMessage { fee_payer: member, sender: member, group, member_record, message },
        content.clone(),
        1_002,
    );
    assert_eq!(sent, Ok(()));
    assert_eq!(ledger.messages.load(&message).unwrap().content, content);
    assert_eq!(ledger.messages.load(&message).unwrap().sender, member.key);
    assert_eq!(ledger.messages.load(&message).unwrap().timestamp, 1_002);
    assert_eq!(ledger.messages.load(&message).unwrap().tips_received, 0);

    let mut balances = vec![(tipper.key, 500u64), (member.key, 0u64)];
    let tip = tip_message::handler(
        &mut ledger,
        &TipMessage { tipper, message, group, recipient: member.key },
        100,
    );
    assert_eq!(tip, Ok(Transfer { from: tipper.key, to: member.key, authority: tipper.key, amount: 100 }));
    assert_eq!(pay(&mut balances, &tip.unwrap()), Ok(()));
    assert_eq!(ledger.messages.load(&message).unwrap().tips_received, 100);
    assert_eq!(balances, vec![(tipper.key, 400), (member.key, 100)]);
}

#[test]
fn challenge_submission_vote_and_end() {
    let mut ledger = Ledger::new();
    let now = 5_000;
    let creator = signer(1);
    let submitter = signer(2);
    let voter = signer(3);
    let challenge = at(Namespace::Challenge, MemeChallenge::parts(&creator.key, now + 10));

    let announced = create_meme_challenge::handler(
        &mut ledger,
        &CreateMemeChallenge { fee_payer: creator, creator, challenge },
        String::from("Best meme"),
        String::from("Make us laugh"),
        String::from("cats"),
        1,
        now + 10,
        now + 20,
        now,
    );
    assert_eq!(announced, Ok(()));

    let submission = at(Namespace::Submission, MemeSubmission::parts(&challenge, &submitter.key));
    let accounts = SubmitMeme { fee_payer: submitter, submitter, challenge, submission };
    let early = submit_meme::handler(
        &mut ledger,
        &accounts,
        String::from("test_image_url"),
        String::from("Test Title"),
        String::from("Test Description"),
        now + 5,
    );
    assert_eq!(early, Err(ErrorCode::ChallengeNotStarted));
    assert_eq!(ledger.challenges.load(&challenge).unwrap().submission_count, 0);
    assert!(ledger.submissions.entries.is_empty());

    let creator_end = EndMemeChallenge { fee_payer: creator, challenge, creator };
    assert_eq!(end_meme_challenge::handler(&mut ledger, &creator_end, now + 25), Err(ErrorCode::NoSubmissions));
    assert!(!ledger.challenges.load(&challenge).unwrap().completed);

    let on_time = submit_meme::handler(
        &mut ledger,
        &accounts,
        String::from("test_image_url"),
        String::from("Test Title"),
        String::from("Test Description"),
        now + 15,
    );
    assert_eq!(on_time, Ok(()));
    assert_eq!(ledger.challenges.load(&challenge).unwrap().submission_count, 1);
    assert_eq!(ledger.submissions.load(&submission).unwrap().votes, 0);
    assert_eq!(ledger.submissions.load(&submission).unwrap().submitted_at, now + 15);

    let voter_record = at(Namespace::Voter, VoterRecord::parts(&submission, &voter.key));
    let vote = VoteForMeme {
        fee_payer: voter,
        voter,
        submission,
        challenge,
        submitter: submitter.key,
        voter_record,
    };
    assert_eq!(vote_for_meme::handler(&mut ledger, &vote, now + 16), Ok(()));
    assert_eq!(ledger.submissions.load(&submission).unwrap().votes, 1);
    assert_eq!(ledger.challenges.load(&challenge).unwrap().total_votes, 1);
    assert_eq!(ledger.voters.load(&voter_record).unwrap().voter, voter.key);
    assert_eq!(ledger.voters.load(&voter_record).unwrap().submission, submission);
    assert_eq!(ledger.voters.load(&voter_record).unwrap().voted_at, now + 16);

    assert_eq!(end_meme_challenge::handler(&mut ledger, &creator_end, now + 19), Err(ErrorCode::ChallengeNotEnded));
    assert_eq!(end_meme_challenge::handler(&mut ledger, &creator_end, now + 25), Ok(()));
    assert!(ledger.challenges.load(&challenge).unwrap().completed);
    assert_eq!(ledger.challenges.load(&challenge).unwrap().winner, None);
    assert_eq!(
        end_meme_challenge::handler(&mut ledger, &creator_end, now + 26),
        Err(ErrorCode::ChallengeAlreadyCompleted)
    );
}
