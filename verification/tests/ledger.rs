use chumchon::ledger::{is_balanced, votes_of, Ledger};
use chumchon::pubkey::Pubkey;
use chumchon::state::{Escrow, Group, Invite, MemeChallenge, MemeSubmission, Message, UserProfile};
use chumchon::store::{Entry, Record, Table};

fn key(fill: u8) -> Pubkey {
    Pubkey { bytes: [fill; 32] }
}

fn challenge(total_votes: u32) -> MemeChallenge {
    MemeChallenge {
        creator: key(1),
        title: String::from("t"),
        description: String::from("d"),
        prompt: String::from("p"),
        reward_amount: 1,
        start_time: 10,
        end_time: 20,
        submission_count: 3,
        total_votes,
        winner: None,
        completed: false,
        bump: 255,
    }
}

fn submission(challenge: Pubkey, submitter: u8, votes: u32) -> MemeSubmission {
    MemeSubmission {
        challenge,
        submitter: key(submitter),
        image_url: String::from("u"),
        title: String::from("t"),
        description: String::from("d"),
        votes,
        submitted_at: 11,
        bump: 255,
    }
}

fn contest(totals: (u32, u32), votes: &[(u8, u32)]) -> Ledger {
    let mut ledger = Ledger::new();
    ledger.challenges.create(key(100), challenge(totals.0)).unwrap();
    ledger.challenges.create(key(101), challenge(totals.1)).unwrap();
    for (n, (which, count)) in votes.iter().enumerate() {
        ledger.submissions.create(key(n as u8), submission(key(*which), 50 + n as u8, *count)).unwrap();
    }
    ledger
}

#[test]
fn a_new_ledger_is_well_formed() {
    assert!(Ledger::new().is_wf());
}

#[test]
fn votes_of_adds_up_the_submissions_of_one_challenge() {
    let ledger = contest((0, 0), &[(100, 3), (101, 5), (100, 4), (100, 0)]);
    assert_eq!(votes_of(&ledger.submissions, &key(100)), Some(7));
    assert_eq!(votes_of(&ledger.submissions, &key(101)), Some(5));
    assert_eq!(votes_of(&ledger.submissions, &key(102)), Some(0));
    assert_eq!(votes_of(&Table::new(), &key(100)), Some(0));
}

#[test]
fn votes_of_gives_up_beyond_what_a_total_counts() {
    let ledger = contest((0, 0), &[(100, u32::MAX), (101, 5), (100, 1)]);
    assert_eq!(votes_of(&ledger.submissions, &key(100)), None);
    let ledger = contest((0, 0), &[(100, u32::MAX - 1), (101, 5), (100, 1)]);
    assert_eq!(votes_of(&ledger.submissions, &key(100)), Some(u32::MAX));
}

#[test]
fn a_ledger_is_balanced_when_totals_are_sums() {
    let ledger = contest((7, 5), &[(100, 3), (101, 5), (100, 4)]);
    assert!(is_balanced(&ledger.challenges, &ledger.submissions));
    assert!(ledger.is_wf());
    let ledger = contest((7, 4), &[(100, 3), (101, 5), (100, 4)]);
    assert!(!is_balanced(&ledger.challenges, &ledger.submissions));
    assert!(!ledger.is_wf());
    let ledger = contest((8, 5), &[(100, 3), (101, 5), (100, 4)]);
    assert!(!ledger.is_wf());
}

#[test]
fn a_submission_to_no_stored_challenge_unbalances_the_ledger() {
    let ledger = contest((3, 0), &[(100, 3), (102, 0)]);
    assert!(!is_balanced(&ledger.challenges, &ledger.submissions));
    assert!(!ledger.is_wf());
}

#[test]
fn two_records_at_one_address_are_not_well_formed() {
    let mut ledger = contest((3, 0), &[(100, 3)]);
    assert!(ledger.challenges.is_wf());
    ledger.challenges.entries.push(Entry { address: key(101), record: challenge(0) });
    assert!(!ledger.challenges.is_wf());
    assert!(!ledger.is_wf());
}

#[test]
fn records_are_held_to_the_invariant_of_their_kind() {
    let good = Invite {
        group: key(1),
        creator: key(2),
        code: "c".repeat(32),
        max_uses: 2,
        uses: 2,
        expires_at: 5,
        bump: 255,
    };
    assert!(good.is_valid());
    assert!(!Invite { uses: 3, ..good.clone() }.is_valid());
    assert!(!Invite { max_uses: 0, uses: 0, ..good.clone() }.is_valid());
    assert!(!Invite { code: "c".repeat(33), ..good.clone() }.is_valid());

    let mut ledger = Ledger::new();
    ledger.invites.create(key(9), Invite { uses: 3, ..good }).unwrap();
    assert!(!ledger.invites.all_valid());
    assert!(!ledger.is_wf());

    assert!(challenge(0).is_valid());
    assert!(!MemeChallenge { end_time: 10, ..challenge(0) }.is_valid());
    assert!(!MemeChallenge { reward_amount: 0, ..challenge(0) }.is_valid());
    assert!(!MemeChallenge { completed: true, submission_count: 0, ..challenge(0) }.is_valid());
    assert!(!MemeChallenge { title: "t".repeat(65), ..challenge(0) }.is_valid());
    assert!(!MemeChallenge { prompt: "p".repeat(129), ..challenge(0) }.is_valid());
    assert!(submission(key(1), 2, 0).is_valid());
    assert!(!MemeSubmission { image_url: "u".repeat(257), ..submission(key(1), 2, 0) }.is_valid());
}

#[test]
fn escrows_groups_messages_and_profiles_are_held_to_theirs() {
    let escrow = Escrow {
        initiator: key(1),
        counterparty: key(2),
        group: key(3),
        initiator_token: key(4),
        initiator_amount: 1,
        counterparty_token: key(5),
        counterparty_amount: 1,
        status: 0,
        created_at: 10,
        expires_at: 11,
        accepted: false,
        accepted_at: None,
        completed: false,
        completed_at: None,
        bump: 255,
    };
    assert!(escrow.is_valid());
    assert!(!Escrow { completed: true, ..escrow.clone() }.is_valid());
    assert!(Escrow { completed: true, accepted: true, ..escrow.clone() }.is_valid());
    assert!(!Escrow { initiator_amount: 0, ..escrow.clone() }.is_valid());
    assert!(!Escrow { counterparty_amount: 0, ..escrow.clone() }.is_valid());
    assert!(!Escrow { expires_at: 10, ..escrow }.is_valid());

    let group = Group {
        name: "n".repeat(32),
        description: "d".repeat(256),
        creator: key(1),
        is_channel: false,
        is_whale_group: false,
        required_token: None,
        required_amount: 0,
        required_nft_collection: None,
        required_sol_balance: 0,
        member_count: 0,
        created_at: 0,
        last_message_at: 0,
        message_count: 0,
        bump: 255,
    };
    assert!(group.is_valid());
    assert!(!Group { name: "n".repeat(33), ..group.clone() }.is_valid());
    assert!(!Group { description: "d".repeat(257), ..group }.is_valid());

    let message = Message {
        group: key(1),
        sender: key(2),
        content: "c".repeat(1000),
        timestamp: 0,
        tips_received: 0,
        bump: 255,
    };
    assert!(message.is_valid());
    assert!(!Message { content: "c".repeat(1001), ..message }.is_valid());

    let profile = UserProfile {
        owner: key(1),
        username: "u".repeat(50),
        bio: "b".repeat(200),
        profile_picture_url: None,
        nft_profile_picture: None,
        show_balance: false,
        created_at: 0,
        last_active: 0,
        completed_tutorials: vec![4, 0, 10],
        tutorial_rewards: 3_000,
        bump: 255,
    };
    assert!(profile.is_valid());
    assert!(!UserProfile { username: "u".repeat(51), ..profile.clone() }.is_valid());
    assert!(!UserProfile { bio: "b".repeat(201), ..profile.clone() }.is_valid());
    assert!(!UserProfile { completed_tutorials: vec![4, 0, 4], ..profile.clone() }.is_valid());
    assert!(!UserProfile { completed_tutorials: vec![4, 0, 11], ..profile.clone() }.is_valid());
    assert!(!UserProfile { tutorial_rewards: 2_000, ..profile.clone() }.is_valid());
    assert!(UserProfile { completed_tutorials: Vec::new(), tutorial_rewards: 0, ..profile }.is_valid());
}
