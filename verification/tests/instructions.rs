use chumchon::address::{self, Namespace};
use chumchon::guard::{Signer, TokenHolding};
use chumchon::instructions::accept_escrow::{self, AcceptEscrow};
use chumchon::instructions::create_escrow::{self, CreateEscrow};
use chumchon::instructions::create_group::{self, CreateGroup};
use chumchon::instructions::create_invite::{self, CreateInvite};
use chumchon::instructions::create_meme_challenge::{self, CreateMemeChallenge};
use chumchon::instructions::create_user_profile::{self, CreateUserProfile};
use chumchon::instructions::end_meme_challenge::{self, EndMemeChallenge};
use chumchon::instructions::set_profile_nft::{self, SetProfileNft};
use chumchon::instructions::submit_meme::{self, SubmitMeme};
use chumchon::instructions::use_invite::{self, UseInvite};
use chumchon::instructions::vote_for_meme::{self, VoteForMeme};
use chumchon::ledger::Ledger;
use chumchon::pubkey::Pubkey;
use chumchon::state::{
    Escrow, Group, GroupMember, Invite, MemeChallenge, MemeSubmission, UserProfile, VoterRecord,
};

fn key(fill: u8) -> Pubkey {
    Pubkey { bytes: [fill; 32] }
}

fn signer(fill: u8) -> Signer {
    Signer { key: key(fill), authorized: true }
}

fn default_key() -> Pubkey {
    let system_program: anchor_lang::prelude::Pubkey = "11111111111111111111111111111111".parse().unwrap();
    Pubkey { bytes: system_program.to_bytes() }
}

fn default_signer() -> Signer {
    Signer { key: default_key(), authorized: true }
}

fn pda(seeds: &[&[u8]]) -> Pubkey {
    let program = anchor_lang::prelude::Pubkey::new_from_array(address::ID_BYTES);
    Pubkey { bytes: anchor_lang::prelude::Pubkey::find_program_address(seeds, &program).0.to_bytes() }
}

fn open_escrow(ledger: &mut Ledger, initiator: Signer, created_at: i64, expires_at: i64) -> Pubkey {
    let escrow = pda(&[b"escrow", initiator.key.bytes.as_ref(), &created_at.to_le_bytes()]);
    let accounts = CreateEscrow {
        fee_payer: signer(100),
        initiator,
        escrow,
        initiator_token_account: TokenHolding { address: key(20), mint: key(21), owner: initiator.key, amount: 5 },
        escrow_token_account_initiator: TokenHolding { address: key(30), mint: key(21), owner: escrow, amount: 0 },
    };
    let result =
        create_escrow::handler(ledger, &accounts, key(2), default_key(), 1, default_key(), 1, expires_at, created_at);
    assert!(result.is_ok());
    escrow
}

fn announce(ledger: &mut Ledger, creator: Signer, start_time: i64, now: i64) -> Pubkey {
    let challenge = pda(&[b"challenge", creator.key.bytes.as_ref(), &start_time.to_le_bytes()]);
    let result = create_meme_challenge::handler(
        ledger,
        &CreateMemeChallenge { fee_payer: signer(100), creator, challenge },
        String::from("Test Title"),
        String::from("Test Description"),
        String::from("Test Prompt"),
        1,
        start_time,
        start_time + 10,
        now,
    );
    assert!(result.is_ok());
    challenge
}

#[test]
fn accept_escrow_ix_success() {
    let mut ledger = Ledger::new();
    let created_at: i64 = 0;
    let escrow = open_escrow(&mut ledger, default_signer(), created_at, 1_000_000_000_000);
    assert_eq!(escrow, address::derive(Namespace::Escrow, &Escrow::parts(&default_key(), created_at)).unwrap().0);

    let result = accept_escrow::handler(
        &mut ledger,
        &AcceptEscrow { fee_payer: signer(100), escrow, counterparty: signer(2) },
        created_at,
        1,
    );

    assert!(result.is_ok());
    assert!(ledger.escrows.load(&escrow).unwrap().accepted);
}

#[test]
fn create_escrow_ix_success() {
    let mut ledger = Ledger::new();
    let created_at: i64 = 0;
    let initiator = signer(1);
    let escrow = pda(&[b"escrow", initiator.key.bytes.as_ref(), &created_at.to_le_bytes()]);
    let accounts = CreateEscrow {
        fee_payer: signer(100),
        initiator,
        escrow,
        initiator_token_account: TokenHolding { address: key(20), mint: key(21), owner: key(1), amount: 5 },
        escrow_token_account_initiator: TokenHolding { address: key(30), mint: key(21), owner: escrow, amount: 0 },
    };

    let result =
        create_escrow::handler(&mut ledger, &accounts, default_key(), default_key(), 1, default_key(), 1, 1, created_at);

    assert!(result.is_ok());
    assert_eq!(ledger.escrows.load(&escrow).unwrap().initiator, key(1));
    assert_eq!(ledger.escrows.load(&escrow).unwrap().counterparty, default_key());
}

#[test]
fn create_invite_ix_success() {
    let mut ledger = Ledger::new();
    let creator = signer(1);
    let name = String::new();
    let code = String::new();
    let group = pda(&[b"group", name.as_bytes(), creator.key.bytes.as_ref()]);
    let invite = pda(&[b"invite", group.bytes.as_ref(), code.as_bytes()]);
    assert_eq!(group, address::derive(Namespace::Group, &Group::parts(&name, &creator.key)).unwrap().0);
    assert_eq!(invite, address::derive(Namespace::Invite, &Invite::parts(&group, &code)).unwrap().0);
    let founded = create_group::handler(
        &mut ledger,
        &CreateGroup { fee_payer: signer(100), creator, group },
        name,
        String::new(),
        false,
        false,
        None,
        0,
        None,
        0,
        0,
    );
    assert!(founded.is_ok());

    let result = create_invite::handler(
        &mut ledger,
        &CreateInvite { fee_payer: signer(100), invite, group, creator },
        code,
        1,
        1,
        0,
    );

    assert!(result.is_ok());
    assert_eq!(ledger.invites.load(&invite).unwrap().uses, 0);
}

#[test]
fn end_meme_challenge_ix_success() {
    let mut ledger = Ledger::new();
    let creator = signer(1);
    let start_time: i64 = 1;
    let challenge = announce(&mut ledger, creator, start_time, 0);
    assert_eq!(
        challenge,
        address::derive(Namespace::Challenge, &MemeChallenge::parts(&creator.key, start_time)).unwrap().0
    );
    let submitter = signer(2);
    let submission = pda(&[b"submission", challenge.bytes.as_ref(), submitter.key.bytes.as_ref()]);
    let submitted = submit_meme::handler(
        &mut ledger,
        &SubmitMeme { fee_payer: signer(100), submitter, challenge, submission },
        String::from("test_image_url"),
        String::from("Test Title"),
        String::from("Test Description"),
        start_time + 1,
    );
    assert!(submitted.is_ok());

    let result = end_meme_challenge::handler(
        &mut ledger,
        &EndMemeChallenge { fee_payer: signer(100), challenge, creator },
        1_000_000_000_000,
    );

    assert!(result.is_ok());
    assert!(ledger.challenges.load(&challenge).unwrap().completed);
}

#[test]
fn set_profile_nft_ix_success() {
    let mut ledger = Ledger::new();
    let owner = signer(1);
    let nft_mint = default_key();
    let profile = pda(&[b"user", owner.key.bytes.as_ref()]);
    assert_eq!(profile, address::derive(Namespace::User, &UserProfile::parts(&owner.key)).unwrap().0);
    let created = create_user_profile::handler(
        &mut ledger,
        &CreateUserProfile { fee_payer: signer(100), profile, owner },
        String::new(),
        String::new(),
        false,
        0,
    );
    assert!(created.is_ok());

    let result = set_profile_nft::handler(
        &mut ledger,
        &SetProfileNft {
            fee_payer: signer(100),
            profile,
            owner,
            nft_token_account: TokenHolding { address: key(40), mint: nft_mint, owner: owner.key, amount: 1 },
        },
        nft_mint,
    );

    assert!(result.is_ok());
    assert_eq!(ledger.profiles.load(&profile).unwrap().nft_profile_picture, Some(nft_mint));
}

#[test]
fn submit_meme_ix_success() {
    let mut ledger = Ledger::new();
    let creator = default_signer();
    let start_time: i64 = 1;
    let image_url = String::from("test_image_url");
    let title = String::from("Test Title");
    let description = String::from("Test Description");
    let submitter = signer(2);
    let challenge = announce(&mut ledger, creator, start_time, 0);
    let submission = pda(&[b"submission", challenge.bytes.as_ref(), submitter.key.bytes.as_ref()]);
    assert_eq!(
        submission,
        address::derive(Namespace::Submission, &MemeSubmission::parts(&challenge, &submitter.key)).unwrap().0
    );

    let result = submit_meme::handler(
        &mut ledger,
        &SubmitMeme { fee_payer: signer(100), submitter, challenge, submission },
        image_url,
        title,
        description,
        start_time + 1,
    );

    assert!(result.is_ok());
    assert_eq!(ledger.submissions.load(&submission).unwrap().title, "Test Title");
    assert_eq!(ledger.submissions.load(&submission).unwrap().image_url, "test_image_url");
    assert_eq!(ledger.submissions.load(&submission).unwrap().description, "Test Description");
    assert_eq!(ledger.challenges.load(&challenge).unwrap().submission_count, 1);
}

#[test]
fn use_invite_ix_success() {
    let mut ledger = Ledger::new();
    let creator = default_signer();
    let name = String::new();
    let code = String::new();
    let member = signer(2);
    let group = pda(&[b"group", name.as_bytes(), creator.key.bytes.as_ref()]);
    let invite = pda(&[b"invite", group.bytes.as_ref(), code.as_bytes()]);
    let member_record = pda(&[b"member", group.bytes.as_ref(), member.key.bytes.as_ref()]);
    assert_eq!(
        member_record,
        address::derive(Namespace::Member, &GroupMember::parts(&group, &member.key)).unwrap().0
    );
    let founded = create_group::handler(
        &mut ledger,
        &CreateGroup { fee_payer: signer(100), creator, group },
        name,
        String::new(),
        false,
        false,
        None,
        0,
        None,
        0,
        0,
    );
    assert!(founded.is_ok());
    let issued = create_invite::handler(
        &mut ledger,
        &CreateInvite { fee_payer: signer(100), invite, group, creator },
        code.clone(),
        1,
        10,
        0,
    );
    assert!(issued.is_ok());

    let result = use_invite::handler(
        &mut ledger,
        &UseInvite { fee_payer: signer(100), member, invite, group, member_record },
        code,
        1,
    );

    assert!(result.is_ok());
    assert_eq!(ledger.invites.load(&invite).unwrap().uses, 1);
    assert_eq!(ledger.groups.load(&group).unwrap().member_count, 1);
    assert_eq!(ledger.members.load(&member_record).unwrap().member, member.key);
}

#[test]
fn vote_for_meme_ix_success() {
    let mut ledger = Ledger::new();
    let creator = signer(1);
    let submitter = default_signer();
    let voter = signer(3);
    let start_time: i64 = 1;
    let challenge = announce(&mut ledger, creator, start_time, 0);
    let submission = pda(&[b"submission", challenge.bytes.as_ref(), submitter.key.bytes.as_ref()]);
    let submitted = submit_meme::handler(
        &mut ledger,
        &SubmitMeme { fee_payer: signer(100), submitter, challenge, submission },
        String::from("test_image_url"),
        String::from("Test Title"),
        String::from("Test Description"),
        start_time + 1,
    );
    assert!(submitted.is_ok());
    let voter_record = pda(&[b"voter", submission.bytes.as_ref(), voter.key.bytes.as_ref()]);
    assert_eq!(
        voter_record,
        address::derive(Namespace::Voter, &VoterRecord::parts(&submission, &voter.key)).unwrap().0
    );

    let result = vote_for_meme::handler(
        &mut ledger,
        &VoteForMeme { fee_payer: signer(100), voter, submission, challenge, submitter: submitter.key, voter_record },
        start_time + 2,
    );

    assert!(result.is_ok());
    assert_eq!(ledger.submissions.load(&submission).unwrap().votes, 1);
    assert_eq!(ledger.challenges.load(&challenge).unwrap().total_votes, 1);
}
