//! Announcing a meme challenge.

use vstd::prelude::*;
use crate::address::{claim, spec_claim, spec_derive, Namespace};
use crate::error::ErrorCode;
use crate::guard::{is_signer, Signer};
use crate::ledger::{ended_as, lemma_votes_none, Ledger, LedgerView};
use crate::pubkey::Pubkey;
use crate::state::meme_challenge::{MemeChallenge, MemeChallengeView};
use crate::text::{byte_len, len_of};

verus! {

/// What a request to announce a challenge names: who pays, who announces,
/// and the address of the challenge to create.
#[derive(Clone, Copy, Debug)]
pub struct CreateMemeChallenge {
    pub fee_payer: Signer,
    pub creator: Signer,
    pub challenge: Pubkey,
}

/// The challenge that a request announces: without submissions, votes or
/// winner, and not completed.
pub open spec fn announced(
    accounts: CreateMemeChallenge,
    bump: u8,
    title: Seq<char>,
    description: Seq<char>,
    prompt: Seq<char>,
    reward_amount: u64,
    start_time: i64,
    end_time: i64,
) -> MemeChallengeView {
    MemeChallengeView {
        creator: accounts.creator.key,
        title,
        description,
        prompt,
        reward_amount,
        start_time,
        end_time,
        submission_count: 0,
        total_votes: 0,
        winner: None,
        completed: false,
        bump,
    }
}

/// The rule of announcing a challenge whose address has been derived with
/// `bump`. Both the payer and the creator must have signed, no record may
/// stand at the address, the texts must be within their bounds, the reward
/// must be positive, and the challenge must end after it starts and start
/// after `now`. Then the challenge is stored.
pub open spec fn spec_apply(
    before: LedgerView,
    accounts: CreateMemeChallenge,
    bump: u8,
    title: Seq<char>,
    description: Seq<char>,
    prompt: Seq<char>,
    reward_amount: u64,
    start_time: i64,
    end_time: i64,
    now: i64,
) -> Result<(LedgerView, ()), ErrorCode> {
    if !accounts.fee_payer.authorized || !accounts.creator.authorized {
        Err(ErrorCode::Unauthorized)
    } else if before.challenges.contains_key(accounts.challenge) {
        Err(ErrorCode::AlreadyExists)
    } else if byte_len(title) > MemeChallenge::MAX_TITLE {
        Err(ErrorCode::TitleTooLong)
    } else if byte_len(description) > MemeChallenge::MAX_DESCRIPTION {
        Err(ErrorCode::DescriptionTooLong)
    } else if byte_len(prompt) > MemeChallenge::MAX_PROMPT {
        Err(ErrorCode::PromptTooLong)
    } else if reward_amount == 0 {
        Err(ErrorCode::InvalidAmount)
    } else if end_time <= start_time || start_time <= now {
        Err(ErrorCode::InvalidExpiry)
    } else {
        Ok(
            (
                LedgerView {
                    challenges: before.challenges.insert(
                        accounts.challenge,
                        announced(accounts, bump, title, description, prompt, reward_amount, start_time, end_time),
                    ),
                    ..before
                },
                (),
            ),
        )
    }
}

/// Announces a challenge whose address has been derived with `bump`.
pub fn apply(
    ledger: &mut Ledger,
    accounts: &CreateMemeChallenge,
    bump: u8,
    title: String,
    description: String,
    prompt: String,
    reward_amount: u64,
    start_time: i64,
    end_time: i64,
    now: i64,
) -> (result: Result<(), ErrorCode>)
    requires
        old(ledger).wf(),
    ensures
        final(ledger).wf(),
        ended_as(
            result,
            old(ledger)@,
            final(ledger)@,
            spec_apply(
                old(ledger)@,
                *accounts,
                bump,
                title@,
                description@,
                prompt@,
                reward_amount,
                start_time,
                end_time,
                now,
            ),
        ),
{
    is_signer(&accounts.fee_payer)?;
    is_signer(&accounts.creator)?;
    if ledger.challenges.contains_key(&accounts.challenge) {
        return Err(ErrorCode::AlreadyExists);
    }
    if len_of(&title) > MemeChallenge::MAX_TITLE {
        return Err(ErrorCode::TitleTooLong);
    }
    if len_of(&description) > MemeChallenge::MAX_DESCRIPTION {
        return Err(ErrorCode::DescriptionTooLong);
    }
    if len_of(&prompt) > MemeChallenge::MAX_PROMPT {
        return Err(ErrorCode::PromptTooLong);
    }
    if reward_amount == 0 {
        return Err(ErrorCode::InvalidAmount);
    }
    if end_time <= start_time || start_time <= now {
        return Err(ErrorCode::InvalidExpiry);
    }
    let challenge = MemeChallenge {
        creator: accounts.creator.key,
        title,
        description,
        prompt,
        reward_amount,
        start_time,
        end_time,
        submission_count: 0,
        total_votes: 0,
        winner: None,
        completed: false,
        bump,
    };
    proof {
        lemma_votes_none(ledger.submissions.entries@, accounts.challenge);
    }
    let _ = ledger.challenges.create(accounts.challenge, challenge);
    Ok(())
}

/// The rule of announcing a challenge. The address presented for the
/// challenge must be the one derived from the creator and the start; then
/// the rule of `apply` holds with the derived bump.
pub open spec fn spec_handler(
    before: LedgerView,
    accounts: CreateMemeChallenge,
    title: Seq<char>,
    description: Seq<char>,
    prompt: Seq<char>,
    reward_amount: u64,
    start_time: i64,
    end_time: i64,
    now: i64,
) -> Result<(LedgerView, ()), ErrorCode> {
    match spec_claim(
        spec_derive(Namespace::Challenge, MemeChallenge::spec_parts(accounts.creator.key, start_time)),
        accounts.challenge,
    ) {
        Err(e) => Err(e),
        Ok(bump) => spec_apply(
            before,
            accounts,
            bump,
            title,
            description,
            prompt,
            reward_amount,
            start_time,
            end_time,
            now,
        ),
    }
}

/// Announces a challenge.
pub fn handler(
    ledger: &mut Ledger,
    accounts: &CreateMemeChallenge,
    title: String,
    description: String,
    prompt: String,
    reward_amount: u64,
    start_time: i64,
    end_time: i64,
    now: i64,
) -> (result: Result<(), ErrorCode>)
    requires
        old(ledger).wf(),
    ensures
        final(ledger).wf(),
        ended_as(
            result,
            old(ledger)@,
            final(ledger)@,
            spec_handler(
                old(ledger)@,
                *accounts,
                title@,
                description@,
                prompt@,
                reward_amount,
                start_time,
                end_time,
                now,
            ),
        ),
{
    let parts = MemeChallenge::parts(&accounts.creator.key, start_time);
    let derived = crate::address::derive(Namespace::Challenge, &parts);
    let bump = claim(&derived, &accounts.challenge)?;
    apply(ledger, accounts, bump, title, description, prompt, reward_amount, start_time, end_time, now)
}

} // verus!
