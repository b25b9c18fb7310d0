//! Entering a meme into a challenge while it is active.

use vstd::prelude::*;
use crate::address::{claim, spec_claim, spec_derive, spec_verify, verify, Namespace};
use crate::error::ErrorCode;
use crate::guard::{is_signer, Signer};
use crate::ledger::{ended_as, lemma_votes_push, Ledger, LedgerView};
use crate::pubkey::Pubkey;
use crate::state::meme_challenge::{MemeChallenge, MemeChallengeView};
use crate::state::meme_submission::{MemeSubmission, MemeSubmissionView};
use crate::store::Entry;
use crate::text::{byte_len, len_of};

verus! {

/// What a request to submit a meme names: who pays, who submits, the
/// challenge, and the address of the submission to create.
#[derive(Clone, Copy, Debug)]
pub struct SubmitMeme {
    pub fee_payer: Signer,
    pub submitter: Signer,
    pub challenge: Pubkey,
    pub submission: Pubkey,
}

/// Whether the submission count of the challenge named, if it is stored, can
/// still grow by one.
pub open spec fn has_room(before: LedgerView, challenge: Pubkey) -> bool {
    before.challenges.contains_key(challenge) ==> before.challenges[challenge].submission_count < u32::MAX
}

/// The rule of a submission to a challenge whose address has been checked,
/// at an address that has been derived with `bump`. Both the payer and the
/// submitter must have signed, the challenge must exist, no record may stand
/// at the submission's address, `now` must lie after the start and before
/// the end of the challenge, and the texts must be within their bounds. Then
/// the submission is stored without votes and the challenge counts one
/// submission more.
pub open spec fn spec_apply(
    before: LedgerView,
    accounts: SubmitMeme,
    bump: u8,
    image_url: Seq<char>,
    title: Seq<char>,
    description: Seq<char>,
    now: i64,
) -> Result<(LedgerView, ()), ErrorCode> {
    if !accounts.fee_payer.authorized || !accounts.submitter.authorized {
        Err(ErrorCode::Unauthorized)
    } else if !before.challenges.contains_key(accounts.challenge) {
        Err(ErrorCode::NotFound)
    } else if before.submissions.contains_key(accounts.submission) {
        Err(ErrorCode::AlreadyExists)
    } else {
        let challenge = before.challenges[accounts.challenge];
        if now <= challenge.start_time {
            Err(ErrorCode::ChallengeNotStarted)
        } else if now >= challenge.end_time {
            Err(ErrorCode::ChallengeEnded)
        } else if byte_len(image_url) > MemeSubmission::MAX_URL {
            Err(ErrorCode::UrlTooLong)
        } else if byte_len(title) > MemeSubmission::MAX_TITLE {
            Err(ErrorCode::TitleTooLong)
        } else if byte_len(description) > MemeSubmission::MAX_DESCRIPTION {
            Err(ErrorCode::DescriptionTooLong)
        } else {
            Ok(
                (
                    LedgerView {
                        submissions: before.submissions.insert(
                            accounts.submission,
                            MemeSubmissionView {
                                challenge: accounts.challenge,
                                submitter: accounts.submitter.key,
                                image_url,
                                title,
                                description,
                                votes: 0,
                                submitted_at: now,
                                bump,
                            },
                        ),
                        challenges: before.challenges.insert(
                            accounts.challenge,
                            MemeChallengeView {
                                submission_count: (challenge.submission_count + 1) as u32,
                                ..challenge
                            },
                        ),
                        ..before
                    },
                    (),
                ),
            )
        }
    }
}

/// Stores a submission to a challenge whose address has been checked, at an
/// address that has been derived with `bump`.
pub fn apply(
    ledger: &mut Ledger,
    accounts: &SubmitMeme,
    bump: u8,
    image_url: String,
    title: String,
    description: String,
    now: i64,
) -> (result: Result<(), ErrorCode>)
    requires
        old(ledger).wf(),
        has_room(old(ledger)@, accounts.challenge),
    ensures
        final(ledger).wf(),
        ended_as(
            result,
            old(ledger)@,
            final(ledger)@,
            spec_apply(old(ledger)@, *accounts, bump, image_url@, title@, description@, now),
        ),
{
    is_signer(&accounts.fee_payer)?;
    is_signer(&accounts.submitter)?;
    let challenge = ledger.challenges.load(&accounts.challenge)?;
    if ledger.submissions.contains_key(&accounts.submission) {
        return Err(ErrorCode::AlreadyExists);
    }
    if now <= challenge.start_time {
        return Err(ErrorCode::ChallengeNotStarted);
    }
    if now >= challenge.end_time {
        return Err(ErrorCode::ChallengeEnded);
    }
    if len_of(&image_url) > MemeSubmission::MAX_URL {
        return Err(ErrorCode::UrlTooLong);
    }
    if len_of(&title) > MemeSubmission::MAX_TITLE {
        return Err(ErrorCode::TitleTooLong);
    }
    if len_of(&description) > MemeSubmission::MAX_DESCRIPTION {
        return Err(ErrorCode::DescriptionTooLong);
    }
    let submission = MemeSubmission {
        challenge: accounts.challenge,
        submitter: accounts.submitter.key,
        image_url,
        title,
        description,
        votes: 0,
        submitted_at: now,
        bump,
    };
    proof {
        let entry = Entry { address: accounts.submission, record: submission };
        assert forall|c: Pubkey|
            crate::ledger::votes_cast(ledger.submissions.entries@.push(entry), c) == crate::ledger::votes_cast(
                ledger.submissions.entries@,
                c,
            ) by {
            lemma_votes_push(ledger.submissions.entries@, entry, c);
        }
    }
    let _ = ledger.submissions.create(accounts.submission, submission);
    let challenge = ledger.challenges.mutate(&accounts.challenge)?;
    challenge.submission_count = challenge.submission_count + 1;
    Ok(())
}

/// The rule of a submission. The challenge must exist, and its stored bump
/// must prove its address from its creator and its start; the address
/// presented for the submission must be the one derived from the
/// challenge's address and the submitter. Then the rule of `apply` holds
/// with the derived bump.
pub open spec fn spec_handler(
    before: LedgerView,
    accounts: SubmitMeme,
    image_url: Seq<char>,
    title: Seq<char>,
    description: Seq<char>,
    now: i64,
) -> Result<(LedgerView, ()), ErrorCode> {
    if !before.challenges.contains_key(accounts.challenge) {
        Err(ErrorCode::NotFound)
    } else if !spec_verify(
        Namespace::Challenge,
        MemeChallenge::spec_parts(
            before.challenges[accounts.challenge].creator,
            before.challenges[accounts.challenge].start_time,
        ),
        before.challenges[accounts.challenge].bump,
        accounts.challenge@,
    ) {
        Err(ErrorCode::AddressMismatch)
    } else {
        match spec_claim(
            spec_derive(Namespace::Submission, MemeSubmission::spec_parts(accounts.challenge, accounts.submitter.key)),
            accounts.submission,
        ) {
            Err(e) => Err(e),
            Ok(bump) => spec_apply(before, accounts, bump, image_url, title, description, now),
        }
    }
}

/// Enters the submitter's meme into the challenge.
pub fn handler(
    ledger: &mut Ledger,
    accounts: &SubmitMeme,
    image_url: String,
    title: String,
    description: String,
    now: i64,
) -> (result: Result<(), ErrorCode>)
    requires
        old(ledger).wf(),
        has_room(old(ledger)@, accounts.challenge),
    ensures
        final(ledger).wf(),
        ended_as(
            result,
            old(ledger)@,
            final(ledger)@,
            spec_handler(old(ledger)@, *accounts, image_url@, title@, description@, now),
        ),
{
    let challenge = ledger.challenges.load(&accounts.challenge)?;
    let challenge_parts = MemeChallenge::parts(&challenge.creator, challenge.start_time);
    if !verify(Namespace::Challenge, &challenge_parts, challenge.bump, &accounts.challenge) {
        return Err(ErrorCode::AddressMismatch);
    }
    let parts = MemeSubmission::parts(&accounts.challenge, &accounts.submitter.key);
    let derived = crate::address::derive(Namespace::Submission, &parts);
    let bump = claim(&derived, &accounts.submission)?;
    apply(ledger, accounts, bump, image_url, title, description, now)
}

} // verus!
