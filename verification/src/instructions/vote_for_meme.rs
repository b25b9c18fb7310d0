//! Voting for a submission while its challenge is active.

use vstd::prelude::*;
use crate::address::{claim, spec_claim, spec_derive, spec_verify, verify, Namespace};
use crate::error::ErrorCode;
use crate::guard::{is_signer, within_window, Signer};
use crate::ledger::{ended_as, lemma_votes_bound, lemma_votes_update, votes_cast, Ledger, LedgerView};
use crate::pubkey::Pubkey;
use crate::state::meme_challenge::{MemeChallenge, MemeChallengeView};
use crate::state::meme_submission::{MemeSubmission, MemeSubmissionView};
use crate::state::voter_record::VoterRecord;
use crate::store::{place, Entry};

verus! {

/// What a request to vote names: who pays, who votes, the submission, its
/// challenge, its submitter, and the address of the vote to record.
#[derive(Clone, Copy, Debug)]
pub struct VoteForMeme {
    pub fee_payer: Signer,
    pub voter: Signer,
    pub submission: Pubkey,
    pub challenge: Pubkey,
    pub submitter: Pubkey,
    pub voter_record: Pubkey,
}

/// Whether the total of the challenge named, if it is stored, can still
/// grow by one.
pub open spec fn has_room(before: LedgerView, challenge: Pubkey) -> bool {
    before.challenges.contains_key(challenge) ==> before.challenges[challenge].total_votes < u32::MAX
}

/// The rule of a vote on a submission and a challenge whose addresses have
/// been checked, recorded at an address that has been derived with `bump`.
/// Both the payer and the voter must have signed, the submission and the
/// challenge must exist and belong together, the voter must not have voted
/// on the submission before, `now` must lie after the start and before the
/// end of the challenge, and the voter must not be the submitter. Then, all
/// at once, the vote is recorded, the submission holds one vote more, and so
/// does the total of the challenge.
pub open spec fn spec_apply(before: LedgerView, accounts: VoteForMeme, bump: u8, now: i64) -> Result<
    (LedgerView, ()),
    ErrorCode,
> {
    if !accounts.fee_payer.authorized || !accounts.voter.authorized {
        Err(ErrorCode::Unauthorized)
    } else if !before.submissions.contains_key(accounts.submission) || !before.challenges.contains_key(
        accounts.challenge,
    ) {
        Err(ErrorCode::NotFound)
    } else {
        let submission = before.submissions[accounts.submission];
        let challenge = before.challenges[accounts.challenge];
        if submission.challenge != accounts.challenge {
            Err(ErrorCode::AddressMismatch)
        } else if before.voters.contains_key(accounts.voter_record) {
            Err(ErrorCode::AlreadyVoted)
        } else if !challenge.active(now) {
            Err(ErrorCode::ChallengeInactive)
        } else if submission.submitter == accounts.voter.key {
            Err(ErrorCode::CannotVoteOwnSubmission)
        } else {
            Ok(
                (
                    LedgerView {
                        submissions: before.submissions.insert(
                            accounts.submission,
                            MemeSubmissionView { votes: (submission.votes + 1) as u32, ..submission },
                        ),
                        challenges: before.challenges.insert(
                            accounts.challenge,
                            MemeChallengeView { total_votes: (challenge.total_votes + 1) as u32, ..challenge },
                        ),
                        voters: before.voters.insert(
                            accounts.voter_record,
                            VoterRecord {
                                submission: accounts.submission,
                                voter: accounts.voter.key,
                                voted_at: now,
                                bump,
                            },
                        ),
                        ..before
                    },
                    (),
                ),
            )
        }
    }
}

/// Casts a vote on a submission and a challenge whose addresses have been
/// checked, recorded at an address that has been derived with `bump`.
pub fn apply(ledger: &mut Ledger, accounts: &VoteForMeme, bump: u8, now: i64) -> (result: Result<(), ErrorCode>)
    requires
        old(ledger).wf(),
        has_room(old(ledger)@, accounts.challenge),
    ensures
        final(ledger).wf(),
        ended_as(result, old(ledger)@, final(ledger)@, spec_apply(old(ledger)@, *accounts, bump, now)),
{
    is_signer(&accounts.fee_payer)?;
    is_signer(&accounts.voter)?;
    let submission = ledger.submissions.load(&accounts.submission)?;
    let challenge = ledger.challenges.load(&accounts.challenge)?;
    if submission.challenge != accounts.challenge {
        return Err(ErrorCode::AddressMismatch);
    }
    if ledger.voters.contains_key(&accounts.voter_record) {
        return Err(ErrorCode::AlreadyVoted);
    }
    if !within_window(now, challenge.start_time, challenge.end_time) {
        return Err(ErrorCode::ChallengeInactive);
    }
    if submission.submitter == accounts.voter.key {
        return Err(ErrorCode::CannotVoteOwnSubmission);
    }
    let ghost entries = ledger.submissions.entries@;
    let ghost at = place(entries, accounts.submission);
    proof {
        assert(crate::store::holds(entries, accounts.submission));
        lemma_votes_bound(entries, at);
    }
    let submission = ledger.submissions.mutate(&accounts.submission)?;
    submission.votes = submission.votes + 1;
    proof {
        let entry = ledger.submissions.entries@[at];
        assert(ledger.submissions.entries@ == entries.update(at, entry));
        assert forall|c: Pubkey|
            votes_cast(ledger.submissions.entries@, c) == votes_cast(entries, c) + if c == accounts.challenge {
                1int
            } else {
                0int
            } by {
            lemma_votes_update(entries, at, entry, c);
        }
    }
    let challenge = ledger.challenges.mutate(&accounts.challenge)?;
    challenge.total_votes = challenge.total_votes + 1;
    let record = VoterRecord { submission: accounts.submission, voter: accounts.voter.key, voted_at: now, bump };
    let _ = ledger.voters.create(accounts.voter_record, record);
    Ok(())
}

/// The rule of a vote. The submission must exist, and its stored bump must
/// prove its address from the challenge's address and the submitter that the
/// request names; the challenge must exist, and its stored bump must prove
/// its address from its creator and its start; the address presented for
/// the vote must be the one derived from the submission's address and the
/// voter. Then the rule of `apply` holds with the derived bump.
pub open spec fn spec_handler(before: LedgerView, accounts: VoteForMeme, now: i64) -> Result<
    (LedgerView, ()),
    ErrorCode,
> {
    if !before.submissions.contains_key(accounts.submission) {
        Err(ErrorCode::NotFound)
    } else if !spec_verify(
        Namespace::Submission,
        MemeSubmission::spec_parts(accounts.challenge, accounts.submitter),
        before.submissions[accounts.submission].bump,
        accounts.submission@,
    ) {
        Err(ErrorCode::AddressMismatch)
    } else if !before.challenges.contains_key(accounts.challenge) {
        Err(ErrorCode::NotFound)
    } else if !spec_verify(
        Namespace::Challenge,
        MemeChallenge::spec_parts(
            before.challenges[accounts.challenge].creator,
            before.challenges[accounts.challenge].start_time,
        ),
        before.challenges[accounts.challenge].bump,
        accounts.challenge@,
    ) {
        Err(ErrorCode::AddressMismatch)
    } else {
        match spec_claim(
            spec_derive(Namespace::Voter, VoterRecord::spec_parts(accounts.submission, accounts.voter.key)),
            accounts.voter_record,
        ) {
            Err(e) => Err(e),
            Ok(bump) => spec_apply(before, accounts, bump, now),
        }
    }
}

/// Casts the voter's vote for the submission.
pub fn handler(ledger: &mut Ledger, accounts: &VoteForMeme, now: i64) -> (result: Result<(), ErrorCode>)
    requires
        old(ledger).wf(),
        has_room(old(ledger)@, accounts.challenge),
    ensures
        final(ledger).wf(),
        ended_as(result, old(ledger)@, final(ledger)@, spec_handler(old(ledger)@, *accounts, now)),
{
    let submission = ledger.submissions.load(&accounts.submission)?;
    let submission_parts = MemeSubmission::parts(&accounts.challenge, &accounts.submitter);
    if !verify(Namespace::Submission, &submission_parts, submission.bump, &accounts.submission) {
        return Err(ErrorCode::AddressMismatch);
    }
    let challenge = ledger.challenges.load(&accounts.challenge)?;
    let challenge_parts = MemeChallenge::parts(&challenge.creator, challenge.start_time);
    if !verify(Namespace::Challenge, &challenge_parts, challenge.bump, &accounts.challenge) {
        return Err(ErrorCode::AddressMismatch);
    }
    let parts = VoterRecord::parts(&accounts.submission, &accounts.voter.key);
    let derived = crate::address::derive(Namespace::Voter, &parts);
    let bump = claim(&derived, &accounts.voter_record)?;
    apply(ledger, accounts, bump, now)
}

} // verus!
