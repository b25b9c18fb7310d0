//! Laws of voting: one vote each, none for oneself, every vote counted.

use vstd::prelude::*;
use crate::address::{spec_claim, spec_derive, Namespace};
use crate::error::ErrorCode;
use crate::instructions::end_meme_challenge::EndMemeChallenge;
use crate::instructions::submit_meme::SubmitMeme;
use crate::instructions::vote_for_meme::{has_room, spec_apply, spec_handler, VoteForMeme};
use crate::instructions::{end_meme_challenge, submit_meme};
use crate::ledger::{lemma_votes_bound, votes_cast, Ledger, LedgerView};
use crate::pubkey::Pubkey;
use crate::state::voter_record::VoterRecord;
use crate::store::{holds, place};

verus! {

/// Nobody votes for their own submission: such a vote is always refused,
/// and where nothing else stands against it, as `CannotVoteOwnSubmission`.
pub proof fn law_no_vote_for_oneself(before: LedgerView, accounts: VoteForMeme, bump: u8, now: i64)
    requires
        before.submissions.contains_key(accounts.submission),
        before.submissions[accounts.submission].submitter == accounts.voter.key,
    ensures
        spec_apply(before, accounts, bump, now) is Err,
        accounts.fee_payer.authorized && accounts.voter.authorized && before.challenges.contains_key(
            accounts.challenge,
        ) && before.submissions[accounts.submission].challenge == accounts.challenge
            && !before.voters.contains_key(accounts.voter_record) && before.challenges[accounts.challenge].active(
            now,
        ) ==> spec_apply(before, accounts, bump, now) == Err::<(LedgerView, ()), ErrorCode>(
            ErrorCode::CannotVoteOwnSubmission,
        ),
{
}

/// The same holds of whole requests: a request to vote for one's own
/// submission is refused.
pub proof fn law_no_request_to_vote_for_oneself(before: LedgerView, accounts: VoteForMeme, now: i64)
    requires
        before.submissions.contains_key(accounts.submission),
        before.submissions[accounts.submission].submitter == accounts.voter.key,
    ensures
        spec_handler(before, accounts, now) is Err,
{
}

/// Nobody votes twice on one submission: after a vote, every further vote
/// of the same voter on the same submission is refused, whatever address is
/// presented for it, and the same request again is refused as
/// `AlreadyVoted`.
pub proof fn law_one_vote_each(before: LedgerView, first: VoteForMeme, first_now: i64, second: VoteForMeme, second_now: i64)
    requires
        spec_handler(before, first, first_now) is Ok,
        second.submission == first.submission,
        second.voter.key == first.voter.key,
    ensures
        ({
            let after = spec_handler(before, first, first_now)->Ok_0;
            let after = after.0;
            &&& after.voters.contains_key(first.voter_record)
            &&& spec_handler(after, second, second_now) is Err
            &&& spec_handler(after, first, second_now) == Err::<(LedgerView, ()), ErrorCode>(
                ErrorCode::AlreadyVoted,
            )
        }),
{
    let derived = spec_derive(Namespace::Voter, VoterRecord::spec_parts(first.submission, first.voter.key));
    if spec_claim(derived, second.voter_record) is Ok {
        crate::pubkey::lemma_view_injective(first.voter_record, second.voter_record);
    }
}

/// A vote counts once in the submission and once in the challenge: after
/// it the submission holds one vote more and the total of its challenge is
/// one higher.
pub proof fn law_vote_counts_once(ledger: Ledger, accounts: VoteForMeme, bump: u8, now: i64)
    requires
        ledger.wf(),
        has_room(ledger@, accounts.challenge),
        spec_apply(ledger@, accounts, bump, now) is Ok,
    ensures
        ({
            let after = spec_apply(ledger@, accounts, bump, now)->Ok_0;
            let after = after.0;
            &&& after.submissions[accounts.submission].votes == ledger@.submissions[accounts.submission].votes + 1
            &&& after.challenges[accounts.challenge].total_votes
                == ledger@.challenges[accounts.challenge].total_votes + 1
        }),
{
    let entries = ledger.submissions.entries@;
    assert(holds(entries, accounts.submission));
    lemma_votes_bound(entries, place(entries, accounts.submission));
}

/// A challenge is completed once and for good: ending a completed
/// challenge is refused, and neither a submission nor a vote reopens it.
pub proof fn law_challenge_completed_for_good(
    before: LedgerView,
    challenge: Pubkey,
    end: EndMemeChallenge,
    submit: SubmitMeme,
    vote: VoteForMeme,
    bump: u8,
    image_url: Seq<char>,
    title: Seq<char>,
    description: Seq<char>,
    now: i64,
)
    requires
        before.challenges.contains_key(challenge),
        before.challenges[challenge].completed,
        end.challenge == challenge,
    ensures
        end_meme_challenge::spec_apply(before, end, now) is Err,
        end.fee_payer.authorized && end.creator.authorized && before.challenges[challenge].creator == end.creator.key
            && now >= before.challenges[challenge].end_time ==> end_meme_challenge::spec_apply(before, end, now)
            == Err::<(LedgerView, ()), ErrorCode>(ErrorCode::ChallengeAlreadyCompleted),
        match submit_meme::spec_apply(before, submit, bump, image_url, title, description, now) {
            Ok((after, _)) => after.challenges[challenge].completed,
            Err(_) => true,
        },
        match spec_apply(before, vote, bump, now) {
            Ok((after, _)) => after.challenges[challenge].completed,
            Err(_) => true,
        },
{
}

/// At all times the total of a challenge is the sum of the votes that its
/// submissions hold: this is part of what every transition keeps.
pub proof fn law_total_is_sum_of_votes(ledger: Ledger, challenge: Pubkey)
    requires
        ledger.wf(),
        ledger@.challenges.contains_key(challenge),
    ensures
        ledger@.challenges[challenge].total_votes == votes_cast(ledger.submissions.entries@, challenge),
{
}

/// Every submission of a well-formed ledger belongs to a stored challenge
/// and holds no more votes than the total of that challenge.
pub proof fn law_votes_within_total(ledger: Ledger, submission: Pubkey)
    requires
        ledger.wf(),
        ledger@.submissions.contains_key(submission),
    ensures
        ledger@.challenges.contains_key(ledger@.submissions[submission].challenge),
        ledger@.submissions[submission].votes <= ledger@.challenges[ledger@.submissions[submission].challenge].total_votes,
{
    let entries = ledger.submissions.entries@;
    assert(holds(entries, submission));
    lemma_votes_bound(entries, place(entries, submission));
}

} // verus!
