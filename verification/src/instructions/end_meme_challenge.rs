//! Ending a meme challenge once its window has closed.

use vstd::prelude::*;
use crate::address::{spec_verify, verify, Namespace};
use crate::error::ErrorCode;
use crate::guard::{is_creator, is_signer, Signer};
use crate::ledger::{ended_as, Ledger, LedgerView};
use crate::pubkey::Pubkey;
use crate::state::meme_challenge::{MemeChallenge, MemeChallengeView};

verus! {

/// What a request to end a challenge names: who pays, the challenge, and its
/// creator.
#[derive(Clone, Copy, Debug)]
pub struct EndMemeChallenge {
    pub fee_payer: Signer,
    pub challenge: Pubkey,
    pub creator: Signer,
}

/// The rule of ending a challenge whose address has been checked. Both the
/// payer and the creator must have signed, the challenge must exist and name
/// the creator, its end must have come, it must not be completed yet, and it
/// must have a submission. Then the challenge is completed, for good.
pub open spec fn spec_apply(before: LedgerView, accounts: EndMemeChallenge, now: i64) -> Result<
    (LedgerView, ()),
    ErrorCode,
> {
    if !accounts.fee_payer.authorized || !accounts.creator.authorized {
        Err(ErrorCode::Unauthorized)
    } else if !before.challenges.contains_key(accounts.challenge) {
        Err(ErrorCode::NotFound)
    } else {
        let challenge = before.challenges[accounts.challenge];
        if challenge.creator != accounts.creator.key {
            Err(ErrorCode::NotGroupCreator)
        } else if now < challenge.end_time {
            Err(ErrorCode::ChallengeNotEnded)
        } else if challenge.completed {
            Err(ErrorCode::ChallengeAlreadyCompleted)
        } else if challenge.submission_count == 0 {
            Err(ErrorCode::NoSubmissions)
        } else {
            Ok(
                (
                    LedgerView {
                        challenges: before.challenges.insert(
                            accounts.challenge,
                            MemeChallengeView { completed: true, ..challenge },
                        ),
                        ..before
                    },
                    (),
                ),
            )
        }
    }
}

/// Ends a challenge whose address has been checked.
pub fn apply(ledger: &mut Ledger, accounts: &EndMemeChallenge, now: i64) -> (result: Result<(), ErrorCode>)
    requires
        old(ledger).wf(),
    ensures
        final(ledger).wf(),
        ended_as(result, old(ledger)@, final(ledger)@, spec_apply(old(ledger)@, *accounts, now)),
{
    is_signer(&accounts.fee_payer)?;
    is_signer(&accounts.creator)?;
    let challenge = ledger.challenges.load(&accounts.challenge)?;
    is_creator(&challenge.creator, &accounts.creator.key)?;
    if now < challenge.end_time {
        return Err(ErrorCode::ChallengeNotEnded);
    }
    if challenge.completed {
        return Err(ErrorCode::ChallengeAlreadyCompleted);
    }
    if challenge.submission_count == 0 {
        return Err(ErrorCode::NoSubmissions);
    }
    let challenge = ledger.challenges.mutate(&accounts.challenge)?;
    challenge.completed = true;
    Ok(())
}

/// The rule of ending a challenge. The challenge must exist, and its stored
/// bump must prove its address from its creator and its start; then the rule
/// of `apply` holds.
pub open spec fn spec_handler(before: LedgerView, accounts: EndMemeChallenge, now: i64) -> Result<
    (LedgerView, ()),
    ErrorCode,
> {
    if !before.challenges.contains_key(accounts.challenge) {
        Err(ErrorCode::NotFound)
    } else if !spec_verify(
        Namespace::Challenge,
        MemeChallenge::spec_parts(
            before.challenges[accounts.challenge].creator,
            before.challenges[accounts.challenge].start_time,
        ),
        before.challenges[accounts.challenge].bump,
        accounts.challenge@,
    ) {
        Err(ErrorCode::AddressMismatch)
    } else {
        spec_apply(before, accounts, now)
    }
}

/// Ends the challenge for its creator.
pub fn handler(ledger: &mut Ledger, accounts: &EndMemeChallenge, now: i64) -> (result: Result<(), ErrorCode>)
    requires
        old(ledger).wf(),
    ensures
        final(ledger).wf(),
        ended_as(result, old(ledger)@, final(ledger)@, spec_handler(old(ledger)@, *accounts, now)),
{
    let challenge = ledger.challenges.load(&accounts.challenge)?;
    let parts = MemeChallenge::parts(&challenge.creator, challenge.start_time);
    if !verify(Namespace::Challenge, &parts, challenge.bump, &accounts.challenge) {
        return Err(ErrorCode::AddressMismatch);
    }
    apply(ledger, accounts, now)
}

} // verus!
