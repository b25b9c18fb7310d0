//! Recording that the owner of a profile has completed a tutorial.

use vstd::prelude::*;
use crate::address::{spec_verify, verify, Namespace};
use crate::error::ErrorCode;
use crate::guard::{is_signer, owns, Signer};
use crate::ledger::{ended_as, Ledger, LedgerView};
use crate::pubkey::Pubkey;
use crate::state::user_profile::{lemma_tutorials_bounded, UserProfile, UserProfileView};

verus! {

/// What a request to complete a tutorial names: who pays, the profile, and
/// the user who owns it.
#[derive(Clone, Copy, Debug)]
pub struct CompleteTutorial {
    pub fee_payer: Signer,
    pub profile: Pubkey,
    pub user: Signer,
}

/// Whether the tutorial is among the completed ones.
pub fn is_completed(completed: &Vec<u8>, tutorial_id: u8) -> (found: bool)
    ensures
        found == completed@.contains(tutorial_id),
{
    let mut i: usize = 0;
    while i < completed.len()
        invariant
            i <= completed@.len(),
            forall|j: int| 0 <= j < i ==> completed@[j] != tutorial_id,
        decreases completed@.len() - i,
    {
        if completed[i] == tutorial_id {
            return true;
        }
        i = i + 1;
    }
    false
}

/// The rule of completing a tutorial on a profile whose address has been
/// checked. Both the payer and the user must have signed, the profile must
/// exist and name the user as its owner, the tutorial must not be completed
/// already, and its id must be valid. Then the tutorial is the last of the
/// completed ones and the profile has earned one reward more.
pub open spec fn spec_apply(before: LedgerView, accounts: CompleteTutorial, tutorial_id: u8) -> Result<
    (LedgerView, ()),
    ErrorCode,
> {
    if !accounts.fee_payer.authorized || !accounts.user.authorized {
        Err(ErrorCode::Unauthorized)
    } else if !before.profiles.contains_key(accounts.profile) {
        Err(ErrorCode::NotFound)
    } else {
        let profile = before.profiles[accounts.profile];
        if profile.owner != accounts.user.key {
            Err(ErrorCode::NotOwner)
        } else if profile.completed_tutorials.contains(tutorial_id) {
            Err(ErrorCode::TutorialAlreadyCompleted)
        } else if tutorial_id > UserProfile::MAX_TUTORIAL_ID {
            Err(ErrorCode::InvalidTutorialId)
        } else {
            Ok(
                (
                    LedgerView {
                        profiles: before.profiles.insert(
                            accounts.profile,
                            UserProfileView {
                                completed_tutorials: profile.completed_tutorials.push(tutorial_id),
                                tutorial_rewards: (profile.tutorial_rewards + UserProfile::TUTORIAL_REWARD) as u64,
                                ..profile
                            },
                        ),
                        ..before
                    },
                    (),
                ),
            )
        }
    }
}

/// Completes a tutorial on a profile whose address has been checked.
pub fn apply(ledger: &mut Ledger, accounts: &CompleteTutorial, tutorial_id: u8) -> (result: Result<(), ErrorCode>)
    requires
        old(ledger).wf(),
    ensures
        final(ledger).wf(),
        ended_as(result, old(ledger)@, final(ledger)@, spec_apply(old(ledger)@, *accounts, tutorial_id)),
{
    is_signer(&accounts.fee_payer)?;
    is_signer(&accounts.user)?;
    let profile = ledger.profiles.load(&accounts.profile)?;
    owns(&profile.owner, &accounts.user.key)?;
    if is_completed(&profile.completed_tutorials, tutorial_id) {
        return Err(ErrorCode::TutorialAlreadyCompleted);
    }
    if tutorial_id > UserProfile::MAX_TUTORIAL_ID {
        return Err(ErrorCode::InvalidTutorialId);
    }
    proof {
        let completed = profile.completed_tutorials@;
        let after = completed.push(tutorial_id);
        assert(profile@.wf());
        assert(after.no_duplicates()) by {
            assert forall|i: int, j: int| 0 <= i < after.len() && 0 <= j < after.len() && i != j implies after[i]
                != after[j] by {
                if i < completed.len() && j < completed.len() {
                    assert(completed[i] != completed[j]);
                } else if i < completed.len() {
                    assert(completed.contains(completed[i]));
                } else {
                    assert(completed.contains(completed[j]));
                }
            }
        }
        lemma_tutorials_bounded(after);
    }
    let profile = ledger.profiles.mutate(&accounts.profile)?;
    profile.completed_tutorials.push(tutorial_id);
    profile.tutorial_rewards = profile.tutorial_rewards + UserProfile::TUTORIAL_REWARD;
    Ok(())
}

/// The rule of completing a tutorial. The profile must exist, and its stored
/// bump must prove its address from the user that the request names; then
/// the rule of `apply` holds.
pub open spec fn spec_handler(before: LedgerView, accounts: CompleteTutorial, tutorial_id: u8) -> Result<
    (LedgerView, ()),
    ErrorCode,
> {
    if !before.profiles.contains_key(accounts.profile) {
        Err(ErrorCode::NotFound)
    } else if !spec_verify(
        Namespace::User,
        UserProfile::spec_parts(accounts.user.key),
        before.profiles[accounts.profile].bump,
        accounts.profile@,
    ) {
        Err(ErrorCode::AddressMismatch)
    } else {
        spec_apply(before, accounts, tutorial_id)
    }
}

/// Records that the user has completed the tutorial.
pub fn handler(ledger: &mut Ledger, accounts: &CompleteTutorial, tutorial_id: u8) -> (result: Result<(), ErrorCode>)
    requires
        old(ledger).wf(),
    ensures
        final(ledger).wf(),
        ended_as(result, old(ledger)@, final(ledger)@, spec_handler(old(ledger)@, *accounts, tutorial_id)),
{
    let profile = ledger.profiles.load(&accounts.profile)?;
    let parts = UserProfile::parts(&accounts.user.key);
    if !verify(Namespace::User, &parts, profile.bump, &accounts.profile) {
        return Err(ErrorCode::AddressMismatch);
    }
    apply(ledger, accounts, tutorial_id)
}

} // verus!
