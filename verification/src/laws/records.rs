//! What holds of every record of a well-formed ledger, and so between any
//! two transitions.

use vstd::prelude::*;
use crate::ledger::Ledger;
use crate::pubkey::Pubkey;
use crate::state::group::Group;
use crate::state::invite::Invite;
use crate::state::meme_challenge::MemeChallenge;
use crate::state::meme_submission::MemeSubmission;
use crate::state::message::Message;
use crate::state::user_profile::{lemma_tutorials_bounded, UserProfile};
use crate::text::byte_len;

verus! {

/// A profile keeps its texts within their bounds, completes no tutorial
/// twice and none with an invalid id, so at most eleven, and has earned one
/// reward for each.
pub proof fn law_profile_invariant(ledger: Ledger, profile: Pubkey)
    requires
        ledger.wf(),
        ledger@.profiles.contains_key(profile),
    ensures
        byte_len(ledger@.profiles[profile].username) <= UserProfile::MAX_USERNAME,
        byte_len(ledger@.profiles[profile].bio) <= UserProfile::MAX_BIO,
        ledger@.profiles[profile].completed_tutorials.no_duplicates(),
        forall|i: int|
            0 <= i < ledger@.profiles[profile].completed_tutorials.len()
                ==> #[trigger] ledger@.profiles[profile].completed_tutorials[i] <= UserProfile::MAX_TUTORIAL_ID,
        ledger@.profiles[profile].completed_tutorials.len() <= 11,
        ledger@.profiles[profile].tutorial_rewards == UserProfile::TUTORIAL_REWARD
            * ledger@.profiles[profile].completed_tutorials.len(),
{
    assert(ledger@.profiles[profile].wf());
    lemma_tutorials_bounded(ledger@.profiles[profile].completed_tutorials);
}

/// An invite is used at most as often as it allows, which is at least once,
/// and keeps its code within its bound.
pub proof fn law_invite_invariant(ledger: Ledger, invite: Pubkey)
    requires
        ledger.wf(),
        ledger@.invites.contains_key(invite),
    ensures
        0 <= ledger@.invites[invite].uses <= ledger@.invites[invite].max_uses,
        ledger@.invites[invite].max_uses > 0,
        byte_len(ledger@.invites[invite].code) <= Invite::MAX_CODE,
{
    assert(ledger@.invites[invite].wf());
}

/// A challenge ends after it starts, has a positive reward, keeps its texts
/// within their bounds, and is completed only if it has a submission.
pub proof fn law_challenge_invariant(ledger: Ledger, challenge: Pubkey)
    requires
        ledger.wf(),
        ledger@.challenges.contains_key(challenge),
    ensures
        ledger@.challenges[challenge].end_time > ledger@.challenges[challenge].start_time,
        ledger@.challenges[challenge].reward_amount > 0,
        byte_len(ledger@.challenges[challenge].title) <= MemeChallenge::MAX_TITLE,
        byte_len(ledger@.challenges[challenge].description) <= MemeChallenge::MAX_DESCRIPTION,
        byte_len(ledger@.challenges[challenge].prompt) <= MemeChallenge::MAX_PROMPT,
        ledger@.challenges[challenge].completed ==> ledger@.challenges[challenge].submission_count > 0,
{
    assert(ledger@.challenges[challenge].wf());
}

/// Groups, submissions and messages keep their texts within their bounds.
pub proof fn law_texts_within_bounds(ledger: Ledger, address: Pubkey)
    requires
        ledger.wf(),
    ensures
        ledger@.groups.contains_key(address) ==> byte_len(ledger@.groups[address].name) <= Group::MAX_NAME
            && byte_len(ledger@.groups[address].description) <= Group::MAX_DESCRIPTION,
        ledger@.submissions.contains_key(address) ==> byte_len(ledger@.submissions[address].image_url)
            <= MemeSubmission::MAX_URL && byte_len(ledger@.submissions[address].title)
            <= MemeSubmission::MAX_TITLE && byte_len(ledger@.submissions[address].description)
            <= MemeSubmission::MAX_DESCRIPTION,
        ledger@.messages.contains_key(address) ==> byte_len(ledger@.messages[address].content)
            <= Message::MAX_CONTENT,
{
    if ledger@.groups.contains_key(address) {
        assert(ledger@.groups[address].wf());
    }
    if ledger@.submissions.contains_key(address) {
        assert(ledger@.submissions[address].wf());
    }
    if ledger@.messages.contains_key(address) {
        assert(ledger@.messages[address].wf());
    }
}

} // verus!
