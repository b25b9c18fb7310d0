//! Changing the texts and the settings of a profile.

use vstd::prelude::*;
use crate::address::{spec_verify, verify, Namespace};
use crate::error::ErrorCode;
use crate::guard::{is_signer, owns, Signer};
use crate::ledger::{ended_as, Ledger, LedgerView};
use crate::pubkey::Pubkey;
use crate::state::user_profile::{UserProfile, UserProfileView};
use crate::text::{byte_len, len_of};

verus! {

/// What a request to change a profile names: who pays, the profile, and its
/// owner.
#[derive(Clone, Copy, Debug)]
pub struct UpdateUserProfile {
    pub fee_payer: Signer,
    pub profile: Pubkey,
    pub owner: Signer,
}

/// The rule of changing a profile whose address has been checked. Both the
/// payer and the owner must have signed, the profile must exist and name the
/// owner, and the new username and bio must be within their bounds. Then the
/// profile takes the new texts and setting and is last active at `now`.
pub open spec fn spec_apply(
    before: LedgerView,
    accounts: UpdateUserProfile,
    username: Seq<char>,
    bio: Seq<char>,
    show_balance: bool,
    now: i64,
) -> Result<(LedgerView, ()), ErrorCode> {
    if !accounts.fee_payer.authorized || !accounts.owner.authorized {
        Err(ErrorCode::Unauthorized)
    } else if !before.profiles.contains_key(accounts.profile) {
        Err(ErrorCode::NotFound)
    } else {
        let profile = before.profiles[accounts.profile];
        if profile.owner != accounts.owner.key {
            Err(ErrorCode::NotOwner)
        } else if byte_len(username) > UserProfile::MAX_USERNAME {
            Err(ErrorCode::NameTooLong)
        } else if byte_len(bio) > UserProfile::MAX_BIO {
            Err(ErrorCode::BioTooLong)
        } else {
            Ok(
                (
                    LedgerView {
                        profiles: before.profiles.insert(
                            accounts.profile,
                            UserProfileView { username, bio, show_balance, last_active: now, ..profile },
                        ),
                        ..before
                    },
                    (),
                ),
            )
        }
    }
}

/// Changes a profile whose address has been checked.
pub fn apply(
    ledger: &mut Ledger,
    accounts: &UpdateUserProfile,
    username: String,
    bio: String,
    show_balance: bool,
    now: i64,
) -> (result: Result<(), ErrorCode>)
    requires
        old(ledger).wf(),
    ensures
        final(ledger).wf(),
        ended_as(
            result,
            old(ledger)@,
            final(ledger)@,
            spec_apply(old(ledger)@, *accounts, username@, bio@, show_balance, now),
        ),
{
    is_signer(&accounts.fee_payer)?;
    is_signer(&accounts.owner)?;
    let profile = ledger.profiles.load(&accounts.profile)?;
    owns(&profile.owner, &accounts.owner.key)?;
    if len_of(&username) > UserProfile::MAX_USERNAME {
        return Err(ErrorCode::NameTooLong);
    }
    if len_of(&bio) > UserProfile::MAX_BIO {
        return Err(ErrorCode::BioTooLong);
    }
    let profile = ledger.profiles.mutate(&accounts.profile)?;
    profile.username = username;
    profile.bio = bio;
    profile.show_balance = show_balance;
    profile.last_active = now;
    Ok(())
}

/// The rule of changing a profile. The profile must exist, and its stored
/// bump must prove its address from the owner that the request names; then
/// the rule of `apply` holds.
pub open spec fn spec_handler(
    before: LedgerView,
    accounts: UpdateUserProfile,
    username: Seq<char>,
    bio: Seq<char>,
    show_balance: bool,
    now: i64,
) -> Result<(LedgerView, ()), ErrorCode> {
    if !before.profiles.contains_key(accounts.profile) {
        Err(ErrorCode::NotFound)
    } else if !spec_verify(
        Namespace::User,
        UserProfile::spec_parts(accounts.owner.key),
        before.profiles[accounts.profile].bump,
        accounts.profile@,
    ) {
        Err(ErrorCode::AddressMismatch)
    } else {
        spec_apply(before, accounts, username, bio, show_balance, now)
    }
}

/// Changes the profile of the owner.
pub fn handler(
    ledger: &mut Ledger,
    accounts: &UpdateUserProfile,
    username: String,
    bio: String,
    show_balance: bool,
    now: i64,
) -> (result: Result<(), ErrorCode>)
    requires
        old(ledger).wf(),
    ensures
        final(ledger).wf(),
        ended_as(
            result,
            old(ledger)@,
            final(ledger)@,
            spec_handler(old(ledger)@, *accounts, username@, bio@, show_balance, now),
        ),
{
    let profile = ledger.profiles.load(&accounts.profile)?;
    let parts = UserProfile::parts(&accounts.owner.key);
    if !verify(Namespace::User, &parts, profile.bump, &accounts.profile) {
        return Err(ErrorCode::AddressMismatch);
    }
    apply(ledger, accounts, username, bio, show_balance, now)
}

} // verus!
