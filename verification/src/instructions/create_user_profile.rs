//! Creating the profile of an identity.

use vstd::prelude::*;
use crate::address::{claim, spec_claim, spec_derive, Namespace};
use crate::error::ErrorCode;
use crate::guard::{is_signer, Signer};
use crate::ledger::{ended_as, Ledger, LedgerView};
use crate::pubkey::Pubkey;
use crate::state::user_profile::{UserProfile, UserProfileView};
use crate::text::{byte_len, len_of};

verus! {

/// What a request to create a profile names: who pays, the address of the
/// profile to create, and its owner.
#[derive(Clone, Copy, Debug)]
pub struct CreateUserProfile {
    pub fee_payer: Signer,
    pub profile: Pubkey,
    pub owner: Signer,
}

/// The profile that a request creates: without pictures, tutorials or
/// rewards, created and last active at `now`.
pub open spec fn fresh(
    accounts: CreateUserProfile,
    bump: u8,
    username: Seq<char>,
    bio: Seq<char>,
    show_balance: bool,
    now: i64,
) -> UserProfileView {
    UserProfileView {
        owner: accounts.owner.key,
        username,
        bio,
        profile_picture_url: None,
        nft_profile_picture: None,
        show_balance,
        created_at: now,
        last_active: now,
        completed_tutorials: Seq::empty(),
        tutorial_rewards: 0,
        bump,
    }
}

/// The rule of creating a profile whose address has been derived with
/// `bump`. Both the payer and the owner must have signed, no record may
/// stand at the address, and the username and the bio must be within their
/// bounds. Then the profile is stored.
pub open spec fn spec_apply(
    before: LedgerView,
    accounts: CreateUserProfile,
    bump: u8,
    username: Seq<char>,
    bio: Seq<char>,
    show_balance: bool,
    now: i64,
) -> Result<(LedgerView, ()), ErrorCode> {
    if !accounts.fee_payer.authorized || !accounts.owner.authorized {
        Err(ErrorCode::Unauthorized)
    } else if before.profiles.contains_key(accounts.profile) {
        Err(ErrorCode::AlreadyExists)
    } else if byte_len(username) > UserProfile::MAX_USERNAME {
        Err(ErrorCode::NameTooLong)
    } else if byte_len(bio) > UserProfile::MAX_BIO {
        Err(ErrorCode::BioTooLong)
    } else {
        Ok(
            (
                LedgerView {
                    profiles: before.profiles.insert(
                        accounts.profile,
                        fresh(accounts, bump, username, bio, show_balance, now),
                    ),
                    ..before
                },
                (),
            ),
        )
    }
}

/// Creates a profile whose address has been derived with `bump`.
pub fn apply(
    ledger: &mut Ledger,
    accounts: &CreateUserProfile,
    bump: u8,
    username: String,
    bio: String,
    show_balance: bool,
    now: i64,
) -> (result: Result<(), ErrorCode>)
    requires
        old(ledger).wf(),
    ensures
        final(ledger).wf(),
        ended_as(
            result,
            old(ledger)@,
            final(ledger)@,
            spec_apply(old(ledger)@, *accounts, bump, username@, bio@, show_balance, now),
        ),
{
    is_signer(&accounts.fee_payer)?;
    is_signer(&accounts.owner)?;
    if ledger.profiles.contains_key(&accounts.profile) {
        return Err(ErrorCode::AlreadyExists);
    }
    if len_of(&username) > UserProfile::MAX_USERNAME {
        return Err(ErrorCode::NameTooLong);
    }
    if len_of(&bio) > UserProfile::MAX_BIO {
        return Err(ErrorCode::BioTooLong);
    }
    let profile = UserProfile {
        owner: accounts.owner.key,
        username,
        bio,
        profile_picture_url: None,
        nft_profile_picture: None,
        show_balance,
        created_at: now,
        last_active: now,
        completed_tutorials: Vec::new(),
        tutorial_rewards: 0,
        bump,
    };
    let _ = ledger.profiles.create(accounts.profile, profile);
    Ok(())
}

/// The rule of creating a profile. The address presented for the profile
/// must be the one derived from the owner; then the rule of `apply` holds
/// with the derived bump.
pub open spec fn spec_handler(
    before: LedgerView,
    accounts: CreateUserProfile,
    username: Seq<char>,
    bio: Seq<char>,
    show_balance: bool,
    now: i64,
) -> Result<(LedgerView, ()), ErrorCode> {
    match spec_claim(spec_derive(Namespace::User, UserProfile::spec_parts(accounts.owner.key)), accounts.profile) {
        Err(e) => Err(e),
        Ok(bump) => spec_apply(before, accounts, bump, username, bio, show_balance, now),
    }
}

/// Creates the profile of the owner.
pub fn handler(
    ledger: &mut Ledger,
    accounts: &CreateUserProfile,
    username: String,
    bio: String,
    show_balance: bool,
    now: i64,
) -> (result: Result<(), ErrorCode>)
    requires
        old(ledger).wf(),
    ensures
        final(ledger).wf(),
        ended_as(
            result,
            old(ledger)@,
            final(ledger)@,
            spec_handler(old(ledger)@, *accounts, username@, bio@, show_balance, now),
        ),
{
    let parts = UserProfile::parts(&accounts.owner.key);
    let derived = crate::address::derive(Namespace::User, &parts);
    let bump = claim(&derived, &accounts.profile)?;
    apply(ledger, accounts, bump, username, bio, show_balance, now)
}

} // verus!
