//! State model and transition rules of a social protocol: profiles, groups,
//! invites, escrows and meme contests, each record stored at an address that is
//! derived from its identifying fields.

use vstd::prelude::*;

pub mod address;
pub mod error;
pub mod guard;
pub mod instructions;
pub mod laws;
pub mod ledger;
pub mod pubkey;
pub mod state;
pub mod store;
pub mod text;

use crate::error::ErrorCode;
use crate::instructions::create_user_profile::CreateUserProfile;
use crate::instructions::update_user_profile::UpdateUserProfile;
use crate::ledger::{ended_as, Ledger};

verus! {

/// Creates the profile of the owner that the request names.
pub fn create_user_profile(
    ledger: &mut Ledger,
    accounts: &CreateUserProfile,
    username: String,
    bio: String,
    show_balance: bool,
    now: i64,
) -> (result: Result<(), ErrorCode>)
    requires
        old(ledger).wf(),
    ensures
        final(ledger).wf(),
        ended_as(
            result,
            old(ledger)@,
            final(ledger)@,
            crate::instructions::create_user_profile::spec_handler(
                old(ledger)@,
                *accounts,
                username@,
                bio@,
                show_balance,
                now,
            ),
        ),
{
    crate::instructions::create_user_profile::handler(ledger, accounts, username, bio, show_balance, now)
}

/// Changes the profile of the owner that the request names.
pub fn update_user_profile(
    ledger: &mut Ledger,
    accounts: &UpdateUserProfile,
    username: String,
    bio: String,
    show_balance: bool,
    now: i64,
) -> (result: Result<(), ErrorCode>)
    requires
        old(ledger).wf(),
    ensures
        final(ledger).wf(),
        ended_as(
            result,
            old(ledger)@,
            final(ledger)@,
            crate::instructions::update_user_profile::spec_handler(
                old(ledger)@,
                *accounts,
                username@,
                bio@,
                show_balance,
                now,
            ),
        ),
{
    crate::instructions::update_user_profile::handler(ledger, accounts, username, bio, show_balance, now)
}

} // verus!
