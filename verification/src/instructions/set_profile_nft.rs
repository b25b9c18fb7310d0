//! Showing an NFT as the picture of a profile.

use vstd::prelude::*;
use crate::address::{spec_verify, verify, Namespace};
use crate::error::ErrorCode;
use crate::guard::{is_signer, owns, Signer, TokenHolding};
use crate::ledger::{ended_as, Ledger, LedgerView};
use crate::pubkey::Pubkey;
use crate::state::user_profile::{UserProfile, UserProfileView};

verus! {

/// What a request to set a profile's NFT names: who pays, the profile, its
/// owner, and the holding of the NFT.
#[derive(Clone, Copy, Debug)]
pub struct SetProfileNft {
    pub fee_payer: Signer,
    pub profile: Pubkey,
    pub owner: Signer,
    pub nft_token_account: TokenHolding,
}

/// The rule of setting the NFT of a profile whose address has been checked.
/// Both the payer and the owner must have signed, the profile must exist and
/// name the owner, and the holding must belong to the owner, hold exactly one
/// unit, and be of the mint. Then the profile shows the mint.
pub open spec fn spec_apply(before: LedgerView, accounts: SetProfileNft, nft_mint: Pubkey) -> Result<
    (LedgerView, ()),
    ErrorCode,
> {
    if !accounts.fee_payer.authorized || !accounts.owner.authorized {
        Err(ErrorCode::Unauthorized)
    } else if !before.profiles.contains_key(accounts.profile) {
        Err(ErrorCode::NotFound)
    } else {
        let profile = before.profiles[accounts.profile];
        if profile.owner != accounts.owner.key || accounts.nft_token_account.owner != accounts.owner.key {
            Err(ErrorCode::NotOwner)
        } else if accounts.nft_token_account.amount != 1 {
            Err(ErrorCode::NoNFT)
        } else if accounts.nft_token_account.mint != nft_mint {
            Err(ErrorCode::InvalidMint)
        } else {
            Ok(
                (
                    LedgerView {
                        profiles: before.profiles.insert(
                            accounts.profile,
                            UserProfileView { nft_profile_picture: Some(nft_mint), ..profile },
                        ),
                        ..before
                    },
                    (),
                ),
            )
        }
    }
}

/// Sets the NFT of a profile whose address has been checked.
pub fn apply(ledger: &mut Ledger, accounts: &SetProfileNft, nft_mint: Pubkey) -> (result: Result<(), ErrorCode>)
    requires
        old(ledger).wf(),
    ensures
        final(ledger).wf(),
        ended_as(result, old(ledger)@, final(ledger)@, spec_apply(old(ledger)@, *accounts, nft_mint)),
{
    is_signer(&accounts.fee_payer)?;
    is_signer(&accounts.owner)?;
    let profile = ledger.profiles.load(&accounts.profile)?;
    owns(&profile.owner, &accounts.owner.key)?;
    owns(&accounts.nft_token_account.owner, &accounts.owner.key)?;
    if accounts.nft_token_account.amount != 1 {
        return Err(ErrorCode::NoNFT);
    }
    if accounts.nft_token_account.mint != nft_mint {
        return Err(ErrorCode::InvalidMint);
    }
    let profile = ledger.profiles.mutate(&accounts.profile)?;
    profile.nft_profile_picture = Some(nft_mint);
    Ok(())
}

/// The rule of setting a profile's NFT. The profile must exist, and its
/// stored bump must prove its address from the owner that the request names;
/// then the rule of `apply` holds.
pub open spec fn spec_handler(before: LedgerView, accounts: SetProfileNft, nft_mint: Pubkey) -> Result<
    (LedgerView, ()),
    ErrorCode,
> {
    if !before.profiles.contains_key(accounts.profile) {
        Err(ErrorCode::NotFound)
    } else if !spec_verify(
        Namespace::User,
        UserProfile::spec_parts(accounts.owner.key),
        before.profiles[accounts.profile].bump,
        accounts.profile@,
    ) {
        Err(ErrorCode::AddressMismatch)
    } else {
        spec_apply(before, accounts, nft_mint)
    }
}

/// Sets the NFT that the owner's profile shows.
pub fn handler(ledger: &mut Ledger, accounts: &SetProfileNft, nft_mint: Pubkey) -> (result: Result<(), ErrorCode>)
    requires
        old(ledger).wf(),
    ensures
        final(ledger).wf(),
        ended_as(result, old(ledger)@, final(ledger)@, spec_handler(old(ledger)@, *accounts, nft_mint)),
{
    let profile = ledger.profiles.load(&accounts.profile)?;
    let parts = UserProfile::parts(&accounts.owner.key);
    if !verify(Namespace::User, &parts, profile.bump, &accounts.profile) {
        return Err(ErrorCode::AddressMismatch);
    }
    apply(ledger, accounts, nft_mint)
}

} // verus!
