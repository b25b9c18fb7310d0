//! Founding a group.

use vstd::prelude::*;
use crate::address::{claim, spec_claim, spec_derive, Namespace};
use crate::error::ErrorCode;
use crate::guard::{is_signer, Signer};
use crate::ledger::{ended_as, Ledger, LedgerView};
use crate::pubkey::Pubkey;
use crate::state::group::{Group, GroupView};
use crate::text::{byte_len, len_of};

verus! {

/// What a request to found a group names: who pays, who founds, and the
/// address of the group to create.
#[derive(Clone, Copy, Debug)]
pub struct CreateGroup {
    pub fee_payer: Signer,
    pub creator: Signer,
    pub group: Pubkey,
}

/// The group that a request founds: without members and without messages.
pub open spec fn founded(
    accounts: CreateGroup,
    bump: u8,
    name: Seq<char>,
    description: Seq<char>,
    is_channel: bool,
    is_whale_group: bool,
    required_token: Option<Pubkey>,
    required_amount: u64,
    required_nft_collection: Option<Pubkey>,
    required_sol_balance: u64,
    now: i64,
) -> GroupView {
    GroupView {
        name,
        description,
        creator: accounts.creator.key,
        is_channel,
        is_whale_group,
        required_token,
        required_amount,
        required_nft_collection,
        required_sol_balance,
        member_count: 0,
        created_at: now,
        last_message_at: 0,
        message_count: 0,
        bump,
    }
}

/// The rule of founding a group whose address has been derived with `bump`.
/// Both the payer and the creator must have signed, no record may stand at
/// the address, and the name and the description must be within their
/// bounds. Then the group is stored.
pub open spec fn spec_apply(
    before: LedgerView,
    accounts: CreateGroup,
    bump: u8,
    name: Seq<char>,
    description: Seq<char>,
    is_channel: bool,
    is_whale_group: bool,
    required_token: Option<Pubkey>,
    required_amount: u64,
    required_nft_collection: Option<Pubkey>,
    required_sol_balance: u64,
    now: i64,
) -> Result<(LedgerView, ()), ErrorCode> {
    if !accounts.fee_payer.authorized || !accounts.creator.authorized {
        Err(ErrorCode::Unauthorized)
    } else if before.groups.contains_key(accounts.group) {
        Err(ErrorCode::AlreadyExists)
    } else if byte_len(name) > Group::MAX_NAME {
        Err(ErrorCode::NameTooLong)
    } else if byte_len(description) > Group::MAX_DESCRIPTION {
        Err(ErrorCode::DescriptionTooLong)
    } else {
        Ok(
            (
                LedgerView {
                    groups: before.groups.insert(
                        accounts.group,
                        founded(
                            accounts,
                            bump,
                            name,
                            description,
                            is_channel,
                            is_whale_group,
                            required_token,
                            required_amount,
                            required_nft_collection,
                            required_sol_balance,
                            now,
                        ),
                    ),
                    ..before
                },
                (),
            ),
        )
    }
}

/// Founds a group whose address has been derived with `bump`.
pub fn apply(
    ledger: &mut Ledger,
    accounts: &CreateGroup,
    bump: u8,
    name: String,
    description: String,
    is_channel: bool,
    is_whale_group: bool,
    required_token: Option<Pubkey>,
    required_amount: u64,
    required_nft_collection: Option<Pubkey>,
    required_sol_balance: u64,
    now: i64,
) -> (result: Result<(), ErrorCode>)
    requires
        old(ledger).wf(),
    ensures
        final(ledger).wf(),
        ended_as(
            result,
            old(ledger)@,
            final(ledger)@,
            spec_apply(
                old(ledger)@,
                *accounts,
                bump,
                name@,
                description@,
                is_channel,
                is_whale_group,
                required_token,
                required_amount,
                required_nft_collection,
                required_sol_balance,
                now,
            ),
        ),
{
    is_signer(&accounts.fee_payer)?;
    is_signer(&accounts.creator)?;
    if ledger.groups.contains_key(&accounts.group) {
        return Err(ErrorCode::AlreadyExists);
    }
    if len_of(&name) > Group::MAX_NAME {
        return Err(ErrorCode::NameTooLong);
    }
    if len_of(&description) > Group::MAX_DESCRIPTION {
        return Err(ErrorCode::DescriptionTooLong);
    }
    let group = Group {
        name,
        description,
        creator: accounts.creator.key,
        is_channel,
        is_whale_group,
        required_token,
        required_amount,
        required_nft_collection,
        required_sol_balance,
        member_count: 0,
        created_at: now,
        last_message_at: 0,
        message_count: 0,
        bump,
    };
    let _ = ledger.groups.create(accounts.group, group);
    Ok(())
}

/// The rule of founding a group. A name beyond its bound identifies no
/// group; otherwise the address presented for the group must be the one
/// derived from the name and the creator, and then the rule of `apply` holds
/// with the derived bump.
pub open spec fn spec_handler(
    before: LedgerView,
    accounts: CreateGroup,
    name: Seq<char>,
    description: Seq<char>,
    is_channel: bool,
    is_whale_group: bool,
    required_token: Option<Pubkey>,
    required_amount: u64,
    required_nft_collection: Option<Pubkey>,
    required_sol_balance: u64,
    now: i64,
) -> Result<(LedgerView, ()), ErrorCode> {
    if byte_len(name) > Group::MAX_NAME {
        Err(ErrorCode::NameTooLong)
    } else {
        match spec_claim(
            spec_derive(Namespace::Group, Group::spec_parts(name, accounts.creator.key)),
            accounts.group,
        ) {
            Err(e) => Err(e),
            Ok(bump) => spec_apply(
                before,
                accounts,
                bump,
                name,
                description,
                is_channel,
                is_whale_group,
                required_token,
                required_amount,
                required_nft_collection,
                required_sol_balance,
                now,
            ),
        }
    }
}

/// Founds a group.
pub fn handler(
    ledger: &mut Ledger,
    accounts: &CreateGroup,
    name: String,
    description: String,
    is_channel: bool,
    is_whale_group: bool,
    required_token: Option<Pubkey>,
    required_amount: u64,
    required_nft_collection: Option<Pubkey>,
    required_sol_balance: u64,
    now: i64,
) -> (result: Result<(), ErrorCode>)
    requires
        old(ledger).wf(),
    ensures
        final(ledger).wf(),
        ended_as(
            result,
            old(ledger)@,
            final(ledger)@,
            spec_handler(
                old(ledger)@,
                *accounts,
                name@,
                description@,
                is_channel,
                is_whale_group,
                required_token,
                required_amount,
                required_nft_collection,
                required_sol_balance,
                now,
            ),
        ),
{
    if len_of(&name) > Group::MAX_NAME {
        return Err(ErrorCode::NameTooLong);
    }
    let parts = Group::parts(&name, &accounts.creator.key);
    let derived = crate::address::derive(Namespace::Group, &parts);
    let bump = claim(&derived, &accounts.group)?;
    apply(
        ledger,
        accounts,
        bump,
        name,
        description,
        is_channel,
        is_whale_group,
        required_token,
        required_amount,
        required_nft_collection,
        required_sol_balance,
        now,
    )
}

} // verus!
