//! Joining a group directly, through whatever gates the group has set.

use vstd::prelude::*;
use crate::address::{claim, spec_claim, spec_derive, Namespace};
use crate::error::ErrorCode;
use crate::guard::{is_signer, Signer, TokenHolding};
use crate::ledger::{ended_as, Ledger, LedgerView};
use crate::pubkey::Pubkey;
use crate::state::group::{Group, GroupView};
use crate::state::group_member::GroupMember;

verus! {

/// What a request to join names: who pays, who joins and with what balance,
/// the group, the address of the membership to create, and the holdings
/// presented for the group's gates.
#[derive(Clone, Copy, Debug)]
pub struct JoinGroup {
    pub fee_payer: Signer,
    pub member: Signer,
    pub member_balance: u64,
    pub group: Pubkey,
    pub member_record: Pubkey,
    pub member_token_account: Option<TokenHolding>,
    pub member_nft_account: Option<TokenHolding>,
}

/// The verdict of a group's gates on a caller. Every gate that the group has
/// set must pass; a gate that is not set passes. The balance gate asks for the
/// required balance, the token gate for a holding of the required mint with at
/// least the required amount, the NFT gate for a holding of exactly one unit
/// of the required mint.
pub open spec fn spec_gates(
    group: GroupView,
    balance: u64,
    token: Option<TokenHolding>,
    nft: Option<TokenHolding>,
) -> Result<(), ErrorCode> {
    if group.required_sol_balance > 0 && balance < group.required_sol_balance {
        Err(ErrorCode::InsufficientSolBalance)
    } else if group.required_token is Some && (token is None || token->0.mint != group.required_token->0) {
        Err(ErrorCode::InvalidToken)
    } else if group.required_token is Some && token->0.amount < group.required_amount {
        Err(ErrorCode::InsufficientTokenBalance)
    } else if group.required_nft_collection is Some && nft is None {
        Err(ErrorCode::NoNFT)
    } else if group.required_nft_collection is Some && nft->0.mint != group.required_nft_collection->0 {
        Err(ErrorCode::InvalidNFT)
    } else if group.required_nft_collection is Some && nft->0.amount != 1 {
        Err(ErrorCode::NoNFT)
    } else {
        Ok(())
    }
}

/// Evaluates a group's gates on a caller.
pub fn gates(
    group: &Group,
    balance: u64,
    token: &Option<TokenHolding>,
    nft: &Option<TokenHolding>,
) -> (verdict: Result<(), ErrorCode>)
    ensures
        verdict == spec_gates(group@, balance, *token, *nft),
{
    if group.required_sol_balance > 0 && balance < group.required_sol_balance {
        return Err(ErrorCode::InsufficientSolBalance);
    }
    if let Some(required_mint) = &group.required_token {
        match token {
            None => {
                return Err(ErrorCode::InvalidToken);
            },
            Some(holding) => {
                if holding.mint != *required_mint {
                    return Err(ErrorCode::InvalidToken);
                }
                if holding.amount < group.required_amount {
                    return Err(ErrorCode::InsufficientTokenBalance);
                }
            },
        }
    }
    if let Some(required_collection) = &group.required_nft_collection {
        match nft {
            None => {
                return Err(ErrorCode::NoNFT);
            },
            Some(holding) => {
                if holding.mint != *required_collection {
                    return Err(ErrorCode::InvalidNFT);
                }
                if holding.amount != 1 {
                    return Err(ErrorCode::NoNFT);
                }
            },
        }
    }
    Ok(())
}

/// Whether the member count of the group named, if it is stored, can still
/// grow by one.
pub open spec fn has_room(before: LedgerView, group: Pubkey) -> bool {
    before.groups.contains_key(group) ==> before.groups[group].member_count < u32::MAX
}

/// The rule of a join whose membership address has been derived with `bump`.
/// Both the payer and the member must have signed, the group must exist, the
/// membership must not, and the gates must pass. Then the membership is
/// created and the group counts one member more.
pub open spec fn spec_apply(before: LedgerView, accounts: JoinGroup, bump: u8, now: i64) -> Result<
    (LedgerView, ()),
    ErrorCode,
> {
    if !accounts.fee_payer.authorized || !accounts.member.authorized {
        Err(ErrorCode::Unauthorized)
    } else if !before.groups.contains_key(accounts.group) {
        Err(ErrorCode::NotFound)
    } else if before.members.contains_key(accounts.member_record) {
        Err(ErrorCode::AlreadyExists)
    } else {
        let group = before.groups[accounts.group];
        match spec_gates(group, accounts.member_balance, accounts.member_token_account, accounts.member_nft_account) {
            Err(e) => Err(e),
            Ok(_) => Ok(
                (
                    LedgerView {
                        members: before.members.insert(
                            accounts.member_record,
                            GroupMember { group: accounts.group, member: accounts.member.key, joined_at: now, bump },
                        ),
                        groups: before.groups.insert(
                            accounts.group,
                            GroupView { member_count: (group.member_count + 1) as u32, ..group },
                        ),
                        ..before
                    },
                    (),
                ),
            ),
        }
    }
}

/// Applies a join whose membership address has been derived with `bump`.
pub fn apply(ledger: &mut Ledger, accounts: &JoinGroup, bump: u8, now: i64) -> (result: Result<(), ErrorCode>)
    requires
        old(ledger).wf(),
        has_room(old(ledger)@, accounts.group),
    ensures
        final(ledger).wf(),
        ended_as(result, old(ledger)@, final(ledger)@, spec_apply(old(ledger)@, *accounts, bump, now)),
{
    is_signer(&accounts.fee_payer)?;
    is_signer(&accounts.member)?;
    let group = ledger.groups.load(&accounts.group)?;
    if ledger.members.contains_key(&accounts.member_record) {
        return Err(ErrorCode::AlreadyExists);
    }
    gates(group, accounts.member_balance, &accounts.member_token_account, &accounts.member_nft_account)?;
    let record = GroupMember { group: accounts.group, member: accounts.member.key, joined_at: now, bump };
    let _ = ledger.members.create(accounts.member_record, record);
    let group = ledger.groups.mutate(&accounts.group)?;
    group.member_count = group.member_count + 1;
    Ok(())
}

/// The rule of a join. The address presented for the membership must be the
/// one derived from the group's address and the member; then the rule of
/// `apply` holds with the derived bump.
pub open spec fn spec_handler(before: LedgerView, accounts: JoinGroup, now: i64) -> Result<(LedgerView, ()), ErrorCode> {
    match spec_claim(
        spec_derive(Namespace::Member, GroupMember::spec_parts(accounts.group, accounts.member.key)),
        accounts.member_record,
    ) {
        Err(e) => Err(e),
        Ok(bump) => spec_apply(before, accounts, bump, now),
    }
}

/// Joins the member to the group.
pub fn handler(ledger: &mut Ledger, accounts: &JoinGroup, now: i64) -> (result: Result<(), ErrorCode>)
    requires
        old(ledger).wf(),
        has_room(old(ledger)@, accounts.group),
    ensures
        final(ledger).wf(),
        ended_as(result, old(ledger)@, final(ledger)@, spec_handler(old(ledger)@, *accounts, now)),
{
    let parts = GroupMember::parts(&accounts.group, &accounts.member.key);
    let derived = crate::address::derive(Namespace::Member, &parts);
    let bump = claim(&derived, &accounts.member_record)?;
    apply(ledger, accounts, bump, now)
}

} // verus!
