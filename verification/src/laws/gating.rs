//! Laws of the gates of a group.

use vstd::prelude::*;
use crate::error::ErrorCode;
use crate::guard::TokenHolding;
use crate::instructions::join_group::{has_room, spec_apply, spec_gates, JoinGroup};
use crate::ledger::LedgerView;
use crate::state::group::GroupView;

verus! {

/// A group that asks for a token refuses a caller who presents no holding,
/// and one who presents a holding of another mint, as `InvalidToken`,
/// provided the caller has the balance that the group asks for.
pub proof fn law_token_gate_needs_holding(
    group: GroupView,
    balance: u64,
    token: Option<TokenHolding>,
    nft: Option<TokenHolding>,
)
    requires
        group.required_token is Some,
        balance >= group.required_sol_balance,
        token is None || token->0.mint != group.required_token->0,
    ensures
        spec_gates(group, balance, token, nft) == Err::<(), ErrorCode>(ErrorCode::InvalidToken),
{
}

/// A group that asks for a token lets a caller pass its token gate who
/// presents a holding of that mint with at least the amount asked for: with
/// the balance asked for and no NFT asked for, every gate passes.
pub proof fn law_token_gate_passes(
    group: GroupView,
    balance: u64,
    token: Option<TokenHolding>,
    nft: Option<TokenHolding>,
)
    requires
        group.required_token is Some,
        group.required_nft_collection is None,
        balance >= group.required_sol_balance,
        token is Some,
        token->0.mint == group.required_token->0,
        token->0.amount >= group.required_amount,
    ensures
        spec_gates(group, balance, token, nft) is Ok,
{
}

/// A group without gates lets every caller pass.
pub proof fn law_no_gate_no_refusal(
    group: GroupView,
    balance: u64,
    token: Option<TokenHolding>,
    nft: Option<TokenHolding>,
)
    requires
        group.required_sol_balance == 0,
        group.required_token is None,
        group.required_nft_collection is None,
    ensures
        spec_gates(group, balance, token, nft) is Ok,
{
}

/// A caller whom the gates turn away does not join: the join ends with the
/// error of the gates, provided that both signatures are given, the group
/// exists and the caller is not yet a member.
pub proof fn law_refused_gate_refuses_join(before: LedgerView, accounts: JoinGroup, bump: u8, now: i64)
    requires
        accounts.fee_payer.authorized,
        accounts.member.authorized,
        before.groups.contains_key(accounts.group),
        !before.members.contains_key(accounts.member_record),
        spec_gates(
            before.groups[accounts.group],
            accounts.member_balance,
            accounts.member_token_account,
            accounts.member_nft_account,
        ) is Err,
    ensures
        spec_apply(before, accounts, bump, now) == Err::<(LedgerView, ()), ErrorCode>(
            spec_gates(
                before.groups[accounts.group],
                accounts.member_balance,
                accounts.member_token_account,
                accounts.member_nft_account,
            )->Err_0,
        ),
{
}

/// The same holds of whole requests: a request to join that the gates turn
/// away is refused, and one that is granted has passed the gates and raised
/// the member count of the group by exactly one.
pub proof fn law_join_request_passes_gates(before: LedgerView, accounts: JoinGroup, now: i64)
    requires
        has_room(before, accounts.group),
        before.groups.contains_key(accounts.group),
    ensures
        spec_gates(
            before.groups[accounts.group],
            accounts.member_balance,
            accounts.member_token_account,
            accounts.member_nft_account,
        ) is Err ==> crate::instructions::join_group::spec_handler(before, accounts, now) is Err,
        match crate::instructions::join_group::spec_handler(before, accounts, now) {
            Ok((after, _)) => {
                &&& spec_gates(
                    before.groups[accounts.group],
                    accounts.member_balance,
                    accounts.member_token_account,
                    accounts.member_nft_account,
                ) is Ok
                &&& after.groups[accounts.group].member_count == before.groups[accounts.group].member_count + 1
                &&& after.members.contains_key(accounts.member_record)
                &&& !before.members.contains_key(accounts.member_record)
            },
            Err(_) => true,
        },
{
}

/// A join that passes the gates succeeds, creates the membership, raises
/// the group's member count by exactly one, and changes nothing else of the
/// group and no other group.
pub proof fn law_join_counts_one(before: LedgerView, accounts: JoinGroup, bump: u8, now: i64)
    requires
        has_room(before, accounts.group),
        accounts.fee_payer.authorized,
        accounts.member.authorized,
        before.groups.contains_key(accounts.group),
        !before.members.contains_key(accounts.member_record),
        spec_gates(
            before.groups[accounts.group],
            accounts.member_balance,
            accounts.member_token_account,
            accounts.member_nft_account,
        ) is Ok,
    ensures
        spec_apply(before, accounts, bump, now) is Ok,
        ({
            let after = spec_apply(before, accounts, bump, now)->Ok_0;
            let after = after.0;
            &&& after.groups[accounts.group].member_count == before.groups[accounts.group].member_count + 1
            &&& after.groups[accounts.group] == GroupView {
                member_count: after.groups[accounts.group].member_count,
                ..before.groups[accounts.group]
            }
            &&& after.members.contains_key(accounts.member_record)
            &&& after.members[accounts.member_record].group == accounts.group
            &&& after.members[accounts.member_record].member == accounts.member.key
            &&& forall|other: crate::pubkey::Pubkey|
                other != accounts.group && before.groups.contains_key(other) ==> after.groups[other]
                    == before.groups[other]
        }),
{
}

} // verus!
