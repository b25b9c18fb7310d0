//! Joining a group through an invite.

use vstd::prelude::*;
use crate::address::{claim, spec_claim, spec_derive, spec_verify, verify, Namespace};
use crate::error::ErrorCode;
use crate::guard::{below_capacity, is_signer, not_expired, Signer};
use crate::instructions::join_group::has_room;
use crate::ledger::{ended_as, Ledger, LedgerView};
use crate::pubkey::Pubkey;
use crate::state::group::GroupView;
use crate::state::group_member::GroupMember;
use crate::state::invite::{Invite, InviteView};

verus! {

/// What a request to use an invite names: who pays, who joins, the invite,
/// the group, and the address of the membership to create.
#[derive(Clone, Copy, Debug)]
pub struct UseInvite {
    pub fee_payer: Signer,
    pub member: Signer,
    pub invite: Pubkey,
    pub group: Pubkey,
    pub member_record: Pubkey,
}

/// The rule of using an invite whose address has been checked, for a
/// membership whose address has been derived with `bump`. Both the payer
/// and the member must have signed, the invite and the group must exist, the
/// membership must not, the invite must expire after `now`, and uses must
/// remain. Then, all at once, the invite counts one use more, the membership
/// is created, and the group counts one member more.
pub open spec fn spec_apply(before: LedgerView, accounts: UseInvite, bump: u8, now: i64) -> Result<
    (LedgerView, ()),
    ErrorCode,
> {
    if !accounts.fee_payer.authorized || !accounts.member.authorized {
        Err(ErrorCode::Unauthorized)
    } else if !before.invites.contains_key(accounts.invite) || !before.groups.contains_key(accounts.group) {
        Err(ErrorCode::NotFound)
    } else if before.members.contains_key(accounts.member_record) {
        Err(ErrorCode::AlreadyExists)
    } else {
        let invite = before.invites[accounts.invite];
        let group = before.groups[accounts.group];
        if now >= invite.expires_at {
            Err(ErrorCode::InviteExpired)
        } else if invite.uses >= invite.max_uses {
            Err(ErrorCode::InviteUsed)
        } else {
            Ok(
                (
                    LedgerView {
                        invites: before.invites.insert(
                            accounts.invite,
                            InviteView { uses: (invite.uses + 1) as u32, ..invite },
                        ),
                        members: before.members.insert(
                            accounts.member_record,
                            GroupMember { group: accounts.group, member: accounts.member.key, joined_at: now, bump },
                        ),
                        groups: before.groups.insert(
                            accounts.group,
                            GroupView { member_count: (group.member_count + 1) as u32, ..group },
                        ),
                        ..before
                    },
                    (),
                ),
            )
        }
    }
}

/// Uses an invite whose address has been checked, for a membership whose
/// address has been derived with `bump`.
pub fn apply(ledger: &mut Ledger, accounts: &UseInvite, bump: u8, now: i64) -> (result: Result<(), ErrorCode>)
    requires
        old(ledger).wf(),
        has_room(old(ledger)@, accounts.group),
    ensures
        final(ledger).wf(),
        ended_as(result, old(ledger)@, final(ledger)@, spec_apply(old(ledger)@, *accounts, bump, now)),
{
    is_signer(&accounts.fee_payer)?;
    is_signer(&accounts.member)?;
    let invite = ledger.invites.load(&accounts.invite)?;
    if !ledger.groups.contains_key(&accounts.group) {
        return Err(ErrorCode::NotFound);
    }
    if ledger.members.contains_key(&accounts.member_record) {
        return Err(ErrorCode::AlreadyExists);
    }
    if !not_expired(now, invite.expires_at) {
        return Err(ErrorCode::InviteExpired);
    }
    below_capacity(invite.uses, invite.max_uses)?;
    let invite = ledger.invites.mutate(&accounts.invite)?;
    invite.uses = invite.uses + 1;
    let record = GroupMember { group: accounts.group, member: accounts.member.key, joined_at: now, bump };
    let _ = ledger.members.create(accounts.member_record, record);
    let group = ledger.groups.mutate(&accounts.group)?;
    group.member_count = group.member_count + 1;
    Ok(())
}

/// The rule of using an invite. The invite must exist, and its stored bump
/// must prove its address from the group's address and the code that the
/// request states; the address presented for the membership must be the one
/// derived from the group's address and the member. Then the rule of `apply`
/// holds with the derived bump.
pub open spec fn spec_handler(before: LedgerView, accounts: UseInvite, invite_code: Seq<char>, now: i64) -> Result<
    (LedgerView, ()),
    ErrorCode,
> {
    if !before.invites.contains_key(accounts.invite) {
        Err(ErrorCode::NotFound)
    } else if !spec_verify(
        Namespace::Invite,
        Invite::spec_parts(accounts.group, invite_code),
        before.invites[accounts.invite].bump,
        accounts.invite@,
    ) {
        Err(ErrorCode::AddressMismatch)
    } else {
        match spec_claim(
            spec_derive(Namespace::Member, GroupMember::spec_parts(accounts.group, accounts.member.key)),
            accounts.member_record,
        ) {
            Err(e) => Err(e),
            Ok(bump) => spec_apply(before, accounts, bump, now),
        }
    }
}

/// Joins the member to the group through the invite.
pub fn handler(ledger: &mut Ledger, accounts: &UseInvite, invite_code: String, now: i64) -> (result: Result<
    (),
    ErrorCode,
>)
    requires
        old(ledger).wf(),
        has_room(old(ledger)@, accounts.group),
    ensures
        final(ledger).wf(),
        ended_as(result, old(ledger)@, final(ledger)@, spec_handler(old(ledger)@, *accounts, invite_code@, now)),
{
    let invite = ledger.invites.load(&accounts.invite)?;
    let invite_parts = Invite::parts(&accounts.group, &invite_code);
    if !verify(Namespace::Invite, &invite_parts, invite.bump, &accounts.invite) {
        return Err(ErrorCode::AddressMismatch);
    }
    let parts = GroupMember::parts(&accounts.group, &accounts.member.key);
    let derived = crate::address::derive(Namespace::Member, &parts);
    let bump = claim(&derived, &accounts.member_record)?;
    apply(ledger, accounts, bump, now)
}

} // verus!
