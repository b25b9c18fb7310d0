//! Issuing an invite to a group.

use vstd::prelude::*;
use crate::address::{claim, spec_claim, spec_derive, spec_verify, verify, Namespace};
use crate::error::ErrorCode;
use crate::guard::{is_creator, is_signer, Signer};
use crate::ledger::{ended_as, Ledger, LedgerView};
use crate::pubkey::Pubkey;
use crate::state::group::Group;
use crate::state::invite::{Invite, InviteView};
use crate::text::{byte_len, len_of};

verus! {

/// What a request to issue an invite names: who pays, the address of the
/// invite to create, the group, and the group's creator.
#[derive(Clone, Copy, Debug)]
pub struct CreateInvite {
    pub fee_payer: Signer,
    pub invite: Pubkey,
    pub group: Pubkey,
    pub creator: Signer,
}

/// The rule of issuing an invite whose address has been derived with `bump`.
/// Both the payer and the creator must have signed, the group must exist and
/// name the creator, no record may stand at the invite's address, the code
/// must be within its bound, the invite must allow at least one use, and it
/// must expire after `now`. Then the invite is stored, unused.
pub open spec fn spec_apply(
    before: LedgerView,
    accounts: CreateInvite,
    bump: u8,
    code: Seq<char>,
    max_uses: u32,
    expires_at: i64,
    now: i64,
) -> Result<(LedgerView, ()), ErrorCode> {
    if !accounts.fee_payer.authorized || !accounts.creator.authorized {
        Err(ErrorCode::Unauthorized)
    } else if !before.groups.contains_key(accounts.group) {
        Err(ErrorCode::NotFound)
    } else if before.groups[accounts.group].creator != accounts.creator.key {
        Err(ErrorCode::NotGroupCreator)
    } else if before.invites.contains_key(accounts.invite) {
        Err(ErrorCode::AlreadyExists)
    } else if byte_len(code) > Invite::MAX_CODE {
        Err(ErrorCode::CodeTooLong)
    } else if max_uses == 0 {
        Err(ErrorCode::InvalidMaxUses)
    } else if expires_at <= now {
        Err(ErrorCode::InvalidExpiry)
    } else {
        Ok(
            (
                LedgerView {
                    invites: before.invites.insert(
                        accounts.invite,
                        InviteView {
                            group: accounts.group,
                            creator: accounts.creator.key,
                            code,
                            max_uses,
                            uses: 0,
                            expires_at,
                            bump,
                        },
                    ),
                    ..before
                },
                (),
            ),
        )
    }
}

/// Issues an invite whose address has been derived with `bump`.
pub fn apply(
    ledger: &mut Ledger,
    accounts: &CreateInvite,
    bump: u8,
    code: String,
    max_uses: u32,
    expires_at: i64,
    now: i64,
) -> (result: Result<(), ErrorCode>)
    requires
        old(ledger).wf(),
    ensures
        final(ledger).wf(),
        ended_as(
            result,
            old(ledger)@,
            final(ledger)@,
            spec_apply(old(ledger)@, *accounts, bump, code@, max_uses, expires_at, now),
        ),
{
    is_signer(&accounts.fee_payer)?;
    is_signer(&accounts.creator)?;
    let group = ledger.groups.load(&accounts.group)?;
    is_creator(&group.creator, &accounts.creator.key)?;
    if ledger.invites.contains_key(&accounts.invite) {
        return Err(ErrorCode::AlreadyExists);
    }
    if len_of(&code) > Invite::MAX_CODE {
        return Err(ErrorCode::CodeTooLong);
    }
    if max_uses == 0 {
        return Err(ErrorCode::InvalidMaxUses);
    }
    if expires_at <= now {
        return Err(ErrorCode::InvalidExpiry);
    }
    let invite = Invite {
        group: accounts.group,
        creator: accounts.creator.key,
        code,
        max_uses,
        uses: 0,
        expires_at,
        bump,
    };
    let _ = ledger.invites.create(accounts.invite, invite);
    Ok(())
}

/// The rule of issuing an invite. A code beyond its bound identifies no
/// invite. Otherwise the group must exist, its stored bump must prove its
/// address from its name and its creator, and the address presented for the
/// invite must be the one derived from the group's address and the code;
/// then the rule of `apply` holds with the derived bump.
pub open spec fn spec_handler(
    before: LedgerView,
    accounts: CreateInvite,
    code: Seq<char>,
    max_uses: u32,
    expires_at: i64,
    now: i64,
) -> Result<(LedgerView, ()), ErrorCode> {
    if byte_len(code) > Invite::MAX_CODE {
        Err(ErrorCode::CodeTooLong)
    } else if !before.groups.contains_key(accounts.group) {
        Err(ErrorCode::NotFound)
    } else if !spec_verify(
        Namespace::Group,
        Group::spec_parts(before.groups[accounts.group].name, before.groups[accounts.group].creator),
        before.groups[accounts.group].bump,
        accounts.group@,
    ) {
        Err(ErrorCode::AddressMismatch)
    } else {
        match spec_claim(spec_derive(Namespace::Invite, Invite::spec_parts(accounts.group, code)), accounts.invite) {
            Err(e) => Err(e),
            Ok(bump) => spec_apply(before, accounts, bump, code, max_uses, expires_at, now),
        }
    }
}

/// Issues an invite to the group for its creator.
pub fn handler(
    ledger: &mut Ledger,
    accounts: &CreateInvite,
    code: String,
    max_uses: u32,
    expires_at: i64,
    now: i64,
) -> (result: Result<(), ErrorCode>)
    requires
        old(ledger).wf(),
    ensures
        final(ledger).wf(),
        ended_as(
            result,
            old(ledger)@,
            final(ledger)@,
            spec_handler(old(ledger)@, *accounts, code@, max_uses, expires_at, now),
        ),
{
    if len_of(&code) > Invite::MAX_CODE {
        return Err(ErrorCode::CodeTooLong);
    }
    let group = ledger.groups.load(&accounts.group)?;
    let group_parts = Group::parts(&group.name, &group.creator);
    if !verify(Namespace::Group, &group_parts, group.bump, &accounts.group) {
        return Err(ErrorCode::AddressMismatch);
    }
    let parts = Invite::parts(&accounts.group, &code);
    let derived = crate::address::derive(Namespace::Invite, &parts);
    let bump = claim(&derived, &accounts.invite)?;
    apply(ledger, accounts, bump, code, max_uses, expires_at, now)
}

} // verus!
