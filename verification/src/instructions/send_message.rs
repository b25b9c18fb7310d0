//! Sending a message to a group.

use vstd::prelude::*;
use crate::address::{claim, spec_claim, spec_derive, spec_verify, verify, Namespace};
use crate::error::ErrorCode;
use crate::guard::{is_signer, Signer};
use crate::ledger::{ended_as, Ledger, LedgerView};
use crate::pubkey::Pubkey;
use crate::state::group::Group;
use crate::state::group_member::GroupMember;
use crate::state::message::{Message, MessageView};
use crate::text::{byte_len, len_of};

verus! {

/// What a request to send a message names: who pays, who sends, the group,
/// the sender's membership, and the address of the message to create.
#[derive(Clone, Copy, Debug)]
pub struct SendMessage {
    pub fee_payer: Signer,
    pub sender: Signer,
    pub group: Pubkey,
    pub member_record: Pubkey,
    pub message: Pubkey,
}

/// Whether the membership stored at the address, if any, is that of the
/// identity in the group.
pub open spec fn is_member(before: LedgerView, member_record: Pubkey, group: Pubkey, identity: Pubkey) -> bool {
    &&& before.members.contains_key(member_record)
    &&& before.members[member_record].group == group
    &&& before.members[member_record].member == identity
}

/// The rule of sending a message to a group, with the addresses of the
/// group and the membership checked and that of the message derived with
/// `bump`. Both the payer and the sender must have signed, the group must
/// exist, the sender must be a member of it, no record may stand at the
/// message's address, the content must be within its bound, and in a
/// channel only the creator may post. Then the message is stored without
/// tips.
pub open spec fn spec_apply(before: LedgerView, accounts: SendMessage, bump: u8, content: Seq<char>, now: i64) -> Result<
    (LedgerView, ()),
    ErrorCode,
> {
    if !accounts.fee_payer.authorized || !accounts.sender.authorized {
        Err(ErrorCode::Unauthorized)
    } else if !before.groups.contains_key(accounts.group) {
        Err(ErrorCode::NotFound)
    } else if !before.members.contains_key(accounts.member_record) || before.members[accounts.member_record].member
        != accounts.sender.key {
        Err(ErrorCode::NotGroupMember)
    } else if before.messages.contains_key(accounts.message) {
        Err(ErrorCode::AlreadyExists)
    } else if byte_len(content) > Message::MAX_CONTENT {
        Err(ErrorCode::ContentTooLong)
    } else if before.members[accounts.member_record].group != accounts.group {
        Err(ErrorCode::NotGroupMember)
    } else if before.groups[accounts.group].is_channel && before.groups[accounts.group].creator
        != accounts.sender.key {
        Err(ErrorCode::ChannelPostingRestricted)
    } else {
        Ok(
            (
                LedgerView {
                    messages: before.messages.insert(
                        accounts.message,
                        MessageView {
                            group: accounts.group,
                            sender: accounts.sender.key,
                            content,
                            timestamp: now,
                            tips_received: 0,
                            bump,
                        },
                    ),
                    ..before
                },
                (),
            ),
        )
    }
}

/// Stores a message to a group, with the addresses of the group and the
/// membership checked and that of the message derived with `bump`.
pub fn apply(ledger: &mut Ledger, accounts: &SendMessage, bump: u8, content: String, now: i64) -> (result: Result<
    (),
    ErrorCode,
>)
    requires
        old(ledger).wf(),
    ensures
        final(ledger).wf(),
        ended_as(result, old(ledger)@, final(ledger)@, spec_apply(old(ledger)@, *accounts, bump, content@, now)),
{
    is_signer(&accounts.fee_payer)?;
    is_signer(&accounts.sender)?;
    let group = ledger.groups.load(&accounts.group)?;
    let membership = match ledger.members.load(&accounts.member_record) {
        Ok(membership) => membership,
        Err(_) => {
            return Err(ErrorCode::NotGroupMember);
        },
    };
    if membership.member != accounts.sender.key {
        return Err(ErrorCode::NotGroupMember);
    }
    if ledger.messages.contains_key(&accounts.message) {
        return Err(ErrorCode::AlreadyExists);
    }
    if len_of(&content) > Message::MAX_CONTENT {
        return Err(ErrorCode::ContentTooLong);
    }
    if membership.group != accounts.group {
        return Err(ErrorCode::NotGroupMember);
    }
    if group.is_channel && group.creator != accounts.sender.key {
        return Err(ErrorCode::ChannelPostingRestricted);
    }
    let message = Message {
        group: accounts.group,
        sender: accounts.sender.key,
        content,
        timestamp: now,
        tips_received: 0,
        bump,
    };
    let _ = ledger.messages.create(accounts.message, message);
    Ok(())
}

/// The rule of sending a message. The group must exist, and its stored bump
/// must prove its address from its name and its creator. A membership must
/// stand at the address presented for it, `NotGroupMember` otherwise, and
/// its stored bump must prove that address from the group's address and the
/// sender. The address presented for the message must be the one derived
/// from the group's address and the sender. Then the rule of `apply` holds
/// with the derived bump.
pub open spec fn spec_handler(before: LedgerView, accounts: SendMessage, content: Seq<char>, now: i64) -> Result<
    (LedgerView, ()),
    ErrorCode,
> {
    if !before.groups.contains_key(accounts.group) {
        Err(ErrorCode::NotFound)
    } else if !spec_verify(
        Namespace::Group,
        Group::spec_parts(before.groups[accounts.group].name, before.groups[accounts.group].creator),
        before.groups[accounts.group].bump,
        accounts.group@,
    ) {
        Err(ErrorCode::AddressMismatch)
    } else if !before.members.contains_key(accounts.member_record) {
        Err(ErrorCode::NotGroupMember)
    } else if !spec_verify(
        Namespace::Member,
        GroupMember::spec_parts(accounts.group, accounts.sender.key),
        before.members[accounts.member_record].bump,
        accounts.member_record@,
    ) {
        Err(ErrorCode::AddressMismatch)
    } else {
        match spec_claim(
            spec_derive(Namespace::Message, Message::spec_parts(accounts.group, accounts.sender.key)),
            accounts.message,
        ) {
            Err(e) => Err(e),
            Ok(bump) => spec_apply(before, accounts, bump, content, now),
        }
    }
}

/// Sends the sender's message to the group.
pub fn handler(ledger: &mut Ledger, accounts: &SendMessage, content: String, now: i64) -> (result: Result<
    (),
    ErrorCode,
>)
    requires
        old(ledger).wf(),
    ensures
        final(ledger).wf(),
        ended_as(result, old(ledger)@, final(ledger)@, spec_handler(old(ledger)@, *accounts, content@, now)),
{
    let group = ledger.groups.load(&accounts.group)?;
    let group_parts = Group::parts(&group.name, &group.creator);
    if !verify(Namespace::Group, &group_parts, group.bump, &accounts.group) {
        return Err(ErrorCode::AddressMismatch);
    }
    let membership = match ledger.members.load(&accounts.member_record) {
        Ok(membership) => membership,
        Err(_) => {
            return Err(ErrorCode::NotGroupMember);
        },
    };
    let member_parts = GroupMember::parts(&accounts.group, &accounts.sender.key);
    if !verify(Namespace::Member, &member_parts, membership.bump, &accounts.member_record) {
        return Err(ErrorCode::AddressMismatch);
    }
    let parts = Message::parts(&accounts.group, &accounts.sender.key);
    let derived = crate::address::derive(Namespace::Message, &parts);
    let bump = claim(&derived, &accounts.message)?;
    apply(ledger, accounts, bump, content, now)
}

} // verus!
