//! Tipping the sender of a message.

use vstd::prelude::*;
use crate::address::{spec_verify, verify, Namespace};
use crate::error::ErrorCode;
use crate::guard::{is_signer, Signer, Transfer};
use crate::ledger::{ended_as, Ledger, LedgerView};
use crate::pubkey::Pubkey;
use crate::state::group::Group;
use crate::state::message::{Message, MessageView};

verus! {

/// What a request to tip names: who tips, the message, its group, and who
/// receives the tip.
#[derive(Clone, Copy, Debug)]
pub struct TipMessage {
    pub tipper: Signer,
    pub message: Pubkey,
    pub group: Pubkey,
    pub recipient: Pubkey,
}

/// Whether the tips of the message named, if it is stored, can still grow
/// by the amount.
pub open spec fn has_room(before: LedgerView, message: Pubkey, amount: u64) -> bool {
    before.messages.contains_key(message) ==> before.messages[message].tips_received + amount <= u64::MAX
}

/// The payment of a tip from the tipper to the recipient.
pub open spec fn payment(accounts: TipMessage, amount: u64) -> Transfer {
    Transfer { from: accounts.tipper.key, to: accounts.recipient, authority: accounts.tipper.key, amount }
}

/// The rule of tipping a message whose address, and that of its group, have
/// been checked. The tipper must have signed, the message and the group must
/// exist, the amount must be positive, and the recipient must be the sender
/// that the message records. Then the message has received the amount more,
/// and the amount is to be paid from the tipper to the sender.
pub open spec fn spec_apply(before: LedgerView, accounts: TipMessage, amount: u64) -> Result<
    (LedgerView, Transfer),
    ErrorCode,
> {
    if !accounts.tipper.authorized {
        Err(ErrorCode::Unauthorized)
    } else if !before.messages.contains_key(accounts.message) || !before.groups.contains_key(accounts.group) {
        Err(ErrorCode::NotFound)
    } else {
        let message = before.messages[accounts.message];
        if amount == 0 {
            Err(ErrorCode::InvalidAmount)
        } else if message.sender != accounts.recipient {
            Err(ErrorCode::InvalidRecipient)
        } else {
            Ok(
                (
                    LedgerView {
                        messages: before.messages.insert(
                            accounts.message,
                            MessageView { tips_received: (message.tips_received + amount) as u64, ..message },
                        ),
                        ..before
                    },
                    payment(accounts, amount),
                ),
            )
        }
    }
}

/// Tips a message whose address, and that of its group, have been checked.
/// The transfer returned is the payment that the host has to carry out
/// together with the write.
pub fn apply(ledger: &mut Ledger, accounts: &TipMessage, amount: u64) -> (result: Result<Transfer, ErrorCode>)
    requires
        old(ledger).wf(),
        has_room(old(ledger)@, accounts.message, amount),
    ensures
        final(ledger).wf(),
        ended_as(result, old(ledger)@, final(ledger)@, spec_apply(old(ledger)@, *accounts, amount)),
{
    is_signer(&accounts.tipper)?;
    let message = ledger.messages.load(&accounts.message)?;
    if !ledger.groups.contains_key(&accounts.group) {
        return Err(ErrorCode::NotFound);
    }
    if amount == 0 {
        return Err(ErrorCode::InvalidAmount);
    }
    if message.sender != accounts.recipient {
        return Err(ErrorCode::InvalidRecipient);
    }
    let message = ledger.messages.mutate(&accounts.message)?;
    message.tips_received = message.tips_received + amount;
    Ok(Transfer { from: accounts.tipper.key, to: accounts.recipient, authority: accounts.tipper.key, amount })
}

/// The rule of tipping a message. The message and the group must exist; the
/// group's stored bump must prove its address from its name and its creator,
/// and the message's stored bump must prove its address from the group's
/// address and the sender that the message records. Then the rule of `apply`
/// holds.
pub open spec fn spec_handler(before: LedgerView, accounts: TipMessage, amount: u64) -> Result<
    (LedgerView, Transfer),
    ErrorCode,
> {
    if !before.messages.contains_key(accounts.message) || !before.groups.contains_key(accounts.group) {
        Err(ErrorCode::NotFound)
    } else if !spec_verify(
        Namespace::Group,
        Group::spec_parts(before.groups[accounts.group].name, before.groups[accounts.group].creator),
        before.groups[accounts.group].bump,
        accounts.group@,
    ) || !spec_verify(
        Namespace::Message,
        Message::spec_parts(accounts.group, before.messages[accounts.message].sender),
        before.messages[accounts.message].bump,
        accounts.message@,
    ) {
        Err(ErrorCode::AddressMismatch)
    } else {
        spec_apply(before, accounts, amount)
    }
}

/// Tips the sender of the message. The transfer returned is the payment,
/// which the host has to carry out together with the write.
pub fn handler(ledger: &mut Ledger, accounts: &TipMessage, amount: u64) -> (result: Result<Transfer, ErrorCode>)
    requires
        old(ledger).wf(),
        has_room(old(ledger)@, accounts.message, amount),
    ensures
        final(ledger).wf(),
        ended_as(result, old(ledger)@, final(ledger)@, spec_handler(old(ledger)@, *accounts, amount)),
{
    let message = ledger.messages.load(&accounts.message)?;
    let group = ledger.groups.load(&accounts.group)?;
    let group_parts = Group::parts(&group.name, &group.creator);
    if !verify(Namespace::Group, &group_parts, group.bump, &accounts.group) {
        return Err(ErrorCode::AddressMismatch);
    }
    let message_parts = Message::parts(&accounts.group, &message.sender);
    if !verify(Namespace::Message, &message_parts, message.bump, &accounts.message) {
        return Err(ErrorCode::AddressMismatch);
    }
    apply(ledger, accounts, amount)
}

} // verus!
