//! Laws of messages and tips.

use vstd::prelude::*;
use crate::guard::Transfer;
use crate::instructions::send_message::{is_member, SendMessage};
use crate::instructions::tip_message::{has_room, TipMessage};
use crate::instructions::{send_message, tip_message};
use crate::ledger::LedgerView;
use crate::state::message::{Message, MessageView};
use crate::text::byte_len;

verus! {

/// Only members send: a message is stored only if the membership presented
/// is that of the sender in the group, and then it records the sender, the
/// group and the time, within the bound on its content and without tips.
pub proof fn law_only_members_send(before: LedgerView, accounts: SendMessage, bump: u8, content: Seq<char>, now: i64)
    requires
        send_message::spec_apply(before, accounts, bump, content, now) is Ok,
    ensures
        is_member(before, accounts.member_record, accounts.group, accounts.sender.key),
        accounts.sender.authorized,
        byte_len(content) <= Message::MAX_CONTENT,
        ({
            let after = send_message::spec_apply(before, accounts, bump, content, now)->Ok_0;
            let after = after.0;
            after.messages[accounts.message] == MessageView {
                group: accounts.group,
                sender: accounts.sender.key,
                content,
                timestamp: now,
                tips_received: 0,
                bump,
            }
        }),
{
}

/// In a channel only the creator posts: a message to a channel is stored
/// only if its sender is the creator of the channel.
pub proof fn law_channel_is_for_its_creator(
    before: LedgerView,
    accounts: SendMessage,
    bump: u8,
    content: Seq<char>,
    now: i64,
)
    requires
        send_message::spec_apply(before, accounts, bump, content, now) is Ok,
        before.groups[accounts.group].is_channel,
    ensures
        before.groups[accounts.group].creator == accounts.sender.key,
{
}

/// A tip counts in full and goes to the sender: after it the message has
/// received exactly the amount more, which is positive, and the payment
/// asked for is of that amount, from the tipper to the sender that the
/// message records.
pub proof fn law_tip_counts_in_full(before: LedgerView, accounts: TipMessage, amount: u64)
    requires
        has_room(before, accounts.message, amount),
        tip_message::spec_apply(before, accounts, amount) is Ok,
    ensures
        amount > 0,
        ({
            let outcome = tip_message::spec_apply(before, accounts, amount)->Ok_0;
            let after = outcome.0;
            let payment = outcome.1;
            &&& after.messages[accounts.message].tips_received == before.messages[accounts.message].tips_received
                + amount
            &&& payment == Transfer {
                from: accounts.tipper.key,
                to: before.messages[accounts.message].sender,
                authority: accounts.tipper.key,
                amount,
            }
        }),
{
}

} // verus!
