//! A message sent to a group.

use vstd::prelude::*;
use crate::pubkey::Pubkey;
use crate::store::Record;
use crate::text::len_of;
use crate::address::{key_part, seeds_view, two_parts};
use crate::text::byte_len;

verus! {

/// The message of a sender in a group, with the tips it has received.
#[derive(Clone, Debug, PartialEq, Eq)]
pub struct Message {
    pub group: Pubkey,
    pub sender: Pubkey,
    pub content: String,
    pub timestamp: i64,
    pub tips_received: u64,
    pub bump: u8,
}

/// What a message holds.
pub struct MessageView {
    pub group: Pubkey,
    pub sender: Pubkey,
    pub content: Seq<char>,
    pub timestamp: i64,
    pub tips_received: u64,
    pub bump: u8,
}

impl View for Message {
    type V = MessageView;

    open spec fn view(&self) -> MessageView {
        MessageView {
            group: self.group,
            sender: self.sender,
            content: self.content@,
            timestamp: self.timestamp,
            tips_received: self.tips_received,
            bump: self.bump,
        }
    }
}

impl MessageView {
    /// The content is within its bound.
    pub open spec fn wf(self) -> bool {
        byte_len(self.content) <= Message::MAX_CONTENT
    }
}

impl Record for Message {
    open spec fn valid(view: MessageView) -> bool {
        view.wf()
    }

    fn is_valid(&self) -> (ok: bool) {
        len_of(&self.content) <= Message::MAX_CONTENT
    }
}

impl Message {
    /// The bytes that a stored message takes.
    pub const LEN: usize = 8 + 32 * 2 + (4 + 500) + 8 * 2 + 1;

    /// The longest content, in bytes.
    pub const MAX_CONTENT: usize = 1000;

    /// The fields that identify a message: the group's address and the sender.
    pub open spec fn spec_parts(group: Pubkey, sender: Pubkey) -> Seq<Seq<u8>> {
        seq![group@, sender@]
    }

    /// The fields that identify a message: the group's address and the sender.
    pub fn parts(group: &Pubkey, sender: &Pubkey) -> (parts: Vec<Vec<u8>>)
        ensures
            seeds_view(parts) == Self::spec_parts(*group, *sender),
    {
        two_parts(key_part(group), key_part(sender))
    }
}

} // verus!
