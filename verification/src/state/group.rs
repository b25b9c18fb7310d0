//! An interest group that members join, possibly behind a gate.

use vstd::prelude::*;
use crate::pubkey::Pubkey;
use crate::store::Record;
use crate::text::len_of;
use crate::address::{key_part, seeds_view, text_part, two_parts};
use crate::text::byte_len;

verus! {

/// A group. A member joins directly or through an invite; a join may ask for
/// a balance, a token holding or an NFT.
#[derive(Clone, Debug, PartialEq, Eq)]
pub struct Group {
    pub name: String,
    pub description: String,
    pub creator: Pubkey,
    pub is_channel: bool,
    pub is_whale_group: bool,
    pub required_token: Option<Pubkey>,
    pub required_amount: u64,
    pub required_nft_collection: Option<Pubkey>,
    pub required_sol_balance: u64,
    pub member_count: u32,
    pub created_at: i64,
    pub last_message_at: i64,
    pub message_count: u64,
    pub bump: u8,
}

/// What a group holds.
pub struct GroupView {
    pub name: Seq<char>,
    pub description: Seq<char>,
    pub creator: Pubkey,
    pub is_channel: bool,
    pub is_whale_group: bool,
    pub required_token: Option<Pubkey>,
    pub required_amount: u64,
    pub required_nft_collection: Option<Pubkey>,
    pub required_sol_balance: u64,
    pub member_count: u32,
    pub created_at: i64,
    pub last_message_at: i64,
    pub message_count: u64,
    pub bump: u8,
}

impl View for Group {
    type V = GroupView;

    open spec fn view(&self) -> GroupView {
        GroupView {
            name: self.name@,
            description: self.description@,
            creator: self.creator,
            is_channel: self.is_channel,
            is_whale_group: self.is_whale_group,
            required_token: self.required_token,
            required_amount: self.required_amount,
            required_nft_collection: self.required_nft_collection,
            required_sol_balance: self.required_sol_balance,
            member_count: self.member_count,
            created_at: self.created_at,
            last_message_at: self.last_message_at,
            message_count: self.message_count,
            bump: self.bump,
        }
    }
}

impl GroupView {
    /// The name and the description are within their bounds.
    pub open spec fn wf(self) -> bool {
        &&& byte_len(self.name) <= Group::MAX_NAME
        &&& byte_len(self.description) <= Group::MAX_DESCRIPTION
    }
}

impl Record for Group {
    open spec fn valid(view: GroupView) -> bool {
        view.wf()
    }

    fn is_valid(&self) -> (ok: bool) {
        len_of(&self.name) <= Group::MAX_NAME && len_of(&self.description) <= Group::MAX_DESCRIPTION
    }
}

impl Group {
    /// The bytes that a stored group takes.
    pub const LEN: usize = 8 + (4 + 32) + (4 + 256) + 32 + 1 * 2 + (1 + 32) * 2 + 8 * 4 + 4 + 1;

    /// The longest name, in bytes.
    pub const MAX_NAME: usize = 32;

    /// The longest description, in bytes.
    pub const MAX_DESCRIPTION: usize = 256;

    /// The fields that identify a group: its name and its creator.
    pub open spec fn spec_parts(name: Seq<char>, creator: Pubkey) -> Seq<Seq<u8>> {
        seq![vstd::utf8::encode_utf8(name), creator@]
    }

    /// The fields that identify a group: its name and its creator.
    pub fn parts(name: &String, creator: &Pubkey) -> (parts: Vec<Vec<u8>>)
        ensures
            seeds_view(parts) == Self::spec_parts(name@, *creator),
    {
        two_parts(text_part(name), key_part(creator))
    }
}

} // verus!
