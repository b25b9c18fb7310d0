//! The membership of one identity in one group.

use vstd::prelude::*;
use crate::pubkey::Pubkey;
use crate::store::Record;
use crate::address::{key_part, seeds_view, two_parts};

verus! {

/// The record that an identity is a member of a group. There is at most one
/// for each pair of group and member.
#[derive(Clone, Copy, Debug, PartialEq, Eq)]
pub struct GroupMember {
    pub group: Pubkey,
    pub member: Pubkey,
    pub joined_at: i64,
    pub bump: u8,
}

impl View for GroupMember {
    type V = GroupMember;

    open spec fn view(&self) -> GroupMember {
        *self
    }
}

impl Record for GroupMember {
    open spec fn valid(view: GroupMember) -> bool {
        true
    }

    fn is_valid(&self) -> (ok: bool) {
        true
    }
}

impl GroupMember {
    /// The bytes that a stored membership takes.
    pub const LEN: usize = 8 + 32 * 2 + 8 + 1;

    /// The fields that identify a membership: the group's address and the member.
    pub open spec fn spec_parts(group: Pubkey, member: Pubkey) -> Seq<Seq<u8>> {
        seq![group@, member@]
    }

    /// The fields that identify a membership: the group's address and the member.
    pub fn parts(group: &Pubkey, member: &Pubkey) -> (parts: Vec<Vec<u8>>)
        ensures
            seeds_view(parts) == Self::spec_parts(*group, *member),
    {
        two_parts(key_part(group), key_part(member))
    }
}

} // verus!
