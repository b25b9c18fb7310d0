//! An invitation to a group, good for a number of uses until it expires.

use vstd::prelude::*;
use crate::pubkey::Pubkey;
use crate::store::Record;
use crate::text::len_of;
use crate::address::{key_part, seeds_view, text_part, two_parts};
use crate::text::byte_len;

verus! {

/// An invitation to a group. It can be used while uses remain and it has not
/// expired; neither state is stored, both are read off the record.
#[derive(Clone, Debug, PartialEq, Eq)]
pub struct Invite {
    pub group: Pubkey,
    pub creator: Pubkey,
    pub code: String,
    pub max_uses: u32,
    pub uses: u32,
    pub expires_at: i64,
    pub bump: u8,
}

/// What an invite holds.
pub struct InviteView {
    pub group: Pubkey,
    pub creator: Pubkey,
    pub code: Seq<char>,
    pub max_uses: u32,
    pub uses: u32,
    pub expires_at: i64,
    pub bump: u8,
}

impl View for Invite {
    type V = InviteView;

    open spec fn view(&self) -> InviteView {
        InviteView {
            group: self.group,
            creator: self.creator,
            code: self.code@,
            max_uses: self.max_uses,
            uses: self.uses,
            expires_at: self.expires_at,
            bump: self.bump,
        }
    }
}

impl InviteView {
    /// The code is within its bound, and the invite was used at most as often
    /// as it allows, which is at least once.
    pub open spec fn wf(self) -> bool {
        &&& byte_len(self.code) <= Invite::MAX_CODE
        &&& self.max_uses > 0
        &&& self.uses <= self.max_uses
    }

    /// Whether the invite can still be used at the given time.
    pub open spec fn usable(self, now: i64) -> bool {
        self.expires_at > now && self.uses < self.max_uses
    }
}

impl Record for Invite {
    open spec fn valid(view: InviteView) -> bool {
        view.wf()
    }

    fn is_valid(&self) -> (ok: bool) {
        len_of(&self.code) <= Invite::MAX_CODE && self.max_uses > 0 && self.uses <= self.max_uses
    }
}

impl Invite {
    /// The bytes that a stored invite takes.
    pub const LEN: usize = 8 + 32 * 2 + (4 + 32) + 4 * 2 + 8 + 1;

    /// The longest code, in bytes.
    pub const MAX_CODE: usize = 32;

    /// The fields that identify an invite: the group's address and the code.
    pub open spec fn spec_parts(group: Pubkey, code: Seq<char>) -> Seq<Seq<u8>> {
        seq![group@, vstd::utf8::encode_utf8(code)]
    }

    /// The fields that identify an invite: the group's address and the code.
    pub fn parts(group: &Pubkey, code: &String) -> (parts: Vec<Vec<u8>>)
        ensures
            seeds_view(parts) == Self::spec_parts(*group, code@),
    {
        two_parts(key_part(group), text_part(code))
    }
}

} // verus!
