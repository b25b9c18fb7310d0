//! The profile of an identity.

use vstd::prelude::*;
use crate::pubkey::Pubkey;
use crate::store::Record;
use crate::text::len_of;
use crate::address::{key_part, one_part, seeds_view};
use crate::text::byte_len;

verus! {

/// The profile of an owner. Each identity has at most one.
#[derive(Clone, Debug, PartialEq, Eq)]
pub struct UserProfile {
    pub owner: Pubkey,
    pub username: String,
    pub bio: String,
    pub profile_picture_url: Option<String>,
    pub nft_profile_picture: Option<Pubkey>,
    pub show_balance: bool,
    pub created_at: i64,
    pub last_active: i64,
    pub completed_tutorials: Vec<u8>,
    pub tutorial_rewards: u64,
    pub bump: u8,
}

/// What a profile holds.
pub struct UserProfileView {
    pub owner: Pubkey,
    pub username: Seq<char>,
    pub bio: Seq<char>,
    pub profile_picture_url: Option<Seq<char>>,
    pub nft_profile_picture: Option<Pubkey>,
    pub show_balance: bool,
    pub created_at: i64,
    pub last_active: i64,
    pub completed_tutorials: Seq<u8>,
    pub tutorial_rewards: u64,
    pub bump: u8,
}

impl View for UserProfile {
    type V = UserProfileView;

    open spec fn view(&self) -> UserProfileView {
        UserProfileView {
            owner: self.owner,
            username: self.username@,
            bio: self.bio@,
            profile_picture_url: match self.profile_picture_url {
                Some(text) => Some(text@),
                None => None,
            },
            nft_profile_picture: self.nft_profile_picture,
            show_balance: self.show_balance,
            created_at: self.created_at,
            last_active: self.last_active,
            completed_tutorials: self.completed_tutorials@,
            tutorial_rewards: self.tutorial_rewards,
            bump: self.bump,
        }
    }
}

impl UserProfileView {
    /// The texts are within their bounds, no tutorial is completed twice,
    /// every completed tutorial has a valid id, and the rewards are those of
    /// the completed tutorials.
    pub open spec fn wf(self) -> bool {
        &&& byte_len(self.username) <= UserProfile::MAX_USERNAME
        &&& byte_len(self.bio) <= UserProfile::MAX_BIO
        &&& self.completed_tutorials.no_duplicates()
        &&& forall|i: int|
            0 <= i < self.completed_tutorials.len() ==> #[trigger] self.completed_tutorials[i]
                <= UserProfile::MAX_TUTORIAL_ID
        &&& self.tutorial_rewards == UserProfile::TUTORIAL_REWARD * self.completed_tutorials.len()
    }
}

/// Tutorials that are completed once each and have valid ids are at most as
/// many as there are valid ids.
pub proof fn lemma_tutorials_bounded(tutorials: Seq<u8>)
    requires
        tutorials.no_duplicates(),
        forall|i: int| 0 <= i < tutorials.len() ==> #[trigger] tutorials[i] <= UserProfile::MAX_TUTORIAL_ID,
    ensures
        tutorials.len() <= UserProfile::MAX_TUTORIAL_ID + 1,
{
    let ids = Seq::new(tutorials.len(), |i: int| tutorials[i] as int);
    assert(ids.no_duplicates()) by {
        assert forall|i: int, j: int| 0 <= i < ids.len() && 0 <= j < ids.len() && i != j implies ids[i] != ids[j] by {
            assert(tutorials[i] != tutorials[j]);
        }
    }
    ids.unique_seq_to_set();
    vstd::set_lib::lemma_int_range(0, 11);
    assert(ids.to_set().subset_of(vstd::set_lib::set_int_range(0, 11))) by {
        assert forall|id: int| ids.to_set().contains(id) implies vstd::set_lib::set_int_range(0, 11).contains(
            id,
        ) by {
            let i = choose|i: int| 0 <= i < ids.len() && ids[i] == id;
            assert(tutorials[i] <= UserProfile::MAX_TUTORIAL_ID);
        }
    }
    vstd::set_lib::lemma_len_subset(ids.to_set(), vstd::set_lib::set_int_range(0, 11));
}

impl Record for UserProfile {
    open spec fn valid(view: UserProfileView) -> bool {
        view.wf()
    }

    fn is_valid(&self) -> (ok: bool) {
        if len_of(&self.username) > UserProfile::MAX_USERNAME || len_of(&self.bio) > UserProfile::MAX_BIO {
            return false;
        }
        let count = self.completed_tutorials.len();
        let mut j: usize = 0;
        while j < count
            invariant
                count == self.completed_tutorials@.len(),
                j <= count,
                forall|b: int| 0 <= b < j ==> #[trigger] self.completed_tutorials@[b] <= UserProfile::MAX_TUTORIAL_ID,
                forall|a: int, b: int|
                    0 <= a < b < j ==> self.completed_tutorials@[a] != self.completed_tutorials@[b],
            decreases count - j,
        {
            if self.completed_tutorials[j] > UserProfile::MAX_TUTORIAL_ID {
                return false;
            }
            let mut i: usize = 0;
            while i < j
                invariant
                    count == self.completed_tutorials@.len(),
                    i <= j < count,
                    forall|a: int| 0 <= a < i ==> self.completed_tutorials@[a] != self.completed_tutorials@[j as int],
                decreases j - i,
            {
                if self.completed_tutorials[i] == self.completed_tutorials[j] {
                    return false;
                }
                i = i + 1;
            }
            j = j + 1;
        }
        proof {
            lemma_tutorials_bounded(self.completed_tutorials@);
        }
        self.tutorial_rewards == UserProfile::TUTORIAL_REWARD * (count as u64)
    }
}

impl UserProfile {
    /// The bytes that a stored profile takes.
    pub const LEN: usize = 8 + 32 + (4 + 50) + (4 + 200) + (1 + 4 + 200) + (1 + 32) + 1 + 8 * 2 + (4 + 10) + 8 + 1;

    /// The longest username, in bytes.
    pub const MAX_USERNAME: usize = 50;

    /// The longest bio, in bytes.
    pub const MAX_BIO: usize = 200;

    /// The highest tutorial id.
    pub const MAX_TUTORIAL_ID: u8 = 10;

    /// The reward for one completed tutorial.
    pub const TUTORIAL_REWARD: u64 = 1000;

    /// The field that identifies a profile: its owner.
    pub open spec fn spec_parts(owner: Pubkey) -> Seq<Seq<u8>> {
        seq![owner@]
    }

    /// The field that identifies a profile: its owner.
    pub fn parts(owner: &Pubkey) -> (parts: Vec<Vec<u8>>)
        ensures
            seeds_view(parts) == Self::spec_parts(*owner),
    {
        one_part(key_part(owner))
    }
}

} // verus!
