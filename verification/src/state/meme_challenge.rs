//! A meme contest with a window for submissions and votes.

use vstd::prelude::*;
use crate::pubkey::Pubkey;
use crate::store::Record;
use crate::text::len_of;
use crate::address::{key_part, seeds_view, spec_time_part, time_part, two_parts};
use crate::text::byte_len;

verus! {

/// A contest. It is scheduled, then active between its start and its end,
/// then ended, and at last completed by its creator.
#[derive(Clone, Debug, PartialEq, Eq)]
pub struct MemeChallenge {
    pub creator: Pubkey,
    pub title: String,
    pub description: String,
    pub prompt: String,
    pub reward_amount: u64,
    pub start_time: i64,
    pub end_time: i64,
    pub submission_count: u32,
    pub total_votes: u32,
    pub winner: Option<Pubkey>,
    pub completed: bool,
    pub bump: u8,
}

/// What a challenge holds.
pub struct MemeChallengeView {
    pub creator: Pubkey,
    pub title: Seq<char>,
    pub description: Seq<char>,
    pub prompt: Seq<char>,
    pub reward_amount: u64,
    pub start_time: i64,
    pub end_time: i64,
    pub submission_count: u32,
    pub total_votes: u32,
    pub winner: Option<Pubkey>,
    pub completed: bool,
    pub bump: u8,
}

impl View for MemeChallenge {
    type V = MemeChallengeView;

    open spec fn view(&self) -> MemeChallengeView {
        MemeChallengeView {
            creator: self.creator,
            title: self.title@,
            description: self.description@,
            prompt: self.prompt@,
            reward_amount: self.reward_amount,
            start_time: self.start_time,
            end_time: self.end_time,
            submission_count: self.submission_count,
            total_votes: self.total_votes,
            winner: self.winner,
            completed: self.completed,
            bump: self.bump,
        }
    }
}

impl MemeChallengeView {
    /// The texts are within their bounds, the reward is positive, the
    /// challenge ends after it starts, and it is completed only if it has a
    /// submission.
    pub open spec fn wf(self) -> bool {
        &&& byte_len(self.title) <= MemeChallenge::MAX_TITLE
        &&& byte_len(self.description) <= MemeChallenge::MAX_DESCRIPTION
        &&& byte_len(self.prompt) <= MemeChallenge::MAX_PROMPT
        &&& self.reward_amount > 0
        &&& self.end_time > self.start_time
        &&& self.completed ==> self.submission_count > 0
    }

    /// Whether the challenge takes submissions and votes at the given time.
    pub open spec fn active(self, now: i64) -> bool {
        self.start_time < now && now < self.end_time
    }
}

impl Record for MemeChallenge {
    open spec fn valid(view: MemeChallengeView) -> bool {
        view.wf()
    }

    fn is_valid(&self) -> (ok: bool) {
        len_of(&self.title) <= MemeChallenge::MAX_TITLE && len_of(&self.description)
            <= MemeChallenge::MAX_DESCRIPTION && len_of(&self.prompt) <= MemeChallenge::MAX_PROMPT
            && self.reward_amount > 0 && self.end_time > self.start_time && (!self.completed
            || self.submission_count > 0)
    }
}

impl MemeChallenge {
    /// The bytes that a stored challenge takes.
    pub const LEN: usize = 8 + 32 + (4 + 100) + (4 + 500) + (4 + 300) + 8 * 3 + 4 * 2 + (1 + 32) + 1 + 1;

    /// The longest title, in bytes.
    pub const MAX_TITLE: usize = 64;

    /// The longest description, in bytes.
    pub const MAX_DESCRIPTION: usize = 256;

    /// The longest prompt, in bytes.
    pub const MAX_PROMPT: usize = 128;

    /// The fields that identify a challenge: its creator and its start.
    pub open spec fn spec_parts(creator: Pubkey, start_time: i64) -> Seq<Seq<u8>> {
        seq![creator@, spec_time_part(start_time)]
    }

    /// The fields that identify a challenge: its creator and its start.
    pub fn parts(creator: &Pubkey, start_time: i64) -> (parts: Vec<Vec<u8>>)
        ensures
            seeds_view(parts) == Self::spec_parts(*creator, start_time),
    {
        two_parts(key_part(creator), time_part(start_time))
    }
}

} // verus!
