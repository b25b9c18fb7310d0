//! The vote of one identity on one submission.

use vstd::prelude::*;
use crate::pubkey::Pubkey;
use crate::store::Record;
use crate::address::{key_part, seeds_view, two_parts};

verus! {

/// The record that a voter has voted on a submission. There is at most one
/// for each pair of submission and voter, so nobody votes twice.
#[derive(Clone, Copy, Debug, PartialEq, Eq)]
pub struct VoterRecord {
    pub submission: Pubkey,
    pub voter: Pubkey,
    pub voted_at: i64,
    pub bump: u8,
}

impl View for VoterRecord {
    type V = VoterRecord;

    open spec fn view(&self) -> VoterRecord {
        *self
    }
}

impl Record for VoterRecord {
    open spec fn valid(view: VoterRecord) -> bool {
        true
    }

    fn is_valid(&self) -> (ok: bool) {
        true
    }
}

impl VoterRecord {
    /// The bytes that a stored vote takes.
    pub const LEN: usize = 8 + 32 * 2 + 8 + 1;

    /// The fields that identify a vote: the submission's address and the voter.
    pub open spec fn spec_parts(submission: Pubkey, voter: Pubkey) -> Seq<Seq<u8>> {
        seq![submission@, voter@]
    }

    /// The fields that identify a vote: the submission's address and the voter.
    pub fn parts(submission: &Pubkey, voter: &Pubkey) -> (parts: Vec<Vec<u8>>)
        ensures
            seeds_view(parts) == Self::spec_parts(*submission, *voter),
    {
        two_parts(key_part(submission), key_part(voter))
    }
}

} // verus!
