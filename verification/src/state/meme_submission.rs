//! An entry in a meme contest.

use vstd::prelude::*;
use crate::pubkey::Pubkey;
use crate::store::Record;
use crate::text::len_of;
use crate::address::{key_part, seeds_view, two_parts};
use crate::text::byte_len;

verus! {

/// The entry of one submitter in one challenge, with the votes it has drawn.
#[derive(Clone, Debug, PartialEq, Eq)]
pub struct MemeSubmission {
    pub challenge: Pubkey,
    pub submitter: Pubkey,
    pub image_url: String,
    pub title: String,
    pub description: String,
    pub votes: u32,
    pub submitted_at: i64,
    pub bump: u8,
}

/// What a submission holds.
pub struct MemeSubmissionView {
    pub challenge: Pubkey,
    pub submitter: Pubkey,
    pub image_url: Seq<char>,
    pub title: Seq<char>,
    pub description: Seq<char>,
    pub votes: u32,
    pub submitted_at: i64,
    pub bump: u8,
}

impl View for MemeSubmission {
    type V = MemeSubmissionView;

    open spec fn view(&self) -> MemeSubmissionView {
        MemeSubmissionView {
            challenge: self.challenge,
            submitter: self.submitter,
            image_url: self.image_url@,
            title: self.title@,
            description: self.description@,
            votes: self.votes,
            submitted_at: self.submitted_at,
            bump: self.bump,
        }
    }
}

impl MemeSubmissionView {
    /// The texts are within their bounds.
    pub open spec fn wf(self) -> bool {
        &&& byte_len(self.image_url) <= MemeSubmission::MAX_URL
        &&& byte_len(self.title) <= MemeSubmission::MAX_TITLE
        &&& byte_len(self.description) <= MemeSubmission::MAX_DESCRIPTION
    }
}

impl Record for MemeSubmission {
    open spec fn valid(view: MemeSubmissionView) -> bool {
        view.wf()
    }

    fn is_valid(&self) -> (ok: bool) {
        len_of(&self.image_url) <= MemeSubmission::MAX_URL && len_of(&self.title) <= MemeSubmission::MAX_TITLE
            && len_of(&self.description) <= MemeSubmission::MAX_DESCRIPTION
    }
}

impl MemeSubmission {
    /// The bytes that a stored submission takes.
    pub const LEN: usize = 8 + 32 * 2 + (4 + 200) + (4 + 100) + (4 + 300) + 4 + 8 + 1;

    /// The longest image URL, in bytes.
    pub const MAX_URL: usize = 256;

    /// The longest title, in bytes.
    pub const MAX_TITLE: usize = 64;

    /// The longest description, in bytes.
    pub const MAX_DESCRIPTION: usize = 256;

    /// The fields that identify a submission: the challenge's address and the submitter.
    pub open spec fn spec_parts(challenge: Pubkey, submitter: Pubkey) -> Seq<Seq<u8>> {
        seq![challenge@, submitter@]
    }

    /// The fields that identify a submission: the challenge's address and the submitter.
    pub fn parts(challenge: &Pubkey, submitter: &Pubkey) -> (parts: Vec<Vec<u8>>)
        ensures
            seeds_view(parts) == Self::spec_parts(*challenge, *submitter),
    {
        two_parts(key_part(challenge), key_part(submitter))
    }
}

} // verus!
