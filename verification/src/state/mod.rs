//! The records of the protocol, one module per kind.

pub mod escrow;
pub mod group;
pub mod group_member;
pub mod invite;
pub mod meme_challenge;
pub mod meme_submission;
pub mod message;
pub mod user_profile;
pub mod voter_record;

pub use escrow::Escrow;
pub use group::Group;
pub use group_member::GroupMember;
pub use invite::Invite;
pub use meme_challenge::MemeChallenge;
pub use meme_submission::MemeSubmission;
pub use message::Message;
pub use user_profile::UserProfile;
pub use voter_record::VoterRecord;
