//! The typed reasons for which a transition is refused.

use vstd::prelude::*;

verus! {

/// Why a transition was refused. A refused transition changes no record.
#[derive(Clone, Copy, Debug, PartialEq, Eq, Structural)]
pub enum ErrorCode {
    InsufficientTokenBalance,
    InsufficientSolBalance,
    NotGroupMember,
    NotGroupAdmin,
    NotGroupCreator,
    ChannelPostingRestricted,
    InviteExpired,
    InviteUsed,
    ChallengeEnded,
    ChallengeNotStarted,
    Unauthorized,
    NameTooLong,
    BioTooLong,
    InvalidMint,
    InvalidAmount,
    InvalidRecipient,
    ContentTooLong,
    UrlTooLong,
    TitleTooLong,
    DescriptionTooLong,
    PromptTooLong,
    CodeTooLong,
    InvalidMaxUses,
    InvalidExpiry,
    InvalidInvite,
    ChallengeInactive,
    AlreadyVoted,
    CannotVoteOwnSubmission,
    ChallengeNotEnded,
    ChallengeAlreadyCompleted,
    NoSubmissions,
    TutorialAlreadyCompleted,
    InvalidTutorialId,
    EscrowAlreadyAccepted,
    EscrowExpired,
    EscrowNotAccepted,
    NotOwner,
    NoNFT,
    InvalidToken,
    InvalidNFT,
    /// The address presented for a record is not the one derived from the
    /// record's identifying fields.
    AddressMismatch,
    /// A record is already stored at the address.
    AlreadyExists,
    /// No record is stored at the address.
    NotFound,
}

impl ErrorCode {
    /// The text shown to a user for this error.
    pub open spec fn spec_message(self) -> Seq<char> {
        match self {
            ErrorCode::InsufficientTokenBalance => "User does not have enough tokens to join this group"@,
            ErrorCode::InsufficientSolBalance => "User does not have enough SOL to join this whale group"@,
            ErrorCode::NotGroupMember => "User is not a member of this group"@,
            ErrorCode::NotGroupAdmin => "User is not an admin of this group"@,
            ErrorCode::NotGroupCreator => "Only the creator can perform this action"@,
            ErrorCode::ChannelPostingRestricted => "Only the creator can post in a channel"@,
            ErrorCode::InviteExpired => "This invite has expired"@,
            ErrorCode::InviteUsed => "This invite has reached its maximum number of uses"@,
            ErrorCode::ChallengeEnded => "This meme challenge has already ended"@,
            ErrorCode::ChallengeNotStarted => "This meme challenge has not started yet"@,
            ErrorCode::Unauthorized => "Unauthorized"@,
            ErrorCode::NameTooLong => "Username is too long."@,
            ErrorCode::BioTooLong => "Bio is too long."@,
            ErrorCode::InvalidMint => "Invalid mint for NFT profile picture."@,
            ErrorCode::InvalidAmount => "Invalid amount."@,
            ErrorCode::InvalidRecipient => "Invalid recipient for tip."@,
            ErrorCode::ContentTooLong => "Content is too long."@,
            ErrorCode::UrlTooLong => "URL is too long."@,
            ErrorCode::TitleTooLong => "Title is too long."@,
            ErrorCode::DescriptionTooLong => "Description is too long."@,
            ErrorCode::PromptTooLong => "Prompt is too long."@,
            ErrorCode::CodeTooLong => "Code is too long."@,
            ErrorCode::InvalidMaxUses => "Invalid max uses for invite."@,
            ErrorCode::InvalidExpiry => "Expiry date is in the past."@,
            ErrorCode::InvalidInvite => "Invalid invite."@,
            ErrorCode::ChallengeInactive => "Challenge is not active."@,
            ErrorCode::AlreadyVoted => "You have already voted."@,
            ErrorCode::CannotVoteOwnSubmission => "You cannot vote for your own submission."@,
            ErrorCode::ChallengeNotEnded => "Challenge has not ended yet."@,
            ErrorCode::ChallengeAlreadyCompleted => "Challenge has already been completed."@,
            ErrorCode::NoSubmissions => "No submissions to determine a winner."@,
            ErrorCode::TutorialAlreadyCompleted => "Tutorial has already been completed."@,
            ErrorCode::InvalidTutorialId => "Invalid tutorial ID."@,
            ErrorCode::EscrowAlreadyAccepted => "The escrow has already been accepted."@,
            ErrorCode::EscrowExpired => "The escrow has expired."@,
            ErrorCode::EscrowNotAccepted => "The escrow has not been accepted by the counterparty yet."@,
            ErrorCode::NotOwner => "You are not the owner of this account."@,
            ErrorCode::NoNFT => "You do not hold the required NFT."@,
            ErrorCode::InvalidToken => "The token is not valid for this group."@,
            ErrorCode::InvalidNFT => "The NFT is not valid for this group."@,
            ErrorCode::AddressMismatch => "The address does not match the record's identifying fields."@,
            ErrorCode::AlreadyExists => "A record already exists at this address."@,
            ErrorCode::NotFound => "No record exists at this address."@,
        }
    }

    /// The text shown to a user for this error.
    pub fn message(&self) -> (text: &'static str)
        ensures
            text@ == self.spec_message(),
    {
        match self {
            ErrorCode::InsufficientTokenBalance => "User does not have enough tokens to join this group",
            ErrorCode::InsufficientSolBalance => "User does not have enough SOL to join this whale group",
            ErrorCode::NotGroupMember => "User is not a member of this group",
            ErrorCode::NotGroupAdmin => "User is not an admin of this group",
            ErrorCode::NotGroupCreator => "Only the creator can perform this action",
            ErrorCode::ChannelPostingRestricted => "Only the creator can post in a channel",
            ErrorCode::InviteExpired => "This invite has expired",
            ErrorCode::InviteUsed => "This invite has reached its maximum number of uses",
            ErrorCode::ChallengeEnded => "This meme challenge has already ended",
            ErrorCode::ChallengeNotStarted => "This meme challenge has not started yet",
            ErrorCode::Unauthorized => "Unauthorized",
            ErrorCode::NameTooLong => "Username is too long.",
            ErrorCode::BioTooLong => "Bio is too long.",
            ErrorCode::InvalidMint => "Invalid mint for NFT profile picture.",
            ErrorCode::InvalidAmount => "Invalid amount.",
            ErrorCode::InvalidRecipient => "Invalid recipient for tip.",
            ErrorCode::ContentTooLong => "Content is too long.",
            ErrorCode::UrlTooLong => "URL is too long.",
            ErrorCode::TitleTooLong => "Title is too long.",
            ErrorCode::DescriptionTooLong => "Description is too long.",
            ErrorCode::PromptTooLong => "Prompt is too long.",
            ErrorCode::CodeTooLong => "Code is too long.",
            ErrorCode::InvalidMaxUses => "Invalid max uses for invite.",
            ErrorCode::InvalidExpiry => "Expiry date is in the past.",
            ErrorCode::InvalidInvite => "Invalid invite.",
            ErrorCode::ChallengeInactive => "Challenge is not active.",
            ErrorCode::AlreadyVoted => "You have already voted.",
            ErrorCode::CannotVoteOwnSubmission => "You cannot vote for your own submission.",
            ErrorCode::ChallengeNotEnded => "Challenge has not ended yet.",
            ErrorCode::ChallengeAlreadyCompleted => "Challenge has already been completed.",
            ErrorCode::NoSubmissions => "No submissions to determine a winner.",
            ErrorCode::TutorialAlreadyCompleted => "Tutorial has already been completed.",
            ErrorCode::InvalidTutorialId => "Invalid tutorial ID.",
            ErrorCode::EscrowAlreadyAccepted => "The escrow has already been accepted.",
            ErrorCode::EscrowExpired => "The escrow has expired.",
            ErrorCode::EscrowNotAccepted => "The escrow has not been accepted by the counterparty yet.",
            ErrorCode::NotOwner => "You are not the owner of this account.",
            ErrorCode::NoNFT => "You do not hold the required NFT.",
            ErrorCode::InvalidToken => "The token is not valid for this group.",
            ErrorCode::InvalidNFT => "The NFT is not valid for this group.",
            ErrorCode::AddressMismatch => "The address does not match the record's identifying fields.",
            ErrorCode::AlreadyExists => "A record already exists at this address.",
            ErrorCode::NotFound => "No record exists at this address.",
        }
    }
}

} // verus!
