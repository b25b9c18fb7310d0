//! The transitions of the protocol, one module per operation.

pub mod accept_escrow;
pub mod complete_escrow;
pub mod complete_tutorial;
pub mod create_escrow;
pub mod create_group;
pub mod create_invite;
pub mod create_meme_challenge;
pub mod create_user_profile;
pub mod end_meme_challenge;
pub mod join_group;
pub mod send_message;
pub mod set_profile_nft;
pub mod submit_meme;
pub mod tip_message;
pub mod update_user_profile;
pub mod use_invite;
pub mod vote_for_meme;
