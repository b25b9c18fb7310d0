//! What holds of the transitions taken together.

pub mod addressing;
pub mod escrow;
pub mod gating;
pub mod invite;
pub mod messaging;
pub mod records;
pub mod voting;
