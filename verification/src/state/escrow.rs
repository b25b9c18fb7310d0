//! A trade between two parties, held until both have agreed.

use vstd::prelude::*;
use crate::pubkey::Pubkey;
use crate::store::Record;
use crate::address::{key_part, seeds_view, spec_time_part, time_part, two_parts};

verus! {

/// A trade offered by an initiator to a counterparty. It is created, then
/// accepted by the counterparty, then completed; no step can be skipped.
#[derive(Clone, Debug, PartialEq, Eq)]
pub struct Escrow {
    pub initiator: Pubkey,
    pub counterparty: Pubkey,
    pub group: Pubkey,
    pub initiator_token: Pubkey,
    pub initiator_amount: u64,
    pub counterparty_token: Pubkey,
    pub counterparty_amount: u64,
    pub status: u8,
    pub created_at: i64,
    pub expires_at: i64,
    pub accepted: bool,
    pub accepted_at: Option<i64>,
    pub completed: bool,
    pub completed_at: Option<i64>,
    pub bump: u8,
}

impl View for Escrow {
    type V = Escrow;

    open spec fn view(&self) -> Escrow {
        *self
    }
}

impl Record for Escrow {
    open spec fn valid(view: Escrow) -> bool {
        view.wf()
    }

    fn is_valid(&self) -> (ok: bool) {
        self.initiator_amount > 0 && self.counterparty_amount > 0 && self.expires_at > self.created_at && (
        !self.completed || self.accepted)
    }
}

impl Escrow {
    /// The bytes that a stored escrow takes.
    pub const LEN: usize = 8 + 32 * 4 + 8 * 4 + 1 * 2 + (1 + 8) * 2 + 1 + 1;

    /// Both amounts are positive, the escrow expires after it was created,
    /// and it is completed only if it was accepted.
    pub open spec fn wf(&self) -> bool {
        &&& self.initiator_amount > 0
        &&& self.counterparty_amount > 0
        &&& self.expires_at > self.created_at
        &&& self.completed ==> self.accepted
    }

    /// The fields that identify an escrow: its initiator and the time it was created.
    pub open spec fn spec_parts(initiator: Pubkey, created_at: i64) -> Seq<Seq<u8>> {
        seq![initiator@, spec_time_part(created_at)]
    }

    /// The fields that identify an escrow: its initiator and the time it was created.
    pub fn parts(initiator: &Pubkey, created_at: i64) -> (parts: Vec<Vec<u8>>)
        ensures
            seeds_view(parts) == Self::spec_parts(*initiator, created_at),
    {
        two_parts(key_part(initiator), time_part(created_at))
    }
}

} // verus!
